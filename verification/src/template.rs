//! The form of a legend template.
//!
//! A template is text with tags in it. A tag is a key between double
//! braces, `{{ key }}`, with any number of spaces around the key, and it
//! stands for the value that a series has under that key. Nothing else is a
//! template: no filters, no expressions, no blocks, no comments.

use vstd::prelude::*;

verus! {

/// A key may begin with `c`: a letter of the English alphabet or an
/// underscore.
pub open spec fn is_key_start(c: char) -> bool {
    ('a' as u32 <= c as u32 <= 'z' as u32) || ('A' as u32 <= c as u32 <= 'Z' as u32) || c == '_'
}

/// A key may go on with `c`: a letter, an underscore or a digit.
pub open spec fn is_key_char(c: char) -> bool {
    is_key_start(c) || ('0' as u32 <= c as u32 <= '9' as u32)
}

/// The first place from `i` on that holds no space, or the end.
pub open spec fn skip_spaces(t: Seq<char>, i: int) -> int
    decreases t.len() - i,
{
    if 0 <= i < t.len() && t[i] == ' ' {
        skip_spaces(t, i + 1)
    } else {
        i
    }
}

/// The first place from `i` on that holds no character of a key, or the end.
pub open spec fn skip_key(t: Seq<char>, i: int) -> int
    decreases t.len() - i,
{
    if 0 <= i < t.len() && is_key_char(t[i]) {
        skip_key(t, i + 1)
    } else {
        i
    }
}

/// Two opening braces stand at `i`.
pub open spec fn opens_tag(t: Seq<char>, i: int) -> bool {
    0 <= i && i + 1 < t.len() && t[i] == '{' && t[i + 1] == '{'
}

/// The opening of a block or of a comment stands at `i`: a brace followed by
/// a percent sign or by a hash.
pub open spec fn opens_other(t: Seq<char>, i: int) -> bool {
    0 <= i && i + 1 < t.len() && t[i] == '{' && (t[i + 1] == '%' || t[i + 1] == '#')
}

/// Where the key of the tag that opens at `i` begins.
pub open spec fn key_start(t: Seq<char>, i: int) -> int {
    skip_spaces(t, i + 2)
}

/// Where the key of the tag that opens at `i` ends.
pub open spec fn key_end(t: Seq<char>, i: int) -> int {
    skip_key(t, key_start(t, i))
}

/// The place behind the tag that opens at `i`, `None` where what follows
/// the braces is not spaces, a key, spaces and two closing braces.
pub open spec fn tag_end(t: Seq<char>, i: int) -> Option<int> {
    let j = key_start(t, i);
    let l = skip_spaces(t, key_end(t, i));
    if 0 <= j < t.len() && is_key_start(t[j]) && 0 <= l && l + 1 < t.len() && t[l] == '}' && t[l
        + 1] == '}' {
        Some(l + 2)
    } else {
        None
    }
}

/// From `i` on, `t` is text and tags only.
pub open spec fn simple_from(t: Seq<char>, i: int) -> bool
    decreases t.len() - i,
{
    if i < 0 || i >= t.len() {
        true
    } else if opens_tag(t, i) {
        match tag_end(t, i) {
            Some(end) => if end > i {
                simple_from(t, end)
            } else {
                false
            },
            None => false,
        }
    } else if opens_other(t, i) {
        false
    } else {
        simple_from(t, i + 1)
    }
}

/// `t` is a template: text and `{{ key }}` tags only.
pub open spec fn is_simple(t: Seq<char>) -> bool {
    simple_from(t, 0)
}

/// The characters of `s`, one by one.
fn chars_of(s: &str) -> (v: Vec<char>)
    ensures
        v@ == s@,
{
    let mut v: Vec<char> = Vec::new();
    for c in it: s.chars()
        invariant
            it.seq() == s@,
            v@ == s@.take(it.index() as int),
    {
        v.push(c);
        assert(v@ =~= s@.take(it.index() + 1));
    }
    assert(s@.take(s@.len() as int) =~= s@);
    v
}

fn key_may_start(c: char) -> (b: bool)
    ensures
        b == is_key_start(c),
{
    (c >= 'a' && c <= 'z') || (c >= 'A' && c <= 'Z') || c == '_'
}

fn key_may_go_on(c: char) -> (b: bool)
    ensures
        b == is_key_char(c),
{
    key_may_start(c) || (c >= '0' && c <= '9')
}

fn spaces_end(t: &Vec<char>, i: usize) -> (j: usize)
    requires
        i <= t@.len(),
    ensures
        j == skip_spaces(t@, i as int),
        i <= j <= t@.len(),
{
    let mut j = i;
    while j < t.len() && t[j] == ' '
        invariant
            i <= j <= t@.len(),
            skip_spaces(t@, i as int) == skip_spaces(t@, j as int),
        decreases t@.len() - j,
    {
        j += 1;
    }
    j
}

fn key_chars_end(t: &Vec<char>, i: usize) -> (j: usize)
    requires
        i <= t@.len(),
    ensures
        j == skip_key(t@, i as int),
        i <= j <= t@.len(),
{
    let mut j = i;
    while j < t.len() && key_may_go_on(t[j])
        invariant
            i <= j <= t@.len(),
            skip_key(t@, i as int) == skip_key(t@, j as int),
        decreases t@.len() - j,
    {
        j += 1;
    }
    j
}

/// The place behind the tag that opens at `i`.
fn tag_end_in(t: &Vec<char>, i: usize) -> (r: Option<usize>)
    requires
        opens_tag(t@, i as int),
    ensures
        match r {
            Some(end) => tag_end(t@, i as int) == Some(end as int) && i < end <= t@.len(),
            None => tag_end(t@, i as int) is None,
        },
{
    let n = t.len();
    let j = spaces_end(t, i + 2);
    if j >= n || !key_may_start(t[j]) {
        return None;
    }
    let k = key_chars_end(t, j);
    let l = spaces_end(t, k);
    if n - l >= 2 && t[l] == '}' && t[l + 1] == '}' {
        Some(l + 2)
    } else {
        None
    }
}

/// Tells whether `tmpl` is a template: text and `{{ key }}` tags only.
pub fn is_simple_template(tmpl: &str) -> (b: bool)
    ensures
        b == is_simple(tmpl@),
{
    let t = chars_of(tmpl);
    let n = t.len();
    let mut i: usize = 0;
    while i < n
        invariant
            i <= n,
            n == t@.len(),
            t@ == tmpl@,
            is_simple(t@) == simple_from(t@, i as int),
        decreases n - i,
    {
        if t[i] == '{' && i + 1 < n {
            let next = t[i + 1];
            if next == '{' {
                match tag_end_in(&t, i) {
                    Some(end) => {
                        i = end;
                    },
                    None => {
                        return false;
                    },
                }
            } else if next == '%' || next == '#' {
                return false;
            } else {
                i += 1;
            }
        } else {
            i += 1;
        }
    }
    true
}

} // verus!
