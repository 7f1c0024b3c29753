//! Label sets and the legend text made from them.

use crate::error::{Error, TemplateFailure};
use crate::template::{is_simple, is_simple_template};
use tera::Error as TemplateError;
use vstd::prelude::*;

verus! {

/// `String::push` appends one character to the end of the string.
pub assume_specification[ String::push ](s: &mut String, c: char)
    ensures
        final(s)@ == old(s)@.push(c),
;

/// A label as text: key and value.
pub type Pair = (Seq<char>, Seq<char>);

/// The key under which a series carries its metric name.
pub open spec fn name_key() -> Seq<char> {
    seq!['_', '_', 'n', 'a', 'm', 'e', '_', '_']
}

/// No two labels of `pairs` have the same key.
pub open spec fn distinct_keys(pairs: Seq<Pair>) -> bool {
    forall|i: int, j: int| 0 <= i < j < pairs.len() ==> pairs[i].0 != pairs[j].0
}

/// Position of the label with key `key`, `None` when there is none.
pub open spec fn position_of(pairs: Seq<Pair>, key: Seq<char>) -> Option<int>
    decreases pairs.len(),
{
    if pairs.len() == 0 {
        None
    } else if pairs.last().0 == key {
        Some(pairs.len() - 1)
    } else {
        position_of(pairs.drop_last(), key)
    }
}

/// Value of the label with key `key`, `None` when there is none.
pub open spec fn value_of(pairs: Seq<Pair>, key: Seq<char>) -> Option<Seq<char>> {
    match position_of(pairs, key) {
        Some(i) => Some(pairs[i].1),
        None => None,
    }
}

/// `position_of` finds a label with the key if there is one, and then the
/// place where it stands.
pub proof fn lemma_position_of(pairs: Seq<Pair>, key: Seq<char>)
    ensures
        match position_of(pairs, key) {
            Some(i) => 0 <= i < pairs.len() && pairs[i].0 == key,
            None => forall|i: int| 0 <= i < pairs.len() ==> pairs[i].0 != key,
        },
    decreases pairs.len(),
{
    if pairs.len() > 0 && pairs.last().0 != key {
        lemma_position_of(pairs.drop_last(), key);
        assert(forall|i: int| 0 <= i < pairs.len() - 1 ==> pairs.drop_last()[i] == pairs[i]);
    }
}

/// Where a key stands depends on the keys alone, not on the values.
pub proof fn lemma_position_by_keys(s: Seq<Pair>, t: Seq<Pair>, key: Seq<char>)
    requires
        s.len() == t.len(),
        forall|i: int| 0 <= i < s.len() ==> s[i].0 == t[i].0,
    ensures
        position_of(s, key) == position_of(t, key),
    decreases s.len(),
{
    if s.len() > 0 && s.last().0 != key {
        lemma_position_by_keys(s.drop_last(), t.drop_last(), key);
    }
}

/// What stands for `c` inside a quoted value: a quote gets a backslash in
/// front, every other character stands for itself.
pub open spec fn escaped_char(c: char) -> Seq<char> {
    if c == '"' {
        seq!['\\', '"']
    } else {
        seq![c]
    }
}

/// `v` with every quote escaped.
pub open spec fn escaped(v: Seq<char>) -> Seq<char>
    decreases v.len(),
{
    if v.len() == 0 {
        Seq::empty()
    } else {
        escaped(v.drop_last()) + escaped_char(v.last())
    }
}

/// One label as it stands between the braces: `key="value"`.
pub open spec fn pair_text(p: Pair) -> Seq<char> {
    p.0 + seq!['=', '"'] + escaped(p.1) + seq!['"']
}

/// The labels that stand between the braces: all but the metric name, in
/// their order.
pub open spec fn shown(pairs: Seq<Pair>) -> Seq<Pair>
    decreases pairs.len(),
{
    if pairs.len() == 0 {
        Seq::empty()
    } else if pairs.last().0 == name_key() {
        shown(pairs.drop_last())
    } else {
        shown(pairs.drop_last()).push(pairs.last())
    }
}

/// The texts of `pairs` with a comma between each two.
pub open spec fn joined(pairs: Seq<Pair>) -> Seq<char>
    decreases pairs.len(),
{
    if pairs.len() == 0 {
        Seq::empty()
    } else if pairs.len() == 1 {
        pair_text(pairs[0])
    } else {
        joined(pairs.drop_last()) + seq![','] + pair_text(pairs.last())
    }
}

/// The metric name of a label set, empty when it has none.
pub open spec fn metric_name(pairs: Seq<Pair>) -> Seq<char> {
    match value_of(pairs, name_key()) {
        Some(name) => name,
        None => Seq::empty(),
    }
}

/// The canonical text of a label set: the metric name, then in braces the
/// other labels as `key="value"`, parted by commas.
pub open spec fn canonical(pairs: Seq<Pair>) -> Seq<char> {
    metric_name(pairs) + seq!['{'] + joined(shown(pairs)) + seq!['}']
}

/// The labels that identify a series: keys with their values, no key twice,
/// in the order in which the keys were first inserted.
#[derive(Debug)]
pub struct Labels {
    pairs: Vec<(String, String)>,
}

/// The labels of `pairs` as text.
pub open spec fn texts(pairs: Seq<(String, String)>) -> Seq<Pair> {
    Seq::new(pairs.len(), |i: int| (pairs[i].0@, pairs[i].1@))
}

impl View for Labels {
    type V = Seq<Pair>;

    closed spec fn view(&self) -> Seq<Pair> {
        texts(self.pairs@)
    }
}

impl Labels {
    #[verifier::type_invariant]
    spec fn keys_differ(self) -> bool {
        distinct_keys(texts(self.pairs@))
    }

    /// A label set without labels.
    pub fn new() -> (l: Labels)
        ensures
            l@ == Seq::<Pair>::empty(),
    {
        let l = Labels { pairs: Vec::new() };
        l
    }

    /// Number of labels. No two of them have the same key.
    pub fn len(&self) -> (n: usize)
        ensures
            n == self@.len(),
            distinct_keys(self@),
    {
        proof {
            use_type_invariant(self);
        }
        self.pairs.len()
    }

    /// Key of the label at position `i`.
    pub fn key_at(&self, i: usize) -> (k: &String)
        requires
            i < self@.len(),
        ensures
            k@ == self@[i as int].0,
    {
        &self.pairs[i].0
    }

    /// Value of the label at position `i`.
    pub fn value_at(&self, i: usize) -> (v: &String)
        requires
            i < self@.len(),
        ensures
            v@ == self@[i as int].1,
    {
        &self.pairs[i].1
    }

    /// Position of the label with key `key`.
    pub fn find(&self, key: &String) -> (r: Option<usize>)
        ensures
            match r {
                Some(i) => position_of(self@, key@) == Some(i as int) && i < self@.len(),
                None => position_of(self@, key@) is None,
            },
    {
        let mut found: Option<usize> = None;
        let n = self.pairs.len();
        let mut i: usize = 0;
        while i < n
            invariant
                i <= n,
                n == self.pairs@.len(),
                match found {
                    Some(j) => position_of(self@.take(i as int), key@) == Some(j as int) && j < i,
                    None => position_of(self@.take(i as int), key@) is None,
                },
            decreases n - i,
        {
            proof {
                assert(self@.take(i + 1).drop_last() =~= self@.take(i as int));
            }
            if self.pairs[i].0 == *key {
                found = Some(i);
            }
            i += 1;
        }
        proof {
            assert(self@.take(n as int) =~= self@);
        }
        found
    }

    /// Sets the label `key` to `value`: a label with that key gets the new
    /// value and keeps its place, a new key goes to the end. Afterwards `key`
    /// has the value `value`, and every other key has what it had.
    pub fn insert(&mut self, key: String, value: String)
        ensures
            match position_of(old(self)@, key@) {
                Some(i) => final(self)@ == old(self)@.update(i, (key@, value@)),
                None => final(self)@ == old(self)@.push((key@, value@)),
            },
            value_of(final(self)@, key@) == Some(value@),
            forall|other: Seq<char>|
                other != key@ ==> value_of(final(self)@, other) == value_of(old(self)@, other),
    {
        proof {
            use_type_invariant(&*self);
            lemma_position_of(self@, key@);
        }
        let ghost before = self@;
        let place = self.find(&key);
        let mut taken = Labels::new();
        core::mem::swap(self, &mut taken);
        let mut pairs = taken.pairs;
        match place {
            Some(i) => {
                pairs.set(i, (key, value));
                assert(texts(pairs@) =~= before.update(i as int, (key@, value@)));
            },
            None => {
                pairs.push((key, value));
                assert(texts(pairs@) =~= before.push((key@, value@)));
            },
        }
        *self = Labels { pairs };
        proof {
            let after = self@;
            match position_of(before, key@) {
                Some(i) => {
                    assert forall|other: Seq<char>| true implies position_of(after, other)
                        == position_of(before, other) by {
                        lemma_position_by_keys(after, before, other);
                    }
                    assert forall|other: Seq<char>| other != key@ implies value_of(after, other)
                        == value_of(before, other) by {
                        lemma_position_of(before, other);
                    }
                },
                None => {
                    assert(after.drop_last() =~= before);
                    assert forall|other: Seq<char>| other != key@ implies value_of(after, other)
                        == value_of(before, other) by {
                        lemma_position_of(before, other);
                    }
                },
            }
        }
    }

    /// Value of the label with key `key`.
    pub fn get(&self, key: &String) -> (r: Option<&String>)
        ensures
            match value_of(self@, key@) {
                Some(v) => r is Some && r->Some_0@ == v,
                None => r is None,
            },
    {
        match self.find(key) {
            Some(i) => {
                Some(&self.pairs[i].1)
            },
            None => None,
        }
    }
}

/// Appends `v` to `out` with every quote escaped.
fn push_escaped(out: &mut String, v: &str)
    ensures
        final(out)@ == old(out)@ + escaped(v@),
{
    let ghost start = out@;
    for c in it: v.chars()
        invariant
            it.seq() == v@,
            out@ == start + escaped(v@.take(it.index() as int)),
    {
        proof {
            let i = it.index() as int;
            assert(v@.take(i + 1).drop_last() =~= v@.take(i));
        }
        if c == '"' {
            out.push('\\');
            out.push('"');
        } else {
            out.push(c);
        }
    }
    assert(v@.take(v@.len() as int) =~= v@);
}

/// `shown` and `joined` step by step: what one more label adds.
proof fn lemma_next_pair(pairs: Seq<Pair>, i: int)
    requires
        0 <= i < pairs.len(),
    ensures
        pairs[i].0 == name_key() ==> shown(pairs.take(i + 1)) == shown(pairs.take(i)),
        pairs[i].0 != name_key() ==> shown(pairs.take(i + 1)) == shown(pairs.take(i)).push(
            pairs[i],
        ),
        pairs[i].0 != name_key() && shown(pairs.take(i)).len() == 0 ==> joined(
            shown(pairs.take(i + 1)),
        ) == pair_text(pairs[i]),
        pairs[i].0 != name_key() && shown(pairs.take(i)).len() > 0 ==> joined(
            shown(pairs.take(i + 1)),
        ) == joined(shown(pairs.take(i))) + seq![','] + pair_text(pairs[i]),
{
    assert(pairs.take(i + 1).drop_last() =~= pairs.take(i));
    let before = shown(pairs.take(i));
    if pairs[i].0 != name_key() {
        let after = before.push(pairs[i]);
        assert(after.drop_last() =~= before);
    }
}

/// The canonical text of a label set: the metric name, then in braces every
/// other label as `key="value"` with the quotes inside a value escaped, the
/// labels parted by commas and in the order of the set.
pub fn render_labels(labels: &Labels) -> (s: String)
    ensures
        s@ == canonical(labels@),
{
    let name_label = String::from_str("__name__");
    proof {
        reveal_strlit("__name__");
        reveal_strlit("{");
        reveal_strlit("}");
        reveal_strlit(",");
        reveal_strlit("=\"");
        reveal_strlit("\"");
        assert(name_label@ =~= name_key());
    }
    let mut s = match labels.get(&name_label) {
        Some(name) => name.clone(),
        None => String::new(),
    };
    s.append("{");
    let ghost head = s@;
    let n = labels.len();
    let mut any = false;
    let mut i: usize = 0;
    while i < n
        invariant
            i <= n,
            n == labels@.len(),
            name_label@ == name_key(),
            any == (shown(labels@.take(i as int)).len() > 0),
            s@ == head + joined(shown(labels@.take(i as int))),
        decreases n - i,
    {
        proof {
            reveal_strlit(",");
            reveal_strlit("=\"");
            reveal_strlit("\"");
            lemma_next_pair(labels@, i as int);
        }
        let key = labels.key_at(i);
        if *key != name_label {
            if any {
                s.append(",");
            }
            s.append(key.as_str());
            s.append("=\"");
            push_escaped(&mut s, labels.value_at(i).as_str());
            s.append("\"");
            any = true;
        }
        i += 1;
    }
    assert(labels@.take(n as int) =~= labels@);
    s.append("}");
    s
}

/// The text that tera makes of the template `tmpl` for a series with the
/// labels `labels`, `None` where tera reports an error. It stands for
/// templates of the supported form only.
pub uninterp spec fn tera_rendered(tmpl: Seq<char>, labels: Seq<Pair>) -> Option<Seq<char>>;

/// Renders `tmpl` with tera's `Tera::one_off`, without escaping, in a context
/// that holds every label as a variable of its key.
///
/// Trusted. The template is text and `{{ key }}` tags only, so tera reads
/// nothing but the template and the context: what it returns depends on
/// these two alone and is what the name `tera_rendered` stands for, the text
/// where it succeeds and nothing where it fails. Templates of another form
/// are left out: among them are some on which tera does not return.
#[verifier::external_body]
fn render_template(tmpl: &str, labels: &Labels) -> (r: Result<String, TemplateError>)
    requires
        is_simple(tmpl@),
    ensures
        match r {
            Ok(text) => tera_rendered(tmpl@, labels@) == Some(text@),
            Err(_) => tera_rendered(tmpl@, labels@) is None,
        },
{
    let mut context = tera::Context::new();
    for (key, value) in labels.pairs.iter() {
        context.insert(key.as_str(), value);
    }
    tera::Tera::one_off(tmpl, &context, false)
}

/// How the legend text of a series is made: from a template that the caller
/// supplies, or in the canonical form.
#[derive(Clone, Copy, Debug)]
pub enum LabelRenderer<'a> {
    Canonical,
    Template(&'a str),
}

/// The legend text that follows from the labels and from what rendering the
/// template gave, `None` standing for no template: without a template the
/// canonical text, else the rendered text or the engine's error.
pub open spec fn label_of(
    pairs: Seq<Pair>,
    rendered: Option<Result<String, TemplateError>>,
) -> Result<Seq<char>, Error> {
    match rendered {
        None => Ok(canonical(pairs)),
        Some(Ok(text)) => Ok(text@),
        Some(Err(e)) => Err(Error::Template(TemplateFailure::Engine(e))),
    }
}

/// The legend text of a series, given its labels and, where a template is
/// in use, what rendering the template for these labels gave.
pub fn label_from(labels: &Labels, rendered: Option<Result<String, TemplateError>>) -> (r: Result<
    String,
    Error,
>)
    ensures
        match label_of(labels@, rendered) {
            Ok(text) => r is Ok && r->Ok_0@ == text,
            Err(e) => r == Err::<String, Error>(e),
        },
{
    match rendered {
        None => Ok(render_labels(labels)),
        Some(Ok(text)) => Ok(text),
        Some(Err(e)) => Err(Error::Template(TemplateFailure::Engine(e))),
    }
}

/// The template as text, where there is one.
pub open spec fn template_text(tmpl: Option<&str>) -> Option<Seq<char>> {
    match tmpl {
        Some(t) => Some(t@),
        None => None,
    }
}

/// The legend text of a series with the labels `pairs`: without a template
/// the canonical text, with a template of the supported form what tera makes
/// of it. There is none where the template is of another form or where tera
/// fails.
pub open spec fn legend_of(pairs: Seq<Pair>, tmpl: Option<Seq<char>>) -> Option<Seq<char>> {
    match tmpl {
        None => Some(canonical(pairs)),
        Some(t) => if is_simple(t) {
            tera_rendered(t, pairs)
        } else {
            None
        },
    }
}

/// `r` is what making the legend text of a series gives: the text of
/// `legend_of` where there is one; else the `Template` error, which names
/// the form where the template is not of the supported form and the engine
/// where tera failed.
pub open spec fn is_label_of(r: Result<String, Error>, pairs: Seq<Pair>, tmpl: Option<Seq<char>>) -> bool {
    match legend_of(pairs, tmpl) {
        Some(text) => r is Ok && r->Ok_0@ == text,
        None => match r {
            Err(Error::Template(TemplateFailure::Form)) => tmpl is Some && !is_simple(tmpl->Some_0),
            Err(Error::Template(TemplateFailure::Engine(_))) => tmpl is Some && is_simple(
                tmpl->Some_0,
            ),
            _ => false,
        },
    }
}

impl<'a> LabelRenderer<'a> {
    /// The renderer for an optional template.
    pub fn select(tmpl: Option<&'a str>) -> (r: LabelRenderer<'a>)
        ensures
            match tmpl {
                Some(t) => r == LabelRenderer::Template(t),
                None => r == LabelRenderer::<'a>::Canonical,
            },
    {
        match tmpl {
            Some(t) => LabelRenderer::Template(t),
            None => LabelRenderer::Canonical,
        }
    }

    /// The template of the renderer as text, where it has one.
    pub open spec fn template(self) -> Option<Seq<char>> {
        match self {
            LabelRenderer::Canonical => None,
            LabelRenderer::Template(t) => Some(t@),
        }
    }

    /// The legend text of a series with the labels `labels`.
    ///
    /// The canonical renderer always succeeds and returns the canonical
    /// text. The template renderer refuses a template that is not text and
    /// `{{ key }}` tags only; any other it hands to tera, and returns the
    /// text that tera makes of it or tera's error.
    pub fn render(&self, labels: &Labels) -> (r: Result<String, Error>)
        ensures
            is_label_of(r, labels@, self.template()),
    {
        match self {
            LabelRenderer::Canonical => label_from(labels, None),
            LabelRenderer::Template(t) => {
                if is_simple_template(t) {
                    label_from(labels, Some(render_template(t, labels)))
                } else {
                    Err(Error::Template(TemplateFailure::Form))
                }
            },
        }
    }
}

/// The legend text of a series: `tmpl` rendered with the labels as its
/// variables, or the canonical text where there is no template.
///
/// A template is text and `{{ key }}` tags only; one of another form fails
/// with the `Template` error that names the form, one that tera cannot
/// render for these labels with the `Template` error that holds tera's.
pub fn format_label(labels: &Labels, tmpl: Option<&str>) -> (r: Result<String, Error>)
    ensures
        is_label_of(r, labels@, template_text(tmpl)),
{
    LabelRenderer::select(tmpl).render(labels)
}

} // verus!
