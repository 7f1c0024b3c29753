//! The range of an axis, computed from the coordinates that it has to show.

use itertools::Itertools;
use vstd::prelude::*;

verus! {

/// The half-open interval from `min` up to `max` that an axis shows.
#[derive(Clone, Copy, Debug, PartialEq, Eq, Structural)]
pub struct AxisRange {
    pub min: i64,
    pub max: i64,
}

impl AxisRange {
    /// The bounds are in order.
    pub open spec fn wf(self) -> bool {
        self.min <= self.max
    }
}

/// The extremes of a list of coordinates.
#[derive(Clone, Copy, Debug, PartialEq, Eq, Structural)]
pub enum Extent {
    /// The list is empty.
    NoElements,
    /// The list has one element, which is both its least and its greatest.
    OneElement(i64),
    /// The least and the greatest element of a list of two or more.
    MinMax(i64, i64),
}

/// `m` occurs in `s` and nothing in `s` is smaller.
pub open spec fn is_least(m: i64, s: Seq<i64>) -> bool {
    s.contains(m) && forall|i: int| 0 <= i < s.len() ==> m <= s[i]
}

/// `m` occurs in `s` and nothing in `s` is greater.
pub open spec fn is_greatest(m: i64, s: Seq<i64>) -> bool {
    s.contains(m) && forall|i: int| 0 <= i < s.len() ==> s[i] <= m
}

/// `e` names the extremes of `s`.
pub open spec fn is_extent_of(e: Extent, s: Seq<i64>) -> bool {
    match e {
        Extent::NoElements => s.len() == 0,
        Extent::OneElement(a) => s.len() == 1 && a == s[0],
        Extent::MinMax(a, b) => s.len() >= 2 && is_least(a, s) && is_greatest(b, s),
    }
}

/// Calls itertools' `minmax` on the elements in their order. Trusted: with
/// no element it returns `NoElements`, with one `OneElement` of it, and with
/// more `MinMax` of the least and the greatest, as its documentation says.
#[verifier::external_body]
pub(crate) fn minmax(elems: &Vec<i64>) -> (e: Extent)
    ensures
        is_extent_of(e, elems@),
{
    match elems.iter().copied().minmax() {
        itertools::MinMaxResult::NoElements => Extent::NoElements,
        itertools::MinMaxResult::OneElement(a) => Extent::OneElement(a),
        itertools::MinMaxResult::MinMax(a, b) => Extent::MinMax(a, b),
    }
}

/// `r` is the range of an axis that shows `elems`: `empty` where there is no
/// element, `epsilon` to either side of a single element, else from the
/// least to the greatest element.
pub open spec fn is_range_of(r: AxisRange, elems: Seq<i64>, epsilon: i64, empty: AxisRange) -> bool {
    if elems.len() == 0 {
        r == empty
    } else if elems.len() == 1 {
        r.min == elems[0] - epsilon && r.max == elems[0] + epsilon
    } else {
        is_least(r.min, elems) && is_greatest(r.max, elems)
    }
}

/// The range of `elems` can be held: around a single element both bounds
/// are numbers of 64 bits.
pub open spec fn range_fits(elems: Seq<i64>, epsilon: i64) -> bool {
    elems.len() == 1 ==> {
        &&& i64::MIN <= elems[0] - epsilon <= i64::MAX
        &&& i64::MIN <= elems[0] + epsilon <= i64::MAX
    }
}

/// The range of an axis that shows `elems`.
///
/// Without an element it is `empty`, unchanged. Around a single element `a`
/// it reaches from `a - epsilon` to `a + epsilon`. For two or more elements
/// it reaches from the least to the greatest, with no margin.
pub fn iter_to_range(elems: &Vec<i64>, epsilon: i64, empty: AxisRange) -> (r: AxisRange)
    requires
        range_fits(elems@, epsilon),
    ensures
        is_range_of(r, elems@, epsilon, empty),
        empty.wf() && epsilon >= 0 ==> r.wf(),
        elems@.len() == 1 && epsilon > 0 ==> r.min < r.max,
{
    match minmax(elems) {
        Extent::NoElements => empty,
        Extent::OneElement(a) => AxisRange { min: a - epsilon, max: a + epsilon },
        Extent::MinMax(a, b) => {
            assert(a <= b) by {
                let i = choose|i: int| 0 <= i < elems@.len() && elems@[i] == b;
                assert(a <= elems@[i]);
            }
            AxisRange { min: a, max: b }
        },
    }
}

/// The range of an axis that shows `elems`, for every list and every
/// `epsilon`: `None` exactly where the range cannot be held, because a bound
/// around a single element is no number of 64 bits.
pub fn checked_range(elems: &Vec<i64>, epsilon: i64, empty: AxisRange) -> (r: Option<AxisRange>)
    ensures
        match r {
            Some(range) => range_fits(elems@, epsilon) && is_range_of(
                range,
                elems@,
                epsilon,
                empty,
            ),
            None => !range_fits(elems@, epsilon),
        },
{
    if elems.len() == 1 {
        let a = elems[0];
        if a.checked_sub(epsilon).is_none() || a.checked_add(epsilon).is_none() {
            return None;
        }
    }
    Some(iter_to_range(elems, epsilon, empty))
}

/// A list has one range only: whatever the elements, the margin and the
/// fallback are, two ranges of the same list are the same range. Without an
/// element it is the fallback, around one element the element less and plus
/// the margin, else the minimum and the maximum of the list.
pub proof fn lemma_range_is_unique(
    elems: Seq<i64>,
    epsilon: i64,
    empty: AxisRange,
    p: AxisRange,
    q: AxisRange,
)
    requires
        is_range_of(p, elems, epsilon, empty),
        is_range_of(q, elems, epsilon, empty),
    ensures
        p == q,
        elems.len() == 0 ==> p == empty,
        elems.len() == 1 ==> p.min == elems[0] - epsilon && p.max == elems[0] + epsilon,
{
    if elems.len() >= 2 {
        let i = choose|i: int| 0 <= i < elems.len() && elems[i] == p.min;
        let j = choose|j: int| 0 <= j < elems.len() && elems[j] == q.min;
        assert(q.min <= elems[i] && p.min <= elems[j]);
        let k = choose|k: int| 0 <= k < elems.len() && elems[k] == p.max;
        let l = choose|l: int| 0 <= l < elems.len() && elems[l] == q.max;
        assert(elems[k] <= q.max && elems[l] <= p.max);
    }
}

} // verus!
