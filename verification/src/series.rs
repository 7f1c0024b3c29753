//! Series of samples as they come from a metrics query.

use crate::labels::Labels;
use crate::time::Timestamp;
use vstd::prelude::*;

verus! {

/// One measurement: when it was taken, and its value as the bits of an IEEE
/// 754 double precision number. Every value can be held, the infinities and
/// the NaNs too.
#[derive(Clone, Copy, Debug, PartialEq, Eq, Structural)]
pub struct Sample {
    pub time: Timestamp,
    pub value: u64,
}

/// One series: the labels that identify it and its samples in the order in
/// which they were taken.
#[derive(Debug)]
pub struct Metric {
    pub labels: Labels,
    pub data: Vec<Sample>,
}

/// The values of `data` in their order.
pub open spec fn values_of(data: Seq<Sample>) -> Seq<u64> {
    Seq::new(data.len(), |i: int| data[i].value)
}

/// The values of all samples of `metrics`, series after series.
pub open spec fn all_values(metrics: Seq<Metric>) -> Seq<u64>
    decreases metrics.len(),
{
    if metrics.len() == 0 {
        Seq::empty()
    } else {
        all_values(metrics.drop_last()) + values_of(metrics.last().data@)
    }
}

/// Collects the values of all samples of `metrics`, series after series.
pub fn collect_values(metrics: &Vec<Metric>) -> (values: Vec<u64>)
    ensures
        values@ == all_values(metrics@),
{
    let mut values: Vec<u64> = Vec::new();
    let n = metrics.len();
    let mut i: usize = 0;
    while i < n
        invariant
            i <= n,
            n == metrics@.len(),
            values@ == all_values(metrics@.take(i as int)),
        decreases n - i,
    {
        let data = &metrics[i].data;
        let m = data.len();
        let ghost before = values@;
        let mut j: usize = 0;
        while j < m
            invariant
                j <= m,
                m == data@.len(),
                values@ == before + values_of(data@).take(j as int),
            decreases m - j,
        {
            values.push(data[j].value);
            j += 1;
        }
        proof {
            assert(metrics@.take(i + 1).drop_last() =~= metrics@.take(i as int));
        }
        i += 1;
    }
    assert(metrics@.take(n as int) =~= metrics@);
    values
}

} // verus!
