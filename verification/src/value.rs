//! Sample values and the range of the value axis.
//!
//! A value is an IEEE 754 double precision number, held by its bits: the
//! sign in the highest bit, then eleven bits of exponent and 52 bits of
//! fraction. Values are ordered as numbers. The infinities lie beyond the
//! finite numbers, and a NaN lies beyond the infinity of its sign, so that
//! every value has its place and none is dropped.

use crate::range::{is_extent_of, is_greatest, is_least, minmax, Extent};
use vstd::arithmetic::power2::{lemma2_to64, lemma2_to64_rest, lemma_pow2_adds, lemma_pow2_pos, lemma_pow2_strictly_increases, pow2};
use vstd::prelude::*;

verus! {

/// The sign bit, which alone is the negative zero.
pub const SIGN_BIT: u64 = 0x8000_0000_0000_0000;

/// Number of fractions per exponent: two to the power of 52.
pub const FRACTIONS: u64 = 0x0010_0000_0000_0000;

/// The bits of 0.
pub const ZERO: u64 = 0;

/// The bits of 0.5.
pub const HALF: u64 = 0x3FE0_0000_0000_0000;

/// The bits of 1.
pub const ONE: u64 = 0x3FF0_0000_0000_0000;

/// The sign bit is set.
pub open spec fn is_negative(bits: u64) -> bool {
    bits >= SIGN_BIT
}

/// The bits without the sign.
pub open spec fn magnitude(bits: u64) -> int {
    if bits >= SIGN_BIT {
        bits - SIGN_BIT
    } else {
        bits as int
    }
}

/// The exponent field, from 0 to 2047.
pub open spec fn exponent(bits: u64) -> int {
    magnitude(bits) / (FRACTIONS as int)
}

/// The fraction field, below two to the power of 52.
pub open spec fn fraction(bits: u64) -> int {
    magnitude(bits) % (FRACTIONS as int)
}

/// The bits stand for a number, not for an infinity or a NaN.
pub open spec fn is_finite(bits: u64) -> bool {
    exponent(bits) < 2047
}

/// The bits stand for a NaN.
pub open spec fn is_nan(bits: u64) -> bool {
    exponent(bits) == 2047 && fraction(bits) != 0
}

/// The absolute value of a finite number in units of two to the power of
/// -1074, the smallest step between two numbers. On an infinity or a NaN the
/// same formula gives the place beyond the finite numbers at which it is
/// ordered.
pub open spec fn scaled_magnitude(bits: u64) -> int {
    if exponent(bits) == 0 {
        fraction(bits)
    } else {
        (FRACTIONS + fraction(bits)) * pow2((exponent(bits) - 1) as nat)
    }
}

/// The number in units of two to the power of -1074, with its sign.
pub open spec fn scaled(bits: u64) -> int {
    if is_negative(bits) {
        -scaled_magnitude(bits)
    } else {
        scaled_magnitude(bits)
    }
}

/// An integer that orders the values as `scaled` does.
pub open spec fn key_of(bits: u64) -> int {
    if is_negative(bits) {
        -magnitude(bits)
    } else {
        magnitude(bits)
    }
}

/// The bits with the key `key`; for the key 0 the positive zero.
pub open spec fn bits_with_key(key: int) -> u64 {
    if key >= 0 {
        key as u64
    } else {
        (SIGN_BIT - key) as u64
    }
}

/// A greater magnitude stands for a greater absolute value.
proof fn lemma_magnitude_orders(a: u64, b: u64)
    requires
        magnitude(a) < magnitude(b),
    ensures
        scaled_magnitude(a) < scaled_magnitude(b),
{
    let f = FRACTIONS as int;
    let (ea, fa) = (exponent(a), fraction(a));
    let (eb, fb) = (exponent(b), fraction(b));
    assert(magnitude(a) == f * ea + fa && 0 <= fa < f) by (nonlinear_arith)
        requires
            ea == magnitude(a) / f,
            fa == magnitude(a) % f,
            f > 0,
    ;
    assert(magnitude(b) == f * eb + fb && 0 <= fb < f) by (nonlinear_arith)
        requires
            eb == magnitude(b) / f,
            fb == magnitude(b) % f,
            f > 0,
    ;
    assert(0 <= ea <= eb) by (nonlinear_arith)
        requires
            magnitude(a) == f * ea + fa,
            magnitude(b) == f * eb + fb,
            0 <= fa < f,
            0 <= fb < f,
            0 <= magnitude(a) < magnitude(b),
    ;
    if ea == eb {
        if ea > 0 {
            let p = pow2((ea - 1) as nat) as int;
            lemma_pow2_pos((ea - 1) as nat);
            assert((f + fa) * p < (f + fb) * p) by (nonlinear_arith)
                requires
                    fa < fb,
                    p > 0,
            ;
        }
    } else {
        // below the first value of the next exponent, which is no more than b
        let q = pow2((eb - 1) as nat) as int;
        lemma_pow2_pos((eb - 1) as nat);
        assert(f * q <= (f + fb) * q) by (nonlinear_arith)
            requires
                0 <= fb,
                q > 0,
                f > 0,
        ;
        if ea == 0 {
            assert(fa < f * q) by (nonlinear_arith)
                requires
                    fa < f,
                    q >= 1,
                    f > 0,
            ;
        } else {
            let p = pow2((ea - 1) as nat) as int;
            lemma_pow2_pos((ea - 1) as nat);
            lemma_pow2_adds(1, (ea - 1) as nat);
            lemma2_to64();
            if ea < eb - 1 {
                lemma_pow2_strictly_increases(ea as nat, (eb - 1) as nat);
            }
            assert((f + fa) * p < f * q) by (nonlinear_arith)
                requires
                    0 <= fa < f,
                    p > 0,
                    2 * p <= q,
            ;
        }
    }
}

/// The key orders the values as numbers: one value has the smaller key
/// exactly when it is the smaller number, and two values have the same key
/// exactly when they are the same number. The two zeros are the same number.
pub proof fn lemma_key_orders_as_numbers(a: u64, b: u64)
    ensures
        key_of(a) < key_of(b) <==> scaled(a) < scaled(b),
        key_of(a) == key_of(b) <==> scaled(a) == scaled(b),
{
    lemma_scaled_magnitude_sign(a);
    lemma_scaled_magnitude_sign(b);
    if magnitude(a) < magnitude(b) {
        lemma_magnitude_orders(a, b);
    } else if magnitude(b) < magnitude(a) {
        lemma_magnitude_orders(b, a);
    }
}

/// The absolute value is zero for the two zeros and positive otherwise.
proof fn lemma_scaled_magnitude_sign(a: u64)
    ensures
        magnitude(a) == 0 ==> scaled_magnitude(a) == 0,
        magnitude(a) > 0 ==> scaled_magnitude(a) > 0,
{
    if magnitude(a) > 0 {
        lemma_magnitude_orders(0, a);
    }
}

/// The constants stand for the numbers they are named after: `ONE` for two
/// to the power of 1074 units, `HALF` for half of that, `ZERO` for none.
pub proof fn lemma_constants()
    ensures
        scaled(ZERO) == 0,
        scaled(ONE) == pow2(1074),
        2 * scaled(HALF) == pow2(1074),
{
    lemma2_to64_rest();
    lemma_pow2_adds(52, 1022);
    lemma_pow2_adds(52, 1021);
    lemma_pow2_adds(1, 1073);
    lemma2_to64();
}

/// An integer that orders the values as numbers.
pub fn order_key(bits: u64) -> (key: i64)
    ensures
        key == key_of(bits),
{
    if bits >= SIGN_BIT {
        let magnitude: u64 = bits - SIGN_BIT;
        0 - (magnitude as i64)
    } else {
        bits as i64
    }
}

/// The value with the key `key`; for the key 0 the positive zero.
pub fn value_of_key(key: i64) -> (bits: u64)
    requires
        key > i64::MIN,
    ensures
        bits == bits_with_key(key as int),
        key_of(bits) == key,
        bits != SIGN_BIT,
{
    if key >= 0 {
        key as u64
    } else {
        SIGN_BIT + ((0 - key) as u64)
    }
}

/// The range of the value axis.
#[derive(Clone, Copy, Debug, PartialEq, Eq, Structural)]
pub enum ValueRange {
    /// From the value `min` up to the value `max`.
    Span { min: u64, max: u64 },
    /// From `epsilon` below the value `center` up to `epsilon` above it.
    Around { center: u64, epsilon: u64 },
}

/// `m` is the smallest of `values` as a number, and not the negative zero.
pub open spec fn is_lowest(m: u64, values: Seq<u64>) -> bool {
    &&& m != SIGN_BIT
    &&& exists|i: int| 0 <= i < values.len() && scaled(values[i]) == scaled(m)
    &&& forall|i: int| 0 <= i < values.len() ==> scaled(m) <= scaled(values[i])
}

/// `m` is the greatest of `values` as a number, and not the negative zero.
pub open spec fn is_highest(m: u64, values: Seq<u64>) -> bool {
    &&& m != SIGN_BIT
    &&& exists|i: int| 0 <= i < values.len() && scaled(values[i]) == scaled(m)
    &&& forall|i: int| 0 <= i < values.len() ==> scaled(values[i]) <= scaled(m)
}

/// The bounds of a span are in order: the smallest value is no greater than
/// the greatest.
pub proof fn lemma_span_in_order(min: u64, max: u64, values: Seq<u64>)
    requires
        is_lowest(min, values),
        is_highest(max, values),
    ensures
        scaled(min) <= scaled(max),
{
    let i = choose|i: int| 0 <= i < values.len() && scaled(values[i]) == scaled(min);
    assert(scaled(values[i]) <= scaled(max));
}

/// `r` is the range of an axis that shows `values`: `empty` where there is
/// no value, the surroundings of a single value, else the span from the
/// smallest to the greatest.
pub open spec fn is_value_range_of(
    r: ValueRange,
    values: Seq<u64>,
    epsilon: u64,
    empty: ValueRange,
) -> bool {
    if values.len() == 0 {
        r == empty
    } else if values.len() == 1 {
        r == (ValueRange::Around { center: values[0], epsilon })
    } else {
        r matches ValueRange::Span { min, max } && is_lowest(min, values) && is_highest(
            max,
            values,
        )
    }
}

/// The keys of `values`, in their order.
pub open spec fn keys_of(values: Seq<u64>) -> Seq<i64> {
    Seq::new(values.len(), |i: int| key_of(values[i]) as i64)
}

fn keys(values: &Vec<u64>) -> (keys: Vec<i64>)
    ensures
        keys@ == keys_of(values@),
{
    let mut keys: Vec<i64> = Vec::new();
    let n = values.len();
    let mut i: usize = 0;
    while i < n
        invariant
            i <= n,
            n == values@.len(),
            keys@ == keys_of(values@).take(i as int),
        decreases n - i,
    {
        keys.push(order_key(values[i]));
        i += 1;
    }
    keys
}

/// The range of the value axis for a chart that shows `values`.
///
/// Without a value it is `empty`, unchanged. For a single value it is the
/// surroundings of that value, `epsilon` to either side. For two or more
/// values it spans from the smallest to the greatest as numbers, with no
/// margin; a zero among the bounds is the positive zero.
pub fn value_range(values: &Vec<u64>, epsilon: u64, empty: ValueRange) -> (r: ValueRange)
    ensures
        is_value_range_of(r, values@, epsilon, empty),
{
    let keys = keys(values);
    match minmax(&keys) {
        Extent::NoElements => empty,
        Extent::OneElement(_) => ValueRange::Around { center: values[0], epsilon },
        Extent::MinMax(a, b) => {
            let min = value_of_key(a);
            let max = value_of_key(b);
            proof {
                let ks = keys_of(values@);
                let i = choose|i: int| 0 <= i < ks.len() && ks[i] == a;
                let j = choose|j: int| 0 <= j < ks.len() && ks[j] == b;
                lemma_key_orders_as_numbers(values@[i], min);
                lemma_key_orders_as_numbers(values@[j], max);
                assert forall|k: int| 0 <= k < values@.len() implies scaled(min) <= scaled(
                    values@[k],
                ) && scaled(values@[k]) <= scaled(max) by {
                    assert(a <= ks[k] <= b);
                    lemma_key_orders_as_numbers(min, values@[k]);
                    lemma_key_orders_as_numbers(values@[k], max);
                }
            }
            ValueRange::Span { min, max }
        },
    }
}

} // verus!
