//! Scalars as the library sees them.
//!
//! The library never calculates with a scalar. It only asks which of two
//! scalars is the smaller one, so a scalar reaches it as an integer key that
//! orders as the scalar does: `x < y` exactly when the key of `x` is smaller
//! than the key of `y`.
//!
//! The key is read from the 64 bits in which the scalar is stored, a sign bit
//! above 63 bits of magnitude. Zero and the positive scalars have their
//! magnitude for a key, a negative scalar has its magnitude negated. Both
//! zeros have the key 0, and the key of `-x` is the negated key of `x`.
use vstd::prelude::*;

verus! {

/// The key of a scalar: an integer that orders as the scalar does.
pub type Key = i64;

/// The key of zero.
pub const ZERO: Key = 0;

/// The key of one.
pub const ONE: Key = 0x3ff0_0000_0000_0000;

/// The key of positive infinity, above the key of every number.
pub const INFINITY: Key = 0x7ff0_0000_0000_0000;

/// The key of a hundred-millionth, the size below which a component of a
/// vector counts as zero.
pub const TINY: Key = 0x3e45_798e_e230_8c3a;

/// The key of minus a hundred-millionth.
pub const MINUS_TINY: Key = -0x3e45_798e_e230_8c3a;

/// The sign bit of a stored scalar.
pub const SIGN_BIT: u64 = 0x8000_0000_0000_0000;

/// The key of the scalar that is stored as `bits`.
pub open spec fn key_of_bits_spec(bits: u64) -> int {
    if bits < SIGN_BIT {
        bits as int
    } else {
        -(bits - SIGN_BIT)
    }
}

/// The bits in which the scalar with the key `k` is stored. The key 0 gives
/// the positive zero.
pub open spec fn bits_of_key_spec(k: Key) -> int {
    if k >= 0 {
        k as int
    } else if k == i64::MIN {
        SIGN_BIT as int
    } else {
        SIGN_BIT - k
    }
}

/// The key of the scalar that is stored as `bits`: the magnitude, negated
/// where the sign bit is set.
pub fn key_of_bits(bits: u64) -> (k: Key)
    ensures
        k == key_of_bits_spec(bits),
        k > i64::MIN,
{
    if bits < SIGN_BIT {
        bits as i64
    } else {
        -((bits - SIGN_BIT) as i64)
    }
}

/// The bits in which the scalar with the key `k` is stored. No scalar has
/// the least integer for a key; it is read as a zero.
pub fn bits_of_key(k: Key) -> (bits: u64)
    ensures
        bits == bits_of_key_spec(k),
        k > i64::MIN ==> key_of_bits_spec(bits) == k,
{
    if k >= 0 {
        k as u64
    } else if k == i64::MIN {
        SIGN_BIT
    } else {
        SIGN_BIT + ((-k) as u64)
    }
}

/// Key and bits stand for each other: the bits of a key have that key, and
/// the key of some bits has those bits, but for the negative zero, whose key
/// is that of the positive zero.
pub proof fn lemma_key_round_trip(bits: u64)
    ensures
        i64::MIN < key_of_bits_spec(bits) <= i64::MAX,
        bits != SIGN_BIT ==> bits_of_key_spec(key_of_bits_spec(bits) as Key) == bits,
        bits == SIGN_BIT ==> key_of_bits_spec(bits) == 0,
{
}

/// The keys order the stored scalars by sign and magnitude: of two scalars of
/// which one is negative and one is not, the negative one has the smaller key
/// or both are zero; two scalars that are not negative are ordered as their
/// magnitudes are, two negative ones the other way round.
pub proof fn lemma_keys_order_by_sign_and_magnitude(a: u64, b: u64)
    ensures
        a < SIGN_BIT && b < SIGN_BIT ==> (key_of_bits_spec(a) < key_of_bits_spec(b) <==> a < b),
        a >= SIGN_BIT && b >= SIGN_BIT ==> (key_of_bits_spec(a) < key_of_bits_spec(b) <==> a > b),
        a >= SIGN_BIT && b < SIGN_BIT ==> key_of_bits_spec(a) <= key_of_bits_spec(b),
        a >= SIGN_BIT && b < SIGN_BIT ==> (key_of_bits_spec(a) == key_of_bits_spec(b) <==> a
            == SIGN_BIT && b == 0),
{
}

/// A key, or none, as a mathematical integer.
pub open spec fn widened(t: Option<Key>) -> Option<int> {
    match t {
        Some(t) => Some(t as int),
        None => None,
    }
}

/// What [`clamp`] returns.
pub open spec fn clamp_spec(x: int, min: int, max: int) -> int {
    if x < min {
        min
    } else if x > max {
        max
    } else {
        x
    }
}

/// Brings `x` into the range from `min` to `max`: a value below `min` becomes
/// `min`, a value above `max` becomes `max`, any other value is kept.
///
/// The lower end is looked at first, so with `min > max` a value below `min`
/// still becomes `min`.
pub fn clamp(x: Key, min: Key, max: Key) -> (r: Key)
    ensures
        r == clamp_spec(x as int, min as int, max as int),
        min <= max ==> min <= r <= max,
{
    if x < min {
        return min;
    }
    if x > max {
        return max;
    }
    x
}

/// Whether `x` lies strictly between `low` and `high`.
pub open spec fn strictly_between(x: Key, low: Key, high: Key) -> bool {
    low < x < high
}

/// Whether a vector is close to zero in every dimension: the size of each of
/// its components `x`, `y` and `z` is below a hundred-millionth.
pub fn near_zero(x: Key, y: Key, z: Key) -> (near: bool)
    ensures
        near == (strictly_between(x, MINUS_TINY, TINY) && strictly_between(y, MINUS_TINY, TINY)
            && strictly_between(z, MINUS_TINY, TINY)),
{
    MINUS_TINY < x && x < TINY && MINUS_TINY < y && y < TINY && MINUS_TINY < z && z < TINY
}

} // verus!
