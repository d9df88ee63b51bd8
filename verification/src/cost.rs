//! Costs as ranks in the IEEE total order.
//!
//! The verified pipeline never computes with floating point. Every scalar
//! cost (a distance in meters, a speed in km/h, a travel time in seconds, an
//! unsuitability score) is carried as the *rank* of the IEEE double that an
//! unverified caller would see: the 64-bit pattern of the value with the sign
//! folded, so that ranks compare exactly as `f64::total_cmp` orders the
//! values. Sorting, deduplication and dominance pruning therefore work on
//! plain `u64` values, and the handful of floating-point kernels (division,
//! multiplication, square root, text parsing) sit behind trusted wrappers
//! whose results are named but never interpreted inside the library.
use std::primitive::f64 as Real;
use vstd::prelude::*;

verus! {

/// The rank of a scalar cost: the bit pattern of an IEEE double with the
/// sign folded, ordered as `f64::total_cmp` orders the values.
pub type CostRank = u64;

/// The folded sign bit: ranks at or above it belong to nonnegative values.
pub const SIGN_FOLD: u64 = 0x8000_0000_0000_0000;

/// The rank of `0.0`.
pub const RANK_ZERO: u64 = 0x8000_0000_0000_0000;

/// The rank of `0.5`.
pub const RANK_HALF: u64 = 0xBFE0_0000_0000_0000;

/// The rank of `1.0`.
pub const RANK_ONE: u64 = 0xBFF0_0000_0000_0000;

/// The rank of `2.0`.
pub const RANK_TWO: u64 = 0xC000_0000_0000_0000;

/// The rank of `3.0`.
pub const RANK_THREE: u64 = 0xC008_0000_0000_0000;

/// The rank of `4.0`.
pub const RANK_FOUR: u64 = 0xC010_0000_0000_0000;

/// The rank of `5.0`.
pub const RANK_FIVE: u64 = 0xC014_0000_0000_0000;

/// The rank of `6.0`.
pub const RANK_SIX: u64 = 0xC018_0000_0000_0000;

/// The rank of `10.0`.
pub const RANK_TEN: u64 = 0xC024_0000_0000_0000;

/// The rank of `30.0`.
pub const RANK_THIRTY: u64 = 0xC03E_0000_0000_0000;

/// The rank of `50.0`.
pub const RANK_FIFTY: u64 = 0xC049_0000_0000_0000;

/// The rank of `70.0`.
pub const RANK_SEVENTY: u64 = 0xC051_8000_0000_0000;

/// The rank of `80.0`.
pub const RANK_EIGHTY: u64 = 0xC054_0000_0000_0000;

/// The rank of `100.0`.
pub const RANK_HUNDRED: u64 = 0xC059_0000_0000_0000;

/// The rank of `-1.0`, the placeholder cost of an edge whose distance has
/// not been computed yet; it sits below the rank of every nonnegative value.
pub const RANK_UNSET: u64 = 0x400F_FFFF_FFFF_FFFF;

/// The rank of negative infinity.
pub const RANK_NEG_INF: u64 = 0x000F_FFFF_FFFF_FFFF;

/// The rank of positive infinity.
pub const RANK_INF: u64 = 0xFFF0_0000_0000_0000;

/// Whether the rank stands for a finite value: strictly between the two
/// infinities.
pub open spec fn finite_rank(k: u64) -> bool {
    RANK_NEG_INF < k < RANK_INF
}

/// Names what parsing the text as an IEEE double returns: the parsed
/// value's rank, or `None` when the text does not denote a number.
pub uninterp spec fn parsed_rank_of(s: Seq<char>) -> Option<u64>;

/// Relies on `str::parse` for IEEE doubles: the parsed value's rank, or
/// `None` when the text does not parse.
#[verifier::external_body]
pub(crate) fn parse_rank(s: &str) -> (r: Option<u64>)
    ensures
        r == parsed_rank_of(s@),
{
    s.parse::<Real>().ok().map(|v| {
        let b = v.to_bits();
        if b >> 63 == 1 {
            !b
        } else {
            b | SIGN_FOLD
        }
    })
}

/// The bit pattern of the IEEE double `3.6`, the factor between kilometers
/// per hour and meters per second.
const BITS_KMH_PER_MPS: u64 = 0x400C_CCCC_CCCC_CCCD;

/// Names the travel time in seconds: the distance in meters (by rank)
/// divided by the speed in kilometers per hour (by rank) brought to meters
/// per second, or `None` when the quotient is not finite.
pub uninterp spec fn travel_time_of(dist: u64, speed: u64) -> Option<u64>;

/// Relies on IEEE double division (`std`): the rank of
/// `dist / (speed / 3.6)` when that time is finite, `None` otherwise.
#[verifier::external_body]
pub(crate) fn travel_time_rank(dist: u64, speed: u64) -> (r: Option<u64>)
    ensures
        r == travel_time_of(dist, speed),
{
    let d = if dist >> 63 == 1 { Real::from_bits(dist ^ SIGN_FOLD) } else { Real::from_bits(!dist) };
    let s = if speed >> 63 == 1 { Real::from_bits(speed ^ SIGN_FOLD) } else { Real::from_bits(!speed) };
    let t = d / (s / Real::from_bits(BITS_KMH_PER_MPS));
    if t.is_finite() {
        let b = t.to_bits();
        Some(if b >> 63 == 1 { !b } else { b | SIGN_FOLD })
    } else {
        None
    }
}

/// Names the rank of the product of the two values with the given ranks.
pub uninterp spec fn product_of(a: u64, b: u64) -> u64;

/// Relies on IEEE double multiplication (`std`): the rank of the product of
/// the values with ranks `a` and `b`.
#[verifier::external_body]
pub(crate) fn product_rank(a: u64, b: u64) -> (r: u64)
    ensures
        r == product_of(a, b),
{
    let x = if a >> 63 == 1 { Real::from_bits(a ^ SIGN_FOLD) } else { Real::from_bits(!a) };
    let y = if b >> 63 == 1 { Real::from_bits(b ^ SIGN_FOLD) } else { Real::from_bits(!b) };
    let p = x * y;
    let bits = p.to_bits();
    if bits >> 63 == 1 {
        !bits
    } else {
        bits | SIGN_FOLD
    }
}

/// Names the rank of the square root of the value with the given rank.
pub uninterp spec fn sqrt_of(k: u64) -> u64;

/// Relies on `f64::sqrt` (`std`): the rank of the square root of the value
/// with rank `k`. The square root of zero is zero.
#[verifier::external_body]
pub(crate) fn sqrt_rank(k: u64) -> (r: u64)
    ensures
        r == sqrt_of(k),
        k == RANK_ZERO ==> r == RANK_ZERO,
{
    let v = if k >> 63 == 1 { Real::from_bits(k ^ SIGN_FOLD) } else { Real::from_bits(!k) };
    let b = v.sqrt().to_bits();
    if b >> 63 == 1 {
        !b
    } else {
        b | SIGN_FOLD
    }
}

} // verus!
