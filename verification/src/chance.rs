//! The one source of chance.

use rand::Rng;
use vstd::prelude::*;

verus! {

/// `rand::rng().random_range(0..n)`: an integer drawn from `0..n`. The range
/// must not be empty; nothing is claimed of the draw but that it lies in the
/// range.
#[verifier::external_body]
pub(crate) fn random_below(n: usize) -> (r: usize)
    requires
        0 < n,
    ensures
        r < n,
{
    rand::rng().random_range(0..n)
}

/// An integer drawn from `low..high`.
pub fn random_between(low: i32, high: i32) -> (r: i32)
    requires
        low < high,
    ensures
        low <= r < high,
{
    let width: i64 = high as i64 - low as i64;
    let draw: usize = random_below(width as usize);
    offset_from(low, high, draw)
}

/// The integer of `low..high` that a draw from `0..high - low` stands for:
/// `low` plus the draw.
pub fn offset_from(low: i32, high: i32, draw: usize) -> (r: i32)
    requires
        low < high,
        draw < high - low,
    ensures
        r == low + draw,
{
    (low as i64 + draw as i64) as i32
}

} // verus!
