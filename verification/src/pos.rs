//! Integer positions and the truncated Euclidean distance between them.

use crate::chance::random_between;
use crate::text::{decimal, push_decimal};
use vstd::prelude::*;
use vstd::string::*;

verus! {

/// `r` is the integer square root of `n`: the largest integer whose square
/// does not exceed `n`.
pub open spec fn is_floor_sqrt(n: int, r: int) -> bool {
    0 <= r && r * r <= n < (r + 1) * (r + 1)
}

/// The integer square root of `n`, for `n >= 0`.
pub open spec fn floor_sqrt(n: int) -> int {
    choose|r: int| is_floor_sqrt(n, r)
}

/// Every non-negative integer has an integer square root.
pub proof fn lemma_floor_sqrt_exists(n: int)
    requires
        0 <= n,
    ensures
        is_floor_sqrt(n, floor_sqrt(n)),
    decreases n,
{
    if n == 0 {
        assert(is_floor_sqrt(0, 0));
    } else {
        lemma_floor_sqrt_exists(n - 1);
        let r = floor_sqrt(n - 1);
        if (r + 1) * (r + 1) <= n {
            assert(n < (r + 2) * (r + 2)) by (nonlinear_arith)
                requires
                    0 <= r,
                    n - 1 < (r + 1) * (r + 1),
            ;
            assert(is_floor_sqrt(n, r + 1));
        } else {
            assert(is_floor_sqrt(n, r));
        }
    }
}

/// A square that fits under `n` has a root no larger than the integer square
/// root of `n`.
pub proof fn lemma_floor_sqrt_lower(n: int, r: int)
    requires
        0 <= r,
        r * r <= n,
    ensures
        r <= floor_sqrt(n),
{
    lemma_floor_sqrt_exists(n);
    let s = floor_sqrt(n);
    if s < r {
        assert((s + 1) * (s + 1) <= r * r) by (nonlinear_arith)
            requires
                0 <= s,
                s + 1 <= r,
        ;
    }
}

/// The integer square root is unique: whatever satisfies its definition is it.
pub proof fn lemma_floor_sqrt_unique(n: int, r: int)
    requires
        is_floor_sqrt(n, r),
    ensures
        floor_sqrt(n) == r,
{
    let s = floor_sqrt(n);
    assert(is_floor_sqrt(n, s));
    if s < r {
        assert((s + 1) * (s + 1) <= r * r) by (nonlinear_arith)
            requires
                0 <= s,
                s + 1 <= r,
        ;
    }
    if r < s {
        assert((r + 1) * (r + 1) <= s * s) by (nonlinear_arith)
            requires
                0 <= r,
                r + 1 <= s,
        ;
    }
}

/// A point of the galaxy grid.
#[derive(Debug, Clone, Copy, PartialEq, Eq, Structural)]
pub struct Position {
    pub x: i32,
    pub y: i32,
}

impl Position {
    /// The squared Euclidean distance between two positions.
    pub open spec fn dist_sq(self, other: Position) -> int {
        (other.x - self.x) * (other.x - self.x) + (other.y - self.y) * (other.y - self.y)
    }

    /// The Euclidean distance between two positions, truncated toward zero.
    pub open spec fn euclid(self, other: Position) -> int {
        floor_sqrt(self.dist_sq(other))
    }

    /// The distance that `distance` reports: the truncated Euclidean distance,
    /// held at `i32::MAX` where it would not fit.
    pub open spec fn dist(self, other: Position) -> int {
        if self.euclid(other) <= i32::MAX {
            self.euclid(other)
        } else {
            i32::MAX as int
        }
    }

    pub fn new(x: i32, y: i32) -> (p: Position)
        ensures
            p.x == x,
            p.y == y,
    {
        Position { x, y }
    }

    /// The position as text: `X`, the first coordinate, a space, `Y`, the
    /// second.
    pub fn label(&self) -> (s: String)
        ensures
            s@ == "X"@ + decimal(self.x as int) + " Y"@ + decimal(self.y as int),
    {
        let mut s = String::from_str("X");
        push_decimal(&mut s, self.x);
        s.append(" Y");
        push_decimal(&mut s, self.y);
        s
    }

    /// A position drawn from the square `0..max` by `0..max`.
    pub fn random(max: i32) -> (p: Position)
        requires
            0 < max,
        ensures
            0 <= p.x < max,
            0 <= p.y < max,
    {
        let x: i32 = random_between(0, max);
        let y: i32 = random_between(0, max);
        Position { x, y }
    }

    /// The truncated Euclidean distance from `self` to `other`.
    pub fn distance(&self, other: &Position) -> (d: i32)
        ensures
            d == self.dist(*other),
            0 <= d,
    {
        let dx: i128 = other.x as i128 - self.x as i128;
        let dy: i128 = other.y as i128 - self.y as i128;
        assert(0 <= dx * dx <= 0x1_0000_0000 * 0x1_0000_0000) by (nonlinear_arith)
            requires
                -0x1_0000_0000 <= dx <= 0x1_0000_0000,
        ;
        assert(0 <= dy * dy <= 0x1_0000_0000 * 0x1_0000_0000) by (nonlinear_arith)
            requires
                -0x1_0000_0000 <= dy <= 0x1_0000_0000,
        ;
        let n: i128 = dx * dx + dy * dy;
        assert(n == self.dist_sq(*other));
        let mut lo: i128 = 0;
        let mut hi: i128 = 0x8000_0000;
        while hi - lo > 1
            invariant
                0 <= lo < hi <= 0x8000_0000,
                lo * lo <= n,
                hi == 0x8000_0000 || n < hi * hi,
            decreases hi - lo,
        {
            let mid: i128 = lo + (hi - lo) / 2;
            assert(0 <= mid * mid <= 0x8000_0000 * 0x8000_0000) by (nonlinear_arith)
                requires
                    0 <= mid <= 0x8000_0000,
            ;
            if mid * mid <= n {
                lo = mid;
            } else {
                hi = mid;
            }
        }
        proof {
            if n < (lo + 1) * (lo + 1) {
                lemma_floor_sqrt_unique(n as int, lo as int);
            } else {
                lemma_floor_sqrt_lower(n as int, lo as int);
            }
        }
        lo as i32
    }
}

/// Distance does not depend on the direction of travel.
pub proof fn lemma_distance_symmetric(a: Position, b: Position)
    ensures
        a.dist(b) == b.dist(a),
{
    assert(a.dist_sq(b) == b.dist_sq(a)) by (nonlinear_arith)
        requires
            a.dist_sq(b) == (b.x - a.x) * (b.x - a.x) + (b.y - a.y) * (b.y - a.y),
            b.dist_sq(a) == (a.x - b.x) * (a.x - b.x) + (a.y - b.y) * (a.y - b.y),
    ;
}

/// A position is at distance zero from itself.
pub proof fn lemma_distance_self(a: Position)
    ensures
        a.dist(a) == 0,
{
    assert(a.dist_sq(a) == 0);
    lemma_floor_sqrt_unique(0, 0);
}

/// The reported distance is never negative and, wherever the truncated
/// Euclidean distance fits in an `i32`, it is that distance: the one integer
/// `d` with `d * d <= dx * dx + dy * dy < (d + 1) * (d + 1)`.
pub proof fn lemma_distance_truncates(a: Position, b: Position)
    ensures
        0 <= a.dist(b) <= i32::MAX,
        is_floor_sqrt(a.dist_sq(b), a.euclid(b)),
        a.euclid(b) <= i32::MAX ==> a.dist(b) == a.euclid(b),
{
    assert(0 <= a.dist_sq(b)) by (nonlinear_arith)
        requires
            a.dist_sq(b) == (b.x - a.x) * (b.x - a.x) + (b.y - a.y) * (b.y - a.y),
    ;
    lemma_floor_sqrt_exists(a.dist_sq(b));
}

} // verus!
