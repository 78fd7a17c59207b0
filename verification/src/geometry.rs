//! Fixed-point geometry shared by every part of the game core.
//!
//! Lengths are whole thousandths of a world unit, angles are whole millionths
//! of a degree and time spans are whole microseconds, so every rule of the game
//! is exact integer arithmetic.

use vstd::prelude::*;

verus! {

/// Fixed-point steps in one world unit.
pub const UNIT: i32 = 1_000;

/// Width of the visible playfield.
pub const SCREEN_WIDTH: i32 = 800_000;

/// Height of the visible playfield.
pub const SCREEN_HEIGHT: i32 = 600_000;

/// Fixed-point steps in one degree of arc.
pub const DEGREE: i32 = 1_000_000;

/// Half a turn (180 degrees).
pub const HALF_TURN: i32 = 180_000_000;

/// A full turn (360 degrees).
pub const FULL_TURN: i32 = 360_000_000;

/// Bullets farther than this from the camera are removed.
pub const DESPAWN_DISTANCE: i32 = 1_000_000;

/// A point or displacement on the playfield, in fixed-point steps.
#[derive(Clone, Copy, Debug, PartialEq, Eq, Structural)]
pub struct Vec2 {
    pub x: i32,
    pub y: i32,
}

/// A displacement in polar form: `radius` steps away in the direction that
/// lies `angle` counter-clockwise of the positive x axis.
#[derive(Clone, Copy, Debug, PartialEq, Eq, Structural)]
pub struct Polar {
    pub angle: i32,
    pub radius: i32,
}

/// The value of `v` forced into the range of an `i32`.
pub open spec fn clamp_i32(v: int) -> int {
    if v < i32::MIN {
        i32::MIN as int
    } else if v > i32::MAX {
        i32::MAX as int
    } else {
        v
    }
}

/// The square of `v`.
pub open spec fn square(v: int) -> int {
    v * v
}

/// `r` is the integer square root of `n`: the one natural number with
/// `r * r <= n < (r + 1) * (r + 1)`.
pub open spec fn is_floor_sqrt(n: int, r: int) -> bool {
    0 <= r && r * r <= n < (r + 1) * (r + 1)
}

/// The integer square root of `n`, rounded down.
pub open spec fn floor_sqrt(n: int) -> int {
    choose|r: int| is_floor_sqrt(n, r)
}

/// Squaring keeps the order of natural numbers.
pub proof fn lemma_square_monotonic(a: int, b: int)
    requires
        0 <= a <= b,
    ensures
        a * a <= b * b,
{
    assert(a * a <= b * b) by (nonlinear_arith)
        requires
            0 <= a <= b,
    ;
}

/// At most one number is the integer square root of `n`; whoever exhibits one
/// knows `floor_sqrt(n)`.
pub proof fn lemma_floor_sqrt_unique(n: int, r: int)
    requires
        is_floor_sqrt(n, r),
    ensures
        floor_sqrt(n) == r,
{
    let s = floor_sqrt(n);
    assert(is_floor_sqrt(n, s));
    if s < r {
        lemma_square_monotonic(s + 1, r);
    } else if r < s {
        lemma_square_monotonic(r + 1, s);
    }
}

/// Every natural number has an integer square root.
pub proof fn lemma_sqrt_exists(n: int)
    requires
        0 <= n,
    ensures
        is_floor_sqrt(n, floor_sqrt(n)),
    decreases n,
{
    if n == 0 {
        assert(is_floor_sqrt(0, 0));
    } else {
        lemma_sqrt_exists(n - 1);
        let r = floor_sqrt(n - 1);
        if n < (r + 1) * (r + 1) {
            assert(is_floor_sqrt(n, r));
        } else {
            assert((r + 2) * (r + 2) > (r + 1) * (r + 1)) by (nonlinear_arith)
                requires
                    0 <= r,
            ;
            assert(is_floor_sqrt(n, r + 1));
        }
    }
}

/// The integer square root of `n`, rounded down.
pub fn isqrt(n: u128) -> (r: u64)
    ensures
        is_floor_sqrt(n as int, r as int),
        r == floor_sqrt(n as int),
{
    let mut lo: u128 = 0;
    let mut hi: u128 = 0x1_0000_0000_0000_0000;
    assert(hi * hi > n) by (nonlinear_arith)
        requires
            hi == 0x1_0000_0000_0000_0000u128,
            n <= u128::MAX,
    ;
    while hi - lo > 1
        invariant
            lo < hi <= 0x1_0000_0000_0000_0000,
            lo * lo <= n < hi * hi,
        decreases hi - lo,
    {
        let mid: u128 = lo + (hi - lo) / 2;
        assert(mid * mid <= 0xffff_ffff_ffff_ffff * 0xffff_ffff_ffff_ffff) by (nonlinear_arith)
            requires
                0 <= mid <= 0xffff_ffff_ffff_ffff,
        ;
        if mid * mid <= n {
            lo = mid;
        } else {
            hi = mid;
        }
    }
    proof {
        lemma_floor_sqrt_unique(n as int, lo as int);
    }
    lo as u64
}

/// `a + b`, forced into the range of an `i32`.
pub fn add_clamped(a: i32, b: i32) -> (sum: i32)
    ensures
        sum == clamp_i32(a + b),
{
    let wide: i64 = a as i64 + b as i64;
    if wide < i32::MIN as i64 {
        i32::MIN
    } else if wide > i32::MAX as i64 {
        i32::MAX
    } else {
        wide as i32
    }
}

impl Vec2 {
    /// The point `offset` away from `self`, each coordinate forced into the
    /// range of an `i32`.
    pub open spec fn shifted(self, offset: Vec2) -> Vec2 {
        Vec2 {
            x: clamp_i32(self.x + offset.x) as i32,
            y: clamp_i32(self.y + offset.y) as i32,
        }
    }

    /// The point `offset` away from `self`, each coordinate forced into the
    /// range of an `i32`.
    pub fn offset_by(&self, offset: &Vec2) -> (v: Vec2)
        ensures
            v == self.shifted(*offset),
    {
        Vec2 { x: add_clamped(self.x, offset.x), y: add_clamped(self.y, offset.y) }
    }

    /// The point with the given coordinates.
    pub fn new(x: i32, y: i32) -> (v: Vec2)
        ensures
            v == (Vec2 { x, y }),
    {
        Vec2 { x, y }
    }

    /// The squared Euclidean distance between `self` and `other`.
    pub open spec fn dist2(self, other: Vec2) -> int {
        square(other.x - self.x) + square(other.y - self.y)
    }

    /// The squared Euclidean distance between `self` and `other`.
    pub fn distance_squared(&self, other: &Vec2) -> (d: u128)
        ensures
            d == self.dist2(*other),
    {
        let dx: i128 = other.x as i128 - self.x as i128;
        let dy: i128 = other.y as i128 - self.y as i128;
        assert(0 <= dx * dx <= 0xffff_ffff * 0xffff_ffff) by (nonlinear_arith)
            requires
                -0xffff_ffff <= dx <= 0xffff_ffff,
        ;
        assert(0 <= dy * dy <= 0xffff_ffff * 0xffff_ffff) by (nonlinear_arith)
            requires
                -0xffff_ffff <= dy <= 0xffff_ffff,
        ;
        (dx * dx + dy * dy) as u128
    }

    /// Whether `self` lies farther than `limit` from `center`.
    pub fn beyond(&self, center: &Vec2, limit: i32) -> (far: bool)
        ensures
            far == (limit < 0 || self.dist2(*center) > square(limit as int)),
    {
        if limit < 0 {
            return true;
        }
        let l: u128 = limit as u128;
        assert(l * l <= 0x7fff_ffff * 0x7fff_ffff) by (nonlinear_arith)
            requires
                0 <= l <= 0x7fff_ffff,
        ;
        self.distance_squared(center) > l * l
    }
}

} // verus!
