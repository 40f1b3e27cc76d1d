//! Fixed-point plane geometry: points in milli-units, integer square
//! roots, and Euclidean distances.

use vstd::prelude::*;

verus! {

/// A 2D point or extent, both coordinates in milli-units.
#[derive(Clone, Copy, PartialEq, Eq, Structural, Debug)]
pub struct Vec2 {
    pub x: i64,
    pub y: i64,
}

impl Vec2 {
    /// Both coordinates lie within `[-limit, limit]`.
    pub open spec fn in_range(self, limit: int) -> bool {
        -limit <= self.x <= limit && -limit <= self.y <= limit
    }

    pub fn new(x: i64, y: i64) -> (r: Vec2)
        ensures
            r.x == x,
            r.y == y,
    {
        Vec2 { x, y }
    }

    /// This point forced into the square `[-limit, limit]^2`.
    pub fn clamped_to(self, limit: i64) -> (r: Vec2)
        requires
            0 <= limit,
        ensures
            r.x == clamp_spec(self.x as int, -limit as int, limit as int),
            r.y == clamp_spec(self.y as int, -limit as int, limit as int),
            r.in_range(limit as int),
    {
        Vec2 { x: clamp_i64(self.x, -limit, limit), y: clamp_i64(self.y, -limit, limit) }
    }
}

impl Default for Vec2 {
    /// The origin.
    fn default() -> (r: Vec2)
        ensures
            r.x == 0,
            r.y == 0,
    {
        Vec2 { x: 0, y: 0 }
    }
}

/// Where an entity sits and how it is drawn: `translation` is its
/// position, `scale` its sprite size, with a negative `scale.x`
/// meaning a horizontally flipped (left-facing) sprite.
#[derive(Clone, Copy, PartialEq, Eq, Structural, Debug)]
pub struct Transform {
    pub translation: Vec2,
    pub scale: Vec2,
}

impl Transform {
    pub fn new(translation: Vec2, scale: Vec2) -> (r: Transform)
        ensures
            r.translation == translation,
            r.scale == scale,
    {
        Transform { translation, scale }
    }
}

/// `v` forced into `[lo, hi]`.
pub open spec fn clamp_spec(v: int, lo: int, hi: int) -> int {
    if v < lo {
        lo
    } else if v > hi {
        hi
    } else {
        v
    }
}

/// `v` forced into `[lo, hi]`, executable counterpart of `clamp_spec`.
pub fn clamp_i64(v: i64, lo: i64, hi: i64) -> (r: i64)
    requires
        lo <= hi,
    ensures
        r == clamp_spec(v as int, lo as int, hi as int),
{
    if v < lo {
        lo
    } else if v > hi {
        hi
    } else {
        v
    }
}

/// Floor of the square root of `n`.
pub open spec fn sqrt_floor(n: nat) -> nat
    decreases n,
{
    if n == 0 {
        0
    } else {
        let r = sqrt_floor((n - 1) as nat);
        if (r + 1) * (r + 1) <= n {
            r + 1
        } else {
            r
        }
    }
}

/// `sqrt_floor(n)` squares to at most `n`, and is the largest such number.
pub proof fn lemma_sqrt_floor_bounds(n: nat)
    ensures
        sqrt_floor(n) * sqrt_floor(n) <= n,
        n < (sqrt_floor(n) + 1) * (sqrt_floor(n) + 1),
    decreases n,
{
    if n == 0 {
        assert(sqrt_floor(0) == 0);
        assert(sqrt_floor(n) * sqrt_floor(n) <= n);
        assert((sqrt_floor(n) + 1) * (sqrt_floor(n) + 1) == 1) by (nonlinear_arith)
            requires
                sqrt_floor(n) == 0,
        ;
        assert(n < (sqrt_floor(n) + 1) * (sqrt_floor(n) + 1));
    } else {
        lemma_sqrt_floor_bounds((n - 1) as nat);
        let r = sqrt_floor((n - 1) as nat);
        assert(r * r <= n - 1 && n - 1 < (r + 1) * (r + 1));
        if (r + 1) * (r + 1) <= n {
            assert(sqrt_floor(n) == r + 1);
            assert(n <= (r + 1) * (r + 1));
            assert((r + 1) * (r + 1) < (r + 2) * (r + 2)) by (nonlinear_arith);
            assert(n < (sqrt_floor(n) + 1) * (sqrt_floor(n) + 1));
            assert(sqrt_floor(n) * sqrt_floor(n) <= n);
        } else {
            assert(sqrt_floor(n) == r);
            assert(n < (sqrt_floor(n) + 1) * (sqrt_floor(n) + 1));
            assert(sqrt_floor(n) * sqrt_floor(n) <= n);
        }
    }
}

/// `sqrt_floor` is pinned down by the two bounds above.
pub proof fn lemma_sqrt_floor_unique(n: nat, r: nat)
    requires
        r * r <= n,
        n < (r + 1) * (r + 1),
    ensures
        r == sqrt_floor(n),
{
    lemma_sqrt_floor_bounds(n);
    let s = sqrt_floor(n);
    if r < s {
        assert((r + 1) * (r + 1) <= s * s) by (nonlinear_arith)
            requires
                r + 1 <= s,
        ;
    }
    if s < r {
        assert((s + 1) * (s + 1) <= r * r) by (nonlinear_arith)
            requires
                s + 1 <= r,
        ;
    }
}

/// A larger argument never has a smaller square root.
pub proof fn lemma_sqrt_floor_monotone(m: nat, n: nat)
    requires
        m <= n,
    ensures
        sqrt_floor(m) <= sqrt_floor(n),
{
    lemma_sqrt_floor_bounds(m);
    lemma_sqrt_floor_bounds(n);
    let a = sqrt_floor(m);
    let b = sqrt_floor(n);
    if b < a {
        assert((b + 1) * (b + 1) <= a * a) by (nonlinear_arith)
            requires
                b + 1 <= a,
        ;
    }
}

/// Integer square root by bisection.
pub fn isqrt(n: u64) -> (r: u64)
    ensures
        r == sqrt_floor(n as nat),
{
    let mut lo: u64 = 0;
    let mut hi: u64 = 0x1_0000_0000;
    while hi - lo > 1
        invariant
            lo < hi <= 0x1_0000_0000,
            (lo as int) * (lo as int) <= n as int,
            (n as int) < (hi as int) * (hi as int),
        decreases hi - lo,
    {
        let mid: u64 = lo + (hi - lo) / 2;
        proof {
            assert(mid < 0x1_0000_0000);
            assert(mid * mid <= 0xFFFF_FFFE_0000_0001) by (nonlinear_arith)
                requires
                    0 <= mid <= 0xFFFF_FFFF,
            ;
        }
        if mid * mid <= n {
            lo = mid;
        } else {
            hi = mid;
        }
    }
    proof {
        lemma_sqrt_floor_unique(n as nat, lo as nat);
    }
    lo
}

/// Square of the Euclidean distance between the points `(ax, ay)`
/// and `(bx, by)`.
pub open spec fn dist_sq_i(ax: int, ay: int, bx: int, by: int) -> int {
    (bx - ax) * (bx - ax) + (by - ay) * (by - ay)
}

/// Euclidean distance between two points, rounded down to a whole
/// number.
pub open spec fn dist_i(ax: int, ay: int, bx: int, by: int) -> int {
    sqrt_floor(dist_sq_i(ax, ay, bx, by) as nat) as int
}

/// Square of the Euclidean distance between `a` and `b`.
pub open spec fn dist_sq(a: Vec2, b: Vec2) -> int {
    dist_sq_i(a.x as int, a.y as int, b.x as int, b.y as int)
}

/// Euclidean distance between `a` and `b`, rounded down to a whole
/// number of milli-units.
pub open spec fn dist(a: Vec2, b: Vec2) -> int {
    sqrt_floor(dist_sq(a, b) as nat) as int
}

/// Coordinate bound under which squares and sums of squares of
/// differences stay well inside `i64`.
pub const GEOM_LIMIT_MILLI: i64 = 1_000_000_000;

/// Euclidean distance, executable counterpart of `dist`.
pub fn dist_milli(a: Vec2, b: Vec2) -> (r: u64)
    requires
        a.in_range(GEOM_LIMIT_MILLI as int),
        b.in_range(GEOM_LIMIT_MILLI as int),
    ensures
        r == dist(a, b),
{
    let dx: i64 = b.x - a.x;
    let dy: i64 = b.y - a.y;
    proof {
        assert(dx * dx <= 4_000_000_000_000_000_000 && dx * dx >= 0) by (nonlinear_arith)
            requires
                -2_000_000_000 <= dx <= 2_000_000_000,
        ;
        assert(dy * dy <= 4_000_000_000_000_000_000 && dy * dy >= 0) by (nonlinear_arith)
            requires
                -2_000_000_000 <= dy <= 2_000_000_000,
        ;
    }
    let sq: u64 = (dx * dx) as u64 + (dy * dy) as u64;
    isqrt(sq)
}

} // verus!
