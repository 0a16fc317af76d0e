use vstd::prelude::*;
use crate::kv::StoreItem;

verus! {

/// Coordinates are whole pixels. Every coordinate the widgets work with is
/// kept inside a fixed working range, so that each geometric computation
/// (differences, squared distances, bezier sampling) provably fits in the
/// machine integers used to carry it. Values coming from outside the range
/// are clipped to its edge.
pub const COORD_LIMIT: i64 = 100_000;

pub open spec fn in_range(v: int) -> bool {
    -(COORD_LIMIT as int) <= v <= COORD_LIMIT as int
}

/// Clipping a coordinate to the working range.
pub open spec fn clip(v: int) -> int {
    if v < -(COORD_LIMIT as int) {
        -(COORD_LIMIT as int)
    } else if v > COORD_LIMIT as int {
        COORD_LIMIT as int
    } else {
        v
    }
}

pub proof fn lemma_clip_in_range(v: int)
    ensures
        in_range(clip(v)),
        in_range(v) ==> clip(v) == v,
{
}

/// A point on the screen, in pixels.
#[derive(Clone, Copy, Debug, PartialEq, Eq, Structural)]
pub struct Pos {
    pub x: i64,
    pub y: i64,
}

/// A displacement between two screen points, in pixels.
#[derive(Clone, Copy, Debug, PartialEq, Eq, Structural)]
pub struct Vect {
    pub x: i64,
    pub y: i64,
}

fn clip_exec(v: i64) -> (r: i64)
    ensures
        r as int == clip(v as int),
{
    if v < -COORD_LIMIT {
        -COORD_LIMIT
    } else if v > COORD_LIMIT {
        COORD_LIMIT
    } else {
        v
    }
}

fn clip_wide(v: i128) -> (r: i64)
    ensures
        r as int == clip(v as int),
{
    if v < -(COORD_LIMIT as i128) {
        -COORD_LIMIT
    } else if v > COORD_LIMIT as i128 {
        COORD_LIMIT
    } else {
        v as i64
    }
}

impl Pos {
    pub open spec fn wf(self) -> bool {
        in_range(self.x as int) && in_range(self.y as int)
    }

    /// The point with the given coordinates, clipped to the working range.
    pub fn new(x: i64, y: i64) -> (r: Pos)
        ensures
            r.x as int == clip(x as int),
            r.y as int == clip(y as int),
    {
        Pos { x: clip_exec(x), y: clip_exec(y) }
    }

    pub open spec fn spec_clipped(self) -> Pos {
        Pos { x: clip(self.x as int) as i64, y: clip(self.y as int) as i64 }
    }

    /// The same point, clipped to the working range.
    pub fn clipped(self) -> (r: Pos)
        ensures
            r == self.spec_clipped(),
            r.wf(),
    {
        proof {
            lemma_clip_in_range(self.x as int);
            lemma_clip_in_range(self.y as int);
        }
        Pos { x: clip_exec(self.x), y: clip_exec(self.y) }
    }

    pub open spec fn spec_offset_by(self, v: Vect) -> Pos {
        Pos { x: clip(self.x + v.x) as i64, y: clip(self.y + v.y) as i64 }
    }

    /// The point displaced by `v`, clipped to the working range.
    pub fn offset_by(self, v: Vect) -> (r: Pos)
        ensures
            r == self.spec_offset_by(v),
            r.wf(),
    {
        proof {
            lemma_clip_in_range(self.x + v.x);
            lemma_clip_in_range(self.y + v.y);
        }
        Pos { x: clip_wide(self.x as i128 + v.x as i128), y: clip_wide(self.y as i128 + v.y as i128) }
    }

    pub open spec fn spec_minus(self, other: Pos) -> Vect {
        Vect { x: clip(self.x - other.x) as i64, y: clip(self.y - other.y) as i64 }
    }

    /// The displacement from `other` to `self`, clipped to the working range.
    pub fn minus(self, other: Pos) -> (r: Vect)
        ensures
            r == self.spec_minus(other),
            r.wf(),
    {
        proof {
            lemma_clip_in_range(self.x - other.x);
            lemma_clip_in_range(self.y - other.y);
        }
        Vect { x: clip_wide(self.x as i128 - other.x as i128), y: clip_wide(self.y as i128 - other.y as i128) }
    }

    pub open spec fn spec_midpoint(self, other: Pos) -> Pos {
        Pos { x: clip((self.x + other.x) / 2) as i64, y: clip((self.y + other.y) / 2) as i64 }
    }

    /// The midpoint of two points (coordinates rounded down), clipped to the
    /// working range.
    pub fn midpoint(self, other: Pos) -> (r: Pos)
        ensures
            r == self.spec_midpoint(other),
            r.wf(),
    {
        proof {
            lemma_clip_in_range((self.x + other.x) / 2);
            lemma_clip_in_range((self.y + other.y) / 2);
        }
        Pos { x: half_floor(self.x as i128 + other.x as i128), y: half_floor(self.y as i128 + other.y as i128) }
    }
}

impl Vect {
    pub open spec fn wf(self) -> bool {
        in_range(self.x as int) && in_range(self.y as int)
    }

    /// The displacement with the given components, clipped to the working
    /// range.
    pub fn new(x: i64, y: i64) -> (r: Vect)
        ensures
            r.x as int == clip(x as int),
            r.y as int == clip(y as int),
    {
        Vect { x: clip_exec(x), y: clip_exec(y) }
    }

    pub open spec fn spec_clipped(self) -> Vect {
        Vect { x: clip(self.x as int) as i64, y: clip(self.y as int) as i64 }
    }

    /// The same displacement, clipped to the working range.
    pub fn clipped(self) -> (r: Vect)
        ensures
            r == self.spec_clipped(),
            r.wf(),
    {
        proof {
            lemma_clip_in_range(self.x as int);
            lemma_clip_in_range(self.y as int);
        }
        Vect { x: clip_exec(self.x), y: clip_exec(self.y) }
    }

    pub open spec fn spec_plus(self, other: Vect) -> Vect {
        Vect { x: clip(self.x + other.x) as i64, y: clip(self.y + other.y) as i64 }
    }

    /// The sum of two displacements, clipped to the working range.
    pub fn plus(self, other: Vect) -> (r: Vect)
        ensures
            r == self.spec_plus(other),
            r.wf(),
    {
        proof {
            lemma_clip_in_range(self.x + other.x);
            lemma_clip_in_range(self.y + other.y);
        }
        Vect { x: clip_wide(self.x as i128 + other.x as i128), y: clip_wide(self.y as i128 + other.y as i128) }
    }

    pub open spec fn spec_minus(self, other: Vect) -> Vect {
        Vect { x: clip(self.x - other.x) as i64, y: clip(self.y - other.y) as i64 }
    }

    /// The difference of two displacements, clipped to the working range.
    pub fn minus(self, other: Vect) -> (r: Vect)
        ensures
            r == self.spec_minus(other),
            r.wf(),
    {
        proof {
            lemma_clip_in_range(self.x - other.x);
            lemma_clip_in_range(self.y - other.y);
        }
        Vect { x: clip_wide(self.x as i128 - other.x as i128), y: clip_wide(self.y as i128 - other.y as i128) }
    }

    pub open spec fn spec_half(self) -> Vect {
        Vect { x: clip(self.x as int / 2) as i64, y: clip(self.y as int / 2) as i64 }
    }

    /// Half of the displacement (components rounded down), clipped to the
    /// working range.
    pub fn half(self) -> (r: Vect)
        ensures
            r == self.spec_half(),
            r.wf(),
    {
        proof {
            lemma_clip_in_range(self.x as int / 2);
            lemma_clip_in_range(self.y as int / 2);
        }
        Vect { x: half_floor(self.x as i128), y: half_floor(self.y as i128) }
    }

    /// The smaller of the two components.
    pub fn min_side(self) -> (r: i64)
        ensures
            r as int == if self.x <= self.y { self.x as int } else { self.y as int },
    {
        if self.x <= self.y {
            self.x
        } else {
            self.y
        }
    }
}

/// The squared distance between two points.
pub open spec fn spec_dist_sq(a: Pos, b: Pos) -> int {
    (a.x - b.x) * (a.x - b.x) + (a.y - b.y) * (a.y - b.y)
}

/// The squared distance between two points of the working range.
pub fn dist_sq(a: Pos, b: Pos) -> (r: u64)
    requires
        a.wf(),
        b.wf(),
    ensures
        r as int == spec_dist_sq(a, b),
        r <= 80_000_000_000,
{
    let dx: i64 = a.x - b.x;
    let dy: i64 = a.y - b.y;
    proof {
        lemma_square_bound(dx as int, 200_000);
        lemma_square_bound(dy as int, 200_000);
    }
    let sx: i64 = dx * dx;
    let sy: i64 = dy * dy;
    (sx + sy) as u64
}

/// The whole-number square root of `n`, rounded down.
pub open spec fn sqrt_floor(n: int) -> int
    decreases n,
{
    if n <= 0 {
        0
    } else {
        let p = sqrt_floor(n - 1);
        if (p + 1) * (p + 1) <= n {
            p + 1
        } else {
            p
        }
    }
}

pub proof fn lemma_sqrt_floor_bounds(n: int)
    requires
        n >= 0,
    ensures
        sqrt_floor(n) >= 0,
        sqrt_floor(n) * sqrt_floor(n) <= n,
        n < (sqrt_floor(n) + 1) * (sqrt_floor(n) + 1),
    decreases n,
{
    if n > 0 {
        lemma_sqrt_floor_bounds(n - 1);
        let p = sqrt_floor(n - 1);
        if (p + 1) * (p + 1) <= n {
            assert(n < (p + 2) * (p + 2)) by (nonlinear_arith)
                requires
                    p >= 0,
                    n <= (p + 1) * (p + 1),
            ;
        }
    }
}

pub proof fn lemma_sqrt_floor_unique(n: int, r: int)
    requires
        n >= 0,
        r >= 0,
        r * r <= n,
        n < (r + 1) * (r + 1),
    ensures
        r == sqrt_floor(n),
{
    lemma_sqrt_floor_bounds(n);
    let s = sqrt_floor(n);
    if r < s {
        assert((r + 1) * (r + 1) <= s * s) by (nonlinear_arith)
            requires
                0 <= r,
                r + 1 <= s,
        ;
    }
    if s < r {
        assert((s + 1) * (s + 1) <= r * r) by (nonlinear_arith)
            requires
                0 <= s,
                s + 1 <= r,
        ;
    }
}

/// The whole-number square root, rounded down, found by bisection.
pub fn isqrt(n: u64) -> (r: u64)
    ensures
        r as int == sqrt_floor(n as int),
        (r as int) * (r as int) <= n as int,
        (n as int) < (r as int + 1) * (r as int + 1),
{
    let mut lo: u64 = 0;
    let mut hi: u64 = 0x1_0000_0000;
    while lo + 1 < hi
        invariant
            lo < hi,
            hi <= 0x1_0000_0000,
            (lo as int) * (lo as int) <= n as int,
            (n as int) < (hi as int) * (hi as int),
        decreases hi - lo,
    {
        let mid = lo + (hi - lo) / 2;
        proof {
            lemma_mul_nonneg_bound(mid as int, 0x1_0000_0000, mid as int, 0x1_0000_0000);
        }
        let sq: u128 = (mid as u128) * (mid as u128);
        if sq <= n as u128 {
            lo = mid;
        } else {
            hi = mid;
        }
    }
    proof {
        lemma_sqrt_floor_unique(n as int, lo as int);
    }
    lo
}

/// Bound on a product of nonnegative factors.
pub proof fn lemma_mul_nonneg_bound(a: int, am: int, b: int, bm: int)
    by (nonlinear_arith)
    requires
        0 <= a <= am,
        0 <= b <= bm,
    ensures
        0 <= a * b <= am * bm,
{
}

/// Bound on a product of a nonnegative factor and a signed factor.
pub proof fn lemma_mul_bound(a: int, am: int, b: int, bm: int)
    by (nonlinear_arith)
    requires
        0 <= a <= am,
        -bm <= b <= bm,
    ensures
        -(am * bm) <= a * b <= am * bm,
{
}

/// Bound on a square of a signed factor.
pub proof fn lemma_square_bound(a: int, am: int)
    by (nonlinear_arith)
    requires
        -am <= a <= am,
    ensures
        0 <= a * a <= am * am,
{
}

impl View for Pos {
    type V = Pos;

    open spec fn view(&self) -> Pos {
        *self
    }
}

impl StoreItem for Pos {
    fn dup(&self) -> (r: Self) {
        *self
    }
}

impl View for Vect {
    type V = Vect;

    open spec fn view(&self) -> Vect {
        *self
    }
}

impl StoreItem for Vect {
    fn dup(&self) -> (r: Self) {
        *self
    }
}

/// Half of `v`, rounded toward minus infinity, clipped to the working range.
///
/// Shifts `v` into nonnegative territory by an even offset, so that unsigned
/// machine division rounds the same way as mathematical floor division.
fn half_floor(v: i128) -> (r: i64)
    requires
        -0x2_0000_0000_0000_0000 <= v <= 0x2_0000_0000_0000_0000,
    ensures
        r as int == clip(v as int / 2),
{
    proof {
        vstd::arithmetic::div_mod::lemma_hoist_over_denominator(
            v as int,
            0x2_0000_0000_0000_0000,
            2,
        );
    }
    let t: u128 = (v + 0x4_0000_0000_0000_0000) as u128;
    let h: u128 = t / 2;
    clip_wide((h as i128) - 0x2_0000_0000_0000_0000)
}

/// A quarter of `v`, rounded toward minus infinity, clipped to the working
/// range. Works by the same offset trick as `half_floor`.
pub(crate) fn quarter_floor(v: i128) -> (r: i64)
    requires
        -0x2_0000_0000_0000_0000 <= v <= 0x2_0000_0000_0000_0000,
    ensures
        r as int == clip(v as int / 4),
{
    proof {
        vstd::arithmetic::div_mod::lemma_hoist_over_denominator(
            v as int,
            0x1_0000_0000_0000_0000,
            4,
        );
    }
    let t: u128 = (v + 0x4_0000_0000_0000_0000) as u128;
    let h: u128 = t / 4;
    clip_wide((h as i128) - 0x1_0000_0000_0000_0000)
}

/// `v` divided by 400, rounded toward minus infinity, clipped to the
/// working range. Works by the same offset trick as `half_floor`.
pub(crate) fn div400_floor(v: i128) -> (r: i64)
    requires
        -0x2_0000_0000_0000_0000 <= v <= 0x2_0000_0000_0000_0000,
    ensures
        r as int == clip(v as int / 400),
{
    proof {
        vstd::arithmetic::div_mod::lemma_hoist_over_denominator(
            v as int,
            0x200_0000_0000_0000,
            400,
        );
    }
    let t: u128 = (v + 0x3_2000_0000_0000_0000) as u128;
    let h: u128 = t / 400;
    clip_wide((h as i128) - 0x200_0000_0000_0000)
}

} // verus!
