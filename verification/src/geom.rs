use vstd::prelude::*;

verus! {

// All coordinates are fixed-point integers: one screen pixel is 1000 units.
// Velocities are in units per second, timers and tick deltas in milliseconds,
// so one tick moves a coordinate by `v * dt / 1000` units.

/// Coordinates are kept inside this range; it lies far outside any play area,
/// so the clamp never interferes with boundary logic.
pub const COORD_LIMIT: i64 = 1_000_000_000;

/// Largest velocity magnitude the simulation accepts, in units per second.
pub const VEL_LIMIT: i64 = 1_000_000;

/// Largest tick delta the simulation accepts, in milliseconds.
pub const DT_LIMIT: u64 = 1_000;

/// Largest distance a coordinate can move in one tick:
/// `VEL_LIMIT * DT_LIMIT / 1000`.
pub const STEP_LIMIT: i64 = 1_000_000;

/// Largest hit or contact radius the simulation accepts.
pub const RADIUS_LIMIT: i64 = 1_000_000;

#[derive(Clone, Copy, PartialEq, Eq, Structural, Debug)]
pub struct Vec2i {
    pub x: i64,
    pub y: i64,
}

pub open spec fn coord_ok(c: int) -> bool {
    -COORD_LIMIT <= c <= COORD_LIMIT
}

impl Vec2i {
    pub open spec fn wf(self) -> bool {
        coord_ok(self.x as int) && coord_ok(self.y as int)
    }
}

/// Squared Euclidean distance between two points.
pub open spec fn dist_sq(a: Vec2i, b: Vec2i) -> int {
    (a.x - b.x) * (a.x - b.x) + (a.y - b.y) * (a.y - b.y)
}

/// Two points collide at radius `r` when their distance is strictly below it.
/// Kept opaque so collision predicates stay plain atoms under quantifiers;
/// `within_radius` is its executable mirror.
#[verifier::opaque]
pub open spec fn within(a: Vec2i, b: Vec2i, r: int) -> bool {
    dist_sq(a, b) < r * r
}

pub proof fn lemma_square_bound(x: int, b: int)
    requires
        0 <= b,
        -b <= x <= b,
    ensures
        0 <= x * x <= b * b,
{
    assert(0 <= x * x <= b * b) by (nonlinear_arith)
        requires 0 <= b, -b <= x <= b;
}

/// Squared distance, computed exactly; bounded coordinates keep it inside i64.
pub fn dist_sq_exec(a: Vec2i, b: Vec2i) -> (r: i64)
    requires
        a.wf(),
        b.wf(),
    ensures
        r as int == dist_sq(a, b),
        0 <= r <= 8_000_000_000_000_000_000i64,
{
    let dx: i64 = a.x - b.x;
    let dy: i64 = a.y - b.y;
    proof {
        lemma_square_bound(dx as int, 2 * COORD_LIMIT as int);
        lemma_square_bound(dy as int, 2 * COORD_LIMIT as int);
    }
    dx * dx + dy * dy
}

/// Collision test: strictly closer than `r`.
pub fn within_radius(a: Vec2i, b: Vec2i, r: i64) -> (hit: bool)
    requires
        a.wf(),
        b.wf(),
        0 <= r <= RADIUS_LIMIT,
    ensures
        hit == within(a, b, r as int),
{
    let d: i64 = dist_sq_exec(a, b);
    proof {
        reveal(within);
        lemma_square_bound(r as int, RADIUS_LIMIT as int);
    }
    d < r * r
}

pub open spec fn clamp_spec(v: int, lo: int, hi: int) -> int {
    if v < lo {
        lo
    } else if v > hi {
        hi
    } else {
        v
    }
}

pub fn clamp_i64(v: i64, lo: i64, hi: i64) -> (r: i64)
    requires
        lo <= hi,
    ensures
        r as int == clamp_spec(v as int, lo as int, hi as int),
{
    if v < lo {
        lo
    } else if v > hi {
        hi
    } else {
        v
    }
}

/// Distance moved in one tick by a velocity `v` (units per second) over
/// `dt` milliseconds, rounded toward zero.
pub open spec fn step_of(v: int, dt: int) -> int {
    if v >= 0 {
        (v * dt) / 1000
    } else {
        -(((-v) * dt) / 1000)
    }
}

pub fn scale_by_dt(v: i64, dt: u64) -> (r: i64)
    requires
        -VEL_LIMIT <= v <= VEL_LIMIT,
        dt <= DT_LIMIT,
    ensures
        r as int == step_of(v as int, dt as int),
        -STEP_LIMIT <= r <= STEP_LIMIT,
{
    if v >= 0 {
        assert(v * dt <= VEL_LIMIT * DT_LIMIT) by (nonlinear_arith)
            requires 0 <= v <= VEL_LIMIT, 0 <= dt <= DT_LIMIT;
        let m: u64 = (v as u64) * dt / 1000;
        m as i64
    } else {
        let w: i64 = -v;
        assert(w * dt <= VEL_LIMIT * DT_LIMIT) by (nonlinear_arith)
            requires 0 <= w <= VEL_LIMIT, 0 <= dt <= DT_LIMIT;
        let m: u64 = (w as u64) * dt / 1000;
        -(m as i64)
    }
}

/// `a * b / d`, rounded toward zero, for a positive divisor.
pub open spec fn scaled(a: int, b: int, d: int) -> int {
    let p = a * b;
    if p >= 0 {
        p / d
    } else {
        -((-p) / d)
    }
}

pub proof fn lemma_scaled_bound(a: int, b: int, d: int, ba: int, bb: int)
    requires
        1 <= d,
        0 <= ba,
        0 <= bb,
        -ba <= a <= ba,
        -bb <= b <= bb,
    ensures
        -((ba * bb) / d) <= scaled(a, b, d) <= (ba * bb) / d,
{
    assert(-(ba * bb) <= a * b <= ba * bb) by (nonlinear_arith)
        requires 0 <= ba, 0 <= bb, -ba <= a <= ba, -bb <= b <= bb;
    if a * b >= 0 {
        assert((a * b) / d <= (ba * bb) / d) by (nonlinear_arith)
            requires 1 <= d, a * b <= ba * bb;
        assert((a * b) / d >= 0) by (nonlinear_arith)
            requires 1 <= d, a * b >= 0;
    } else {
        assert((-(a * b)) / d <= (ba * bb) / d) by (nonlinear_arith)
            requires 1 <= d, -(a * b) <= ba * bb;
        assert((-(a * b)) / d >= 0) by (nonlinear_arith)
            requires 1 <= d, -(a * b) >= 0;
    }
}

/// Exact `a * b / d` with rounding toward zero, via unsigned magnitudes.
pub fn scaled_exec(a: i64, b: i64, d: i64) -> (r: i64)
    requires
        1 <= d,
        -2_000_000_000 <= a <= 2_000_000_000,
        -2_000_000_000 <= b <= 2_000_000_000,
    ensures
        r as int == scaled(a as int, b as int, d as int),
{
    let am: u64 = if a >= 0 { a as u64 } else { (-a) as u64 };
    let bm: u64 = if b >= 0 { b as u64 } else { (-b) as u64 };
    assert(am * bm == if a * b >= 0 { a * b } else { -(a * b) }) by (nonlinear_arith)
        requires
            am == (if a >= 0 { a as int } else { -(a as int) }),
            bm == (if b >= 0 { b as int } else { -(b as int) });
    assert(am * bm <= 4_000_000_000_000_000_000) by (nonlinear_arith)
        requires am <= 2_000_000_000u64, bm <= 2_000_000_000u64;
    let q: u64 = am * bm / (d as u64);
    let neg: bool = (a < 0) != (b < 0);
    if neg {
        assert(a * b <= 0) by (nonlinear_arith)
            requires
                ((a as int) < 0 && (b as int) >= 0) || ((a as int) >= 0 && (b as int) < 0);
        if q == 0 {
            0
        } else {
            assert(q <= am * bm) by (nonlinear_arith)
                requires 1 <= d, q == (am * bm) as int / (d as int), 0 <= am * bm;
            -(q as i64)
        }
    } else {
        assert(a * b >= 0) by (nonlinear_arith)
            requires
                ((a as int) < 0 && (b as int) < 0) || ((a as int) >= 0 && (b as int) >= 0);
        assert(q <= am * bm) by (nonlinear_arith)
            requires 1 <= d, q == (am * bm) as int / (d as int), 0 <= am * bm;
        q as i64
    }
}

/// Advance a coordinate by one tick's step, saturating at the coordinate range.
pub fn move_coord(c: i64, d: i64) -> (r: i64)
    requires
        coord_ok(c as int),
        -STEP_LIMIT <= d <= STEP_LIMIT,
    ensures
        r as int == clamp_spec(c + d, -COORD_LIMIT as int, COORD_LIMIT as int),
        coord_ok(r as int),
{
    clamp_i64(c + d, -COORD_LIMIT, COORD_LIMIT)
}

// A piecewise-linear oscillation kernel, the fixed-point stand-in for a
// sinusoid: phase runs over [0, WAVE_PERIOD), the result swings over
// [-WAVE_ONE, WAVE_ONE], rising on the first quarter, falling through the
// middle half, rising again on the last quarter.

pub const WAVE_PERIOD: u64 = 4_000;

pub const WAVE_ONE: i64 = 1_000;

pub open spec fn wave_spec(q: int) -> int {
    if q < 1000 {
        q
    } else if q < 3000 {
        2000 - q
    } else {
        q - 4000
    }
}

pub fn wave(q: u64) -> (r: i64)
    requires
        q < WAVE_PERIOD,
    ensures
        r as int == wave_spec(q as int),
        -WAVE_ONE <= r <= WAVE_ONE,
{
    if q < 1000 {
        q as i64
    } else if q < 3000 {
        2000 - q as i64
    } else {
        q as i64 - 4000
    }
}

/// The same oscillation a quarter period ahead, playing cosine to `wave`'s sine.
pub fn wave_shifted(q: u64) -> (r: i64)
    requires
        q < WAVE_PERIOD,
    ensures
        r as int == wave_spec((q as int + 1000) % (WAVE_PERIOD as int)),
        -WAVE_ONE <= r <= WAVE_ONE,
{
    let s: u64 = (q + 1000) % WAVE_PERIOD;
    wave(s)
}

/// Integer square root: the exact floor of the real square root.
pub fn isqrt64(n: u64) -> (r: u64)
    requires
        n <= 8_000_000_000_000_000_000u64,
    ensures
        r * r <= n,
        (r + 1) * (r + 1) > n,
        r <= 3_000_000_000u64,
{
    let mut lo: u64 = 0;
    let mut hi: u64 = 3_000_000_000;
    assert(hi * hi > n) by (nonlinear_arith)
        requires hi == 3_000_000_000u64, n <= 8_000_000_000_000_000_000u64;
    while lo + 1 < hi
        invariant
            lo < hi <= 3_000_000_000u64,
            lo * lo <= n,
            hi * hi > n,
        decreases hi - lo,
    {
        let mid: u64 = lo + (hi - lo) / 2;
        assert(mid * mid < 18_446_744_073_709_551_615u64) by (nonlinear_arith)
            requires mid <= 3_000_000_000u64;
        if mid * mid <= n {
            lo = mid;
        } else {
            hi = mid;
        }
    }
    lo
}

} // verus!
