use vstd::prelude::*;

verus! {

/// Length units in one pixel: positions and sizes are in micro-pixels.
pub const UNITS_PER_PIXEL: i64 = 1_000_000;

/// Time units in one second: frame times are in microseconds.
pub const TICKS_PER_SECOND: i64 = 1_000_000;

/// Largest magnitude a saturated quantity may take; the range is symmetric so
/// that negating a saturated value never overflows.
pub const LIMIT: i64 = 0x7fff_ffff_ffff_ffff;

/// The integer `v` saturated into `[-LIMIT, LIMIT]`.
pub open spec fn fit(v: int) -> int {
    if v < -LIMIT {
        -LIMIT
    } else if v > LIMIT {
        LIMIT as int
    } else {
        v
    }
}

/// Saturates a wide intermediate result into the range of `fit`.
pub fn saturate(v: i128) -> (r: i64)
    ensures
        r == fit(v as int),
{
    if v < -(LIMIT as i128) {
        -LIMIT
    } else if v > LIMIT as i128 {
        LIMIT
    } else {
        v as i64
    }
}

/// The product of two 64-bit integers, computed without overflow.
pub fn wide_mul(a: i64, b: i64) -> (r: i128)
    ensures
        r == a * b,
        -0x4000_0000_0000_0000_0000_0000_0000_0000 <= r <= 0x4000_0000_0000_0000_0000_0000_0000_0000,
{
    proof {
        assert(-0x4000_0000_0000_0000_0000_0000_0000_0000 <= a * b <= 0x4000_0000_0000_0000_0000_0000_0000_0000)
            by (nonlinear_arith)
            requires
                -0x8000_0000_0000_0000 <= a <= 0x8000_0000_0000_0000,
                -0x8000_0000_0000_0000 <= b <= 0x8000_0000_0000_0000,
        ;
    }
    a as i128 * b as i128
}

/// An axis-aligned rectangle: its top-left corner and its extent.
#[derive(Clone, Copy, Debug, PartialEq, Eq, Structural)]
pub struct Rect {
    pub x: i64,
    pub y: i64,
    pub width: i64,
    pub height: i64,
}

/// `v` forced into `[lo, hi]`: first raised to `lo`, then lowered to `hi`.
pub open spec fn clamp_spec(v: int, lo: int, hi: int) -> int {
    let raised = if v < lo { lo } else { v };
    if raised > hi { hi } else { raised }
}

/// Squared distance from the point `(cx, cy)` to the nearest point of `rect`.
pub open spec fn dist_sq_to_rect(cx: int, cy: int, rect: Rect) -> int {
    let dx = cx - clamp_spec(cx, rect.x as int, rect.x + rect.width);
    let dy = cy - clamp_spec(cy, rect.y as int, rect.y + rect.height);
    dx * dx + dy * dy
}

/// Whether the circle of centre `(cx, cy)` and the given radius touches `rect`.
pub open spec fn circle_hits_rect(cx: int, cy: int, radius: int, rect: Rect) -> bool {
    dist_sq_to_rect(cx, cy, rect) <= radius * radius
}

/// `v` forced into `[lo, hi]`, in the order of `clamp_spec`.
pub fn clamp_to(v: i64, lo: i64, hi: i64) -> (r: i64)
    ensures
        r == clamp_spec(v as int, lo as int, hi as int),
{
    let raised = if v < lo { lo } else { v };
    if raised > hi { hi } else { raised }
}

fn clamp_wide(v: i128, lo: i128, hi: i128) -> (r: i128)
    ensures
        r == clamp_spec(v as int, lo as int, hi as int),
{
    let raised = if v < lo { lo } else { v };
    if raised > hi { hi } else { raised }
}

fn abs_wide(v: i128) -> (r: i128)
    requires
        v > i128::MIN,
    ensures
        r >= 0,
        r == v || r == -v,
{
    if v < 0 { -v } else { v }
}

/// Circle-versus-rectangle test: true iff the point of `rect` nearest to the
/// centre lies within `radius` of it.
pub fn circle_intersects_rect(cx: i64, cy: i64, radius: i64, rect: Rect) -> (r: bool)
    ensures
        r == circle_hits_rect(cx as int, cy as int, radius as int, rect),
{
    let near_x = clamp_wide(cx as i128, rect.x as i128, rect.x as i128 + rect.width as i128);
    let near_y = clamp_wide(cy as i128, rect.y as i128, rect.y as i128 + rect.height as i128);
    let dx = abs_wide(cx as i128 - near_x);
    let dy = abs_wide(cy as i128 - near_y);
    let rad = abs_wide(radius as i128);
    proof {
        assert(dx * dx == (cx - near_x) * (cx - near_x)) by (nonlinear_arith)
            requires dx == cx - near_x || dx == -(cx - near_x);
        assert(dy * dy == (cy - near_y) * (cy - near_y)) by (nonlinear_arith)
            requires dy == cy - near_y || dy == -(cy - near_y);
        assert(rad * rad == radius * radius) by (nonlinear_arith)
            requires rad == radius || rad == -radius;
    }
    if dx > rad || dy > rad {
        proof {
            assert(dx * dx + dy * dy > rad * rad) by (nonlinear_arith)
                requires dx >= 0, dy >= 0, rad >= 0, dx > rad || dy > rad;
        }
        return false;
    }
    proof {
        assert(rad <= 0x8000_0000_0000_0000);
        assert(dx * dx <= rad * rad && dy * dy <= rad * rad) by (nonlinear_arith)
            requires 0 <= dx <= rad, 0 <= dy <= rad;
        assert(rad * rad <= 0x4000_0000_0000_0000_0000_0000_0000_0000) by (nonlinear_arith)
            requires 0 <= rad <= 0x8000_0000_0000_0000;
    }
    dx * dx <= rad * rad - dy * dy
}

} // verus!
