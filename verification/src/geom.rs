//! Fixed-point 2D geometry: vectors, transforms, axis clamping, truncating
//! scaling, toroidal coordinate wrapping and axis-aligned box overlap.

use vstd::prelude::*;

verus! {

/// Fixed-point scale: 1.0 in world units is `SCALE` fixed units.
pub const SCALE: i64 = 10_000;

/// Microturns in one full revolution.
pub const TURN: i64 = 1_000_000;

/// Microseconds in one second.
pub const MICROS_PER_SEC: i64 = 1_000_000;

/// Largest tick duration the integrator accepts, in microseconds.
pub const MAX_DT_MICROS: u64 = 200_000;

/// Largest playfield half-extent, in fixed units.
pub const BOUND_LIMIT: i64 = 1_000_000_000_000;

/// Largest collider half-extent, in fixed units.
pub const HALF_LIMIT: i64 = 10_000_000_000;

/// Largest linear speed, in world units per second.
pub const SPEED_LIMIT: i64 = 100_000;

/// Largest rotation speed, in millturns per second.
pub const ROT_SPEED_LIMIT: i64 = 4_000;

/// A 2D vector of fixed-point coordinates.
#[derive(Clone, Copy, PartialEq, Eq, Structural, Debug)]
pub struct Vec2Fx {
    pub x: i64,
    pub y: i64,
}

/// A position together with a heading in microturns.
#[derive(Clone, Copy, PartialEq, Eq, Structural, Debug)]
pub struct TransformFx {
    pub translation: Vec2Fx,
    /// Heading around the screen-normal axis, in microturns, in `[0, TURN)`.
    pub rotation: i64,
}

impl Vec2Fx {
    /// Both coordinates lie in `[-b, b]`.
    pub open spec fn within(self, b: Vec2Fx) -> bool {
        -b.x <= self.x <= b.x && -b.y <= self.y <= b.y
    }
}

/// Division truncating toward zero, for a positive divisor.
pub open spec fn div_trunc(v: int, d: int) -> int
    recommends
        d > 0,
{
    if v < 0 {
        -((-v) / d)
    } else {
        v / d
    }
}

/// Truncating division on machine integers.
pub fn div_trunc_i64(v: i64, d: i64) -> (r: i64)
    requires
        d > 0,
        v > i64::MIN,
    ensures
        r == div_trunc(v as int, d as int),
{
    if v < 0 {
        -((-v) / d)
    } else {
        v / d
    }
}

/// A product of a magnitude-bounded factor and a nonnegative bounded
/// factor is bounded by the product of the bounds.
pub proof fn lemma_abs_mul_bound(x: int, a: int, y: int, b: int)
    requires
        -a <= x <= a,
        0 <= y <= b,
    ensures
        -(a * b) <= x * y <= a * b,
{
    assert(-(a * b) <= x * y <= a * b) by (nonlinear_arith)
        requires
            -a <= x <= a,
            0 <= y <= b,
    ;
}

/// Truncating division scales a magnitude bound down with the divisor.
pub proof fn lemma_div_trunc_bound(v: int, d: int, b: int)
    requires
        d > 0,
        0 <= b,
        -b <= v <= b,
    ensures
        -(b / d) <= div_trunc(v, d) <= b / d,
{
    if v >= 0 {
        assert(0 <= v / d <= b / d) by (nonlinear_arith)
            requires
                d > 0,
                0 <= v <= b,
        ;
    } else {
        assert(0 <= (-v) / d <= b / d) by (nonlinear_arith)
            requires
                d > 0,
                0 < -v <= b,
        ;
    }
}

/// One coordinate clamped to `[-lim, lim]`.
pub open spec fn clamp_axis_spec(v: int, lim: int) -> int {
    if v < -lim {
        -lim
    } else if v > lim {
        lim
    } else {
        v
    }
}

/// Clamps one coordinate to `[-lim, lim]`.
pub fn clamp_axis(v: i64, lim: i64) -> (r: i64)
    requires
        0 < lim <= i64::MAX,
    ensures
        r == clamp_axis_spec(v as int, lim as int),
        -lim <= r <= lim,
{
    if v < -lim {
        -lim
    } else if v > lim {
        lim
    } else {
        v
    }
}

/// A coordinate brought back into `[-b, b]` by whole playfield widths,
/// as a toroidal screen wrap does.
pub open spec fn wrap_coord_spec(v: int, b: int) -> int
    recommends
        b > 0,
    decreases (if v < 0 { -v } else { v })
        when b > 0
{
    if v > b {
        wrap_coord_spec(v - 2 * b, b)
    } else if v < -b {
        wrap_coord_spec(v + 2 * b, b)
    } else {
        v
    }
}

/// Wraps one coordinate into `[-b, b]` by whole playfield widths.
pub fn wrap_coord(v: i64, b: i64) -> (r: i64)
    requires
        0 < b <= BOUND_LIMIT,
        -i64::MAX <= v,
    ensures
        r == wrap_coord_spec(v as int, b as int),
        -b <= r <= b,
{
    let mut w: i64 = v;
    while w > b
        invariant
            0 < b <= BOUND_LIMIT,
            -i64::MAX <= w,
            wrap_coord_spec(w as int, b as int) == wrap_coord_spec(v as int, b as int),
        decreases (if w < 0 { -(w as int) } else { w as int }),
    {
        w = w - 2 * b;
    }
    while w < -b
        invariant
            0 < b <= BOUND_LIMIT,
            w <= b,
            -i64::MAX <= w,
            wrap_coord_spec(w as int, b as int) == wrap_coord_spec(v as int, b as int),
        decreases (if w < 0 { -(w as int) } else { w as int }),
    {
        w = w + 2 * b;
    }
    w
}

/// Two axis-aligned boxes, given by centers and half-extents, overlap:
/// strict inequality on both axes, so boxes that merely touch do not.
pub open spec fn boxes_overlap_spec(ca: Vec2Fx, ha: Vec2Fx, cb: Vec2Fx, hb: Vec2Fx) -> bool {
    let dx = if ca.x >= cb.x { ca.x - cb.x } else { cb.x - ca.x };
    let dy = if ca.y >= cb.y { ca.y - cb.y } else { cb.y - ca.y };
    dx < ha.x + hb.x && dy < ha.y + hb.y
}

/// Tests overlap of two axis-aligned boxes given by centers and half-extents.
pub fn boxes_overlap(ca: Vec2Fx, ha: Vec2Fx, cb: Vec2Fx, hb: Vec2Fx) -> (r: bool)
    requires
        -BOUND_LIMIT - HALF_LIMIT <= ca.x <= BOUND_LIMIT + HALF_LIMIT,
        -BOUND_LIMIT - HALF_LIMIT <= ca.y <= BOUND_LIMIT + HALF_LIMIT,
        -BOUND_LIMIT - HALF_LIMIT <= cb.x <= BOUND_LIMIT + HALF_LIMIT,
        -BOUND_LIMIT - HALF_LIMIT <= cb.y <= BOUND_LIMIT + HALF_LIMIT,
        0 <= ha.x <= HALF_LIMIT,
        0 <= ha.y <= HALF_LIMIT,
        0 <= hb.x <= HALF_LIMIT,
        0 <= hb.y <= HALF_LIMIT,
    ensures
        r == boxes_overlap_spec(ca, ha, cb, hb),
{
    let dx: i64 = if ca.x >= cb.x {
        ca.x - cb.x
    } else {
        cb.x - ca.x
    };
    let dy: i64 = if ca.y >= cb.y {
        ca.y - cb.y
    } else {
        cb.y - ca.y
    };
    dx < ha.x + hb.x && dy < ha.y + hb.y
}

} // verus!
