//! Fixed-point units and the screen-wrap rule shared by all entities.

use vstd::prelude::*;

verus! {

/// Lengths (coordinates, velocities, radii) are held in thousandths of a
/// pixel: one pixel is `SCALE` units.
pub const SCALE: i64 = 1000;

/// Angles are held in millionths of a radian; this is the model's value of
/// pi on that scale.
pub const PI_MICRO: i64 = 3141593;

/// One full turn (two pi) in microradians.
pub const TWO_PI_MICRO: i64 = 6283186;

/// Every coordinate this library handles stays within this many units of
/// the origin; screens are at most `DIM_MAX_PIXELS` pixels wide or tall, so
/// this equals the largest representable screen dimension.
pub const COORD_BOUND: i64 = 1_000_000_000;

/// Largest accepted screen width or height, in pixels.
pub const DIM_MAX_PIXELS: i64 = 1_000_000;

/// Degrees to microradians: the fixed-point form of `deg * pi / 180`.
pub fn deg2rad(deg: i64) -> (r: i64)
    requires
        0 <= deg <= 1_000_000,
    ensures
        r == deg * PI_MICRO / 180,
{
    deg * PI_MICRO / 180
}

/// One advance of a wrapping coordinate: move by `v`, then cross at most one
/// screen edge, reappearing on the opposite side.
pub open spec fn wrap_coord(c: int, v: int, dim: int) -> int {
    if c + v < 0 {
        c + v + dim
    } else if c + v >= dim {
        c + v - dim
    } else {
        c + v
    }
}

/// Executable form of `wrap_coord`.
pub fn wrap_add(c: i64, v: i64, dim: i64) -> (r: i64)
    requires
        -2_000_000_000 <= c <= 2_000_000_000,
        -2_000_000_000 <= v <= 2_000_000_000,
        0 < dim <= 2_000_000_000,
    ensures
        r == wrap_coord(c as int, v as int, dim as int),
{
    let s = c + v;
    if s < 0 {
        s + dim
    } else if s >= dim {
        s - dim
    } else {
        s
    }
}

/// Wrap invariant: a coordinate inside `[0, dim)` moved by at most one
/// screen dimension lands back inside `[0, dim)`; leaving through an edge
/// adds or subtracts exactly one dimension.
pub proof fn lemma_wrap_in_range(c: int, v: int, dim: int)
    requires
        0 <= c < dim,
        -dim <= v <= dim,
    ensures
        0 <= wrap_coord(c, v, dim) < dim,
        c + v < 0 ==> wrap_coord(c, v, dim) == c + v + dim,
        c + v >= dim ==> wrap_coord(c, v, dim) == c + v - dim,
        0 <= c + v < dim ==> wrap_coord(c, v, dim) == c + v,
{
}

/// A wrapped coordinate never drifts beyond a bound that the screen itself
/// fits in, as long as the speed does not exceed the dimension.
pub proof fn lemma_wrap_bounded(c: int, v: int, dim: int, bound: int)
    requires
        -bound <= c <= bound,
        -dim <= v <= dim,
        0 < dim <= bound,
    ensures
        -bound <= wrap_coord(c, v, dim) <= bound,
{
}

/// One advance of a wrapping rotation angle: the upper edge wraps only when
/// the angle passes strictly beyond a full turn, the lower edge at zero.
pub open spec fn wrap_angle(rot: int) -> int {
    if rot < 0 {
        rot + TWO_PI_MICRO
    } else if rot > TWO_PI_MICRO {
        rot - TWO_PI_MICRO
    } else {
        rot
    }
}

/// Executable form of `wrap_angle`.
pub fn wrap_turn(rot: i64) -> (r: i64)
    requires
        -2_000_000_000 <= rot <= 2_000_000_000,
    ensures
        r == wrap_angle(rot as int),
{
    if rot < 0 {
        rot + TWO_PI_MICRO
    } else if rot > TWO_PI_MICRO {
        rot - TWO_PI_MICRO
    } else {
        rot
    }
}

/// Half of a fixed-point value, rounded toward zero.
pub open spec fn half_toward_zero(h: int) -> int {
    if h >= 0 {
        h / 2
    } else {
        -((-h) / 2)
    }
}

/// Executable form of `half_toward_zero`. Halving never grows a value's
/// magnitude and never flips its sign.
pub fn half_of(h: i64) -> (r: i64)
    requires
        -1_000_000_000 <= h <= 1_000_000_000,
    ensures
        r == half_toward_zero(h as int),
        0 <= h ==> 0 <= r <= h,
        h < 0 ==> h <= r <= 0,
{
    if h >= 0 {
        h / 2
    } else {
        -((-h) / 2)
    }
}

} // verus!
