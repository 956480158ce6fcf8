//! Coordinate spaces and the exact (rational) transforms from raw device
//! coordinates into them.
//!
//! Canonical ranges: `Window` is raw pixels. `Normalized` maps each axis of
//! `[0, extent]` to `[-1, 1]`, keeping the raw axis directions. `PreserveAspect`
//! scales both axes by `2 / max(width, height)` (the smaller of the two
//! per-axis factors) and centres the result, so the longer axis spans
//! `[-1, 1]`. A zero extent is treated as one pixel.
use vstd::prelude::*;

verus! {

/// How a mouse-derived position or delta is reinterpreted.
#[derive(Clone, Copy, Debug, PartialEq, Eq, Structural)]
pub enum CoordinateSpace {
    Window,
    Normalized,
    PreserveAspect,
}

/// Size of the viewport, in pixels, supplied each frame.
#[derive(Clone, Copy, Debug, PartialEq, Eq, Structural)]
pub struct Viewport {
    pub width: u32,
    pub height: u32,
}

/// An exact rational number `num / den`; `den` is positive for every value
/// produced by this library.
#[derive(Clone, Copy, Debug, PartialEq, Eq, Structural)]
pub struct Ratio {
    pub num: i128,
    pub den: i128,
}

/// A two-dimensional value in some coordinate space.
#[derive(Clone, Copy, Debug, PartialEq, Eq, Structural)]
pub struct Vector2 {
    pub x: Ratio,
    pub y: Ratio,
}

/// The sensitivity that leaves raw mouse deltas unscaled; sensitivities
/// are counted in thousandths.
pub const SENSITIVITY_UNIT: i32 = 1000;

/// Scaling of raw mouse deltas, in thousandths (`1000` is one to one).
#[derive(Clone, Copy, Debug, PartialEq, Eq, Structural)]
pub struct Sensitivity {
    pub milli: i32,
}

impl Sensitivity {
    /// One raw unit per unit.
    pub fn one() -> (r: Sensitivity)
        ensures
            r.milli == SENSITIVITY_UNIT,
    {
        Sensitivity { milli: SENSITIVITY_UNIT }
    }
}

/// The extent used for an axis: a zero extent counts as one pixel.
pub open spec fn effective_extent(e: u32) -> int {
    if e == 0 {
        1
    } else {
        e as int
    }
}

/// The larger of the two effective extents.
pub open spec fn long_extent(vp: Viewport) -> int {
    let w = effective_extent(vp.width);
    let h = effective_extent(vp.height);
    if w >= h {
        w
    } else {
        h
    }
}

/// Denominator of the scale factor of `space` on an axis of extent `e`.
pub open spec fn scale_den(space: CoordinateSpace, e: u32, vp: Viewport) -> int {
    match space {
        CoordinateSpace::Window => 1,
        CoordinateSpace::Normalized => effective_extent(e),
        CoordinateSpace::PreserveAspect => long_extent(vp),
    }
}

/// Numerator of the scale factor of `space`.
pub open spec fn scale_num(space: CoordinateSpace) -> int {
    match space {
        CoordinateSpace::Window => 1,
        _ => 2,
    }
}

/// Whether `r` is exactly the fraction `num / den`, written in these terms.
pub open spec fn is_fraction(r: Ratio, num: int, den: int) -> bool {
    r.num == num && r.den == den
}

/// An absolute raw position `p` on an axis of extent `e`, mapped into `space`:
/// scaled, and for the non-pixel spaces centred on the viewport.
pub open spec fn position_on_axis(space: CoordinateSpace, p: i32, e: u32, vp: Viewport) -> (int, int) {
    match space {
        CoordinateSpace::Window => (p as int, 1),
        _ => (2 * p - effective_extent(e), scale_den(space, e, vp)),
    }
}

/// A raw delta `d` on an axis of extent `e`, scaled by the sensitivity and by
/// the scale factor of `space` (no translation).
pub open spec fn delta_on_axis(space: CoordinateSpace, d: i32, s: Sensitivity, e: u32, vp: Viewport) -> (int, int) {
    (d * s.milli * scale_num(space), SENSITIVITY_UNIT * scale_den(space, e, vp))
}

/// A raw absolute position mapped into `space`.
pub open spec fn position_spec(space: CoordinateSpace, x: i32, y: i32, vp: Viewport) -> Vector2 {
    let (xn, xd) = position_on_axis(space, x, vp.width, vp);
    let (yn, yd) = position_on_axis(space, y, vp.height, vp);
    Vector2 {
        x: Ratio { num: xn as i128, den: xd as i128 },
        y: Ratio { num: yn as i128, den: yd as i128 },
    }
}

/// A raw delta mapped into `space` with sensitivity `s`.
pub open spec fn delta_spec(space: CoordinateSpace, dx: i32, dy: i32, s: Sensitivity, vp: Viewport) -> Vector2 {
    let (xn, xd) = delta_on_axis(space, dx, s, vp.width, vp);
    let (yn, yd) = delta_on_axis(space, dy, s, vp.height, vp);
    Vector2 {
        x: Ratio { num: xn as i128, den: xd as i128 },
        y: Ratio { num: yn as i128, den: yd as i128 },
    }
}

/// The zero vector, with unit denominators.
pub open spec fn zero_vector() -> Vector2 {
    Vector2 { x: Ratio { num: 0, den: 1 }, y: Ratio { num: 0, den: 1 } }
}

fn extent_of(e: u32) -> (r: i128)
    ensures
        r == effective_extent(e),
{
    if e == 0 {
        1
    } else {
        e as i128
    }
}

fn scale_den_of(space: CoordinateSpace, e: u32, vp: Viewport) -> (r: i128)
    ensures
        r == scale_den(space, e, vp),
        1 <= r <= u32::MAX,
{
    match space {
        CoordinateSpace::Window => 1,
        CoordinateSpace::Normalized => extent_of(e),
        CoordinateSpace::PreserveAspect => {
            let w = extent_of(vp.width);
            let h = extent_of(vp.height);
            if w >= h {
                w
            } else {
                h
            }
        },
    }
}

fn position_axis(space: CoordinateSpace, p: i32, e: u32, vp: Viewport) -> (r: Ratio)
    ensures
        is_fraction(r, position_on_axis(space, p, e, vp).0, position_on_axis(space, p, e, vp).1),
{
    match space {
        CoordinateSpace::Window => Ratio { num: p as i128, den: 1 },
        _ => Ratio { num: 2 * (p as i128) - extent_of(e), den: scale_den_of(space, e, vp) },
    }
}

fn delta_axis(space: CoordinateSpace, d: i32, s: Sensitivity, e: u32, vp: Viewport) -> (r: Ratio)
    ensures
        is_fraction(r, delta_on_axis(space, d, s, e, vp).0, delta_on_axis(space, d, s, e, vp).1),
{
    let k: i128 = match space {
        CoordinateSpace::Window => 1,
        _ => 2,
    };
    let den = scale_den_of(space, e, vp);
    let dd = d as i128;
    let sm = s.milli as i128;
    assert(-0x4000_0000_0000_0000 * 2 <= dd * sm <= 0x4000_0000_0000_0000) by (nonlinear_arith)
        requires
            -0x8000_0000 <= dd <= 0x8000_0000,
            -0x8000_0000 <= sm <= 0x8000_0000,
    ;
    Ratio { num: dd * sm * k, den: (SENSITIVITY_UNIT as i128) * den }
}

/// Maps a raw absolute position into `space`.
pub fn transform_position(space: CoordinateSpace, x: i32, y: i32, vp: Viewport) -> (r: Vector2)
    ensures
        r == position_spec(space, x, y, vp),
{
    Vector2 {
        x: position_axis(space, x, vp.width, vp),
        y: position_axis(space, y, vp.height, vp),
    }
}

/// Maps a raw mouse delta, scaled by `s`, into `space`.
pub fn transform_delta(space: CoordinateSpace, dx: i32, dy: i32, s: Sensitivity, vp: Viewport) -> (r: Vector2)
    ensures
        r == delta_spec(space, dx, dy, s, vp),
{
    Vector2 {
        x: delta_axis(space, dx, s, vp.width, vp),
        y: delta_axis(space, dy, s, vp.height, vp),
    }
}

/// The zero vector.
pub fn zero() -> (r: Vector2)
    ensures
        r == zero_vector(),
{
    Vector2 { x: Ratio { num: 0, den: 1 }, y: Ratio { num: 0, den: 1 } }
}

} // verus!
