//! Coordinate mapping: two pure transforms from grid space into pixel space,
//! parameterized by the window and arena dimensions. Results are kept as
//! exact fractions, so every contract pins the value with no rounding.

use vstd::prelude::*;

use crate::grid::Position;

verus! {

/// Thousandths in one grid cell: logical sizes are stored in this unit.
pub const SIZE_MILLI_DEN: u64 = 1000;

/// Logical sprite extent, per axis, in thousandths of one grid cell;
/// immutable after creation, read only by the coordinate mapper.
#[derive(Clone, Copy, PartialEq, Eq, Structural, Debug)]
pub struct Size {
    pub width: u64,
    pub height: u64,
}

impl Size {
    /// A square sprite: both axes `x` thousandths of one grid cell.
    pub fn square(x: u64) -> (s: Size)
        ensures
            s.width == x,
            s.height == x,
    {
        Size { width: x, height: x }
    }
}

/// An exact pixel quantity, kept as the fraction `num / den` with `den > 0`.
#[derive(Clone, Copy, PartialEq, Eq, Structural, Debug)]
pub struct Pixel {
    pub num: i128,
    pub den: i128,
}

impl Pixel {
    /// The denominator is positive, so the fraction denotes a value.
    pub open spec fn well_formed(self) -> bool {
        self.den > 0
    }
}

/// Numerator of the pixel extent of a logical size on one axis:
/// `size / arena * window`, with the size in thousandths of a cell, over the
/// denominator `SIZE_MILLI_DEN * arena`.
pub open spec fn scaling_num(size_milli: int, window: int) -> int {
    size_milli * window
}

/// Denominator of the pixel extent of a logical size on one axis.
pub open spec fn scaling_den(arena: int) -> int {
    SIZE_MILLI_DEN * arena
}

/// Numerator of the centered pixel translation of a grid coordinate on one
/// axis. The transform is `pos / arena * window - window / 2 + tile / 2`
/// with `tile == window / arena`; over the common denominator `2 * arena`
/// its numerator is `window * (2 * pos + 1 - arena)`.
pub open spec fn translation_num(pos: int, window: int, arena: int) -> int {
    window * (2 * pos + 1 - arena)
}

/// Denominator of the centered pixel translation on one axis.
pub open spec fn translation_den(arena: int) -> int {
    2 * arena
}

/// Pixel extent of a logical size on one axis: `size / arena * window`.
pub fn scale_axis(size_milli: u64, arena_dim: u32, window_dim: u32) -> (r: Pixel)
    requires
        0 < arena_dim,
        0 < window_dim,
    ensures
        r.num == scaling_num(size_milli as int, window_dim as int),
        r.den == scaling_den(arena_dim as int),
        r.well_formed(),
{
    proof {
        assert(size_milli * window_dim <= u64::MAX * u32::MAX && SIZE_MILLI_DEN * arena_dim
            <= 1000 * u32::MAX) by (nonlinear_arith)
            requires
                size_milli <= u64::MAX && window_dim <= u32::MAX && arena_dim <= u32::MAX,
        ;
        assert(0 < SIZE_MILLI_DEN * arena_dim) by (nonlinear_arith)
            requires
                0 < arena_dim,
        ;
    }
    Pixel {
        num: size_milli as i128 * window_dim as i128,
        den: SIZE_MILLI_DEN as i128 * arena_dim as i128,
    }
}

/// Pixel scale of a sprite: its logical size divided by the arena dimension
/// and multiplied by the window dimension, applied per axis.
pub fn size_scaling(
    size: &Size,
    arena_width: u32,
    arena_height: u32,
    window_width: u32,
    window_height: u32,
) -> (scale: (Pixel, Pixel))
    requires
        0 < arena_width,
        0 < arena_height,
        0 < window_width,
        0 < window_height,
    ensures
        scale.0.num == scaling_num(size.width as int, window_width as int),
        scale.0.den == scaling_den(arena_width as int),
        scale.1.num == scaling_num(size.height as int, window_height as int),
        scale.1.den == scaling_den(arena_height as int),
        scale.0.well_formed(),
        scale.1.well_formed(),
{
    (
        scale_axis(size.width, arena_width, window_width),
        scale_axis(size.height, arena_height, window_height),
    )
}

/// Centered pixel translation of one grid coordinate:
/// `pos / arena * window - window / 2 + (window / arena) / 2`.
pub fn convert(pos: i32, window_dim: u32, arena_dim: u32) -> (r: Pixel)
    requires
        0 < arena_dim,
        0 < window_dim,
    ensures
        r.num == translation_num(pos as int, window_dim as int, arena_dim as int),
        r.den == translation_den(arena_dim as int),
        r.well_formed(),
{
    proof {
        let m = 2 * (pos as int) + 1 - (arena_dim as int);
        assert(-0x10_0000_0000 <= m <= 0x10_0000_0000);
        assert(-(i128::MAX as int) <= window_dim * m <= i128::MAX as int) by (nonlinear_arith)
            requires
                0 <= window_dim <= 0x1_0000_0000 && -0x10_0000_0000 <= m <= 0x10_0000_0000,
        ;
    }
    Pixel {
        num: window_dim as i128 * (2 * pos as i128 + 1 - arena_dim as i128),
        den: 2 * arena_dim as i128,
    }
}

/// Centered pixel translation of a grid position: the transform applied to
/// the x axis with the window and arena widths, and to the y axis with the
/// window and arena heights.
pub fn position_translation(
    pos: &Position,
    arena_width: u32,
    arena_height: u32,
    window_width: u32,
    window_height: u32,
) -> (t: (Pixel, Pixel))
    requires
        0 < arena_width,
        0 < arena_height,
        0 < window_width,
        0 < window_height,
    ensures
        t.0.num == translation_num(pos.x as int, window_width as int, arena_width as int),
        t.0.den == translation_den(arena_width as int),
        t.1.num == translation_num(pos.y as int, window_height as int, arena_height as int),
        t.1.den == translation_den(arena_height as int),
        t.0.well_formed(),
        t.1.well_formed(),
{
    (convert(pos.x, window_width, arena_width), convert(pos.y, window_height, arena_height))
}

/// The translation is centering: for the exact grid center `pos == arena / 2`
/// of an even arena dimension, the translated pixel is exactly half a tile,
/// `window / (2 * arena)` — within half a tile of the surface origin.
pub proof fn lemma_translation_centering(window: int, arena: int)
    requires
        0 < window,
        0 < arena,
        arena % 2 == 0,
    ensures
        translation_num(arena / 2, window, arena) == window,
        translation_num(arena / 2, window, arena) * (2 * arena) == window * translation_den(
            arena,
        ),
{
    vstd::arithmetic::div_mod::lemma_fundamental_div_mod(arena, 2);
    assert(2 * (arena / 2) + 1 - arena == 1);
    assert(window * 1 == window) by (nonlinear_arith);
}

} // verus!
