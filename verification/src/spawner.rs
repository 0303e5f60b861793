//! Timed food spawning: on each spawn tick, two independent uniform random
//! samples are scaled by the arena dimensions and truncated toward zero to
//! pick a grid cell for a new food marker.

use vstd::prelude::*;

use crate::grid::{in_bounds, Position};
use crate::mapper::Size;

verus! {

/// Logical size of a food sprite, in thousandths of one grid cell.
pub const FOOD_SIZE_MILLI: u64 = 600;

/// Denominator of a raw random sample: a draw of 32 random bits `b` stands
/// for the uniform sample `b / 2^32` in `[0, 1)`.
pub const SAMPLE_DEN: u64 = 4294967296;

/// Marker for a food entity; created by the spawner, never mutated or
/// removed by this core.
#[derive(Clone, Copy, PartialEq, Eq, Structural, Debug)]
pub struct Food;

/// Relies on rand::random: draws a value from the thread-local generator's
/// uniform distribution. Nothing is assumed of the outcome.
pub assume_specification<T>[ rand::random::<T> ]() -> (r: T)
    where
        rand::distributions::Standard: rand::distributions::Distribution<T>,
;

/// Scale a uniform sample, given as the fraction `num / den` in `[0, 1)`, by
/// the arena dimension and truncate toward zero: the cell index
/// `floor(num * dim / den)`, always inside `[0, dim)`.
pub fn sample_to_cell(num: u64, den: u64, dim: u32) -> (c: i32)
    requires
        0 < den,
        num < den,
        0 < dim <= i32::MAX,
    ensures
        c == num * dim / den as int,
        0 <= c < dim,
{
    proof {
        assert(0 <= num * dim && num * dim < den * dim && num * dim <= u64::MAX * u32::MAX)
            by (nonlinear_arith)
            requires
                0 <= num < den && 0 < dim && num <= u64::MAX && dim <= u32::MAX,
        ;
        vstd::arithmetic::div_mod::lemma_multiply_divide_lt(
            num * dim as int,
            den as int,
            dim as int,
        );
        vstd::arithmetic::div_mod::lemma_div_pos_is_pos(num * dim as int, den as int);
    }
    (num as u128 * dim as u128 / den as u128) as i32
}

/// The grid cell two uniform samples pick: each sample, given as a fraction
/// over the common denominator `den`, scaled by its axis dimension and
/// truncated toward zero. The cell always lies inside the arena.
pub fn food_position(rx_num: u64, ry_num: u64, den: u64, width: u32, height: u32) -> (p: Position)
    requires
        0 < den,
        rx_num < den,
        ry_num < den,
        0 < width <= i32::MAX,
        0 < height <= i32::MAX,
    ensures
        p.x == rx_num * width / den as int,
        p.y == ry_num * height / den as int,
        in_bounds(p, width, height),
{
    Position { x: sample_to_cell(rx_num, den, width), y: sample_to_cell(ry_num, den, height) }
}

/// One spawn tick: draw two independent uniform random samples, scale them by
/// the arena dimensions, and hand back the components of a new food entity —
/// a marker, a cell that always lies inside the arena, and a square sprite of
/// 0.6 grid cells. Which cell comes out depends on the random draw; the
/// deterministic scaling is `food_position`.
pub fn food_spawner(width: u32, height: u32) -> (f: (Food, Position, Size))
    requires
        0 < width <= i32::MAX,
        0 < height <= i32::MAX,
    ensures
        in_bounds(f.1, width, height),
        f.2.width == FOOD_SIZE_MILLI,
        f.2.height == FOOD_SIZE_MILLI,
{
    let rx: u32 = rand::random::<u32>();
    let ry: u32 = rand::random::<u32>();
    let pos = food_position(rx as u64, ry as u64, SAMPLE_DEN, width, height);
    (Food, pos, Size::square(FOOD_SIZE_MILLI))
}

} // verus!
