//! The snake head: its components at spawn time and its fixed-cadence
//! movement tick.

use vstd::prelude::*;

use crate::grid::{in_bounds, step, step_spec, Position};
use crate::heading::Direction;
use crate::mapper::Size;

verus! {

/// Logical size of the snake head sprite, in thousandths of one grid cell.
pub const SNAKE_HEAD_SIZE_MILLI: u64 = 800;

/// The controllable entity: it owns the heading it is travelling in.
#[derive(Clone, Copy, PartialEq, Eq, Structural, Debug)]
pub struct SnakeHead {
    pub direction: Direction,
}

/// The snake head's components at spawn time: heading Up, position (3, 3),
/// a square sprite of 0.8 grid cells.
pub fn spawn_snake() -> (s: (SnakeHead, Position, Size))
    ensures
        s.0.direction == Direction::Up,
        s.1 == (Position { x: 3, y: 3 }),
        s.2.width == SNAKE_HEAD_SIZE_MILLI,
        s.2.height == SNAKE_HEAD_SIZE_MILLI,
{
    (
        SnakeHead { direction: Direction::Up },
        Position { x: 3, y: 3 },
        Size::square(SNAKE_HEAD_SIZE_MILLI),
    )
}

/// One movement tick: advance the head's position one cell along its current
/// heading, wrapping around the arena edges. The new position always lies
/// back inside the arena.
pub fn snake_movement(pos: &mut Position, head: &SnakeHead, width: u32, height: u32)
    requires
        0 < width <= i32::MAX,
        0 < height <= i32::MAX,
        in_bounds(*old(pos), width, height),
    ensures
        *final(pos) == step_spec(*old(pos), head.direction, width, height),
        in_bounds(*final(pos), width, height),
{
    *pos = step(*pos, head.direction, width, height);
}

} // verus!
