//! The toroidal arena: positions on a fixed-size grid and the wrap-around
//! step that moves a position one cell along a heading.

use vstd::prelude::*;

use crate::heading::Direction;

verus! {

/// Width of the arena, in grid cells.
pub const ARENA_WIDTH: u32 = 10;

/// Height of the arena, in grid cells.
pub const ARENA_HEIGHT: u32 = 10;

/// A cell of the arena. A position held by the simulation always satisfies
/// `in_bounds`: every mutation wraps, none rejects.
#[derive(Clone, Copy, PartialEq, Eq, Structural, Debug)]
pub struct Position {
    pub x: i32,
    pub y: i32,
}

/// The position lies inside the arena: `0 <= x < width` and `0 <= y < height`.
pub open spec fn in_bounds(p: Position, width: u32, height: u32) -> bool {
    0 <= p.x < width && 0 <= p.y < height
}

/// One step along `heading`: a unit delta on the matching axis (Left: x-1,
/// Right: x+1, Up: y+1, Down: y-1), wrapped back into the arena by a single
/// correction, each axis on its own.
pub open spec fn step_spec(p: Position, heading: Direction, width: u32, height: u32) -> Position {
    match heading {
        Direction::Left => Position {
            x: (if p.x - 1 < 0 { p.x - 1 + width } else { p.x - 1 }) as i32,
            y: p.y,
        },
        Direction::Right => Position {
            x: (if p.x + 1 >= width { p.x + 1 - width } else { p.x + 1 }) as i32,
            y: p.y,
        },
        Direction::Down => Position {
            x: p.x,
            y: (if p.y - 1 < 0 { p.y - 1 + height } else { p.y - 1 }) as i32,
        },
        Direction::Up => Position {
            x: p.x,
            y: (if p.y + 1 >= height { p.y + 1 - height } else { p.y + 1 }) as i32,
        },
    }
}

/// Advance a position one cell along `heading`, wrapping around the arena
/// edges. The result always lies back inside the arena: the step never
/// produces a coordinate outside `[0, width) x [0, height)`.
pub fn step(p: Position, heading: Direction, width: u32, height: u32) -> (r: Position)
    requires
        0 < width <= i32::MAX,
        0 < height <= i32::MAX,
        in_bounds(p, width, height),
    ensures
        r == step_spec(p, heading, width, height),
        in_bounds(r, width, height),
{
    let mut r = p;
    match heading {
        Direction::Left => {
            r.x = r.x - 1;
            if r.x < 0 {
                r.x = r.x + width as i32;
            }
        }
        Direction::Right => {
            r.x = r.x + 1;
            if r.x >= width as i32 {
                r.x = r.x - width as i32;
            }
        }
        Direction::Down => {
            r.y = r.y - 1;
            if r.y < 0 {
                r.y = r.y + height as i32;
            }
        }
        Direction::Up => {
            r.y = r.y + 1;
            if r.y >= height as i32 {
                r.y = r.y - height as i32;
            }
        }
    }
    r
}

} // verus!
