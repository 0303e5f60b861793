//! Input resolution: mapping the pressed directional keys and the current
//! heading to the next heading, rejecting direct reversal.

use vstd::prelude::*;

use crate::heading::Direction;
use crate::snake::SnakeHead;

verus! {

/// Pressed state of the four directional keys, read once per frame.
#[derive(Clone, Copy, PartialEq, Eq, Structural, Debug)]
pub struct KeyState {
    pub left: bool,
    pub down: bool,
    pub up: bool,
    pub right: bool,
}

/// The heading the pressed keys ask for, with precedence
/// Left > Down > Up > Right; `default` when no key is pressed.
pub open spec fn from_keyboard_or_spec(keys: KeyState, default: Direction) -> Direction {
    if keys.left {
        Direction::Left
    } else if keys.down {
        Direction::Down
    } else if keys.up {
        Direction::Up
    } else if keys.right {
        Direction::Right
    } else {
        default
    }
}

/// The heading a frame's input resolves to: the candidate the keys ask for,
/// unless it would reverse `current` directly, in which case `current` stands.
pub open spec fn resolve_spec(keys: KeyState, current: Direction) -> Direction {
    let candidate = from_keyboard_or_spec(keys, current);
    if candidate == current.opposite_spec() {
        current
    } else {
        candidate
    }
}

impl Direction {
    /// The heading the pressed keys ask for; `default` when none is pressed.
    /// When several keys are active at once, the first of
    /// Left, Down, Up, Right wins.
    pub fn from_keyboard_or(keys: KeyState, default: Direction) -> (r: Direction)
        ensures
            r == from_keyboard_or_spec(keys, default),
    {
        if keys.left {
            Direction::Left
        } else if keys.down {
            Direction::Down
        } else if keys.up {
            Direction::Up
        } else if keys.right {
            Direction::Right
        } else {
            default
        }
    }
}

/// Resolve one frame of input for the snake head: adopt the heading the keys
/// ask for unless it is the direct reversal of the current heading. The
/// resolver never turns the head to the opposite of its current heading, for
/// any combination of pressed keys.
pub fn snake_movement_input(keys: KeyState, head: &mut SnakeHead)
    ensures
        final(head).direction == resolve_spec(keys, old(head).direction),
        final(head).direction != old(head).direction.opposite_spec(),
{
    let dir = Direction::from_keyboard_or(keys, head.direction);
    if dir != head.direction.opposite() {
        head.direction = dir;
    }
}

/// For every key combination and current heading, the resolved heading is
/// never the direct reversal of the current one.
pub proof fn lemma_no_reversal(keys: KeyState, current: Direction)
    ensures
        resolve_spec(keys, current) != current.opposite_spec(),
{
}

} // verus!
