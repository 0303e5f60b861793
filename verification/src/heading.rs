//! The four headings a snake head can travel in, and the reversal relation.

use vstd::prelude::*;

verus! {

/// The direction the snake head is travelling in.
#[derive(Clone, Copy, PartialEq, Eq, Structural, Debug)]
pub enum Direction {
    Left,
    Up,
    Right,
    Down,
}

impl Direction {
    /// The heading pointing the opposite way: Left and Right swap,
    /// Up and Down swap.
    pub open spec fn opposite_spec(self) -> Direction {
        match self {
            Direction::Left => Direction::Right,
            Direction::Right => Direction::Left,
            Direction::Up => Direction::Down,
            Direction::Down => Direction::Up,
        }
    }

    /// The heading pointing the opposite way.
    pub fn opposite(self) -> (r: Direction)
        ensures
            r == self.opposite_spec(),
    {
        match self {
            Direction::Left => Direction::Right,
            Direction::Right => Direction::Left,
            Direction::Up => Direction::Down,
            Direction::Down => Direction::Up,
        }
    }
}

/// Reversal is an involution: taking the opposite heading twice gives back
/// the original heading.
pub proof fn lemma_opposite_involution(h: Direction)
    ensures
        h.opposite_spec().opposite_spec() == h,
{
}

} // verus!
