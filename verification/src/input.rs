//! The input resolver: from the keys that are held to the head's facing.

use crate::grid::Direction;
use core::ops::Neg;
use vstd::prelude::*;

verus! {

/// Which of the four direction keys are held at one sampling.
#[derive(Clone, Copy, Debug, PartialEq, Eq, Structural)]
pub struct PressedKeys {
    pub left: bool,
    pub down: bool,
    pub up: bool,
    pub right: bool,
}

impl PressedKeys {
    /// The one heading that is honoured: the keys are looked at in the order
    /// left, down, up, right, and the first that is held wins.
    pub open spec fn requested_spec(self) -> Option<Direction> {
        if self.left {
            Some(Direction::Left)
        } else if self.down {
            Some(Direction::Down)
        } else if self.up {
            Some(Direction::Up)
        } else if self.right {
            Some(Direction::Right)
        } else {
            None
        }
    }

    pub fn requested(&self) -> (request: Option<Direction>)
        ensures
            request == self.requested_spec(),
    {
        if self.left {
            Some(Direction::Left)
        } else if self.down {
            Some(Direction::Down)
        } else if self.up {
            Some(Direction::Up)
        } else if self.right {
            Some(Direction::Right)
        } else {
            None
        }
    }

    /// No key held.
    pub fn none() -> (keys: PressedKeys)
        ensures
            keys == (PressedKeys { left: false, down: false, up: false, right: false }),
            keys.requested_spec() is None,
    {
        PressedKeys { left: false, down: false, up: false, right: false }
    }

    /// Exactly the key of the given heading held.
    pub fn only(direction: Direction) -> (keys: PressedKeys)
        ensures
            keys.requested_spec() == Some(direction),
            keys.left == (direction == Direction::Left),
            keys.down == (direction == Direction::Down),
            keys.up == (direction == Direction::Up),
            keys.right == (direction == Direction::Right),
    {
        PressedKeys {
            left: direction == Direction::Left,
            down: direction == Direction::Down,
            up: direction == Direction::Up,
            right: direction == Direction::Right,
        }
    }
}

/// The facing after a request: a request for the exact opposite of the
/// current facing is dropped, as is the absence of one.
pub open spec fn resolved(facing: Direction, request: Option<Direction>) -> Direction {
    match request {
        Some(direction) if direction != facing.opposite() => direction,
        _ => facing,
    }
}

/// What the head segment owns beside its position.
#[derive(Clone, Copy, Debug, PartialEq, Eq, Structural)]
pub struct SnakeHead {
    pub direction: Direction,
}

impl SnakeHead {
    /// A head that faces up.
    pub fn new() -> (head: SnakeHead)
        ensures
            head.direction == Direction::Up,
    {
        SnakeHead { direction: Direction::Up }
    }
}

/// Turns the head as the held keys ask, unless they ask for a reversal.
pub fn snake_movement_input(keys: PressedKeys, head: &mut SnakeHead)
    ensures
        final(head).direction == resolved(old(head).direction, keys.requested_spec()),
{
    let dir: Direction = match keys.requested() {
        Some(direction) => direction,
        None => head.direction,
    };
    if dir != head.direction.neg() {
        head.direction = dir;
    }
}

} // verus!
