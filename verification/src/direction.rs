//! The four compass directions and their cyclic order.

use vstd::prelude::*;

verus! {

/// A compass direction. Clockwise, the directions follow one another as
/// North, East, South, West and then North again.
#[derive(Debug, Clone, Copy, PartialEq, Eq, Structural)]
pub enum Direction {
    North,
    East,
    South,
    West,
}

impl Direction {
    /// The place of a direction in the clockwise cycle, counted from North.
    pub open spec fn index(self) -> int {
        match self {
            Direction::North => 0,
            Direction::East => 1,
            Direction::South => 2,
            Direction::West => 3,
        }
    }

    /// The direction at place `i` of the clockwise cycle, for any integer `i`.
    pub open spec fn at(i: int) -> Direction {
        let k = i % 4;
        if k == 0 {
            Direction::North
        } else if k == 1 {
            Direction::East
        } else if k == 2 {
            Direction::South
        } else {
            Direction::West
        }
    }

    /// The direction a quarter turn clockwise from this one.
    pub open spec fn right(self) -> Direction {
        Direction::at(self.index() + 1)
    }

    /// The direction a quarter turn counterclockwise from this one.
    pub open spec fn left(self) -> Direction {
        Direction::at(self.index() - 1)
    }

    /// The change of the x coordinate in one step in this direction.
    pub open spec fn dx(self) -> int {
        match self {
            Direction::East => 1,
            Direction::West => -1,
            _ => 0,
        }
    }

    /// The change of the y coordinate in one step in this direction.
    pub open spec fn dy(self) -> int {
        match self {
            Direction::North => 1,
            Direction::South => -1,
            _ => 0,
        }
    }

    /// The direction a quarter turn clockwise from this one.
    pub fn turned_right(self) -> (d: Direction)
        ensures
            d == self.right(),
    {
        match self {
            Direction::North => Direction::East,
            Direction::East => Direction::South,
            Direction::South => Direction::West,
            Direction::West => Direction::North,
        }
    }

    /// The direction a quarter turn counterclockwise from this one.
    pub fn turned_left(self) -> (d: Direction)
        ensures
            d == self.left(),
    {
        match self {
            Direction::North => Direction::West,
            Direction::East => Direction::North,
            Direction::South => Direction::East,
            Direction::West => Direction::South,
        }
    }
}

/// Four quarter turns clockwise bring a direction back to itself.
pub proof fn lemma_four_rights(d: Direction)
    ensures
        d.right().right().right().right() == d,
{
}

/// Four quarter turns counterclockwise bring a direction back to itself.
pub proof fn lemma_four_lefts(d: Direction)
    ensures
        d.left().left().left().left() == d,
{
}

/// A quarter turn one way undoes a quarter turn the other way.
pub proof fn lemma_right_left(d: Direction)
    ensures
        d.right().left() == d,
        d.left().right() == d,
{
}

} // verus!
