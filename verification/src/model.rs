//! The robot as a mathematical value, and what each operation makes of it.

use crate::direction::Direction;
use near_sdk::AccountId;
use vstd::prelude::*;

verus! {

/// The one integer in the signed 64-bit range that differs from `v` by a
/// multiple of 2^64. Coordinates are kept in that range: a step past either
/// end of it comes back in at the other end.
pub open spec fn wrap(v: int) -> int {
    (v + 0x8000_0000_0000_0000) % 0x1_0000_0000_0000_0000 - 0x8000_0000_0000_0000
}

/// The state of a robot: where it stands, where it faces, when it last
/// turned, and who created it.
pub struct RobotView {
    pub x: int,
    pub y: int,
    pub direction: Direction,
    pub last_move: nat,
    pub owner: AccountId,
}

impl RobotView {
    /// Both coordinates fit the signed 64-bit range and the time of the last
    /// turn fits the unsigned one. It holds of the state of every robot.
    pub open spec fn in_range(self) -> bool {
        &&& i64::MIN <= self.x <= i64::MAX
        &&& i64::MIN <= self.y <= i64::MAX
        &&& self.last_move <= u64::MAX
    }

    /// The two states differ at most in the time of the last turn.
    pub open spec fn same_course(self, other: RobotView) -> bool {
        self == (RobotView { last_move: self.last_move, ..other })
    }

    /// The coordinate along which the robot faces is at the end of the
    /// signed 64-bit range towards which it faces, so that a step wraps
    /// around.
    pub open spec fn at_edge(self) -> bool {
        match self.direction {
            Direction::North => self.y == i64::MAX,
            Direction::East => self.x == i64::MAX,
            Direction::South => self.y == i64::MIN,
            Direction::West => self.x == i64::MIN,
        }
    }

    /// The state after a quarter turn clockwise at time `now`.
    pub open spec fn turn_right(self, now: nat) -> RobotView {
        RobotView { direction: self.direction.right(), last_move: now, ..self }
    }

    /// The state after a quarter turn counterclockwise at time `now`.
    pub open spec fn turn_left(self, now: nat) -> RobotView {
        RobotView { direction: self.direction.left(), last_move: now, ..self }
    }

    /// The state after one step in the direction faced.
    pub open spec fn advance(self) -> RobotView {
        RobotView {
            x: wrap(self.x + self.direction.dx()),
            y: wrap(self.y + self.direction.dy()),
            ..self
        }
    }

    /// The state after a reset: at the origin, facing North.
    pub open spec fn reset(self) -> RobotView {
        RobotView { x: 0, y: 0, direction: Direction::North, ..self }
    }
}

/// Four quarter turns the same way bring the robot back to the direction it
/// faced, whatever the four times are, and leave its position and its owner
/// as they were.
pub proof fn lemma_full_turn(v: RobotView, t1: nat, t2: nat, t3: nat, t4: nat)
    ensures
        v.turn_right(t1).turn_right(t2).turn_right(t3).turn_right(t4) == (RobotView {
            last_move: t4,
            ..v
        }),
        v.turn_left(t1).turn_left(t2).turn_left(t3).turn_left(t4) == (RobotView {
            last_move: t4,
            ..v
        }),
{
}

/// A quarter turn one way followed by a quarter turn the other way brings the
/// robot back to the direction it faced, and leaves its position and its
/// owner as they were.
pub proof fn lemma_turn_back(v: RobotView, t1: nat, t2: nat)
    ensures
        v.turn_right(t1).turn_left(t2) == (RobotView { last_move: t2, ..v }),
        v.turn_left(t1).turn_right(t2) == (RobotView { last_move: t2, ..v }),
{
}

/// Away from the edge of the range, a step changes one coordinate by one and
/// leaves the other alone: North adds one to y, South takes one from it, East
/// adds one to x, West takes one from it.
pub proof fn lemma_advance_one_step(v: RobotView)
    requires
        v.in_range(),
        !v.at_edge(),
    ensures
        v.advance().in_range(),
        v.direction == Direction::North ==> v.advance().x == v.x && v.advance().y == v.y + 1,
        v.direction == Direction::South ==> v.advance().x == v.x && v.advance().y == v.y - 1,
        v.direction == Direction::East ==> v.advance().x == v.x + 1 && v.advance().y == v.y,
        v.direction == Direction::West ==> v.advance().x == v.x - 1 && v.advance().y == v.y,
{
}

/// At the edge of the range a step wraps around to the other end: the
/// coordinate faced moves from the largest value to the smallest, or back.
pub proof fn lemma_advance_wraps(v: RobotView)
    requires
        v.in_range(),
        v.at_edge(),
    ensures
        v.advance().in_range(),
        v.direction == Direction::North ==> v.advance().x == v.x && v.advance().y == i64::MIN,
        v.direction == Direction::South ==> v.advance().x == v.x && v.advance().y == i64::MAX,
        v.direction == Direction::East ==> v.advance().x == i64::MIN && v.advance().y == v.y,
        v.direction == Direction::West ==> v.advance().x == i64::MAX && v.advance().y == v.y,
{
}

/// No operation changes the owner.
pub proof fn lemma_owner_kept(v: RobotView, now: nat)
    ensures
        v.turn_right(now).owner == v.owner,
        v.turn_left(now).owner == v.owner,
        v.advance().owner == v.owner,
        v.reset().owner == v.owner,
{
}

/// Only a turn changes the time of the last turn: a step and a reset leave it
/// as it was, and a turn puts the time of the turn there.
pub proof fn lemma_last_move_kept(v: RobotView, now: nat)
    ensures
        v.advance().last_move == v.last_move,
        v.reset().last_move == v.last_move,
        v.turn_right(now).last_move == now,
        v.turn_left(now).last_move == now,
{
}

/// A reset ends at the origin facing North, wherever the robot stood and
/// whichever way it faced, and the owner stays who it was.
pub proof fn lemma_reset(v: RobotView)
    ensures
        v.reset().x == 0,
        v.reset().y == 0,
        v.reset().direction == Direction::North,
        v.reset().owner == v.owner,
{
}

} // verus!
