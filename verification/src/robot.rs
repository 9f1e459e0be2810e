//! The robot itself.

use crate::direction::Direction;
use crate::error::RobotError;
use crate::model::RobotView;
use crate::script::{is_instruction, outcome, run, step, stop, turns};
use crate::script::{lemma_run_clock, lemma_run_keeps, lemma_stop};
use near_sdk::AccountId;
use vstd::prelude::*;

verus! {

/// A robot on the grid. It remembers who created it and when it last turned.
#[derive(Debug, PartialEq, Eq)]
pub struct Robot {
    x: i64,
    y: i64,
    move_at: u64,
    owner_id: AccountId,
    direction: Direction,
}

impl View for Robot {
    type V = RobotView;

    closed spec fn view(&self) -> RobotView {
        RobotView {
            x: self.x as int,
            y: self.y as int,
            direction: self.direction,
            last_move: self.move_at as nat,
            owner: self.owner_id,
        }
    }
}

/// A state that agrees with the end of a run in all but the time of the last
/// turn, and in that too where the run makes no turn, is the end of the run
/// whose turns are made at the time the state holds.
proof fn lemma_run_settled(start: RobotView, script: Seq<char>, end: RobotView)
    requires
        end.same_course(run(start, script, 0)),
        turns(script) || end.last_move == start.last_move,
    ensures
        end == run(start, script, end.last_move),
{
    lemma_run_clock(start, start, script, 0, end.last_move);
    lemma_run_keeps(start, script, end.last_move);
}

/// The coordinates and the time in the state of a robot fit their 64-bit
/// ranges.
pub proof fn lemma_view_in_range(robot: Robot)
    ensures
        robot@.in_range(),
{
}

impl Robot {
    /// A robot at `(x, y)` facing `direction`, owned by the account that
    /// makes the current call and last turned at the current block's time.
    /// Owner and time are what the host answers; [`Robot::from_parts`] takes
    /// them as arguments.
    pub fn new(x: i64, y: i64, direction: Direction) -> (robot: Robot)
        ensures
            robot@.x == x,
            robot@.y == y,
            robot@.direction == direction,
    {
        let now: u64 = near_sdk::env::block_timestamp();
        let caller: AccountId = near_sdk::env::predecessor_account_id();
        Robot::from_parts(x, y, direction, now, caller)
    }

    /// A robot at `(x, y)` facing `direction`, owned by `owner_id` and last
    /// turned at `move_at`.
    pub fn from_parts(
        x: i64,
        y: i64,
        direction: Direction,
        move_at: u64,
        owner_id: AccountId,
    ) -> (robot: Robot)
        ensures
            robot@ == (RobotView {
                x: x as int,
                y: y as int,
                direction,
                last_move: move_at as nat,
                owner: owner_id,
            }),
    {
        Robot { x, y, move_at, owner_id, direction }
    }

    /// Turns a quarter turn clockwise, at the current block's time: the
    /// state is that of a turn made at the time the robot holds afterwards.
    pub fn turn_right(&mut self)
        ensures
            final(self)@ == old(self)@.turn_right(final(self)@.last_move),
    {
        let now: u64 = near_sdk::env::block_timestamp();
        self.turn_right_at(now);
    }

    /// Turns a quarter turn counterclockwise, at the current block's time:
    /// the state is that of a turn made at the time the robot holds
    /// afterwards.
    pub fn turn_left(&mut self)
        ensures
            final(self)@ == old(self)@.turn_left(final(self)@.last_move),
    {
        let now: u64 = near_sdk::env::block_timestamp();
        self.turn_left_at(now);
    }

    /// Turns a quarter turn clockwise, at time `now`.
    pub fn turn_right_at(&mut self, now: u64)
        ensures
            final(self)@ == old(self)@.turn_right(now as nat),
    {
        let direction = self.direction.turned_right();
        self.set_direction(direction, now);
    }

    /// Turns a quarter turn counterclockwise, at time `now`.
    pub fn turn_left_at(&mut self, now: u64)
        ensures
            final(self)@ == old(self)@.turn_left(now as nat),
    {
        let direction = self.direction.turned_left();
        self.set_direction(direction, now);
    }

    /// Moves one cell in the direction faced. A coordinate at the end of the
    /// signed 64-bit range wraps around to the other end.
    pub fn advance(&mut self)
        ensures
            final(self)@ == old(self)@.advance(),
    {
        match self.direction {
            Direction::North => self.y = self.y.wrapping_add(1),
            Direction::East => self.x = self.x.wrapping_add(1),
            Direction::South => self.y = self.y.wrapping_sub(1),
            Direction::West => self.x = self.x.wrapping_sub(1),
        }
    }

    /// Runs `instructions` from left to right: `R` turns right, `L` turns
    /// left, `A` advances. Every turn is made at the current block's time,
    /// which is asked for anew at each turn. The run ends at the first
    /// character that is none of the three and answers with that character;
    /// what was done before it stays done.
    ///
    /// Only the time of the last turn made stays in the state, so the state
    /// is that of a run whose turns were all made at the time the robot holds
    /// afterwards. A run that makes no turn leaves that time as it was.
    pub fn instructions(&mut self, instructions: String) -> (done: Result<(), RobotError>)
        ensures
            final(self)@ == run(old(self)@, instructions@, final(self)@.last_move),
            done == outcome(instructions@),
            done is Ok <==> forall|i: int|
                0 <= i < instructions@.len() ==> is_instruction(#[trigger] instructions@[i]),
    {
        let ghost script = instructions@;
        let ghost start = self@;
        proof {
            lemma_stop(script);
        }
        let ghost mut turned = false;
        assert(script.skip(0) =~= script);
        for c in it: instructions.as_str().chars()
            invariant
                script == instructions@,
                start == old(self)@,
                it.seq() == script,
                stop(script) == it.index() + stop(script.skip(it.index())),
                run(self@, script.skip(it.index()), 0).same_course(run(start, script, 0)),
                turns(script) == (turned || turns(script.skip(it.index()))),
                turned || self@.last_move == start.last_move,
        {
            let ghost rest = script.skip(it.index());
            let ghost before = self@;
            assert(rest[0] == c);
            assert(rest.drop_first() =~= script.skip(it.index() + 1));
            match c {
                'R' => self.turn_right(),
                'L' => self.turn_left(),
                'A' => self.advance(),
                _ => {
                    proof {
                        lemma_run_settled(start, script, self@);
                    }
                    return Err(RobotError::InvalidInstruction(c));
                },
            }
            proof {
                turned = turned || c != 'A';
                lemma_run_clock(step(before, c, 0), self@, rest.drop_first(), 0, 0);
            }
        }
        proof {
            lemma_run_settled(start, script, self@);
        }
        Ok(())
    }

    /// Runs `instructions` from left to right: `R` turns right, `L` turns
    /// left, `A` advances. Every turn is made at time `now`. The run ends at
    /// the first character that is none of the three and answers with that
    /// character; what was done before it stays done.
    pub fn instructions_at(&mut self, instructions: &str, now: u64) -> (done: Result<
        (),
        RobotError,
    >)
        ensures
            final(self)@ == run(old(self)@, instructions@, now as nat),
            done == outcome(instructions@),
            done is Ok <==> forall|i: int|
                0 <= i < instructions@.len() ==> is_instruction(#[trigger] instructions@[i]),
    {
        let ghost script = instructions@;
        proof {
            lemma_stop(script);
        }
        assert(script.skip(0) =~= script);
        for c in it: instructions.chars()
            invariant
                script == instructions@,
                it.seq() == script,
                stop(script) == it.index() + stop(script.skip(it.index())),
                run(old(self)@, script, now as nat) == run(
                    self@,
                    script.skip(it.index()),
                    now as nat,
                ),
        {
            let ghost rest = script.skip(it.index());
            assert(rest[0] == c);
            assert(rest.drop_first() =~= script.skip(it.index() + 1));
            match c {
                'R' => self.turn_right_at(now),
                'L' => self.turn_left_at(now),
                'A' => self.advance(),
                _ => {
                    return Err(RobotError::InvalidInstruction(c));
                },
            }
        }
        Ok(())
    }

    /// The position, x first.
    pub fn position(&self) -> (at: (i64, i64))
        ensures
            at.0 == self@.x,
            at.1 == self@.y,
    {
        (self.x, self.y)
    }

    /// The direction faced.
    pub fn direction(&self) -> (facing: &Direction)
        ensures
            *facing == self@.direction,
    {
        &self.direction
    }

    /// The time of the last turn, or of the creation where the robot has not
    /// turned since.
    pub fn last_move(&self) -> (at: u64)
        ensures
            at == self@.last_move,
    {
        self.move_at
    }

    /// The account that created the robot.
    pub fn get_owner(&self) -> (owner: AccountId)
        ensures
            owner == self@.owner,
    {
        self.owner_id.clone()
    }

    /// Puts the robot back at the origin, facing North.
    pub fn reset(&mut self)
        ensures
            final(self)@ == old(self)@.reset(),
    {
        self.x = 0;
        self.y = 0;
        self.direction = Direction::North;
    }

    /// Faces `direction`, as of time `now`.
    fn set_direction(&mut self, direction: Direction, now: u64)
        ensures
            final(self)@ == (RobotView {
                direction,
                last_move: now as nat,
                ..old(self)@
            }),
    {
        self.direction = direction;
        self.move_at = now;
    }
}

} // verus!
