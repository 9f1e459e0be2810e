//! Scripts: strings of one-letter instructions, and what running one means.

use crate::error::RobotError;
use crate::model::RobotView;
use vstd::prelude::*;

verus! {

/// The letters a script may hold: `R` turns right, `L` turns left, `A`
/// advances.
pub open spec fn is_instruction(c: char) -> bool {
    c == 'R' || c == 'L' || c == 'A'
}

/// The state after the single instruction `c`, turns being made at time
/// `now`. Any other character leaves the state as it is.
pub open spec fn step(v: RobotView, c: char, now: nat) -> RobotView {
    if c == 'R' {
        v.turn_right(now)
    } else if c == 'L' {
        v.turn_left(now)
    } else if c == 'A' {
        v.advance()
    } else {
        v
    }
}

/// How many instructions a run of `script` carries out: the place of the
/// first character that is no instruction, or the length of the script where
/// every character is one.
pub open spec fn stop(script: Seq<char>) -> nat
    decreases script.len(),
{
    if script.len() == 0 || !is_instruction(script[0]) {
        0
    } else {
        1 + stop(script.drop_first())
    }
}

/// The character at which a run of `script` is given up, if there is one.
pub open spec fn rejected(script: Seq<char>) -> Option<char> {
    if stop(script) < script.len() {
        Some(script[stop(script) as int])
    } else {
        None
    }
}

/// What a run of `script` answers: the character it was given up at, or
/// nothing where it was carried out to its end.
pub open spec fn outcome(script: Seq<char>) -> Result<(), RobotError> {
    match rejected(script) {
        Some(c) => Err(RobotError::InvalidInstruction(c)),
        None => Ok(()),
    }
}

/// The state after a run of `script` from `v`, with every turn made at time
/// `now`: the instructions are carried out from left to right, and the run
/// ends at the first character that is no instruction. What was done before
/// that character stays done.
pub open spec fn run(v: RobotView, script: Seq<char>, now: nat) -> RobotView
    decreases script.len(),
{
    if script.len() == 0 || !is_instruction(script[0]) {
        v
    } else {
        run(step(v, script[0], now), script.drop_first(), now)
    }
}

/// A run of `script` makes at least one turn.
pub open spec fn turns(script: Seq<char>) -> bool
    decreases script.len(),
{
    if script.len() == 0 || !is_instruction(script[0]) {
        false
    } else {
        script[0] != 'A' || turns(script.drop_first())
    }
}

/// `stop` is the place of the first character that is no instruction: all
/// before it are instructions, and it is the length of the script or the
/// place of a character that is none.
pub proof fn lemma_stop(script: Seq<char>)
    ensures
        stop(script) <= script.len(),
        forall|i: int| 0 <= i < stop(script) ==> is_instruction(#[trigger] script[i]),
        stop(script) < script.len() ==> !is_instruction(script[stop(script) as int]),
        rejected(script) is None <==> forall|i: int|
            0 <= i < script.len() ==> is_instruction(#[trigger] script[i]),
    decreases script.len(),
{
    if script.len() == 0 || !is_instruction(script[0]) {
    } else {
        let rest = script.drop_first();
        lemma_stop(rest);
        assert forall|i: int| 0 <= i < stop(script) implies is_instruction(
            #[trigger] script[i],
        ) by {
            if i > 0 {
                assert(script[i] == rest[i - 1]);
            }
        }
        if rejected(rest) is None {
            assert forall|i: int| 0 <= i < script.len() implies is_instruction(
                #[trigger] script[i],
            ) by {
                if i > 0 {
                    assert(script[i] == rest[i - 1]);
                }
            }
        } else {
            assert(script[stop(script) as int] == rest[stop(rest) as int]);
        }
    }
}

/// No script changes the owner, and a script that makes no turn leaves the
/// time of the last turn as it was. One that makes a turn leaves `now` there.
pub proof fn lemma_run_keeps(v: RobotView, script: Seq<char>, now: nat)
    ensures
        run(v, script, now).owner == v.owner,
        run(v, script, now).last_move == (if turns(script) {
            now
        } else {
            v.last_move
        }),
        v.in_range() && now <= u64::MAX ==> run(v, script, now).in_range(),
    decreases script.len(),
{
    if script.len() == 0 || !is_instruction(script[0]) {
    } else {
        lemma_run_keeps(step(v, script[0], now), script.drop_first(), now);
    }
}

/// With a clock that does not go back, the time of the last turn does not go
/// back either.
pub proof fn lemma_run_time_order(v: RobotView, script: Seq<char>, now: nat)
    requires
        v.last_move <= now,
    ensures
        v.last_move <= run(v, script, now).last_move <= now,
{
    lemma_run_keeps(v, script, now);
}

/// Where the robot ends up and where it faces do not depend on the times at
/// which it turns, nor on the time of its last turn before the run.
pub proof fn lemma_run_clock(v: RobotView, w: RobotView, script: Seq<char>, a: nat, b: nat)
    requires
        w.same_course(v),
    ensures
        run(w, script, b).same_course(run(v, script, a)),
    decreases script.len(),
{
    if script.len() == 0 || !is_instruction(script[0]) {
    } else {
        lemma_run_clock(
            step(v, script[0], a),
            step(w, script[0], b),
            script.drop_first(),
            a,
            b,
        );
    }
}

} // verus!
