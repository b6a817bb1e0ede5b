//! The movement loop's decisions: whether a tick moves the pointer, where to,
//! whether the move took effect, and what the record holds afterwards.
//!
//! Nothing here touches the pointer. The caller queries and moves it, waits
//! for the move to settle, and hands the positions it read to these functions.

use crate::error::RmmError;
use crate::state::{flipped, lemma_failures_count, AppState};
use std::time::Instant;
use vstd::prelude::*;

verus! {

/// Pixels that one move displaces the pointer by, on each axis.
pub const MOVEMENT_STEP: i32 = 10;

/// Largest distance per axis, in pixels, at which a position still counts as
/// the intended one.
pub const POSITION_TOLERANCE: i32 = 5;

/// Failures in a row from which on the warning about permissions is raised.
pub const ERROR_CEILING: u32 = 10;

/// Milliseconds to wait between a move and reading the position back.
pub const SETTLE_MILLIS: u64 = 100;

/// What a tick of the movement loop has to do.
#[derive(Clone, Copy, Debug, PartialEq, Eq, Structural)]
pub enum TickPlan {
    /// Monitoring is off, or the user was active recently: nothing to do.
    Skip,
    /// Displace the pointer, forward for `1` and backward for `-1`.
    Move { direction: i32 },
}

/// The step of a tick at which the pointer controller, or the lock on the
/// record, failed.
#[derive(Clone, Copy, Debug, PartialEq, Eq, Structural)]
pub enum TickFault {
    /// The controller could not be set up.
    Connect,
    /// The pointer's position could not be read.
    Locate,
    /// The pointer could not be moved.
    Move,
    /// The record's lock could not be taken.
    Lock,
}

impl TickFault {
    /// The words that a failure at this step is reported with, before the
    /// detail.
    pub open spec fn prefix(self) -> Seq<char> {
        match self {
            TickFault::Connect => "Failed to initialize Enigo: "@,
            TickFault::Locate => "Failed to get mouse position: "@,
            TickFault::Move => "Failed to move mouse: "@,
            TickFault::Lock => "Failed to lock state: "@,
        }
    }
}

/// A move is due when monitoring is on and the user has been inactive for at
/// least the threshold.
pub open spec fn move_due(state: AppState, inactive_secs: u64, inactivity_threshold: u64) -> bool {
    state.is_running && inactive_secs >= inactivity_threshold
}

/// The plan of a tick that finds the user inactive for `inactive_secs`.
pub open spec fn plan_for(state: AppState, inactive_secs: u64, inactivity_threshold: u64) -> TickPlan {
    if move_due(state, inactive_secs, inactivity_threshold) {
        TickPlan::Move { direction: state.move_direction }
    } else {
        TickPlan::Skip
    }
}

/// The position one step from `(x, y)` along the diagonal, if both of its
/// coordinates are `i32` values.
pub open spec fn target_of(x: int, y: int, direction: int) -> Option<(i32, i32)> {
    let delta = MOVEMENT_STEP * direction;
    if i32::MIN <= x + delta <= i32::MAX && i32::MIN <= y + delta <= i32::MAX {
        Some(((x + delta) as i32, (y + delta) as i32))
    } else {
        None
    }
}

/// Whether two coordinates lie within the tolerance of each other.
pub open spec fn close(actual: int, expected: int) -> bool {
    -POSITION_TOLERANCE <= actual - expected <= POSITION_TOLERANCE
}

/// Whether a position that was read back confirms the intended one.
pub open spec fn confirms(actual_x: int, actual_y: int, expected_x: int, expected_y: int) -> bool {
    close(actual_x, expected_x) && close(actual_y, expected_y)
}

/// Whether the record calls for the warning about permissions.
pub open spec fn warning_due(state: AppState) -> bool {
    state.error_count >= ERROR_CEILING
}

/// The record after a tick that moved the pointer.
pub open spec fn outcome_of(state: AppState, verified: bool, now: Instant) -> AppState {
    if verified {
        state.after_success(now)
    } else {
        state.after_failure()
    }
}

/// How many of `n` failures in a row raise the warning.
pub open spec fn warnings_raised(state: AppState, n: nat) -> nat
    decreases n,
{
    if n == 0 {
        0
    } else {
        let earlier = warnings_raised(state, (n - 1) as nat);
        if warning_due(state.after_failures(n)) {
            earlier + 1
        } else {
            earlier
        }
    }
}

/// The error that ends a tick which failed at `fault`: always one of pointer
/// control, worded with the step and the detail.
pub fn tick_error(fault: TickFault, detail: &str) -> (error: RmmError)
    ensures
        error matches RmmError::MouseControl(text) && text@ == fault.prefix() + detail@,
{
    let prefix = match fault {
        TickFault::Connect => "Failed to initialize Enigo: ",
        TickFault::Locate => "Failed to get mouse position: ",
        TickFault::Move => "Failed to move mouse: ",
        TickFault::Lock => "Failed to lock state: ",
    };
    let mut text = String::from_str(prefix);
    text.append(detail);
    RmmError::MouseControl(text)
}

/// Decides what a tick does, given for how long the user has been inactive.
pub fn plan_tick(state: &AppState, inactive_secs: u64, inactivity_threshold: u64) -> (plan: TickPlan)
    ensures
        plan == plan_for(*state, inactive_secs, inactivity_threshold),
{
    if state.is_running && inactive_secs >= inactivity_threshold {
        TickPlan::Move { direction: state.move_direction }
    } else {
        TickPlan::Skip
    }
}

/// Decides what a tick does at the moment of the call. The clock is read only
/// while monitoring is on.
pub fn check_inactivity(state: &AppState, inactivity_threshold: u64) -> (plan: TickPlan)
    ensures
        exists|inactive_secs: u64| plan == plan_for(*state, inactive_secs, inactivity_threshold),
        !state.is_running ==> plan == TickPlan::Skip,
        state.is_running && inactivity_threshold == 0 ==> plan == (TickPlan::Move {
            direction: state.move_direction,
        }),
{
    if !state.is_running {
        assert(TickPlan::Skip == plan_for(*state, 0, inactivity_threshold));
        return TickPlan::Skip;
    }
    let inactive_secs = state.last_activity.elapsed().as_secs();
    plan_tick(state, inactive_secs, inactivity_threshold)
}

/// Where a move from `(x, y)` goes: one step along the diagonal, the same on
/// both axes. `None` where that position has no `i32` coordinates.
pub fn move_target(x: i32, y: i32, direction: i32) -> (target: Option<(i32, i32)>)
    ensures
        target == target_of(x as int, y as int, direction as int),
{
    let step: i64 = MOVEMENT_STEP as i64;
    assert(step == 10);
    let delta: i64 = step * (direction as i64);
    assert(delta == MOVEMENT_STEP * direction);
    let new_x: i64 = x as i64 + delta;
    let new_y: i64 = y as i64 + delta;
    if new_x < i32::MIN as i64 || new_x > i32::MAX as i64 || new_y < i32::MIN as i64 || new_y
        > i32::MAX as i64 {
        None
    } else {
        Some((new_x as i32, new_y as i32))
    }
}

/// Whether the position read back after a move confirms it: each coordinate
/// within the tolerance of the intended one.
pub fn verify_position(actual_x: i32, actual_y: i32, expected_x: i32, expected_y: i32) -> (verified:
    bool)
    ensures
        verified == confirms(actual_x as int, actual_y as int, expected_x as int, expected_y as int),
{
    let dx: i64 = actual_x as i64 - expected_x as i64;
    let dy: i64 = actual_y as i64 - expected_y as i64;
    let tolerance: i64 = POSITION_TOLERANCE as i64;
    -tolerance <= dx && dx <= tolerance && -tolerance <= dy && dy <= tolerance
}

/// Writes the result of a move into the record. A confirmed move stamps its
/// time, flips the direction and clears the counter; any other adds one to the
/// counter. Returns whether the warning about permissions is due.
///
/// The two preconditions are those of the arithmetic: the direction can be
/// negated, and the counter has room for one more.
pub fn record_outcome(state: &mut AppState, verified: bool, now: Instant) -> (warn: bool)
    requires
        verified ==> old(state).move_direction > i32::MIN,
        !verified ==> old(state).error_count < u32::MAX,
    ensures
        *final(state) == outcome_of(*old(state), verified, now),
        old(state).wf() ==> final(state).wf(),
        warn == (!verified && warning_due(*final(state))),
{
    if verified {
        state.last_moved = now;
        state.move_direction = -state.move_direction;
        state.error_count = 0;
        false
    } else {
        state.error_count = state.error_count + 1;
        state.error_count >= ERROR_CEILING
    }
}

/// Writes the result of a move into the record at the moment of the call. The
/// clock is read only for a confirmed move.
pub fn record_outcome_now(state: &mut AppState, verified: bool) -> (warn: bool)
    requires
        verified ==> old(state).move_direction > i32::MIN,
        !verified ==> old(state).error_count < u32::MAX,
    ensures
        exists|now: Instant| *final(state) == outcome_of(*old(state), verified, now),
        !verified ==> *final(state) == old(state).after_failure(),
        old(state).wf() ==> final(state).wf(),
        warn == (!verified && warning_due(*final(state))),
{
    if verified {
        let now = Instant::now();
        record_outcome(state, true, now)
    } else {
        let warn = record_outcome(state, false, state.last_moved);
        assert(*state == outcome_of(*old(state), false, old(state).last_moved));
        warn
    }
}

/// No tick moves the pointer while monitoring is off or before the threshold
/// is reached; every tick does once it is.
pub proof fn lemma_move_exactly_when_due(state: AppState, inactive_secs: u64, inactivity_threshold: u64)
    ensures
        !state.is_running ==> plan_for(state, inactive_secs, inactivity_threshold) == TickPlan::Skip,
        inactive_secs < inactivity_threshold ==> plan_for(state, inactive_secs, inactivity_threshold)
            == TickPlan::Skip,
        state.is_running && inactive_secs >= inactivity_threshold ==> plan_for(
            state,
            inactive_secs,
            inactivity_threshold,
        ) == (TickPlan::Move { direction: state.move_direction }),
{
}

/// A move with a signed unit displaces both coordinates by exactly one step.
/// Reading the target back confirms the move; reading the old position back
/// does not.
pub proof fn lemma_target_is_one_step(x: int, y: int, direction: int)
    requires
        direction == 1 || direction == -1,
        i32::MIN + MOVEMENT_STEP <= x <= i32::MAX - MOVEMENT_STEP,
        i32::MIN + MOVEMENT_STEP <= y <= i32::MAX - MOVEMENT_STEP,
    ensures
        target_of(x, y, direction) == Some(
            ((x + MOVEMENT_STEP * direction) as i32, (y + MOVEMENT_STEP * direction) as i32),
        ),
        confirms(
            x + MOVEMENT_STEP * direction,
            y + MOVEMENT_STEP * direction,
            x + MOVEMENT_STEP * direction,
            y + MOVEMENT_STEP * direction,
        ),
        !confirms(x, y, x + MOVEMENT_STEP * direction, y + MOVEMENT_STEP * direction),
{
}

/// A move and the move that follows it, in the flipped direction, bring the
/// pointer back to where it was.
pub proof fn lemma_jiggle_returns(x: int, y: int, direction: int)
    requires
        i32::MIN <= x <= i32::MAX,
        i32::MIN <= y <= i32::MAX,
        target_of(x, y, direction) is Some,
    ensures
        ({
            let there = target_of(x, y, direction)->Some_0;
            target_of(there.0 as int, there.1 as int, flipped(direction)) == Some(
                (x as i32, y as i32),
            )
        }),
{
}

/// Of `n` failures in a row that start from a cleared counter, the first nine
/// raise no warning and each later one raises one: ten failures raise exactly
/// one, with the counter at ten.
pub proof fn lemma_warnings_raised(state: AppState, n: nat)
    requires
        state.error_count == 0,
        n <= u32::MAX,
    ensures
        warnings_raised(state, n) == if n < ERROR_CEILING {
            0
        } else {
            n - ERROR_CEILING + 1
        },
        state.after_failures(n).error_count == n,
    decreases n,
{
    lemma_failures_count(state, n);
    if n > 0 {
        lemma_warnings_raised(state, (n - 1) as nat);
    }
}

} // verus!
