//! The activity record that the input listener and the movement loop share,
//! and the transitions that the two are allowed to make on it.

use std::sync::{Arc, Mutex};
use std::time::Instant;
use vstd::prelude::*;

verus! {

/// The single activity record of the process.
pub struct AppState {
    /// Whether the monitoring subsystem is active.
    pub is_running: bool,
    /// When the most recent genuine user input was seen.
    pub last_activity: Instant,
    /// When the pointer was last moved and the move confirmed.
    pub last_moved: Instant,
    /// Sign of the next displacement: `1` or `-1`.
    pub move_direction: i32,
    /// Verification failures since the last confirmed move.
    pub error_count: u32,
}

/// The record as the threads of the process hold it.
pub type SharedState = Arc<Mutex<AppState>>;

/// The direction that follows `direction`.
pub open spec fn flipped(direction: int) -> int {
    -direction
}

impl AppState {
    /// The direction is a signed unit.
    pub open spec fn wf(self) -> bool {
        self.move_direction == 1 || self.move_direction == -1
    }

    /// The record of a process that starts at `now`: monitoring is off, the
    /// first move goes forward, and both timestamps are `now`.
    pub open spec fn fresh(now: Instant) -> AppState {
        AppState {
            is_running: false,
            last_activity: now,
            last_moved: now,
            move_direction: 1,
            error_count: 0,
        }
    }

    /// The record after genuine input seen at `now`.
    pub open spec fn with_activity(self, now: Instant) -> AppState {
        AppState { last_activity: now, ..self }
    }

    /// The record after a move that was confirmed at `now`.
    pub open spec fn after_success(self, now: Instant) -> AppState {
        AppState {
            last_moved: now,
            move_direction: flipped(self.move_direction as int) as i32,
            error_count: 0,
            ..self
        }
    }

    /// The record after a move that could not be confirmed.
    pub open spec fn after_failure(self) -> AppState {
        AppState { error_count: (self.error_count + 1) as u32, ..self }
    }

    /// The record after `n` moves in a row that could not be confirmed.
    pub open spec fn after_failures(self, n: nat) -> AppState
        decreases n,
    {
        if n == 0 {
            self
        } else {
            self.after_failures((n - 1) as nat).after_failure()
        }
    }

    /// The record of a process that starts at `now`.
    pub fn started_at(now: Instant) -> (state: AppState)
        ensures
            state == AppState::fresh(now),
            state.wf(),
    {
        AppState {
            is_running: false,
            last_activity: now,
            last_moved: now,
            move_direction: 1,
            error_count: 0,
        }
    }

    /// The record of a process that starts at the moment of the call: the
    /// clock is read once, and both timestamps hold that reading.
    pub fn new() -> (state: AppState)
        ensures
            exists|now: Instant| state == AppState::fresh(now),
            !state.is_running,
            state.move_direction == 1,
            state.error_count == 0,
            state.last_activity == state.last_moved,
            state.wf(),
    {
        let now = Instant::now();
        AppState::started_at(now)
    }

    /// Whether the direction is a signed unit.
    pub fn is_well_formed(&self) -> (ok: bool)
        ensures
            ok == self.wf(),
    {
        self.move_direction == 1 || self.move_direction == -1
    }
}

/// Flipping a direction twice gives the direction back.
pub proof fn lemma_flip_twice(direction: int)
    ensures
        flipped(flipped(direction)) == direction,
{
}

/// Every transition keeps the direction a signed unit: a fresh record has
/// one, and input, a confirmed move and a failed move each leave one.
pub proof fn lemma_transitions_keep_wf(state: AppState, now: Instant)
    requires
        state.wf(),
    ensures
        AppState::fresh(now).wf(),
        state.with_activity(now).wf(),
        state.after_success(now).wf(),
        state.after_failure().wf(),
{
}

/// A confirmed move flips the direction, and two of them in a row leave it
/// where it was.
pub proof fn lemma_two_successes_restore_direction(state: AppState, first: Instant, second: Instant)
    requires
        state.wf(),
    ensures
        state.after_success(first).move_direction == flipped(state.move_direction as int),
        state.after_success(first).move_direction != state.move_direction,
        state.after_success(first).after_success(second).move_direction == state.move_direction,
{
}

/// `n` failures in a row add `n` to the counter and touch nothing else.
pub proof fn lemma_failures_count(state: AppState, n: nat)
    requires
        state.error_count + n <= u32::MAX,
    ensures
        state.after_failures(n).error_count == state.error_count + n,
        state.after_failures(n) == (AppState { error_count: (state.error_count + n) as u32, ..state }),
    decreases n,
{
    if n > 0 {
        lemma_failures_count(state, (n - 1) as nat);
    }
}

/// A confirmed move sets the counter to zero, whatever it held.
pub proof fn lemma_success_resets(state: AppState, now: Instant)
    ensures
        state.after_success(now).error_count == 0,
{
}

/// Only genuine input moves the time of the last input, and only a confirmed
/// move moves the time of the last move. None of the three transitions
/// switches monitoring on or off.
pub proof fn lemma_timestamp_owners(state: AppState, now: Instant)
    ensures
        state.with_activity(now).last_activity == now,
        state.with_activity(now).last_moved == state.last_moved,
        state.after_success(now).last_moved == now,
        state.after_success(now).last_activity == state.last_activity,
        state.after_failure().last_activity == state.last_activity,
        state.after_failure().last_moved == state.last_moved,
        state.with_activity(now).is_running == state.is_running,
        state.after_success(now).is_running == state.is_running,
        state.after_failure().is_running == state.is_running,
{
}

} // verus!
