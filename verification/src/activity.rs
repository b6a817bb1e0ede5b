//! The input listener's decisions: which input events are genuine user
//! activity, and what such an event does to the record.

use crate::state::AppState;
use std::time::Instant;
use vstd::prelude::*;

verus! {

/// The kinds of event that the global input stream delivers.
#[derive(Clone, Copy, Debug, PartialEq, Eq, Structural)]
pub enum InputKind {
    KeyPress,
    KeyRelease,
    ButtonPress,
    ButtonRelease,
    MouseMove,
    Wheel,
}

/// Key presses, pointer motion and button presses are activity; releases and
/// the wheel are not.
pub open spec fn is_activity(kind: InputKind) -> bool {
    kind == InputKind::KeyPress || kind == InputKind::MouseMove || kind == InputKind::ButtonPress
}

/// The record after an event of `kind` seen at `now`.
pub open spec fn observed(state: AppState, kind: InputKind, now: Instant) -> AppState {
    if is_activity(kind) {
        state.with_activity(now)
    } else {
        state
    }
}

/// Whether an event of `kind` counts as genuine user activity.
pub fn counts_as_activity(kind: InputKind) -> (counts: bool)
    ensures
        counts == is_activity(kind),
{
    match kind {
        InputKind::KeyPress => true,
        InputKind::MouseMove => true,
        InputKind::ButtonPress => true,
        InputKind::KeyRelease => false,
        InputKind::ButtonRelease => false,
        InputKind::Wheel => false,
    }
}

/// Takes note of an event seen at `now`: activity stamps the time of the last
/// input, any other event leaves the record as it is. Returns whether the
/// record was stamped.
pub fn observe(state: &mut AppState, kind: InputKind, now: Instant) -> (stamped: bool)
    ensures
        *final(state) == observed(*old(state), kind, now),
        stamped == is_activity(kind),
        old(state).wf() ==> final(state).wf(),
{
    if counts_as_activity(kind) {
        state.last_activity = now;
        true
    } else {
        false
    }
}

/// Takes note of an event at the moment of the call. The clock is read only
/// for activity.
pub fn observe_now(state: &mut AppState, kind: InputKind) -> (stamped: bool)
    ensures
        exists|now: Instant| *final(state) == observed(*old(state), kind, now),
        !is_activity(kind) ==> *final(state) == *old(state),
        stamped == is_activity(kind),
        old(state).wf() ==> final(state).wf(),
{
    if counts_as_activity(kind) {
        let now = Instant::now();
        observe(state, kind, now)
    } else {
        assert(*state == observed(*old(state), kind, old(state).last_activity));
        false
    }
}

/// The listener changes the time of the last input and nothing else: the
/// movement loop's fields are out of its reach.
pub proof fn lemma_listener_frame(state: AppState, kind: InputKind, now: Instant)
    ensures
        observed(state, kind, now).is_running == state.is_running,
        observed(state, kind, now).last_moved == state.last_moved,
        observed(state, kind, now).move_direction == state.move_direction,
        observed(state, kind, now).error_count == state.error_count,
        is_activity(kind) ==> observed(state, kind, now).last_activity == now,
        !is_activity(kind) ==> observed(state, kind, now) == state,
{
}

} // verus!
