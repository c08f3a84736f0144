//! The life of a session goes one way, and only decoded commands leave it.

use vstd::prelude::*;
use crate::input::GamepadCommand;
use crate::session::{
    stored_after, Frame, SessionAction, SessionEvent, SessionPhase, SessionState,
};

verus! {

/// An event with the time at which it happened.
pub struct Timed {
    pub at: u64,
    pub event: SessionEvent,
}

impl SessionState {
    /// The state of this session after the events of `trace`, first to last.
    pub open spec fn run(self, trace: Seq<Timed>) -> SessionState
        decreases trace.len(),
    {
        if trace.len() == 0 {
            self
        } else {
            self.run(trace.drop_last()).on(trace.last().at, trace.last().event).state
        }
    }
}

/// How far a phase is along the life of a session.
pub open spec fn phase_rank(phase: SessionPhase) -> nat {
    match phase {
        SessionPhase::Connecting => 0,
        SessionPhase::Active => 1,
        SessionPhase::Closing => 2,
        SessionPhase::Closed => 3,
    }
}

/// A session never goes back: a step leaves the phase where it is or moves
/// it on by one.
pub proof fn lemma_phase_only_advances(state: SessionState, now: u64, event: SessionEvent)
    ensures
        phase_rank(state.phase) <= phase_rank(state.on(now, event).state.phase) <= phase_rank(
            state.phase,
        ) + 1,
{
}

/// Closed is final: no event changes a closed session, asks anything of the
/// driver or reaches the store.
pub proof fn lemma_closed_is_final(state: SessionState, trace: Seq<Timed>)
    requires
        state.phase == SessionPhase::Closed,
    ensures
        state.run(trace) == state,
        forall|now: u64, event: SessionEvent| #[trigger] state.on(now, event) == state.ignore(),
    decreases trace.len(),
{
    if trace.len() > 0 {
        lemma_closed_is_final(state, trace.drop_last());
    }
}

/// The driver is told to shut down exactly in the steps that leave the
/// session closing: in the step that gives it up, and in every later step
/// until the driver reports that it has released the transport.
pub proof fn lemma_shutdown_marks_closing(state: SessionState, now: u64, event: SessionEvent)
    ensures
        state.on(now, event).action == SessionAction::Shutdown <==> state.on(
            now,
            event,
        ).state.phase == SessionPhase::Closing,
{
}

/// Only a decoded command of an active session reaches the store. Whatever
/// else happens to a session, a failure or its end included, leaves the store
/// as it was.
pub proof fn lemma_only_commands_reach_store(state: SessionState, now: u64, event: SessionEvent)
    ensures
        state.on(now, event).command == match event {
            SessionEvent::Received(Frame::Command(command)) => if state.phase
                == SessionPhase::Active {
                Some(command)
            } else {
                None
            },
            _ => None,
        },
{
}

/// Text that does not decode changes neither the store nor the phase of the
/// session: it never closes a session, and it asks nothing of the driver
/// that the session did not ask before.
pub proof fn lemma_malformed_text_is_dropped(state: SessionState, now: u64, stored: GamepadCommand)
    ensures
        stored_after(stored, state.on(now, SessionEvent::Received(Frame::Malformed))) == stored,
        state.on(now, SessionEvent::Received(Frame::Malformed)).state.phase == state.phase,
        state.phase != SessionPhase::Closing ==> state.on(
            now,
            SessionEvent::Received(Frame::Malformed),
        ).action == SessionAction::Nothing,
{
}

} // verus!
