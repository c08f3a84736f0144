//! Several sessions over one store.
//!
//! A server runs one session for each client, each as a task of its own, and
//! all of them write into the same store. Whatever the tasks do reaches the
//! store one step at a time, so a run of the whole server is a sequence of
//! steps, each of one session. The laws here say that the sessions do not
//! get in each other's way.

use vstd::prelude::*;
use crate::input::GamepadCommand;
use crate::laws::lifecycle::Timed;
use crate::session::{stored_after, Frame, SessionEvent, SessionPhase, SessionState};

verus! {

/// An event for one of several sessions.
pub struct Routed {
    /// Which session the event is for, counted from zero.
    pub session: int,
    pub at: u64,
    pub event: SessionEvent,
}

/// The sessions of one server and the gamepad command in their store.
pub struct Sessions {
    pub states: Seq<SessionState>,
    pub stored: GamepadCommand,
}

impl Sessions {
    /// These sessions after the step of one of them. An event for a session
    /// that is not there changes nothing.
    pub open spec fn deliver(self, routed: Routed) -> Sessions {
        if 0 <= routed.session < self.states.len() {
            let outcome = self.states[routed.session].on(routed.at, routed.event);
            Sessions {
                states: self.states.update(routed.session, outcome.state),
                stored: stored_after(self.stored, outcome),
            }
        } else {
            self
        }
    }

    /// These sessions after the steps of `trace`, first to last.
    pub open spec fn run(self, trace: Seq<Routed>) -> Sessions
        decreases trace.len(),
    {
        if trace.len() == 0 {
            self
        } else {
            self.run(trace.drop_last()).deliver(trace.last())
        }
    }
}

/// The events of `trace` that are for `session`, in their order.
pub open spec fn events_for(trace: Seq<Routed>, session: int) -> Seq<Timed>
    decreases trace.len(),
{
    if trace.len() == 0 {
        Seq::empty()
    } else {
        let earlier = events_for(trace.drop_last(), session);
        if trace.last().session == session {
            earlier.push(Timed { at: trace.last().at, event: trace.last().event })
        } else {
            earlier
        }
    }
}

/// Whether `trace` carries no decoded gamepad command.
pub open spec fn without_commands(trace: Seq<Routed>) -> bool {
    forall|i: int|
        0 <= i < trace.len() ==> !((#[trigger] trace[i]).event matches SessionEvent::Received(
            Frame::Command(_),
        ))
}

/// No session affects another: however the steps of the sessions interleave,
/// each session ends in the state to which its own events alone lead. What
/// happens to one session, its failure and its end included, neither delays
/// nor closes any other; and no session is added or lost on the way.
pub proof fn lemma_sessions_are_independent(start: Sessions, trace: Seq<Routed>, session: int)
    requires
        0 <= session < start.states.len(),
    ensures
        start.run(trace).states.len() == start.states.len(),
        start.run(trace).states[session] == start.states[session].run(events_for(trace, session)),
    decreases trace.len(),
{
    if trace.len() > 0 {
        lemma_sessions_are_independent(start, trace.drop_last(), session);
        let own = events_for(trace.drop_last(), session);
        let last = trace.last();
        if last.session == session {
            let all = own.push(Timed { at: last.at, event: last.event });
            assert(all.drop_last() =~= own);
        }
    }
}

/// What goes wrong in a session stays in the session: steps that carry no
/// decoded gamepad command, whatever else they carry, leave the store as it
/// was.
pub proof fn lemma_store_changes_only_by_commands(start: Sessions, trace: Seq<Routed>)
    requires
        without_commands(trace),
    ensures
        start.run(trace).stored == start.stored,
    decreases trace.len(),
{
    if trace.len() > 0 {
        let init = trace.drop_last();
        assert(without_commands(init)) by {
            assert forall|i: int| 0 <= i < init.len() implies !((#[trigger] init[i]).event matches SessionEvent::Received(
                Frame::Command(_),
            )) by {
                assert(init[i] == trace[i]);
            }
        }
        lemma_store_changes_only_by_commands(start, init);
        assert(trace.last() == trace[trace.len() - 1]);
    }
}

/// Last writer wins among the sessions too: when the last step of a run
/// hands a decoded command to a session that is active, the store holds
/// that command, whatever the other sessions wrote before.
pub proof fn lemma_store_holds_last_command(
    start: Sessions,
    trace: Seq<Routed>,
    last: Routed,
    command: GamepadCommand,
)
    requires
        0 <= last.session < start.states.len(),
        last.event == SessionEvent::Received(Frame::Command(command)),
        start.run(trace).states[last.session].phase == SessionPhase::Active,
    ensures
        start.run(trace.push(last)).stored == command,
{
    assert(trace.push(last).drop_last() =~= trace);
    lemma_sessions_are_independent(start, trace, last.session);
}

} // verus!
