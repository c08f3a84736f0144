//! The inactivity timeout: a silent client is given up when it has run out,
//! and a client that answers its pings never is.

use vstd::prelude::*;
use crate::laws::lifecycle::Timed;
use crate::session::{
    Frame, SessionAction, SessionEvent, SessionPhase, SessionState, CLIENT_TIMEOUT_MS,
    HEARTBEAT_INTERVAL_MS,
};

verus! {

/// Whether `trace` holds nothing but timers: the heartbeat firing and waits
/// for a frame running out. Such a trace is what a session sees whose client
/// sends nothing at all, no pong either, while the pings still go out.
pub open spec fn only_timers(trace: Seq<Timed>) -> bool {
    forall|i: int|
        0 <= i < trace.len() ==> (#[trigger] trace[i]).event == SessionEvent::HeartbeatDue
            || trace[i].event == SessionEvent::ReadTimedOut
}

/// A silent client is given up when the timeout runs out, and not before.
///
/// While an active session sees nothing but timers, the time of its last
/// activity stays where it was, so the timeout is never pushed back; the
/// session stays active as long as every timer comes before the timeout has
/// run out, and is closing from the first timer that comes later.
pub proof fn lemma_silence_times_out(start: SessionState, trace: Seq<Timed>)
    requires
        start.phase == SessionPhase::Active,
        only_timers(trace),
    ensures
        start.run(trace).last_activity == start.last_activity,
        start.run(trace).phase == if exists|i: int|
            0 <= i < trace.len() && start.timed_out((#[trigger] trace[i]).at) {
            SessionPhase::Closing
        } else {
            SessionPhase::Active
        },
    decreases trace.len(),
{
    if trace.len() > 0 {
        let init = trace.drop_last();
        assert(only_timers(init)) by {
            assert forall|i: int| 0 <= i < init.len() implies (#[trigger] init[i]).event
                == SessionEvent::HeartbeatDue || init[i].event == SessionEvent::ReadTimedOut by {
                assert(init[i] == trace[i]);
            }
        }
        lemma_silence_times_out(start, init);
        let last = trace.last();
        assert(last == trace[trace.len() - 1]);
        if exists|i: int| 0 <= i < init.len() && start.timed_out((#[trigger] init[i]).at) {
            let i: int = choose|i: int|
                0 <= i < init.len() && start.timed_out((#[trigger] init[i]).at);
            assert(init[i] == trace[i]);
        } else if start.timed_out(last.at) {
        } else {
            assert forall|i: int| 0 <= i < trace.len() implies !start.timed_out(
                (#[trigger] trace[i]).at,
            ) by {
                if i < init.len() {
                    assert(init[i] == trace[i]);
                }
            }
        }
    }
}

/// Whether `trace` carries no inbound frame. Such a trace is what a session
/// sees whose client sends nothing at all and answers no ping, whatever else
/// happens to the session meanwhile.
pub open spec fn without_frames(trace: Seq<Timed>) -> bool {
    forall|i: int| 0 <= i < trace.len() ==> !((#[trigger] trace[i]).event is Received)
}

/// Whether a session in `phase` has been given up.
pub open spec fn given_up(phase: SessionPhase) -> bool {
    phase == SessionPhase::Closing || phase == SessionPhase::Closed
}

/// Without an inbound frame the time of the last activity of a session that
/// has started stays where it was: nothing but the client pushes the timeout
/// back. The session itself is active or given up.
pub proof fn lemma_silence_keeps_deadline(start: SessionState, trace: Seq<Timed>)
    requires
        start.phase != SessionPhase::Connecting,
        without_frames(trace),
    ensures
        start.run(trace).last_activity == start.last_activity,
        start.run(trace).phase != SessionPhase::Connecting,
    decreases trace.len(),
{
    if trace.len() > 0 {
        let init = trace.drop_last();
        assert(without_frames(init)) by {
            assert forall|i: int| 0 <= i < init.len() implies !((#[trigger] init[i]).event
                is Received) by {
                assert(init[i] == trace[i]);
            }
        }
        lemma_silence_keeps_deadline(start, init);
        assert(trace.last() == trace[trace.len() - 1]);
    }
}

/// A client that sends nothing is closed when the timeout of ten seconds has
/// run out since its last activity.
///
/// Let an active session see no inbound frame. A driver that waits for the
/// next frame for the time that is left at `now` wakes exactly when the
/// timeout runs out. The wait that runs out at that moment, or the heartbeat
/// that fires then, finds the session given up or gives it up, and
/// `Released` then closes it.
pub proof fn lemma_silent_session_closes(
    start: SessionState,
    trace: Seq<Timed>,
    now: u64,
    wake: u64,
    released: u64,
)
    requires
        start.phase == SessionPhase::Active,
        without_frames(trace),
        start.last_activity <= now,
        wake == now + start.time_left(now),
    ensures
        !start.timed_out(now) ==> wake == start.last_activity + CLIENT_TIMEOUT_MS,
        given_up(start.run(trace).on(wake, SessionEvent::ReadTimedOut).state.phase),
        given_up(start.run(trace).on(wake, SessionEvent::HeartbeatDue).state.phase),
        start.run(trace).on(wake, SessionEvent::ReadTimedOut).state.on(
            released,
            SessionEvent::Released,
        ).state.phase == SessionPhase::Closed,
        start.run(trace).on(wake, SessionEvent::HeartbeatDue).state.on(
            released,
            SessionEvent::Released,
        ).state.phase == SessionPhase::Closed,
{
    lemma_silence_keeps_deadline(start, trace);
}

/// One round of the heartbeat: a ping goes out at `ping_at` and the client's
/// pong comes in at `pong_at`.
pub struct Round {
    pub ping_at: u64,
    pub pong_at: u64,
}

/// What a session sees in `rounds`: for each round the heartbeat firing and
/// then the pong.
pub open spec fn heartbeat_trace(rounds: Seq<Round>) -> Seq<Timed>
    decreases rounds.len(),
{
    if rounds.len() == 0 {
        Seq::empty()
    } else {
        heartbeat_trace(rounds.drop_last()).push(
            Timed { at: rounds.last().ping_at, event: SessionEvent::HeartbeatDue },
        ).push(Timed { at: rounds.last().pong_at, event: SessionEvent::Received(Frame::Pong) })
    }
}

/// Whether the heartbeat keeps its interval and the client answers in time:
/// every ping goes out no later than an interval after the one before (the
/// first, after the session's last activity), and every pong comes in no
/// earlier than its ping and no later than an interval after it.
pub open spec fn answered_in_time(last_activity: u64, rounds: Seq<Round>) -> bool {
    forall|i: int|
        0 <= i < rounds.len() ==> {
            &&& (#[trigger] rounds[i]).ping_at <= (if i == 0 {
                last_activity
            } else {
                rounds[i - 1].ping_at
            }) + HEARTBEAT_INTERVAL_MS
            &&& rounds[i].ping_at <= rounds[i].pong_at <= rounds[i].ping_at
                + HEARTBEAT_INTERVAL_MS
        }
}

/// The time of the last pong of `rounds`, or `last_activity` if there is no
/// round.
pub open spec fn last_pong(last_activity: u64, rounds: Seq<Round>) -> u64 {
    if rounds.len() == 0 {
        last_activity
    } else {
        rounds.last().pong_at
    }
}

/// After rounds that were answered in time an active session is active, and
/// the time of its last activity is that of the last pong.
pub proof fn lemma_answered_rounds(start: SessionState, rounds: Seq<Round>)
    requires
        start.phase == SessionPhase::Active,
        answered_in_time(start.last_activity, rounds),
    ensures
        start.run(heartbeat_trace(rounds)) == (SessionState {
            phase: SessionPhase::Active,
            last_activity: last_pong(start.last_activity, rounds),
        }),
    decreases rounds.len(),
{
    if rounds.len() > 0 {
        let init = rounds.drop_last();
        let round = rounds.last();
        assert(answered_in_time(start.last_activity, init)) by {
            assert forall|i: int| 0 <= i < init.len() implies {
                &&& (#[trigger] init[i]).ping_at <= (if i == 0 {
                    start.last_activity
                } else {
                    init[i - 1].ping_at
                }) + HEARTBEAT_INTERVAL_MS
                &&& init[i].ping_at <= init[i].pong_at <= init[i].ping_at + HEARTBEAT_INTERVAL_MS
            } by {
                assert(init[i] == rounds[i]);
                if i > 0 {
                    assert(init[i - 1] == rounds[i - 1]);
                }
            }
        }
        lemma_answered_rounds(start, init);
        let before = start.run(heartbeat_trace(init));
        let ping = Timed { at: round.ping_at, event: SessionEvent::HeartbeatDue };
        let pong = Timed { at: round.pong_at, event: SessionEvent::Received(Frame::Pong) };
        let upto_ping = heartbeat_trace(init).push(ping);
        let all = heartbeat_trace(rounds);
        assert(all == upto_ping.push(pong));
        assert(all.drop_last() =~= upto_ping);
        assert(upto_ping.drop_last() =~= heartbeat_trace(init));
        assert(rounds[rounds.len() - 1] == round);
        if init.len() > 0 {
            assert(rounds[rounds.len() - 2] == init.last());
            assert(init.last().ping_at <= init.last().pong_at) by {
                assert(init[init.len() - 1] == rounds[rounds.len() - 2]);
            }
        }
        assert(!before.timed_out(round.ping_at));
        assert(start.run(upto_ping) == before);
    }
}

/// A client that answers every ping within the heartbeat interval is never
/// given up by the timeout.
///
/// Let the rounds of the heartbeat be answered in time. Then after each
/// number of rounds the session is active; the next heartbeat asks for a
/// ping and not for a shutdown; and at no time before the next pong is due
/// has the timeout run out, so no wait for a frame that runs out before then
/// gives the session up either.
pub proof fn lemma_answered_pings_keep_alive(start: SessionState, rounds: Seq<Round>)
    requires
        start.phase == SessionPhase::Active,
        answered_in_time(start.last_activity, rounds),
    ensures
        forall|k: int|
            0 <= k <= rounds.len() ==> (#[trigger] start.run(
                heartbeat_trace(rounds.take(k)),
            )).phase == SessionPhase::Active,
        forall|k: int|
            0 <= k < rounds.len() ==> (#[trigger] start.run(heartbeat_trace(rounds.take(k)))).on(
                rounds[k].ping_at,
                SessionEvent::HeartbeatDue,
            ).action == SessionAction::SendPing,
        forall|k: int, at: u64|
            0 <= k < rounds.len() && at < rounds[k].ping_at + HEARTBEAT_INTERVAL_MS
                ==> !(#[trigger] start.run(heartbeat_trace(rounds.take(k)))).timed_out(at)
                && (#[trigger] start.run(heartbeat_trace(rounds.take(k))).on(
                at,
                SessionEvent::ReadTimedOut,
            )).state.phase == SessionPhase::Active,
{
    assert forall|k: int| 0 <= k <= rounds.len() implies {
        &&& (#[trigger] start.run(heartbeat_trace(rounds.take(k)))).phase == SessionPhase::Active
        &&& k < rounds.len() ==> start.run(heartbeat_trace(rounds.take(k))).on(
            rounds[k].ping_at,
            SessionEvent::HeartbeatDue,
        ).action == SessionAction::SendPing
        &&& k < rounds.len() ==> forall|at: u64|
            at < rounds[k].ping_at + HEARTBEAT_INTERVAL_MS ==> !start.run(
                heartbeat_trace(rounds.take(k)),
            ).timed_out(at)
    } by {
        let prefix = rounds.take(k);
        assert(answered_in_time(start.last_activity, prefix)) by {
            assert forall|i: int| 0 <= i < prefix.len() implies {
                &&& (#[trigger] prefix[i]).ping_at <= (if i == 0 {
                    start.last_activity
                } else {
                    prefix[i - 1].ping_at
                }) + HEARTBEAT_INTERVAL_MS
                &&& prefix[i].ping_at <= prefix[i].pong_at <= prefix[i].ping_at
                    + HEARTBEAT_INTERVAL_MS
            } by {
                assert(prefix[i] == rounds[i]);
                if i > 0 {
                    assert(prefix[i - 1] == rounds[i - 1]);
                }
            }
        }
        lemma_answered_rounds(start, prefix);
        if 0 < k < rounds.len() {
            assert(prefix.last() == rounds[k - 1]);
            assert(rounds[k - 1].ping_at <= rounds[k - 1].pong_at);
        }
    }
}

} // verus!
