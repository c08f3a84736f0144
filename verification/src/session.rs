//! The life cycle of one client connection.
//!
//! A session is a state machine that the server's driver steps with timed
//! events: a frame came in, the heartbeat timer fired, a ping could not be
//! sent, the wait for the next frame ran out, the transport broke. Each step
//! answers with what the driver has to do next. Time is a count of
//! milliseconds on a monotonic clock of the driver's choosing.
//!
//! ```text
//! Connecting --Started--> Active --close frame, timeout, failure--> Closing --Released--> Closed
//! ```

use vstd::prelude::*;
use crate::input::GamepadCommand;
use crate::store::ControllerState;

verus! {

/// Milliseconds between two heartbeat pings.
pub const HEARTBEAT_INTERVAL_MS: u64 = 5_000;

/// Milliseconds without an inbound frame after which a session is given up.
pub const CLIENT_TIMEOUT_MS: u64 = 10_000;

/// Where a session is in its life.
#[derive(Clone, Copy, Debug, PartialEq, Eq, Structural)]
pub enum SessionPhase {
    /// The transport handshake is done; the driver has not started reading.
    Connecting,
    /// Frames are read and pings are sent.
    Active,
    /// The session has been given up; the driver is stopping its tasks.
    Closing,
    /// Everything is released. Nothing happens to the session any more.
    Closed,
}

/// One inbound frame, as far as a session cares about it.
#[derive(Clone, Copy, Debug, PartialEq, Eq, Structural)]
pub enum Frame {
    /// A text frame that decoded as a gamepad command.
    Command(GamepadCommand),
    /// A text frame that did not decode.
    Malformed,
    /// A ping of the client, which wants a pong.
    Ping,
    /// The client's answer to a ping.
    Pong,
    /// The client says goodbye.
    Close,
    /// Any other frame, such as binary data.
    Other,
}

/// What the driver reports to a session.
#[derive(Clone, Copy, Debug, PartialEq, Eq, Structural)]
pub enum SessionEvent {
    /// The driver has set up reading and the heartbeat.
    Started,
    /// A frame came in.
    Received(Frame),
    /// The heartbeat timer fired.
    HeartbeatDue,
    /// A ping could not be sent.
    PingFailed,
    /// The wait for the next frame ran out.
    ReadTimedOut,
    /// Reading failed, or the stream of frames ended.
    TransportFailed,
    /// The driver has stopped its tasks and released the transport.
    Released,
}

/// What a session asks of the driver in answer to an event.
#[derive(Clone, Copy, Debug, PartialEq, Eq, Structural)]
pub enum SessionAction {
    /// Carry on.
    Nothing,
    /// Send a ping frame.
    SendPing,
    /// Answer the client's ping with a pong frame.
    SendPong,
    /// Stop the heartbeat and the reading, release the transport, and report
    /// [`SessionEvent::Released`]. A session asks for this in every step
    /// that leaves it closing.
    Shutdown,
}

/// The state of a session: its phase and the time of the last inbound frame
/// (or of the start, before the first frame).
#[derive(Clone, Copy, Debug, PartialEq, Eq, Structural)]
pub struct SessionState {
    pub phase: SessionPhase,
    pub last_activity: u64,
}

/// What one step does: the state after it, the action for the driver, and the
/// gamepad command to store, if the step carries one.
pub struct Outcome {
    pub state: SessionState,
    pub action: SessionAction,
    pub command: Option<GamepadCommand>,
}

/// Milliseconds from `earlier` to `now`; zero when `now` is not later.
pub open spec fn elapsed_between(earlier: u64, now: u64) -> int {
    if now >= earlier {
        now - earlier
    } else {
        0
    }
}

impl SessionState {
    /// A session whose transport handshake completed at `now`.
    pub open spec fn connecting(now: u64) -> SessionState {
        SessionState { phase: SessionPhase::Connecting, last_activity: now }
    }

    /// Milliseconds that the session has gone without an inbound frame.
    pub open spec fn idle_for(self, now: u64) -> int {
        elapsed_between(self.last_activity, now)
    }

    /// Whether the inactivity timeout has run out at `now`.
    pub open spec fn timed_out(self, now: u64) -> bool {
        self.idle_for(now) >= CLIENT_TIMEOUT_MS
    }

    /// Milliseconds from `now` until the inactivity timeout runs out.
    pub open spec fn time_left(self, now: u64) -> int {
        if self.timed_out(now) {
            0
        } else {
            CLIENT_TIMEOUT_MS - self.idle_for(now)
        }
    }

    /// The step that changes nothing.
    pub open spec fn ignore(self) -> Outcome {
        Outcome { state: self, action: SessionAction::Nothing, command: None }
    }

    /// The step that notes a frame at `now` and asks for `action`.
    pub open spec fn note_frame(self, now: u64, action: SessionAction) -> Outcome {
        Outcome { state: SessionState { last_activity: now, ..self }, action, command: None }
    }

    /// The step that gives the session up.
    pub open spec fn give_up(self) -> Outcome {
        Outcome {
            state: SessionState { phase: SessionPhase::Closing, ..self },
            action: SessionAction::Shutdown,
            command: None,
        }
    }

    /// What an inbound frame at `now` does to an active session.
    pub open spec fn on_frame(self, now: u64, frame: Frame) -> Outcome {
        match frame {
            Frame::Command(command) => Outcome {
                state: SessionState { last_activity: now, ..self },
                action: SessionAction::Nothing,
                command: Some(command),
            },
            Frame::Malformed => self.note_frame(now, SessionAction::Nothing),
            Frame::Ping => self.note_frame(now, SessionAction::SendPong),
            Frame::Pong => self.note_frame(now, SessionAction::Nothing),
            Frame::Other => self.note_frame(now, SessionAction::Nothing),
            Frame::Close => self.give_up(),
        }
    }

    /// What `event` at `now` does to a session in this state.
    ///
    /// - Connecting: `Started` makes the session active, with `now` as the
    ///   time of its last activity.
    /// - Active: every frame but a close frame is noted as activity; a
    ///   decoded command is handed on to the store; a ping wants a pong; a
    ///   close frame gives the session up. The heartbeat asks for a ping, and
    ///   the end of a wait for a frame asks for nothing, unless the inactivity
    ///   timeout has run out: then either gives the session up. A failure
    ///   gives it up.
    /// - Closing: `Released` closes the session. Whoever reports anything
    ///   else is told once more to shut down, so that every task of the
    ///   driver learns of the end, whichever of them met it first.
    /// - Closed: nothing happens any more.
    ///
    /// Every other event is ignored.
    pub open spec fn on(self, now: u64, event: SessionEvent) -> Outcome {
        match self.phase {
            SessionPhase::Connecting => match event {
                SessionEvent::Started => Outcome {
                    state: SessionState { phase: SessionPhase::Active, last_activity: now },
                    action: SessionAction::Nothing,
                    command: None,
                },
                _ => self.ignore(),
            },
            SessionPhase::Active => match event {
                SessionEvent::Received(frame) => self.on_frame(now, frame),
                SessionEvent::HeartbeatDue => if self.timed_out(now) {
                    self.give_up()
                } else {
                    Outcome { state: self, action: SessionAction::SendPing, command: None }
                },
                SessionEvent::ReadTimedOut => if self.timed_out(now) {
                    self.give_up()
                } else {
                    self.ignore()
                },
                SessionEvent::PingFailed => self.give_up(),
                SessionEvent::TransportFailed => self.give_up(),
                _ => self.ignore(),
            },
            SessionPhase::Closing => match event {
                SessionEvent::Released => Outcome {
                    state: SessionState { phase: SessionPhase::Closed, ..self },
                    action: SessionAction::Nothing,
                    command: None,
                },
                _ => Outcome { state: self, action: SessionAction::Shutdown, command: None },
            },
            SessionPhase::Closed => self.ignore(),
        }
    }
}

/// The gamepad command that a store holds after a step with `outcome`, when
/// it held `before`.
pub open spec fn stored_after(before: GamepadCommand, outcome: Outcome) -> GamepadCommand {
    match outcome.command {
        Some(command) => command,
        None => before,
    }
}

/// Milliseconds from `earlier` to `now`; zero when `now` is not later.
pub fn elapsed_ms(earlier: u64, now: u64) -> (gap: u64)
    ensures
        gap == elapsed_between(earlier, now),
{
    if now >= earlier {
        now - earlier
    } else {
        0
    }
}

/// One client connection.
#[derive(Debug)]
pub struct Session {
    state: SessionState,
}

impl View for Session {
    type V = SessionState;

    closed spec fn view(&self) -> SessionState {
        self.state
    }
}

impl Session {
    /// The session of a connection whose handshake completed at `now`.
    pub fn new(now: u64) -> (session: Session)
        ensures
            session@ == SessionState::connecting(now),
    {
        Session { state: SessionState { phase: SessionPhase::Connecting, last_activity: now } }
    }

    /// A copy of the session's state.
    pub fn state(&self) -> (state: SessionState)
        ensures
            state == self@,
    {
        self.state
    }

    pub fn phase(&self) -> (phase: SessionPhase)
        ensures
            phase == self@.phase,
    {
        self.state.phase
    }

    /// Whether the session reads frames and sends pings.
    pub fn is_active(&self) -> (active: bool)
        ensures
            active == (self@.phase == SessionPhase::Active),
    {
        self.state.phase == SessionPhase::Active
    }

    /// Whether the session has come to its end.
    pub fn is_closed(&self) -> (closed: bool)
        ensures
            closed == (self@.phase == SessionPhase::Closed),
    {
        self.state.phase == SessionPhase::Closed
    }

    /// Whether the inactivity timeout has run out at `now`.
    pub fn timed_out(&self, now: u64) -> (expired: bool)
        ensures
            expired == self@.timed_out(now),
    {
        elapsed_ms(self.state.last_activity, now) >= CLIENT_TIMEOUT_MS
    }

    /// Milliseconds from `now` until the inactivity timeout runs out: how
    /// long the driver may wait for the next frame.
    pub fn time_left(&self, now: u64) -> (left: u64)
        ensures
            left == self@.time_left(now),
    {
        let idle: u64 = elapsed_ms(self.state.last_activity, now);
        if idle >= CLIENT_TIMEOUT_MS {
            0
        } else {
            CLIENT_TIMEOUT_MS - idle
        }
    }

    /// Takes one step: `event` happened at `now`.
    ///
    /// The session moves as [`SessionState::on`] says and the action of that
    /// step is returned. A decoded gamepad command replaces what `store`
    /// holds; after every other step `store` holds what it held before.
    pub fn step(&mut self, now: u64, event: SessionEvent, store: &mut ControllerState) -> (action:
        SessionAction)
        ensures
            final(self)@ == old(self)@.on(now, event).state,
            action == old(self)@.on(now, event).action,
            final(store)@ == stored_after(old(store)@, old(self)@.on(now, event)),
    {
        match self.state.phase {
            SessionPhase::Connecting => match event {
                SessionEvent::Started => {
                    self.state = SessionState { phase: SessionPhase::Active, last_activity: now };
                    SessionAction::Nothing
                },
                _ => SessionAction::Nothing,
            },
            SessionPhase::Active => match event {
                SessionEvent::Received(frame) => match frame {
                    Frame::Command(command) => {
                        store.update(command);
                        self.state.last_activity = now;
                        SessionAction::Nothing
                    },
                    Frame::Ping => {
                        self.state.last_activity = now;
                        SessionAction::SendPong
                    },
                    Frame::Malformed | Frame::Pong | Frame::Other => {
                        self.state.last_activity = now;
                        SessionAction::Nothing
                    },
                    Frame::Close => self.give_up(),
                },
                SessionEvent::HeartbeatDue => if self.timed_out(now) {
                    self.give_up()
                } else {
                    SessionAction::SendPing
                },
                SessionEvent::ReadTimedOut => if self.timed_out(now) {
                    self.give_up()
                } else {
                    SessionAction::Nothing
                },
                SessionEvent::PingFailed | SessionEvent::TransportFailed => self.give_up(),
                _ => SessionAction::Nothing,
            },
            SessionPhase::Closing => match event {
                SessionEvent::Released => {
                    self.state.phase = SessionPhase::Closed;
                    SessionAction::Nothing
                },
                _ => SessionAction::Shutdown,
            },
            SessionPhase::Closed => SessionAction::Nothing,
        }
    }

    fn give_up(&mut self) -> (action: SessionAction)
        ensures
            final(self)@ == old(self)@.give_up().state,
            action == SessionAction::Shutdown,
    {
        self.state.phase = SessionPhase::Closing;
        SessionAction::Shutdown
    }
}

} // verus!
