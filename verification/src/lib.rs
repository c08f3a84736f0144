//! The synchronisation core of a remote game controller.
//!
//! A web client streams joystick positions, touch gestures and discrete
//! actions to a server; a local consumer polls the latest state. This crate
//! holds the parts of that server which decide something: the store of the
//! latest input, the queue of submitted actions, the life cycle of one client
//! connection with its heartbeat and inactivity timeout, and the handle
//! through which the consumer reads. It performs no I/O: a driver feeds it
//! events and carries out the actions it returns.

pub mod assets;
pub mod config;
pub mod handle;
pub mod input;
pub mod laws;
pub mod queue;
pub mod session;
pub mod store;

pub use assets::{content_kind, static_reply, ContentKind, StaticReply};
pub use config::{Action, ActionList, ActionView, AreaSize};
pub use handle::{Disconnected, StateHandle};
pub use input::{CanvasTouch, GamepadCommand};
pub use queue::{ActionQueue, QueueError};
pub use session::{
    Frame, Session, SessionAction, SessionEvent, SessionPhase, SessionState, CLIENT_TIMEOUT_MS,
    HEARTBEAT_INTERVAL_MS,
};
pub use store::{ControllerState, StateStore};
