//! What holds of every run of the core.
//!
//! The operations of the store, the queue and the sessions say what one call
//! does. The laws here speak of whole runs: any sequence of calls, from any
//! mix of sessions, in any interleaving. Each is a proof function; its
//! parameters are what the law holds for.

pub mod fifo;
pub mod isolation;
pub mod last_write;
pub mod lifecycle;
pub mod timeout;
