//! Orchestration of a remote task session: the typed control messages that
//! travel beside the task's output, their wire encoding, the state that the
//! progress display keeps, the operator console, the monitor of the runtime
//! event stream and the driver that takes a session from negotiation to
//! destruction.

pub mod wire;
pub mod messages;
pub mod prophecy;
pub mod console;
pub mod progress;
pub mod events;
pub mod driver;
pub mod demand;
pub mod debugger;
