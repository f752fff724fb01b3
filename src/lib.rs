//! Control core for a television mediator: the television's byte-oriented
//! serial protocol, and the state machine that turns remote-control, panel
//! and automation-bus events into device commands and notifications.

pub mod bus;
pub mod mediator;
pub mod outbox;
pub mod panel;
pub mod protocol;
pub mod state;
pub mod text_dialect;
