//! Host-side bridge to the M8 tracker hardware: SLIP-style frame
//! decoding, the binary display-command protocol, change-tracked
//! outbound UI state, and the session/reconnection state machine.

pub mod error;
pub mod font;
pub mod ports;
pub mod proto;
pub mod session;
pub mod slip;
pub mod value;
