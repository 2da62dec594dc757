//! Errors surfaced by discovery and by the device session.

use vstd::prelude::*;
use crate::proto::Violation;

verus! {

/// What discovery or a session read/write can report. A lost
/// connection is not an error: the session absorbs it into its own
/// state and keeps polling.
#[derive(Debug)]
pub enum Error {
    /// Discovery found no port with the device's USB identity.
    DeviceNotFound,
    /// The named port does not exist.
    PortNotFound,
    /// A frame violated the command protocol; non-fatal.
    Protocol(Violation),
    /// A transport read failed for a reason other than a lost device.
    ReadFailed(String),
    /// A transport write sent fewer bytes than asked.
    WriteFailed,
}

} // verus!
