use vstd::prelude::*;

verus! {

/// Failures of the control socket server.
#[derive(Debug, PartialEq)]
pub enum ControlError {
    /// A socket or file operation failed (the system error's text).
    Io(String),
    /// The peer's credentials could not be read.
    PeerCred(String),
}

} // verus!
