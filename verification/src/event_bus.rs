//! Events the daemon pushes to its subscribers.
use crate::json::JsonValue;
use crate::protocol::Timestamp;
use vstd::prelude::*;

verus! {

/// One event on the bus.
#[derive(Debug, PartialEq)]
pub struct Event {
    /// Method name without the `event.` prefix (e.g. `session.status_changed`).
    pub kind: String,
    /// UUID of the session the event is about, if any.
    pub session_id: Option<u128>,
    /// Event-specific payload.
    pub payload: JsonValue,
    /// When the daemon received or processed the event.
    pub ts: Timestamp,
}

} // verus!
