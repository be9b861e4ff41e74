//! Socket-side pieces: NDJSON framing and the errors of the control server.

pub mod control;
pub mod framing;
