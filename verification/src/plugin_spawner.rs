//! Starting plugin child processes: what can go wrong.
use vstd::prelude::*;

verus! {

/// Failures of starting a plugin child.
#[derive(Debug, PartialEq)]
pub enum SpawnError {
    /// The plugin binary does not exist: its path.
    NotFound(String),
    /// Starting the process failed: the system error's text.
    Io(String),
}

impl SpawnError {
    /// The error's message, as the daemon logs it.
    pub fn describe(&self) -> (r: String)
        ensures
            r@ == match self {
                SpawnError::NotFound(p) => "plugin binary not found: "@ + p@,
                SpawnError::Io(e) => "io: "@ + e@,
            },
    {
        match self {
            SpawnError::NotFound(p) => {
                let r = String::from_str("plugin binary not found: ").concat(p.as_str());
                proof {
                    reveal_strlit("plugin binary not found: ");
                }
                r
            },
            SpawnError::Io(e) => {
                let r = String::from_str("io: ").concat(e.as_str());
                proof {
                    reveal_strlit("io: ");
                }
                r
            },
        }
    }
}

} // verus!
