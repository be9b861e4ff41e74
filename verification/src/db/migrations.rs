use vstd::prelude::*;

verus! {

/// Failure while bringing the database schema up to date.
#[derive(Debug, Clone, Copy, PartialEq, Eq, Structural)]
pub enum MigrationError {
    Stub,
}

} // verus!
