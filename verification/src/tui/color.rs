//! The dashboard's colour groups and status symbols (256-colour palette:
//! working 71, waiting 178, errored 167, idle 244).
use crate::protocol::SessionStatus;
use vstd::prelude::*;

verus! {

/// Colour group of a session status; `Starting` and `Finished` share the
/// idle colour.
#[derive(Debug, Clone, Copy, PartialEq, Eq, Structural)]
pub enum StatusColor {
    /// Working.
    Working,
    /// Waiting for the user.
    Waiting,
    /// Errored.
    Errored,
    /// Idle, starting or finished.
    Idle,
}

/// The colour group of a status.
pub open spec fn color_of(status: SessionStatus) -> StatusColor {
    match status {
        SessionStatus::Working => StatusColor::Working,
        SessionStatus::WaitingForUser => StatusColor::Waiting,
        SessionStatus::Errored => StatusColor::Errored,
        _ => StatusColor::Idle,
    }
}

/// The colour group of a status.
pub fn color_for(status: SessionStatus) -> (c: StatusColor)
    ensures
        c == color_of(status),
{
    match status {
        SessionStatus::Working => StatusColor::Working,
        SessionStatus::WaitingForUser => StatusColor::Waiting,
        SessionStatus::Errored => StatusColor::Errored,
        _ => StatusColor::Idle,
    }
}

/// The palette index of a colour group.
pub open spec fn palette_index(c: StatusColor) -> u8 {
    match c {
        StatusColor::Working => 71,
        StatusColor::Waiting => 178,
        StatusColor::Errored => 167,
        StatusColor::Idle => 244,
    }
}

/// The 256-colour palette index a group is drawn in.
pub fn color_index(c: StatusColor) -> (i: u8)
    ensures
        i == palette_index(c),
{
    match c {
        StatusColor::Working => 71,
        StatusColor::Waiting => 178,
        StatusColor::Errored => 167,
        StatusColor::Idle => 244,
    }
}

/// The symbol of a status (shown whatever the colours).
pub open spec fn symbol_of(status: SessionStatus) -> Seq<char> {
    match status {
        SessionStatus::Working => "●"@,
        SessionStatus::WaitingForUser => "⚠"@,
        SessionStatus::Errored => "✕"@,
        _ => "◌"@,
    }
}

/// The symbol of a status.
pub fn symbol_for(status: SessionStatus) -> (s: &'static str)
    ensures
        s@ == symbol_of(status),
{
    match status {
        SessionStatus::Working => "●",
        SessionStatus::WaitingForUser => "⚠",
        SessionStatus::Errored => "✕",
        _ => "◌",
    }
}

} // verus!
