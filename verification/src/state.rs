//! A snapshot of every session and plugin the daemon knows.
use crate::db::repo::{PluginRecord, RepoError};
use crate::protocol::Session;
use vstd::prelude::*;

verus! {

/// Failures of taking a snapshot.
#[derive(Debug, PartialEq)]
pub enum StateError {
    /// The sessions or plugins could not be read.
    Repo(RepoError),
}

/// Sessions and plugins, as stored.
#[derive(Debug, PartialEq)]
pub struct State {
    pub sessions: Vec<Session>,
    pub plugins: Vec<PluginRecord>,
}

impl Default for State {
    fn default() -> (s: State)
        ensures
            s.sessions@.len() == 0,
            s.plugins@.len() == 0,
    {
        State { sessions: Vec::new(), plugins: Vec::new() }
    }
}

} // verus!
