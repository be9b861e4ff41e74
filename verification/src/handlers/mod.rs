//! JSON-RPC handlers of the control and plugin sockets. Each handler is a
//! small machine: it reads the request, asks for database work one call at
//! a time ([`DbCall`]), is resumed with the database's answer ([`DbReply`]),
//! and ends with a [`Reply`].

pub mod mutate;
pub mod plugin_handlers;
pub mod read;
pub mod router;
pub mod subscriber_registry;

use crate::json::{JsonNumber, JsonValue};
use crate::protocol::{AgentType, ProtocolError, Session, SessionSource, SessionStatus, Timestamp};
use vstd::prelude::*;

verus! {

/// A piece of work for the state database.
#[derive(Debug, PartialEq)]
pub enum DbCall {
    /// Insert a new session row.
    InsertSession(Session),
    /// Read the session row with this id.
    GetSession(u128),
    /// Append an event row for a session.
    InsertEvent { session_id: u128, kind: String, payload: JsonValue },
    /// Set a session's status (and its last activity to the time of the write).
    UpdateStatus { id: u128, status: SessionStatus },
    /// Set a session's current task.
    UpdateTask { id: u128, task: String },
    /// Set a session's token usage and cost.
    UpdateUsage { id: u128, used: Option<u64>, total: Option<u64>, cost: Option<JsonNumber> },
    /// Mark a session finished.
    MarkFinished(u128),
    /// Set a session's display name.
    UpdateRename { id: u128, name: String },
    /// Insert or update a plugin row.
    UpsertPlugin { name: String, binary: String, socket_name: String, autostart: bool },
    /// Record when a plugin last connected.
    SetLastConnected { name: String, at: Timestamp },
}

/// The database's answer to a [`DbCall`].
#[derive(Debug, PartialEq)]
pub enum DbReply {
    /// The call failed.
    Failed,
    /// A write succeeded.
    Done,
    /// `InsertSession` succeeded; the inserted session is handed back.
    Inserted(Session),
    /// `GetSession` succeeded; the row, if there is one.
    Found(Option<Session>),
}

/// How a handler answers.
#[derive(Debug, PartialEq)]
pub enum Reply {
    /// This JSON value is the result.
    Value(JsonValue),
    /// This session, encoded as JSON, is the result (an encoding failure
    /// answers `InternalError`).
    Session(Session),
    /// The call fails with this error.
    Error(ProtocolError),
}

/// What a handler does next.
#[derive(Debug, PartialEq)]
pub enum Next {
    Call(DbCall),
    Answer(Reply),
}

/// `s` is a session just made: the given identity, agent, directory, name,
/// origin and creation time, status `Starting`, no tmux binding, nothing
/// else known yet.
pub open spec fn is_fresh_session(
    s: Session,
    id: u128,
    agent: AgentType,
    working_dir: Seq<char>,
    name: Seq<char>,
    source: SessionSource,
    now: Timestamp,
) -> bool {
    &&& is_new_session(s, id, agent, working_dir, name, source, now)
    &&& s.tmux_session is None
    &&& s.tmux_pane_id is None
}

/// `s` is a session just made (whatever its tmux binding).
pub open spec fn is_new_session(
    s: Session,
    id: u128,
    agent: AgentType,
    working_dir: Seq<char>,
    name: Seq<char>,
    source: SessionSource,
    now: Timestamp,
) -> bool {
    &&& s.id == id
    &&& s.agent_type == agent
    &&& s.working_dir@ == working_dir
    &&& s.display_name@ == name
    &&& s.status == SessionStatus::Starting
    &&& s.source == source
    &&& s.created_at == now
    &&& s.current_task is None
    &&& s.model is None
    &&& s.context_used_tokens is None
    &&& s.context_total_tokens is None
    &&& s.cost_usd is None
    &&& s.last_event_at is None
    &&& s.finished_at is None
}

/// A session just made, with the given metadata.
pub fn fresh_session(
    id: u128,
    agent: AgentType,
    working_dir: String,
    name: String,
    source: SessionSource,
    now: Timestamp,
    metadata: JsonValue,
) -> (s: Session)
    ensures
        is_fresh_session(s, id, agent, working_dir@, name@, source, now),
        s.metadata == metadata,
{
    Session {
        id,
        agent_type: agent,
        working_dir,
        tmux_session: None,
        tmux_pane_id: None,
        display_name: name,
        status: SessionStatus::Starting,
        current_task: None,
        model: None,
        context_used_tokens: None,
        context_total_tokens: None,
        cost_usd: None,
        source,
        created_at: now,
        last_event_at: None,
        finished_at: None,
        metadata,
    }
}

} // verus!
