//! The vocabulary shared by the daemon, its clients and its plugins:
//! session states, agent kinds, sessions, JSON-RPC method names and errors.
use crate::json::{JsonNumber, JsonValue};
use crate::text::str_eq;
use vstd::prelude::*;

verus! {

/// Lifecycle state of a session. On the wire each state is its snake_case name.
#[derive(Debug, Clone, Copy, PartialEq, Eq, Hash, Structural)]
pub enum SessionStatus {
    Starting,
    Idle,
    Working,
    WaitingForUser,
    Errored,
    Finished,
}

impl SessionStatus {
    /// The wire name of the state.
    pub open spec fn wire_name(self) -> Seq<char> {
        match self {
            SessionStatus::Starting => "starting"@,
            SessionStatus::Idle => "idle"@,
            SessionStatus::Working => "working"@,
            SessionStatus::WaitingForUser => "waiting_for_user"@,
            SessionStatus::Errored => "errored"@,
            SessionStatus::Finished => "finished"@,
        }
    }

    /// The state whose wire name is `s`, if any.
    pub open spec fn from_wire_spec(s: Seq<char>) -> Option<SessionStatus> {
        if s == "starting"@ {
            Some(SessionStatus::Starting)
        } else if s == "idle"@ {
            Some(SessionStatus::Idle)
        } else if s == "working"@ {
            Some(SessionStatus::Working)
        } else if s == "waiting_for_user"@ {
            Some(SessionStatus::WaitingForUser)
        } else if s == "errored"@ {
            Some(SessionStatus::Errored)
        } else if s == "finished"@ {
            Some(SessionStatus::Finished)
        } else {
            None
        }
    }

    /// Whether a session in this state is over for good.
    pub open spec fn spec_is_terminal(self) -> bool {
        self == SessionStatus::Finished
    }

    /// The wire name of the state (its `Display` form).
    pub fn as_str(&self) -> (r: &'static str)
        ensures
            r@ == self.wire_name(),
    {
        match self {
            SessionStatus::Starting => "starting",
            SessionStatus::Idle => "idle",
            SessionStatus::Working => "working",
            SessionStatus::WaitingForUser => "waiting_for_user",
            SessionStatus::Errored => "errored",
            SessionStatus::Finished => "finished",
        }
    }

    /// Parse a wire name.
    pub fn from_wire(s: &str) -> (r: Option<SessionStatus>)
        ensures
            r == Self::from_wire_spec(s@),
    {
        if str_eq(s, "starting") {
            Some(SessionStatus::Starting)
        } else if str_eq(s, "idle") {
            Some(SessionStatus::Idle)
        } else if str_eq(s, "working") {
            Some(SessionStatus::Working)
        } else if str_eq(s, "waiting_for_user") {
            Some(SessionStatus::WaitingForUser)
        } else if str_eq(s, "errored") {
            Some(SessionStatus::Errored)
        } else if str_eq(s, "finished") {
            Some(SessionStatus::Finished)
        } else {
            None
        }
    }

    /// Whether a session in this state is over for good.
    pub fn is_terminal(&self) -> (r: bool)
        ensures
            r == self.spec_is_terminal(),
    {
        match self {
            SessionStatus::Finished => true,
            _ => false,
        }
    }
}

/// Which coding agent runs in a session. On the wire: its kebab-case name.
#[derive(Debug, Clone, Copy, PartialEq, Eq, Hash, Structural)]
pub enum AgentType {
    Opencode,
    ClaudeCode,
    Codex,
    Aider,
}

impl AgentType {
    /// The wire name of the agent kind.
    pub open spec fn wire_name(self) -> Seq<char> {
        match self {
            AgentType::Opencode => "opencode"@,
            AgentType::ClaudeCode => "anthropic-code"@,
            AgentType::Codex => "codex"@,
            AgentType::Aider => "aider"@,
        }
    }

    /// The agent kind whose wire name is `s`, if any.
    pub open spec fn from_wire_spec(s: Seq<char>) -> Option<AgentType> {
        if s == "opencode"@ {
            Some(AgentType::Opencode)
        } else if s == "anthropic-code"@ {
            Some(AgentType::ClaudeCode)
        } else if s == "codex"@ {
            Some(AgentType::Codex)
        } else if s == "aider"@ {
            Some(AgentType::Aider)
        } else {
            None
        }
    }

    /// The wire name of the agent kind.
    pub fn as_str(&self) -> (r: &'static str)
        ensures
            r@ == self.wire_name(),
    {
        match self {
            AgentType::Opencode => "opencode",
            AgentType::ClaudeCode => "anthropic-code",
            AgentType::Codex => "codex",
            AgentType::Aider => "aider",
        }
    }

    /// Parse a wire name.
    pub fn from_wire(s: &str) -> (r: Option<AgentType>)
        ensures
            r == Self::from_wire_spec(s@),
    {
        if str_eq(s, "opencode") {
            Some(AgentType::Opencode)
        } else if str_eq(s, "anthropic-code") {
            Some(AgentType::ClaudeCode)
        } else if str_eq(s, "codex") {
            Some(AgentType::Codex)
        } else if str_eq(s, "aider") {
            Some(AgentType::Aider)
        } else {
            None
        }
    }
}

/// How a session came to be known to the daemon.
#[derive(Debug, Clone, Copy, PartialEq, Eq, Hash, Structural)]
pub enum SessionSource {
    /// Created by a client (`session.create`).
    Cli,
    /// Reported by a plugin that found the agent running (`session.discover`).
    Discovered,
}

impl SessionSource {
    /// The wire name of the source.
    pub open spec fn wire_name(self) -> Seq<char> {
        match self {
            SessionSource::Cli => "cli"@,
            SessionSource::Discovered => "discovered"@,
        }
    }

    /// The wire name of the source.
    pub fn as_str(&self) -> (r: &'static str)
        ensures
            r@ == self.wire_name(),
    {
        match self {
            SessionSource::Cli => "cli",
            SessionSource::Discovered => "discovered",
        }
    }
}

/// A UTC instant: whole seconds since the Unix epoch and the nanoseconds
/// past that second.
#[derive(Debug, Clone, Copy, PartialEq, Eq, PartialOrd, Ord, Hash, Structural)]
pub struct Timestamp {
    pub secs: i64,
    pub nanos: u32,
}

impl Timestamp {
    /// Strict chronological order (seconds first, then nanoseconds).
    pub open spec fn is_after(self, other: Timestamp) -> bool {
        self.secs > other.secs || (self.secs == other.secs && self.nanos > other.nanos)
    }

    /// Whether `self` is strictly later than `other`.
    pub fn after(&self, other: &Timestamp) -> (r: bool)
        ensures
            r == self.is_after(*other),
    {
        self.secs > other.secs || (self.secs == other.secs && self.nanos > other.nanos)
    }
}

/// One agent session as the daemon stores and reports it.
#[derive(Debug, PartialEq)]
pub struct Session {
    /// UUID of the session, as its 128-bit value.
    pub id: u128,
    pub agent_type: AgentType,
    pub working_dir: String,
    pub tmux_session: Option<String>,
    pub tmux_pane_id: Option<String>,
    pub display_name: String,
    pub status: SessionStatus,
    pub current_task: Option<String>,
    pub model: Option<String>,
    pub context_used_tokens: Option<u64>,
    pub context_total_tokens: Option<u64>,
    /// Spend in US dollars, as the JSON number that reported it.
    pub cost_usd: Option<JsonNumber>,
    pub source: SessionSource,
    pub created_at: Timestamp,
    pub last_event_at: Option<Timestamp>,
    pub finished_at: Option<Timestamp>,
    /// Free-form JSON metadata (`{"plugin": name}` for discovered sessions).
    pub metadata: JsonValue,
}

/// A plugin as the daemon reports it (one row of its `plugins` table).
pub type Plugin = crate::db::repo::PluginRecord;

/// Failures a JSON-RPC call can answer with.
#[derive(Debug, Clone, Copy, PartialEq, Eq, Structural)]
pub enum ProtocolError {
    InvalidRequest,
    MethodNotFound,
    InvalidParams,
    InternalError,
    SessionNotFound,
    PluginNotAllowed,
}

impl ProtocolError {
    /// The JSON-RPC error code of the failure.
    pub open spec fn spec_code(self) -> int {
        match self {
            ProtocolError::InvalidRequest => -32600,
            ProtocolError::MethodNotFound => -32601,
            ProtocolError::InvalidParams => -32602,
            ProtocolError::InternalError => -32603,
            ProtocolError::SessionNotFound => -32001,
            ProtocolError::PluginNotAllowed => -32002,
        }
    }

    /// The human-readable message of the failure.
    pub open spec fn spec_message(self) -> Seq<char> {
        match self {
            ProtocolError::InvalidRequest => "invalid request"@,
            ProtocolError::MethodNotFound => "method not found"@,
            ProtocolError::InvalidParams => "invalid params"@,
            ProtocolError::InternalError => "internal error"@,
            ProtocolError::SessionNotFound => "session not found"@,
            ProtocolError::PluginNotAllowed => "plugin not allowed"@,
        }
    }

    /// The JSON-RPC error code of the failure.
    pub fn code(&self) -> (r: i64)
        ensures
            r == self.spec_code(),
    {
        match self {
            ProtocolError::InvalidRequest => -32600,
            ProtocolError::MethodNotFound => -32601,
            ProtocolError::InvalidParams => -32602,
            ProtocolError::InternalError => -32603,
            ProtocolError::SessionNotFound => -32001,
            ProtocolError::PluginNotAllowed => -32002,
        }
    }

    /// The human-readable message of the failure (its `Display` form).
    pub fn message(&self) -> (r: &'static str)
        ensures
            r@ == self.spec_message(),
    {
        match self {
            ProtocolError::InvalidRequest => "invalid request",
            ProtocolError::MethodNotFound => "method not found",
            ProtocolError::InvalidParams => "invalid params",
            ProtocolError::InternalError => "internal error",
            ProtocolError::SessionNotFound => "session not found",
            ProtocolError::PluginNotAllowed => "plugin not allowed",
        }
    }
}

/// A JSON-RPC error as a response carries it: code and message.
#[derive(Debug, PartialEq)]
pub struct ProtocolErrorWithMessage {
    pub code: i64,
    pub message: String,
}

/// JSON-RPC method names.
pub struct Method;

impl Method {
    pub const SESSION_CREATE: &'static str = "session.create";
    pub const SESSION_RENAME: &'static str = "session.rename";
    pub const SESSION_DISMISS_ERROR: &'static str = "session.dismiss_error";
    pub const SESSION_JUMP: &'static str = "session.jump";
    pub const SESSION_KILL: &'static str = "session.kill";
    pub const SESSION_GET: &'static str = "session.get";
    pub const SESSION_EVENTS: &'static str = "session.events";
    pub const SESSION_LIST_ACTIVE: &'static str = "session.list_active";
    pub const SESSION_DISCOVER: &'static str = "session.discover";
    pub const SESSION_REPORT_EVENT: &'static str = "session.report_event";
    pub const STATE_SNAPSHOT: &'static str = "state.snapshot";
    pub const DAEMON_SHUTDOWN: &'static str = "daemon.shutdown";
    pub const DAEMON_STATUS: &'static str = "daemon.status";
    pub const PLUGIN_LIST: &'static str = "plugin.list";
    pub const PLUGIN_HELLO: &'static str = "plugin.hello";
    pub const PLUGIN_HEARTBEAT: &'static str = "plugin.heartbeat";
    pub const PLUGIN_BYE: &'static str = "plugin.bye";
    pub const METRICS: &'static str = "metrics";
}

/// Wire names decode back to the value they were made from.
pub proof fn lemma_status_wire_roundtrip(s: SessionStatus)
    ensures
        SessionStatus::from_wire_spec(s.wire_name()) == Some(s),
{
    reveal_strlit("starting");
    reveal_strlit("idle");
    reveal_strlit("working");
    reveal_strlit("waiting_for_user");
    reveal_strlit("errored");
    reveal_strlit("finished");
    assert("idle"@.len() != "starting"@.len());
    assert("working"@.len() != "starting"@.len() && "working"@.len() != "idle"@.len());
    assert("waiting_for_user"@.len() != "starting"@.len() && "waiting_for_user"@.len()
        != "idle"@.len() && "waiting_for_user"@.len() != "working"@.len());
    assert("errored"@.len() != "starting"@.len() && "errored"@.len() != "idle"@.len()
        && "errored"@[0] != "working"@[0] && "errored"@.len() != "waiting_for_user"@.len());
    assert("finished"@[0] != "starting"@[0] && "finished"@.len() != "idle"@.len()
        && "finished"@.len() != "working"@.len() && "finished"@.len()
        != "waiting_for_user"@.len() && "finished"@.len() != "errored"@.len());
}

/// Agent wire names decode back to the kind they were made from.
pub proof fn lemma_agent_wire_roundtrip(a: AgentType)
    ensures
        AgentType::from_wire_spec(a.wire_name()) == Some(a),
{
    reveal_strlit("opencode");
    reveal_strlit("anthropic-code");
    reveal_strlit("codex");
    reveal_strlit("aider");
    assert("anthropic-code"@.len() != "opencode"@.len());
    assert("codex"@.len() != "opencode"@.len() && "codex"@.len() != "anthropic-code"@.len());
    assert("aider"@.len() != "opencode"@.len() && "aider"@.len() != "anthropic-code"@.len()
        && "aider"@[0] != "codex"@[0]);
}

} // verus!
