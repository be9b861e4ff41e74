//! Mutating methods of the control socket: `session.create`,
//! `session.rename`, `session.dismiss_error`, `session.jump`,
//! `session.kill` and `daemon.shutdown`.
use crate::handlers::{fresh_session, is_fresh_session, DbCall, DbReply, Next, Reply};
use crate::ids::{new_uuid_v7, parse_uuid, utc_now, uuid_from_text};
use crate::json::{member, JsonValue};
use crate::protocol::{AgentType, ProtocolError, SessionSource, SessionStatus, Timestamp};
use crate::text::{owned, str_eq};
use crate::tui::input::{default_name, default_session_name};
use vstd::prelude::*;

verus! {

/// Result of a mutating method: the JSON result or the error to answer.
#[derive(Debug, PartialEq)]
pub enum MutateResult {
    Success(JsonValue),
    Failure(ProtocolError),
}

impl MutateResult {
    /// The result value, if the call succeeded.
    pub fn into_value(self) -> (r: Option<JsonValue>)
        ensures
            match self {
                MutateResult::Success(v) => r == Some(v),
                MutateResult::Failure(_) => r is None,
            },
    {
        match self {
            MutateResult::Success(v) => Some(v),
            _ => None,
        }
    }

    /// The error, if the call failed.
    pub fn into_err(self) -> (r: Option<ProtocolError>)
        ensures
            match self {
                MutateResult::Failure(e) => r == Some(e),
                MutateResult::Success(_) => r is None,
            },
    {
        match self {
            MutateResult::Failure(e) => Some(e),
            _ => None,
        }
    }
}

/// Where a mutating call stands between database calls.
#[derive(Debug, Clone, Copy, PartialEq, Eq, Structural)]
pub enum MutateStage {
    /// Answered; nothing to resume.
    Done,
    /// Waiting for the new session's insert.
    AwaitCreate,
    /// Waiting for the rename of this session.
    AwaitRename(u128),
    /// Waiting for the renamed session's row.
    AwaitRenamedSession,
    /// Waiting for the row of the session whose error is dismissed.
    AwaitDismissLookup(u128),
    /// Waiting for the status reset of this session.
    AwaitDismissUpdate(u128),
    /// Waiting for the row of the session whose error was dismissed.
    AwaitDismissedSession,
}

/// How a mutating call starts: its stage, what it does first, and whether
/// it asks the daemon to shut down.
#[derive(Debug, PartialEq)]
pub struct Dispatched {
    pub stage: MutateStage,
    pub next: Next,
    pub shutdown: bool,
}

/// What `session.create` reads from its params: agent kind, working
/// directory and display name (the `name` param, else the last component
/// of the directory, else `session`).
pub open spec fn create_request(params: JsonValue) -> Result<
    (AgentType, Seq<char>, Seq<char>),
    ProtocolError,
> {
    match params.str_field("agent_type"@) {
        None => Err(ProtocolError::InvalidParams),
        Some(a) => match AgentType::from_wire_spec(a) {
            None => Err(ProtocolError::InvalidParams),
            Some(agent) => match params.str_field("working_dir"@) {
                None => Err(ProtocolError::InvalidParams),
                Some(wd) => Ok(
                    (
                        agent,
                        wd,
                        match params.str_field("name"@) {
                            Some(n) => n,
                            None => default_name(wd),
                        },
                    ),
                ),
            },
        },
    }
}

/// What `session.rename` reads from its params: session id and new name.
pub open spec fn rename_request(params: JsonValue) -> Result<(u128, Seq<char>), ProtocolError> {
    match params.str_field("id"@) {
        None => Err(ProtocolError::InvalidParams),
        Some(i) => match params.str_field("name"@) {
            None => Err(ProtocolError::InvalidParams),
            Some(n) => match uuid_from_text(i) {
                None => Err(ProtocolError::InvalidParams),
                Some(id) => Ok((id, n)),
            },
        },
    }
}

/// What `session.dismiss_error` reads from its params: the session id.
pub open spec fn id_request(params: JsonValue) -> Result<u128, ProtocolError> {
    match params.str_field("id"@) {
        None => Err(ProtocolError::InvalidParams),
        Some(i) => match uuid_from_text(i) {
            None => Err(ProtocolError::InvalidParams),
            Some(id) => Ok(id),
        },
    }
}

/// An object without members.
pub open spec fn is_empty_object(v: JsonValue) -> bool {
    v matches JsonValue::Object(f) && f@.len() == 0
}

/// The result of `daemon.shutdown`: `{"ok": true}`.
pub open spec fn is_ok_true(v: JsonValue) -> bool {
    v matches JsonValue::Object(f) && f@.len() == 1 && f@[0].0@ == "ok"@ && f@[0].1
        == JsonValue::Bool(true)
}

/// The start of a mutating call, by method.
pub open spec fn dispatch_spec(
    method: Seq<char>,
    params: JsonValue,
    new_id: u128,
    now: Timestamp,
    d: Dispatched,
) -> bool {
    &&& d.shutdown == (method == "daemon.shutdown"@)
    &&& if method == "session.create"@ {
        match create_request(params) {
            Err(e) => d.stage == MutateStage::Done && d.next == Next::Answer(Reply::Error(e)),
            Ok((agent, wd, name)) => {
                &&& d.stage == MutateStage::AwaitCreate
                &&& d.next matches Next::Call(DbCall::InsertSession(s)) && is_fresh_session(
                    s,
                    new_id,
                    agent,
                    wd,
                    name,
                    SessionSource::Cli,
                    now,
                ) && is_empty_object(s.metadata)
            },
        }
    } else if method == "session.rename"@ {
        match rename_request(params) {
            Err(e) => d.stage == MutateStage::Done && d.next == Next::Answer(Reply::Error(e)),
            Ok((id, name)) => {
                &&& d.stage == MutateStage::AwaitRename(id)
                &&& d.next matches Next::Call(DbCall::UpdateRename { id: i, name: n }) && i == id
                    && n@ == name
            },
        }
    } else if method == "session.dismiss_error"@ {
        match id_request(params) {
            Err(e) => d.stage == MutateStage::Done && d.next == Next::Answer(Reply::Error(e)),
            Ok(id) => d.stage == MutateStage::AwaitDismissLookup(id) && d.next == Next::Call(
                DbCall::GetSession(id),
            ),
        }
    } else if method == "session.jump"@ || method == "session.kill"@ {
        d.stage == MutateStage::Done && d.next == Next::Answer(
            Reply::Error(ProtocolError::InternalError),
        )
    } else if method == "daemon.shutdown"@ {
        &&& d.stage == MutateStage::Done
        &&& d.next matches Next::Answer(Reply::Value(v)) && is_ok_true(v)
    } else {
        d.stage == MutateStage::Done && d.next == Next::Answer(
            Reply::Error(ProtocolError::MethodNotFound),
        )
    }
}

fn start_create(params: &JsonValue, new_id: u128, now: Timestamp) -> (d: Dispatched)
    ensures
        dispatch_spec("session.create"@, *params, new_id, now, d),
{
    proof {
        reveal_strlit("session.create");
        reveal_strlit("daemon.shutdown");
        assert("session.create"@.len() != "daemon.shutdown"@.len());
    }
    let fail = Dispatched {
        stage: MutateStage::Done,
        next: Next::Answer(Reply::Error(ProtocolError::InvalidParams)),
        shutdown: false,
    };
    let agent = match params.get_str("agent_type") {
        Some(a) => match AgentType::from_wire(a) {
            Some(agent) => agent,
            None => return fail,
        },
        None => return fail,
    };
    let wd = match params.get_str("working_dir") {
        Some(w) => w,
        None => return fail,
    };
    let name = match params.get_str("name") {
        Some(n) => owned(n),
        None => default_session_name(wd),
    };
    let s = fresh_session(
        new_id,
        agent,
        owned(wd),
        name,
        SessionSource::Cli,
        now,
        JsonValue::Object(Vec::new()),
    );
    Dispatched {
        stage: MutateStage::AwaitCreate,
        next: Next::Call(DbCall::InsertSession(s)),
        shutdown: false,
    }
}

fn start_rename(params: &JsonValue) -> (d: Dispatched)
    ensures
        dispatch_spec("session.rename"@, *params, 0, Timestamp { secs: 0, nanos: 0 }, d),
{
    proof {
        reveal_strlit("session.rename");
        reveal_strlit("session.create");
        reveal_strlit("daemon.shutdown");
        assert("session.rename"@.len() != "daemon.shutdown"@.len());
        assert("session.rename"@[8] != "session.create"@[8]);
    }
    let fail = Dispatched {
        stage: MutateStage::Done,
        next: Next::Answer(Reply::Error(ProtocolError::InvalidParams)),
        shutdown: false,
    };
    let id_text = match params.get_str("id") {
        Some(i) => i,
        None => return fail,
    };
    let name = match params.get_str("name") {
        Some(n) => n,
        None => return fail,
    };
    let id = match parse_uuid(id_text) {
        Some(id) => id,
        None => return fail,
    };
    Dispatched {
        stage: MutateStage::AwaitRename(id),
        next: Next::Call(DbCall::UpdateRename { id, name: owned(name) }),
        shutdown: false,
    }
}

fn start_dismiss(params: &JsonValue) -> (d: Dispatched)
    ensures
        dispatch_spec("session.dismiss_error"@, *params, 0, Timestamp { secs: 0, nanos: 0 }, d),
{
    proof {
        reveal_strlit("session.dismiss_error");
        reveal_strlit("session.rename");
        reveal_strlit("session.create");
        reveal_strlit("daemon.shutdown");
        assert("session.dismiss_error"@.len() != "daemon.shutdown"@.len());
        assert("session.dismiss_error"@.len() != "session.rename"@.len());
        assert("session.dismiss_error"@.len() != "session.create"@.len());
    }
    let fail = Dispatched {
        stage: MutateStage::Done,
        next: Next::Answer(Reply::Error(ProtocolError::InvalidParams)),
        shutdown: false,
    };
    let id_text = match params.get_str("id") {
        Some(i) => i,
        None => return fail,
    };
    let id = match parse_uuid(id_text) {
        Some(id) => id,
        None => return fail,
    };
    Dispatched {
        stage: MutateStage::AwaitDismissLookup(id),
        next: Next::Call(DbCall::GetSession(id)),
        shutdown: false,
    }
}

/// Start a mutating call. `new_id` and `now` are the id and creation time a
/// new session gets (used by `session.create` only).
pub fn dispatch(method: &str, params: &JsonValue, new_id: u128, now: Timestamp) -> (d: Dispatched)
    ensures
        dispatch_spec(method@, *params, new_id, now, d),
{
    if str_eq(method, "session.create") {
        start_create(params, new_id, now)
    } else if str_eq(method, "session.rename") {
        let d = start_rename(params);
        d
    } else if str_eq(method, "session.dismiss_error") {
        start_dismiss(params)
    } else if str_eq(method, "session.jump") || str_eq(method, "session.kill") {
        proof {
            reveal_strlit("session.jump");
            reveal_strlit("session.kill");
            reveal_strlit("daemon.shutdown");
            assert("session.jump"@.len() != "daemon.shutdown"@.len());
            assert("session.kill"@.len() != "daemon.shutdown"@.len());
        }
        Dispatched {
            stage: MutateStage::Done,
            next: Next::Answer(Reply::Error(ProtocolError::InternalError)),
            shutdown: false,
        }
    } else if str_eq(method, "daemon.shutdown") {
        let mut fields: Vec<(String, JsonValue)> = Vec::new();
        fields.push(member("ok", JsonValue::Bool(true)));
        Dispatched {
            stage: MutateStage::Done,
            next: Next::Answer(Reply::Value(JsonValue::Object(fields))),
            shutdown: true,
        }
    } else {
        Dispatched {
            stage: MutateStage::Done,
            next: Next::Answer(Reply::Error(ProtocolError::MethodNotFound)),
            shutdown: false,
        }
    }
}

/// Start a mutating call, drawing a fresh version-7 id and the current time
/// for a session that `session.create` would insert. What comes back is what
/// `dispatch` gives for the id and time drawn.
pub fn dispatch_now(method: &str, params: &JsonValue) -> (d: Dispatched)
    ensures
        exists|new_id: u128, now: Timestamp|
            (new_id >> 76u128) & 0xfu128 == 7 && #[trigger] dispatch_spec(
                method@,
                *params,
                new_id,
                now,
                d,
            ),
{
    let new_id = new_uuid_v7();
    let now = utc_now();
    let d = dispatch(method, params, new_id, now);
    assert(dispatch_spec(method@, *params, new_id, now, d));
    d
}

/// How a mutating call goes on after the database answered.
pub open spec fn resume_spec(stage: MutateStage, reply: DbReply, r: (MutateStage, Next)) -> bool {
    match stage {
        MutateStage::AwaitCreate => r.0 == MutateStage::Done && match reply {
            DbReply::Inserted(s) => r.1 == Next::Answer(Reply::Session(s)),
            _ => r.1 == Next::Answer(Reply::Error(ProtocolError::InternalError)),
        },
        MutateStage::AwaitRename(id) => match reply {
            DbReply::Done => r.0 == MutateStage::AwaitRenamedSession && r.1 == Next::Call(
                DbCall::GetSession(id),
            ),
            _ => r.0 == MutateStage::Done && r.1 == Next::Answer(
                Reply::Error(ProtocolError::SessionNotFound),
            ),
        },
        MutateStage::AwaitRenamedSession => r.0 == MutateStage::Done && match reply {
            DbReply::Found(Some(s)) => r.1 == Next::Answer(Reply::Session(s)),
            _ => r.1 == Next::Answer(Reply::Error(ProtocolError::SessionNotFound)),
        },
        MutateStage::AwaitDismissLookup(id) => match reply {
            DbReply::Found(Some(s)) => if s.status == SessionStatus::Errored {
                r.0 == MutateStage::AwaitDismissUpdate(id) && r.1 == Next::Call(
                    DbCall::UpdateStatus { id, status: SessionStatus::Idle },
                )
            } else {
                r.0 == MutateStage::Done && r.1 == Next::Answer(
                    Reply::Error(ProtocolError::InvalidParams),
                )
            },
            _ => r.0 == MutateStage::Done && r.1 == Next::Answer(
                Reply::Error(ProtocolError::SessionNotFound),
            ),
        },
        MutateStage::AwaitDismissUpdate(id) => match reply {
            DbReply::Done => r.0 == MutateStage::AwaitDismissedSession && r.1 == Next::Call(
                DbCall::GetSession(id),
            ),
            _ => r.0 == MutateStage::Done && r.1 == Next::Answer(
                Reply::Error(ProtocolError::InternalError),
            ),
        },
        MutateStage::AwaitDismissedSession => r.0 == MutateStage::Done && match reply {
            DbReply::Found(Some(s)) => r.1 == Next::Answer(Reply::Session(s)),
            _ => r.1 == Next::Answer(Reply::Error(ProtocolError::InternalError)),
        },
        MutateStage::Done => r.0 == MutateStage::Done && r.1 == Next::Answer(
            Reply::Error(ProtocolError::InternalError),
        ),
    }
}

/// Go on with a mutating call given the database's answer to its last call.
pub fn resume(stage: MutateStage, reply: DbReply) -> (r: (MutateStage, Next))
    ensures
        resume_spec(stage, reply, r),
{
    let internal = Next::Answer(Reply::Error(ProtocolError::InternalError));
    match stage {
        MutateStage::AwaitCreate => match reply {
            DbReply::Inserted(s) => (MutateStage::Done, Next::Answer(Reply::Session(s))),
            _ => (MutateStage::Done, internal),
        },
        MutateStage::AwaitRename(id) => match reply {
            DbReply::Done => (MutateStage::AwaitRenamedSession, Next::Call(DbCall::GetSession(id))),
            _ => (MutateStage::Done, Next::Answer(Reply::Error(ProtocolError::SessionNotFound))),
        },
        MutateStage::AwaitRenamedSession => match reply {
            DbReply::Found(Some(s)) => (MutateStage::Done, Next::Answer(Reply::Session(s))),
            _ => (MutateStage::Done, Next::Answer(Reply::Error(ProtocolError::SessionNotFound))),
        },
        MutateStage::AwaitDismissLookup(id) => match reply {
            DbReply::Found(Some(s)) => {
                if s.status == SessionStatus::Errored {
                    (
                        MutateStage::AwaitDismissUpdate(id),
                        Next::Call(DbCall::UpdateStatus { id, status: SessionStatus::Idle }),
                    )
                } else {
                    (MutateStage::Done, Next::Answer(Reply::Error(ProtocolError::InvalidParams)))
                }
            },
            _ => (MutateStage::Done, Next::Answer(Reply::Error(ProtocolError::SessionNotFound))),
        },
        MutateStage::AwaitDismissUpdate(id) => match reply {
            DbReply::Done => (MutateStage::AwaitDismissedSession, Next::Call(DbCall::GetSession(id))),
            _ => (MutateStage::Done, internal),
        },
        MutateStage::AwaitDismissedSession => match reply {
            DbReply::Found(Some(s)) => (MutateStage::Done, Next::Answer(Reply::Session(s))),
            _ => (MutateStage::Done, internal),
        },
        MutateStage::Done => (MutateStage::Done, internal),
    }
}

/// After a rename, the reload answers the renamed session when its row is
/// found, and fails with `SessionNotFound` exactly when it is not.
pub proof fn lemma_rename_answers_reloaded(reply: DbReply, r: (MutateStage, Next))
    requires
        resume_spec(MutateStage::AwaitRenamedSession, reply, r),
    ensures
        r.0 == MutateStage::Done,
        reply matches DbReply::Found(Some(s)) ==> r.1 == Next::Answer(Reply::Session(s)),
        (r.1 == Next::Answer(Reply::Error(ProtocolError::SessionNotFound))) <==> !(
        reply matches DbReply::Found(Some(_))),
{
}

/// `session.create` answers exactly the session the database inserted, and
/// fails with `InternalError` when the insert failed.
pub proof fn lemma_create_answers_inserted(reply: DbReply, r: (MutateStage, Next))
    requires
        resume_spec(MutateStage::AwaitCreate, reply, r),
    ensures
        r.0 == MutateStage::Done,
        reply matches DbReply::Inserted(s) ==> r.1 == Next::Answer(Reply::Session(s)),
        !(reply is Inserted) ==> r.1 == Next::Answer(Reply::Error(ProtocolError::InternalError)),
{
}

/// `session.dismiss_error` resets a session to idle exactly when it is in
/// the errored state; a session in any other state is refused with
/// `InvalidParams`, and a missing one with `SessionNotFound`.
pub proof fn lemma_dismiss_only_errored(id: u128, reply: DbReply, r: (MutateStage, Next))
    requires
        resume_spec(MutateStage::AwaitDismissLookup(id), reply, r),
    ensures
        reply matches DbReply::Found(Some(s)) ==> ((r.1 == Next::Call(
            (DbCall::UpdateStatus { id, status: SessionStatus::Idle }),
        )) <==> s.status == SessionStatus::Errored),
        reply matches DbReply::Found(Some(s)) && s.status != SessionStatus::Errored ==> r.1
            == Next::Answer(Reply::Error(ProtocolError::InvalidParams)),
        !(reply matches DbReply::Found(Some(_))) ==> r.1 == Next::Answer(
            Reply::Error(ProtocolError::SessionNotFound),
        ),
{
}

/// `session.create` with a known agent kind and a working directory
/// inserts a new session of that kind in that directory, named by the
/// `name` param when there is one, not yet bound to tmux, with the drawn id
/// and time; a call missing either is refused with `InvalidParams` and
/// inserts nothing.
pub proof fn lemma_create_inserts(params: JsonValue, new_id: u128, now: Timestamp, d: Dispatched)
    requires
        dispatch_spec("session.create"@, params, new_id, now, d),
    ensures
        (params.str_field("agent_type"@) matches Some(a) && AgentType::from_wire_spec(a) is Some
            && params.str_field("working_dir"@) is Some) ==> (d.next matches Next::Call(
            DbCall::InsertSession(s),
        ) && {
            &&& Some(s.agent_type) == AgentType::from_wire_spec(
                params.str_field("agent_type"@)->0,
            )
            &&& s.working_dir@ == params.str_field("working_dir"@)->0
            &&& (params.str_field("name"@) matches Some(n) ==> s.display_name@ == n)
            &&& s.id == new_id
            &&& s.created_at == now
            &&& s.status == SessionStatus::Starting
            &&& s.source == SessionSource::Cli
            &&& s.tmux_session is None
            &&& s.tmux_pane_id is None
        }),
        !(params.str_field("agent_type"@) matches Some(a) && AgentType::from_wire_spec(a) is Some
            && params.str_field("working_dir"@) is Some) ==> d.next == Next::Answer(
            Reply::Error(ProtocolError::InvalidParams),
        ),
{
}

/// `session.rename` writes the new name to the session the `id` param
/// names, and then reads that session back.
pub proof fn lemma_rename_writes(params: JsonValue, new_id: u128, now: Timestamp, d: Dispatched, reply: DbReply, r: (MutateStage, Next))
    requires
        dispatch_spec("session.rename"@, params, new_id, now, d),
        params.str_field("id"@) matches Some(i) && uuid_from_text(i) is Some,
        params.str_field("name"@) is Some,
        resume_spec(d.stage, DbReply::Done, r),
    ensures
        d.next matches Next::Call(DbCall::UpdateRename { id, name }) && Some(id) == uuid_from_text(
            params.str_field("id"@)->0,
        ) && name@ == params.str_field("name"@)->0,
        r.1 == Next::Call(DbCall::GetSession(uuid_from_text(params.str_field("id"@)->0)->0)),
        r.0 == MutateStage::AwaitRenamedSession,
{
    reveal_strlit("session.rename");
    reveal_strlit("session.create");
    assert("session.rename"@ != "session.create"@) by {
        assert("session.rename"@[9] != "session.create"@[9]);
    }
}

} // verus!
