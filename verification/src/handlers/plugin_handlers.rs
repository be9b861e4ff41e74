//! Methods of a plugin's socket: `plugin.hello`, `session.discover`,
//! `session.report_event`, `plugin.heartbeat` and `plugin.bye`. The plugin
//! on the other end has been authenticated as `plugin_name`.
use crate::handlers::{fresh_session, is_new_session, DbCall, DbReply, Next, Reply};
use crate::ids::{format_uuid, new_uuid_v7, parse_uuid, utc_now, uuid_from_text, uuid_text};
use crate::json::{member, JsonNumber, JsonValue};
use crate::protocol::{AgentType, ProtocolError, Session, SessionSource, SessionStatus, Timestamp};
use crate::text::{owned, str_eq};
use crate::tui::input::{default_name, default_session_name};
use vstd::prelude::*;

verus! {

/// What a reported event does to its session beyond being recorded.
#[derive(Debug, PartialEq)]
pub enum FollowUp {
    /// Nothing.
    Nothing,
    /// Set the session's status.
    SetStatus(SessionStatus),
    /// The payload names no known status: the call fails with `InvalidParams`.
    RejectStatus,
    /// Set the session's current task.
    SetTask(String),
    /// Set the session's token usage and cost (each `None` where the
    /// payload lacks it).
    SetUsage { used: Option<u64>, total: Option<u64>, cost: Option<JsonNumber> },
    /// Mark the session finished.
    MarkFinished,
}

/// Where a plugin call stands between database calls.
#[derive(Debug, PartialEq)]
pub enum PluginStage {
    /// Answered; nothing to resume.
    Done,
    /// `plugin.hello`: waiting for the plugin row's upsert.
    AwaitUpsert { name: String, at: Timestamp },
    /// `plugin.hello`: waiting for the connect time's write.
    AwaitLastConnected { name: String },
    /// `session.discover`: waiting for the new session's insert.
    AwaitDiscoverInsert(u128),
    /// `session.report_event`: waiting for the session's row.
    AwaitReportLookup { id: u128, kind: String, payload: JsonValue, follow_up: FollowUp },
    /// `session.report_event`: waiting for the event row's insert.
    AwaitEventInsert { id: u128, follow_up: FollowUp },
    /// `session.report_event`: waiting for the session's update.
    AwaitFollowUp(u128),
}

/// The kind of a reported event determines what follows its recording.
pub open spec fn follow_up_spec(kind: Seq<char>, payload: JsonValue, f: FollowUp) -> bool {
    if kind == "session.status_changed"@ {
        match payload.str_field("status"@) {
            Some(s) => match SessionStatus::from_wire_spec(s) {
                Some(st) => f == FollowUp::SetStatus(st),
                None => f == FollowUp::RejectStatus,
            },
            None => f == FollowUp::Nothing,
        }
    } else if kind == "session.task_changed"@ {
        match payload.str_field("task"@) {
            Some(t) => f matches FollowUp::SetTask(x) && x@ == t,
            None => f == FollowUp::Nothing,
        }
    } else if kind == "session.usage_updated"@ {
        f == FollowUp::SetUsage {
            used: payload.u64_field("used"@),
            total: payload.u64_field("total"@),
            cost: payload.number_field("cost_usd"@),
        }
    } else if kind == "session.finished"@ {
        f == FollowUp::MarkFinished
    } else {
        f == FollowUp::Nothing
    }
}

fn plan_follow_up(kind: &str, payload: &JsonValue) -> (f: FollowUp)
    ensures
        follow_up_spec(kind@, *payload, f),
{
    if str_eq(kind, "session.status_changed") {
        match payload.get_str("status") {
            Some(s) => match SessionStatus::from_wire(s) {
                Some(st) => FollowUp::SetStatus(st),
                None => FollowUp::RejectStatus,
            },
            None => FollowUp::Nothing,
        }
    } else if str_eq(kind, "session.task_changed") {
        match payload.get_str("task") {
            Some(t) => FollowUp::SetTask(owned(t)),
            None => FollowUp::Nothing,
        }
    } else if str_eq(kind, "session.usage_updated") {
        FollowUp::SetUsage {
            used: payload.get_u64("used"),
            total: payload.get_u64("total"),
            cost: payload.get_number("cost_usd"),
        }
    } else if str_eq(kind, "session.finished") {
        FollowUp::MarkFinished
    } else {
        FollowUp::Nothing
    }
}

/// Member `i` of object `fields` is named `key`.
pub open spec fn named(fields: Seq<(String, JsonValue)>, i: int, key: Seq<char>) -> bool {
    0 <= i < fields.len() && fields[i].0@ == key
}

/// The answer to `plugin.hello`:
/// `{"ok": true, "plugin_id": name, "heartbeat_interval_secs": 5}`.
pub open spec fn is_hello_answer(v: JsonValue, name: Seq<char>) -> bool {
    &&& v matches JsonValue::Object(f) && f@.len() == 3
    &&& v->Object_0@[0].0@ == "ok"@ && v->Object_0@[0].1 == JsonValue::Bool(true)
    &&& v->Object_0@[1].0@ == "plugin_id"@ && v->Object_0@[1].1.spec_as_str() == Some(name)
    &&& v->Object_0@[2].0@ == "heartbeat_interval_secs"@ && v->Object_0@[2].1 == JsonValue::Number(
        JsonNumber::PosInt(5),
    )
}

/// The answer to `session.discover`: `{"ok": true, "session_id": <uuid>}`.
pub open spec fn is_discover_answer(v: JsonValue, id: u128) -> bool {
    &&& v matches JsonValue::Object(f) && f@.len() == 2
    &&& v->Object_0@[0].0@ == "ok"@ && v->Object_0@[0].1 == JsonValue::Bool(true)
    &&& v->Object_0@[1].0@ == "session_id"@ && v->Object_0@[1].1.spec_as_str() == Some(
        uuid_text(id),
    )
}

/// The answer to `session.report_event`:
/// `{"accepted": true, "event_id": <uuid of the session>}`.
pub open spec fn is_report_answer(v: JsonValue, id: u128) -> bool {
    &&& v matches JsonValue::Object(f) && f@.len() == 2
    &&& v->Object_0@[0].0@ == "accepted"@ && v->Object_0@[0].1 == JsonValue::Bool(true)
    &&& v->Object_0@[1].0@ == "event_id"@ && v->Object_0@[1].1.spec_as_str() == Some(
        uuid_text(id),
    )
}

/// The answer to `plugin.heartbeat`:
/// `{"ok": true, "events_total": 0, "invalid_total": 0, "restart_required": false}`.
pub open spec fn is_heartbeat_answer(v: JsonValue) -> bool {
    &&& v matches JsonValue::Object(f) && f@.len() == 4
    &&& v->Object_0@[0].0@ == "ok"@ && v->Object_0@[0].1 == JsonValue::Bool(true)
    &&& v->Object_0@[1].0@ == "events_total"@ && v->Object_0@[1].1 == JsonValue::Number(
        JsonNumber::PosInt(0),
    )
    &&& v->Object_0@[2].0@ == "invalid_total"@ && v->Object_0@[2].1 == JsonValue::Number(
        JsonNumber::PosInt(0),
    )
    &&& v->Object_0@[3].0@ == "restart_required"@ && v->Object_0@[3].1 == JsonValue::Bool(false)
}

/// The answer to `plugin.bye`: `{"ok": true}`.
pub open spec fn is_bye_answer(v: JsonValue) -> bool {
    &&& v matches JsonValue::Object(f) && f@.len() == 1
    &&& v->Object_0@[0].0@ == "ok"@ && v->Object_0@[0].1 == JsonValue::Bool(true)
}

/// The answer is the JSON value satisfying `p`.
pub open spec fn answers_value(n: Next, p: spec_fn(JsonValue) -> bool) -> bool {
    n matches Next::Answer(Reply::Value(v)) && p(v)
}

/// The answer is this error.
pub open spec fn fails_with(st: PluginStage, n: Next, e: ProtocolError) -> bool {
    st == PluginStage::Done && n == Next::Answer(Reply::Error(e))
}

/// What the session id text, event kind and payload of `session.report_event`
/// are, when both strings are there and the id parses.
pub open spec fn report_request(params: JsonValue) -> Option<(u128, Seq<char>)> {
    match params.str_field("session_id"@) {
        None => None,
        Some(i) => match params.str_field("type"@) {
            None => None,
            Some(k) => match uuid_from_text(i) {
                None => None,
                Some(id) => Some((id, k)),
            },
        },
    }
}

/// The payload member of `session.report_event` (`null` when absent).
pub open spec fn report_payload(params: JsonValue) -> JsonValue {
    match params.spec_get("payload"@) {
        Some(p) => p,
        None => JsonValue::Null,
    }
}

/// The start of a plugin call, by method. `new_id` and `now` are the id a
/// discovered session gets and the current instant.
pub open spec fn dispatch_spec(
    method: Seq<char>,
    params: JsonValue,
    plugin_name: Seq<char>,
    new_id: u128,
    now: Timestamp,
    r: (PluginStage, Next),
) -> bool {
    if method == "plugin.hello"@ {
        match params.str_field("name"@) {
            None => fails_with(r.0, r.1, ProtocolError::InvalidParams),
            Some(name) => if name != plugin_name {
                fails_with(r.0, r.1, ProtocolError::PluginNotAllowed)
            } else {
                &&& r.0 matches PluginStage::AwaitUpsert { name: n, at } && n@ == name && at == now
                &&& r.1 matches Next::Call(
                    DbCall::UpsertPlugin { name: n, binary, socket_name, autostart },
                ) && n@ == name && binary@ == "agentd-plugin-"@ + name && socket_name@ == name
                    + ".sock"@ && autostart
            },
        }
    } else if method == "session.discover"@ {
        match (
            params.str_field("tmux_session"@),
            params.str_field("tmux_pane_id"@),
            params.str_field("working_dir"@),
        ) {
            (Some(ts), Some(pane), Some(wd)) => match AgentType::from_wire_spec(plugin_name) {
                None => fails_with(r.0, r.1, ProtocolError::PluginNotAllowed),
                Some(agent) => {
                    &&& r.0 == PluginStage::AwaitDiscoverInsert(new_id)
                    &&& r.1 matches Next::Call(DbCall::InsertSession(s)) && is_new_session(
                        s,
                        new_id,
                        agent,
                        wd,
                        default_name(wd),
                        SessionSource::Discovered,
                        now,
                    ) && opt_text_is(s.tmux_session, ts) && opt_text_is(s.tmux_pane_id, pane)
                        && is_plugin_metadata(s.metadata, plugin_name)
                },
            },
            _ => fails_with(r.0, r.1, ProtocolError::InvalidParams),
        }
    } else if method == "session.report_event"@ {
        match report_request(params) {
            None => fails_with(r.0, r.1, ProtocolError::InvalidParams),
            Some((id, kind)) => {
                &&& r.1 == Next::Call(DbCall::GetSession(id))
                &&& r.0 matches PluginStage::AwaitReportLookup { id: i, kind: k, payload, follow_up }
                    && i == id && k@ == kind && payload == report_payload(params) && follow_up_spec(
                    kind,
                    report_payload(params),
                    follow_up,
                )
            },
        }
    } else if method == "plugin.heartbeat"@ {
        r.0 == PluginStage::Done && answers_value(r.1, |v: JsonValue| is_heartbeat_answer(v))
    } else if method == "plugin.bye"@ {
        r.0 == PluginStage::Done && answers_value(r.1, |v: JsonValue| is_bye_answer(v))
    } else {
        fails_with(r.0, r.1, ProtocolError::MethodNotFound)
    }
}

/// `o` holds a string with the characters `t`.
pub open spec fn opt_text_is(o: Option<String>, t: Seq<char>) -> bool {
    o matches Some(x) && x@ == t
}

/// The metadata of a discovered session: `{"plugin": plugin_name}`.
pub open spec fn is_plugin_metadata(v: JsonValue, plugin_name: Seq<char>) -> bool {
    &&& v matches JsonValue::Object(f) && f@.len() == 1
    &&& v->Object_0@[0].0@ == "plugin"@ && v->Object_0@[0].1.spec_as_str() == Some(plugin_name)
}

fn obj1(k0: &str, v0: JsonValue) -> (v: JsonValue)
    ensures
        v matches JsonValue::Object(f) && f@.len() == 1 && f@[0].0@ == k0@ && f@[0].1 == v0,
{
    let mut f: Vec<(String, JsonValue)> = Vec::new();
    f.push(member(k0, v0));
    JsonValue::Object(f)
}

fn obj2(k0: &str, v0: JsonValue, k1: &str, v1: JsonValue) -> (v: JsonValue)
    ensures
        v matches JsonValue::Object(f) && f@.len() == 2 && f@[0].0@ == k0@ && f@[0].1 == v0
            && f@[1].0@ == k1@ && f@[1].1 == v1,
{
    let mut f: Vec<(String, JsonValue)> = Vec::new();
    f.push(member(k0, v0));
    f.push(member(k1, v1));
    JsonValue::Object(f)
}

fn hello(params: &JsonValue, plugin_name: &str, now: Timestamp) -> (r: (PluginStage, Next))
    ensures
        dispatch_spec("plugin.hello"@, *params, plugin_name@, 0, now, r),
{
    let name = match params.get_str("name") {
        Some(n) => n,
        None => return (PluginStage::Done, Next::Answer(Reply::Error(ProtocolError::InvalidParams))),
    };
    if !str_eq(name, plugin_name) {
        return (PluginStage::Done, Next::Answer(Reply::Error(ProtocolError::PluginNotAllowed)));
    }
    let binary = owned("agentd-plugin-").concat(name);
    let socket_name = owned(name).concat(".sock");
    (
        PluginStage::AwaitUpsert { name: owned(name), at: now },
        Next::Call(DbCall::UpsertPlugin { name: owned(name), binary, socket_name, autostart: true }),
    )
}

fn discover(params: &JsonValue, plugin_name: &str, new_id: u128, now: Timestamp) -> (r: (
    PluginStage,
    Next,
))
    ensures
        dispatch_spec("session.discover"@, *params, plugin_name@, new_id, now, r),
{
    proof {
        reveal_strlit("session.discover");
        reveal_strlit("plugin.hello");
        assert("session.discover"@.len() != "plugin.hello"@.len());
    }
    let invalid = (PluginStage::Done, Next::Answer(Reply::Error(ProtocolError::InvalidParams)));
    let tmux_session = match params.get_str("tmux_session") {
        Some(s) => s,
        None => return invalid,
    };
    let tmux_pane_id = match params.get_str("tmux_pane_id") {
        Some(s) => s,
        None => return invalid,
    };
    let working_dir = match params.get_str("working_dir") {
        Some(s) => s,
        None => return invalid,
    };
    let agent = match AgentType::from_wire(plugin_name) {
        Some(a) => a,
        None => return (PluginStage::Done, Next::Answer(Reply::Error(ProtocolError::PluginNotAllowed))),
    };
    let metadata = obj1("plugin", JsonValue::Str(owned(plugin_name)));
    let mut s = fresh_session(
        new_id,
        agent,
        owned(working_dir),
        default_session_name(working_dir),
        SessionSource::Discovered,
        now,
        metadata,
    );
    s.tmux_session = Some(owned(tmux_session));
    s.tmux_pane_id = Some(owned(tmux_pane_id));
    (PluginStage::AwaitDiscoverInsert(new_id), Next::Call(DbCall::InsertSession(s)))
}

fn report_event(params: JsonValue) -> (r: (PluginStage, Next))
    ensures
        dispatch_spec("session.report_event"@, params, "x"@, 0, Timestamp { secs: 0, nanos: 0 }, r),
{
    proof {
        reveal_strlit("session.report_event");
        reveal_strlit("session.discover");
        reveal_strlit("plugin.hello");
        assert("session.report_event"@.len() != "plugin.hello"@.len());
        assert("session.report_event"@.len() != "session.discover"@.len());
    }
    let ghost p0 = params;
    let invalid = (PluginStage::Done, Next::Answer(Reply::Error(ProtocolError::InvalidParams)));
    let id_text = match params.get_str("session_id") {
        Some(s) => owned(s),
        None => return invalid,
    };
    let kind = match params.get_str("type") {
        Some(s) => owned(s),
        None => return invalid,
    };
    let mut params = params;
    let payload = params.take_or_null("payload");
    let id = match parse_uuid(id_text.as_str()) {
        Some(id) => id,
        None => return invalid,
    };
    let follow_up = plan_follow_up(kind.as_str(), &payload);
    assert(payload == report_payload(p0));
    (
        PluginStage::AwaitReportLookup { id, kind, payload, follow_up },
        Next::Call(DbCall::GetSession(id)),
    )
}

/// Start a plugin call from the plugin `plugin_name`.
pub fn dispatch(
    method: &str,
    params: JsonValue,
    plugin_name: &str,
    new_id: u128,
    now: Timestamp,
) -> (r: (PluginStage, Next))
    ensures
        dispatch_spec(method@, params, plugin_name@, new_id, now, r),
{
    if str_eq(method, "plugin.hello") {
        hello(&params, plugin_name, now)
    } else if str_eq(method, "session.discover") {
        discover(&params, plugin_name, new_id, now)
    } else if str_eq(method, "session.report_event") {
        report_event(params)
    } else if str_eq(method, "plugin.heartbeat") {
        let mut f: Vec<(String, JsonValue)> = Vec::new();
        f.push(member("ok", JsonValue::Bool(true)));
        f.push(member("events_total", JsonValue::Number(JsonNumber::PosInt(0))));
        f.push(member("invalid_total", JsonValue::Number(JsonNumber::PosInt(0))));
        f.push(member("restart_required", JsonValue::Bool(false)));
        (PluginStage::Done, Next::Answer(Reply::Value(JsonValue::Object(f))))
    } else if str_eq(method, "plugin.bye") {
        (PluginStage::Done, Next::Answer(Reply::Value(obj1("ok", JsonValue::Bool(true)))))
    } else {
        (PluginStage::Done, Next::Answer(Reply::Error(ProtocolError::MethodNotFound)))
    }
}

/// Start a plugin call from the plugin `plugin_name`, drawing a fresh
/// version-7 id (for a session that `session.discover` would insert) and the
/// current time. What comes back is what `dispatch` gives for them.
pub fn dispatch_now(method: &str, params: JsonValue, plugin_name: &str) -> (r: (
    PluginStage,
    Next,
))
    ensures
        exists|new_id: u128, now: Timestamp|
            (new_id >> 76u128) & 0xfu128 == 7 && #[trigger] dispatch_spec(
                method@,
                params,
                plugin_name@,
                new_id,
                now,
                r,
            ),
{
    let new_id = new_uuid_v7();
    let now = utc_now();
    dispatch(method, params, plugin_name, new_id, now)
}

/// How a plugin call goes on after the database answered.
pub open spec fn resume_spec(stage: PluginStage, reply: DbReply, r: (PluginStage, Next)) -> bool {
    match stage {
        PluginStage::AwaitUpsert { name, at } => {
            &&& r.0 matches PluginStage::AwaitLastConnected { name: n } && n@ == name@
            &&& r.1 matches Next::Call(DbCall::SetLastConnected { name: n, at: t }) && n@ == name@
                && t == at
        },
        PluginStage::AwaitLastConnected { name } => r.0 == PluginStage::Done && answers_value(
            r.1,
            |v: JsonValue| is_hello_answer(v, name@),
        ),
        PluginStage::AwaitDiscoverInsert(id) => match reply {
            DbReply::Inserted(_) => r.0 == PluginStage::Done && answers_value(
                r.1,
                |v: JsonValue| is_discover_answer(v, id),
            ),
            _ => fails_with(r.0, r.1, ProtocolError::InternalError),
        },
        PluginStage::AwaitReportLookup { id, kind, payload, follow_up } => match reply {
            DbReply::Found(Some(_)) => {
                &&& r.0 == PluginStage::AwaitEventInsert { id, follow_up }
                &&& r.1 matches Next::Call(DbCall::InsertEvent { session_id, kind: k, payload: p })
                    && session_id == id && k@ == kind@ && p == payload
            },
            DbReply::Found(None) => fails_with(r.0, r.1, ProtocolError::SessionNotFound),
            _ => fails_with(r.0, r.1, ProtocolError::InternalError),
        },
        PluginStage::AwaitEventInsert { id, follow_up } => match reply {
            DbReply::Done => match follow_up {
                FollowUp::Nothing => r.0 == PluginStage::Done && answers_value(
                    r.1,
                    |v: JsonValue| is_report_answer(v, id),
                ),
                FollowUp::RejectStatus => fails_with(r.0, r.1, ProtocolError::InvalidParams),
                FollowUp::SetStatus(st) => r.0 == PluginStage::AwaitFollowUp(id) && r.1
                    == Next::Call(DbCall::UpdateStatus { id, status: st }),
                FollowUp::SetTask(t) => r.0 == PluginStage::AwaitFollowUp(id) && r.1 == Next::Call(
                    DbCall::UpdateTask { id, task: t },
                ),
                FollowUp::SetUsage { used, total, cost } => r.0 == PluginStage::AwaitFollowUp(id)
                    && r.1 == Next::Call(DbCall::UpdateUsage { id, used, total, cost }),
                FollowUp::MarkFinished => r.0 == PluginStage::AwaitFollowUp(id) && r.1
                    == Next::Call(DbCall::MarkFinished(id)),
            },
            _ => fails_with(r.0, r.1, ProtocolError::InternalError),
        },
        PluginStage::AwaitFollowUp(id) => match reply {
            DbReply::Done => r.0 == PluginStage::Done && answers_value(
                r.1,
                |v: JsonValue| is_report_answer(v, id),
            ),
            _ => fails_with(r.0, r.1, ProtocolError::InternalError),
        },
        PluginStage::Done => fails_with(r.0, r.1, ProtocolError::InternalError),
    }
}

fn report_answer(id: u128) -> (v: JsonValue)
    ensures
        is_report_answer(v, id),
{
    obj2("accepted", JsonValue::Bool(true), "event_id", JsonValue::Str(format_uuid(id)))
}

/// Go on with a plugin call given the database's answer to its last call.
/// `plugin.hello` goes on whatever its writes gave.
pub fn resume(stage: PluginStage, reply: DbReply) -> (r: (PluginStage, Next))
    ensures
        resume_spec(stage, reply, r),
{
    let internal = (PluginStage::Done, Next::Answer(Reply::Error(ProtocolError::InternalError)));
    match stage {
        PluginStage::AwaitUpsert { name, at } => {
            let n = name.clone();
            (
                PluginStage::AwaitLastConnected { name },
                Next::Call(DbCall::SetLastConnected { name: n, at }),
            )
        },
        PluginStage::AwaitLastConnected { name } => {
            let mut f: Vec<(String, JsonValue)> = Vec::new();
            f.push(member("ok", JsonValue::Bool(true)));
            f.push(member("plugin_id", JsonValue::Str(name)));
            f.push(member("heartbeat_interval_secs", JsonValue::Number(JsonNumber::PosInt(5))));
            (PluginStage::Done, Next::Answer(Reply::Value(JsonValue::Object(f))))
        },
        PluginStage::AwaitDiscoverInsert(id) => match reply {
            DbReply::Inserted(_) => {
                let v = obj2("ok", JsonValue::Bool(true), "session_id", JsonValue::Str(format_uuid(id)));
                (PluginStage::Done, Next::Answer(Reply::Value(v)))
            },
            _ => internal,
        },
        PluginStage::AwaitReportLookup { id, kind, payload, follow_up } => match reply {
            DbReply::Found(Some(_)) => (
                PluginStage::AwaitEventInsert { id, follow_up },
                Next::Call(DbCall::InsertEvent { session_id: id, kind, payload }),
            ),
            DbReply::Found(None) => (
                PluginStage::Done,
                Next::Answer(Reply::Error(ProtocolError::SessionNotFound)),
            ),
            _ => internal,
        },
        PluginStage::AwaitEventInsert { id, follow_up } => match reply {
            DbReply::Done => match follow_up {
                FollowUp::Nothing => (PluginStage::Done, Next::Answer(Reply::Value(report_answer(id)))),
                FollowUp::RejectStatus => (
                    PluginStage::Done,
                    Next::Answer(Reply::Error(ProtocolError::InvalidParams)),
                ),
                FollowUp::SetStatus(st) => (
                    PluginStage::AwaitFollowUp(id),
                    Next::Call(DbCall::UpdateStatus { id, status: st }),
                ),
                FollowUp::SetTask(t) => (
                    PluginStage::AwaitFollowUp(id),
                    Next::Call(DbCall::UpdateTask { id, task: t }),
                ),
                FollowUp::SetUsage { used, total, cost } => (
                    PluginStage::AwaitFollowUp(id),
                    Next::Call(DbCall::UpdateUsage { id, used, total, cost }),
                ),
                FollowUp::MarkFinished => (
                    PluginStage::AwaitFollowUp(id),
                    Next::Call(DbCall::MarkFinished(id)),
                ),
            },
            _ => internal,
        },
        PluginStage::AwaitFollowUp(id) => match reply {
            DbReply::Done => (PluginStage::Done, Next::Answer(Reply::Value(report_answer(id)))),
            _ => internal,
        },
        PluginStage::Done => internal,
    }
}

/// A reported event is followed by marking its session finished exactly
/// when the event's kind is `session.finished`.
pub proof fn lemma_finished_follow_up(kind: Seq<char>, payload: JsonValue, f: FollowUp)
    requires
        follow_up_spec(kind, payload, f),
    ensures
        (f == FollowUp::MarkFinished) <==> kind == "session.finished"@,
{
    reveal_strlit("session.finished");
    reveal_strlit("session.status_changed");
    reveal_strlit("session.task_changed");
    reveal_strlit("session.usage_updated");
    assert("session.finished"@.len() != "session.status_changed"@.len());
    assert("session.finished"@.len() != "session.task_changed"@.len());
    assert("session.finished"@.len() != "session.usage_updated"@.len());
}

/// `session.report_event` of a `session.finished` event for a known
/// session: the session is looked up, the event recorded, and then the
/// session is marked finished.
pub proof fn lemma_report_finished_marks_session(
    params: JsonValue,
    plugin_name: Seq<char>,
    new_id: u128,
    now: Timestamp,
    id: u128,
    found: Session,
    r1: (PluginStage, Next),
    r2: (PluginStage, Next),
    r3: (PluginStage, Next),
)
    requires
        report_request(params) == Some((id, "session.finished"@)),
        dispatch_spec("session.report_event"@, params, plugin_name, new_id, now, r1),
        resume_spec(r1.0, DbReply::Found(Some(found)), r2),
        resume_spec(r2.0, DbReply::Done, r3),
    ensures
        r1.1 == Next::Call(DbCall::GetSession(id)),
        r2.1 matches Next::Call(DbCall::InsertEvent { session_id, kind, payload }) && session_id
            == id && kind@ == "session.finished"@ && payload == report_payload(params),
        r3.1 == Next::Call(DbCall::MarkFinished(id)),
{
    reveal_strlit("session.report_event");
    reveal_strlit("plugin.hello");
    reveal_strlit("session.discover");
    assert("session.report_event"@ != "plugin.hello"@) by {
        assert("session.report_event"@.len() != "plugin.hello"@.len());
    }
    assert("session.report_event"@ != "session.discover"@) by {
        assert("session.report_event"@.len() != "session.discover"@.len());
    }
    let f = r1.0->AwaitReportLookup_follow_up;
    lemma_finished_follow_up("session.finished"@, report_payload(params), f);
}

/// The session inserted for `session.discover` is bound to the tmux session
/// and pane the plugin named, in the working directory it named, as a
/// starting, discovered session of the plugin's agent kind.
pub proof fn lemma_discover_binds_tmux(
    params: JsonValue,
    plugin_name: Seq<char>,
    new_id: u128,
    now: Timestamp,
    r: (PluginStage, Next),
    ts: Seq<char>,
    pane: Seq<char>,
    wd: Seq<char>,
    agent: AgentType,
)
    requires
        dispatch_spec("session.discover"@, params, plugin_name, new_id, now, r),
        params.str_field("tmux_session"@) == Some(ts),
        params.str_field("tmux_pane_id"@) == Some(pane),
        params.str_field("working_dir"@) == Some(wd),
        AgentType::from_wire_spec(plugin_name) == Some(agent),
    ensures
        r.1 matches Next::Call(DbCall::InsertSession(s)) && {
            &&& s.tmux_session matches Some(x) && x@ == ts
            &&& s.tmux_pane_id matches Some(y) && y@ == pane
            &&& s.working_dir@ == wd
            &&& s.id == new_id
            &&& s.agent_type == agent
            &&& s.source == SessionSource::Discovered
            &&& s.status == SessionStatus::Starting
        },
{
    reveal_strlit("plugin.hello");
    reveal_strlit("session.discover");
    assert("session.discover"@ != "plugin.hello"@) by {
        assert("session.discover"@.len() != "plugin.hello"@.len());
    }
}

/// What follows a reported event, by its kind: a known status is set, an
/// unknown one refused, a task set, the usage numbers the payload reports
/// (and only those) set, and any other kind only recorded.
pub proof fn lemma_follow_up_by_kind(kind: Seq<char>, payload: JsonValue, f: FollowUp)
    requires
        follow_up_spec(kind, payload, f),
    ensures
        kind == "session.status_changed"@ ==> match payload.str_field("status"@) {
            Some(t) => match SessionStatus::from_wire_spec(t) {
                Some(st) => f == FollowUp::SetStatus(st),
                None => f == FollowUp::RejectStatus,
            },
            None => f == FollowUp::Nothing,
        },
        kind == "session.task_changed"@ ==> match payload.str_field("task"@) {
            Some(t) => f matches FollowUp::SetTask(x) && x@ == t,
            None => f == FollowUp::Nothing,
        },
        kind == "session.usage_updated"@ ==> f == (FollowUp::SetUsage {
            used: payload.u64_field("used"@),
            total: payload.u64_field("total"@),
            cost: payload.number_field("cost_usd"@),
        }),
        kind != "session.status_changed"@ && kind != "session.task_changed"@ && kind
            != "session.usage_updated"@ && kind != "session.finished"@ ==> f == FollowUp::Nothing,
{
    reveal_strlit("session.finished");
    reveal_strlit("session.status_changed");
    reveal_strlit("session.task_changed");
    reveal_strlit("session.usage_updated");
    assert("session.status_changed"@.len() != "session.task_changed"@.len());
    assert("session.status_changed"@.len() != "session.usage_updated"@.len());
    assert("session.task_changed"@.len() != "session.usage_updated"@.len());
}

/// Once the event is recorded, its follow-up becomes the matching write to
/// the same session: status, task, usage or finished; a refused status
/// fails with `InvalidParams`; with nothing to follow the report is
/// accepted. A failed recording fails the call.
pub proof fn lemma_follow_up_write(id: u128, follow_up: FollowUp, reply: DbReply, r: (PluginStage, Next))
    requires
        resume_spec((PluginStage::AwaitEventInsert { id, follow_up }), reply, r),
    ensures
        reply != DbReply::Done ==> r.0 == PluginStage::Done && r.1 == Next::Answer(
            Reply::Error(ProtocolError::InternalError),
        ),
        reply == DbReply::Done ==> match follow_up {
            FollowUp::MarkFinished => r.1 == Next::Call(DbCall::MarkFinished(id)),
            FollowUp::SetStatus(st) => r.1 == Next::Call((DbCall::UpdateStatus { id, status: st })),
            FollowUp::SetTask(t) => r.1 == Next::Call((DbCall::UpdateTask { id, task: t })),
            FollowUp::SetUsage { used, total, cost } => r.1 == Next::Call(
                (DbCall::UpdateUsage { id, used, total, cost }),
            ),
            FollowUp::RejectStatus => r.1 == Next::Answer(Reply::Error(ProtocolError::InvalidParams)),
            FollowUp::Nothing => r.0 == PluginStage::Done && (r.1 matches Next::Answer(
                Reply::Value(v),
            ) && is_report_answer(v, id)),
        },
{
}

/// A report about a session that does not exist fails with
/// `SessionNotFound`; about one that exists, the event is recorded for it,
/// with the kind and payload reported.
pub proof fn lemma_report_lookup(
    id: u128,
    kind: String,
    payload: JsonValue,
    follow_up: FollowUp,
    reply: DbReply,
    r: (PluginStage, Next),
)
    requires
        resume_spec((PluginStage::AwaitReportLookup { id, kind, payload, follow_up }), reply, r),
    ensures
        reply == DbReply::Found(None) ==> r.1 == Next::Answer(
            Reply::Error(ProtocolError::SessionNotFound),
        ),
        reply matches DbReply::Found(Some(_)) ==> r.1 matches Next::Call(
            DbCall::InsertEvent { session_id, kind: k, payload: p },
        ) && session_id == id && k@ == kind@ && p == payload,
{
}

} // verus!
