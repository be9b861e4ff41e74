//! Read-only methods of the control socket: `state.snapshot`,
//! `session.get`, `session.events`, `daemon.status`, `plugin.list` and
//! `metrics`.
use crate::db::repo::EventRecord;
use crate::ids::{format_uuid, parse_uuid, uuid_from_text, uuid_text};
use crate::json::{member, JsonNumber, JsonValue};
use crate::text::str_eq;
use vstd::prelude::*;

verus! {

/// The database read a read-only method needs.
#[derive(Debug, PartialEq)]
pub enum ReadPlan {
    /// Every session and plugin, for `{"sessions": [...], "plugins": [...]}`.
    Snapshot,
    /// The session with this id, encoded.
    GetSession(u128),
    /// The events of the session with this id, for `{"events": [...]}`.
    Events(u128),
    /// The number of sessions, for [`status_value`].
    Status,
    /// Every plugin, encoded.
    PluginList,
    /// Nothing to read: this is the answer.
    Answer(JsonValue),
}

/// The id a `session.get` or `session.events` call names.
pub open spec fn id_param(params: JsonValue) -> Option<u128> {
    match params.str_field("id"@) {
        Some(t) => uuid_from_text(t),
        None => None,
    }
}

/// The plan of a read-only call; `None` where the method is not a read, or
/// its params do not name a session.
pub open spec fn plan_spec(method: Seq<char>, params: JsonValue, r: Option<ReadPlan>) -> bool {
    if method == "state.snapshot"@ {
        r == Some(ReadPlan::Snapshot)
    } else if method == "session.get"@ {
        r == match id_param(params) {
            Some(id) => Some(ReadPlan::GetSession(id)),
            None => None,
        }
    } else if method == "session.events"@ {
        r == match id_param(params) {
            Some(id) => Some(ReadPlan::Events(id)),
            None => None,
        }
    } else if method == "daemon.status"@ {
        r == Some(ReadPlan::Status)
    } else if method == "plugin.list"@ {
        r == Some(ReadPlan::PluginList)
    } else if method == "metrics"@ {
        r matches Some(ReadPlan::Answer(v)) && is_metrics_value(v)
    } else {
        r is None
    }
}

/// `{"status": "not yet implemented"}`.
pub open spec fn is_metrics_value(v: JsonValue) -> bool {
    &&& v matches JsonValue::Object(f) && f@.len() == 1
    &&& v->Object_0@[0].0@ == "status"@ && v->Object_0@[0].1.spec_as_str() == Some(
        "not yet implemented"@,
    )
}

fn id_of(params: &JsonValue) -> (r: Option<u128>)
    ensures
        r == id_param(*params),
{
    match params.get_str("id") {
        Some(t) => parse_uuid(t),
        None => None,
    }
}

/// Plan a read-only call.
pub fn plan(method: &str, params: &JsonValue) -> (r: Option<ReadPlan>)
    ensures
        plan_spec(method@, *params, r),
{
    if str_eq(method, "state.snapshot") {
        Some(ReadPlan::Snapshot)
    } else if str_eq(method, "session.get") {
        match id_of(params) {
            Some(id) => Some(ReadPlan::GetSession(id)),
            None => None,
        }
    } else if str_eq(method, "session.events") {
        match id_of(params) {
            Some(id) => Some(ReadPlan::Events(id)),
            None => None,
        }
    } else if str_eq(method, "daemon.status") {
        Some(ReadPlan::Status)
    } else if str_eq(method, "plugin.list") {
        Some(ReadPlan::PluginList)
    } else if str_eq(method, "metrics") {
        let mut f: Vec<(String, JsonValue)> = Vec::new();
        f.push(member("status", JsonValue::Str(crate::text::owned("not yet implemented"))));
        Some(ReadPlan::Answer(JsonValue::Object(f)))
    } else {
        None
    }
}

/// The result of `daemon.status`:
/// `{"version": version, "uptime_secs": 0, "session_count": count}`.
pub fn status_value(version: &str, session_count: u64) -> (v: JsonValue)
    ensures
        v matches JsonValue::Object(f) && f@.len() == 3 && f@[0].0@ == "version"@
            && f@[0].1.spec_as_str() == Some(version@) && f@[1].0@ == "uptime_secs"@ && f@[1].1
            == JsonValue::Number(JsonNumber::PosInt(0)) && f@[2].0@ == "session_count"@ && f@[2].1
            == JsonValue::Number(JsonNumber::PosInt(session_count)),
{
    let mut f: Vec<(String, JsonValue)> = Vec::new();
    f.push(member("version", JsonValue::Str(crate::text::owned(version))));
    f.push(member("uptime_secs", JsonValue::Number(JsonNumber::PosInt(0))));
    f.push(member("session_count", JsonValue::Number(JsonNumber::PosInt(session_count))));
    JsonValue::Object(f)
}

/// The result of `state.snapshot` from the encoded session and plugin lists.
pub fn snapshot_value(sessions: JsonValue, plugins: JsonValue) -> (v: JsonValue)
    ensures
        v matches JsonValue::Object(f) && f@.len() == 2 && f@[0].0@ == "sessions"@ && f@[0].1
            == sessions && f@[1].0@ == "plugins"@ && f@[1].1 == plugins,
{
    let mut f: Vec<(String, JsonValue)> = Vec::new();
    f.push(member("sessions", sessions));
    f.push(member("plugins", plugins));
    JsonValue::Object(f)
}

/// The result of `session.events` from the encoded event list.
pub fn events_value(events: JsonValue) -> (v: JsonValue)
    ensures
        v matches JsonValue::Object(f) && f@.len() == 1 && f@[0].0@ == "events"@ && f@[0].1
            == events,
{
    let mut f: Vec<(String, JsonValue)> = Vec::new();
    f.push(member("events", events));
    JsonValue::Object(f)
}

/// A JSON integer for an `i64`: non-negative values as positive integers.
pub open spec fn int_number(n: i64) -> JsonNumber {
    if n >= 0 {
        JsonNumber::PosInt(n as u64)
    } else {
        JsonNumber::NegInt(n)
    }
}

/// One stored event as `session.events` lists it:
/// `{"id", "session_id", "kind", "payload", "created_at"}`, the session id as
/// its hyphenated text.
pub fn event_object(e: EventRecord) -> (v: JsonValue)
    ensures
        v matches JsonValue::Object(f) && f@.len() == 5,
        v->Object_0@[0].0@ == "id"@ && v->Object_0@[0].1 == JsonValue::Number(int_number(e.id)),
        v->Object_0@[1].0@ == "session_id"@ && v->Object_0@[1].1.spec_as_str() == Some(
            uuid_text(e.session_id),
        ),
        v->Object_0@[2].0@ == "kind"@ && v->Object_0@[2].1.spec_as_str() == Some(e.kind@),
        v->Object_0@[3].0@ == "payload"@ && v->Object_0@[3].1 == e.payload,
        v->Object_0@[4].0@ == "created_at"@ && v->Object_0@[4].1.spec_as_str() == Some(
            e.created_at@,
        ),
{
    let EventRecord { id, session_id, kind, payload, created_at } = e;
    let n = if id >= 0 {
        JsonNumber::PosInt(id as u64)
    } else {
        JsonNumber::NegInt(id)
    };
    let mut f: Vec<(String, JsonValue)> = Vec::new();
    f.push(member("id", JsonValue::Number(n)));
    f.push(member("session_id", JsonValue::Str(format_uuid(session_id))));
    f.push(member("kind", JsonValue::Str(kind)));
    f.push(member("payload", payload));
    f.push(member("created_at", JsonValue::Str(created_at)));
    JsonValue::Object(f)
}

} // verus!
