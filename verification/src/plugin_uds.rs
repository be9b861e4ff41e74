//! The first exchange on a plugin's socket: reading its `plugin.hello`,
//! answering it, and the database records of the connection.
use crate::handlers::DbCall;
use crate::handlers::router::json_rpc_result;
use crate::ipc::framing::FramingError;
use crate::json::{json_str, member, JsonNumber, JsonValue};
use crate::plugin_heartbeat::HEARTBEAT_INTERVAL_SECS;
use crate::protocol::{ProtocolError, Timestamp};
use crate::ids::{new_uuid_v7, utc_now};
use crate::text::owned;
use vstd::prelude::*;

verus! {

/// Failures of the handshake.
#[derive(Debug, PartialEq)]
pub enum HandshakeError {
    /// Socket failure or early end of stream: the system error's text.
    Io(String),
    /// The hello line does not frame or parse.
    Frame(FramingError),
    /// The hello breaks the protocol (no `params`, or no string `params.name`).
    Protocol(ProtocolError),
    /// No plugin connected, or no hello arrived, in time.
    Timeout,
}

/// What a plugin said in its hello.
#[derive(Debug, PartialEq)]
pub struct HandshakeResult {
    /// `params.name`.
    pub plugin_name: String,
    /// `params.version`, empty when absent or not a string.
    pub version: String,
    /// `params.pid`, capped at `u32::MAX`, when it is an unsigned integer.
    pub pid: Option<u32>,
}

/// `params.pid` as a `u32`, capped at `u32::MAX`.
pub open spec fn capped_pid(p: Option<u64>) -> Option<u32> {
    match p {
        Some(n) => Some(if n > u32::MAX { u32::MAX } else { n as u32 }),
        None => None,
    }
}

/// Read the fields of a `plugin.hello` request.
pub fn parse_hello(req: &JsonValue) -> (r: Result<HandshakeResult, HandshakeError>)
    ensures
        match req.spec_get("params"@) {
            None => r == Err::<HandshakeResult, HandshakeError>(
                HandshakeError::Protocol(ProtocolError::InvalidParams),
            ),
            Some(params) => match params.str_field("name"@) {
                None => r == Err::<HandshakeResult, HandshakeError>(
                    HandshakeError::Protocol(ProtocolError::InvalidParams),
                ),
                Some(name) => r matches Ok(h) && {
                    &&& h.plugin_name@ == name
                    &&& h.version@ == match params.str_field("version"@) {
                        Some(v) => v,
                        None => Seq::<char>::empty(),
                    }
                    &&& h.pid == capped_pid(params.u64_field("pid"@))
                },
            },
        },
{
    proof {
        reveal_strlit("params");
        reveal_strlit("name");
        reveal_strlit("version");
        reveal_strlit("pid");
        reveal_strlit("");
    }
    let params = match req.get("params") {
        Some(p) => p,
        None => return Err(HandshakeError::Protocol(ProtocolError::InvalidParams)),
    };
    let name = match params.get_str("name") {
        Some(n) => owned(n),
        None => return Err(HandshakeError::Protocol(ProtocolError::InvalidParams)),
    };
    let version = match params.get_str("version") {
        Some(v) => owned(v),
        None => owned(""),
    };
    let pid: Option<u32> = match params.get_u64("pid") {
        Some(p) => Some(
            if p > 0xffff_ffffu64 {
                0xffff_ffffu32
            } else {
                p as u32
            },
        ),
        None => None,
    };
    Ok(HandshakeResult { plugin_name: name, version, pid })
}

/// The id the hello answer echoes: the request's `id`, or `1` when it has
/// none.
pub open spec fn hello_id(req: JsonValue) -> JsonValue {
    match req.spec_get("id"@) {
        Some(id) => id,
        None => JsonValue::Number(JsonNumber::PosInt(1)),
    }
}

/// The answer to a hello: `{"jsonrpc": "2.0", "id": <id or 1>, "result":
/// {"ok": true, "plugin_id": name, "heartbeat_interval_secs": 5}}`.
pub fn hello_response(req: JsonValue, name: &str) -> (v: JsonValue)
    ensures
        v matches JsonValue::Object(f) && f@.len() == 3,
        v->Object_0@[0].0@ == "jsonrpc"@ && v->Object_0@[0].1.spec_as_str() == Some("2.0"@),
        v->Object_0@[1].0@ == "id"@ && v->Object_0@[1].1 == hello_id(req),
        v->Object_0@[2].0@ == "result"@,
        v->Object_0@[2].1 matches JsonValue::Object(r) && r@.len() == 3,
        v->Object_0@[2].1->Object_0@[0].0@ == "ok"@,
        v->Object_0@[2].1->Object_0@[0].1 == JsonValue::Bool(true),
        v->Object_0@[2].1->Object_0@[1].0@ == "plugin_id"@,
        v->Object_0@[2].1->Object_0@[1].1.spec_as_str() == Some(name@),
        v->Object_0@[2].1->Object_0@[2].0@ == "heartbeat_interval_secs"@,
        v->Object_0@[2].1->Object_0@[2].1 == JsonValue::Number(
            JsonNumber::PosInt(HEARTBEAT_INTERVAL_SECS),
        ),
{
    let mut req = req;
    proof {
        reveal_strlit("id");
    }
    let id = match req.take_member("id") {
        Some(id) => id,
        None => JsonValue::Number(JsonNumber::PosInt(1)),
    };
    let mut result: Vec<(String, JsonValue)> = Vec::new();
    result.push(member("ok", JsonValue::Bool(true)));
    result.push(member("plugin_id", json_str(name)));
    result.push(
        member(
            "heartbeat_interval_secs",
            JsonValue::Number(JsonNumber::PosInt(HEARTBEAT_INTERVAL_SECS)),
        ),
    );
    json_rpc_result(id, JsonValue::Object(result))
}

/// The database records of a completed handshake, written in order (the
/// second only when the first succeeds): the plugin's row, with binary
/// `agentd-plugin-<name>`, socket `<name>.sock` and autostart on; then its
/// last connection at `now`.
pub fn handshake_records(name: &str, now: Timestamp) -> (r: (DbCall, DbCall))
    ensures
        r.0 matches DbCall::UpsertPlugin { name: n, binary, socket_name, autostart } && {
            &&& n@ == name@
            &&& binary@ == "agentd-plugin-"@ + name@
            &&& socket_name@ == name@ + ".sock"@
            &&& autostart
        },
        r.1 matches DbCall::SetLastConnected { name: n, at } && n@ == name@ && at == now,
{
    let binary = owned("agentd-plugin-").concat(name);
    let socket_name = owned(name).concat(".sock");
    proof {
        reveal_strlit("agentd-plugin-");
        reveal_strlit(".sock");
    }
    (
        DbCall::UpsertPlugin {
            name: owned(name),
            binary,
            socket_name,
            autostart: true,
        },
        DbCall::SetLastConnected { name: owned(name), at: now },
    )
}

/// The database records of a handshake completed now (`handshake_records`
/// at the current time).
pub fn handshake_records_now(name: &str) -> (r: (DbCall, DbCall))
    ensures
        r.0 matches DbCall::UpsertPlugin { name: n, binary, socket_name, autostart } && {
            &&& n@ == name@
            &&& binary@ == "agentd-plugin-"@ + name@
            &&& socket_name@ == name@ + ".sock"@
            &&& autostart
        },
        r.1 matches DbCall::SetLastConnected { name: n, at: _ } && n@ == name@,
{
    handshake_records(name, utc_now())
}

} // verus!
