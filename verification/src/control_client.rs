//! The client side of the control socket: the request it writes, how it
//! reads the response, and which frames of a subscription carry events.
use crate::handlers::router::member_or_null;
use crate::json::{json_str, member, JsonNumber, JsonValue};
use crate::protocol::ProtocolErrorWithMessage;
use crate::text::owned;
use vstd::prelude::*;

verus! {

/// Failures of a control call.
#[derive(Debug, PartialEq)]
pub enum ControlClientError {
    /// Socket failure: the system error's text.
    Io(String),
    /// A response or error object that does not decode: what is wrong.
    Json(String),
    /// The daemon answered with this error.
    Rpc(ProtocolErrorWithMessage),
    /// The daemon closed the connection before answering.
    Closed,
}

/// A control-socket client: the socket's path; each call connects anew.
#[derive(Debug, PartialEq)]
pub struct ControlClient {
    path: String,
}

impl ControlClient {
    /// The socket path.
    pub closed spec fn spec_path(&self) -> Seq<char> {
        self.path@
    }

    /// A client for the socket at `socket` (no connection is made yet).
    pub fn connect(socket: &str) -> (r: Result<ControlClient, ControlClientError>)
        ensures
            r matches Ok(c) && c.spec_path() == socket@,
    {
        Ok(ControlClient { path: owned(socket) })
    }

    /// The socket path.
    pub fn path(&self) -> (r: &str)
        ensures
            r@ == self.spec_path(),
    {
        self.path.as_str()
    }
}

/// `{"jsonrpc": "2.0", "id": 1, "method": method, "params": params}`.
pub open spec fn is_request(v: JsonValue, method: Seq<char>, params: JsonValue) -> bool {
    &&& v matches JsonValue::Object(f) && f@.len() == 4
    &&& v->Object_0@[0].0@ == "jsonrpc"@ && v->Object_0@[0].1.spec_as_str() == Some("2.0"@)
    &&& v->Object_0@[1].0@ == "id"@ && v->Object_0@[1].1 == JsonValue::Number(JsonNumber::PosInt(1))
    &&& v->Object_0@[2].0@ == "method"@ && v->Object_0@[2].1.spec_as_str() == Some(method)
    &&& v->Object_0@[3].0@ == "params"@ && v->Object_0@[3].1 == params
}

/// The request of one call (always id 1: one call per connection).
pub fn request(method: &str, params: JsonValue) -> (v: JsonValue)
    ensures
        is_request(v, method@, params),
{
    let mut f: Vec<(String, JsonValue)> = Vec::new();
    f.push(member("jsonrpc", json_str("2.0")));
    f.push(member("id", JsonValue::Number(JsonNumber::PosInt(1))));
    f.push(member("method", json_str(method)));
    f.push(member("params", params));
    JsonValue::Object(f)
}

/// The request of a subscription: method `subscribe` with the filter.
pub fn subscribe_request(filter: JsonValue) -> (v: JsonValue)
    ensures
        is_request(v, "subscribe"@, filter),
{
    request("subscribe", filter)
}

/// The integer a JSON number stands for, when it is an integer that fits
/// an `i64`.
pub open spec fn as_i64(n: JsonNumber) -> Option<i64> {
    match n {
        JsonNumber::PosInt(u) => if u <= i64::MAX {
            Some(u as i64)
        } else {
            None
        },
        JsonNumber::NegInt(i) => Some(i),
        JsonNumber::Float(_) => None,
    }
}

/// The error object decoded: an object with an integer `code` that fits an
/// `i64` and a string `message`.
pub open spec fn decoded_error(e: JsonValue) -> Option<(i64, Seq<char>)> {
    match (e.number_field("code"@), e.str_field("message"@)) {
        (Some(n), Some(m)) => match as_i64(n) {
            Some(c) => Some((c, m)),
            None => None,
        },
        _ => None,
    }
}

/// What one call gives back for a response: an `error` member, whatever
/// its value, makes the call fail (with that error, or with a decoding
/// failure when it does not decode); otherwise the `result` member, `null`
/// when there is none.
pub fn response_outcome(resp: JsonValue) -> (r: Result<JsonValue, ControlClientError>)
    ensures
        match resp.spec_get("error"@) {
            Some(e) => match decoded_error(e) {
                Some((code, message)) => r matches Err(ControlClientError::Rpc(p)) && p.code
                    == code && p.message@ == message,
                None => r matches Err(ControlClientError::Json(_)),
            },
            None => r == Ok::<JsonValue, ControlClientError>(member_or_null(resp, "result"@)),
        },
{
    let mut resp = resp;
    proof {
        reveal_strlit("error");
        reveal_strlit("result");
        reveal_strlit("code");
        reveal_strlit("message");
    }
    match resp.get("error") {
        Some(e) => {
            let code: Option<i64> = match e.get_number("code") {
                Some(JsonNumber::PosInt(u)) => if u <= 0x7fff_ffff_ffff_ffffu64 {
                    Some(u as i64)
                } else {
                    None
                },
                Some(JsonNumber::NegInt(i)) => Some(i),
                _ => None,
            };
            match (code, e.get_str("message")) {
                (Some(c), Some(m)) => Err(
                    ControlClientError::Rpc(ProtocolErrorWithMessage { code: c, message: owned(m) }),
                ),
                _ => Err(ControlClientError::Json(owned("invalid error object"))),
            }
        },
        None => Ok(resp.take_or_null("result")),
    }
}

/// The event a subscription frame carries: a frame without an `id` is a
/// notification, and its `params` is the event; a frame with an `id`, or
/// without `params`, carries none.
pub fn event_frame(frame: JsonValue) -> (r: Option<JsonValue>)
    ensures
        r == if frame.spec_get("id"@) is None {
            frame.spec_get("params"@)
        } else {
            None
        },
{
    let mut frame = frame;
    proof {
        reveal_strlit("id");
        reveal_strlit("params");
    }
    if frame.get("id").is_some() {
        return None;
    }
    frame.take_member("params")
}

} // verus!
