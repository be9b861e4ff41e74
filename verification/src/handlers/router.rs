//! JSON-RPC 2.0 envelopes of the control and plugin sockets: reading a
//! request, answering with a result or an error.
use crate::handlers::mutate::MutateResult;
use crate::handlers::Reply;
use crate::json::{member, JsonNumber, JsonValue};
use crate::protocol::ProtocolError;
use crate::text::{owned, trim, trimmed};
use vstd::prelude::*;

verus! {

/// A request: its id (echoed back), method and params.
#[derive(Debug, PartialEq)]
pub struct Request {
    pub id: JsonValue,
    pub method: String,
    pub params: JsonValue,
}

/// The member `key` of `v`, or `null` where it has none.
pub open spec fn member_or_null(v: JsonValue, key: Seq<char>) -> JsonValue {
    match v.spec_get(key) {
        Some(x) => x,
        None => JsonValue::Null,
    }
}

/// `{"jsonrpc": "2.0", "id": id, "result": result}`.
pub open spec fn is_result_envelope(v: JsonValue, id: JsonValue, result: JsonValue) -> bool {
    &&& v matches JsonValue::Object(f) && f@.len() == 3
    &&& v->Object_0@[0].0@ == "jsonrpc"@ && v->Object_0@[0].1.spec_as_str() == Some("2.0"@)
    &&& v->Object_0@[1].0@ == "id"@ && v->Object_0@[1].1 == id
    &&& v->Object_0@[2].0@ == "result"@ && v->Object_0@[2].1 == result
}

/// `{"code": <code of e>, "message": <message of e>}`.
pub open spec fn is_error_body(v: JsonValue, e: ProtocolError) -> bool {
    &&& v matches JsonValue::Object(f) && f@.len() == 2
    &&& v->Object_0@[0].0@ == "code"@ && v->Object_0@[0].1 == JsonValue::Number(
        JsonNumber::NegInt(e.spec_code() as i64),
    )
    &&& v->Object_0@[1].0@ == "message"@ && v->Object_0@[1].1.spec_as_str() == Some(
        e.spec_message(),
    )
}

/// `{"jsonrpc": "2.0", "id": id, "error": {"code": ..., "message": ...}}`.
pub open spec fn is_error_envelope(v: JsonValue, id: JsonValue, e: ProtocolError) -> bool {
    &&& v matches JsonValue::Object(f) && f@.len() == 3
    &&& v->Object_0@[0].0@ == "jsonrpc"@ && v->Object_0@[0].1.spec_as_str() == Some("2.0"@)
    &&& v->Object_0@[1].0@ == "id"@ && v->Object_0@[1].1 == id
    &&& v->Object_0@[2].0@ == "error"@ && is_error_body(v->Object_0@[2].1, e)
}

/// A JSON-RPC success response.
pub fn json_rpc_result(id: JsonValue, result: JsonValue) -> (v: JsonValue)
    ensures
        is_result_envelope(v, id, result),
{
    let mut f: Vec<(String, JsonValue)> = Vec::new();
    f.push(member("jsonrpc", JsonValue::Str(owned("2.0"))));
    f.push(member("id", id));
    f.push(member("result", result));
    JsonValue::Object(f)
}

/// A JSON-RPC error response.
pub fn json_rpc_error(id: JsonValue, err: ProtocolError) -> (v: JsonValue)
    ensures
        is_error_envelope(v, id, err),
{
    let mut body: Vec<(String, JsonValue)> = Vec::new();
    body.push(member("code", JsonValue::Number(JsonNumber::NegInt(err.code()))));
    body.push(member("message", JsonValue::Str(owned(err.message()))));
    let mut f: Vec<(String, JsonValue)> = Vec::new();
    f.push(member("jsonrpc", JsonValue::Str(owned("2.0"))));
    f.push(member("id", id));
    f.push(member("error", JsonValue::Object(body)));
    JsonValue::Object(f)
}

/// The response to a call that ended with `result`.
pub fn respond(id: JsonValue, result: MutateResult) -> (v: JsonValue)
    ensures
        match result {
            MutateResult::Success(r) => is_result_envelope(v, id, r),
            MutateResult::Failure(e) => is_error_envelope(v, id, e),
        },
{
    match result {
        MutateResult::Success(r) => json_rpc_result(id, r),
        MutateResult::Failure(e) => json_rpc_error(id, e),
    }
}

/// The response to a call answered with `reply`. A session is answered with
/// `encoded`, its JSON form as the caller encoded it, or with
/// `InternalError` where it did not encode.
pub fn reply_envelope(id: JsonValue, reply: Reply, encoded: Option<JsonValue>) -> (v: JsonValue)
    ensures
        match reply {
            Reply::Value(r) => is_result_envelope(v, id, r),
            Reply::Error(e) => is_error_envelope(v, id, e),
            Reply::Session(_) => match encoded {
                Some(r) => is_result_envelope(v, id, r),
                None => is_error_envelope(v, id, ProtocolError::InternalError),
            },
        },
{
    match reply {
        Reply::Value(r) => json_rpc_result(id, r),
        Reply::Error(e) => json_rpc_error(id, e),
        Reply::Session(_) => match encoded {
            Some(r) => json_rpc_result(id, r),
            None => json_rpc_error(id, ProtocolError::InternalError),
        },
    }
}

/// The text of a request line: the line trimmed, `None` when nothing is left.
pub fn request_text(line: &str) -> (r: Option<String>)
    ensures
        trimmed(line@).len() == 0 ==> r is None,
        trimmed(line@).len() > 0 ==> (r matches Some(t) && t@ == trimmed(line@)),
{
    let t = trim(line);
    if t.as_str().unicode_len() == 0 {
        None
    } else {
        Some(t)
    }
}

/// Split a control-socket request into id, method and params. A request
/// without a string `method` is answered with `InvalidRequest`.
pub fn parse_request(req: JsonValue) -> (r: Result<Request, JsonValue>)
    ensures
        match req.str_field("method"@) {
            Some(m) => r matches Ok(q) && q.method@ == m && q.id == member_or_null(req, "id"@)
                && q.params == member_or_null(req, "params"@),
            None => r matches Err(resp) && is_error_envelope(
                resp,
                member_or_null(req, "id"@),
                ProtocolError::InvalidRequest,
            ),
        },
{
    let ghost r0 = req;
    let method = match req.get_str("method") {
        Some(m) => Some(owned(m)),
        None => None,
    };
    let mut req = req;
    let id = req.take_or_null("id");
    match method {
        Some(m) => {
            let params = req.take_or_null("params");
            proof {
                reveal_strlit("id");
                reveal_strlit("params");
                assert("id"@.len() != "params"@.len());
            }
            Ok(Request { id, method: m, params })
        },
        None => Err(json_rpc_error(id, ProtocolError::InvalidRequest)),
    }
}

/// Split a plugin-socket request into id, method (empty when absent) and params.
pub fn parse_plugin_request(msg: JsonValue) -> (r: Request)
    ensures
        r.id == member_or_null(msg, "id"@),
        r.params == member_or_null(msg, "params"@),
        r.method@ == match msg.str_field("method"@) {
            Some(m) => m,
            None => Seq::<char>::empty(),
        },
{
    let ghost m0 = msg;
    let method = match msg.get_str("method") {
        Some(m) => owned(m),
        None => String::new(),
    };
    let mut msg = msg;
    let id = msg.take_or_null("id");
    proof {
        reveal_strlit("id");
        reveal_strlit("params");
        reveal_strlit("method");
        assert("id"@.len() != "params"@.len());
        assert("id"@.len() != "method"@.len());
    }
    let params = msg.take_or_null("params");
    Request { id, method, params }
}

} // verus!
