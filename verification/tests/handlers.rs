use agentd::db::repo::EventRecord;
use agentd::handlers::read::event_object;
use agentd::handlers::router::reply_envelope;
use agentd::handlers::mutate;
use agentd::handlers::mutate::{dispatch, resume, MutateResult, MutateStage};
use agentd::handlers::plugin_handlers;
use agentd::handlers::plugin_handlers::PluginStage;
use agentd::handlers::read::{events_value, plan, snapshot_value, status_value, ReadPlan};
use agentd::handlers::router::{
    json_rpc_error, json_rpc_result, parse_plugin_request, parse_request, request_text, respond,
};
use agentd::handlers::subscriber_registry::SubscriberRegistry;
use agentd::handlers::{fresh_session, DbCall, DbReply, Next, Reply};

use agentd::json::{json_str, member, JsonNumber, JsonValue};
use agentd::protocol::{AgentType, ProtocolError, Session, SessionSource, SessionStatus, Timestamp};

const NOW: Timestamp = Timestamp { secs: 1_700_000_000, nanos: 0 };

fn obj(members: Vec<(String, JsonValue)>) -> JsonValue {
    JsonValue::Object(members)
}

fn a_session(id: u128, status: SessionStatus) -> Session {
    let mut s = fresh_session(
        id,
        AgentType::Codex,
        "/w".to_string(),
        "w".to_string(),
        SessionSource::Cli,
        NOW,
        JsonValue::Null,
    );
    s.status = status;
    s
}

#[test]
fn create_inserts_a_fresh_session_then_answers_it() {
    let params = obj(vec![
        member("agent_type", json_str("opencode")),
        member("working_dir", json_str("/home/me/proj")),
    ]);
    let d = dispatch("session.create", &params, 99, NOW);
    assert_eq!(d.stage, MutateStage::AwaitCreate);
    assert!(!d.shutdown);
    let s = match d.next {
        Next::Call(DbCall::InsertSession(s)) => s,
        other => panic!("unexpected {other:?}"),
    };
    assert_eq!(s.id, 99);
    assert_eq!(s.display_name, "proj");
    assert_eq!(s.status, SessionStatus::Starting);
    assert_eq!(s.source, SessionSource::Cli);
    assert_eq!(s.created_at, NOW);
    assert_eq!(s.metadata, JsonValue::Object(vec![]));
    let (stage, next) = resume(MutateStage::AwaitCreate, DbReply::Inserted(a_session(99, SessionStatus::Starting)));
    assert_eq!(stage, MutateStage::Done);
    assert_eq!(next, Next::Answer(Reply::Session(a_session(99, SessionStatus::Starting))));
    let (_, failed) = resume(MutateStage::AwaitCreate, DbReply::Failed);
    assert_eq!(failed, Next::Answer(Reply::Error(ProtocolError::InternalError)));
}

#[test]
fn create_rejects_bad_params() {
    let unknown = obj(vec![member("agent_type", json_str("gpt")), member("working_dir", json_str("/"))]);
    let d = dispatch("session.create", &unknown, 1, NOW);
    assert_eq!(d.next, Next::Answer(Reply::Error(ProtocolError::InvalidParams)));
    let no_dir = obj(vec![member("agent_type", json_str("aider"))]);
    assert_eq!(
        dispatch("session.create", &no_dir, 1, NOW).next,
        Next::Answer(Reply::Error(ProtocolError::InvalidParams))
    );
    let named = obj(vec![
        member("agent_type", json_str("aider")),
        member("working_dir", json_str("/")),
        member("name", json_str("mine")),
    ]);
    match dispatch("session.create", &named, 1, NOW).next {
        Next::Call(DbCall::InsertSession(s)) => assert_eq!(s.display_name, "mine"),
        other => panic!("unexpected {other:?}"),
    }
}

#[test]
fn rename_then_reload() {
    let id = 0xabcdefu128;
    let params = obj(vec![member("id", json_str(&uuid_text(id))), member("name", json_str("new"))]);
    let d = dispatch("session.rename", &params, 0, NOW);
    assert_eq!(d.stage, MutateStage::AwaitRename(id));
    assert_eq!(d.next, Next::Call(DbCall::UpdateRename { id, name: "new".into() }));
    let (stage, next) = resume(MutateStage::AwaitRename(id), DbReply::Done);
    assert_eq!(stage, MutateStage::AwaitRenamedSession);
    assert_eq!(next, Next::Call(DbCall::GetSession(id)));
    let (_, missing) = resume(MutateStage::AwaitRename(id), DbReply::Failed);
    assert_eq!(missing, Next::Answer(Reply::Error(ProtocolError::SessionNotFound)));
    let (_, gone) = resume(MutateStage::AwaitRenamedSession, DbReply::Found(None));
    assert_eq!(gone, Next::Answer(Reply::Error(ProtocolError::SessionNotFound)));
    let bad = obj(vec![member("id", json_str("nope")), member("name", json_str("n"))]);
    assert_eq!(
        dispatch("session.rename", &bad, 0, NOW).next,
        Next::Answer(Reply::Error(ProtocolError::InvalidParams))
    );
}

#[test]
fn dismiss_error_only_for_errored_sessions() {
    let id = 5u128;
    let params = obj(vec![member("id", json_str(&uuid_text(id)))]);
    let d = dispatch("session.dismiss_error", &params, 0, NOW);
    assert_eq!(d.next, Next::Call(DbCall::GetSession(id)));
    let (stage, next) = resume(MutateStage::AwaitDismissLookup(id), DbReply::Found(Some(a_session(id, SessionStatus::Errored))));
    assert_eq!(stage, MutateStage::AwaitDismissUpdate(id));
    assert_eq!(next, Next::Call(DbCall::UpdateStatus { id, status: SessionStatus::Idle }));
    let (_, not_errored) = resume(MutateStage::AwaitDismissLookup(id), DbReply::Found(Some(a_session(id, SessionStatus::Idle))));
    assert_eq!(not_errored, Next::Answer(Reply::Error(ProtocolError::InvalidParams)));
    let (_, none) = resume(MutateStage::AwaitDismissLookup(id), DbReply::Found(None));
    assert_eq!(none, Next::Answer(Reply::Error(ProtocolError::SessionNotFound)));
}

#[test]
fn shutdown_and_unknown_methods() {
    let d = dispatch("daemon.shutdown", &JsonValue::Null, 0, NOW);
    assert!(d.shutdown);
    assert_eq!(d.next, Next::Answer(Reply::Value(obj(vec![member("ok", JsonValue::Bool(true))]))));
    assert_eq!(
        dispatch("session.jump", &JsonValue::Null, 0, NOW).next,
        Next::Answer(Reply::Error(ProtocolError::InternalError))
    );
    assert_eq!(
        dispatch("nope", &JsonValue::Null, 0, NOW).next,
        Next::Answer(Reply::Error(ProtocolError::MethodNotFound))
    );
}

#[test]
fn mutate_result_accessors() {
    assert_eq!(MutateResult::Success(JsonValue::Null).into_value(), Some(JsonValue::Null));
    assert_eq!(MutateResult::Success(JsonValue::Null).into_err(), None);
    assert_eq!(
        MutateResult::Failure(ProtocolError::InvalidParams).into_err(),
        Some(ProtocolError::InvalidParams)
    );
    assert_eq!(MutateResult::Failure(ProtocolError::InvalidParams).into_value(), None);
}

#[test]
fn read_plans() {
    assert_eq!(plan("state.snapshot", &JsonValue::Null), Some(ReadPlan::Snapshot));
    let p = obj(vec![member("id", json_str(&uuid_text(3)))]);
    assert_eq!(plan("session.get", &p), Some(ReadPlan::GetSession(3)));
    assert_eq!(plan("session.events", &p), Some(ReadPlan::Events(3)));
    assert_eq!(plan("session.get", &JsonValue::Null), None);
    assert_eq!(plan("daemon.status", &JsonValue::Null), Some(ReadPlan::Status));
    assert_eq!(plan("plugin.list", &JsonValue::Null), Some(ReadPlan::PluginList));
    assert_eq!(
        plan("metrics", &JsonValue::Null),
        Some(ReadPlan::Answer(obj(vec![member("status", json_str("not yet implemented"))])))
    );
    assert_eq!(plan("session.create", &JsonValue::Null), None);
    let s = status_value("0.1.0", 4);
    assert_eq!(s.get_str("version"), Some("0.1.0"));
    assert_eq!(s.get_u64("session_count"), Some(4));
    let snap = snapshot_value(JsonValue::Array(vec![]), JsonValue::Array(vec![]));
    assert_eq!(snap.get("sessions"), Some(&JsonValue::Array(vec![])));
    assert_eq!(events_value(JsonValue::Null).get("events"), Some(&JsonValue::Null));
}

#[test]
fn router_envelopes_echo_the_id() {
    let id = JsonValue::Number(JsonNumber::PosInt(7));
    let ok = json_rpc_result(JsonValue::Number(JsonNumber::PosInt(7)), json_str("r"));
    assert_eq!(ok.get_str("jsonrpc"), Some("2.0"));
    assert_eq!(ok.get("id"), Some(&id));
    assert_eq!(ok.get_str("result"), Some("r"));
    let err = json_rpc_error(JsonValue::Null, ProtocolError::MethodNotFound);
    let body = err.get("error").unwrap();
    assert_eq!(body.get_number("code"), Some(JsonNumber::NegInt(-32601)));
    assert_eq!(body.get_str("message"), Some("method not found"));
    let r = respond(JsonValue::Null, MutateResult::Failure(ProtocolError::SessionNotFound));
    assert!(r.get("error").is_some());
}

#[test]
fn requests_are_read_from_trimmed_lines() {
    assert_eq!(request_text("  {\"a\":1}\r\n"), Some("{\"a\":1}".to_string()));
    assert_eq!(request_text(" \n"), None);
    let req = obj(vec![
        member("id", JsonValue::Number(JsonNumber::PosInt(3))),
        member("method", json_str("session.get")),
    ]);
    let r = parse_request(req).unwrap();
    assert_eq!(r.method, "session.get");
    assert_eq!(r.params, JsonValue::Null);
    assert_eq!(r.id, JsonValue::Number(JsonNumber::PosInt(3)));
    let no_method = obj(vec![member("id", json_str("x"))]);
    let refusal = parse_request(no_method).unwrap_err();
    assert_eq!(
        refusal.get("error").unwrap().get_number("code"),
        Some(JsonNumber::NegInt(-32600))
    );
    let plugin_req = parse_plugin_request(obj(vec![member("params", JsonValue::Bool(true))]));
    assert_eq!(plugin_req.method, "");
    assert_eq!(plugin_req.id, JsonValue::Null);
    assert_eq!(plugin_req.params, JsonValue::Bool(true));
}

#[test]
fn plugin_heartbeat_and_bye_answer_at_once() {
    let (stage, next) = plugin_handlers::dispatch("plugin.heartbeat", JsonValue::Null, "opencode", 0, NOW);
    assert_eq!(stage, PluginStage::Done);
    match next {
        Next::Answer(Reply::Value(v)) => {
            assert_eq!(v.get("ok"), Some(&JsonValue::Bool(true)));
            assert_eq!(v.get_u64("events_total"), Some(0));
            assert_eq!(v.get("restart_required"), Some(&JsonValue::Bool(false)));
        }
        other => panic!("unexpected {other:?}"),
    }
    let (_, bye) = plugin_handlers::dispatch("plugin.bye", JsonValue::Null, "opencode", 0, NOW);
    assert_eq!(bye, Next::Answer(Reply::Value(obj(vec![member("ok", JsonValue::Bool(true))]))));
    let (_, unknown) = plugin_handlers::dispatch("session.create", JsonValue::Null, "p", 0, NOW);
    assert_eq!(unknown, Next::Answer(Reply::Error(ProtocolError::MethodNotFound)));
}

#[test]
fn plugin_hello_records_the_plugin() {
    let hello = obj(vec![member("name", json_str("opencode"))]);
    let (stage, next) = plugin_handlers::dispatch("plugin.hello", hello, "opencode", 0, NOW);
    assert!(matches!(stage, PluginStage::AwaitUpsert { .. }));
    match next {
        Next::Call(DbCall::UpsertPlugin { name, binary, socket_name, autostart }) => {
            assert_eq!(name, "opencode");
            assert_eq!(binary, "agentd-plugin-opencode");
            assert_eq!(socket_name, "opencode.sock");
            assert!(autostart);
        }
        other => panic!("unexpected {other:?}"),
    }
    let impostor = obj(vec![member("name", json_str("other"))]);
    let (_, refused) = plugin_handlers::dispatch("plugin.hello", impostor, "opencode", 0, NOW);
    assert_eq!(refused, Next::Answer(Reply::Error(ProtocolError::PluginNotAllowed)));
    let (_, nameless) = plugin_handlers::dispatch("plugin.hello", JsonValue::Null, "opencode", 0, NOW);
    assert_eq!(nameless, Next::Answer(Reply::Error(ProtocolError::InvalidParams)));
}

#[test]
fn subscriber_ids_are_fresh_and_dead_subscribers_go() {
    let mut reg: SubscriberRegistry<&'static str> = SubscriberRegistry::new();
    assert!(reg.is_empty());
    let a = reg.register("a");
    let b = reg.register("b");
    let c = reg.register("c");
    assert_eq!((a, b, c), (1, 2, 3));
    reg.unregister(b);
    reg.unregister(42);
    assert_eq!(reg.len(), 2);
    reg.retain_delivered(&vec![false, true]);
    assert_eq!(reg.senders(), &vec![(3usize, "c")]);
    let d = reg.register("d");
    assert_eq!(d, 4);
    let def: SubscriberRegistry<u8> = SubscriberRegistry::default();
    assert_eq!(def.len(), 0);
}

#[test]
fn create_now_draws_a_version_seven_id() {
    let params = obj(vec![
        member("agent_type", json_str("opencode")),
        member("working_dir", json_str("/home/me/proj")),
    ]);
    let d = mutate::dispatch_now("session.create", &params);
    assert_eq!(d.stage, MutateStage::AwaitCreate);
    let s = match d.next {
        Next::Call(DbCall::InsertSession(s)) => s,
        other => panic!("unexpected {other:?}"),
    };
    assert_eq!((s.id >> 76) & 0xf, 7);
    assert_eq!((s.id >> 62) & 0x3, 2);
    assert_eq!(s.display_name, "proj");
    assert!(s.created_at.secs > 1_600_000_000);
    let other = mutate::dispatch_now("session.create", &params);
    match other.next {
        Next::Call(DbCall::InsertSession(t)) => assert_ne!(t.id, s.id),
        other => panic!("unexpected {other:?}"),
    }
    let (stage, next) = plugin_handlers::dispatch_now("plugin.bye", JsonValue::Null, "opencode");
    assert_eq!(stage, PluginStage::Done);
    assert!(matches!(next, Next::Answer(Reply::Value(_))));
}

fn uuid_text(id: u128) -> String {
    uuid::Uuid::from_u128(id).to_string()
}

#[test]
fn replies_and_event_objects() {
    let ok = reply_envelope(JsonValue::Number(JsonNumber::PosInt(3)), Reply::Value(JsonValue::Bool(true)), None);
    assert_eq!(ok.get("result"), Some(&JsonValue::Bool(true)));
    assert_eq!(ok.get_u64("id"), Some(3));
    let s = a_session(5, SessionStatus::Idle);
    let enc = reply_envelope(JsonValue::Null, Reply::Session(a_session(5, SessionStatus::Idle)), Some(json_str("S")));
    assert_eq!(enc.get("result"), Some(&json_str("S")));
    let failed = reply_envelope(JsonValue::Null, Reply::Session(s), None);
    assert_eq!(failed.get("error").and_then(|e| e.get_str("message")), Some(ProtocolError::InternalError.message()));
    let err = reply_envelope(JsonValue::Null, Reply::Error(ProtocolError::MethodNotFound), Some(json_str("x")));
    assert!(err.get("result").is_none());
    let e = event_object(EventRecord {
        id: 4,
        session_id: 0x0123_4567_89ab_cdef_0123_4567_89ab_cdefu128,
        kind: "session.created".into(),
        payload: JsonValue::Null,
        created_at: "2024-01-01 00:00:00".into(),
    });
    assert_eq!(e.get_u64("id"), Some(4));
    assert_eq!(e.get_str("session_id"), Some("01234567-89ab-cdef-0123-456789abcdef"));
    assert_eq!(e.get_str("kind"), Some("session.created"));
    assert_eq!(e.get("payload"), Some(&JsonValue::Null));
    assert_eq!(e.get_str("created_at"), Some("2024-01-01 00:00:00"));
}
