use agentd::json::{json_str, member, JsonNumber, JsonValue};
use agentd::protocol::{AgentType, ProtocolError, SessionSource, SessionStatus, Timestamp};
use agentd::text::{
    contains, decimal_string, file_name, owned, starts_with, str_eq, trim, white_space,
};

#[test]
fn status_wire_names_round_trip() {
    let all = [
        SessionStatus::Starting,
        SessionStatus::Idle,
        SessionStatus::Working,
        SessionStatus::WaitingForUser,
        SessionStatus::Errored,
        SessionStatus::Finished,
    ];
    for s in all {
        assert_eq!(SessionStatus::from_wire(s.as_str()), Some(s));
    }
    assert_eq!(SessionStatus::WaitingForUser.as_str(), "waiting_for_user");
    assert_eq!(SessionStatus::from_wire("sleeping"), None);
    assert_eq!(SessionStatus::from_wire("Working"), None);
}

#[test]
fn only_finished_is_terminal() {
    assert!(SessionStatus::Finished.is_terminal());
    assert!(!SessionStatus::Errored.is_terminal());
    assert!(!SessionStatus::Working.is_terminal());
}

#[test]
fn agent_wire_names_round_trip() {
    for a in [AgentType::Opencode, AgentType::ClaudeCode, AgentType::Codex, AgentType::Aider] {
        assert_eq!(AgentType::from_wire(a.as_str()), Some(a));
    }
    assert_eq!(AgentType::ClaudeCode.as_str(), "anthropic-code");
    assert_eq!(AgentType::from_wire("gpt"), None);
    assert_eq!(SessionSource::Discovered.as_str(), "discovered");
}

#[test]
fn protocol_error_codes_and_messages() {
    assert_eq!(ProtocolError::InvalidRequest.code(), -32600);
    assert_eq!(ProtocolError::MethodNotFound.code(), -32601);
    assert_eq!(ProtocolError::InvalidParams.code(), -32602);
    assert_eq!(ProtocolError::InternalError.code(), -32603);
    assert_eq!(ProtocolError::SessionNotFound.code(), -32001);
    assert_eq!(ProtocolError::PluginNotAllowed.code(), -32002);
    assert_eq!(ProtocolError::InvalidParams.message(), "invalid params");
}

#[test]
fn timestamps_order_by_seconds_then_nanos() {
    let a = Timestamp { secs: 10, nanos: 5 };
    let b = Timestamp { secs: 10, nanos: 4 };
    let c = Timestamp { secs: 9, nanos: 999 };
    assert!(a.after(&b));
    assert!(b.after(&c));
    assert!(!a.after(&a));
    assert!(!c.after(&a));
}

#[test]
fn text_helpers() {
    assert!(white_space(' ') && white_space('\n') && !white_space('x'));
    assert!(str_eq("abc", "abc") && !str_eq("abc", "abd"));
    assert_eq!(trim("  hi there \n"), "hi there");
    assert_eq!(trim("   "), "");
    assert!(contains("hello world", "o w"));
    assert!(contains("hello", ""));
    assert!(!contains("hello", "world"));
    assert!(starts_with("session.create", "session."));
    assert!(!starts_with("se", "session"));
    assert_eq!(decimal_string(0), "0");
    assert_eq!(decimal_string(1234567890), "1234567890");
    assert_eq!(decimal_string(u64::MAX), "18446744073709551615");
    assert_eq!(owned("x"), "x".to_string());
}

#[test]
fn file_name_follows_path_semantics() {
    assert_eq!(file_name("/home/me/proj"), Some("proj".to_string()));
    assert_eq!(file_name("/home/me/proj/"), Some("proj".to_string()));
    assert_eq!(file_name("proj"), Some("proj".to_string()));
    assert_eq!(file_name("/"), None);
    assert_eq!(file_name("."), None);
    assert_eq!(file_name("/a/.."), None);
    assert_eq!(file_name("/a/b/."), Some("b".to_string()));
    assert_eq!(file_name(""), None);
}

#[test]
fn json_lookup_finds_first_member() {
    let v = JsonValue::Object(vec![
        member("a", JsonValue::Number(JsonNumber::PosInt(1))),
        member("b", json_str("x")),
        member("a", JsonValue::Number(JsonNumber::PosInt(2))),
    ]);
    assert_eq!(v.get_u64("a"), Some(1));
    assert_eq!(v.get_str("b"), Some("x"));
    assert_eq!(v.get_str("a"), None);
    assert!(v.get("zz").is_none());
    assert!(JsonValue::Null.get("a").is_none());
    assert_eq!(JsonValue::Number(JsonNumber::NegInt(-3)).as_u64(), None);
    assert_eq!(
        JsonValue::Number(JsonNumber::Float(0)).as_number(),
        Some(JsonNumber::Float(0))
    );
}

#[test]
fn take_member_removes_only_that_key() {
    let mut v = JsonValue::Object(vec![member("id", json_str("7")), member("p", JsonValue::Bool(true))]);
    assert_eq!(v.take_member("id"), Some(json_str("7")));
    assert!(v.get("id").is_none());
    assert_eq!(v.get("p"), Some(&JsonValue::Bool(true)));
    assert_eq!(v.take_or_null("id"), JsonValue::Null);
}
