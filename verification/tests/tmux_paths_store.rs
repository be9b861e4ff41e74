use agentd::cli::init::{has_fragment, tmux_conf_fragment, with_fragment};
use agentd::cli::new_session_params;
use agentd::config::{Config, DaemonSection, UiSection};
use agentd::db::repo::{event_from_row, session_from_row, session_to_row, non_finished, SessionRow};
use agentd::ipc::framing::{encode_frame, frame_body, FramingError, MAX_LINE_BYTES};
use agentd::json::{json_str, member, JsonNumber, JsonValue};
use agentd::paths::{default_log_path, join, plugin_socket_in, Paths};
use agentd::protocol::{AgentType, Session, SessionSource, SessionStatus, Timestamp};
use agentd::tmux::{
    kill_outcome, pane_of_session, validate_pane_id, validate_session_name, MockTmux, Pane,
    RealTmux, TmuxError,
};
use agentd::tmux_output::{init_version_ok, parse_list_panes, parse_u32, tmux_version_ok};

fn session(id: u128, status: SessionStatus, dir: &str) -> Session {
    Session {
        id,
        agent_type: AgentType::Opencode,
        working_dir: dir.to_string(),
        tmux_session: Some("s1".to_string()),
        tmux_pane_id: Some("%3".to_string()),
        display_name: "proj".to_string(),
        status,
        current_task: Some("editing".to_string()),
        model: None,
        context_used_tokens: Some(10),
        context_total_tokens: Some(100),
        cost_usd: Some(JsonNumber::Float(0.25f64.to_bits())),
        source: SessionSource::Cli,
        created_at: Timestamp { secs: 1_700_000_000, nanos: 123_000_000 },
        last_event_at: Some(Timestamp { secs: 1_700_000_100, nanos: 0 }),
        finished_at: None,
        metadata: JsonValue::Object(vec![member("plugin", json_str("opencode"))]),
    }
}

#[test]
fn session_names_follow_the_tmux_rule() {
    assert!(validate_session_name("my-proj_1.2").is_ok());
    assert_eq!(validate_session_name(""), Err(TmuxError::InvalidName(String::new())));
    assert_eq!(
        validate_session_name("bad name"),
        Err(TmuxError::InvalidName("bad name".to_string()))
    );
    assert!(validate_session_name(&"a".repeat(64)).is_ok());
    assert!(validate_session_name(&"a".repeat(65)).is_err());
    assert!(validate_session_name("x;rm -rf").is_err());
}

#[test]
fn pane_ids_are_percent_digits() {
    assert!(validate_pane_id("%12").is_ok());
    assert_eq!(validate_pane_id("%"), Err(TmuxError::InvalidPane("%".to_string())));
    assert!(validate_pane_id("12").is_err());
    assert!(validate_pane_id("%1a").is_err());
}

#[test]
fn mock_tmux_session_lifecycle() {
    let mut t = MockTmux::new();
    assert_eq!(t.new_session("alpha", "/tmp/a"), Ok("%1".to_string()));
    assert_eq!(t.new_session("beta", "/tmp/b"), Ok("%2".to_string()));
    assert!(t.has_session("alpha"));
    assert!(t.switch_client("beta").is_ok());
    assert_eq!(t.switch_client("gamma"), Err(TmuxError::NotFound("gamma".to_string())));
    assert_eq!(t.list_panes().unwrap().len(), 2);
    assert!(t.new_session("bad name", "/").is_err());
    assert!(t.kill_session("alpha").is_ok());
    assert!(!t.has_session("alpha"));
    assert!(t.kill_session("alpha").is_ok());
    assert_eq!(t.capture_pane("%2", 10), Ok(String::new()));
}

#[test]
fn list_panes_output_is_parsed_line_by_line() {
    let out = "main %1 /home/me/proj\nwork %2 /srv/with space\nbroken\n";
    let panes = parse_list_panes(out);
    assert_eq!(
        panes,
        vec![
            Pane { session: "main".into(), pane_id: "%1".into(), working_dir: "/home/me/proj".into() },
            Pane { session: "work".into(), pane_id: "%2".into(), working_dir: "/srv/with space".into() },
        ]
    );
    assert_eq!(parse_list_panes(""), vec![]);
}

#[test]
fn pane_lookup_and_kill_outcome() {
    let panes = vec![
        Pane { session: "a".into(), pane_id: "%1".into(), working_dir: "/".into() },
        Pane { session: "b".into(), pane_id: "%2".into(), working_dir: "/".into() },
    ];
    assert_eq!(pane_of_session(panes.clone(), "b"), Ok("%2".to_string()));
    assert_eq!(
        pane_of_session(panes, "c"),
        Err(TmuxError::Tmux("no pane found for c".to_string()))
    );
    assert_eq!(kill_outcome(true, ""), Ok(()));
    assert_eq!(kill_outcome(false, "can't find session: x"), Ok(()));
    assert_eq!(kill_outcome(false, "boom"), Err(TmuxError::Tmux("boom".to_string())));
}

#[test]
fn version_checks() {
    assert!(tmux_version_ok("tmux 2.9"));
    assert!(!tmux_version_ok("tmux 1.8"));
    assert!(tmux_version_ok("tmux 3.3a"));
    assert!(tmux_version_ok("tmux 3.4\n"));
    assert!(tmux_version_ok("tmux 2.6\n"));
    assert!(!tmux_version_ok("tmux 2.5"));
    assert!(!tmux_version_ok("tmux next-3.4"));
    assert!(!tmux_version_ok("screen 4.0"));
    assert!(init_version_ok("tmux 3.3a\n"));
    assert!(init_version_ok("tmux 2.6"));
    assert!(!init_version_ok("tmux 2.5"));
    assert!(!init_version_ok("tmux"));
    assert_eq!(parse_u32("42"), Some(42));
    assert_eq!(parse_u32("4294967296"), None);
    assert_eq!(parse_u32("+7"), Some(7));
    assert_eq!(parse_u32(""), None);
}

#[test]
fn real_tmux_binary_choice() {
    let _ = RealTmux::new();
    let _ = RealTmux::with_binary("/usr/bin/tmux".to_string());
}

#[test]
fn paths_under_one_root() {
    let p = Paths::resolve_with("/tmp/x");
    assert_eq!(p.config_dir, "/tmp/x/config");
    assert_eq!(p.runtime_dir, "/tmp/x/runtime");
    assert_eq!(p.control_socket_path, "/tmp/x/runtime/control.sock");
    assert_eq!(p.state_db_path, "/tmp/x/state/state.db");
    assert_eq!(p.daemon_lock_path, "/tmp/x/runtime/daemon.lock");
    assert_eq!(p.plugin_socket_path("opencode"), "/tmp/x/runtime/plugin-opencode.sock");
    assert_eq!(p.daemon_pid_path(), "/tmp/x/runtime/daemon.pid");
    assert_eq!(join("/a/", "b"), "/a/b");
    assert_eq!(join("/a", "/b"), "/b");
    assert_eq!(join("", "b"), "b");
    assert_eq!(plugin_socket_in("/run", "p"), "/run/plugin-p.sock");
}

#[test]
fn log_path_fallbacks() {
    assert_eq!(default_log_path(Some("/s"), Some("/h")), "/s/agentd/daemon.log");
    assert_eq!(default_log_path(None, Some("/h")), "/h/.local/state/agentd/daemon.log");
    assert_eq!(default_log_path(None, None), "/tmp/agentd/daemon.log");
}

#[test]
fn uuid_text_through_rows() {
    let id = 0x0123_4567_89ab_cdef_0123_4567_89ab_cdefu128;
    let row = session_to_row(session(id, SessionStatus::Idle, "/w")).unwrap();
    assert_eq!(row.id, "01234567-89ab-cdef-0123-456789abcdef");
    let mut simple = row_with_id("0123456789abcdef0123456789abcdef");
    assert_eq!(session_from_row(simple).unwrap().id, id);
    simple = row_with_id("not-a-uuid");
    assert_eq!(session_from_row(simple).unwrap_err().column, 0);
}

fn row_with_id(id: &str) -> SessionRow {
    let mut r = row("idle", "cli", "2024-01-01T00:00:00Z");
    r.id = id.into();
    r
}

#[test]
fn rfc3339_text_through_rows() {
    let mut s = session(5, SessionStatus::Idle, "/w");
    s.created_at = Timestamp { secs: 1_700_000_000, nanos: 500_000_000 };
    let r = session_to_row(s).unwrap();
    assert_eq!(r.created_at, "2023-11-14T22:13:20.500+00:00");
    assert_eq!(session_from_row(r).unwrap().created_at, Timestamp { secs: 1_700_000_000, nanos: 500_000_000 });
    let offset = session_from_row(row("idle", "cli", "2023-11-14T23:13:20+01:00")).unwrap();
    assert_eq!(offset.created_at, Timestamp { secs: 1_700_000_000, nanos: 0 });
    assert_eq!(session_from_row(row("idle", "cli", "yesterday")).unwrap_err().column, 13);
    let mut far = session(6, SessionStatus::Idle, "/w");
    far.created_at = Timestamp { secs: i64::MAX, nanos: 0 };
    assert!(session_to_row(far).is_none());
}

#[test]
fn session_row_round_trip() {
    let s = session(42, SessionStatus::Working, "/home/me/proj");
    let row = session_to_row(s.clone_for_test()).unwrap();
    assert_eq!(row.source, "\"cli\"");
    assert_eq!(row.status, "working");
    assert_eq!(row.agent_type, "opencode");
    assert_eq!(row.id, uuid::Uuid::from_u128(42).to_string());
    assert_eq!(session_from_row(row), Ok(s));
}

trait CloneForTest {
    fn clone_for_test(&self) -> Self;
}

impl CloneForTest for Session {
    fn clone_for_test(&self) -> Self {
        session(self.id, self.status, &self.working_dir)
    }
}

fn row(status: &str, source: &str, created: &str) -> SessionRow {
    SessionRow {
        id: uuid::Uuid::from_u128(7).to_string(),
        agent_type: "codex".into(),
        working_dir: "/w".into(),
        tmux_session: None,
        tmux_pane_id: None,
        display_name: "w".into(),
        status: status.into(),
        current_task: None,
        model: None,
        context_used_tokens: None,
        context_total_tokens: None,
        cost_usd: None,
        source: source.into(),
        created_at: created.into(),
        last_event_at: None,
        finished_at: None,
        metadata: JsonValue::Null,
    }
}

#[test]
fn row_decoding_reports_the_failing_column() {
    let ok = session_from_row(row("idle", "\"discovered\"", "2024-01-01T00:00:00Z")).unwrap();
    assert_eq!(ok.source, SessionSource::Discovered);
    assert_eq!(ok.agent_type, AgentType::Codex);
    assert_eq!(session_from_row(row("bogus", "\"cli\"", "2024-01-01T00:00:00Z")).unwrap_err().column, 6);
    assert_eq!(session_from_row(row("idle", "\"web\"", "2024-01-01T00:00:00Z")).unwrap_err().column, 12);
    assert_eq!(session_from_row(row("idle", "cli", "soon")).unwrap_err().column, 13);
    let mut bad_id = row("idle", "cli", "2024-01-01T00:00:00Z");
    bad_id.id = "nope".into();
    assert_eq!(session_from_row(bad_id).unwrap_err().column, 0);
    let mut bad_agent = row("idle", "cli", "2024-01-01T00:00:00Z");
    bad_agent.agent_type = "gpt".into();
    assert_eq!(session_from_row(bad_agent).unwrap_err().column, 1);
    let mut bad_last = row("idle", "cli", "2024-01-01T00:00:00Z");
    bad_last.last_event_at = Some("x".into());
    assert_eq!(session_from_row(bad_last).unwrap_err().column, 14);
}

#[test]
fn non_finished_keeps_order() {
    let v = vec![
        session(1, SessionStatus::Finished, "/a"),
        session(2, SessionStatus::Idle, "/b"),
        session(3, SessionStatus::Errored, "/c"),
    ];
    let ids: Vec<u128> = non_finished(v).iter().map(|s| s.id).collect();
    assert_eq!(ids, vec![2, 3]);
}

#[test]
fn frames_round_trip() {
    let framed = encode_frame(b"{\"a\":1}".to_vec());
    assert_eq!(framed, b"{\"a\":1}\n".to_vec());
    assert_eq!(frame_body(framed), Ok(b"{\"a\":1}".to_vec()));
    assert_eq!(frame_body(b"x\r\n".to_vec()), Ok(b"x".to_vec()));
    assert_eq!(frame_body(vec![b'a'; MAX_LINE_BYTES + 1]), Err(FramingError::LineTooLong));
}

#[test]
fn tmux_conf_fragment_is_idempotent_to_detect() {
    let frag = tmux_conf_fragment();
    assert!(frag.starts_with("# >>> agentd >>>\n"));
    assert!(frag.ends_with("# <<< agentd <<<\n"));
    assert!(!has_fragment("set -g mouse on\n"));
    let conf = with_fragment("set -g mouse on\n");
    assert!(has_fragment(&conf));
    assert_eq!(conf, format!("set -g mouse on\n\n{frag}"));
}

#[test]
fn config_defaults() {
    let c = Config::default();
    assert_eq!(c.daemon, DaemonSection::default());
    assert_eq!(c.daemon.scan_interval_secs, 5);
    assert_eq!(c.daemon.status_interval_secs, 1);
    assert_eq!(c.daemon.log_level, "info");
    assert_eq!(c.ui, UiSection::default());
    assert_eq!(c.ui.default_agent, "opencode");
    assert_eq!(c.ui.color, "auto");
    assert!(!c.experimental.e2e_live_tests);
}

#[test]
fn new_command_params() {
    let v = new_session_params(Some("/home/me/proj"), None);
    assert_eq!(v.get_str("agent_type"), Some("opencode"));
    assert_eq!(v.get_str("working_dir"), Some("/home/me/proj"));
    assert_eq!(v.get_str("name"), Some("proj"));
    let w = new_session_params(None, Some("codex"));
    assert_eq!(w.get_str("working_dir"), Some("."));
    assert_eq!(w.get_str("name"), Some("session"));
    assert_eq!(w.get_str("agent_type"), Some("codex"));
}

#[test]
fn event_rows_decode_their_session_id() {
    let e = event_from_row(
        7,
        "0190a5c2-7b3e-7c44-9a1d-2f3e4d5c6b7a",
        "session.created".into(),
        JsonValue::Null,
        "2024-01-01 00:00:00".into(),
    )
    .unwrap();
    assert_eq!(e.id, 7);
    assert_eq!(e.session_id, 0x0190a5c2_7b3e_7c44_9a1d_2f3e4d5c6b7a);
    assert_eq!(e.kind, "session.created");
    assert_eq!(e.payload, JsonValue::Null);
    assert_eq!(e.created_at, "2024-01-01 00:00:00");
    let bad = event_from_row(8, "not-a-uuid", "x".into(), JsonValue::Null, String::new()).unwrap_err();
    assert_eq!(bad.column, 1);
    assert_eq!(bad.message, "invalid session id");
}

#[test]
fn paths_from_the_environment() {
    let p = Paths::from_env(Some("/home/u"), None, None, None, None, 1000);
    assert_eq!(p.config_dir, "/home/u/.config/agentd");
    assert_eq!(p.state_dir, "/home/u/.local/share/agentd");
    assert_eq!(p.cache_dir, "/home/u/.cache/agentd");
    assert_eq!(p.runtime_dir, "/run/user/1000/agentd");
    let q = Paths::from_env(Some("/home/u"), Some("/c"), Some("/d"), Some("/k"), Some("/r"), 7);
    assert_eq!(q.config_dir, "/c/agentd");
    assert_eq!(q.state_dir, "/d/agentd");
    assert_eq!(q.cache_dir, "/k/agentd");
    assert_eq!(q.runtime_dir, "/r/agentd");
    assert_eq!(q.control_socket_path, "/r/agentd/control.sock");
}

#[test]
fn leap_seconds_survive_the_row() {
    let mut s = session(8, SessionStatus::Idle, "/w");
    s.created_at = Timestamp { secs: 1_483_228_799, nanos: 1_250_000_000 };
    let r = session_to_row(s).unwrap();
    assert_eq!(r.created_at, "2016-12-31T23:59:60.250+00:00");
    assert_eq!(session_from_row(r).unwrap().created_at, Timestamp { secs: 1_483_228_799, nanos: 1_250_000_000 });
}

#[test]
fn source_column_is_read_as_a_json_string() {
    let escaped = session_from_row(row("idle", "\"c\\u006ci\"", "2024-01-01T00:00:00Z")).unwrap();
    assert_eq!(escaped.source, SessionSource::Cli);
    let bare = session_from_row(row("idle", "discovered", "2024-01-01T00:00:00Z")).unwrap();
    assert_eq!(bare.source, SessionSource::Discovered);
    assert_eq!(session_from_row(row("idle", "\"c\\q\"", "2024-01-01T00:00:00Z")).unwrap_err().column, 12);
}
