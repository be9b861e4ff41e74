use agentd::control_client::{event_frame, request, response_outcome, subscribe_request, ControlClient, ControlClientError};
use agentd::daemon::{plugins_to_respawn, tombstone_gc, DaemonError, GcRow, TOMBSTONE_TTL_DAYS, TOMBSTONE_TTL_SECS};
use agentd::db::repo::RepoError;
use agentd::handlers::{fresh_session, DbCall};
use agentd::json::{json_str, member, JsonNumber, JsonValue};
use agentd::paths::Paths;
use agentd::plugin_heartbeat::{PluginHeartbeat, HEARTBEAT_TIMEOUT_MS};
use agentd::plugin_spawner::SpawnError;
use agentd::plugin_supervisor::{autostart_plan, ensure_plan, monitor_step, MonitorAction, RestartWindow, SupervisorError};
use agentd::plugin_uds::{handshake_records, handshake_records_now, hello_response, parse_hello, HandshakeError};
use agentd::plugins_manifest::{PluginEntry, PluginsManifest};
use agentd::protocol::{AgentType, ProtocolError, ProtocolErrorWithMessage, Session, SessionSource, SessionStatus, Timestamp};
use agentd::session_create::{begin, begin_now, bound, inserted, reloaded, spawned, CreateError};
use agentd::state::State;
use agentd::status::cache::StatusCache;
use agentd::tmux::TmuxError;

const T0: Timestamp = Timestamp { secs: 1_700_000_000, nanos: 0 };

fn session(id: u128, status: SessionStatus, pane: Option<&str>, plugin: Option<&str>) -> Session {
    let meta = match plugin {
        Some(p) => JsonValue::Object(vec![member("plugin", json_str(p))]),
        None => JsonValue::Object(vec![]),
    };
    let mut s = fresh_session(id, AgentType::Opencode, "/w".into(), "w".into(), SessionSource::Cli, T0, meta);
    s.status = status;
    s.tmux_pane_id = pane.map(|p| p.to_string());
    s
}

fn entry(name: &str, autostart: bool) -> PluginEntry {
    PluginEntry {
        name: name.into(),
        binary: format!("/bin/{name}"),
        autostart,
        config: toml::Value::Table(Default::default()),
    }
}

#[test]
fn restart_window_allows_three_a_minute() {
    let mut w = RestartWindow::new();
    assert!(w.on_stale(1_000));
    assert!(w.on_stale(2_000));
    assert!(w.on_stale(3_000));
    assert!(!w.on_stale(4_000));
    assert_eq!(w.len(), 3);
    assert!(!w.on_stale(60_999));
    assert!(w.on_stale(61_001));
    assert_eq!(w.len(), 3);
}

#[test]
fn monitor_ticks() {
    let beat = PluginHeartbeat::new(0);
    let mut w = RestartWindow::new();
    assert_eq!(monitor_step(true, &beat, &mut w, 100_000), MonitorAction::Stop);
    assert_eq!(monitor_step(false, &beat, &mut w, HEARTBEAT_TIMEOUT_MS - 1), MonitorAction::Continue);
    assert_eq!(monitor_step(false, &beat, &mut w, HEARTBEAT_TIMEOUT_MS), MonitorAction::Restart);
    assert_eq!(monitor_step(false, &beat, &mut w, HEARTBEAT_TIMEOUT_MS + 1), MonitorAction::Restart);
    assert_eq!(monitor_step(false, &beat, &mut w, HEARTBEAT_TIMEOUT_MS + 2), MonitorAction::Restart);
    assert_eq!(monitor_step(false, &beat, &mut w, HEARTBEAT_TIMEOUT_MS + 3), MonitorAction::GiveUp);
    let mut b = PluginHeartbeat::new(0);
    b.touch(50_000);
    assert!(b.is_alive(60_000, HEARTBEAT_TIMEOUT_MS));
    assert!(!b.is_alive(65_000, HEARTBEAT_TIMEOUT_MS));
    assert!(b.is_alive(10, HEARTBEAT_TIMEOUT_MS));
}

#[test]
fn autostart_and_on_demand_plans() {
    let manifest = PluginsManifest { plugins: vec![entry("a", true), entry("b", false), entry("c", true)] };
    let paths = Paths::resolve_with("/r");
    let plan = autostart_plan(&manifest, &paths);
    let names: Vec<&str> = plan.iter().map(|p| p.name.as_str()).collect();
    assert_eq!(names, vec!["a", "c"]);
    assert_eq!(plan[0].binary, "/bin/a");
    assert_eq!(plan[1].socket, "/r/runtime/plugin-c.sock");
    let req = ensure_plan(false, true, &manifest, Some(&paths), "b").unwrap();
    assert_eq!(req.binary, "/bin/b");
    assert_eq!(req.socket, "/r/runtime/plugin-b.sock");
    assert!(ensure_plan(true, true, &manifest, Some(&paths), "b").is_none());
    assert!(ensure_plan(false, false, &manifest, Some(&paths), "b").is_none());
    assert!(ensure_plan(false, true, &manifest, None, "b").is_none());
    assert!(ensure_plan(false, true, &manifest, Some(&paths), "zz").is_none());
    assert_eq!(manifest.autostart_names(), vec!["a".to_string(), "c".to_string()]);
    assert!(manifest.find("c").is_some());
    assert!(PluginsManifest::default().plugins.is_empty());
}

fn row(id: &str, status: &str, finished: Option<&str>) -> GcRow {
    GcRow { id: id.into(), status: status.into(), finished_at: finished.map(|f| f.to_string()) }
}

#[test]
fn tombstones_expire_after_thirty_days() {
    // 2024-03-31T12:00:00Z; thirty days earlier is 2024-03-01T12:00:00Z.
    let now = Timestamp { secs: 1_711_886_400, nanos: 0 };
    let rows = vec![
        row("a", "finished", Some("2024-01-01T00:00:00+00:00")),
        row("b", "finished", Some("2024-03-02T00:00:00+00:00")),
        row("c", "idle", Some("2020-01-01T00:00:00+00:00")),
        row("d", "finished", None),
        row("e", "finished", Some("2024-03-01T06:00:00+00:00")),
        row("f", "finished", Some("2024-03-01T12:00:00+00:00")),
        row("g", "finished", Some("2024-03-01T13:00:00+01:00")),
        row("h", "finished", Some("not a time")),
    ];
    let events = vec![(10i64, "a".to_string()), (11, "zz".to_string()), (12, "c".to_string()), (13, "yy".to_string())];
    let plan = tombstone_gc(&rows, &events, now);
    assert_eq!(plan.expired_sessions, vec!["a".to_string(), "e".to_string()]);
    assert_eq!(plan.orphan_events, vec![11, 13]);
    assert_eq!(TOMBSTONE_TTL_DAYS, 30);
    assert_eq!(TOMBSTONE_TTL_SECS, 30 * 86_400);
    let later = Timestamp { secs: 1_711_886_400, nanos: 1 };
    assert_eq!(tombstone_gc(&rows, &[].to_vec(), later).expired_sessions, vec!["a", "e", "f", "g"]);
}

#[test]
fn respawn_plugins_of_live_sessions_once() {
    let sessions = vec![
        session(1, SessionStatus::Idle, None, Some("opencode")),
        session(2, SessionStatus::Finished, None, Some("aider")),
        session(3, SessionStatus::Working, None, Some("opencode")),
        session(4, SessionStatus::Working, None, None),
        session(5, SessionStatus::Errored, None, Some("codex")),
    ];
    assert_eq!(plugins_to_respawn(&sessions), vec!["opencode".to_string(), "codex".to_string()]);
}

#[test]
fn session_creation_steps() {
    let (c, s) = begin(AgentType::Aider, "/w/app", None, 9, T0).unwrap();
    assert_eq!(c.name, "session");
    assert_eq!(s.display_name, "session");
    assert_eq!(s.status, SessionStatus::Starting);
    assert_eq!(begin(AgentType::Aider, "/w", Some("bad name"), 9, T0).unwrap_err(), CreateError::InvalidName("bad name".into()));
    let c = inserted(c, Ok(())).unwrap();
    let sp = spawned(c, Ok("%4".into())).unwrap();
    assert_eq!(sp.pane, "%4");
    let sp = bound(sp, Ok(())).unwrap();
    let row = session(9, SessionStatus::Starting, None, None);
    let done = reloaded(sp, Ok(Some(row))).unwrap();
    assert_eq!(done.tmux_session.as_deref(), Some("session"));
    assert_eq!(done.tmux_pane_id.as_deref(), Some("%4"));

    let (c2, _) = begin(AgentType::Codex, "/w", Some("n1"), 10, T0).unwrap();
    let rb = spawned(c2, Err(TmuxError::Tmux("no server".into()))).unwrap_err();
    assert_eq!(rb.kill_tmux, None);
    assert_eq!(rb.delete_row, 10);
    assert_eq!(rb.error, CreateError::Tmux(TmuxError::Tmux("no server".into())));

    let (c3, _) = begin(AgentType::Codex, "/w", Some("n2"), 11, T0).unwrap();
    let sp3 = spawned(inserted(c3, Ok(())).unwrap(), Ok("%5".into())).unwrap();
    let rb3 = bound(sp3, Err(RepoError::NotFound(11))).unwrap_err();
    assert_eq!(rb3.kill_tmux.as_deref(), Some("n2"));
    assert_eq!(rb3.error, CreateError::Db(RepoError::NotFound(11)));

    let (c4, _) = begin(AgentType::Codex, "/w", Some("n3"), 12, T0).unwrap();
    assert_eq!(inserted(c4, Err(RepoError::Sqlite("locked".into()))).unwrap_err(), CreateError::Db(RepoError::Sqlite("locked".into())));
    let (c5, _) = begin(AgentType::Codex, "/w", Some("n4"), 13, T0).unwrap();
    let sp5 = spawned(c5, Ok("%6".into())).unwrap();
    let rb5 = reloaded(sp5, Ok(None)).unwrap_err();
    assert_eq!(rb5.kill_tmux.as_deref(), Some("n4"));
    assert_eq!(rb5.delete_row, 13);
    assert_eq!(rb5.error, CreateError::Internal("session disappeared after update_tmux".into()));
    let (c6, _) = begin(AgentType::Codex, "/w", Some("n5"), 14, T0).unwrap();
    let sp6 = spawned(c6, Ok("%7".into())).unwrap();
    let rb6 = reloaded(sp6, Err(RepoError::Sqlite("busy".into()))).unwrap_err();
    assert_eq!(rb6.kill_tmux.as_deref(), Some("n5"));
    assert_eq!(rb6.delete_row, 14);
    assert_eq!(rb6.error, CreateError::Db(RepoError::Sqlite("busy".into())));
}

#[test]
fn hello_is_parsed_and_answered() {
    let req = JsonValue::Object(vec![
        member("id", JsonValue::Number(JsonNumber::PosInt(4))),
        member(
            "params",
            JsonValue::Object(vec![
                member("name", json_str("opencode")),
                member("pid", JsonValue::Number(JsonNumber::PosInt(5_000_000_000))),
            ]),
        ),
    ]);
    let h = parse_hello(&req).unwrap();
    assert_eq!(h.plugin_name, "opencode");
    assert_eq!(h.version, "");
    assert_eq!(h.pid, Some(u32::MAX));
    let resp = hello_response(req, "opencode");
    assert_eq!(resp.get_u64("id"), Some(4));
    let result = resp.get("result").unwrap();
    assert_eq!(result.get_str("plugin_id"), Some("opencode"));
    assert_eq!(result.get_u64("heartbeat_interval_secs"), Some(5));
    let no_id = hello_response(JsonValue::Object(vec![]), "p");
    assert_eq!(no_id.get_u64("id"), Some(1));
    assert_eq!(parse_hello(&JsonValue::Null), Err(HandshakeError::Protocol(ProtocolError::InvalidParams)));
    let nameless = JsonValue::Object(vec![member("params", JsonValue::Object(vec![]))]);
    assert_eq!(parse_hello(&nameless), Err(HandshakeError::Protocol(ProtocolError::InvalidParams)));
    let (a, b) = handshake_records("codex", T0);
    assert_eq!(
        a,
        DbCall::UpsertPlugin {
            name: "codex".into(),
            binary: "agentd-plugin-codex".into(),
            socket_name: "codex.sock".into(),
            autostart: true
        }
    );
    assert_eq!(b, DbCall::SetLastConnected { name: "codex".into(), at: T0 });
}

#[test]
fn control_client_requests_and_responses() {
    let c = ControlClient::connect("/run/agentd/control.sock").unwrap();
    assert_eq!(c.path(), "/run/agentd/control.sock");
    let r = request("session.get", JsonValue::Null);
    assert_eq!(r.get_str("method"), Some("session.get"));
    assert_eq!(r.get_u64("id"), Some(1));
    assert_eq!(subscribe_request(JsonValue::Null).get_str("method"), Some("subscribe"));
    let ok = JsonValue::Object(vec![member("result", json_str("x"))]);
    assert_eq!(response_outcome(ok), Ok(json_str("x")));
    assert_eq!(response_outcome(JsonValue::Object(vec![])), Ok(JsonValue::Null));
    let err = JsonValue::Object(vec![member(
        "error",
        JsonValue::Object(vec![
            member("code", JsonValue::Number(JsonNumber::NegInt(-32001))),
            member("message", json_str("session not found")),
        ]),
    )]);
    assert_eq!(
        response_outcome(err),
        Err(ControlClientError::Rpc(ProtocolErrorWithMessage { code: -32001, message: "session not found".into() }))
    );
    let bad = JsonValue::Object(vec![member("error", JsonValue::Null)]);
    assert!(matches!(response_outcome(bad), Err(ControlClientError::Json(_))));
    let note = JsonValue::Object(vec![member("method", json_str("event")), member("params", json_str("e"))]);
    assert_eq!(event_frame(note), Some(json_str("e")));
    let reply = JsonValue::Object(vec![member("id", JsonValue::Null), member("params", json_str("e"))]);
    assert_eq!(event_frame(reply), None);
}

#[test]
fn status_line_cache() {
    let mut cache = StatusCache::new();
    assert_eq!(cache.format_pane("%1"), "");
    let mut a = session(1, SessionStatus::Working, Some("%1"), None);
    a.current_task = Some("editing src/foo.rs".into());
    a.cost_usd = Some(JsonNumber::Float(0.25f64.to_bits()));
    let b = session(2, SessionStatus::WaitingForUser, Some("%2"), None);
    let c = session(3, SessionStatus::Idle, None, None);
    let n = cache.rebuild(vec![a, b, c]);
    assert_eq!(n, 2);
    assert_eq!(cache.format_pane("%1"), "opencode · editing src/foo.rs");
    assert_eq!(cache.format_pane("%2"), "opencode");
    assert_eq!(cache.format_pane("%9"), "");
    assert_eq!(cache.costs(), &vec![JsonNumber::Float(0.25f64.to_bits())]);
    assert_eq!(
        cache.format_global("$0.25"),
        "3 agents · 1 waiting · 1 working · $0.25"
    );
    let later = session(4, SessionStatus::Errored, Some("%1"), None);
    assert_eq!(cache.rebuild(vec![later]), 1);
    assert_eq!(cache.format_pane("%2"), "");
    assert_eq!(cache.format_global("$0.00"), "1 agents · 0 waiting · 0 working · $0.00");
}

#[test]
fn error_types_and_state() {
    assert_eq!(SpawnError::NotFound("/bin/x".into()).describe(), "plugin binary not found: /bin/x");
    assert_eq!(SpawnError::Io("denied".into()).describe(), "io: denied");
    let _ = DaemonError::LockHeld;
    let _ = DaemonError::Supervisor(SupervisorError::Io("x".into()));
    let s = State::default();
    assert!(s.sessions.is_empty() && s.plugins.is_empty());
}

#[test]
fn creation_and_handshake_at_the_current_time() {
    let (c, s) = begin_now(AgentType::Codex, "/w/app", Some("fresh")).unwrap();
    assert_eq!((c.id >> 76) & 0xf, 7);
    assert_eq!(s.id, c.id);
    assert_eq!(s.display_name, "fresh");
    assert!(s.created_at.secs > 1_600_000_000);
    assert_eq!(begin_now(AgentType::Codex, "/w", Some("")).unwrap_err(), CreateError::InvalidName("".into()));
    let (a, b) = handshake_records_now("codex");
    assert!(matches!(a, DbCall::UpsertPlugin { autostart: true, .. }));
    match b {
        DbCall::SetLastConnected { name, at } => {
            assert_eq!(name, "codex");
            assert!(at.secs > 1_600_000_000);
        }
        other => panic!("unexpected {other:?}"),
    }
}
