use agentd::db::repo::PluginRecord;
use agentd::event_bus::Event;
use agentd::handlers::fresh_session;
use agentd::json::{json_str, member, JsonNumber, JsonValue};
use agentd::protocol::{AgentType, Session, SessionSource, SessionStatus, Timestamp};
use agentd::tui::color::{color_for, color_index, symbol_for, StatusColor};
use agentd::tui::flash::FlashMap;
use agentd::tui::input::{default_session_name, finish_action, handle_key, Key, KeyAction};
use agentd::tui::new_modal::{apply_key as new_modal_key, filtered, open_from, open_with, NewModalOutcome};
use agentd::tui::recents::extract_recents;
use agentd::tui::rename_modal::{apply_key as rename_key, open as open_rename, RenameOutcome};
use agentd::tui::render::{
    centered_rect, context_percent, is_flashing, list_selection, new_modal_height, status_text,
    tokens_text, truncate, Rect,
};
use agentd::tui::state::{
    classify_event, flash_tick_due, frame_due, DecodedPayload, EventClass, NewModal, StatusCounters, TuiState,
    FLASH_DURATION_MS,
};

const T0: Timestamp = Timestamp { secs: 1_700_000_000, nanos: 0 };

fn session(id: u128, status: SessionStatus, name: &str) -> Session {
    let mut s = fresh_session(
        id,
        AgentType::Opencode,
        format!("/w/{name}"),
        name.to_string(),
        SessionSource::Cli,
        T0,
        JsonValue::Null,
    );
    s.status = status;
    s
}

fn plugin(name: &str) -> PluginRecord {
    PluginRecord {
        name: name.into(),
        binary: format!("agentd-plugin-{name}"),
        socket_name: format!("{name}.sock"),
        autostart: true,
        last_connected_at: None,
        last_error: None,
    }
}

fn event(kind: &str, id: Option<u128>, payload: JsonValue) -> Event {
    Event { kind: kind.into(), session_id: id, payload, ts: T0 }
}

fn nothing_decoded() -> DecodedPayload {
    DecodedPayload { session: None, plugin: None }
}

#[test]
fn counters_match_the_sessions() {
    let s = vec![
        session(1, SessionStatus::Working, "a"),
        session(2, SessionStatus::Working, "b"),
        session(3, SessionStatus::Errored, "c"),
        session(4, SessionStatus::WaitingForUser, "d"),
    ];
    let c = StatusCounters::from_sessions(&s);
    assert_eq!((c.working, c.errored, c.waiting, c.idle, c.starting, c.finished), (2, 1, 1, 0, 0, 0));
    assert_eq!(StatusCounters::default(), StatusCounters::zero());
}

#[test]
fn snapshot_then_events() {
    let mut st = TuiState::from_snapshot(
        vec![session(1, SessionStatus::Idle, "a"), session(2, SessionStatus::Working, "b")],
        vec![plugin("opencode")],
    );
    assert!(st.dirty);
    assert_eq!(st.counters.working, 1);
    assert_eq!(st.selected_session().map(|s| s.id), Some(1));

    st.dirty = false;
    st.apply_event(
        &event("session.status_changed", Some(1), JsonValue::Object(vec![member("status", json_str("errored"))])),
        nothing_decoded(),
        100,
    );
    assert!(st.dirty);
    assert_eq!(st.sessions[0].status, SessionStatus::Errored);
    assert_eq!(st.counters.errored, 1);
    assert_eq!(st.flash_until.get(1), Some(100 + FLASH_DURATION_MS));

    st.apply_event(
        &event("session.renamed", Some(2), JsonValue::Object(vec![member("display_name", json_str("bee"))])),
        nothing_decoded(),
        200,
    );
    assert_eq!(st.sessions[1].display_name, "bee");

    st.apply_event(
        &event("session.task_changed", Some(2), JsonValue::Object(vec![member("task", json_str("tests"))])),
        nothing_decoded(),
        200,
    );
    assert_eq!(st.sessions[1].current_task.as_deref(), Some("tests"));

    st.apply_event(
        &event(
            "session.usage_updated",
            Some(2),
            JsonValue::Object(vec![
                member("used", JsonValue::Number(JsonNumber::PosInt(5))),
                member("total", JsonValue::Number(JsonNumber::PosInt(50))),
            ]),
        ),
        nothing_decoded(),
        200,
    );
    assert_eq!(st.sessions[1].context_used_tokens, Some(5));
    assert_eq!(st.sessions[1].context_total_tokens, Some(50));

    st.apply_event(
        &event("session.created", Some(3), JsonValue::Null),
        DecodedPayload { session: Some(session(3, SessionStatus::Starting, "c")), plugin: None },
        300,
    );
    assert_eq!(st.sessions.len(), 3);
    assert_eq!(st.counters.starting, 1);
    assert_eq!(st.flash_until.get(3), Some(300 + FLASH_DURATION_MS));

    st.selected = 2;
    st.apply_event(&event("session.killed", Some(3), JsonValue::Null), nothing_decoded(), 400);
    assert_eq!(st.sessions.len(), 2);
    assert_eq!(st.selected, 1);
    assert_eq!(st.flash_until.get(3), None);

    st.apply_event(
        &event("plugin.disconnected", None, JsonValue::Object(vec![member("name", json_str("opencode"))])),
        nothing_decoded(),
        400,
    );
    assert!(st.plugins.is_empty());
    st.apply_event(
        &event("plugin.connected", None, JsonValue::Null),
        DecodedPayload { session: None, plugin: Some(plugin("aider")) },
        400,
    );
    assert_eq!(st.plugins.len(), 1);
    assert_eq!(st.counters, StatusCounters::from_sessions(&st.sessions));
}

#[test]
fn event_kinds_are_classified() {
    assert_eq!(classify_event("session.discovered"), EventClass::SessionUpsert);
    assert_eq!(classify_event("session.finished"), EventClass::SessionRemoved);
    assert_eq!(classify_event("plugin.connected"), EventClass::PluginConnected);
    assert_eq!(classify_event("daemon.started"), EventClass::Ignored);
}

#[test]
fn flashes_expire() {
    let mut st = TuiState::new();
    st.flash_until.insert(1, 500);
    st.flash_until.insert(2, 900);
    st.dirty = false;
    assert!(st.needs_redraw(600));
    st.tick_flash(600);
    assert!(st.dirty);
    assert_eq!(st.flash_until.get(1), None);
    assert_eq!(st.flash_until.get(2), Some(900));
    st.dirty = false;
    st.tick_flash(600);
    assert!(!st.dirty);
    assert!(!st.needs_redraw(900));
    let mut m = FlashMap::new();
    m.insert(7, 10);
    m.insert(7, 20);
    assert_eq!(m.len(), 1);
    assert_eq!(m.get(7), Some(20));
    m.remove(7);
    assert_eq!(m.len(), 0);
}

#[test]
fn list_keys_move_and_quit() {
    let mut st = TuiState::from_snapshot(
        vec![session(1, SessionStatus::Idle, "a"), session(2, SessionStatus::Idle, "b")],
        vec![],
    );
    assert_eq!(handle_key(&mut st, Key::Down, 0), KeyAction::Nothing);
    assert_eq!(st.selected, 1);
    handle_key(&mut st, Key::Char('j'), 0);
    assert_eq!(st.selected, 1);
    handle_key(&mut st, Key::Char('g'), 0);
    assert_eq!(st.selected, 0);
    handle_key(&mut st, Key::Char('G'), 0);
    assert_eq!(st.selected, 1);
    handle_key(&mut st, Key::Up, 0);
    assert_eq!(st.selected, 0);
    assert_eq!(handle_key(&mut st, Key::Enter, 0), KeyAction::Jump(1));
    assert_eq!(handle_key(&mut st, Key::Char('x'), 0), KeyAction::Kill { id: 1, name: "a".into() });
    assert_eq!(handle_key(&mut st, Key::Char('c'), 0), KeyAction::OpenNewModal);
    assert_eq!(handle_key(&mut st, Key::Char('q'), 0), KeyAction::Quit);
    assert_eq!(handle_key(&mut st, Key::Esc, 0), KeyAction::Quit);
}

#[test]
fn help_overlay_swallows_keys() {
    let mut st = TuiState::new();
    handle_key(&mut st, Key::Char('?'), 0);
    assert!(st.show_help);
    assert_eq!(handle_key(&mut st, Key::Char('j'), 0), KeyAction::Nothing);
    assert!(st.show_help);
    assert_eq!(handle_key(&mut st, Key::Esc, 0), KeyAction::Nothing);
    assert!(!st.show_help);
    handle_key(&mut st, Key::Char('?'), 0);
    assert_eq!(handle_key(&mut st, Key::Char('q'), 0), KeyAction::Quit);
}

#[test]
fn rename_flow() {
    let mut st = TuiState::from_snapshot(vec![session(1, SessionStatus::Idle, "old")], vec![]);
    handle_key(&mut st, Key::Char('r'), 0);
    assert_eq!(st.rename_modal.as_ref().map(|m| m.input.clone()), Some("old".to_string()));
    handle_key(&mut st, Key::Backspace, 0);
    handle_key(&mut st, Key::Char('X'), 0);
    assert_eq!(
        handle_key(&mut st, Key::Enter, 0),
        KeyAction::Rename { id: 1, name: "olX".into() }
    );
    assert!(st.rename_modal.is_none());
    let mut m = open_rename("  ");
    assert_eq!(rename_key(&mut m, Key::Enter), RenameOutcome::Cancel);
    let mut m2 = open_rename(" hi ");
    assert_eq!(rename_key(&mut m2, Key::Enter), RenameOutcome::Commit("hi".into()));
}

#[test]
fn new_modal_filters_and_commits() {
    let recents = vec![
        ("/home/me/Alpha".to_string(), T0),
        ("/home/me/beta".to_string(), T0),
    ];
    let mut m: NewModal = open_with(recents);
    assert_eq!(filtered(&m).len(), 2);
    assert_eq!(new_modal_key(&mut m, Key::Char('A')), NewModalOutcome::Stay);
    assert_eq!(new_modal_key(&mut m, Key::Char('L')), NewModalOutcome::Stay);
    assert_eq!(filtered(&m), vec![("/home/me/Alpha".to_string(), T0)]);
    assert_eq!(new_modal_key(&mut m, Key::Enter), NewModalOutcome::Commit("/home/me/Alpha".into()));
    new_modal_key(&mut m, Key::Char('z'));
    assert_eq!(new_modal_key(&mut m, Key::Enter), NewModalOutcome::Commit(".".into()));
    assert_eq!(new_modal_key(&mut m, Key::Esc), NewModalOutcome::Cancel);
    assert_eq!(default_session_name("/home/me/Alpha"), "Alpha");
    assert_eq!(default_session_name("/"), "session");
}

#[test]
fn creating_from_the_new_modal() {
    let mut st = TuiState::new();
    st.new_modal = Some(open_with(vec![("/srv/app".to_string(), T0)]));
    let a = handle_key(&mut st, Key::Enter, 42);
    assert_eq!(a, KeyAction::Create { working_dir: "/srv/app".into(), name: "app".into() });
    assert!(st.new_modal.is_none());
    assert_eq!(
        st.status_message.as_ref().map(|(m, t)| (m.clone(), *t)),
        Some(("Creating session in /srv/app".to_string(), 42))
    );
}

#[test]
fn finishing_jump_and_kill_leaves_messages() {
    let mut st = TuiState::new();
    finish_action(&mut st, &KeyAction::Jump(1), Ok(()), 5);
    assert_eq!(st.status_message, Some(("Jumped to session".to_string(), 5)));
    finish_action(&mut st, &KeyAction::Kill { id: 1, name: "a".into() }, Err("io: gone".into()), 6);
    assert_eq!(st.status_message, Some(("Kill failed: io: gone".to_string(), 6)));
    finish_action(&mut st, &KeyAction::Kill { id: 1, name: "a".into() }, Ok(()), 7);
    assert_eq!(st.status_message, Some(("Killed session a".to_string(), 7)));
    finish_action(&mut st, &KeyAction::Quit, Ok(()), 8);
    assert_eq!(st.status_message, Some(("Killed session a".to_string(), 7)));
}

fn listed(dir: &str, at: &str) -> JsonValue {
    JsonValue::Object(vec![member("working_dir", json_str(dir)), member("last_event_at", json_str(at))])
}

#[test]
fn recents_group_by_path_and_rank_by_time() {
    let v = JsonValue::Array(vec![
        listed("/b", "2024-01-01T00:00:00Z"),
        listed("/a", "2024-01-01T00:00:00Z"),
        listed("/c", "2024-03-01T00:00:00Z"),
        listed("/b/", "2024-02-01T00:00:00Z"),
        listed("/d", "not a time"),
        JsonValue::Object(vec![member("working_dir", json_str("/e"))]),
    ]);
    let r = extract_recents(&v);
    let dirs: Vec<&str> = r.iter().map(|(d, _)| d.as_str()).collect();
    assert_eq!(dirs, vec!["/c", "/b", "/a"]);
    assert_eq!(r[1].1, Timestamp { secs: 1_706_745_600, nanos: 0 });
    assert!(extract_recents(&JsonValue::Null).is_empty());
}

#[test]
fn recents_keep_the_ten_latest() {
    let items: Vec<JsonValue> =
        (0..12).map(|i| listed(&format!("/p{i:02}"), &format!("2024-01-{:02}T00:00:00Z", i + 1))).collect();
    let r = extract_recents(&JsonValue::Array(items));
    assert_eq!(r.len(), 10);
    assert_eq!(r[0].0, "/p11");
    assert_eq!(r[9].0, "/p02");
    let m = open_from::<()>(Ok(JsonValue::Array(vec![listed("/x", "2024-01-01T00:00:00Z")])));
    assert_eq!(m.recents.len(), 1);
    assert!(m.query.is_empty());
    assert!(open_from(Err("down")).recents.is_empty());
}

#[test]
fn colors_and_symbols() {
    assert_eq!(color_for(SessionStatus::Working), StatusColor::Working);
    assert_eq!(color_for(SessionStatus::Finished), StatusColor::Idle);
    assert_eq!(color_for(SessionStatus::Starting), StatusColor::Idle);
    assert_eq!(color_index(StatusColor::Working), 71);
    assert_eq!(color_index(StatusColor::Waiting), 178);
    assert_eq!(color_index(StatusColor::Errored), 167);
    assert_eq!(color_index(StatusColor::Idle), 244);
    assert_eq!(symbol_for(SessionStatus::WaitingForUser), "⚠");
    assert_eq!(symbol_for(SessionStatus::Idle), "◌");
}

#[test]
fn render_arithmetic() {
    let area = Rect { x: 0, y: 0, width: 100, height: 40 };
    assert_eq!(centered_rect(60, 14, area), Rect { x: 20, y: 13, width: 60, height: 14 });
    assert_eq!(centered_rect(200, 50, area), area);
    assert_eq!(truncate("hello", 5), "hello");
    assert_eq!(truncate("hello world", 5), "hell…");
    assert_eq!(truncate("hello", 0), "…");
    assert_eq!(context_percent(Some(50), Some(200)), 25);
    assert_eq!(context_percent(Some(5), Some(0)), 0);
    assert_eq!(context_percent(None, Some(10)), 0);
    assert_eq!(context_percent(Some(u64::MAX), Some(1)), u32::MAX);
    assert_eq!(tokens_text(Some(50), Some(200), 25), "50/200 (25%)");
    assert_eq!(tokens_text(None, Some(200), 0), "n/a");
    assert_eq!(new_modal_height(3, 40), 9);
    assert_eq!(new_modal_height(100, 40), 38);
    assert_eq!(new_modal_height(70_000, 40), 0);
    assert_eq!(list_selection(5, 3), 2);
    assert_eq!(list_selection(1, 3), 1);
    assert_eq!(list_selection(4, 0), 0);
    assert_eq!(status_text(&Some(("hi".into(), 1000)), 2000), "hi");
    assert_eq!(status_text(&Some(("hi".into(), 1000)), 4000), " ");
    assert_eq!(status_text(&None, 0), " ");
    assert!(is_flashing(Some(10), 9));
    assert!(!is_flashing(Some(10), 10));
    assert!(!is_flashing(None, 0));
}

#[test]
fn typing_and_erasing_in_the_rename_modal() {
    let mut m = open_rename("ab");
    assert_eq!(rename_key(&mut m, Key::Char('c')), RenameOutcome::Stay);
    assert_eq!(m.input, "abc");
    assert_eq!(rename_key(&mut m, Key::Backspace), RenameOutcome::Stay);
    assert_eq!(m.input, "ab");
    let mut e = open_rename("");
    assert_eq!(rename_key(&mut e, Key::Backspace), RenameOutcome::Stay);
    assert_eq!(e.input, "");
}

#[test]
fn new_modal_search_ignores_unicode_case() {
    let mut m = open_with(vec![("/x/ÄBC".to_string(), T0), ("/x/abc".to_string(), T0)]);
    new_modal_key(&mut m, Key::Char('ä'));
    assert_eq!(filtered(&m), vec![("/x/ÄBC".to_string(), T0)]);
    new_modal_key(&mut m, Key::Backspace);
    new_modal_key(&mut m, Key::Char('B'));
    assert_eq!(filtered(&m).len(), 2);
}

#[test]
fn recents_group_paths_with_equal_components() {
    let v = JsonValue::Array(vec![
        listed("/a//b/./c/", "2024-01-01T00:00:00Z"),
        listed("/a/b/c", "2024-02-01T00:00:00Z"),
        listed("../x", "2024-01-15T00:00:00Z"),
        listed("x", "2024-01-10T00:00:00Z"),
    ]);
    let r = extract_recents(&v);
    let dirs: Vec<&str> = r.iter().map(|(d, _)| d.as_str()).collect();
    assert_eq!(dirs, vec!["/a//b/./c/", "../x", "x"]);
    assert_eq!(r[0].1, Timestamp { secs: 1_706_745_600, nanos: 0 });
}

#[test]
fn removing_rows_keeps_the_selection_on_a_row() {
    let mut st = TuiState::from_snapshot(
        vec![session(1, SessionStatus::Idle, "a"), session(2, SessionStatus::Idle, "b")],
        vec![],
    );
    st.selected = 1;
    st.apply_event(&event("session.killed", Some(2), JsonValue::Null), nothing_decoded(), 10);
    assert_eq!(st.sessions.len(), 1);
    assert_eq!(st.selected, 0);
    st.apply_event(
        &event("session.created", Some(1), JsonValue::Null),
        DecodedPayload { session: Some(session(1, SessionStatus::Working, "a")), plugin: None },
        20,
    );
    assert_eq!(st.sessions.len(), 1);
    assert_eq!(st.sessions[0].status, SessionStatus::Working);
    st.apply_event(&event("session.finished", Some(1), JsonValue::Null), nothing_decoded(), 30);
    assert!(st.sessions.is_empty());
    assert_eq!(st.selected, 0);
}

#[test]
fn frame_and_sweep_pacing() {
    assert!(frame_due(None, 0, true));
    assert!(!frame_due(None, 0, false));
    assert!(!frame_due(Some(100), 132, true));
    assert!(frame_due(Some(100), 133, true));
    assert!(!frame_due(Some(100), 50, true));
    assert!(!flash_tick_due(0, 100));
    assert!(flash_tick_due(0, 101));
    assert!(!flash_tick_due(200, 100));
}
