//! Dashboard state: built from a snapshot, changed by bus events and keys,
//! read by the drawing code. Times are milliseconds on a monotonic clock.
use crate::db::repo::PluginRecord;
use crate::event_bus::Event;
use crate::json::JsonValue;
use crate::protocol::{Plugin, Session, SessionStatus, Timestamp};
use crate::seq_util::{
    first_index, is_first, lemma_first_index_exists, lemma_first_index_found, lemma_first_index_none,
};
use crate::text::{owned, str_eq};
use crate::tui::flash::FlashMap;
use vstd::prelude::*;

verus! {

/// How long a row stays highlighted after a change, in milliseconds.
pub const FLASH_DURATION_MS: u64 = 500;

/// How long a transient status message stays on screen, in milliseconds.
pub const STATUS_MESSAGE_DURATION_MS: u64 = 3000;

/// Number of sessions of `s` in state `st`.
pub open spec fn count_status(s: Seq<Session>, st: SessionStatus) -> nat
    decreases s.len(),
{
    if s.len() == 0 {
        0
    } else {
        count_status(s.drop_last(), st) + if s.last().status == st {
            1nat
        } else {
            0nat
        }
    }
}

/// Per-state session counts.
#[derive(Debug, Clone, Copy, PartialEq, Eq, Structural)]
pub struct StatusCounters {
    /// Sessions whose status is `Working`.
    pub working: u32,
    /// Sessions whose status is `WaitingForUser`.
    pub waiting: u32,
    /// Sessions whose status is `Errored`.
    pub errored: u32,
    /// Sessions whose status is `Idle`.
    pub idle: u32,
    /// Sessions whose status is `Starting`.
    pub starting: u32,
    /// Sessions whose status is `Finished`.
    pub finished: u32,
}

impl StatusCounters {
    /// The counters hold the per-state counts of `s`.
    pub open spec fn counts(self, s: Seq<Session>) -> bool {
        &&& self.working == count_status(s, SessionStatus::Working)
        &&& self.waiting == count_status(s, SessionStatus::WaitingForUser)
        &&& self.errored == count_status(s, SessionStatus::Errored)
        &&& self.idle == count_status(s, SessionStatus::Idle)
        &&& self.starting == count_status(s, SessionStatus::Starting)
        &&& self.finished == count_status(s, SessionStatus::Finished)
    }

    /// All counters zero.
    pub fn zero() -> (c: StatusCounters)
        ensures
            c.counts(Seq::empty()),
    {
        StatusCounters { working: 0, waiting: 0, errored: 0, idle: 0, starting: 0, finished: 0 }
    }

    /// Count the sessions of `sessions` by state, in one pass.
    pub fn from_sessions(sessions: &[Session]) -> (c: StatusCounters)
        requires
            sessions@.len() <= u32::MAX,
        ensures
            c.counts(sessions@),
    {
        let mut c = StatusCounters::zero();
        let n = sessions.len();
        let mut i: usize = 0;
        while i < n
            invariant
                n == sessions@.len(),
                n <= u32::MAX,
                i <= n,
                c.counts(sessions@.take(i as int)),
            decreases n - i,
        {
            proof {
                let t = sessions@.take(i + 1);
                assert(t.drop_last() =~= sessions@.take(i as int));
                lemma_count_le_len(sessions@.take(i as int));
            }
            match sessions[i].status {
                SessionStatus::Working => c.working = c.working + 1,
                SessionStatus::WaitingForUser => c.waiting = c.waiting + 1,
                SessionStatus::Errored => c.errored = c.errored + 1,
                SessionStatus::Idle => c.idle = c.idle + 1,
                SessionStatus::Starting => c.starting = c.starting + 1,
                SessionStatus::Finished => c.finished = c.finished + 1,
            }
            i = i + 1;
        }
        proof {
            assert(sessions@.take(n as int) =~= sessions@);
        }
        c
    }
}

impl Default for StatusCounters {
    fn default() -> (c: StatusCounters)
        ensures
            c.counts(Seq::empty()),
    {
        StatusCounters::zero()
    }
}

/// Every per-state count is at most the number of sessions.
pub proof fn lemma_count_le_len(s: Seq<Session>)
    ensures
        forall|st: SessionStatus| #[trigger] count_status(s, st) <= s.len(),
    decreases s.len(),
{
    if s.len() > 0 {
        lemma_count_le_len(s.drop_last());
        assert forall|st: SessionStatus| #[trigger] count_status(s, st) <= s.len() by {
            assert(count_status(s.drop_last(), st) <= s.drop_last().len());
        }
    }
}

/// Sequences of equal length whose sessions have the same states pairwise
/// have the same per-state counts.
pub proof fn lemma_count_same_statuses(a: Seq<Session>, b: Seq<Session>)
    requires
        a.len() == b.len(),
        forall|j: int| 0 <= j < a.len() ==> (#[trigger] a[j]).status == b[j].status,
    ensures
        forall|st: SessionStatus| #[trigger] count_status(a, st) == count_status(b, st),
    decreases a.len(),
{
    if a.len() > 0 {
        let x = a.drop_last();
        let y = b.drop_last();
        assert forall|j: int| 0 <= j < x.len() implies (#[trigger] x[j]).status == y[j].status by {
            assert(x[j] == a[j] && y[j] == b[j]);
        }
        lemma_count_same_statuses(x, y);
        assert forall|st: SessionStatus| #[trigger] count_status(a, st) == count_status(b, st) by {
            assert(count_status(x, st) == count_status(y, st));
            assert(a.last().status == b.last().status);
        }
    }
}

/// Rename modal: the session being renamed and the text typed so far.
#[derive(Debug, PartialEq)]
pub struct RenameModal {
    pub session_id: u128,
    pub input: String,
}

/// New-session modal: the search text and the recent working directories
/// with their last activity.
#[derive(Debug, PartialEq)]
pub struct NewModal {
    pub query: String,
    pub recents: Vec<(String, Timestamp)>,
}

/// Everything the dashboard draws.
#[derive(Debug)]
pub struct TuiState {
    /// Known sessions, in the order they became known.
    pub sessions: Vec<Session>,
    /// Known plugins, in the order they became known.
    pub plugins: Vec<Plugin>,
    /// Index into `sessions` of the highlighted row.
    pub selected: usize,
    /// Per-state counts of `sessions`.
    pub counters: StatusCounters,
    /// Session id -> instant until which its row stays highlighted.
    pub flash_until: FlashMap,
    /// The screen needs redrawing.
    pub dirty: bool,
    /// The help overlay is shown.
    pub show_help: bool,
    /// Open rename modal, if any.
    pub rename_modal: Option<RenameModal>,
    /// Open new-session modal, if any.
    pub new_modal: Option<NewModal>,
    /// Transient status message and the instant it was set.
    pub status_message: Option<(String, u64)>,
}

/// The objects that the daemon encoded in an event's payload, decoded by
/// the reader of the event stream: a session (for `session.created` and
/// `session.discovered`) and a plugin (for `plugin.connected`). Each is
/// `None` where the payload does not decode as one.
#[derive(Debug)]
pub struct DecodedPayload {
    pub session: Option<Session>,
    pub plugin: Option<Plugin>,
}

/// What a bus event does to the dashboard, by its kind.
#[derive(Debug, Clone, Copy, PartialEq, Eq, Structural)]
pub enum EventClass {
    /// `session.created`, `session.discovered`.
    SessionUpsert,
    /// `session.renamed`.
    SessionRenamed,
    /// `session.killed`, `session.finished`.
    SessionRemoved,
    /// `session.status_changed`.
    StatusChanged,
    /// `session.task_changed`.
    TaskChanged,
    /// `session.usage_updated`.
    UsageUpdated,
    /// `plugin.connected`.
    PluginConnected,
    /// `plugin.disconnected`.
    PluginDisconnected,
    /// Any other kind.
    Ignored,
}

/// The class of an event kind.
pub open spec fn classify_spec(kind: Seq<char>) -> EventClass {
    if kind == "session.created"@ || kind == "session.discovered"@ {
        EventClass::SessionUpsert
    } else if kind == "session.renamed"@ {
        EventClass::SessionRenamed
    } else if kind == "session.killed"@ || kind == "session.finished"@ {
        EventClass::SessionRemoved
    } else if kind == "session.status_changed"@ {
        EventClass::StatusChanged
    } else if kind == "session.task_changed"@ {
        EventClass::TaskChanged
    } else if kind == "session.usage_updated"@ {
        EventClass::UsageUpdated
    } else if kind == "plugin.connected"@ {
        EventClass::PluginConnected
    } else if kind == "plugin.disconnected"@ {
        EventClass::PluginDisconnected
    } else {
        EventClass::Ignored
    }
}

/// Classify an event kind.
pub fn classify_event(kind: &str) -> (c: EventClass)
    ensures
        c == classify_spec(kind@),
{
    if str_eq(kind, "session.created") || str_eq(kind, "session.discovered") {
        EventClass::SessionUpsert
    } else if str_eq(kind, "session.renamed") {
        EventClass::SessionRenamed
    } else if str_eq(kind, "session.killed") || str_eq(kind, "session.finished") {
        EventClass::SessionRemoved
    } else if str_eq(kind, "session.status_changed") {
        EventClass::StatusChanged
    } else if str_eq(kind, "session.task_changed") {
        EventClass::TaskChanged
    } else if str_eq(kind, "session.usage_updated") {
        EventClass::UsageUpdated
    } else if str_eq(kind, "plugin.connected") {
        EventClass::PluginConnected
    } else if str_eq(kind, "plugin.disconnected") {
        EventClass::PluginDisconnected
    } else {
        EventClass::Ignored
    }
}

/// The session has the given id.
pub open spec fn has_id(id: u128) -> spec_fn(Session) -> bool {
    |s: Session| s.id == id
}

/// The session does not have the given id.
pub open spec fn lacks_id(id: u128) -> spec_fn(Session) -> bool {
    |s: Session| s.id != id
}

/// The plugin has the given name.
pub open spec fn has_name(name: Seq<char>) -> spec_fn(PluginRecord) -> bool {
    |p: PluginRecord| p.name@ == name
}

/// The plugin does not have the given name.
pub open spec fn lacks_name(name: Seq<char>) -> spec_fn(PluginRecord) -> bool {
    |p: PluginRecord| p.name@ != name
}

/// `new` is `old` with index `i` (and only it) replaced.
pub open spec fn changed_only_at(old: Seq<Session>, new: Seq<Session>, i: int) -> bool {
    &&& 0 <= i < old.len()
    &&& new.len() == old.len()
    &&& forall|j: int| 0 <= j < old.len() && j != i ==> new[j] == old[j]
}

/// Fields the events never touch.
pub open spec fn ui_unchanged(old: &TuiState, new: &TuiState) -> bool {
    &&& new.show_help == old.show_help
    &&& new.rename_modal == old.rename_modal
    &&& new.new_modal == old.new_modal
    &&& new.status_message == old.status_message
}

/// Sessions, highlights and selection as they were.
pub open spec fn sessions_kept(old: &TuiState, new: &TuiState) -> bool {
    &&& new.sessions@ == old.sessions@
    &&& new.flash_until@ == old.flash_until@
    &&& new.selected == old.selected
}

/// The first session with id `id` and the string member `key` of the
/// payload, when the event names a session that is known and the payload
/// has that member.
pub open spec fn target_and_str(
    s: Seq<Session>,
    event: &Event,
    key: Seq<char>,
) -> Option<(int, Seq<char>)> {
    match event.session_id {
        Some(id) => match first_index(s, has_id(id)) {
            Some(i) => match event.payload.str_field(key) {
                Some(v) => Some((i, v)),
                None => None,
            },
            None => None,
        },
        None => None,
    }
}

/// Selection after removing sessions: clamped to the last row when it fell
/// off the end and rows remain.
pub open spec fn clamp_selection(selected: usize, len: nat) -> usize {
    if selected >= len && len > 0 {
        (len - 1) as usize
    } else {
        selected
    }
}

/// The effect of a bus event on the sessions, highlights and selection.
pub open spec fn session_effect(
    old: &TuiState,
    new: &TuiState,
    event: &Event,
    decoded: &DecodedPayload,
    now: u64,
) -> bool {
    let s = old.sessions@;
    let n = new.sessions@;
    let until = (now + FLASH_DURATION_MS) as u64;
    match classify_spec(event.kind@) {
        EventClass::SessionUpsert => match decoded.session {
            Some(x) => match first_index(s, has_id(x.id)) {
                Some(i) => n == s.update(i, x) && new.flash_until@ == old.flash_until@
                    && new.selected == old.selected,
                None => n == s.push(x) && new.flash_until@ == old.flash_until@.insert(x.id, until)
                    && new.selected == old.selected,
            },
            None => sessions_kept(old, new),
        },
        EventClass::SessionRenamed => match target_and_str(s, event, "display_name"@) {
            Some((i, name)) => {
                &&& changed_only_at(s, n, i)
                &&& n[i] == Session { display_name: n[i].display_name, ..s[i] }
                &&& n[i].display_name@ == name
                &&& new.flash_until@ == old.flash_until@.insert(s[i].id, until)
                &&& new.selected == old.selected
            },
            None => sessions_kept(old, new),
        },
        EventClass::SessionRemoved => match event.session_id {
            Some(id) => {
                &&& n == s.filter(lacks_id(id))
                &&& new.flash_until@ == old.flash_until@.remove(id)
                &&& new.selected == clamp_selection(old.selected, n.len())
            },
            None => sessions_kept(old, new),
        },
        EventClass::StatusChanged => match target_and_str(s, event, "status"@) {
            Some((i, text)) => match SessionStatus::from_wire_spec(text) {
                Some(st) => {
                    &&& n == s.update(i, Session { status: st, ..s[i] })
                    &&& new.flash_until@ == old.flash_until@.insert(s[i].id, until)
                    &&& new.selected == old.selected
                },
                None => sessions_kept(old, new),
            },
            None => sessions_kept(old, new),
        },
        EventClass::TaskChanged => match target_and_str(s, event, "task"@) {
            Some((i, task)) => {
                &&& changed_only_at(s, n, i)
                &&& n[i] == Session { current_task: n[i].current_task, ..s[i] }
                &&& n[i].current_task matches Some(t) && t@ == task
                &&& new.flash_until@ == old.flash_until@.insert(s[i].id, until)
                &&& new.selected == old.selected
            },
            None => sessions_kept(old, new),
        },
        EventClass::UsageUpdated => {
            let found = match event.session_id {
                Some(id) => first_index(s, has_id(id)),
                None => None,
            };
            match found {
                Some(i) => {
                    let p = event.payload;
                    let used = match p.u64_field("used"@) {
                        Some(u) => Some(u),
                        None => s[i].context_used_tokens,
                    };
                    let total = match p.u64_field("total"@) {
                        Some(t) => Some(t),
                        None => s[i].context_total_tokens,
                    };
                    let cost = match p.number_field("cost_usd"@) {
                        Some(c) => Some(c),
                        None => s[i].cost_usd,
                    };
                    &&& n == s.update(
                        i,
                        Session {
                            context_used_tokens: used,
                            context_total_tokens: total,
                            cost_usd: cost,
                            ..s[i]
                        },
                    )
                    &&& new.flash_until@ == old.flash_until@
                    &&& new.selected == old.selected
                },
                None => sessions_kept(old, new),
            }
        },
        _ => sessions_kept(old, new),
    }
}

/// The effect of a bus event on the plugin list.
pub open spec fn plugin_effect(
    old: &TuiState,
    new: &TuiState,
    event: &Event,
    decoded: &DecodedPayload,
) -> bool {
    let p = old.plugins@;
    match classify_spec(event.kind@) {
        EventClass::PluginConnected => match decoded.plugin {
            Some(x) => match first_index(p, has_name(x.name@)) {
                Some(i) => new.plugins@ == p.update(i, x),
                None => new.plugins@ == p.push(x),
            },
            None => new.plugins@ == p,
        },
        EventClass::PluginDisconnected => match event.payload.str_field("name"@) {
            Some(name) => new.plugins@ == p.filter(lacks_name(name)),
            None => new.plugins@ == p,
        },
        _ => new.plugins@ == p,
    }
}

/// No two sessions share an id.
pub open spec fn ids_distinct(s: Seq<Session>) -> bool {
    forall|i: int, j: int| 0 <= i < j < s.len() ==> (#[trigger] s[i]).id != (#[trigger] s[j]).id
}

/// The selection is the first row or a row that exists.
pub open spec fn selection_valid(selected: usize, len: nat) -> bool {
    selected == 0 || selected < len
}

proof fn lemma_filter_all<T>(s: Seq<T>, p: spec_fn(T) -> bool)
    requires
        forall|i: int| 0 <= i < s.len() ==> p(#[trigger] s[i]),
    ensures
        s.filter(p) == s,
    decreases s.len(),
{
    if s.len() > 0 {
        let t = s.drop_last();
        assert(s =~= t.push(s.last()));
        assert forall|i: int| 0 <= i < t.len() implies p(#[trigger] t[i]) by {
            assert(t[i] == s[i]);
        }
        lemma_filter_all(t, p);
        t.lemma_filter_push(s.last(), p);
    } else {
        reveal(Seq::filter);
    }
}

proof fn lemma_remove_id(s: Seq<Session>, id: u128)
    requires
        ids_distinct(s),
    ensures
        ids_distinct(s.filter(lacks_id(id))),
        s.filter(lacks_id(id)).len() + 1 >= s.len(),
    decreases s.len(),
{
    let p = lacks_id(id);
    if s.len() == 0 {
        reveal(Seq::filter);
    } else {
        let t = s.drop_last();
        let x = s.last();
        assert(s =~= t.push(x));
        assert forall|i: int, j: int| 0 <= i < j < t.len() implies (#[trigger] t[i]).id != (
        #[trigger] t[j]).id by {
            assert(t[i] == s[i] && t[j] == s[j]);
        }
        lemma_remove_id(t, id);
        t.lemma_filter_push(x, p);
        let ft = t.filter(p);
        if x.id != id {
            let f = ft.push(x);
            assert forall|i: int, j: int| 0 <= i < j < f.len() implies (#[trigger] f[i]).id != (
            #[trigger] f[j]).id by {
                if j < ft.len() {
                    assert(f[i] == ft[i] && f[j] == ft[j]);
                } else {
                    assert(f[i] == ft[i]);
                    assert(ft.contains(ft[i]));
                    t.lemma_filter_contains_rev(p, ft[i]);
                    let k = choose|k: int| 0 <= k < t.len() && t[k] == ft[i];
                    assert(s[k] == t[k]);
                    assert(s[k].id != s[s.len() - 1].id);
                }
            }
        } else {
            assert forall|i: int| 0 <= i < t.len() implies p(#[trigger] t[i]) by {
                assert(t[i] == s[i]);
                assert(s[i].id != s[s.len() - 1].id);
            }
            lemma_filter_all(t, p);
        }
    }
}

/// A bus event keeps the sessions' ids distinct and the selection on the
/// first row or on a row that exists.
pub proof fn lemma_event_keeps_rows(
    old: &TuiState,
    new: &TuiState,
    event: &Event,
    decoded: &DecodedPayload,
    now: u64,
)
    requires
        session_effect(old, new, event, decoded, now),
        ids_distinct(old.sessions@),
        selection_valid(old.selected, old.sessions@.len()),
    ensures
        ids_distinct(new.sessions@),
        selection_valid(new.selected, new.sessions@.len()),
{
    let s = old.sessions@;
    let n = new.sessions@;
    match classify_spec(event.kind@) {
        EventClass::SessionUpsert => match decoded.session {
            Some(x) => match first_index(s, has_id(x.id)) {
                Some(i) => {
                    assert(is_first(s, has_id(x.id), i));
                    assert forall|a: int, b: int| 0 <= a < b < n.len() implies (#[trigger] n[a]).id
                        != (#[trigger] n[b]).id by {
                        assert(s[a].id != s[b].id);
                    }
                },
                None => {
                    assert forall|j: int| 0 <= j < s.len() implies (#[trigger] s[j]).id != x.id by {
                        if s[j].id == x.id {
                            lemma_first_index_exists(s, has_id(x.id), j);
                        }
                    }
                    assert forall|a: int, b: int| 0 <= a < b < n.len() implies (#[trigger] n[a]).id
                        != (#[trigger] n[b]).id by {
                        if b < s.len() {
                            assert(s[a].id != s[b].id);
                        } else {
                            assert(n[a] == s[a]);
                        }
                    }
                },
            },
            None => {},
        },
        EventClass::SessionRenamed => match target_and_str(s, event, "display_name"@) {
            Some((i, name)) => {
                assert forall|a: int, b: int| 0 <= a < b < n.len() implies (#[trigger] n[a]).id
                    != (#[trigger] n[b]).id by {
                    assert(n[a].id == s[a].id && n[b].id == s[b].id);
                }
            },
            None => {},
        },
        EventClass::SessionRemoved => match event.session_id {
            Some(id) => {
                lemma_remove_id(s, id);
            },
            None => {},
        },
        EventClass::StatusChanged => match target_and_str(s, event, "status"@) {
            Some((i, text)) => match SessionStatus::from_wire_spec(text) {
                Some(st) => {
                    assert forall|a: int, b: int| 0 <= a < b < n.len() implies (#[trigger] n[a]).id
                        != (#[trigger] n[b]).id by {
                        assert(n[a].id == s[a].id && n[b].id == s[b].id);
                    }
                },
                None => {},
            },
            None => {},
        },
        EventClass::TaskChanged => match target_and_str(s, event, "task"@) {
            Some((i, task)) => {
                assert forall|a: int, b: int| 0 <= a < b < n.len() implies (#[trigger] n[a]).id
                    != (#[trigger] n[b]).id by {
                    assert(n[a].id == s[a].id && n[b].id == s[b].id);
                }
            },
            None => {},
        },
        EventClass::UsageUpdated => {
            assert forall|a: int, b: int| 0 <= a < b < n.len() implies (#[trigger] n[a]).id != (
            #[trigger] n[b]).id by {
                assert(n[a].id == s[a].id && n[b].id == s[b].id);
            }
        },
        _ => {},
    }
}

/// Milliseconds between two frames of the dashboard at most.
pub const FRAME_INTERVAL_MS: u64 = 33;

/// Milliseconds between two sweeps of expired highlights.
pub const FLASH_TICK_MS: u64 = 100;

/// Milliseconds from `since` to `now` on the monotonic clock (0 when `now`
/// is not later).
pub open spec fn ms_since(since: u64, now: u64) -> nat {
    if now >= since {
        (now - since) as nat
    } else {
        0
    }
}

/// Whether the expired highlights are swept now: more than
/// [`FLASH_TICK_MS`] after the last sweep.
pub fn flash_tick_due(last_tick: u64, now: u64) -> (r: bool)
    ensures
        r == (ms_since(last_tick, now) > FLASH_TICK_MS),
{
    now >= last_tick && now - last_tick > FLASH_TICK_MS
}

/// Whether a frame is drawn now: the state asks for one and, where a frame
/// was drawn before, at least [`FRAME_INTERVAL_MS`] have passed since.
pub fn frame_due(last_draw: Option<u64>, now: u64, needs_redraw: bool) -> (r: bool)
    ensures
        r == (needs_redraw && match last_draw {
            Some(t) => ms_since(t, now) >= FRAME_INTERVAL_MS,
            None => true,
        }),
{
    needs_redraw && match last_draw {
        Some(t) => now >= t && now - t >= FRAME_INTERVAL_MS,
        None => true,
    }
}

/// A `session.usage_updated` event for a known session sets that session's
/// token counts and cost to the numbers the payload reports, keeps those it
/// does not report, and leaves every other session as it was.
pub proof fn lemma_usage_event_sets_usage(
    old: &TuiState,
    new: &TuiState,
    event: &Event,
    decoded: &DecodedPayload,
    now: u64,
    i: int,
)
    requires
        session_effect(old, new, event, decoded, now),
        event.kind@ == "session.usage_updated"@,
        0 <= i < old.sessions@.len(),
        event.session_id == Some(old.sessions@[i].id),
        forall|j: int| 0 <= j < i ==> (#[trigger] old.sessions@[j]).id != old.sessions@[i].id,
    ensures
        new.sessions@.len() == old.sessions@.len(),
        new.sessions@[i].id == old.sessions@[i].id,
        event.payload.number_field("cost_usd"@) matches Some(c) ==> new.sessions@[i].cost_usd
            == Some(c),
        event.payload.number_field("cost_usd"@) is None ==> new.sessions@[i].cost_usd
            == old.sessions@[i].cost_usd,
        event.payload.u64_field("used"@) matches Some(u) ==> new.sessions@[i].context_used_tokens
            == Some(u),
        event.payload.u64_field("used"@) is None ==> new.sessions@[i].context_used_tokens
            == old.sessions@[i].context_used_tokens,
        event.payload.u64_field("total"@) matches Some(t) ==> new.sessions@[i].context_total_tokens
            == Some(t),
        event.payload.u64_field("total"@) is None ==> new.sessions@[i].context_total_tokens
            == old.sessions@[i].context_total_tokens,
        forall|j: int| 0 <= j < old.sessions@.len() && j != i ==> new.sessions@[j] == old.sessions@[j],
{
    reveal_strlit("session.usage_updated");
    reveal_strlit("session.created");
    reveal_strlit("session.discovered");
    reveal_strlit("session.renamed");
    reveal_strlit("session.killed");
    reveal_strlit("session.finished");
    reveal_strlit("session.status_changed");
    reveal_strlit("session.task_changed");
    let k = "session.usage_updated"@;
    assert(k.len() != "session.created"@.len() && k.len() != "session.discovered"@.len()
        && k.len() != "session.renamed"@.len() && k.len() != "session.killed"@.len()
        && k.len() != "session.finished"@.len() && k.len() != "session.status_changed"@.len()
        && k.len() != "session.task_changed"@.len());
    assert(classify_spec(event.kind@) == EventClass::UsageUpdated);
    let id = old.sessions@[i].id;
    assert(is_first(old.sessions@, has_id(id), i));
    lemma_first_index_found(old.sessions@, has_id(id), i);
}

proof fn lemma_kind_lengths()
    ensures
        "session.created"@.len() == 15,
        "session.discovered"@.len() == 18,
        "session.renamed"@.len() == 15,
        "session.killed"@.len() == 14,
        "session.finished"@.len() == 16,
        "session.status_changed"@.len() == 22,
        "session.task_changed"@.len() == 20,
        "session.usage_updated"@.len() == 21,
        "session.renamed"@ != "session.created"@,
{
    reveal_strlit("session.created");
    reveal_strlit("session.discovered");
    reveal_strlit("session.renamed");
    reveal_strlit("session.killed");
    reveal_strlit("session.finished");
    reveal_strlit("session.status_changed");
    reveal_strlit("session.task_changed");
    reveal_strlit("session.usage_updated");
    assert("session.renamed"@[8] != "session.created"@[8]);
}

/// Status, task and name events for a known session change exactly that
/// session's status, current task or display name to what the payload
/// reports (a status only when it is a known one), and leave every other
/// session as it was.
pub proof fn lemma_session_field_events(
    old: &TuiState,
    new: &TuiState,
    event: &Event,
    decoded: &DecodedPayload,
    now: u64,
    i: int,
)
    requires
        session_effect(old, new, event, decoded, now),
        0 <= i < old.sessions@.len(),
        event.session_id == Some(old.sessions@[i].id),
        forall|j: int| 0 <= j < i ==> (#[trigger] old.sessions@[j]).id != old.sessions@[i].id,
    ensures
        event.kind@ == "session.status_changed"@ ==> match event.payload.str_field("status"@) {
            Some(t) => match SessionStatus::from_wire_spec(t) {
                Some(st) => new.sessions@[i].status == st && new.sessions@[i].id == old.sessions@[i].id,
                None => new.sessions@ == old.sessions@,
            },
            None => new.sessions@ == old.sessions@,
        },
        event.kind@ == "session.task_changed"@ ==> match event.payload.str_field("task"@) {
            Some(t) => new.sessions@[i].current_task matches Some(x) && x@ == t,
            None => new.sessions@ == old.sessions@,
        },
        event.kind@ == "session.renamed"@ ==> match event.payload.str_field("display_name"@) {
            Some(n) => new.sessions@[i].display_name@ == n,
            None => new.sessions@ == old.sessions@,
        },
        event.kind@ == "session.status_changed"@ || event.kind@ == "session.task_changed"@
            || event.kind@ == "session.renamed"@ ==> new.sessions@.len() == old.sessions@.len()
            && forall|j: int| 0 <= j < old.sessions@.len() && j != i ==> new.sessions@[j] == old.sessions@[j],
{
    lemma_kind_lengths();
    let k = event.kind@;
    assert("session.status_changed"@.len() != "session.created"@.len() && "session.status_changed"@.len()
        != "session.discovered"@.len() && "session.status_changed"@.len() != "session.renamed"@.len()
        && "session.status_changed"@.len() != "session.killed"@.len() && "session.status_changed"@.len()
        != "session.finished"@.len());
    assert("session.task_changed"@.len() != "session.created"@.len() && "session.task_changed"@.len()
        != "session.discovered"@.len() && "session.task_changed"@.len() != "session.renamed"@.len()
        && "session.task_changed"@.len() != "session.killed"@.len() && "session.task_changed"@.len()
        != "session.finished"@.len() && "session.task_changed"@.len() != "session.status_changed"@.len());
    assert("session.renamed"@ != "session.created"@ && "session.renamed"@.len()
        != "session.discovered"@.len());
    let id = old.sessions@[i].id;
    assert(is_first(old.sessions@, has_id(id), i));
    lemma_first_index_found(old.sessions@, has_id(id), i);
}

/// A removal event for a session leaves no session with its id, and keeps
/// every other session in order.
pub proof fn lemma_removal_event(
    old: &TuiState,
    new: &TuiState,
    event: &Event,
    decoded: &DecodedPayload,
    now: u64,
    id: u128,
)
    requires
        session_effect(old, new, event, decoded, now),
        event.kind@ == "session.killed"@ || event.kind@ == "session.finished"@,
        event.session_id == Some(id),
    ensures
        forall|j: int| 0 <= j < new.sessions@.len() ==> (#[trigger] new.sessions@[j]).id != id,
        forall|j: int|
            0 <= j < old.sessions@.len() && (#[trigger] old.sessions@[j]).id != id
                ==> new.sessions@.contains(old.sessions@[j]),
        !new.flash_until@.dom().contains(id),
{
    lemma_kind_lengths();
    assert("session.killed"@.len() != "session.created"@.len() && "session.killed"@.len()
        != "session.discovered"@.len() && "session.killed"@.len() != "session.renamed"@.len());
    assert("session.finished"@.len() != "session.created"@.len() && "session.finished"@.len()
        != "session.discovered"@.len() && "session.finished"@.len() != "session.renamed"@.len());
    let s = old.sessions@;
    assert(classify_spec(event.kind@) == EventClass::SessionRemoved);
    assert forall|j: int| 0 <= j < new.sessions@.len() implies (#[trigger] new.sessions@[j]).id != id by {
        s.lemma_filter_pred(lacks_id(id), j);
    }
    assert forall|j: int| 0 <= j < s.len() && (#[trigger] s[j]).id != id implies new.sessions@.contains(
        s[j],
    ) by {
        s.lemma_filter_contains(lacks_id(id), j);
    }
}

fn find_session(sessions: &Vec<Session>, id: u128) -> (r: Option<usize>)
    ensures
        r matches Some(i) ==> first_index(sessions@, has_id(id)) == Some(i as int),
        r is None ==> first_index(sessions@, has_id(id)) is None,
{
    let n = sessions.len();
    let mut i: usize = 0;
    while i < n
        invariant
            n == sessions@.len(),
            i <= n,
            forall|j: int| 0 <= j < i ==> !has_id(id)(#[trigger] sessions@[j]),
        decreases n - i,
    {
        if sessions[i].id == id {
            proof {
                lemma_first_index_found(sessions@, has_id(id), i as int);
            }
            return Some(i);
        }
        i = i + 1;
    }
    proof {
        lemma_first_index_none(sessions@, has_id(id));
    }
    None
}

fn find_plugin(plugins: &Vec<Plugin>, name: &str) -> (r: Option<usize>)
    ensures
        r matches Some(i) ==> first_index(plugins@, has_name(name@)) == Some(i as int),
        r is None ==> first_index(plugins@, has_name(name@)) is None,
{
    let n = plugins.len();
    let mut i: usize = 0;
    while i < n
        invariant
            n == plugins@.len(),
            i <= n,
            forall|j: int| 0 <= j < i ==> !has_name(name@)(#[trigger] plugins@[j]),
        decreases n - i,
    {
        if str_eq(plugins[i].name.as_str(), name) {
            proof {
                lemma_first_index_found(plugins@, has_name(name@), i as int);
            }
            return Some(i);
        }
        i = i + 1;
    }
    proof {
        lemma_first_index_none(plugins@, has_name(name@));
    }
    None
}

/// Drop every session with id `id`, keeping the order of the others.
fn remove_sessions_with_id(sessions: &mut Vec<Session>, id: u128)
    ensures
        final(sessions)@ == old(sessions)@.filter(lacks_id(id)),
{
    let ghost orig = sessions@;
    let mut rest: Vec<Session> = Vec::new();
    std::mem::swap(&mut rest, sessions);
    let n = rest.len();
    let mut k: usize = 0;
    while k < n
        invariant
            n == orig.len(),
            k <= n,
            rest@ == orig.skip(k as int),
            sessions@ == orig.take(k as int).filter(lacks_id(id)),
        decreases n - k,
    {
        let s = rest.remove(0);
        proof {
            assert(s == orig[k as int]);
            assert(orig.take(k + 1) =~= orig.take(k as int).push(s));
            orig.take(k as int).lemma_filter_push(s, lacks_id(id));
            assert(rest@ =~= orig.skip(k + 1));
        }
        if s.id != id {
            sessions.push(s);
        }
        k = k + 1;
    }
    proof {
        assert(orig.take(n as int) =~= orig);
    }
}

/// Drop every plugin named `name`, keeping the order of the others.
fn remove_plugins_named(plugins: &mut Vec<Plugin>, name: &str)
    ensures
        final(plugins)@ == old(plugins)@.filter(lacks_name(name@)),
{
    let ghost orig = plugins@;
    let mut rest: Vec<Plugin> = Vec::new();
    std::mem::swap(&mut rest, plugins);
    let n = rest.len();
    let mut k: usize = 0;
    while k < n
        invariant
            n == orig.len(),
            k <= n,
            rest@ == orig.skip(k as int),
            plugins@ == orig.take(k as int).filter(lacks_name(name@)),
        decreases n - k,
    {
        let p = rest.remove(0);
        proof {
            assert(p == orig[k as int]);
            assert(orig.take(k + 1) =~= orig.take(k as int).push(p));
            orig.take(k as int).lemma_filter_push(p, lacks_name(name@));
            assert(rest@ =~= orig.skip(k + 1));
        }
        if !str_eq(p.name.as_str(), name) {
            plugins.push(p);
        }
        k = k + 1;
    }
    proof {
        assert(orig.take(n as int) =~= orig);
    }
}

impl TuiState {
    /// Well-formed: highlights keyed once per session, counters in step
    /// with the sessions, and the session count fits the counters.
    pub open spec fn wf(&self) -> bool {
        &&& self.flash_until.wf()
        &&& self.sessions@.len() <= u32::MAX
        &&& self.counters.counts(self.sessions@)
    }

    /// An empty dashboard that asks to be drawn.
    pub fn new() -> (s: TuiState)
        ensures
            s.wf(),
            s.sessions@.len() == 0,
            s.plugins@.len() == 0,
            s.selected == 0,
            s.flash_until@ == Map::<u128, u64>::empty(),
            s.dirty,
            !s.show_help,
            s.rename_modal is None,
            s.new_modal is None,
            s.status_message is None,
    {
        TuiState {
            sessions: Vec::new(),
            plugins: Vec::new(),
            selected: 0,
            counters: StatusCounters::zero(),
            flash_until: FlashMap::new(),
            dirty: true,
            show_help: false,
            rename_modal: None,
            new_modal: None,
            status_message: None,
        }
    }

    /// A dashboard holding the sessions and plugins of a `state.snapshot`
    /// answer (those entries of it that decode).
    pub fn from_snapshot(sessions: Vec<Session>, plugins: Vec<Plugin>) -> (s: TuiState)
        requires
            sessions@.len() <= u32::MAX,
        ensures
            s.wf(),
            s.sessions@ == sessions@,
            s.plugins@ == plugins@,
            s.selected == 0,
            s.flash_until@ == Map::<u128, u64>::empty(),
            s.dirty,
            !s.show_help,
            s.rename_modal is None,
            s.new_modal is None,
            s.status_message is None,
    {
        let counters = StatusCounters::from_sessions(sessions.as_slice());
        TuiState {
            sessions,
            plugins,
            selected: 0,
            counters,
            flash_until: FlashMap::new(),
            dirty: true,
            show_help: false,
            rename_modal: None,
            new_modal: None,
            status_message: None,
        }
    }

    /// The highlighted session, if the selection points at one.
    pub fn selected_session(&self) -> (r: Option<&Session>)
        ensures
            r matches Some(s) ==> self.selected < self.sessions@.len() && *s
                == self.sessions@[self.selected as int],
            r is None ==> self.selected >= self.sessions@.len(),
    {
        if self.selected < self.sessions.len() {
            Some(&self.sessions[self.selected])
        } else {
            None
        }
    }

    fn recompute_counters(&mut self)
        requires
            old(self).sessions@.len() <= u32::MAX,
        ensures
            final(self).counters.counts(final(self).sessions@),
            final(self).sessions == old(self).sessions,
            final(self).plugins == old(self).plugins,
            final(self).selected == old(self).selected,
            final(self).flash_until == old(self).flash_until,
            final(self).dirty == old(self).dirty,
            final(self).show_help == old(self).show_help,
            final(self).rename_modal == old(self).rename_modal,
            final(self).new_modal == old(self).new_modal,
            final(self).status_message == old(self).status_message,
    {
        self.counters = StatusCounters::from_sessions(self.sessions.as_slice());
    }

    /// Apply one bus event at instant `now`: the state changes as
    /// [`session_effect`] and [`plugin_effect`] say, and asks to be redrawn.
    pub fn apply_event(&mut self, event: &Event, decoded: DecodedPayload, now: u64)
        requires
            old(self).wf(),
            old(self).sessions@.len() < u32::MAX,
            now <= u64::MAX - FLASH_DURATION_MS,
        ensures
            final(self).wf(),
            final(self).dirty,
            ui_unchanged(&*old(self), &*final(self)),
            session_effect(&*old(self), &*final(self), event, &decoded, now),
            plugin_effect(&*old(self), &*final(self), event, &decoded),
    {
        let class = classify_event(event.kind.as_str());
        match class {
            EventClass::SessionUpsert => self.upsert_session(event, decoded, now),
            EventClass::SessionRenamed => self.rename_session(event, &decoded, now),
            EventClass::SessionRemoved => self.remove_session(event, &decoded, now),
            EventClass::StatusChanged => self.change_status(event, &decoded, now),
            EventClass::TaskChanged => self.change_task(event, &decoded, now),
            EventClass::UsageUpdated => self.update_usage(event, &decoded, now),
            EventClass::PluginConnected => self.connect_plugin(event, decoded, now),
            EventClass::PluginDisconnected => self.disconnect_plugin(event, &decoded, now),
            EventClass::Ignored => {
                self.dirty = true;
            },
        }
    }

    fn upsert_session(&mut self, event: &Event, decoded: DecodedPayload, now: u64)
        requires
            old(self).wf(),
            old(self).sessions@.len() < u32::MAX,
            now <= u64::MAX - FLASH_DURATION_MS,
            classify_spec(event.kind@) == EventClass::SessionUpsert,
        ensures
            final(self).wf(),
            final(self).dirty,
            ui_unchanged(&*old(self), &*final(self)),
            session_effect(&*old(self), &*final(self), event, &decoded, now),
            plugin_effect(&*old(self), &*final(self), event, &decoded),
    {
        let ghost d = decoded;
        let until = now + FLASH_DURATION_MS;
        if let Some(s) = decoded.session {
            match find_session(&self.sessions, s.id) {
                Some(i) => {
                    self.sessions.set(i, s);
                },
                None => {
                    let id = s.id;
                    self.flash_until.insert(id, until);
                    self.sessions.push(s);
                },
            }
            self.recompute_counters();
        }
        self.dirty = true;
    }

    fn rename_session(&mut self, event: &Event, decoded: &DecodedPayload, now: u64)
        requires
            old(self).wf(),
            now <= u64::MAX - FLASH_DURATION_MS,
            classify_spec(event.kind@) == EventClass::SessionRenamed,
        ensures
            final(self).wf(),
            final(self).dirty,
            ui_unchanged(&*old(self), &*final(self)),
            session_effect(&*old(self), &*final(self), event, decoded, now),
            plugin_effect(&*old(self), &*final(self), event, decoded),
    {
        let until = now + FLASH_DURATION_MS;
        if let Some(id) = event.session_id {
            if let Some(i) = find_session(&self.sessions, id) {
                if let Some(name) = event.payload.get_str("display_name") {
                    let ghost before = self.sessions@;
                    self.sessions[i].display_name = owned(name);
                    self.flash_until.insert(id, until);
                    proof {
                        lemma_count_same_statuses(self.sessions@, before);
                    }
                }
            }
        }
        self.dirty = true;
    }

    fn remove_session(&mut self, event: &Event, decoded: &DecodedPayload, now: u64)
        requires
            old(self).wf(),
            classify_spec(event.kind@) == EventClass::SessionRemoved,
        ensures
            final(self).wf(),
            final(self).dirty,
            ui_unchanged(&*old(self), &*final(self)),
            session_effect(&*old(self), &*final(self), event, decoded, now),
            plugin_effect(&*old(self), &*final(self), event, decoded),
    {
        if let Some(id) = event.session_id {
            remove_sessions_with_id(&mut self.sessions, id);
            self.flash_until.remove(id);
            if self.selected >= self.sessions.len() && self.sessions.len() > 0 {
                self.selected = self.sessions.len() - 1;
            }
            proof {
                old(self).sessions@.lemma_filter_len(lacks_id(id));
            }
            self.recompute_counters();
        }
        self.dirty = true;
    }

    fn change_status(&mut self, event: &Event, decoded: &DecodedPayload, now: u64)
        requires
            old(self).wf(),
            now <= u64::MAX - FLASH_DURATION_MS,
            classify_spec(event.kind@) == EventClass::StatusChanged,
        ensures
            final(self).wf(),
            final(self).dirty,
            ui_unchanged(&*old(self), &*final(self)),
            session_effect(&*old(self), &*final(self), event, decoded, now),
            plugin_effect(&*old(self), &*final(self), event, decoded),
    {
        let until = now + FLASH_DURATION_MS;
        if let Some(id) = event.session_id {
            if let Some(i) = find_session(&self.sessions, id) {
                if let Some(text) = event.payload.get_str("status") {
                    if let Some(st) = SessionStatus::from_wire(text) {
                        self.sessions[i].status = st;
                        self.flash_until.insert(id, until);
                        self.recompute_counters();
                    }
                }
            }
        }
        self.dirty = true;
    }

    fn change_task(&mut self, event: &Event, decoded: &DecodedPayload, now: u64)
        requires
            old(self).wf(),
            now <= u64::MAX - FLASH_DURATION_MS,
            classify_spec(event.kind@) == EventClass::TaskChanged,
        ensures
            final(self).wf(),
            final(self).dirty,
            ui_unchanged(&*old(self), &*final(self)),
            session_effect(&*old(self), &*final(self), event, decoded, now),
            plugin_effect(&*old(self), &*final(self), event, decoded),
    {
        let until = now + FLASH_DURATION_MS;
        if let Some(id) = event.session_id {
            if let Some(i) = find_session(&self.sessions, id) {
                if let Some(task) = event.payload.get_str("task") {
                    let ghost before = self.sessions@;
                    self.sessions[i].current_task = Some(owned(task));
                    self.flash_until.insert(id, until);
                    proof {
                        lemma_count_same_statuses(self.sessions@, before);
                    }
                }
            }
        }
        self.dirty = true;
    }

    fn update_usage(&mut self, event: &Event, decoded: &DecodedPayload, now: u64)
        requires
            old(self).wf(),
            classify_spec(event.kind@) == EventClass::UsageUpdated,
        ensures
            final(self).wf(),
            final(self).dirty,
            ui_unchanged(&*old(self), &*final(self)),
            session_effect(&*old(self), &*final(self), event, decoded, now),
            plugin_effect(&*old(self), &*final(self), event, decoded),
    {
        if let Some(id) = event.session_id {
            if let Some(i) = find_session(&self.sessions, id) {
                let ghost before = self.sessions@;
                if let Some(used) = event.payload.get_u64("used") {
                    self.sessions[i].context_used_tokens = Some(used);
                }
                if let Some(total) = event.payload.get_u64("total") {
                    self.sessions[i].context_total_tokens = Some(total);
                }
                if let Some(cost) = event.payload.get_number("cost_usd") {
                    self.sessions[i].cost_usd = Some(cost);
                }
                proof {
                    lemma_count_same_statuses(self.sessions@, before);
                    assert(self.sessions@ =~= before.update(
                        i as int,
                        Session {
                            context_used_tokens: self.sessions@[i as int].context_used_tokens,
                            context_total_tokens: self.sessions@[i as int].context_total_tokens,
                            cost_usd: self.sessions@[i as int].cost_usd,
                            ..before[i as int]
                        },
                    ));
                }
            }
        }
        self.dirty = true;
    }

    fn connect_plugin(&mut self, event: &Event, decoded: DecodedPayload, now: u64)
        requires
            old(self).wf(),
            classify_spec(event.kind@) == EventClass::PluginConnected,
        ensures
            final(self).wf(),
            final(self).dirty,
            ui_unchanged(&*old(self), &*final(self)),
            session_effect(&*old(self), &*final(self), event, &decoded, now),
            plugin_effect(&*old(self), &*final(self), event, &decoded),
    {
        if let Some(p) = decoded.plugin {
            match find_plugin(&self.plugins, p.name.as_str()) {
                Some(i) => {
                    self.plugins.set(i, p);
                },
                None => {
                    self.plugins.push(p);
                },
            }
        }
        self.dirty = true;
    }

    fn disconnect_plugin(&mut self, event: &Event, decoded: &DecodedPayload, now: u64)
        requires
            old(self).wf(),
            classify_spec(event.kind@) == EventClass::PluginDisconnected,
        ensures
            final(self).wf(),
            final(self).dirty,
            ui_unchanged(&*old(self), &*final(self)),
            session_effect(&*old(self), &*final(self), event, decoded, now),
            plugin_effect(&*old(self), &*final(self), event, decoded),
    {
        if let Some(name) = event.payload.get_str("name") {
            remove_plugins_named(&mut self.plugins, name);
        }
        self.dirty = true;
    }

    /// Whether the screen must be drawn at `now`: something changed, or some
    /// row is still highlighted.
    pub fn needs_redraw(&self, now: u64) -> (r: bool)
        requires
            self.wf(),
        ensures
            r == (self.dirty || exists|id: u128| #[trigger] self.flash_until@.dom().contains(id)
                && self.flash_until@[id] > now),
    {
        self.dirty || self.flash_until.any_after(now)
    }

    /// Drop highlights that expired by `now`; asks for a redraw when any was
    /// dropped.
    pub fn tick_flash(&mut self, now: u64)
        requires
            old(self).wf(),
        ensures
            final(self).wf(),
            final(self).flash_until@ == crate::tui::flash::still_flashing(
                old(self).flash_until@,
                now,
            ),
            final(self).dirty == (old(self).dirty || final(self).flash_until@.dom().len()
                != old(self).flash_until@.dom().len()),
            final(self).sessions == old(self).sessions,
            final(self).plugins == old(self).plugins,
            final(self).selected == old(self).selected,
            ui_unchanged(&*old(self), &*final(self)),
    {
        if self.flash_until.retain_after(now) {
            self.dirty = true;
        }
    }
}

} // verus!
