//! The daemon's boot decisions: which finished sessions and which events the
//! tombstone collection removes, and which plugins must be running again
//! for the sessions that were live when the daemon last stopped.
use crate::db::migrations::MigrationError;
use crate::db::repo::RepoError;
use crate::ipc::control::ControlError;
use crate::plugin_spawner::SpawnError;
use crate::plugin_supervisor::SupervisorError;
use crate::ids::{parse_rfc3339, rfc3339_instant};
use crate::protocol::{Session, SessionStatus, Timestamp};
use crate::text::{owned, str_eq};
use vstd::prelude::*;

verus! {

/// Failures of building or running the daemon.
#[derive(Debug, PartialEq)]
pub enum DaemonError {
    /// File-system failure: the system error's text.
    Io(String),
    /// State database failure.
    Db(RepoError),
    /// Schema migration failure.
    Migrations(MigrationError),
    /// Plugin supervisor failure.
    Supervisor(SupervisorError),
    /// Plugin start failure.
    Spawn(SpawnError),
    /// Control socket failure.
    Control(ControlError),
    /// Another daemon holds the runtime lock.
    LockHeld,
    /// The runtime directory is missing or not writable.
    MissingRuntimeDir,
}

/// A finished session is kept this many days after it finished.
pub const TOMBSTONE_TTL_DAYS: u32 = 30;

/// The columns of a `sessions` row that the tombstone collection reads, as
/// stored: id, status and finish time, all text.
#[derive(Debug, Clone, PartialEq, Eq)]
pub struct GcRow {
    pub id: String,
    pub status: String,
    pub finished_at: Option<String>,
}

/// Seconds in the thirty days a finished session is kept.
pub const TOMBSTONE_TTL_SECS: i64 = 2_592_000;

/// Instant `t` lies more than thirty days before `now`.
pub open spec fn older_than_ttl(t: Timestamp, now: Timestamp) -> bool {
    t.secs + TOMBSTONE_TTL_SECS < now.secs || (t.secs + TOMBSTONE_TTL_SECS == now.secs
        && t.nanos < now.nanos)
}

/// The row is a finished session whose stored finish time (RFC 3339 text)
/// names an instant more than thirty days before `now`; a missing or
/// unreadable finish time never expires.
pub open spec fn is_expired(r: GcRow, now: Timestamp) -> bool {
    &&& r.status@ == "finished"@
    &&& r.finished_at matches Some(t) && rfc3339_instant(t@) matches Some(at) && older_than_ttl(
        at,
        now,
    )
}

/// Some row of `rows` has the id `id` (by its text).
pub open spec fn has_row(rows: Seq<GcRow>, id: Seq<char>) -> bool {
    exists|k: int| 0 <= k < rows.len() && (#[trigger] rows[k]).id@ == id
}

/// The event `(event id, session id)` belongs to no row of `rows`.
pub open spec fn is_orphan(rows: Seq<GcRow>) -> spec_fn((i64, String)) -> bool {
    |e: (i64, String)| !has_row(rows, e.1@)
}

/// The row is expired at `now`.
pub open spec fn expired_at(now: Timestamp) -> spec_fn(GcRow) -> bool {
    |r: GcRow| is_expired(r, now)
}

fn expired_row(r: &GcRow, now: Timestamp) -> (b: bool)
    ensures
        b == is_expired(*r, now),
{
    proof {
        reveal_strlit("finished");
    }
    if !str_eq(r.status.as_str(), "finished") {
        return false;
    }
    let text = match &r.finished_at {
        Some(t) => t,
        None => return false,
    };
    match parse_rfc3339(text.as_str()) {
        Some(at) => {
            let kept_until: i128 = at.secs as i128 + TOMBSTONE_TTL_SECS as i128;
            kept_until < now.secs as i128 || (kept_until == now.secs as i128 && at.nanos
                < now.nanos)
        },
        None => false,
    }
}

/// What the tombstone collection removes.
#[derive(Debug, PartialEq)]
pub struct GcPlan {
    /// Ids of the events whose session no longer exists.
    pub orphan_events: Vec<i64>,
    /// Ids of the finished sessions past their thirty days.
    pub expired_sessions: Vec<String>,
}

fn row_known(rows: &Vec<GcRow>, id: &str) -> (r: bool)
    ensures
        r == has_row(rows@, id@),
{
    let n = rows.len();
    let mut k: usize = 0;
    while k < n
        invariant
            n == rows@.len(),
            k <= n,
            forall|j: int| 0 <= j < k ==> (#[trigger] rows@[j]).id@ != id@,
        decreases n - k,
    {
        if str_eq(rows[k].id.as_str(), id) {
            return true;
        }
        k = k + 1;
    }
    false
}

/// The tombstone collection at daemon boot, decided over the stored
/// sessions and the `(id, session id)` of the stored events: first the
/// events of sessions that do not exist (judged before any session is
/// removed), then the finished sessions that finished more than thirty
/// days before `now`; each in stored order.
pub fn tombstone_gc(sessions: &Vec<GcRow>, events: &Vec<(i64, String)>, now: Timestamp) -> (r:
    GcPlan)
    ensures
        r.orphan_events@.len() == events@.filter(is_orphan(sessions@)).len(),
        forall|i: int|
            0 <= i < r.orphan_events@.len() ==> r.orphan_events@[i] == (
            #[trigger] events@.filter(is_orphan(sessions@))[i]).0,
        r.expired_sessions@.len() == sessions@.filter(expired_at(now)).len(),
        forall|i: int|
            0 <= i < r.expired_sessions@.len() ==> r.expired_sessions@[i] == (
            #[trigger] sessions@.filter(expired_at(now))[i]).id,
{
    let ghost orphan = is_orphan(sessions@);
    let mut orphans: Vec<i64> = Vec::new();
    let n = events.len();
    let mut i: usize = 0;
    while i < n
        invariant
            n == events@.len(),
            i <= n,
            orphan == is_orphan(sessions@),
            orphans@.len() == events@.take(i as int).filter(orphan).len(),
            forall|j: int|
                0 <= j < orphans@.len() ==> orphans@[j] == (#[trigger] events@.take(
                    i as int,
                ).filter(orphan)[j]).0,
        decreases n - i,
    {
        let e = &events[i];
        proof {
            assert(events@.take(i + 1) =~= events@.take(i as int).push(*e));
            events@.take(i as int).lemma_filter_push(*e, orphan);
        }
        let ghost before = orphans@;
        if !row_known(sessions, e.1.as_str()) {
            orphans.push(e.0);
            proof {
                let f = events@.take(i as int).filter(orphan);
                assert forall|j: int| 0 <= j < orphans@.len() implies orphans@[j] == (
                #[trigger] f.push(*e)[j]).0 by {
                    if j < before.len() {
                        assert(f.push(*e)[j] == f[j]);
                    }
                }
            }
        }
        i = i + 1;
    }
    proof {
        assert(events@.take(n as int) =~= events@);
    }
    let ghost gone = expired_at(now);
    let mut expired: Vec<String> = Vec::new();
    let m = sessions.len();
    let mut k: usize = 0;
    while k < m
        invariant
            m == sessions@.len(),
            k <= m,
            gone == expired_at(now),
            expired@.len() == sessions@.take(k as int).filter(gone).len(),
            forall|j: int|
                0 <= j < expired@.len() ==> expired@[j] == (#[trigger] sessions@.take(
                    k as int,
                ).filter(gone)[j]).id,
        decreases m - k,
    {
        let s = &sessions[k];
        proof {
            assert(sessions@.take(k + 1) =~= sessions@.take(k as int).push(*s));
            sessions@.take(k as int).lemma_filter_push(*s, gone);
        }
        let ghost before = expired@;
        let is_gone = expired_row(s, now);
        if is_gone {
            expired.push(s.id.clone());
            proof {
                let f = sessions@.take(k as int).filter(gone);
                assert forall|j: int| 0 <= j < expired@.len() implies expired@[j] == (
                #[trigger] f.push(*s)[j]).id by {
                    if j < before.len() {
                        assert(f.push(*s)[j] == f[j]);
                    }
                }
            }
        }
        k = k + 1;
    }
    proof {
        assert(sessions@.take(m as int) =~= sessions@);
    }
    GcPlan { orphan_events: orphans, expired_sessions: expired }
}

/// The plugin a live session belongs to: the string `metadata.plugin` of a
/// session that is not finished.
pub open spec fn owning_plugin(s: Session) -> Option<Seq<char>> {
    if s.status == SessionStatus::Finished {
        None
    } else {
        s.metadata.str_field("plugin"@)
    }
}

/// Some session of `sessions` is live and belongs to plugin `name`.
pub open spec fn plugin_needed(sessions: Seq<Session>, name: Seq<char>) -> bool {
    exists|k: int| 0 <= k < sessions.len() && owning_plugin(#[trigger] sessions[k]) == Some(name)
}

/// No name occurs twice in `names`.
pub open spec fn distinct_names(names: Seq<String>) -> bool {
    forall|i: int, j: int| 0 <= i < j < names.len() ==> (#[trigger] names[i])@ != (
    #[trigger] names[j])@
}

fn name_listed(names: &Vec<String>, name: &str) -> (r: bool)
    ensures
        r == exists|j: int| 0 <= j < names@.len() && (#[trigger] names@[j])@ == name@,
{
    let n = names.len();
    let mut j: usize = 0;
    while j < n
        invariant
            n == names@.len(),
            j <= n,
            forall|q: int| 0 <= q < j ==> (#[trigger] names@[q])@ != name@,
        decreases n - j,
    {
        if str_eq(names[j].as_str(), name) {
            return true;
        }
        j = j + 1;
    }
    false
}

/// The plugins that must run again after a restart: every plugin that a
/// live session belongs to, each once, in the order of first need.
pub fn plugins_to_respawn(sessions: &Vec<Session>) -> (r: Vec<String>)
    ensures
        distinct_names(r@),
        forall|name: Seq<char>|
            (exists|i: int| 0 <= i < r@.len() && (#[trigger] r@[i])@ == name) <==> plugin_needed(
                sessions@,
                name,
            ),
{
    let mut out: Vec<String> = Vec::new();
    let n = sessions.len();
    let mut k: usize = 0;
    while k < n
        invariant
            n == sessions@.len(),
            k <= n,
            distinct_names(out@),
            forall|name: Seq<char>|
                (exists|i: int| 0 <= i < out@.len() && (#[trigger] out@[i])@ == name) <==> plugin_needed(
                    sessions@.take(k as int),
                    name,
                ),
        decreases n - k,
    {
        let s = &sessions[k];
        let ghost pre = sessions@.take(k as int);
        let ghost post = sessions@.take(k + 1);
        proof {
            assert(post =~= pre.push(*s));
        }
        let ghost before = out@;
        let wanted: Option<&str> = if s.status != SessionStatus::Finished {
            s.metadata.get_str("plugin")
        } else {
            None
        };
        proof {
            reveal_strlit("plugin");
        }
        assert(wanted matches Some(p) ==> owning_plugin(*s) == Some(p@));
        assert(wanted is None ==> owning_plugin(*s) is None);
        match wanted {
            Some(p) => {
                if !name_listed(&out, p) {
                    out.push(owned(p));
                }
            },
            None => {},
        }
        proof {
            assert forall|name: Seq<char>|
                (exists|i: int| 0 <= i < out@.len() && (#[trigger] out@[i])@ == name)
                    <==> plugin_needed(post, name) by {
                let in_before = exists|i: int| 0 <= i < before.len() && (#[trigger] before[i])@
                    == name;
                if plugin_needed(post, name) {
                    let w = choose|q: int|
                        0 <= q < post.len() && owning_plugin(#[trigger] post[q]) == Some(name);
                    if w < pre.len() {
                        assert(pre[w] == post[w]);
                        assert(plugin_needed(pre, name));
                        let i = choose|i: int| 0 <= i < before.len() && (#[trigger] before[i])@
                            == name;
                        assert(out@[i] == before[i]);
                    } else {
                        assert(post[w] == *s);
                        if in_before {
                            let i = choose|i: int| 0 <= i < before.len() && (#[trigger] before[i])@
                                == name;
                            assert(out@[i] == before[i]);
                        } else {
                            assert(out@.len() == before.len() + 1);
                            assert(out@[before.len() as int]@ == name);
                        }
                    }
                }
                if exists|i: int| 0 <= i < out@.len() && (#[trigger] out@[i])@ == name {
                    let i = choose|i: int| 0 <= i < out@.len() && (#[trigger] out@[i])@ == name;
                    if i < before.len() {
                        assert(before[i] == out@[i]);
                        assert(plugin_needed(pre, name));
                        let w = choose|q: int|
                            0 <= q < pre.len() && owning_plugin(#[trigger] pre[q]) == Some(name);
                        assert(post[w] == pre[w]);
                    } else {
                        assert(post[k as int] == *s);
                        assert(owning_plugin(post[k as int]) == Some(name));
                    }
                }
            }
            assert forall|a: int, b: int| 0 <= a < b < out@.len() implies (#[trigger] out@[a])@
                != (#[trigger] out@[b])@ by {
                if b >= before.len() {
                    assert(out@[a] == before[a]);
                }
            }
        }
        k = k + 1;
    }
    proof {
        assert(sessions@.take(n as int) =~= sessions@);
    }
    out
}

/// Session `s` is not finished and its metadata names the plugin `name`.
pub open spec fn live_session_of(s: Session, name: Seq<char>) -> bool {
    s.status != SessionStatus::Finished && s.metadata.str_field("plugin"@) == Some(name)
}

/// Some session of `sessions` is not finished and names the plugin `name`.
pub open spec fn has_live_session(sessions: Seq<Session>, name: Seq<char>) -> bool {
    exists|k: int| 0 <= k < sessions.len() && #[trigger] live_session_of(sessions[k], name)
}

/// After a restart, the plugin of every session that is not finished is
/// respawned, whatever the session's other status; and every plugin
/// respawned is named by the metadata of such a session.
pub proof fn lemma_live_sessions_respawned(sessions: Seq<Session>, r: Seq<String>)
    requires
        forall|name: Seq<char>|
            (exists|i: int| 0 <= i < r.len() && (#[trigger] r[i])@ == name) <==> plugin_needed(
                sessions,
                name,
            ),
    ensures
        forall|k: int, name: Seq<char>|
            0 <= k < sessions.len() && #[trigger] live_session_of(sessions[k], name) ==> exists|i: int|
                0 <= i < r.len() && (#[trigger] r[i])@ == name,
        forall|i: int| 0 <= i < r.len() ==> has_live_session(sessions, #[trigger] r[i]@),
{
    assert forall|k: int, name: Seq<char>|
        0 <= k < sessions.len() && #[trigger] live_session_of(sessions[k], name) implies exists|i: int|
            0 <= i < r.len() && (#[trigger] r[i])@ == name by {
        assert(owning_plugin(sessions[k]) == Some(name));
        assert(plugin_needed(sessions, name));
    }
    assert forall|i: int| 0 <= i < r.len() implies has_live_session(sessions, #[trigger] r[i]@) by {
        let name = r[i]@;
        assert(exists|j: int| 0 <= j < r.len() && (#[trigger] r[j])@ == name);
        assert(plugin_needed(sessions, name));
        let k = choose|k: int| 0 <= k < sessions.len() && owning_plugin(#[trigger] sessions[k]) == Some(name);
        assert(live_session_of(sessions[k], name));
    }
}

/// The thirty-day rule over instants: a session that finished more than
/// thirty days (whole seconds) before `now` is old enough, one that
/// finished less than thirty days before is not, and what is old enough at
/// `now` stays old enough at every later instant.
pub proof fn lemma_ttl_bounds(t: Timestamp, now: Timestamp, later: Timestamp)
    ensures
        t.secs + 2_592_000 < now.secs ==> older_than_ttl(t, now),
        t.secs + 2_592_000 > now.secs ==> !older_than_ttl(t, now),
        older_than_ttl(t, now) ==> t.secs < now.secs,
        older_than_ttl(t, now) && (later.secs > now.secs || (later.secs == now.secs && later.nanos
            >= now.nanos)) ==> older_than_ttl(t, later),
{
}

} // verus!
