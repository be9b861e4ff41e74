//! The plugin supervisor's decisions: which plugins to start on boot and
//! where their sockets go, whether an on-demand start is due, and when a
//! plugin whose heartbeat went stale may be restarted (at most three
//! restarts in any sixty seconds). Processes, sockets and timers are run by
//! the caller.
use crate::db::repo::RepoError;
use crate::paths::{join_spec, Paths};
use crate::plugin_heartbeat::{elapsed, PluginHeartbeat, HEARTBEAT_TIMEOUT_MS};
use crate::plugins_manifest::{entry_named, starts_on_boot, PluginEntry, PluginsManifest};
use crate::seq_util::{first_index, lemma_first_index_none};
use vstd::prelude::*;

verus! {

/// Failures of the supervisor.
#[derive(Debug, PartialEq)]
pub enum SupervisorError {
    /// Socket or file-system failure: the system error's text.
    Io(String),
    /// State database failure.
    Db(RepoError),
}

/// Restarts older than this many milliseconds no longer count.
pub const RESTART_WINDOW_MS: u64 = 60_000;

/// At most this many restarts inside one window.
pub const MAX_RESTARTS: usize = 3;

/// How often the monitor looks at a plugin's heartbeat, in milliseconds.
pub const MONITOR_PERIOD_MS: u64 = 5_000;

/// A restart at `t` still counts at `now`.
pub open spec fn in_window(now: u64) -> spec_fn(u64) -> bool {
    |t: u64| elapsed(t, now) < RESTART_WINDOW_MS
}

/// One stale-heartbeat check at `now` against the restarts `w`: whether a
/// restart is allowed, and the restarts remembered afterwards (those still
/// in the window, plus `now` when a restart is allowed).
pub open spec fn restart_step(w: Seq<u64>, now: u64) -> (bool, Seq<u64>) {
    let kept = w.filter(in_window(now));
    if kept.len() >= MAX_RESTARTS {
        (false, kept)
    } else {
        (true, kept.push(now))
    }
}

/// The instants of the restarts a plugin's monitor has allowed.
#[derive(Debug)]
pub struct RestartWindow {
    restarts: Vec<u64>,
}

impl RestartWindow {
    /// The remembered restart instants, oldest first.
    pub closed spec fn view(&self) -> Seq<u64> {
        self.restarts@
    }

    /// No restarts yet.
    pub fn new() -> (w: RestartWindow)
        ensures
            w@ == Seq::<u64>::empty(),
    {
        RestartWindow { restarts: Vec::new() }
    }

    /// Number of remembered restarts.
    pub fn len(&self) -> (n: usize)
        ensures
            n == self@.len(),
    {
        self.restarts.len()
    }

    /// The heartbeat was found stale at `now`: forget restarts that left
    /// the window, then allow a restart (and remember it) unless three are
    /// still in the window.
    pub fn on_stale(&mut self, now: u64) -> (allowed: bool)
        ensures
            (allowed, final(self)@) == restart_step(old(self)@, now),
    {
        let ghost orig = self.restarts@;
        let ghost keep = in_window(now);
        let mut kept: Vec<u64> = Vec::new();
        let n = self.restarts.len();
        let mut i: usize = 0;
        while i < n
            invariant
                n == orig.len(),
                orig == self.restarts@,
                i <= n,
                keep == in_window(now),
                kept@ == orig.take(i as int).filter(keep),
            decreases n - i,
        {
            let t = self.restarts[i];
            proof {
                assert(orig.take(i + 1) =~= orig.take(i as int).push(t));
                orig.take(i as int).lemma_filter_push(t, keep);
            }
            let age = if now >= t {
                now - t
            } else {
                0
            };
            if age < RESTART_WINDOW_MS {
                kept.push(t);
            }
            i = i + 1;
        }
        proof {
            assert(orig.take(n as int) =~= orig);
        }
        if kept.len() >= MAX_RESTARTS {
            self.restarts = kept;
            false
        } else {
            kept.push(now);
            self.restarts = kept;
            true
        }
    }
}

/// The window never holds more than three restarts, every one of them less
/// than a minute old, and a restart is allowed exactly when fewer than
/// three allowed restarts are less than a minute old.
pub proof fn lemma_restart_limit(w: Seq<u64>, now: u64)
    requires
        w.len() <= MAX_RESTARTS,
    ensures
        restart_step(w, now).1.len() <= MAX_RESTARTS,
        restart_step(w, now).0 <==> w.filter(in_window(now)).len() < MAX_RESTARTS,
        forall|i: int|
            0 <= i < restart_step(w, now).1.len() ==> elapsed(
                #[trigger] restart_step(w, now).1[i],
                now,
            ) < RESTART_WINDOW_MS,
{
    let keep = in_window(now);
    w.lemma_filter_len(keep);
    let kept = w.filter(keep);
    assert forall|i: int| 0 <= i < kept.len() implies elapsed(#[trigger] kept[i], now)
        < RESTART_WINDOW_MS by {
        w.filter_lemma(keep);
    }
}

/// What the monitor of one plugin does after a tick.
#[derive(Debug, Clone, Copy, PartialEq, Eq, Structural)]
pub enum MonitorAction {
    /// The supervisor is shutting down: the monitor ends.
    Stop,
    /// The heartbeat is fresh: sleep again.
    Continue,
    /// The heartbeat is stale and a restart is allowed.
    Restart,
    /// The heartbeat is stale and the restart limit is reached: the monitor
    /// ends.
    GiveUp,
}

/// One monitor tick at `now` (every five seconds).
pub fn monitor_step(
    shutdown: bool,
    beat: &PluginHeartbeat,
    window: &mut RestartWindow,
    now: u64,
) -> (a: MonitorAction)
    ensures
        shutdown ==> a == MonitorAction::Stop && final(window)@ == old(window)@,
        !shutdown && elapsed(beat.last, now) < HEARTBEAT_TIMEOUT_MS ==> a
            == MonitorAction::Continue && final(window)@ == old(window)@,
        !shutdown && elapsed(beat.last, now) >= HEARTBEAT_TIMEOUT_MS ==> {
            &&& final(window)@ == restart_step(old(window)@, now).1
            &&& a == if restart_step(old(window)@, now).0 {
                MonitorAction::Restart
            } else {
                MonitorAction::GiveUp
            }
        },
{
    if shutdown {
        return MonitorAction::Stop;
    }
    if beat.is_alive(now, HEARTBEAT_TIMEOUT_MS) {
        return MonitorAction::Continue;
    }
    if window.on_stale(now) {
        MonitorAction::Restart
    } else {
        MonitorAction::GiveUp
    }
}

/// A plugin child to start: its name, its binary and the socket it is told
/// to connect to.
#[derive(Debug, PartialEq)]
pub struct SpawnRequest {
    pub name: String,
    pub binary: String,
    pub socket: String,
}

/// A plugin's socket path under `runtime_dir`.
pub open spec fn plugin_socket_spec(runtime_dir: Seq<char>, name: Seq<char>) -> Seq<char> {
    join_spec(runtime_dir, "plugin-"@ + name + ".sock"@)
}

/// The plugins started on boot, in manifest order, each with its socket
/// under the runtime directory.
pub fn autostart_plan(manifest: &PluginsManifest, paths: &Paths) -> (r: Vec<SpawnRequest>)
    ensures
        r@.len() == manifest.plugins@.filter(starts_on_boot()).len(),
        forall|i: int|
            0 <= i < r@.len() ==> {
                let e = #[trigger] manifest.plugins@.filter(starts_on_boot())[i];
                &&& r@[i].name == e.name
                &&& r@[i].binary == e.binary
                &&& r@[i].socket@ == plugin_socket_spec(paths.runtime_dir@, e.name@)
            },
{
    let ghost keep = starts_on_boot();
    let ghost all = manifest.plugins@;
    let mut out: Vec<SpawnRequest> = Vec::new();
    let n = manifest.plugins.len();
    let mut i: usize = 0;
    while i < n
        invariant
            n == all.len(),
            all == manifest.plugins@,
            i <= n,
            keep == starts_on_boot(),
            out@.len() == all.take(i as int).filter(keep).len(),
            forall|j: int|
                0 <= j < out@.len() ==> {
                    let e = #[trigger] all.take(i as int).filter(keep)[j];
                    &&& out@[j].name == e.name
                    &&& out@[j].binary == e.binary
                    &&& out@[j].socket@ == plugin_socket_spec(paths.runtime_dir@, e.name@)
                },
        decreases n - i,
    {
        let e = &manifest.plugins[i];
        proof {
            assert(all.take(i + 1) =~= all.take(i as int).push(*e));
            all.take(i as int).lemma_filter_push(*e, keep);
        }
        let ghost before = out@;
        if e.autostart {
            let socket = paths.plugin_socket_path(e.name.as_str());
            out.push(SpawnRequest { name: e.name.clone(), binary: e.binary.clone(), socket });
            proof {
                let f = all.take(i as int).filter(keep);
                assert forall|j: int| 0 <= j < out@.len() implies {
                    let x = #[trigger] f.push(*e)[j];
                    &&& out@[j].name == x.name
                    &&& out@[j].binary == x.binary
                    &&& out@[j].socket@ == plugin_socket_spec(paths.runtime_dir@, x.name@)
                } by {
                    if j < before.len() {
                        assert(f.push(*e)[j] == f[j]);
                    }
                }
            }
        }
        i = i + 1;
    }
    proof {
        assert(all.take(n as int) =~= all);
    }
    out
}

/// An on-demand start of plugin `name` is due: it does not run yet, there
/// is a spawner, the manifest has an entry of that name, and the paths are
/// known.
pub open spec fn start_due(
    already_running: bool,
    has_spawner: bool,
    plugins: Seq<PluginEntry>,
    paths_known: bool,
    name: Seq<char>,
) -> bool {
    &&& !already_running
    &&& has_spawner
    &&& first_index(plugins, entry_named(name)) is Some
    &&& paths_known
}

/// A plugin is started at most once: once it runs no further start is due,
/// and a name without a manifest entry is never started.
pub proof fn lemma_start_once(has_spawner: bool, plugins: Seq<PluginEntry>, paths_known: bool, name: Seq<char>)
    ensures
        !start_due(true, has_spawner, plugins, paths_known, name),
        (forall|i: int| 0 <= i < plugins.len() ==> (#[trigger] plugins[i]).name@ != name) ==> forall|
            running: bool,
        | !start_due(running, has_spawner, plugins, paths_known, name),
{
    if forall|i: int| 0 <= i < plugins.len() ==> (#[trigger] plugins[i]).name@ != name {
        lemma_first_index_none(plugins, entry_named(name));
    }
}

/// Whether an on-demand start of plugin `name` is due, and with what: not
/// when it already runs, when there is no spawner, when the manifest has no
/// entry of that name, or when the paths are not known yet. Otherwise the
/// first manifest entry of that name gives the binary and the socket.
pub fn ensure_plan(
    already_running: bool,
    has_spawner: bool,
    manifest: &PluginsManifest,
    paths: Option<&Paths>,
    name: &str,
) -> (r: Option<SpawnRequest>)
    ensures
        r is Some <==> start_due(already_running, has_spawner, manifest.plugins@, paths is Some, name@),
        r matches Some(req) ==> {
            let e = manifest.plugins@[first_index(manifest.plugins@, entry_named(name@))->0];
            &&& req.name@ == name@
            &&& req.binary == e.binary
            &&& req.socket@ == plugin_socket_spec(paths->0.runtime_dir@, e.name@)
        },
{
    if already_running || !has_spawner {
        return None;
    }
    let entry = match manifest.find(name) {
        Some(e) => e,
        None => return None,
    };
    let paths = match paths {
        Some(p) => p,
        None => return None,
    };
    let socket = paths.plugin_socket_path(entry.name.as_str());
    Some(SpawnRequest { name: entry.name.clone(), binary: entry.binary.clone(), socket })
}

} // verus!
