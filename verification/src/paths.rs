//! Every on-disk location the daemon uses, derived from the XDG base
//! directories. Paths are UTF-8 text joined with `/`.
use crate::text::{decimal, decimal_string, owned, starts_with};
use vstd::prelude::*;

verus! {

/// `base` joined with the relative or absolute path `p`, as
/// `std::path::Path::join` does it on Unix: an absolute `p` replaces the
/// base; otherwise a `/` separates them unless the base is empty or ends
/// in one.
pub open spec fn join_spec(base: Seq<char>, p: Seq<char>) -> Seq<char> {
    if p.len() > 0 && p[0] == '/' {
        p
    } else if base.len() == 0 || base.last() == '/' {
        base + p
    } else {
        base + seq!['/'] + p
    }
}

/// `base.join(p)`.
pub fn join(base: &str, p: &str) -> (r: String)
    ensures
        r@ == join_spec(base@, p@),
{
    if p.unicode_len() > 0 && p.get_char(0) == '/' {
        return owned(p);
    }
    let n = base.unicode_len();
    if n == 0 || base.get_char(n - 1) == '/' {
        owned(base).concat(p)
    } else {
        let r = owned(base).concat("/").concat(p);
        proof {
            reveal_strlit("/");
        }
        r
    }
}

/// All on-disk locations.
#[derive(Debug, Clone, PartialEq)]
pub struct Paths {
    /// `~/.config/agentd/`
    pub config_dir: String,
    /// `~/.local/share/agentd/`
    pub state_dir: String,
    /// `~/.cache/agentd/`
    pub cache_dir: String,
    /// `$XDG_RUNTIME_DIR/agentd/`
    pub runtime_dir: String,
    /// `state_dir/state.db`
    pub state_db_path: String,
    /// `runtime_dir/control.sock`
    pub control_socket_path: String,
    /// `runtime_dir/daemon.lock` (older name of `daemon_lock_path`)
    pub lock_path: String,
    /// `runtime_dir/daemon.lock`: locked while a daemon runs
    pub daemon_lock_path: String,
    /// `state_dir/logs`
    pub log_dir: String,
    /// `state_dir/plugins` (downloaded plugin binaries)
    pub plugins_dir: String,
}

/// The paths derived from the four base directories.
pub open spec fn paths_from(
    p: Paths,
    cfg: Seq<char>,
    data: Seq<char>,
    cache: Seq<char>,
    runtime: Seq<char>,
) -> bool {
    &&& p.config_dir@ == cfg
    &&& p.state_dir@ == data
    &&& p.cache_dir@ == cache
    &&& p.runtime_dir@ == runtime
    &&& p.state_db_path@ == join_spec(data, "state.db"@)
    &&& p.control_socket_path@ == join_spec(runtime, "control.sock"@)
    &&& p.lock_path@ == join_spec(runtime, "daemon.lock"@)
    &&& p.daemon_lock_path@ == join_spec(runtime, "daemon.lock"@)
    &&& p.log_dir@ == join_spec(data, "logs"@)
    &&& p.plugins_dir@ == join_spec(data, "plugins"@)
}

/// The base directory named by an XDG variable, else `default` joined under
/// the home directory, else `default` alone.
pub open spec fn xdg_dir(var: Option<Seq<char>>, home: Option<Seq<char>>, default: Seq<char>) -> Seq<
    char,
> {
    match var {
        Some(v) => v,
        None => match home {
            Some(h) => join_spec(h, default),
            None => default,
        },
    }
}

fn xdg(var: Option<&str>, home: Option<&str>, default: &str) -> (r: String)
    ensures
        r@ == xdg_dir(
            match var {
                Some(v) => Some(v@),
                None => None,
            },
            match home {
                Some(h) => Some(h@),
                None => None,
            },
            default@,
        ),
{
    match var {
        Some(v) => owned(v),
        None => match home {
            Some(h) => join(h, default),
            None => owned(default),
        },
    }
}

/// The text of an optional string slice.
pub open spec fn opt_view(o: Option<&str>) -> Option<Seq<char>> {
    match o {
        Some(s) => Some(s@),
        None => None,
    }
}

impl Paths {
    /// Resolve every path from the values of `HOME`, `XDG_CONFIG_HOME`,
    /// `XDG_DATA_HOME`, `XDG_CACHE_HOME` and `XDG_RUNTIME_DIR` (each `None`
    /// when unset) and the user id `uid`: defaults are `~/.config`,
    /// `~/.local/share`, `~/.cache` and `/run/user/<uid>`; each gets an
    /// `agentd` directory.
    pub fn from_env(
        home: Option<&str>,
        xdg_config: Option<&str>,
        xdg_data: Option<&str>,
        xdg_cache: Option<&str>,
        xdg_runtime: Option<&str>,
        uid: u32,
    ) -> (p: Paths)
        ensures
            ({
                let cfg = xdg_dir(opt_view(xdg_config), opt_view(home), ".config"@);
                let data = xdg_dir(opt_view(xdg_data), opt_view(home), ".local/share"@);
                let cache = xdg_dir(opt_view(xdg_cache), opt_view(home), ".cache"@);
                let runtime = match opt_view(xdg_runtime) {
                    Some(r) => r,
                    None => "/run/user/"@ + decimal(uid as nat),
                };
                paths_from(
                    p,
                    join_spec(cfg, "agentd"@),
                    join_spec(data, "agentd"@),
                    join_spec(cache, "agentd"@),
                    join_spec(runtime, "agentd"@),
                )
            }),
    {
        let cfg = xdg(xdg_config, home, ".config");
        let data = xdg(xdg_data, home, ".local/share");
        let cache = xdg(xdg_cache, home, ".cache");
        let runtime = match xdg_runtime {
            Some(r) => owned(r),
            None => {
                proof {
                    reveal_strlit("/run/user/");
                }
                owned("/run/user/").concat(decimal_string(uid as u64).as_str())
            },
        };
        Self::from_base(
            join(cfg.as_str(), "agentd").as_str(),
            join(data.as_str(), "agentd").as_str(),
            join(cache.as_str(), "agentd").as_str(),
            join(runtime.as_str(), "agentd").as_str(),
        )
    }

    /// Every path under one root: `root/config`, `root/state`,
    /// `root/cache` and `root/runtime`.
    pub fn resolve_with(root: &str) -> (p: Paths)
        ensures
            paths_from(
                p,
                join_spec(root@, "config"@),
                join_spec(root@, "state"@),
                join_spec(root@, "cache"@),
                join_spec(root@, "runtime"@),
            ),
    {
        Self::from_base(
            join(root, "config").as_str(),
            join(root, "state").as_str(),
            join(root, "cache").as_str(),
            join(root, "runtime").as_str(),
        )
    }

    fn from_base(cfg: &str, data: &str, cache: &str, runtime: &str) -> (p: Paths)
        ensures
            paths_from(p, cfg@, data@, cache@, runtime@),
    {
        Paths {
            control_socket_path: join(runtime, "control.sock"),
            lock_path: join(runtime, "daemon.lock"),
            daemon_lock_path: join(runtime, "daemon.lock"),
            state_db_path: join(data, "state.db"),
            log_dir: join(data, "logs"),
            plugins_dir: join(data, "plugins"),
            config_dir: owned(cfg),
            state_dir: owned(data),
            cache_dir: owned(cache),
            runtime_dir: owned(runtime),
        }
    }

    /// A plugin's socket: `runtime_dir/plugin-<name>.sock`.
    pub fn plugin_socket_path(&self, name: &str) -> (r: String)
        ensures
            r@ == join_spec(self.runtime_dir@, "plugin-"@ + name@ + ".sock"@),
    {
        plugin_socket_in(self.runtime_dir.as_str(), name)
    }

    /// The daemon's PID file: `runtime_dir/daemon.pid`.
    pub fn daemon_pid_path(&self) -> (r: String)
        ensures
            r@ == join_spec(self.runtime_dir@, "daemon.pid"@),
    {
        join(self.runtime_dir.as_str(), "daemon.pid")
    }
}

/// `runtime_dir/plugin-<name>.sock`.
pub fn plugin_socket_in(runtime_dir: &str, name: &str) -> (r: String)
    ensures
        r@ == join_spec(runtime_dir@, "plugin-"@ + name@ + ".sock"@),
{
    let file = owned("plugin-").concat(name).concat(".sock");
    join(runtime_dir, file.as_str())
}

/// Where logs go when no log file is named: `$XDG_STATE_HOME/agentd/daemon.log`,
/// else `$HOME/.local/state/agentd/daemon.log`, else `/tmp/agentd/daemon.log`.
pub fn default_log_path(xdg_state_home: Option<&str>, home: Option<&str>) -> (r: String)
    ensures
        r@ == match (opt_view(xdg_state_home), opt_view(home)) {
            (Some(x), _) => join_spec(join_spec(x, "agentd"@), "daemon.log"@),
            (None, Some(h)) => join_spec(
                join_spec(join_spec(join_spec(h, ".local"@), "state"@), "agentd"@),
                "daemon.log"@,
            ),
            (None, None) => join_spec(join_spec("/tmp"@, "agentd"@), "daemon.log"@),
        },
{
    match xdg_state_home {
        Some(x) => join(join(x, "agentd").as_str(), "daemon.log"),
        None => match home {
            Some(h) => join(
                join(join(join(h, ".local").as_str(), "state").as_str(), "agentd").as_str(),
                "daemon.log",
            ),
            None => join(join("/tmp", "agentd").as_str(), "daemon.log"),
        },
    }
}

/// A relative part joined under a base that does not end in `/` lands in
/// that base: the result begins with the base followed by `/`.
pub proof fn lemma_join_under(base: Seq<char>, p: Seq<char>)
    requires
        base.len() > 0,
        base.last() != '/',
        p.len() == 0 || p[0] != '/',
    ensures
        (base + seq!['/']).is_prefix_of(join_spec(base, p)),
{
    assert(join_spec(base, p) == base + seq!['/'] + p);
    assert forall|i: int| 0 <= i < base.len() + 1 implies (base + seq!['/'])[i] == join_spec(base, p)[i] by {
        if i < base.len() {
            assert((base + seq!['/'])[i] == base[i]);
        }
    }
}

/// The pieces of `s` between its `/`s (`split('/')`): at least one, empty
/// where two `/` meet or at either end.
pub open spec fn slash_pieces(s: Seq<char>) -> Seq<Seq<char>>
    decreases s.len(),
{
    if s.len() == 0 {
        seq![Seq::<char>::empty()]
    } else if s.last() == '/' {
        slash_pieces(s.drop_last()).push(Seq::<char>::empty())
    } else {
        let p = slash_pieces(s.drop_last());
        p.update(p.len() - 1, p.last().push(s.last()))
    }
}

/// A piece that makes a component of its own: neither empty nor `.`.
pub open spec fn named_piece() -> spec_fn(Seq<char>) -> bool {
    |x: Seq<char>| x.len() > 0 && x != seq!['.']
}

/// The component of a named piece: `..` the parent (kind 3), any other a
/// name (kind 4).
pub open spec fn piece_component(x: Seq<char>) -> (u8, Seq<char>) {
    if x == seq!['.', '.'] {
        (3u8, Seq::<char>::empty())
    } else {
        (4u8, x)
    }
}

/// The components `std::path::Path::components` splits a Unix path into,
/// each as its kind (0 a prefix, 1 the root, 2 `.`, 3 `..`, 4 a name, in
/// the order of the kinds of `std::path::Component`) and its text (empty
/// but for names): the root where the path begins with `/`, else `.` where
/// the path is `.` or begins with `./`; then one component per piece
/// between `/`s that is neither empty nor `.`.
pub open spec fn path_components(p: Seq<char>) -> Seq<(u8, Seq<char>)> {
    let lead = if p.len() > 0 && p[0] == '/' {
        seq![(1u8, Seq::<char>::empty())]
    } else if p == seq!['.'] || (p.len() >= 2 && p[0] == '.' && p[1] == '/') {
        seq![(2u8, Seq::<char>::empty())]
    } else {
        Seq::empty()
    };
    lead + slash_pieces(p).filter(named_piece()).map_values(|x: Seq<char>| piece_component(x))
}

/// The components as kinds and character sequences.
pub open spec fn components_view(c: Seq<(u8, String)>) -> Seq<(u8, Seq<char>)> {
    c.map_values(|x: (u8, String)| (x.0, x.1@))
}

/// The components of a path (`std::path::Path::components`).
#[verifier::external_body]
pub(crate) fn components_of(p: &str) -> (r: Vec<(u8, String)>)
    ensures
        components_view(r@) == path_components(p@),
{
    std::path::Path::new(p).components().map(
        |c| match c {
            std::path::Component::Prefix(x) => (0u8, x.as_os_str().to_string_lossy().into_owned()),
            std::path::Component::RootDir => (1u8, String::new()),
            std::path::Component::CurDir => (2u8, String::new()),
            std::path::Component::ParentDir => (3u8, String::new()),
            std::path::Component::Normal(n) => (4u8, n.to_string_lossy().into_owned()),
        },
    ).collect()
}

} // verus!
