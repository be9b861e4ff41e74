//! The command line: subcommands and their options.

pub mod init;

use crate::json::{json_str, member, JsonValue};
use crate::tui::input::{default_name, default_session_name};
use vstd::prelude::*;

verus! {

/// `agentd`: orchestrate coding-agent sessions inside tmux.
#[derive(Debug, PartialEq)]
pub struct Cli {
    /// Path to the config file (default: `$XDG_CONFIG_HOME/agentd/config.toml`).
    pub config: Option<String>,
    /// Suppress non-error output.
    pub quiet: bool,
    /// Disable colored output.
    pub no_color: bool,
    pub command: Command,
}

/// Subcommands.
#[derive(Debug, PartialEq)]
pub enum Command {
    /// Start, stop, or check the daemon.
    Daemon { action: DaemonAction },
    /// List active sessions.
    List,
    /// Create a new session.
    New {
        /// Working directory for the new session. Defaults to $PWD.
        cwd: Option<String>,
        /// Always show the interactive picker, even when a path is given.
        pick: bool,
        /// Show most-recent paths and pick by number.
        recent: bool,
        /// Override the default agent.
        agent: Option<String>,
    },
    /// Switch the tmux client to a session's window.
    Jump {
        /// Session id.
        id: String,
    },
    /// Rename a session.
    Rename {
        /// Session id.
        id: String,
        /// New display name.
        name: String,
    },
    /// Kill a session and remove its tmux pane.
    Kill {
        /// Session id.
        id: String,
    },
    /// Show status line output (used by tmux `status-interval`).
    Status {
        /// Aggregate line.
        global: bool,
        /// Per-pane line for the given pane id (e.g. `%5`).
        pane: Option<String>,
    },
    /// Manage plugins.
    Plugin { action: PluginAction },
    /// First-run setup: create config, install the tmux fragment.
    Init {
        /// Skip the interactive confirmation prompts.
        yes: bool,
    },
    /// Check daemon health and config validity.
    Doctor,
    /// Show current metrics.
    Metrics {
        /// Output format.
        format: String,
    },
    /// Generate a debug bundle tarball.
    Debug,
    /// Remove agentd config, state, and runtime files.
    Uninstall {
        /// Don't prompt for confirmation.
        yes: bool,
    },
}

/// `agentd daemon` subcommands.
#[derive(Debug, PartialEq)]
pub enum DaemonAction {
    /// Start the daemon (default: detach).
    Start {
        /// Run in the foreground (don't fork).
        foreground: bool,
    },
    /// Stop the running daemon.
    Stop,
    /// Stop, then start.
    Restart,
    /// Print daemon status and exit.
    Status,
}

/// `agentd plugin` subcommands.
#[derive(Debug, PartialEq)]
pub enum PluginAction {
    /// List installed plugins.
    List,
    /// Download a plugin binary.
    Install { name: String },
    /// Update all installed plugins.
    Update,
    /// Remove an installed plugin.
    Remove { name: String },
    /// Start a configured plugin.
    Start { name: String },
    /// Stop a running plugin.
    Stop { name: String },
}

/// The params of `agentd new`'s `session.create` call: the agent (default
/// `opencode`), the working directory (default `.`) and a name, the
/// directory's last component or `session`.
pub fn new_session_params(cwd: Option<&str>, agent: Option<&str>) -> (v: JsonValue)
    ensures
        v matches JsonValue::Object(f) && f@.len() == 3,
        v->Object_0@[0].0@ == "agent_type"@,
        v->Object_0@[0].1.spec_as_str() == Some(
            match agent {
                Some(a) => a@,
                None => "opencode"@,
            },
        ),
        v->Object_0@[1].0@ == "working_dir"@,
        v->Object_0@[1].1.spec_as_str() == Some(
            match cwd {
                Some(c) => c@,
                None => "."@,
            },
        ),
        v->Object_0@[2].0@ == "name"@,
        v->Object_0@[2].1.spec_as_str() == Some(
            default_name(
                match cwd {
                    Some(c) => c@,
                    None => "."@,
                },
            ),
        ),
{
    let dir: &str = match cwd {
        Some(c) => c,
        None => ".",
    };
    let kind: &str = match agent {
        Some(a) => a,
        None => "opencode",
    };
    let name = default_session_name(dir);
    let mut f: Vec<(String, JsonValue)> = Vec::new();
    f.push(member("agent_type", json_str(kind)));
    f.push(member("working_dir", json_str(dir)));
    f.push(member("name", JsonValue::Str(name)));
    JsonValue::Object(f)
}

} // verus!
