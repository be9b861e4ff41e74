//! `config.toml`: daemon, UI and experimental settings with their defaults.
use crate::text::owned;
use vstd::prelude::*;

verus! {

/// Failures of loading the configuration.
#[derive(Debug, PartialEq)]
pub enum ConfigError {
    /// The file could not be read: its path and the system error's text.
    Io(String, String),
    /// The file is not valid TOML for the configuration: its path and the
    /// parser's message.
    Parse(String, String),
}

/// `[daemon]` settings.
#[derive(Debug, Clone, PartialEq, Eq)]
pub struct DaemonSection {
    /// Seconds between plugin scan loops.
    pub scan_interval_secs: u64,
    /// Seconds between status line cache rebuilds.
    pub status_interval_secs: u64,
    /// Default tracing filter: trace|debug|info|warn|error.
    pub log_level: String,
}

impl Default for DaemonSection {
    fn default() -> (d: DaemonSection)
        ensures
            d.scan_interval_secs == 5,
            d.status_interval_secs == 1,
            d.log_level@ == "info"@,
    {
        DaemonSection { scan_interval_secs: 5, status_interval_secs: 1, log_level: owned("info") }
    }
}

/// `[ui]` settings.
#[derive(Debug, Clone, PartialEq, Eq)]
pub struct UiSection {
    /// Agent selected by default in the `agentd new` picker.
    pub default_agent: String,
    /// auto|always|never.
    pub color: String,
}

impl Default for UiSection {
    fn default() -> (u: UiSection)
        ensures
            u.default_agent@ == "opencode"@,
            u.color@ == "auto"@,
    {
        UiSection { default_agent: owned("opencode"), color: owned("auto") }
    }
}

/// `[experimental]` settings.
#[derive(Debug, Clone, PartialEq, Eq)]
pub struct ExperimentalSection {
    /// Let `LIVE_LLM_TESTS=1` reach real LLM APIs. Off by default.
    pub e2e_live_tests: bool,
}

impl Default for ExperimentalSection {
    fn default() -> (e: ExperimentalSection)
        ensures
            !e.e2e_live_tests,
    {
        ExperimentalSection { e2e_live_tests: false }
    }
}

/// The whole configuration; a missing section takes its defaults.
#[derive(Debug, Clone, PartialEq, Eq)]
pub struct Config {
    pub daemon: DaemonSection,
    pub ui: UiSection,
    pub experimental: ExperimentalSection,
}

/// `c` holds every default setting.
pub open spec fn is_default_config(c: Config) -> bool {
    &&& c.daemon.scan_interval_secs == 5
    &&& c.daemon.status_interval_secs == 1
    &&& c.daemon.log_level@ == "info"@
    &&& c.ui.default_agent@ == "opencode"@
    &&& c.ui.color@ == "auto"@
    &&& !c.experimental.e2e_live_tests
}

impl Default for Config {
    fn default() -> (c: Config)
        ensures
            is_default_config(c),
    {
        Config {
            daemon: DaemonSection::default(),
            ui: UiSection::default(),
            experimental: ExperimentalSection::default(),
        }
    }
}

} // verus!
