//! `plugins.toml`: the plugins the daemon knows how to start.
use crate::text::str_eq;
use crate::seq_util::{first_index, lemma_first_index_found, lemma_first_index_none};
use vstd::prelude::*;

verus! {

/// The `toml` crate's value type, carried through as plugin configuration.
#[verifier::external_type_specification]
#[verifier::external_body]
pub struct ExTomlValue(toml::Value);

/// Failures of loading the manifest.
#[derive(Debug, PartialEq)]
pub enum ManifestError {
    /// The file could not be read: its path and the system error's text.
    Io(String, String),
    /// The file is not a valid manifest: its path and the parser's message.
    Parse(String, String),
}

/// One `[[plugins]]` entry.
#[derive(Debug, PartialEq)]
pub struct PluginEntry {
    /// Plugin identifier (also the socket suffix and manifest key).
    pub name: String,
    /// Binary name (looked up on `PATH`) or absolute path.
    pub binary: String,
    /// Whether the daemon starts this plugin on boot (default `true`).
    pub autostart: bool,
    /// Free-form configuration handed to the plugin (default: empty table).
    pub config: toml::Value,
}

/// The default of `autostart`.
pub fn default_true() -> (b: bool)
    ensures
        b,
{
    true
}

/// The manifest: its plugin entries in file order.
#[derive(Debug, PartialEq)]
pub struct PluginsManifest {
    pub plugins: Vec<PluginEntry>,
}

impl Default for PluginsManifest {
    fn default() -> (m: PluginsManifest)
        ensures
            m.plugins@.len() == 0,
    {
        PluginsManifest { plugins: Vec::new() }
    }
}

/// The entry is named `name`.
pub open spec fn entry_named(name: Seq<char>) -> spec_fn(PluginEntry) -> bool {
    |e: PluginEntry| e.name@ == name
}

/// The entry is started on boot.
pub open spec fn starts_on_boot() -> spec_fn(PluginEntry) -> bool {
    |e: PluginEntry| e.autostart
}

impl PluginsManifest {
    /// The first entry named `name`.
    pub fn find(&self, name: &str) -> (r: Option<&PluginEntry>)
        ensures
            match first_index(self.plugins@, entry_named(name@)) {
                Some(i) => r == Some(&self.plugins@[i]),
                None => r is None,
            },
    {
        let n = self.plugins.len();
        let mut i: usize = 0;
        while i < n
            invariant
                n == self.plugins@.len(),
                i <= n,
                forall|j: int| 0 <= j < i ==> !entry_named(name@)(#[trigger] self.plugins@[j]),
            decreases n - i,
        {
            if str_eq(self.plugins[i].name.as_str(), name) {
                proof {
                    lemma_first_index_found(self.plugins@, entry_named(name@), i as int);
                }
                return Some(&self.plugins[i]);
            }
            i = i + 1;
        }
        proof {
            lemma_first_index_none(self.plugins@, entry_named(name@));
        }
        None
    }

    /// Names of the entries started on boot, in file order.
    pub fn autostart_names(&self) -> (r: Vec<String>)
        ensures
            r@.len() == self.plugins@.filter(starts_on_boot()).len(),
            forall|i: int| 0 <= i < r@.len() ==> r@[i] == (#[trigger] self.plugins@.filter(
                starts_on_boot(),
            )[i]).name,
    {
        let ghost keep = starts_on_boot();
        let mut out: Vec<String> = Vec::new();
        let n = self.plugins.len();
        let mut i: usize = 0;
        while i < n
            invariant
                n == self.plugins@.len(),
                i <= n,
                keep == starts_on_boot(),
                out@.len() == self.plugins@.take(i as int).filter(keep).len(),
                forall|j: int| 0 <= j < out@.len() ==> out@[j] == (#[trigger] self.plugins@.take(
                    i as int,
                ).filter(keep)[j]).name,
            decreases n - i,
        {
            let e = &self.plugins[i];
            proof {
                assert(self.plugins@.take(i + 1) =~= self.plugins@.take(i as int).push(*e));
                self.plugins@.take(i as int).lemma_filter_push(*e, keep);
            }
            let ghost before = out@;
            if e.autostart {
                out.push(e.name.clone());
                proof {
                    let f = self.plugins@.take(i as int).filter(keep);
                    assert forall|j: int| 0 <= j < out@.len() implies out@[j] == (
                    #[trigger] f.push(*e)[j]).name by {
                        if j < before.len() {
                            assert(out@[j] == before[j]);
                            assert(f.push(*e)[j] == f[j]);
                        }
                    }
                }
            }
            i = i + 1;
        }
        proof {
            assert(self.plugins@.take(n as int) =~= self.plugins@);
        }
        out
    }
}

} // verus!
