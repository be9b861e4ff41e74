//! `agentd init`: the tmux configuration fragment and the checks around it.
use crate::text::{contains, owned, seq_contains};
use vstd::prelude::*;

verus! {

/// The first line of the fragment, by which an installed fragment is found.
pub open spec fn fragment_marker() -> Seq<char> {
    "# >>> agentd >>>"@
}

/// The text `agentd init` adds to `~/.tmux.conf` (and `agentd uninstall`
/// removes), between sentinel comments.
pub open spec fn fragment_text() -> Seq<char> {
    "# >>> agentd >>>\n"@ + "set -g status-interval 1\n"@
        + "set -g status-right \"#(agentd status --global)\"\n"@
        + "set -g pane-border-status bottom\n"@
        + "set -g pane-border-format \"#{?pane_active,#[bold],}#(agentd status --pane '#{pane_id}' 2>/dev/null)\"\n"@
        + "# <<< agentd <<<\n"@
}

/// The tmux configuration fragment.
pub fn tmux_conf_fragment() -> (s: String)
    ensures
        s@ == fragment_text(),
{
    let mut s = String::new();
    s.append("# >>> agentd >>>\n");
    s.append("set -g status-interval 1\n");
    s.append("set -g status-right \"#(agentd status --global)\"\n");
    s.append("set -g pane-border-status bottom\n");
    s.append(
        "set -g pane-border-format \"#{?pane_active,#[bold],}#(agentd status --pane '#{pane_id}' 2>/dev/null)\"\n",
    );
    s.append("# <<< agentd <<<\n");
    assert(s@ =~= fragment_text());
    s
}

/// Whether a `~/.tmux.conf` text already holds the fragment.
pub fn has_fragment(conf: &str) -> (r: bool)
    ensures
        r == seq_contains(conf@, fragment_marker()),
{
    contains(conf, "# >>> agentd >>>")
}

/// A `~/.tmux.conf` text with the fragment appended on a new line.
pub fn with_fragment(conf: &str) -> (r: String)
    ensures
        r@ == conf@ + "\n"@ + fragment_text(),
{
    let f = tmux_conf_fragment();
    owned(conf).concat("\n").concat(f.as_str())
}

/// The fragment text begins with its marker, so a file holding the
/// fragment is recognised as holding it.
pub proof fn lemma_fragment_found(conf: Seq<char>)
    ensures
        seq_contains(conf + "\n"@ + fragment_text(), fragment_marker()),
{
    reveal_strlit("# >>> agentd >>>\n");
    reveal_strlit("# >>> agentd >>>");
    reveal_strlit("\n");
    let full = conf + "\n"@ + fragment_text();
    let at: int = conf.len() as int + 1;
    let m = fragment_marker();
    assert(full.subrange(at, at + m.len() as int) =~= m) by {
        assert forall|i: int| 0 <= i < m.len() implies full[at + i] == m[i] by {
            assert(fragment_text()[i] == "# >>> agentd >>>\n"@[i]);
            assert(full[at + i] == fragment_text()[i]);
        }
    }
    assert(crate::text::occurs_at(full, m, at));
}

/// A text that holds the whole fragment is recognised as holding it: the
/// fragment begins with its marker.
pub proof fn lemma_fragment_recognised(conf: Seq<char>)
    requires
        seq_contains(conf, fragment_text()),
    ensures
        seq_contains(conf, fragment_marker()),
{
    reveal_strlit("# >>> agentd >>>\n");
    reveal_strlit("# >>> agentd >>>");
    let f = fragment_text();
    let m = fragment_marker();
    let at = choose|i: int| crate::text::occurs_at(conf, f, i);
    assert(conf.subrange(at, at + f.len()) == f);
    assert(conf.subrange(at, at + m.len() as int) =~= m) by {
        assert forall|i: int| 0 <= i < m.len() implies conf[at + i] == m[i] by {
            assert(f[i] == "# >>> agentd >>>\n"@[i]);
            assert(conf.subrange(at, at + f.len())[i] == conf[at + i]);
        }
    }
    assert(crate::text::occurs_at(conf, m, at));
}

} // verus!
