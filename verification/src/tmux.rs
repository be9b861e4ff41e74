//! tmux: names the daemon accepts, the in-memory tmux used by tests, and
//! the decisions made on what the `tmux` binary prints.
use crate::text::{contains, owned, push_decimal, seq_contains, decimal};
use crate::text_map::TextMap;
use vstd::prelude::*;

verus! {

/// Failures of tmux operations.
#[derive(Debug, Clone, PartialEq)]
pub enum TmuxError {
    /// The session name breaks the naming rule.
    InvalidName(String),
    /// The pane id is not of the form `%<digits>`.
    InvalidPane(String),
    /// No such session.
    NotFound(String),
    /// Running `tmux` failed (the system error's text).
    Io(String),
    /// `tmux` exited non-zero (its error output).
    Tmux(String),
}

/// A tmux pane as the daemon sees it.
#[derive(Debug, Clone, PartialEq)]
pub struct Pane {
    pub session: String,
    pub pane_id: String,
    pub working_dir: String,
}

/// A character allowed in a tmux session name: ASCII alphanumeric, `.`, `-` or `_`.
pub open spec fn is_session_name_char(c: char) -> bool {
    ('a' <= c && c <= 'z') || ('A' <= c && c <= 'Z') || ('0' <= c && c <= '9') || c == '.'
        || c == '-' || c == '_'
}

/// A valid session name: 1 to 64 characters, each allowed.
pub open spec fn valid_session_name(s: Seq<char>) -> bool {
    1 <= s.len() <= 64 && forall|i: int| 0 <= i < s.len() ==> is_session_name_char(#[trigger] s[i])
}

/// A valid pane id: `%` followed by one or more ASCII digits.
pub open spec fn valid_pane_id(s: Seq<char>) -> bool {
    s.len() >= 2 && s[0] == '%' && forall|i: int| 1 <= i < s.len() ==> '0' <= #[trigger] s[i] <= '9'
}

fn session_name_char(c: char) -> (b: bool)
    ensures
        b == is_session_name_char(c),
{
    ('a' <= c && c <= 'z') || ('A' <= c && c <= 'Z') || ('0' <= c && c <= '9') || c == '.'
        || c == '-' || c == '_'
}

/// Check a session name (the trust boundary against shell injection).
pub fn validate_session_name(name: &str) -> (r: Result<(), TmuxError>)
    ensures
        valid_session_name(name@) ==> r is Ok,
        !valid_session_name(name@) ==> (r matches Err(TmuxError::InvalidName(n)) && n@ == name@),
{
    let n = name.unicode_len();
    if n == 0 || n > 64 {
        return Err(TmuxError::InvalidName(owned(name)));
    }
    let mut i: usize = 0;
    while i < n
        invariant
            n == name@.len(),
            i <= n,
            forall|j: int| 0 <= j < i ==> is_session_name_char(#[trigger] name@[j]),
        decreases n - i,
    {
        if !session_name_char(name.get_char(i)) {
            return Err(TmuxError::InvalidName(owned(name)));
        }
        i = i + 1;
    }
    Ok(())
}

/// Check a pane id: `^%[0-9]+$`.
pub fn validate_pane_id(id: &str) -> (r: Result<(), TmuxError>)
    ensures
        valid_pane_id(id@) ==> r is Ok,
        !valid_pane_id(id@) ==> (r matches Err(TmuxError::InvalidPane(n)) && n@ == id@),
{
    let n = id.unicode_len();
    if n < 2 || id.get_char(0) != '%' {
        return Err(TmuxError::InvalidPane(owned(id)));
    }
    let mut i: usize = 1;
    while i < n
        invariant
            n == id@.len(),
            1 <= i <= n,
            forall|j: int| 1 <= j < i ==> '0' <= #[trigger] id@[j] <= '9',
        decreases n - i,
    {
        let c = id.get_char(i);
        if !('0' <= c && c <= '9') {
            return Err(TmuxError::InvalidPane(owned(id)));
        }
        i = i + 1;
    }
    Ok(())
}

/// The tmux operations the daemon uses.
pub trait Tmux {
    /// Create a detached session `name` in `working_dir`; its pane id.
    fn new_session(&mut self, name: &str, working_dir: &str) -> Result<String, TmuxError>;

    /// Whether session `name` exists.
    fn has_session(&self, name: &str) -> bool;

    /// Switch the client to session `target`.
    fn switch_client(&self, target: &str) -> Result<(), TmuxError>;

    /// Every pane of every session.
    fn list_panes(&self) -> Result<Vec<Pane>, TmuxError>;

    /// Kill session `name`.
    fn kill_session(&mut self, name: &str) -> Result<(), TmuxError>;

    /// The last `lines` lines of pane `pane`.
    fn capture_pane(&self, pane: &str, lines: u16) -> Result<String, TmuxError>;
}

/// In-memory tmux for tests: session name -> (pane id, working directory);
/// pane ids count up from `%1`.
#[derive(Debug)]
pub struct MockTmux {
    next_pane: u32,
    sessions: TextMap<(String, String)>,
}

/// The pane id of the `n`-th pane: `%n`.
pub open spec fn pane_label(n: nat) -> Seq<char> {
    seq!['%'] + decimal(n)
}

impl MockTmux {
    /// The sessions, by name: pane id and working directory.
    pub closed spec fn view(&self) -> Map<Seq<char>, (String, String)> {
        self.sessions@
    }

    /// Number of panes created so far (counting modulo 2^32).
    pub closed spec fn panes_made(&self) -> u32 {
        self.next_pane
    }

    #[verifier::type_invariant]
    closed spec fn wf(&self) -> bool {
        self.sessions.wf()
    }

    /// No sessions, no panes made.
    pub fn new() -> (m: MockTmux)
        ensures
            m@ == Map::<Seq<char>, (String, String)>::empty(),
            m.panes_made() == 0,
    {
        MockTmux { next_pane: 0, sessions: TextMap::new() }
    }

    /// Create session `name`: it gets the next pane id, replacing any session
    /// of that name.
    pub fn new_session(&mut self, name: &str, working_dir: &str) -> (r: Result<String, TmuxError>)
        ensures
            valid_session_name(name@) ==> {
                &&& final(self).panes_made() == old(self).panes_made().wrapping_add(1)
                &&& r matches Ok(p) && p@ == pane_label(final(self).panes_made() as nat)
                    && final(self)@[name@].0@ == p@
                &&& final(self)@.dom() == old(self)@.dom().insert(name@)
                &&& final(self)@[name@].1@ == working_dir@
                &&& forall|k: Seq<char>| k != name@ && #[trigger] old(self)@.dom().contains(k)
                    ==> final(self)@[k] == old(self)@[k]
            },
            !valid_session_name(name@) ==> {
                &&& r matches Err(TmuxError::InvalidName(n)) && n@ == name@
                &&& final(self)@ == old(self)@
                &&& final(self).panes_made() == old(self).panes_made()
            },
    {
        proof {
            use_type_invariant(&*self);
        }
        if let Err(e) = validate_session_name(name) {
            return Err(e);
        }
        self.next_pane = self.next_pane.wrapping_add(1);
        let mut pane_id = owned("%");
        push_decimal(&mut pane_id, self.next_pane as u64);
        let pane_copy = pane_id.clone();
        let mut sessions = TextMap::new();
        std::mem::swap(&mut sessions, &mut self.sessions);
        sessions.insert(owned(name), (pane_id, owned(working_dir)));
        self.sessions = sessions;
        proof {
            assert(seq!['%'] + decimal(self.next_pane as nat) == "%"@ + decimal(
                self.next_pane as u64 as nat,
            )) by {
                reveal_strlit("%");
            }
        }
        Ok(pane_copy)
    }

    /// Whether session `name` exists.
    pub fn has_session(&self, name: &str) -> (r: bool)
        ensures
            r == self@.dom().contains(name@),
    {
        proof {
            use_type_invariant(self);
        }
        self.sessions.contains_key(name)
    }

    /// Succeeds when session `target` exists.
    pub fn switch_client(&self, target: &str) -> (r: Result<(), TmuxError>)
        ensures
            self@.dom().contains(target@) ==> r is Ok,
            !self@.dom().contains(target@) ==> (r matches Err(TmuxError::NotFound(t)) && t@
                == target@),
    {
        proof {
            use_type_invariant(self);
        }
        if self.sessions.contains_key(target) {
            Ok(())
        } else {
            Err(TmuxError::NotFound(owned(target)))
        }
    }

    /// One pane per session.
    pub fn list_panes(&self) -> (r: Result<Vec<Pane>, TmuxError>)
        ensures
            r matches Ok(panes) && panes@.len() == self@.dom().len() && (forall|i: int|
                0 <= i < panes@.len() ==> self@.dom().contains(#[trigger] panes@[i].session@)
                && self@[panes@[i].session@].0@ == panes@[i].pane_id@ && self@[panes@[i].session@].1@
                == panes@[i].working_dir@) && (forall|k: Seq<char>| #[trigger]
                self@.dom().contains(k) ==> exists|i: int| 0 <= i < panes@.len() && panes@[i].session@
                == k),
    {
        proof {
            use_type_invariant(self);
        }
        let entries = self.sessions.entries();
        let mut panes: Vec<Pane> = Vec::new();
        let n = entries.len();
        let mut i: usize = 0;
        while i < n
            invariant
                n == entries@.len(),
                i <= n,
                panes@.len() == i,
                forall|j: int| 0 <= j < i ==> (#[trigger] panes@[j]).session@ == entries@[j].0@
                    && panes@[j].pane_id@ == entries@[j].1.0@ && panes@[j].working_dir@
                    == entries@[j].1.1@,
            decreases n - i,
        {
            let e = &entries[i];
            panes.push(
                Pane {
                    session: e.0.clone(),
                    pane_id: e.1.0.clone(),
                    working_dir: e.1.1.clone(),
                },
            );
            i = i + 1;
        }
        proof {
            assert forall|k: Seq<char>| #[trigger] self@.dom().contains(k) implies exists|j: int|
                0 <= j < panes@.len() && panes@[j].session@ == k by {
                let j = choose|j: int| 0 <= j < entries@.len() && entries@[j].0@ == k;
                assert(panes@[j].session@ == k);
            }
        }
        Ok(panes)
    }

    /// Remove session `name` (a missing session is fine).
    pub fn kill_session(&mut self, name: &str) -> (r: Result<(), TmuxError>)
        ensures
            r is Ok,
            final(self)@ == old(self)@.remove(name@),
            final(self).panes_made() == old(self).panes_made(),
    {
        proof {
            use_type_invariant(&*self);
        }
        let mut sessions = TextMap::new();
        std::mem::swap(&mut sessions, &mut self.sessions);
        sessions.remove(name);
        self.sessions = sessions;
        Ok(())
    }

    /// An empty capture.
    pub fn capture_pane(&self, pane: &str, lines: u16) -> (r: Result<String, TmuxError>)
        ensures
            r matches Ok(s) && s@.len() == 0,
    {
        Ok(String::new())
    }
}

/// A session created under a valid name exists until it is killed: after
/// `new_session(name)` the name is among the sessions, and after
/// `kill_session(name)` it is not, the other sessions being those there
/// were before.
pub proof fn lemma_session_lifecycle(
    before: Map<Seq<char>, (String, String)>,
    created: Map<Seq<char>, (String, String)>,
    killed: Map<Seq<char>, (String, String)>,
    name: Seq<char>,
)
    requires
        created.dom() == before.dom().insert(name),
        killed == created.remove(name),
    ensures
        created.dom().contains(name),
        !killed.dom().contains(name),
        killed.dom() == before.dom().remove(name),
{
    assert(killed.dom() =~= before.dom().remove(name));
}

/// `tmux` that runs the binary at `tmux` (a path or a name looked up on `PATH`).
#[derive(Debug, PartialEq)]
pub struct RealTmux {
    pub tmux: String,
}

impl RealTmux {
    /// The `tmux` found on `PATH`.
    pub fn new() -> (t: RealTmux)
        ensures
            t.tmux@ == "tmux"@,
    {
        RealTmux { tmux: owned("tmux") }
    }

    /// The binary at `p`.
    pub fn with_binary(p: String) -> (t: RealTmux)
        ensures
            t.tmux == p,
    {
        RealTmux { tmux: p }
    }
}

/// How `tmux kill-session` went: success, or a failure whose error output
/// says the session was already gone, is `Ok`; any other failure is
/// `Err(Tmux(stderr))`.
pub fn kill_outcome(success: bool, stderr: &str) -> (r: Result<(), TmuxError>)
    ensures
        success || seq_contains(stderr@, "can't find session"@) ==> r is Ok,
        !success && !seq_contains(stderr@, "can't find session"@) ==> (r matches Err(
            TmuxError::Tmux(e),
        ) && e@ == stderr@),
{
    if success || contains(stderr, "can't find session") {
        Ok(())
    } else {
        Err(TmuxError::Tmux(owned(stderr)))
    }
}

/// The pane tmux made for the session just created: the first listed pane
/// of session `name`, else `Err(Tmux("no pane found for <name>"))`.
pub fn pane_of_session(panes: Vec<Pane>, name: &str) -> (r: Result<String, TmuxError>)
    ensures
        match crate::seq_util::first_index(panes@, |p: Pane| p.session@ == name@) {
            Some(i) => r matches Ok(id) && id == panes@[i].pane_id,
            None => r matches Err(TmuxError::Tmux(e)) && e@ == "no pane found for "@ + name@,
        },
{
    let n = panes.len();
    let mut i: usize = 0;
    while i < n
        invariant
            n == panes@.len(),
            i <= n,
            forall|j: int| 0 <= j < i ==> (#[trigger] panes@[j]).session@ != name@,
        decreases n - i,
    {
        if crate::text::str_eq(panes[i].session.as_str(), name) {
            proof {
                crate::seq_util::lemma_first_index_found(panes@, |p: Pane| p.session@ == name@, i as int);
            }
            return Ok(panes[i].pane_id.clone());
        }
        i = i + 1;
    }
    proof {
        crate::seq_util::lemma_first_index_none(panes@, |p: Pane| p.session@ == name@);
    }
    Err(TmuxError::Tmux(owned("no pane found for ").concat(name)))
}

impl Tmux for MockTmux {
    /// As `MockTmux::new_session`.
    fn new_session(&mut self, name: &str, working_dir: &str) -> (r: Result<String, TmuxError>)
        ensures
            valid_session_name(name@) ==> {
                &&& final(self).panes_made() == old(self).panes_made().wrapping_add(1)
                &&& r matches Ok(p) && p@ == pane_label(final(self).panes_made() as nat)
                    && final(self)@[name@].0@ == p@
                &&& final(self)@.dom() == old(self)@.dom().insert(name@)
                &&& final(self)@[name@].1@ == working_dir@
                &&& forall|k: Seq<char>| k != name@ && #[trigger] old(self)@.dom().contains(k)
                    ==> final(self)@[k] == old(self)@[k]
            },
            !valid_session_name(name@) ==> {
                &&& r matches Err(TmuxError::InvalidName(n)) && n@ == name@
                &&& final(self)@ == old(self)@
                &&& final(self).panes_made() == old(self).panes_made()
            },
    {
        MockTmux::new_session(self, name, working_dir)
    }

    /// As `MockTmux::has_session`.
    fn has_session(&self, name: &str) -> (r: bool)
        ensures
            r == self@.dom().contains(name@),
    {
        MockTmux::has_session(self, name)
    }

    /// As `MockTmux::switch_client`.
    fn switch_client(&self, target: &str) -> (r: Result<(), TmuxError>)
        ensures
            self@.dom().contains(target@) ==> r is Ok,
            !self@.dom().contains(target@) ==> (r matches Err(TmuxError::NotFound(t)) && t@
                == target@),
    {
        MockTmux::switch_client(self, target)
    }

    /// As `MockTmux::list_panes`.
    fn list_panes(&self) -> (r: Result<Vec<Pane>, TmuxError>)
        ensures
            r matches Ok(panes) && panes@.len() == self@.dom().len() && (forall|i: int|
                0 <= i < panes@.len() ==> self@.dom().contains(#[trigger] panes@[i].session@)
                && self@[panes@[i].session@].0@ == panes@[i].pane_id@ && self@[panes@[i].session@].1@
                == panes@[i].working_dir@) && (forall|k: Seq<char>| #[trigger]
                self@.dom().contains(k) ==> exists|i: int| 0 <= i < panes@.len() && panes@[i].session@
                == k),
    {
        MockTmux::list_panes(self)
    }

    /// As `MockTmux::kill_session`.
    fn kill_session(&mut self, name: &str) -> (r: Result<(), TmuxError>)
        ensures
            r is Ok,
            final(self)@ == old(self)@.remove(name@),
            final(self).panes_made() == old(self).panes_made(),
    {
        MockTmux::kill_session(self, name)
    }

    /// As `MockTmux::capture_pane`: an empty capture.
    fn capture_pane(&self, pane: &str, lines: u16) -> (r: Result<String, TmuxError>)
        ensures
            r matches Ok(s) && s@.len() == 0,
    {
        MockTmux::capture_pane(self, pane, lines)
    }
}

} // verus!
