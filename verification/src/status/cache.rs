//! The tmux status-line cache: per pane, the agent and task of the session
//! running in it; overall, how many sessions are in which state and what
//! they cost. Rebuilt from the live sessions; read without the database.
use crate::db::repo::RepoError;
use crate::json::JsonNumber;
use crate::protocol::{Session, SessionStatus};
use crate::text::{decimal, decimal_string, owned};
use crate::text_map::TextMap;
use crate::tui::state::{count_status, lemma_count_le_len};
use vstd::prelude::*;

verus! {

/// Failures of rebuilding the cache.
#[derive(Debug, PartialEq)]
pub enum CacheError {
    /// The live sessions could not be read.
    Repo(RepoError),
}

/// What the status line shows for one pane.
#[derive(Debug, PartialEq)]
pub struct FormattedStatus {
    /// The agent's wire name.
    pub agent: String,
    pub status: SessionStatus,
    pub task: Option<String>,
    /// The session's spend, as reported (summed by the caller).
    pub cost_usd: Option<JsonNumber>,
}

/// `f` is what the status line shows for session `s`.
pub open spec fn formats(f: FormattedStatus, s: Session) -> bool {
    &&& f.agent@ == s.agent_type.wire_name()
    &&& f.status == s.status
    &&& f.task == s.current_task
    &&& f.cost_usd == s.cost_usd
}

/// Session `s` runs in pane `p`.
pub open spec fn has_pane(s: Session, p: Seq<char>) -> bool {
    s.tmux_pane_id matches Some(x) && x@ == p
}

/// `k` is the last session of `s` in pane `p`.
pub open spec fn last_in_pane(s: Seq<Session>, p: Seq<char>, k: int) -> bool {
    &&& 0 <= k < s.len()
    &&& has_pane(s[k], p)
    &&& forall|j: int| k < j < s.len() ==> !has_pane(#[trigger] s[j], p)
}

/// The pane map of `s`: one entry per pane some session runs in, showing
/// the last session of `s` in that pane.
pub open spec fn panes_of(m: Map<Seq<char>, FormattedStatus>, s: Seq<Session>) -> bool {
    &&& forall|p: Seq<char>|
        #[trigger] m.dom().contains(p) <==> exists|k: int| 0 <= k < s.len() && has_pane(
            #[trigger] s[k],
            p,
        )
    &&& forall|p: Seq<char>, k: int|
        #[trigger] last_in_pane(s, p, k) ==> m.dom().contains(p) && formats(m[p], s[k])
}

/// The reported costs of `s`, in order.
pub open spec fn costs_of(s: Seq<Session>) -> Seq<JsonNumber>
    decreases s.len(),
{
    if s.len() == 0 {
        Seq::empty()
    } else {
        match s.last().cost_usd {
            Some(c) => costs_of(s.drop_last()).push(c),
            None => costs_of(s.drop_last()),
        }
    }
}

/// The overall counts.
/// The status line a cache map gives for pane `p`: `"<agent> · <task>"`,
/// or just the agent when there is no task; empty for a pane it lacks.
pub open spec fn pane_line(m: Map<Seq<char>, FormattedStatus>, p: Seq<char>) -> Seq<char> {
    if m.dom().contains(p) {
        let f = m[p];
        match f.task {
            Some(t) => f.agent@ + " · "@ + t@,
            None => f.agent@,
        }
    } else {
        Seq::<char>::empty()
    }
}

/// The status line of a session: `"<agent> · <task>"`, or just the agent.
pub open spec fn session_line(s: Session) -> Seq<char> {
    match s.current_task {
        Some(t) => s.agent_type.wire_name() + " · "@ + t@,
        None => s.agent_type.wire_name(),
    }
}

/// After a rebuild from `sessions`, the line of a pane is that of the last
/// session in that pane, and the line of a pane no session is in is empty.
pub proof fn lemma_pane_line(m: Map<Seq<char>, FormattedStatus>, sessions: Seq<Session>, p: Seq<char>)
    requires
        panes_of(m, sessions),
    ensures
        forall|k: int| #[trigger] last_in_pane(sessions, p, k) ==> pane_line(m, p) == session_line(
            sessions[k],
        ),
        (forall|k: int| 0 <= k < sessions.len() ==> !has_pane(#[trigger] sessions[k], p)) ==> pane_line(
            m,
            p,
        ).len() == 0,
{
    assert forall|k: int| #[trigger] last_in_pane(sessions, p, k) implies pane_line(m, p)
        == session_line(sessions[k]) by {
        assert(m.dom().contains(p) && formats(m[p], sessions[k]));
    }
    if forall|k: int| 0 <= k < sessions.len() ==> !has_pane(#[trigger] sessions[k], p) {
        assert(!m.dom().contains(p));
    }
}

#[derive(Debug, PartialEq)]
pub struct GlobalSummary {
    pub total: usize,
    pub working: usize,
    pub waiting: usize,
    pub idle: usize,
    pub errored: usize,
    /// The reported costs, to be summed for display.
    pub costs: Vec<JsonNumber>,
}

/// `g` summarises the sessions `s`.
pub open spec fn summarises(g: GlobalSummary, s: Seq<Session>) -> bool {
    &&& g.total == s.len()
    &&& g.working == count_status(s, SessionStatus::Working)
    &&& g.waiting == count_status(s, SessionStatus::WaitingForUser)
    &&& g.idle == count_status(s, SessionStatus::Idle)
    &&& g.errored == count_status(s, SessionStatus::Errored)
    &&& g.costs@ == costs_of(s)
}

/// The cache.
#[derive(Debug)]
pub struct StatusCache {
    by_pane: TextMap<FormattedStatus>,
    global: GlobalSummary,
}

impl StatusCache {
    /// Pane id -> what its status line shows.
    pub closed spec fn panes(&self) -> Map<Seq<char>, FormattedStatus> {
        self.by_pane@
    }

    /// The overall counts.
    pub closed spec fn summary(&self) -> GlobalSummary {
        self.global
    }

    /// Internal consistency.
    pub closed spec fn wf(&self) -> bool {
        self.by_pane.wf()
    }

    /// An empty cache.
    pub fn new() -> (c: StatusCache)
        ensures
            c.wf(),
            c.panes() == Map::<Seq<char>, FormattedStatus>::empty(),
            summarises(c.summary(), Seq::empty()),
    {
        StatusCache {
            by_pane: TextMap::new(),
            global: GlobalSummary {
                total: 0,
                working: 0,
                waiting: 0,
                idle: 0,
                errored: 0,
                costs: Vec::new(),
            },
        }
    }

    /// Refill the cache from the live sessions; returns the number of panes.
    pub fn rebuild(&mut self, sessions: Vec<Session>) -> (n: usize)
        ensures
            final(self).wf(),
            panes_of(final(self).panes(), sessions@),
            summarises(final(self).summary(), sessions@),
            n == final(self).panes().dom().len(),
    {
        let ghost orig = sessions@;
        let mut rest = sessions;
        let mut map: TextMap<FormattedStatus> = TextMap::new();
        let mut working: usize = 0;
        let mut waiting: usize = 0;
        let mut idle: usize = 0;
        let mut errored: usize = 0;
        let mut costs: Vec<JsonNumber> = Vec::new();
        let n = rest.len();
        let mut k: usize = 0;
        while k < n
            invariant
                n == orig.len(),
                k <= n,
                rest@ == orig.skip(k as int),
                map.wf(),
                panes_of(map@, orig.take(k as int)),
                working == count_status(orig.take(k as int), SessionStatus::Working),
                waiting == count_status(orig.take(k as int), SessionStatus::WaitingForUser),
                idle == count_status(orig.take(k as int), SessionStatus::Idle),
                errored == count_status(orig.take(k as int), SessionStatus::Errored),
                costs@ == costs_of(orig.take(k as int)),
            decreases n - k,
        {
            let s = rest.remove(0);
            let ghost pre = orig.take(k as int);
            let ghost post = orig.take(k + 1);
            let ghost m0 = map@;
            proof {
                assert(s == orig[k as int]);
                assert(post =~= pre.push(s));
                assert(post.drop_last() =~= pre);
                assert(rest@ =~= orig.skip(k + 1));
                lemma_count_le_len(pre);
            }
            match s.status {
                SessionStatus::Working => working = working + 1,
                SessionStatus::WaitingForUser => waiting = waiting + 1,
                SessionStatus::Idle => idle = idle + 1,
                SessionStatus::Errored => errored = errored + 1,
                _ => {},
            }
            match s.cost_usd {
                Some(c) => costs.push(c),
                None => {},
            }
            let ghost sv = s;
            let Session { agent_type, status, current_task, cost_usd, tmux_pane_id, .. } = s;
            match tmux_pane_id {
                Some(pane) => {
                    let f = FormattedStatus {
                        agent: owned(agent_type.as_str()),
                        status,
                        task: current_task,
                        cost_usd,
                    };
                    let ghost p = pane@;
                    map.insert(pane, f);
                    proof {
                        lemma_panes_push_some(pre, sv, m0, map@, p);
                    }
                },
                None => {
                    proof {
                        lemma_panes_push_none(pre, sv, m0);
                    }
                },
            }
            k = k + 1;
        }
        proof {
            assert(orig.take(n as int) =~= orig);
        }
        let count = map.len();
        self.by_pane = map;
        self.global = GlobalSummary { total: n, working, waiting, idle, errored, costs };
        count
    }

    /// The status line of pane `pane`: `"<agent> · <task>"`, or just the
    /// agent when there is no task; empty for an unknown pane.
    pub fn format_pane(&self, pane: &str) -> (r: String)
        requires
            self.wf(),
        ensures
            r@ == pane_line(self.panes(), pane@),
    {
        match self.by_pane.get(pane) {
            Some(f) => match &f.task {
                Some(t) => {
                    let r = owned(f.agent.as_str()).concat(" · ").concat(t.as_str());
                    proof {
                        reveal_strlit(" · ");
                    }
                    r
                },
                None => owned(f.agent.as_str()),
            },
            None => String::new(),
        }
    }

    /// The overall line: `"<n> agents · <n> waiting · <n> working · <cost>"`,
    /// with `cost_text` the summed cost as shown.
    pub fn format_global(&self, cost_text: &str) -> (r: String)
        ensures
            r@ == decimal(self.summary().total as nat) + " agents · "@ + decimal(
                self.summary().waiting as nat,
            ) + " waiting · "@ + decimal(self.summary().working as nat) + " working · "@
                + cost_text@,
    {
        let g = &self.global;
        let r = decimal_string(g.total as u64).concat(" agents · ").concat(
            decimal_string(g.waiting as u64).as_str(),
        ).concat(" waiting · ").concat(decimal_string(g.working as u64).as_str()).concat(
            " working · ",
        ).concat(cost_text);
        proof {
            reveal_strlit(" agents · ");
            reveal_strlit(" waiting · ");
            reveal_strlit(" working · ");
        }
        r
    }

    /// The reported costs of the live sessions, in order.
    pub fn costs(&self) -> (r: &Vec<JsonNumber>)
        ensures
            r@ == self.summary().costs@,
    {
        &self.global.costs
    }
}

impl Default for StatusCache {
    fn default() -> (c: StatusCache)
        ensures
            c.wf(),
            c.panes() == Map::<Seq<char>, FormattedStatus>::empty(),
            summarises(c.summary(), Seq::empty()),
    {
        StatusCache::new()
    }
}

proof fn lemma_panes_push_none(
    pre: Seq<Session>,
    s: Session,
    m: Map<Seq<char>, FormattedStatus>,
)
    requires
        panes_of(m, pre),
        s.tmux_pane_id is None,
    ensures
        panes_of(m, pre.push(s)),
{
    let post = pre.push(s);
    assert forall|p: Seq<char>|
        #[trigger] m.dom().contains(p) <==> exists|k: int| 0 <= k < post.len() && has_pane(
            #[trigger] post[k],
            p,
        ) by {
        if m.dom().contains(p) {
            let k = choose|k: int| 0 <= k < pre.len() && has_pane(#[trigger] pre[k], p);
            assert(post[k] == pre[k]);
        }
        if exists|k: int| 0 <= k < post.len() && has_pane(#[trigger] post[k], p) {
            let k = choose|k: int| 0 <= k < post.len() && has_pane(#[trigger] post[k], p);
            assert(k < pre.len());
            assert(post[k] == pre[k]);
        }
    }
    assert forall|p: Seq<char>, k: int| #[trigger] last_in_pane(post, p, k) implies m.dom().contains(
        p,
    ) && formats(m[p], post[k]) by {
        assert(k < pre.len());
        assert(post[k] == pre[k]);
        assert forall|j: int| k < j < pre.len() implies !has_pane(#[trigger] pre[j], p) by {
            assert(post[j] == pre[j]);
        }
        assert(last_in_pane(pre, p, k));
    }
}

proof fn lemma_panes_push_some(
    pre: Seq<Session>,
    s: Session,
    m: Map<Seq<char>, FormattedStatus>,
    m2: Map<Seq<char>, FormattedStatus>,
    pane: Seq<char>,
)
    requires
        panes_of(m, pre),
        has_pane(s, pane),
        m2.dom() == m.dom().insert(pane),
        formats(m2[pane], s),
        forall|q: Seq<char>| q != pane && m.dom().contains(q) ==> m2[q] == m[q],
    ensures
        panes_of(m2, pre.push(s)),
{
    let post = pre.push(s);
    assert(post[pre.len() as int] == s);
    assert forall|p: Seq<char>|
        #[trigger] m2.dom().contains(p) <==> exists|k: int| 0 <= k < post.len() && has_pane(
            #[trigger] post[k],
            p,
        ) by {
        if m2.dom().contains(p) && p != pane {
            let k = choose|k: int| 0 <= k < pre.len() && has_pane(#[trigger] pre[k], p);
            assert(post[k] == pre[k]);
        }
        if exists|k: int| 0 <= k < post.len() && has_pane(#[trigger] post[k], p) {
            let k = choose|k: int| 0 <= k < post.len() && has_pane(#[trigger] post[k], p);
            if k < pre.len() {
                assert(post[k] == pre[k]);
                assert(m.dom().contains(p));
            }
        }
    }
    assert forall|p: Seq<char>, k: int| #[trigger] last_in_pane(post, p, k) implies m2.dom().contains(
        p,
    ) && formats(m2[p], post[k]) by {
        if p == pane {
            if k < pre.len() {
                assert(!has_pane(post[pre.len() as int], p));
            }
        } else {
            assert(k < pre.len());
            assert(post[k] == pre[k]);
            assert forall|j: int| k < j < pre.len() implies !has_pane(#[trigger] pre[j], p) by {
                assert(post[j] == pre[j]);
            }
            assert(last_in_pane(pre, p, k));
        }
    }
}

} // verus!
