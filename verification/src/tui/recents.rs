//! The recent working directories offered by the new-session modal: from
//! the live sessions the daemon lists, one entry per directory (directories
//! compared as paths, component by component) with its latest activity, the
//! most recently active first (equal times in path order), at most ten.
use crate::ids::{parse_rfc3339, rfc3339_instant};
use crate::json::JsonValue;
use crate::order::{chars_less, char_lt, lemma_char_order, lemma_lex_order, lemma_lex_skip, lex, lex_less, strict_total};
use crate::paths::{components_of, components_view, path_components};
use crate::protocol::Timestamp;
use crate::seq_util::{first_index, is_first, lemma_first_index_found};
use crate::text::str_eq;
use vstd::prelude::*;

verus! {

/// At most this many recent directories are offered.
pub const MAX_RECENTS: usize = 10;

/// A path as the sequence of its components.
pub type PathKey = Seq<(u8, Seq<char>)>;

/// Order of path components: by kind, names by their characters.
pub open spec fn comp_lt() -> spec_fn((u8, Seq<char>), (u8, Seq<char>)) -> bool {
    |x: (u8, Seq<char>), y: (u8, Seq<char>)| x.0 < y.0 || (x.0 == y.0 && lex_less(
        x.1,
        y.1,
        char_lt(),
    ))
}

/// Path order: component by component.
pub open spec fn path_lt() -> spec_fn(PathKey, PathKey) -> bool {
    lex(comp_lt())
}

/// Component order is a strict total order.
pub proof fn lemma_comp_order()
    ensures
        strict_total(comp_lt()),
{
    lemma_char_order();
    lemma_lex_order(char_lt());
    let cl = lex(char_lt());
    assert forall|x: (u8, Seq<char>)| !#[trigger] comp_lt()(x, x) by {
        assert(!cl(x.1, x.1));
    }
    assert forall|x: (u8, Seq<char>), y: (u8, Seq<char>), z: (u8, Seq<char>)|
        #[trigger] comp_lt()(x, y) && #[trigger] comp_lt()(y, z) implies comp_lt()(x, z) by {
        if x.0 == y.0 && y.0 == z.0 {
            assert(cl(x.1, y.1) && cl(y.1, z.1));
            assert(cl(x.1, z.1));
        }
    }
    assert forall|x: (u8, Seq<char>), y: (u8, Seq<char>)| x != y implies #[trigger] comp_lt()(
        x,
        y,
    ) || comp_lt()(y, x) by {
        if x.0 == y.0 {
            assert(x.1 != y.1);
            assert(cl(x.1, y.1) || cl(y.1, x.1));
        }
    }
}

/// Path order is a strict total order.
pub proof fn lemma_path_order()
    ensures
        strict_total(path_lt()),
{
    lemma_comp_order();
    lemma_lex_order(comp_lt());
}

/// Whether component `x` comes before component `y`.
fn comp_less(x: &(u8, String), y: &(u8, String)) -> (r: bool)
    ensures
        r == comp_lt()((x.0, x.1@), (y.0, y.1@)),
{
    x.0 < y.0 || (x.0 == y.0 && chars_less(x.1.as_str(), y.1.as_str()))
}

fn comp_eq(x: &(u8, String), y: &(u8, String)) -> (r: bool)
    ensures
        r == ((x.0, x.1@) == (y.0, y.1@)),
{
    x.0 == y.0 && str_eq(x.1.as_str(), y.1.as_str())
}

/// Whether path `a` comes before path `b`, given as components.
fn key_less(a: &Vec<(u8, String)>, b: &Vec<(u8, String)>) -> (r: bool)
    ensures
        r == path_lt()(components_view(a@), components_view(b@)),
{
    let ghost ka = components_view(a@);
    let ghost kb = components_view(b@);
    proof {
        lemma_comp_order();
        assert(ka.skip(0) =~= ka);
        assert(kb.skip(0) =~= kb);
    }
    let n = a.len();
    let m = b.len();
    let mut i: usize = 0;
    while i < n && i < m
        invariant
            n == a@.len(),
            m == b@.len(),
            ka == components_view(a@),
            kb == components_view(b@),
            ka.len() == n,
            kb.len() == m,
            i <= n,
            i <= m,
            strict_total(comp_lt()),
            ka.take(i as int) == kb.take(i as int),
            lex_less(ka, kb, comp_lt()) == lex_less(ka.skip(i as int), kb.skip(i as int), comp_lt()),
        decreases n - i,
    {
        proof {
            assert(ka[i as int] == (a@[i as int].0, a@[i as int].1@));
            assert(kb[i as int] == (b@[i as int].0, b@[i as int].1@));
            assert(ka.skip(i as int)[0] == ka[i as int]);
            assert(kb.skip(i as int)[0] == kb[i as int]);
        }
        if comp_less(&a[i], &b[i]) {
            return true;
        }
        if !comp_eq(&a[i], &b[i]) {
            proof {
                assert(comp_lt()(kb[i as int], ka[i as int]));
                assert(!comp_lt()(ka[i as int], kb[i as int]));
            }
            return false;
        }
        proof {
            lemma_lex_skip(ka, kb, comp_lt(), i as int);
            assert(ka.take(i + 1) =~= ka.take(i as int).push(ka[i as int]));
            assert(kb.take(i + 1) =~= kb.take(i as int).push(kb[i as int]));
        }
        i = i + 1;
    }
    i == n && i < m
}

/// Whether two paths, given as components, are the same path.
fn key_eq(a: &Vec<(u8, String)>, b: &Vec<(u8, String)>) -> (r: bool)
    ensures
        r == (components_view(a@) == components_view(b@)),
{
    let ghost ka = components_view(a@);
    let ghost kb = components_view(b@);
    if a.len() != b.len() {
        proof {
            assert(ka.len() != kb.len());
        }
        return false;
    }
    let n = a.len();
    let mut i: usize = 0;
    while i < n
        invariant
            n == a@.len(),
            n == b@.len(),
            ka == components_view(a@),
            kb == components_view(b@),
            i <= n,
            forall|j: int| 0 <= j < i ==> ka[j] == kb[j],
        decreases n - i,
    {
        if !comp_eq(&a[i], &b[i]) {
            proof {
                assert(ka[i as int] != kb[i as int]);
            }
            return false;
        }
        i = i + 1;
    }
    proof {
        assert(ka =~= kb);
    }
    true
}

/// A listed session's contribution: its working directory and the instant
/// of its last event, when it has both (a string `working_dir` and a string
/// `last_event_at` that parses as RFC 3339).
pub open spec fn recent_entry(e: JsonValue) -> Option<(Seq<char>, Timestamp)> {
    match (e.str_field("working_dir"@), e.str_field("last_event_at"@)) {
        (Some(d), Some(t)) => match rfc3339_instant(t) {
            Some(ts) => Some((d, ts)),
            None => None,
        },
        _ => None,
    }
}

/// The contributions of the listed sessions, in order.
pub open spec fn recent_candidates(items: Seq<JsonValue>) -> Seq<(Seq<char>, Timestamp)>
    decreases items.len(),
{
    if items.len() == 0 {
        Seq::empty()
    } else {
        match recent_entry(items.last()) {
            Some(c) => recent_candidates(items.drop_last()).push(c),
            None => recent_candidates(items.drop_last()),
        }
    }
}

/// The contributions of a `session.list_active` answer (none unless it is
/// an array).
pub open spec fn candidates_of(v: JsonValue) -> Seq<(Seq<char>, Timestamp)> {
    match v {
        JsonValue::Array(items) => recent_candidates(items@),
        _ => Seq::empty(),
    }
}

/// The candidate's directory is the path `k`.
pub open spec fn has_key(k: PathKey) -> spec_fn((Seq<char>, Timestamp)) -> bool {
    |c: (Seq<char>, Timestamp)| path_components(c.0) == k
}

/// Some candidate's directory is the path `k`.
pub open spec fn listed(c: Seq<(Seq<char>, Timestamp)>, k: PathKey) -> bool {
    exists|m: int| 0 <= m < c.len() && #[trigger] has_key(k)(c[m])
}

/// The text of the first candidate whose directory is the path `k`.
pub open spec fn first_text(c: Seq<(Seq<char>, Timestamp)>, k: PathKey) -> Seq<char> {
    c[first_index(c, has_key(k))->0].0
}

/// `t` is the latest instant among the candidates in directory `k`.
pub open spec fn is_latest(c: Seq<(Seq<char>, Timestamp)>, k: PathKey, t: Timestamp) -> bool {
    &&& exists|m: int| 0 <= m < c.len() && #[trigger] has_key(k)(c[m]) && c[m].1 == t
    &&& forall|m: int| 0 <= m < c.len() && #[trigger] has_key(k)(c[m]) ==> !c[m].1.is_after(t)
}

/// Directory `a` (with its latest instant) is offered before `b`: later
/// activity first, equal instants in path order.
pub open spec fn ranks_before(a: (PathKey, Timestamp), b: (PathKey, Timestamp)) -> bool {
    a.1.is_after(b.1) || (a.1 == b.1 && path_lt()(a.0, b.0))
}

/// The offered entry `e` as a ranked pair.
pub open spec fn ranked(e: (String, Timestamp)) -> (PathKey, Timestamp) {
    (path_components(e.0@), e.1)
}

/// `r` is what the modal offers for candidates `c`: one entry per directory
/// (its first text and latest instant), ranked, and the first ten of all
/// directories in that ranking.
pub open spec fn offers(c: Seq<(Seq<char>, Timestamp)>, r: Seq<(String, Timestamp)>) -> bool {
    &&& r.len() <= MAX_RECENTS
    &&& forall|i: int|
        0 <= i < r.len() ==> {
            let k = path_components((#[trigger] r[i]).0@);
            &&& listed(c, k)
            &&& r[i].0@ == first_text(c, k)
            &&& is_latest(c, k, r[i].1)
        }
    &&& forall|i: int, j: int|
        0 <= i < j < r.len() ==> ranks_before(ranked(#[trigger] r[i]), ranked(#[trigger] r[j]))
    &&& forall|m: int, t: Timestamp|
        0 <= m < c.len() && #[trigger] is_latest(c, path_components(c[m].0), t) ==> (exists|i: int|
            0 <= i < r.len() && path_components((#[trigger] r[i]).0@) == path_components(c[m].0))
            || (r.len() == MAX_RECENTS && ranks_before(
            ranked(r[MAX_RECENTS - 1]),
            (path_components(c[m].0), t),
        ))
}

fn entry_of(e: &JsonValue) -> (r: Option<(String, Timestamp)>)
    ensures
        match recent_entry(*e) {
            Some(c) => r matches Some(x) && x.0@ == c.0 && x.1 == c.1,
            None => r is None,
        },
{
    proof {
        reveal_strlit("working_dir");
        reveal_strlit("last_event_at");
    }
    let dir = match e.get_str("working_dir") {
        Some(d) => d,
        None => return None,
    };
    let text = match e.get_str("last_event_at") {
        Some(t) => t,
        None => return None,
    };
    match parse_rfc3339(text) {
        Some(ts) => Some((dir.to_owned(), ts)),
        None => None,
    }
}

/// The candidates as character sequences.
pub open spec fn cands_view(v: Seq<(String, Timestamp)>) -> Seq<(Seq<char>, Timestamp)> {
    v.map_values(|x: (String, Timestamp)| (x.0@, x.1))
}

fn candidates(v: &JsonValue) -> (r: Vec<(String, Timestamp)>)
    ensures
        cands_view(r@) == candidates_of(*v),
{
    let mut out: Vec<(String, Timestamp)> = Vec::new();
    match v {
        JsonValue::Array(items) => {
            let n = items.len();
            let mut i: usize = 0;
            while i < n
                invariant
                    n == items@.len(),
                    i <= n,
                    cands_view(out@) == recent_candidates(items@.take(i as int)),
                decreases n - i,
            {
                proof {
                    assert(items@.take(i + 1).drop_last() =~= items@.take(i as int));
                    assert(items@.take(i + 1).last() == items@[i as int]);
                }
                match entry_of(&items[i]) {
                    Some(c) => {
                        let ghost before = out@;
                        out.push(c);
                        proof {
                            assert(cands_view(out@) =~= cands_view(before).push((c.0@, c.1)));
                        }
                    },
                    None => {},
                }
                i = i + 1;
            }
            proof {
                assert(items@.take(n as int) =~= items@);
            }
        },
        _ => {
            proof {
                assert(cands_view(out@) =~= Seq::<(Seq<char>, Timestamp)>::empty());
            }
        },
    }
    out
}

/// The directories found so far, as three parallel lists: each one's first
/// text, its path (as components) and its latest instant.
struct Groups {
    texts: Vec<String>,
    keys: Vec<Vec<(u8, String)>>,
    times: Vec<Timestamp>,
}

impl Groups {
    spec fn len(&self) -> nat {
        self.texts@.len()
    }

    spec fn key(&self, a: int) -> PathKey {
        components_view(self.keys@[a]@)
    }

    /// The groups describe the candidates `c`: one group per directory, each
    /// with its first text and latest instant.
    spec fn describe(&self, c: Seq<(Seq<char>, Timestamp)>) -> bool {
        &&& self.keys@.len() == self.len()
        &&& self.times@.len() == self.len()
        &&& forall|a: int|
            0 <= a < self.len() ==> {
                &&& listed(c, #[trigger] self.key(a))
                &&& path_components(self.texts@[a]@) == self.key(a)
                &&& self.texts@[a]@ == first_text(c, self.key(a))
                &&& is_latest(c, self.key(a), self.times@[a])
            }
        &&& forall|a: int, b: int|
            0 <= a < b < self.len() ==> #[trigger] self.key(a) != #[trigger] self.key(b)
        &&& forall|m: int|
            0 <= m < c.len() ==> exists|a: int|
                0 <= a < self.len() && #[trigger] self.key(a) == path_components((#[trigger] c[m]).0)
    }
}

proof fn lemma_first_push(c: Seq<(Seq<char>, Timestamp)>, x: (Seq<char>, Timestamp), k: PathKey)
    ensures
        listed(c, k) ==> listed(c.push(x), k) && first_text(c.push(x), k) == first_text(c, k),
        !listed(c, k) && has_key(k)(x) ==> listed(c.push(x), k) && first_text(c.push(x), k) == x.0,
        !listed(c, k) && !has_key(k)(x) ==> !listed(c.push(x), k),
{
    let p = has_key(k);
    let d = c.push(x);
    if listed(c, k) {
        let m = choose|m: int| 0 <= m < c.len() && #[trigger] has_key(k)(c[m]);
        crate::seq_util::lemma_first_index_exists(c, p, m);
        let f = first_index(c, p)->0;
        assert(is_first(c, p, f));
        assert(d[m] == c[m]);
        assert forall|j: int| 0 <= j < f implies !p(#[trigger] d[j]) by {
            assert(d[j] == c[j]);
        }
        assert(d[f] == c[f]);
        lemma_first_index_found(d, p, f);
    } else {
        if has_key(k)(x) {
            assert(d[c.len() as int] == x);
            assert forall|j: int| 0 <= j < c.len() implies !p(#[trigger] d[j]) by {
                assert(d[j] == c[j]);
            }
            lemma_first_index_found(d, p, c.len() as int);
        } else {
            assert forall|m: int| 0 <= m < d.len() implies !#[trigger] has_key(k)(d[m]) by {
                if m < c.len() {
                    assert(d[m] == c[m]);
                }
            }
        }
    }
}

proof fn lemma_latest_push(
    c: Seq<(Seq<char>, Timestamp)>,
    x: (Seq<char>, Timestamp),
    k: PathKey,
    t: Timestamp,
)
    ensures
        !has_key(k)(x) ==> (is_latest(c.push(x), k, t) == is_latest(c, k, t)),
        has_key(k)(x) && is_latest(c, k, t) ==> is_latest(
            c.push(x),
            k,
            if x.1.is_after(t) {
                x.1
            } else {
                t
            },
        ),
        has_key(k)(x) && !listed(c, k) ==> is_latest(c.push(x), k, x.1),
{
    let d = c.push(x);
    let n = c.len() as int;
    assert(d[n] == x);
    assert forall|m: int| 0 <= m < n implies #[trigger] d[m] == c[m] by {}
    if !has_key(k)(x) {
        if is_latest(d, k, t) {
            let m = choose|m: int| 0 <= m < d.len() && #[trigger] has_key(k)(d[m]) && d[m].1 == t;
            assert(m < n);
            assert(d[m] == c[m]);
            assert forall|j: int| 0 <= j < c.len() && #[trigger] has_key(k)(c[j]) implies !c[j].1.is_after(t) by {
                assert(d[j] == c[j]);
            }
        }
        if is_latest(c, k, t) {
            let m = choose|m: int| 0 <= m < c.len() && #[trigger] has_key(k)(c[m]) && c[m].1 == t;
            assert(d[m] == c[m]);
            assert forall|j: int| 0 <= j < d.len() && #[trigger] has_key(k)(d[j]) implies !d[j].1.is_after(t) by {
                if j < n {
                    assert(d[j] == c[j]);
                }
            }
        }
    }
    if has_key(k)(x) && is_latest(c, k, t) {
        let u = if x.1.is_after(t) {
            x.1
        } else {
            t
        };
        let m = choose|m: int| 0 <= m < c.len() && #[trigger] has_key(k)(c[m]) && c[m].1 == t;
        if x.1.is_after(t) {
            assert(has_key(k)(d[n]) && d[n].1 == u);
        } else {
            assert(d[m] == c[m]);
            assert(has_key(k)(d[m]) && d[m].1 == u);
        }
        assert forall|j: int| 0 <= j < d.len() && #[trigger] has_key(k)(d[j]) implies !d[j].1.is_after(u) by {
            if j < n {
                assert(d[j] == c[j]);
                assert(!c[j].1.is_after(t));
            }
        }
    }
    if has_key(k)(x) && !listed(c, k) {
        assert(has_key(k)(d[n]) && d[n].1 == x.1);
        assert forall|j: int| 0 <= j < d.len() && #[trigger] has_key(k)(d[j]) implies !d[j].1.is_after(x.1) by {
            if j < n {
                assert(d[j] == c[j]);
                assert(!has_key(k)(c[j]));
            }
        }
    }
}

fn find_key(keys: &Vec<Vec<(u8, String)>>, key: &Vec<(u8, String)>) -> (r: Option<usize>)
    ensures
        r matches Some(a) ==> a < keys@.len() && components_view(keys@[a as int]@)
            == components_view(key@),
        r is None ==> forall|a: int|
            0 <= a < keys@.len() ==> components_view((#[trigger] keys@[a])@) != components_view(key@),
{
    let n = keys.len();
    let mut j: usize = 0;
    while j < n
        invariant
            n == keys@.len(),
            j <= n,
            forall|a: int|
                0 <= a < j ==> components_view((#[trigger] keys@[a])@) != components_view(key@),
        decreases n - j,
    {
        if key_eq(&keys[j], key) {
            return Some(j);
        }
        j = j + 1;
    }
    None
}

fn group_candidates(cands: &Vec<(String, Timestamp)>) -> (g: Groups)
    ensures
        g.describe(cands_view(cands@)),
{
    let ghost all = cands_view(cands@);
    let mut g = Groups { texts: Vec::new(), keys: Vec::new(), times: Vec::new() };
    let n = cands.len();
    let mut i: usize = 0;
    while i < n
        invariant
            n == cands@.len(),
            all == cands_view(cands@),
            all.len() == n,
            i <= n,
            g.describe(all.take(i as int)),
        decreases n - i,
    {
        let ghost c = all.take(i as int);
        let ghost x = all[i as int];
        proof {
            assert(all.take(i + 1) =~= c.push(x));
            assert(x == (cands@[i as int].0@, cands@[i as int].1));
        }
        let key = components_of(cands[i].0.as_str());
        let ghost k = components_view(key@);
        let ts = cands[i].1;
        let ghost old_g = g;
        match find_key(&g.keys, &key) {
            Some(a) => {
                let cur = g.times[a];
                if ts.after(&cur) {
                    g.times.set(a, ts);
                }
                proof {
                    assert(old_g.key(a as int) == k);
                    assert(has_key(k)(x));
                    assert forall|b: int| 0 <= b < g.len() implies {
                        &&& listed(c.push(x), #[trigger] g.key(b))
                        &&& path_components(g.texts@[b]@) == g.key(b)
                        &&& g.texts@[b]@ == first_text(c.push(x), g.key(b))
                        &&& is_latest(c.push(x), g.key(b), g.times@[b])
                    } by {
                        assert(g.key(b) == old_g.key(b));
                        lemma_first_push(c, x, g.key(b));
                        lemma_latest_push(c, x, g.key(b), old_g.times@[b]);
                        if b != a {
                            assert(old_g.key(b) != k);
                            assert(g.times@[b] == old_g.times@[b]);
                        }
                    }
                    assert forall|m: int| 0 <= m < c.push(x).len() implies exists|b: int|
                        0 <= b < g.len() && #[trigger] g.key(b) == path_components(
                            (#[trigger] c.push(x)[m]).0,
                        ) by {
                        if m < c.len() {
                            assert(c.push(x)[m] == c[m]);
                            let b = choose|b: int|
                                0 <= b < old_g.len() && #[trigger] old_g.key(b) == path_components(
                                    (#[trigger] c[m]).0,
                                );
                            assert(g.key(b) == old_g.key(b));
                        } else {
                            assert(c.push(x)[m] == x);
                            assert(g.key(a as int) == old_g.key(a as int));
                        }
                    }
                    assert forall|p: int, q: int| 0 <= p < q < g.len() implies #[trigger] g.key(p)
                        != #[trigger] g.key(q) by {
                        assert(g.key(p) == old_g.key(p) && g.key(q) == old_g.key(q));
                    }
                }
            },
            None => {
                let text = cands[i].0.clone();
                g.texts.push(text);
                g.keys.push(key);
                g.times.push(ts);
                proof {
                    let last = old_g.len() as int;
                    assert(g.key(last) == k);
                    assert(!listed(c, k)) by {
                        if listed(c, k) {
                            let m = choose|m: int| 0 <= m < c.len() && #[trigger] has_key(k)(c[m]);
                            let b = choose|b: int|
                                0 <= b < old_g.len() && #[trigger] old_g.key(b) == path_components(
                                    (#[trigger] c[m]).0,
                                );
                        }
                    }
                    assert(path_components(x.0) == k);
                    assert(has_key(k)(x));
                    assert forall|b: int| 0 <= b < g.len() implies {
                        &&& listed(c.push(x), #[trigger] g.key(b))
                        &&& path_components(g.texts@[b]@) == g.key(b)
                        &&& g.texts@[b]@ == first_text(c.push(x), g.key(b))
                        &&& is_latest(c.push(x), g.key(b), g.times@[b])
                    } by {
                        lemma_first_push(c, x, g.key(b));
                        if b < last {
                            assert(g.key(b) == old_g.key(b));
                            assert(g.texts@[b] == old_g.texts@[b]);
                            assert(g.times@[b] == old_g.times@[b]);
                            assert(old_g.key(b) != k);
                            lemma_latest_push(c, x, g.key(b), g.times@[b]);
                        } else {
                            lemma_latest_push(c, x, k, ts);
                        }
                    }
                    assert forall|m: int| 0 <= m < c.push(x).len() implies exists|b: int|
                        0 <= b < g.len() && #[trigger] g.key(b) == path_components(
                            (#[trigger] c.push(x)[m]).0,
                        ) by {
                        if m < c.len() {
                            assert(c.push(x)[m] == c[m]);
                            let b = choose|b: int|
                                0 <= b < old_g.len() && #[trigger] old_g.key(b) == path_components(
                                    (#[trigger] c[m]).0,
                                );
                            assert(g.key(b) == old_g.key(b));
                        } else {
                            assert(c.push(x)[m] == x);
                        }
                    }
                    assert forall|p: int, q: int| 0 <= p < q < g.len() implies #[trigger] g.key(p)
                        != #[trigger] g.key(q) by {
                        assert(g.key(p) == old_g.key(p));
                        if q < last {
                            assert(g.key(q) == old_g.key(q));
                        }
                    }
                }
            },
        }
        i = i + 1;
    }
    proof {
        assert(all.take(n as int) =~= all);
    }
    g
}

/// Ranking is a strict total order on directories with their instants.
proof fn lemma_rank_order()
    ensures
        strict_total(|a: (PathKey, Timestamp), b: (PathKey, Timestamp)| ranks_before(a, b)),
{
    lemma_path_order();
    let r = |a: (PathKey, Timestamp), b: (PathKey, Timestamp)| ranks_before(a, b);
    assert forall|x: (PathKey, Timestamp)| !#[trigger] r(x, x) by {
        assert(!path_lt()(x.0, x.0));
    }
    assert forall|x: (PathKey, Timestamp), y: (PathKey, Timestamp), z: (PathKey, Timestamp)|
        #[trigger] r(x, y) && #[trigger] r(y, z) implies r(x, z) by {
        if x.1 == y.1 && y.1 == z.1 {
            assert(path_lt()(x.0, y.0) && path_lt()(y.0, z.0));
            assert(path_lt()(x.0, z.0));
        }
    }
    assert forall|x: (PathKey, Timestamp), y: (PathKey, Timestamp)| x != y implies #[trigger] r(
        x,
        y,
    ) || r(y, x) by {
        if x.1 == y.1 {
            assert(x.0 != y.0);
            assert(path_lt()(x.0, y.0) || path_lt()(y.0, x.0));
        }
    }
}

/// The latest instant of a directory is unique.
proof fn lemma_latest_unique(c: Seq<(Seq<char>, Timestamp)>, k: PathKey, t: Timestamp, u: Timestamp)
    requires
        is_latest(c, k, t),
        is_latest(c, k, u),
    ensures
        t == u,
{
    let m = choose|m: int| 0 <= m < c.len() && #[trigger] has_key(k)(c[m]) && c[m].1 == t;
    let q = choose|q: int| 0 <= q < c.len() && #[trigger] has_key(k)(c[q]) && c[q].1 == u;
    assert(!c[q].1.is_after(t));
    assert(!c[m].1.is_after(u));
}

impl Groups {
    spec fn ranked_at(&self, a: int) -> (PathKey, Timestamp) {
        (self.key(a), self.times@[a])
    }
}

fn group_before(g: &Groups, a: usize, b: usize) -> (r: bool)
    requires
        g.keys@.len() == g.len(),
        g.times@.len() == g.len(),
        a < g.len(),
        b < g.len(),
    ensures
        r == ranks_before(g.ranked_at(a as int), g.ranked_at(b as int)),
{
    let ta = g.times[a];
    let tb = g.times[b];
    ta.after(&tb) || (ta == tb && key_less(&g.keys[a], &g.keys[b]))
}


/// The untaken group that ranks first, if any is untaken.
fn find_best(g: &Groups, taken: &Vec<bool>, Ghost(c): Ghost<Seq<(Seq<char>, Timestamp)>>) -> (best: Option<usize>)
    requires
        g.describe(c),
        taken@.len() == g.len(),
    ensures
        best matches Some(b) ==> b < g.len() && !taken@[b as int],
        best is None ==> forall|q: int| 0 <= q < g.len() ==> #[trigger] taken@[q],
        best matches Some(b) ==> forall|q: int|
            0 <= q < g.len() && !#[trigger] taken@[q] && q != b ==> ranks_before(
                g.ranked_at(b as int),
                g.ranked_at(q),
            ),
{
    let ghost rank = |a: (PathKey, Timestamp), b: (PathKey, Timestamp)| ranks_before(a, b);
    proof {
        lemma_rank_order();
    }
    let n = g.texts.len();
    let mut best: Option<usize> = None;
    let mut j: usize = 0;
    while j < n
        invariant
            n == g.len(),
            g.describe(c),
            strict_total(rank),
            rank == (|a: (PathKey, Timestamp), b: (PathKey, Timestamp)| ranks_before(a, b)),
            taken@.len() == n,
            j <= n,
            best matches Some(b) ==> b < j && !taken@[b as int],
            best is None ==> forall|q: int| 0 <= q < j ==> #[trigger] taken@[q],
            best matches Some(b) ==> forall|q: int|
                0 <= q < j && !#[trigger] taken@[q] && q != b ==> ranks_before(
                    g.ranked_at(b as int),
                    g.ranked_at(q),
                ),
        decreases n - j,
    {
        if !taken[j] {
            match best {
                None => {
                    best = Some(j);
                },
                Some(b) => {
                    if group_before(&g, j, b) {
                        proof {
                            assert forall|q: int|
                                0 <= q < j + 1 && !#[trigger] taken@[q] && q != j implies ranks_before(
                                g.ranked_at(j as int),
                                g.ranked_at(q),
                            ) by {
                                if q != b {
                                    assert(rank(g.ranked_at(j as int), g.ranked_at(b as int)));
                                    assert(rank(g.ranked_at(b as int), g.ranked_at(q)));
                                }
                            }
                        }
                        best = Some(j);
                    } else {
                        proof {
                            assert(g.key(j as int) != g.key(b as int));
                            assert(g.ranked_at(j as int) != g.ranked_at(b as int));
                            assert(rank(g.ranked_at(j as int), g.ranked_at(b as int)) || rank(
                                g.ranked_at(b as int),
                                g.ranked_at(j as int),
                            ));
                        }
                    }
                },
            }
        }
        j = j + 1;
    }
    best
}

/// The directories to offer, from a `session.list_active` answer.
#[verifier::rlimit(50)]
pub fn extract_recents(value: &JsonValue) -> (r: Vec<(String, Timestamp)>)
    ensures
        offers(candidates_of(*value), r@),
{
    let cands = candidates(value);
    let g = group_candidates(&cands);
    let ghost c = cands_view(cands@);
    let ghost rank = |a: (PathKey, Timestamp), b: (PathKey, Timestamp)| ranks_before(a, b);
    proof {
        lemma_rank_order();
    }
    let n = g.texts.len();
    let mut taken: Vec<bool> = Vec::new();
    let mut z: usize = 0;
    while z < n
        invariant
            z <= n,
            taken@.len() == z,
            forall|j: int| 0 <= j < z ==> !taken@[j],
        decreases n - z,
    {
        taken.push(false);
        z = z + 1;
    }
    let mut out: Vec<(String, Timestamp)> = Vec::new();
    let ghost mut picked: Seq<int> = Seq::empty();
    let mut done = false;
    while out.len() < MAX_RECENTS && !done
        invariant
            n == g.len(),
            g.describe(c),
            strict_total(rank),
            rank == (|a: (PathKey, Timestamp), b: (PathKey, Timestamp)| ranks_before(a, b)),
            taken@.len() == n,
            picked.len() == out@.len(),
            out@.len() <= MAX_RECENTS,
            forall|i: int| 0 <= i < picked.len() ==> 0 <= #[trigger] picked[i] < n && taken@[picked[i]],
            forall|j: int| 0 <= j < n && #[trigger] taken@[j] ==> exists|i: int|
                0 <= i < picked.len() && picked[i] == j,
            forall|i: int|
                0 <= i < out@.len() ==> #[trigger] out@[i] == (g.texts@[picked[i]], g.times@[picked[i]]),
            forall|i: int, i2: int|
                0 <= i < i2 < picked.len() ==> ranks_before(
                    g.ranked_at(#[trigger] picked[i]),
                    g.ranked_at(#[trigger] picked[i2]),
                ),
            forall|i: int, j: int|
                0 <= i < picked.len() && 0 <= j < n && !#[trigger] taken@[j] ==> ranks_before(
                    g.ranked_at(#[trigger] picked[i]),
                    g.ranked_at(j),
                ),
            done ==> forall|j: int| 0 <= j < n ==> #[trigger] taken@[j],
        decreases MAX_RECENTS - out@.len(), if done {
            0int
        } else {
            1int
        },
    {
        let best = find_best(&g, &taken, Ghost(c));
        match best {
            None => {
                done = true;
            },
            Some(b) => {
                let ghost before_taken = taken@;
                out.push((g.texts[b].clone(), g.times[b]));
                taken.set(b, true);
                proof {
                    let old_picked = picked;
                    picked = picked.push(b as int);
                    assert forall|j2: int| 0 <= j2 < n && #[trigger] taken@[j2] implies exists|i: int|
                        0 <= i < picked.len() && picked[i] == j2 by {
                        if j2 == b {
                            assert(picked[old_picked.len() as int] == j2);
                        } else {
                            assert(before_taken[j2]);
                            let i = choose|i: int| 0 <= i < old_picked.len() && old_picked[i] == j2;
                            assert(picked[i] == j2);
                        }
                    }
                    assert forall|i: int| 0 <= i < picked.len() implies 0 <= #[trigger] picked[i] < n
                        && taken@[picked[i]] by {
                        if i < old_picked.len() {
                            assert(picked[i] == old_picked[i]);
                        }
                    }
                    assert forall|i: int, i2: int|
                        0 <= i < i2 < picked.len() implies ranks_before(
                        g.ranked_at(#[trigger] picked[i]),
                        g.ranked_at(#[trigger] picked[i2]),
                    ) by {
                        assert(picked[i] == old_picked[i]);
                        if i2 < old_picked.len() {
                            assert(picked[i2] == old_picked[i2]);
                        } else {
                            assert(!before_taken[b as int]);
                        }
                    }
                    assert forall|i: int, j2: int|
                        0 <= i < picked.len() && 0 <= j2 < n && !#[trigger] taken@[j2] implies ranks_before(
                        g.ranked_at(#[trigger] picked[i]),
                        g.ranked_at(j2),
                    ) by {
                        assert(!before_taken[j2]);
                        if i < old_picked.len() {
                            assert(picked[i] == old_picked[i]);
                        } else {
                            assert(j2 != b);
                        }
                    }
                    assert forall|i: int| 0 <= i < out@.len() implies #[trigger] out@[i] == (
                    g.texts@[picked[i]], g.times@[picked[i]]) by {
                        if i < old_picked.len() {
                            assert(picked[i] == old_picked[i]);
                        }
                    }
                }
            },
        }
    }
    proof {
        let r = out@;
        assert forall|i: int| 0 <= i < r.len() implies {
            let k = path_components((#[trigger] r[i]).0@);
            &&& listed(c, k)
            &&& r[i].0@ == first_text(c, k)
            &&& is_latest(c, k, r[i].1)
        } by {
            let a = picked[i];
            assert(r[i] == (g.texts@[a], g.times@[a]));
            let k = g.key(a);
            assert(listed(c, k));
        }
        assert forall|i: int, j2: int| 0 <= i < j2 < r.len() implies ranks_before(
            ranked(#[trigger] r[i]),
            ranked(#[trigger] r[j2]),
        ) by {
            assert(r[i] == (g.texts@[picked[i]], g.times@[picked[i]]));
            assert(r[j2] == (g.texts@[picked[j2]], g.times@[picked[j2]]));
            assert(ranked(r[i]) == g.ranked_at(picked[i]));
            assert(ranked(r[j2]) == g.ranked_at(picked[j2]));
        }
        assert forall|m: int, t: Timestamp|
            0 <= m < c.len() && #[trigger] is_latest(c, path_components(c[m].0), t) implies (exists|i: int|
            0 <= i < r.len() && path_components((#[trigger] r[i]).0@) == path_components(c[m].0))
            || (r.len() == MAX_RECENTS && ranks_before(
            ranked(r[MAX_RECENTS - 1]),
            (path_components(c[m].0), t),
        )) by {
            let k = path_components(c[m].0);
            let a = choose|a: int| 0 <= a < g.len() && #[trigger] g.key(a) == path_components(
                (#[trigger] c[m]).0,
            );
            lemma_latest_unique(c, k, t, g.times@[a]);
            if taken@[a] {
                let i = choose|i: int| 0 <= i < picked.len() && picked[i] == a;
                assert(r[i] == (g.texts@[a], g.times@[a]));
                assert(path_components(r[i].0@) == k);
            } else {
                assert(r.len() == MAX_RECENTS);
                let last = MAX_RECENTS - 1;
                assert(r[last as int] == (g.texts@[picked[last as int]], g.times@[picked[last as int]]));
                assert(ranked(r[last as int]) == g.ranked_at(picked[last as int]));
                assert(g.ranked_at(a) == (k, t));
            }
        }
        assert(c == candidates_of(*value));
    }
    out
}

} // verus!
