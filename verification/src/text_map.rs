//! A map keyed by text (keys compared by their characters), with each key
//! held once. It stands for the `HashMap<String, _>` tables of the daemon.
use crate::text::str_eq;
use vstd::prelude::*;

verus! {

/// Map from text keys to values.
#[derive(Debug)]
pub struct TextMap<V> {
    entries: Vec<(String, V)>,
}

/// The map a list of entries stands for (a later entry for the same key
/// overrides an earlier one; well-formed lists have none).
pub open spec fn text_entries_map<V>(s: Seq<(String, V)>) -> Map<Seq<char>, V>
    decreases s.len(),
{
    if s.len() == 0 {
        Map::empty()
    } else {
        text_entries_map(s.drop_last()).insert(s.last().0@, s.last().1)
    }
}

/// No key occurs twice.
pub open spec fn unique_keys<V>(s: Seq<(String, V)>) -> bool {
    forall|i: int, j: int| 0 <= i < s.len() && 0 <= j < s.len() && i != j ==> s[i].0@ != s[j].0@
}

proof fn lemma_text_dom<V>(s: Seq<(String, V)>, k: Seq<char>)
    ensures
        text_entries_map(s).dom().contains(k) <==> exists|i: int| 0 <= i < s.len() && #[trigger] s[i].0@
            == k,
    decreases s.len(),
{
    if s.len() > 0 {
        let t = s.drop_last();
        lemma_text_dom(t, k);
        if text_entries_map(s).dom().contains(k) {
            if k != s.last().0@ {
                let i = choose|i: int| 0 <= i < t.len() && #[trigger] t[i].0@ == k;
                assert(s[i].0@ == k);
            } else {
                assert(s[s.len() - 1].0@ == k);
            }
        }
        if exists|i: int| 0 <= i < s.len() && #[trigger] s[i].0@ == k {
            let i = choose|i: int| 0 <= i < s.len() && #[trigger] s[i].0@ == k;
            if i < s.len() - 1 {
                assert(t[i].0@ == k);
            }
        }
    }
}

proof fn lemma_text_at<V>(s: Seq<(String, V)>, i: int)
    requires
        unique_keys(s),
        0 <= i < s.len(),
    ensures
        text_entries_map(s).dom().contains(s[i].0@),
        text_entries_map(s)[s[i].0@] == s[i].1,
    decreases s.len(),
{
    let t = s.drop_last();
    if i < s.len() - 1 {
        assert(t[i] == s[i]);
        lemma_text_at(t, i);
        assert(s.last().0@ != s[i].0@);
    }
}

proof fn lemma_text_dom_len<V>(s: Seq<(String, V)>)
    requires
        unique_keys(s),
    ensures
        text_entries_map(s).dom().finite(),
        text_entries_map(s).dom().len() == s.len(),
    decreases s.len(),
{
    if s.len() > 0 {
        let t = s.drop_last();
        assert(unique_keys(t));
        lemma_text_dom_len(t);
        lemma_text_dom(t, s.last().0@);
        assert forall|i: int| 0 <= i < t.len() implies t[i].0@ != s.last().0@ by {
            assert(t[i] == s[i]);
        }
    }
}

impl<V> TextMap<V> {
    /// The map this value stands for.
    pub closed spec fn view(&self) -> Map<Seq<char>, V> {
        text_entries_map(self.entries@)
    }

    /// Well-formed: each key occurs once.
    pub closed spec fn wf(&self) -> bool {
        unique_keys(self.entries@)
    }

    /// An empty map.
    pub fn new() -> (m: TextMap<V>)
        ensures
            m.wf(),
            m@ == Map::<Seq<char>, V>::empty(),
    {
        TextMap { entries: Vec::new() }
    }

    fn index_of(&self, key: &str) -> (r: Option<usize>)
        ensures
            r matches Some(i) ==> i < self.entries@.len() && self.entries@[i as int].0@ == key@,
            r is None ==> forall|j: int| 0 <= j < self.entries@.len() ==> self.entries@[j].0@ != key@,
    {
        let mut i: usize = 0;
        while i < self.entries.len()
            invariant
                i <= self.entries@.len(),
                forall|j: int| 0 <= j < i ==> self.entries@[j].0@ != key@,
            decreases self.entries@.len() - i,
        {
            if str_eq(self.entries[i].0.as_str(), key) {
                return Some(i);
            }
            i = i + 1;
        }
        None
    }

    /// The value stored under `key`.
    pub fn get(&self, key: &str) -> (r: Option<&V>)
        requires
            self.wf(),
        ensures
            r matches Some(v) ==> self@.dom().contains(key@) && self@[key@] == *v,
            r is None ==> !self@.dom().contains(key@),
    {
        match self.index_of(key) {
            Some(i) => {
                proof {
                    lemma_text_at(self.entries@, i as int);
                }
                Some(&self.entries[i].1)
            },
            None => {
                proof {
                    lemma_text_dom(self.entries@, key@);
                }
                None
            },
        }
    }

    /// Whether `key` has a value.
    pub fn contains_key(&self, key: &str) -> (r: bool)
        requires
            self.wf(),
        ensures
            r == self@.dom().contains(key@),
    {
        self.get(key).is_some()
    }

    /// Number of keys.
    pub fn len(&self) -> (n: usize)
        requires
            self.wf(),
        ensures
            n == self@.dom().len(),
            self@.dom().finite(),
    {
        proof {
            lemma_text_dom_len(self.entries@);
        }
        self.entries.len()
    }

    /// Store `value` under `key`, replacing any value there (`HashMap::insert`).
    pub fn insert(&mut self, key: String, value: V)
        requires
            old(self).wf(),
        ensures
            final(self).wf(),
            final(self)@ == old(self)@.insert(key@, value),
    {
        let ghost s = self.entries@;
        let ghost k0 = key@;
        match self.index_of(key.as_str()) {
            Some(i) => {
                self.entries.set(i, (key, value));
                proof {
                    let n = self.entries@;
                    assert forall|k: Seq<char>| #![trigger text_entries_map(n).dom().contains(k)]
                        text_entries_map(n).dom().contains(k) == text_entries_map(s).insert(
                        k0,
                        value,
                    ).dom().contains(k) by {
                        lemma_text_dom(n, k);
                        lemma_text_dom(s, k);
                        if exists|j: int| 0 <= j < s.len() && #[trigger] s[j].0@ == k {
                            let j = choose|j: int| 0 <= j < s.len() && #[trigger] s[j].0@ == k;
                            if j != i {
                                assert(n[j].0@ == k);
                            } else {
                                assert(n[j].0@ == k0);
                            }
                        }
                        if k == k0 {
                            assert(n[i as int].0@ == k);
                        }
                    }
                    assert forall|k: Seq<char>| text_entries_map(n).dom().contains(k) implies text_entries_map(
                        n,
                    )[k] == text_entries_map(s).insert(k0, value)[k] by {
                        lemma_text_dom(n, k);
                        let j = choose|j: int| 0 <= j < n.len() && #[trigger] n[j].0@ == k;
                        lemma_text_at(n, j);
                        if j != i {
                            lemma_text_at(s, j);
                        }
                    }
                    assert(text_entries_map(n) =~= text_entries_map(s).insert(k0, value));
                }
            },
            None => {
                self.entries.push((key, value));
                proof {
                    let n = self.entries@;
                    assert(n.drop_last() =~= s);
                }
            },
        }
    }

    /// Drop the value of `key`, if any (`HashMap::remove`).
    pub fn remove(&mut self, key: &str)
        requires
            old(self).wf(),
        ensures
            final(self).wf(),
            final(self)@ == old(self)@.remove(key@),
    {
        let ghost s = self.entries@;
        match self.index_of(key) {
            Some(i) => {
                self.entries.remove(i);
                proof {
                    let n = self.entries@;
                    assert forall|k: Seq<char>| #![trigger text_entries_map(n).dom().contains(k)]
                        text_entries_map(n).dom().contains(k) == (text_entries_map(s).dom().contains(
                        k,
                    ) && k != key@) by {
                        lemma_text_dom(n, k);
                        lemma_text_dom(s, k);
                        if exists|j: int| 0 <= j < s.len() && #[trigger] s[j].0@ == k {
                            let j = choose|j: int| 0 <= j < s.len() && #[trigger] s[j].0@ == k;
                            if j < i {
                                assert(n[j].0@ == k);
                            } else if j > i {
                                assert(n[j - 1].0@ == k);
                            }
                        }
                        if exists|j: int| 0 <= j < n.len() && #[trigger] n[j].0@ == k {
                            let j = choose|j: int| 0 <= j < n.len() && #[trigger] n[j].0@ == k;
                            if j < i {
                                assert(s[j].0@ == k);
                            } else {
                                assert(s[j + 1].0@ == k);
                            }
                        }
                    }
                    assert forall|k: Seq<char>| text_entries_map(n).dom().contains(k) implies text_entries_map(
                        n,
                    )[k] == text_entries_map(s)[k] by {
                        lemma_text_dom(n, k);
                        let j = choose|j: int| 0 <= j < n.len() && #[trigger] n[j].0@ == k;
                        lemma_text_at(n, j);
                        if j < i {
                            lemma_text_at(s, j);
                        } else {
                            lemma_text_at(s, j + 1);
                        }
                    }
                    assert(text_entries_map(n) =~= text_entries_map(s).remove(key@));
                }
            },
            None => {
                proof {
                    lemma_text_dom(s, key@);
                    assert(text_entries_map(s) =~= text_entries_map(s).remove(key@));
                }
            },
        }
    }

    /// The entries, each key once, in the order the keys were first stored.
    pub fn entries(&self) -> (r: &Vec<(String, V)>)
        requires
            self.wf(),
        ensures
            unique_keys(r@),
            forall|i: int| 0 <= i < r@.len() ==> self@.dom().contains(#[trigger] r@[i].0@) && self@[r@[i].0@]
                == r@[i].1,
            forall|k: Seq<char>| #[trigger] self@.dom().contains(k) ==> exists|i: int|
                0 <= i < r@.len() && r@[i].0@ == k,
            r@.len() == self@.dom().len(),
    {
        proof {
            lemma_text_dom_len(self.entries@);
            assert forall|i: int| 0 <= i < self.entries@.len() implies self@.dom().contains(
                #[trigger] self.entries@[i].0@,
            ) && self@[self.entries@[i].0@] == self.entries@[i].1 by {
                lemma_text_at(self.entries@, i);
            }
            assert forall|k: Seq<char>| #[trigger] self@.dom().contains(k) implies exists|i: int|
                0 <= i < self.entries@.len() && self.entries@[i].0@ == k by {
                lemma_text_dom(self.entries@, k);
            }
        }
        &self.entries
    }
}

} // verus!
