//! Row highlights of the dashboard: session id -> the instant (milliseconds
//! on the monotonic clock) until which its row stays flashed.
use std::collections::HashMap;
use vstd::prelude::*;
use vstd::std_specs::iter::IteratorSpec;

verus! {

broadcast use vstd::std_specs::hash::group_hash_axioms;

/// Map from session id to highlight expiry.
#[derive(Debug)]
pub struct FlashMap {
    map: HashMap<u128, u64>,
}

/// The entries of `m` that expire strictly after `now`.
pub open spec fn still_flashing(m: Map<u128, u64>, now: u64) -> Map<u128, u64> {
    Map::new(|k: u128| m.dom().contains(k) && m[k] > now, |k: u128| m[k])
}

impl FlashMap {
    /// The map this value stands for.
    pub closed spec fn view(&self) -> Map<u128, u64> {
        self.map@
    }

    /// Well-formed: the map is finite.
    pub closed spec fn wf(&self) -> bool {
        self.map@.dom().finite()
    }

    /// An empty map.
    pub fn new() -> (m: FlashMap)
        ensures
            m.wf(),
            m.view() == Map::<u128, u64>::empty(),
    {
        FlashMap { map: HashMap::new() }
    }

    /// The expiry recorded for `id`.
    pub fn get(&self, id: u128) -> (r: Option<u64>)
        requires
            self.wf(),
        ensures
            r matches Some(t) ==> self.view().dom().contains(id) && self.view()[id] == t,
            r is None ==> !self.view().dom().contains(id),
    {
        match self.map.get(&id) {
            Some(t) => Some(*t),
            None => None,
        }
    }

    /// Number of ids in the map.
    pub fn len(&self) -> (n: usize)
        requires
            self.wf(),
        ensures
            n == self.view().dom().len(),
    {
        self.map.len()
    }

    /// Set the expiry of `id` to `until` (`HashMap::insert`).
    pub fn insert(&mut self, id: u128, until: u64)
        requires
            old(self).wf(),
        ensures
            final(self).wf(),
            final(self).view() == old(self).view().insert(id, until),
    {
        self.map.insert(id, until);
    }

    /// Drop the entry of `id`, if any (`HashMap::remove`).
    pub fn remove(&mut self, id: u128)
        requires
            old(self).wf(),
        ensures
            final(self).wf(),
            final(self).view() == old(self).view().remove(id),
    {
        self.map.remove(&id);
    }

    /// Whether some row stays flashed after `now`.
    pub fn any_after(&self, now: u64) -> (r: bool)
        requires
            self.wf(),
        ensures
            r == exists|id: u128| #[trigger] self.view().dom().contains(id) && self.view()[id] > now,
    {
        let ghost s = vstd::std_specs::hash::spec_hash_map_iter(&self.map).remaining();
        let ghost mut n: int = 0;
        let mut found = false;
        for kv in it: self.map.iter()
            invariant
                it.seq() == s,
                n == it.index(),
                found == exists|j: int| 0 <= j < n && *s[j].1 > now,
        {
            if *kv.1 > now {
                found = true;
            }
            proof {
                n = n + 1;
            }
        }
        proof {
            assert(n == s.len());
            if found {
                let j = choose|j: int| 0 <= j < n && *s[j].1 > now;
                assert(self.view().dom().contains(*s[j].0));
            }
        }
        found
    }

    /// Drop the entries that expire at or before `now`; whether any was
    /// dropped.
    pub fn retain_after(&mut self, now: u64) -> (dropped: bool)
        requires
            old(self).wf(),
        ensures
            final(self).wf(),
            final(self).view() == still_flashing(old(self).view(), now),
            dropped == (final(self).view().dom().len() != old(self).view().dom().len()),
    {
        let ghost m = self.map@;
        let ghost s = vstd::std_specs::hash::spec_hash_map_iter(&self.map).remaining();
        let ghost mut n: int = 0;
        let mut kept: HashMap<u128, u64> = HashMap::new();
        for kv in it: self.map.iter()
            invariant
                it.seq() == s,
                n == it.index(),
                m == self.map@,
                forall|k: u128|
                    #[trigger] kept@.contains_key(k) <==> (exists|j: int|
                        0 <= j < n && *s[j].0 == k) && m.contains_key(k) && m[k] > now,
                forall|k: u128| #[trigger] kept@.contains_key(k) ==> kept@[k] == m[k],
        {
            proof {
                assert(m.contains_key(*s[n].0) && m[*s[n].0] == *s[n].1);
            }
            if *kv.1 > now {
                kept.insert(*kv.0, *kv.1);
            }
            proof {
                n = n + 1;
            }
        }
        proof {
            assert forall|k: u128| m.contains_key(k) implies exists|j: int|
                0 <= j < n && *s[j].0 == k by {
                assert(s.contains((&k, &m[k])));
                let j = choose|j: int| 0 <= j < s.len() && s[j] == (&k, &m[k]);
                assert(*s[j].0 == k);
            }
        }
        let before = self.map.len();
        let after = kept.len();
        self.map = kept;
        proof {
            assert(self.map@ =~= still_flashing(m, now));
        }
        before != after
    }
}

} // verus!
