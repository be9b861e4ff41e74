//! The subscribers to live event notifications: each has an id and a
//! sending end; the caller delivers each event to every sending end and
//! then drops the subscribers whose delivery failed.
use vstd::prelude::*;

verus! {

/// Identifier handed out by [`SubscriberRegistry::register`].
pub type SubscriptionId = usize;

/// The id after `id` (counting wraps around at the top of `usize`).
pub open spec fn next_after(id: usize) -> usize {
    if id == usize::MAX {
        0
    } else {
        (id + 1) as usize
    }
}

/// The entry does not have id `id`.
pub open spec fn other_than<S>(id: usize) -> spec_fn((usize, S)) -> bool {
    |e: (usize, S)| e.0 != id
}

/// The entries of `s` whose delivery `d` (one flag per entry) succeeded.
pub open spec fn delivered_only<S>(s: Seq<(usize, S)>, d: Seq<bool>) -> Seq<(usize, S)>
    decreases s.len(),
{
    if s.len() == 0 || d.len() == 0 {
        Seq::empty()
    } else if d.last() {
        delivered_only(s.drop_last(), d.drop_last()).push(s.last())
    } else {
        delivered_only(s.drop_last(), d.drop_last())
    }
}

/// The fan-out hub: subscribers in the order they registered, and the id the
/// next one gets.
#[derive(Debug)]
pub struct SubscriberRegistry<S> {
    senders: Vec<(SubscriptionId, S)>,
    next_id: SubscriptionId,
}

impl<S> SubscriberRegistry<S> {
    /// The subscribers, oldest first.
    pub closed spec fn view(&self) -> Seq<(usize, S)> {
        self.senders@
    }

    /// The id the next subscriber gets.
    pub closed spec fn next_id(&self) -> usize {
        self.next_id
    }

    /// Ids increase along the registry and are all below the next id.
    pub open spec fn ids_fresh(&self) -> bool {
        &&& forall|i: int, j: int|
            0 <= i < j < self@.len() ==> (#[trigger] self@[i]).0 < (#[trigger] self@[j]).0
        &&& forall|i: int| 0 <= i < self@.len() ==> (#[trigger] self@[i]).0 < self.next_id()
    }

    /// An empty registry; the first id is 1.
    pub fn new() -> (r: SubscriberRegistry<S>)
        ensures
            r@ == Seq::<(usize, S)>::empty(),
            r.next_id() == 1,
            r.ids_fresh(),
    {
        SubscriberRegistry { senders: Vec::new(), next_id: 1 }
    }

    /// Add a subscriber with its sending end; returns its id.
    pub fn register(&mut self, sender: S) -> (id: SubscriptionId)
        ensures
            id == old(self).next_id(),
            final(self).next_id() == next_after(old(self).next_id()),
            final(self)@ == old(self)@.push((id, sender)),
    {
        let id = self.next_id;
        self.next_id = if self.next_id == usize::MAX {
            0
        } else {
            self.next_id + 1
        };
        self.senders.push((id, sender));
        id
    }

    /// Remove the subscriber with id `id`; an unknown id changes nothing.
    pub fn unregister(&mut self, id: SubscriptionId)
        ensures
            final(self)@ == old(self)@.filter(other_than::<S>(id)),
            final(self).next_id() == old(self).next_id(),
    {
        let ghost orig = self.senders@;
        let ghost keep = other_than::<S>(id);
        let mut rest: Vec<(SubscriptionId, S)> = Vec::new();
        std::mem::swap(&mut rest, &mut self.senders);
        let mut out: Vec<(SubscriptionId, S)> = Vec::new();
        let n = rest.len();
        let mut k: usize = 0;
        while k < n
            invariant
                n == orig.len(),
                k <= n,
                keep == other_than::<S>(id),
                rest@ == orig.skip(k as int),
                out@ == orig.take(k as int).filter(keep),
            decreases n - k,
        {
            let e = rest.remove(0);
            proof {
                assert(e == orig[k as int]);
                assert(orig.take(k + 1) =~= orig.take(k as int).push(e));
                orig.take(k as int).lemma_filter_push(e, keep);
                assert(rest@ =~= orig.skip(k + 1));
            }
            if e.0 != id {
                out.push(e);
            }
            k = k + 1;
        }
        proof {
            assert(orig.take(n as int) =~= orig);
        }
        self.senders = out;
    }

    /// Keep the subscribers whose delivery succeeded: `delivered` holds one
    /// flag per subscriber, in registry order.
    pub fn retain_delivered(&mut self, delivered: &Vec<bool>)
        requires
            delivered@.len() == old(self)@.len(),
        ensures
            final(self)@ == delivered_only(old(self)@, delivered@),
            final(self).next_id() == old(self).next_id(),
    {
        let ghost orig = self.senders@;
        let mut rest: Vec<(SubscriptionId, S)> = Vec::new();
        std::mem::swap(&mut rest, &mut self.senders);
        let mut out: Vec<(SubscriptionId, S)> = Vec::new();
        let n = rest.len();
        let mut k: usize = 0;
        while k < n
            invariant
                n == orig.len(),
                n == delivered@.len(),
                k <= n,
                rest@ == orig.skip(k as int),
                out@ == delivered_only(orig.take(k as int), delivered@.take(k as int)),
            decreases n - k,
        {
            let e = rest.remove(0);
            proof {
                assert(e == orig[k as int]);
                assert(orig.take(k + 1).drop_last() =~= orig.take(k as int));
                assert(delivered@.take(k + 1).drop_last() =~= delivered@.take(k as int));
                assert(rest@ =~= orig.skip(k + 1));
            }
            if delivered[k] {
                out.push(e);
            }
            k = k + 1;
        }
        proof {
            assert(orig.take(n as int) =~= orig);
            assert(delivered@.take(n as int) =~= delivered@);
        }
        self.senders = out;
    }

    /// The subscribers with their sending ends, oldest first.
    pub fn senders(&self) -> (r: &Vec<(SubscriptionId, S)>)
        ensures
            r@ == self@,
    {
        &self.senders
    }

    /// Number of subscribers.
    pub fn len(&self) -> (n: usize)
        ensures
            n == self@.len(),
    {
        self.senders.len()
    }

    /// Whether there is no subscriber.
    pub fn is_empty(&self) -> (b: bool)
        ensures
            b == (self@.len() == 0),
    {
        self.senders.len() == 0
    }
}

impl<S> Default for SubscriberRegistry<S> {
    fn default() -> (r: SubscriberRegistry<S>)
        ensures
            r@ == Seq::<(usize, S)>::empty(),
            r.next_id() == 1,
    {
        SubscriberRegistry::new()
    }
}

/// Ids are never handed out twice while the counter has not wrapped: when
/// the ids in the registry are fresh and the next id is not the largest
/// `usize`, registering keeps them fresh, so the new id differs from every
/// id still registered.
pub proof fn lemma_register_fresh<S>(
    before: SubscriberRegistry<S>,
    after: SubscriberRegistry<S>,
    id: usize,
    sender: S,
)
    requires
        before.ids_fresh(),
        before.next_id() < usize::MAX,
        id == before.next_id(),
        after.next_id() == next_after(before.next_id()),
        after@ == before@.push((id, sender)),
    ensures
        after.ids_fresh(),
        forall|i: int| 0 <= i < before@.len() ==> (#[trigger] before@[i]).0 != id,
{
    assert forall|i: int, j: int| 0 <= i < j < after@.len() implies (#[trigger] after@[i]).0 < (
    #[trigger] after@[j]).0 by {
        assert(after@[i] == before@[i]);
        if j < before@.len() {
            assert(after@[j] == before@[j]);
        }
    }
    assert forall|i: int| 0 <= i < after@.len() implies (#[trigger] after@[i]).0 < after.next_id() by {
        if i < before@.len() {
            assert(after@[i] == before@[i]);
        }
    }
}

/// Removing subscribers keeps the ids fresh.
pub proof fn lemma_unregister_fresh<S>(
    before: SubscriberRegistry<S>,
    after: SubscriberRegistry<S>,
    id: usize,
)
    requires
        before.ids_fresh(),
        after@ == before@.filter(other_than::<S>(id)),
        after.next_id() == before.next_id(),
    ensures
        after.ids_fresh(),
        forall|i: int| 0 <= i < after@.len() ==> (#[trigger] after@[i]).0 != id,
{
    let f = other_than::<S>(id);
    before@.filter_lemma(f);
    lemma_filter_keeps_order(before@, f);
    assert forall|i: int| 0 <= i < after@.len() implies (#[trigger] after@[i]).0 < after.next_id() by {
        lemma_filter_member(before@, f, i);
    }
}

/// Each element of a filtered sequence is an element of the sequence.
proof fn lemma_filter_member<T>(s: Seq<T>, f: spec_fn(T) -> bool, i: int)
    requires
        0 <= i < s.filter(f).len(),
    ensures
        exists|k: int| 0 <= k < s.len() && s[k] == s.filter(f)[i],
{
    let x = s.filter(f)[i];
    assert(s.filter(f).contains(x));
    s.lemma_filter_contains_rev(f, x);
}

/// A filtered sequence keeps the order of the sequence: ids that increase
/// along `s` increase along the filtered sequence.
proof fn lemma_filter_keeps_order<S>(s: Seq<(usize, S)>, f: spec_fn((usize, S)) -> bool)
    requires
        forall|i: int, j: int| 0 <= i < j < s.len() ==> (#[trigger] s[i]).0 < (#[trigger] s[j]).0,
    ensures
        forall|i: int, j: int|
            0 <= i < j < s.filter(f).len() ==> (#[trigger] s.filter(f)[i]).0 < (
            #[trigger] s.filter(f)[j]).0,
    decreases s.len(),
{
    if s.len() > 0 {
        let t = s.drop_last();
        assert forall|i: int, j: int| 0 <= i < j < t.len() implies (#[trigger] t[i]).0 < (
        #[trigger] t[j]).0 by {
            assert(t[i] == s[i] && t[j] == s[j]);
        }
        lemma_filter_keeps_order(t, f);
        assert(s =~= t.push(s.last()));
        t.lemma_filter_push(s.last(), f);
        assert forall|i: int, j: int|
            0 <= i < j < s.filter(f).len() implies (#[trigger] s.filter(f)[i]).0 < (
            #[trigger] s.filter(f)[j]).0 by {
            if f(s.last()) && j == s.filter(f).len() - 1 {
                lemma_filter_member(t, f, i);
                let k = choose|k: int| 0 <= k < t.len() && t[k] == t.filter(f)[i];
                assert(s.filter(f)[i] == t.filter(f)[i]);
                assert(s[k] == t[k]);
                assert(s[s.len() - 1] == s.last());
            } else {
                assert(s.filter(f)[i] == t.filter(f)[i]);
                assert(s.filter(f)[j] == t.filter(f)[j]);
            }
        }
    }
}

} // verus!
