//! Requests waiting for their response, by correlation id, and where an
//! incoming envelope goes.
use vstd::prelude::*;

use crate::mcp::events::{distinct_keys, lemma_time_map_absent, lemma_time_map_lookup, time_map};
use crate::text::str_eq;

verus! {

/// Requests sent and not yet answered: correlation id to the ticket of
/// the waiter.
pub struct PendingRequests {
    entries: Vec<(String, u64)>,
}

proof fn lemma_time_map_remove(pairs: Seq<(String, u64)>, i: int)
    requires
        distinct_keys(pairs),
        0 <= i < pairs.len(),
    ensures
        distinct_keys(pairs.remove(i)),
        time_map(pairs.remove(i)) == time_map(pairs).remove(pairs[i].0@),
    decreases pairs.len(),
{
    let rm = pairs.remove(i);
    assert forall|a: int, b: int| 0 <= a < b < rm.len() implies (#[trigger] rm[a]).0@ != (#[trigger] rm[b]).0@ by {
        let aa = if a < i { a } else { a + 1 };
        let bb = if b < i { b } else { b + 1 };
        assert(rm[a] == pairs[aa]);
        assert(rm[b] == pairs[bb]);
    }
    let k = pairs[i].0@;
    if i == pairs.len() - 1 {
        assert(rm == pairs.drop_last());
        let d = pairs.drop_last();
        assert forall|j: int| 0 <= j < d.len() implies (#[trigger] d[j]).0@ != k by {
            assert(d[j] == pairs[j]);
        }
        lemma_time_map_absent(d, k);
        assert(time_map(rm) =~= time_map(pairs).remove(k));
    } else {
        let d = pairs.drop_last();
        assert forall|a: int, b: int| 0 <= a < b < d.len() implies (#[trigger] d[a]).0@ != (#[trigger] d[b]).0@ by {
            assert(d[a] == pairs[a]);
            assert(d[b] == pairs[b]);
        }
        assert(d[i] == pairs[i]);
        lemma_time_map_remove(d, i);
        assert(rm.drop_last() == d.remove(i));
        assert(rm.last() == pairs.last());
        assert(pairs.last().0@ != k);
        assert(time_map(rm) =~= time_map(pairs).remove(k));
    }
}

impl PendingRequests {
    /// The waiters, by correlation id.
    pub closed spec fn waiting(&self) -> Map<Seq<char>, u64> {
        time_map(self.entries@)
    }

    /// Each id occurs once.
    pub closed spec fn wf(&self) -> bool {
        distinct_keys(self.entries@)
    }

    /// No request waiting.
    pub fn new() -> (r: PendingRequests)
        ensures
            r.wf(),
            r.waiting() == Map::<Seq<char>, u64>::empty(),
    {
        PendingRequests { entries: Vec::new() }
    }

    fn find(&self, cid: &str) -> (r: Option<usize>)
        requires
            self.wf(),
        ensures
            match r {
                Some(i) => i < self.entries@.len() && self.entries@[i as int].0@ == cid@,
                None => !self.waiting().contains_key(cid@),
            },
    {
        let mut i: usize = 0;
        while i < self.entries.len()
            invariant
                i <= self.entries@.len(),
                forall|k: int| 0 <= k < i ==> (#[trigger] self.entries@[k]).0@ != cid@,
            decreases self.entries.len() - i,
        {
            if str_eq(self.entries[i].0.as_str(), cid) {
                return Some(i);
            }
            i = i + 1;
        }
        proof {
            lemma_time_map_absent(self.entries@, cid@);
        }
        None
    }

    /// Records that the waiter `ticket` waits for the response `cid`.
    pub fn insert(&mut self, cid: String, ticket: u64)
        requires
            old(self).wf(),
        ensures
            final(self).wf(),
            final(self).waiting() == old(self).waiting().insert(cid@, ticket),
    {
        match self.find(cid.as_str()) {
            Some(i) => {
                let ghost pairs = self.entries@;
                let k = self.entries[i].0.clone();
                self.entries.set(i, (k, ticket));
                proof {
                    crate::mcp::events::lemma_time_map_update(pairs, i as int, ticket);
                    assert(self.entries@ == pairs.update(i as int, (pairs[i as int].0, ticket)));
                }
            },
            None => {
                let ghost pairs = self.entries@;
                self.entries.push((cid, ticket));
                proof {
                    let np = self.entries@;
                    assert(np.drop_last() == pairs);
                    assert forall|a: int, b: int| 0 <= a < b < np.len() implies (#[trigger] np[a]).0@ != (#[trigger] np[b]).0@ by {
                        assert(np[a] == pairs[a]);
                        if b == np.len() - 1 {
                            if np[a].0@ == np[b].0@ {
                                lemma_time_map_lookup(pairs, a);
                            }
                        } else {
                            assert(np[b] == pairs[b]);
                        }
                    }
                }
            },
        }
    }

    /// Takes the waiter of `cid`, if one waits; it no longer does.
    pub fn take(&mut self, cid: &str) -> (r: Option<u64>)
        requires
            old(self).wf(),
        ensures
            final(self).wf(),
            final(self).waiting() == old(self).waiting().remove(cid@),
            r == (if old(self).waiting().contains_key(cid@) { Some(old(self).waiting()[cid@]) } else { None::<u64> }),
    {
        match self.find(cid) {
            Some(i) => {
                let ghost pairs = self.entries@;
                proof {
                    lemma_time_map_lookup(pairs, i as int);
                    lemma_time_map_remove(pairs, i as int);
                }
                let (_, ticket) = self.entries.remove(i);
                Some(ticket)
            },
            None => {
                assert(self.waiting().remove(cid@) =~= self.waiting());
                None
            },
        }
    }

    /// How many requests wait.
    pub fn len(&self) -> (r: usize)
        requires
            self.wf(),
        ensures
            r == self.waiting().len(),
    {
        proof {
            lemma_len(self.entries@);
        }
        self.entries.len()
    }
}

proof fn lemma_len(pairs: Seq<(String, u64)>)
    requires
        distinct_keys(pairs),
    ensures
        time_map(pairs).dom().finite(),
        time_map(pairs).len() == pairs.len(),
    decreases pairs.len(),
{
    if pairs.len() > 0 {
        let d = pairs.drop_last();
        assert forall|a: int, b: int| 0 <= a < b < d.len() implies (#[trigger] d[a]).0@ != (#[trigger] d[b]).0@ by {
            assert(d[a] == pairs[a]);
            assert(d[b] == pairs[b]);
        }
        lemma_len(d);
        assert forall|j: int| 0 <= j < d.len() implies (#[trigger] d[j]).0@ != pairs.last().0@ by {
            assert(d[j] == pairs[j]);
        }
        lemma_time_map_absent(d, pairs.last().0@);
    }
}

/// The kind of an incoming envelope.
#[derive(Debug, Clone, Copy, PartialEq, Eq, Structural)]
pub enum EnvelopeKind {
    Response,
    Event,
    Other,
}

/// Where an incoming envelope goes.
#[derive(Debug, Clone, Copy, PartialEq, Eq, Structural)]
pub enum Delivery {
    /// To the waiter with this ticket.
    ToWaiter(u64),
    /// A response nobody waits for (any more): dropped.
    NoWaiter,
    /// To the subscribers of events.
    Broadcast,
    /// Neither response nor event: dropped.
    Ignore,
}

/// Routes an envelope of `kind` with correlation id `cid`: a response goes
/// to its waiter, who then waits no more; an event is broadcast.
pub fn route_envelope(kind: EnvelopeKind, cid: &str, pending: &mut PendingRequests) -> (r: Delivery)
    requires
        old(pending).wf(),
    ensures
        final(pending).wf(),
        kind == EnvelopeKind::Response ==> {
            &&& final(pending).waiting() == old(pending).waiting().remove(cid@)
            &&& r == (if old(pending).waiting().contains_key(cid@) {
                Delivery::ToWaiter(old(pending).waiting()[cid@])
            } else {
                Delivery::NoWaiter
            })
        },
        kind == EnvelopeKind::Event ==> r == Delivery::Broadcast && final(pending).waiting() == old(pending).waiting(),
        kind == EnvelopeKind::Other ==> r == Delivery::Ignore && final(pending).waiting() == old(pending).waiting(),
{
    match kind {
        EnvelopeKind::Response => match pending.take(cid) {
            Some(t) => Delivery::ToWaiter(t),
            None => Delivery::NoWaiter,
        },
        EnvelopeKind::Event => Delivery::Broadcast,
        EnvelopeKind::Other => Delivery::Ignore,
    }
}

/// A response reaches its waiter at most once: once taken, the id waits
/// no more, so a second response of the same id finds nobody.
pub proof fn law_response_delivered_once(waiting: Map<Seq<char>, u64>, cid: Seq<char>)
    ensures
        !waiting.remove(cid).contains_key(cid),
{
}

/// Responses of other ids leave a waiter where it is.
pub proof fn law_other_waiters_kept(waiting: Map<Seq<char>, u64>, cid: Seq<char>, other: Seq<char>)
    requires
        waiting.contains_key(other),
        other != cid,
    ensures
        waiting.remove(cid).contains_key(other),
        waiting.remove(cid)[other] == waiting[other],
{
}

} // verus!
