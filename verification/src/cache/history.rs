//! A fixed-size ring buffer and the access history kept in it.
use vstd::prelude::*;

use crate::cache::keys::{operation_name, CacheKey, OperationType};
use crate::text::str_eq;

verus! {

/// The slot of the `i`-th item of a ring of `cap` slots starting at
/// `head`, for `i` below `cap`.
pub open spec fn ring_slot(head: int, i: int, cap: int) -> int {
    if head + i < cap {
        head + i
    } else {
        head + i - cap
    }
}

/// The items of a ring of `cap` slots holding `items` after `x` is
/// pushed: when it is full the oldest goes.
pub open spec fn ring_pushed<T>(items: Seq<T>, cap: nat, x: T) -> Seq<T> {
    if items.len() < cap {
        items.push(x)
    } else {
        items.drop_first().push(x)
    }
}

/// The items after each of `xs` is pushed in turn.
pub open spec fn ring_pushed_all<T>(items: Seq<T>, cap: nat, xs: Seq<T>) -> Seq<T>
    decreases xs.len(),
{
    if xs.len() == 0 {
        items
    } else {
        ring_pushed(ring_pushed_all(items, cap, xs.drop_last()), cap, xs.last())
    }
}

/// The newest `cap` items of `s`, oldest first.
pub open spec fn newest<T>(s: Seq<T>, cap: nat) -> Seq<T> {
    if s.len() <= cap {
        s
    } else {
        s.skip(s.len() - cap)
    }
}

/// A ring of `cap` slots, pushed any items one after another, holds the
/// newest `cap` of what it held and what was pushed, oldest first.
pub proof fn law_ring_keeps_newest<T>(items: Seq<T>, cap: nat, xs: Seq<T>)
    requires
        cap > 0,
        items.len() <= cap,
    ensures
        ring_pushed_all(items, cap, xs) == newest(items + xs, cap),
    decreases xs.len(),
{
    if xs.len() == 0 {
        assert(items + xs =~= items);
    } else {
        let ys = xs.drop_last();
        law_ring_keeps_newest(items, cap, ys);
        let q = items + ys;
        assert(items + xs =~= q.push(xs.last()));
        if q.len() < cap {
        } else {
            let p = newest(q, cap);
            assert(p.len() == cap);
            assert(p.drop_first().push(xs.last()) =~= q.push(xs.last()).skip(q.len() + 1 - cap));
        }
    }
}

/// A ring buffer that keeps the last `capacity` items pushed.
#[derive(Debug)]
pub struct CircularBuffer<T> {
    buffer: Vec<Option<T>>,
    capacity: usize,
    head: usize,
    tail: usize,
    size: usize,
}

impl<T> CircularBuffer<T> {
    /// The items held, oldest first.
    pub closed spec fn items(&self) -> Seq<T> {
        Seq::new(self.size as nat, |i: int| self.buffer@[ring_slot(self.head as int, i, self.capacity as int)]->Some_0)
    }

    /// How many items the buffer keeps.
    pub closed spec fn cap(&self) -> nat {
        self.capacity as nat
    }

    /// The slots hold the items from `head` on, `tail` is the next free
    /// slot.
    pub closed spec fn wf(&self) -> bool {
        &&& self.buffer@.len() == self.capacity
        &&& self.size <= self.capacity
        &&& self.capacity > 0 ==> self.head < self.capacity && self.tail < self.capacity
            && self.tail == ring_slot(self.head as int, self.size as int, self.capacity as int)
        &&& self.capacity == 0 ==> self.size == 0
        &&& forall|i: int| 0 <= i < self.size
            ==> (#[trigger] self.buffer@[ring_slot(self.head as int, i, self.capacity as int)]) is Some
    }

    /// An empty buffer of `capacity` slots.
    pub fn new(capacity: usize) -> (r: CircularBuffer<T>)
        ensures
            r.wf(),
            r.cap() == capacity,
            r.items() == Seq::<T>::empty(),
    {
        let mut buffer: Vec<Option<T>> = Vec::new();
        let mut i: usize = 0;
        while i < capacity
            invariant
                i <= capacity,
                buffer@.len() == i,
            decreases capacity - i,
        {
            buffer.push(None);
            i = i + 1;
        }
        let r = CircularBuffer { buffer, capacity, head: 0, tail: 0, size: 0 };
        assert(r.items() =~= Seq::<T>::empty());
        r
    }

    /// Adds `item`; when the buffer is full the oldest item goes.
    pub fn push(&mut self, item: T)
        requires
            old(self).wf(),
            old(self).cap() > 0,
        ensures
            final(self).wf(),
            final(self).cap() == old(self).cap(),
            old(self).items().len() < old(self).cap() ==> final(self).items() == old(self).items().push(item),
            old(self).items().len() == old(self).cap() ==> final(self).items() == old(self).items().drop_first().push(item),
            final(self).items() == ring_pushed(old(self).items(), old(self).cap(), item),
    {
        let ghost old_items = self.items();
        let ghost cap = self.capacity as int;
        let ghost h = self.head as int;
        let ghost n = self.size as int;
        let t = self.tail;
        self.buffer.set(t, Some(item));
        self.tail = if self.tail + 1 == self.capacity { 0 } else { self.tail + 1 };
        if self.size < self.capacity {
            self.size = self.size + 1;
            proof {
                assert forall|i: int| 0 <= i < n implies
                    #[trigger] self.buffer@[ring_slot(h, i, cap)] == old(self).buffer@[ring_slot(h, i, cap)] by {
                }
                assert forall|i: int| 0 <= i < self.size implies
                    (#[trigger] self.buffer@[ring_slot(self.head as int, i, cap)]) is Some by {
                    if i < n {
                        assert(old(self).buffer@[ring_slot(h, i, cap)] is Some);
                    }
                }
                assert(self.items() =~= old_items.push(item));
            }
        } else {
            self.head = if self.head + 1 == self.capacity { 0 } else { self.head + 1 };
            proof {
                let h2 = self.head as int;
                assert forall|i: int| 0 <= i < n implies
                    #[trigger] ring_slot(h2, i, cap) == ring_slot(h, i + 1, cap) by {
                }
                assert forall|i: int| 0 <= i < n - 1 implies
                    #[trigger] self.buffer@[ring_slot(h, i + 1, cap)] == old(self).buffer@[ring_slot(h, i + 1, cap)] by {
                }
                assert forall|i: int| 0 <= i < self.size implies
                    (#[trigger] self.buffer@[ring_slot(h2, i, cap)]) is Some by {
                    assert(ring_slot(h2, i, cap) == ring_slot(h, i + 1, cap));
                    if i < n - 1 {
                        assert(old(self).buffer@[ring_slot(h, i + 1, cap)] is Some);
                    }
                }
                assert(self.items() =~= old_items.drop_first().push(item)) by {
                    assert forall|i: int| 0 <= i < n implies #[trigger] self.items()[i] == old_items.drop_first().push(item)[i] by {
                        assert(ring_slot(h2, i, cap) == ring_slot(h, i + 1, cap));
                    }
                }
            }
        }
    }

    /// The number of items held.
    pub fn len(&self) -> (r: usize)
        requires
            self.wf(),
        ensures
            r == self.items().len(),
    {
        self.size
    }

    /// The items held, oldest first.
    pub fn iter(&self) -> (r: CircularBufferIterator<'_, T>)
        requires
            self.wf(),
        ensures
            r.wf(),
            r.remaining_items() == self.items(),
    {
        CircularBufferIterator { buffer: &self.buffer, capacity: self.capacity, current: self.head, remaining: self.size }
    }

    /// Drops every item.
    pub fn clear(&mut self)
        requires
            old(self).wf(),
        ensures
            final(self).wf(),
            final(self).cap() == old(self).cap(),
            final(self).items() == Seq::<T>::empty(),
    {
        let mut i: usize = 0;
        while i < self.buffer.len()
            invariant
                i <= self.buffer@.len(),
                self.buffer@.len() == self.capacity,
                self.capacity == old(self).capacity,
            decreases self.buffer@.len() - i,
        {
            self.buffer.set(i, None);
            i = i + 1;
        }
        self.head = 0;
        self.tail = 0;
        self.size = 0;
        assert(self.items() =~= Seq::<T>::empty());
    }
}

/// Walks the items of a ring buffer, oldest first.
pub struct CircularBufferIterator<'a, T> {
    buffer: &'a Vec<Option<T>>,
    capacity: usize,
    current: usize,
    remaining: usize,
}

impl<'a, T> CircularBufferIterator<'a, T> {
    /// The items still to come, in order.
    pub closed spec fn remaining_items(&self) -> Seq<T> {
        Seq::new(self.remaining as nat, |i: int| self.buffer@[ring_slot(self.current as int, i, self.capacity as int)]->Some_0)
    }

    /// The slots to come hold items.
    pub closed spec fn wf(&self) -> bool {
        &&& self.buffer@.len() == self.capacity
        &&& self.remaining <= self.capacity
        &&& self.capacity > 0 ==> self.current < self.capacity
        &&& self.capacity == 0 ==> self.remaining == 0
        &&& forall|i: int| 0 <= i < self.remaining
            ==> (#[trigger] self.buffer@[ring_slot(self.current as int, i, self.capacity as int)]) is Some
    }

    /// The next item, if any.
    pub fn next(&mut self) -> (r: Option<&'a T>)
        requires
            old(self).wf(),
        ensures
            final(self).wf(),
            old(self).remaining_items().len() == 0 ==> r is None && final(self).remaining_items().len() == 0,
            old(self).remaining_items().len() > 0 ==> r == Some(&old(self).remaining_items()[0])
                && final(self).remaining_items() == old(self).remaining_items().drop_first(),
    {
        if self.remaining == 0 {
            return None;
        }
        let ghost cap = self.capacity as int;
        let ghost c = self.current as int;
        let ghost old_items = self.remaining_items();
        assert(ring_slot(c, 0, cap) == c);
        assert(self.buffer@[ring_slot(c, 0, cap)] is Some);
        let item = self.buffer[self.current].as_ref();
        self.current = if self.current + 1 == self.capacity { 0 } else { self.current + 1 };
        self.remaining = self.remaining - 1;
        proof {
            let c2 = self.current as int;
            assert forall|i: int| 0 <= i < self.remaining implies
                #[trigger] ring_slot(c2, i, cap) == ring_slot(c, i + 1, cap) by {
            }
            assert forall|i: int| 0 <= i < self.remaining implies
                (#[trigger] self.buffer@[ring_slot(c2, i, cap)]) is Some by {
                assert(ring_slot(c2, i, cap) == ring_slot(c, i + 1, cap));
            }
            assert(self.remaining_items() =~= old_items.drop_first()) by {
                assert forall|i: int| 0 <= i < self.remaining implies #[trigger] self.remaining_items()[i] == old_items.drop_first()[i] by {
                    assert(ring_slot(c2, i, cap) == ring_slot(c, i + 1, cap));
                }
            }
        }
        item
    }
}

/// One access to the cache.
#[derive(Debug, Clone)]
pub struct AccessRecord {
    /// When it happened, in nanoseconds on the cache's clock.
    pub timestamp: u64,
    pub cache_key: CacheKey,
    pub hit: bool,
    /// How long it took, in nanoseconds.
    pub response_time: u64,
}

/// The map that a list of (name, count) pairs with distinct names stands for.
pub open spec fn frequency_map(pairs: Seq<(String, u64)>) -> Map<Seq<char>, u64>
    decreases pairs.len(),
{
    if pairs.len() == 0 {
        Map::empty()
    } else {
        frequency_map(pairs.drop_last()).insert(pairs.last().0@, pairs.last().1)
    }
}

/// Predicts accesses; it has no state.
#[derive(Debug)]
pub struct CachePredictor;

/// Records accesses to the cache and how often each kind of operation is
/// asked for.
#[derive(Debug)]
pub struct AccessPatternAnalyzer {
    access_history: CircularBuffer<AccessRecord>,
    operation_frequency: Vec<(String, u64)>,
    predictor: Option<CachePredictor>,
}

impl AccessPatternAnalyzer {
    /// The accesses kept, oldest first.
    pub closed spec fn history(&self) -> Seq<AccessRecord> {
        self.access_history.items()
    }

    /// How many accesses the history keeps.
    pub closed spec fn history_cap(&self) -> nat {
        self.access_history.cap()
    }

    /// How often each operation kind was asked for, by name.
    pub closed spec fn frequency(&self) -> Map<Seq<char>, u64> {
        crate::validation::monitor::count_map(self.operation_frequency@)
    }

    /// The history is well formed and each kind is counted in one place.
    pub closed spec fn wf(&self) -> bool {
        self.access_history.wf() && self.access_history.cap() > 0
            && crate::validation::monitor::distinct_keys(self.operation_frequency@)
    }

    /// An analyzer keeping 5000 accesses when pattern learning is on, else
    /// 100.
    pub fn new(enable_pattern_learning: bool) -> (r: AccessPatternAnalyzer)
        ensures
            r.wf(),
            r.history_cap() == (if enable_pattern_learning { 5000nat } else { 100nat }),
            r.history() == Seq::<AccessRecord>::empty(),
            r.frequency() == Map::<Seq<char>, u64>::empty(),
    {
        let capacity: usize = if enable_pattern_learning { 5000 } else { 100 };
        AccessPatternAnalyzer {
            access_history: CircularBuffer::new(capacity),
            operation_frequency: Vec::new(),
            predictor: None,
        }
    }

    /// Records `record`: it joins the history, and its operation kind's
    /// count goes up by one (staying at `u64::MAX` once there).
    pub fn record_access(&mut self, record: AccessRecord)
        requires
            old(self).wf(),
        ensures
            final(self).wf(),
            final(self).history_cap() == old(self).history_cap(),
            old(self).history().len() < old(self).history_cap() ==> final(self).history() == old(self).history().push(record),
            old(self).history().len() == old(self).history_cap() ==> final(self).history() == old(self).history().drop_first().push(record),
            final(self).frequency() == old(self).frequency().insert(
                operation_name(record.cache_key.operation_type),
                if old(self).frequency().contains_key(operation_name(record.cache_key.operation_type)) {
                    let n = old(self).frequency()[operation_name(record.cache_key.operation_type)];
                    if n == u64::MAX { u64::MAX } else { (n + 1) as u64 }
                } else {
                    1
                },
            ),
    {
        let op: OperationType = record.cache_key.operation_type;
        let name = String::from_str(op.as_str());
        self.access_history.push(record);
        crate::validation::monitor::bump_count(&mut self.operation_frequency, name);
    }
}

} // verus!
