//! What the performance monitor counts and keeps, in integers: request,
//! error, memory and cache counts; the request times inside the throughput
//! window; the latest latencies; and the bounded history of data points.
//! Times and latencies are in nanoseconds.
use vstd::prelude::*;

use std::collections::VecDeque;

verus! {

/// The counts the performance monitor keeps.
#[derive(Debug, Clone, Copy, PartialEq, Eq)]
pub struct PerformanceCounters {
    pub total_requests: u64,
    pub successful_requests: u64,
    pub failed_requests: u64,
    pub active_connections: u64,
    pub memory_usage_bytes: usize,
    pub peak_memory_bytes: usize,
    pub queue_depth: usize,
    pub backpressure_events: u64,
    pub cache_hits: u64,
    pub cache_total_ops: u64,
}

impl PerformanceCounters {
    /// Hits never outnumber cache lookups, and the peak memory is at least
    /// the memory in use.
    pub open spec fn wf(&self) -> bool {
        &&& self.cache_hits <= self.cache_total_ops
        &&& self.memory_usage_bytes <= self.peak_memory_bytes
    }

    /// Nothing counted yet.
    pub fn new() -> (r: PerformanceCounters)
        ensures
            r.wf(),
            r == (PerformanceCounters {
                total_requests: 0,
                successful_requests: 0,
                failed_requests: 0,
                active_connections: 0,
                memory_usage_bytes: 0,
                peak_memory_bytes: 0,
                queue_depth: 0,
                backpressure_events: 0,
                cache_hits: 0,
                cache_total_ops: 0,
            }),
    {
        PerformanceCounters {
            total_requests: 0,
            successful_requests: 0,
            failed_requests: 0,
            active_connections: 0,
            memory_usage_bytes: 0,
            peak_memory_bytes: 0,
            queue_depth: 0,
            backpressure_events: 0,
            cache_hits: 0,
            cache_total_ops: 0,
        }
    }

    /// Counts the `message_count` messages of a finished stream session as
    /// requests that succeeded.
    pub fn record_session_messages(&mut self, message_count: u64)
        requires
            old(self).total_requests + message_count <= u64::MAX,
            old(self).successful_requests + message_count <= u64::MAX,
        ensures
            *final(self) == (PerformanceCounters {
                total_requests: (old(self).total_requests + message_count) as u64,
                successful_requests: (old(self).successful_requests + message_count) as u64,
                ..*old(self)
            }),
    {
        self.total_requests = self.total_requests + message_count;
        self.successful_requests = self.successful_requests + message_count;
    }

    /// Counts one backpressure event.
    pub fn record_backpressure_event(&mut self)
        requires
            old(self).backpressure_events < u64::MAX,
        ensures
            *final(self) == (PerformanceCounters {
                backpressure_events: (old(self).backpressure_events + 1) as u64,
                ..*old(self)
            }),
    {
        self.backpressure_events = self.backpressure_events + 1;
    }

    /// Counts one failed request.
    pub fn record_error(&mut self)
        requires
            old(self).failed_requests < u64::MAX,
        ensures
            *final(self) == (PerformanceCounters { failed_requests: (old(self).failed_requests + 1) as u64, ..*old(self) }),
    {
        self.failed_requests = self.failed_requests + 1;
    }

    /// Sets the memory in use; the peak is the most ever set.
    pub fn update_memory_usage(&mut self, current_bytes: usize)
        ensures
            *final(self) == (PerformanceCounters {
                memory_usage_bytes: current_bytes,
                peak_memory_bytes: if current_bytes > old(self).peak_memory_bytes {
                    current_bytes
                } else {
                    old(self).peak_memory_bytes
                },
                ..*old(self)
            }),
            old(self).wf() ==> final(self).wf(),
    {
        self.memory_usage_bytes = current_bytes;
        if current_bytes > self.peak_memory_bytes {
            self.peak_memory_bytes = current_bytes;
        }
    }

    /// Sets the depth of the work queue.
    pub fn update_queue_depth(&mut self, depth: usize)
        ensures
            *final(self) == (PerformanceCounters { queue_depth: depth, ..*old(self) }),
    {
        self.queue_depth = depth;
    }

    /// Counts a cache lookup that hit; the counts stop at their maximum.
    pub fn record_cache_hit(&mut self)
        ensures
            *final(self) == (PerformanceCounters {
                cache_hits: old(self).cache_hits.saturating_add(1),
                cache_total_ops: old(self).cache_total_ops.saturating_add(1),
                ..*old(self)
            }),
            old(self).wf() ==> final(self).wf(),
    {
        self.cache_hits = self.cache_hits.saturating_add(1);
        self.cache_total_ops = self.cache_total_ops.saturating_add(1);
    }

    /// Counts a cache lookup that missed; the count stops at its maximum.
    pub fn record_cache_miss(&mut self)
        ensures
            *final(self) == (PerformanceCounters {
                cache_total_ops: old(self).cache_total_ops.saturating_add(1),
                ..*old(self)
            }),
            old(self).wf() ==> final(self).wf(),
    {
        self.cache_total_ops = self.cache_total_ops.saturating_add(1);
    }
}

/// How long before `now` the time `t` lies; none when `t` is later.
pub open spec fn elapsed(now: u64, t: u64) -> nat {
    if now >= t { (now - t) as nat } else { 0 }
}

/// `s` without its leading times that lie more than `window` before `now`:
/// the front is dropped up to the first time that does not.
pub open spec fn prune_before(s: Seq<u64>, now: u64, window: u64) -> Seq<u64>
    decreases s.len(),
{
    if s.len() > 0 && elapsed(now, s[0]) > window {
        prune_before(s.drop_first(), now, window)
    } else {
        s
    }
}

/// `n` copies of `t`.
pub open spec fn copies(t: u64, n: nat) -> Seq<u64> {
    Seq::new(n, |i: int| t)
}

/// The times of `s` come in order and none is after `now`.
pub open spec fn ordered_until(s: Seq<u64>, now: u64) -> bool {
    &&& forall|i: int, j: int| 0 <= i <= j < s.len() ==> s[i] <= s[j]
    &&& forall|i: int| 0 <= i < s.len() ==> s[i] <= now
}

proof fn lemma_prune_suffix(s: Seq<u64>, now: u64, window: u64)
    ensures
        exists|k: int| 0 <= k <= s.len() && prune_before(s, now, window) == s.skip(k),
        prune_before(s, now, window).len() > 0 ==> elapsed(now, prune_before(s, now, window)[0]) <= window,
    decreases s.len(),
{
    if s.len() > 0 && elapsed(now, s[0]) > window {
        lemma_prune_suffix(s.drop_first(), now, window);
        let k = choose|k: int| 0 <= k <= s.drop_first().len() && prune_before(s.drop_first(), now, window)
            == s.drop_first().skip(k);
        assert(s.drop_first().skip(k) =~= s.skip(k + 1));
    } else {
        assert(s.skip(0) =~= s);
    }
}

/// The request times inside the throughput window.
#[derive(Debug)]
pub struct ThroughputWindow {
    request_timestamps: VecDeque<u64>,
    throughput_window: u64,
}

impl ThroughputWindow {
    /// The request times kept, oldest first.
    pub closed spec fn timestamps(&self) -> Seq<u64> {
        self.request_timestamps@
    }

    /// The length of the window.
    pub closed spec fn window(&self) -> u64 {
        self.throughput_window
    }

    /// An empty window of `window_nanos`.
    pub fn new(window_nanos: u64) -> (r: ThroughputWindow)
        ensures
            r.timestamps() == Seq::<u64>::empty(),
            r.window() == window_nanos,
    {
        ThroughputWindow { request_timestamps: VecDeque::new(), throughput_window: window_nanos }
    }

    /// The length of the window.
    pub fn window_nanos(&self) -> (r: u64)
        ensures
            r == self.window(),
    {
        self.throughput_window
    }

    /// Records `message_count` requests at `now`: the times that lie more
    /// than the window before `now` are dropped from the front, up to the
    /// first that does not, and `now` is added once per request. When the
    /// times came in order up to `now`, they still do, and every time kept
    /// lies within the window of `now`.
    pub fn update_throughput(&mut self, message_count: u64, now: u64)
        ensures
            final(self).window() == old(self).window(),
            final(self).timestamps() == prune_before(old(self).timestamps(), now, old(self).window()) + copies(
                now,
                message_count as nat,
            ),
            ordered_until(old(self).timestamps(), now) ==> ordered_until(final(self).timestamps(), now) && forall|
                i: int,
            |
                0 <= i < final(self).timestamps().len() ==> elapsed(now, #[trigger] final(self).timestamps()[i])
                    <= final(self).window(),
    {
        let ghost start = self.request_timestamps@;
        let w = self.throughput_window;
        assert(start.skip(0) =~= start);
        loop
            invariant
                self.throughput_window == w,
                prune_before(self.request_timestamps@, now, w) == prune_before(start, now, w),
                exists|k: int| 0 <= k <= start.len() && self.request_timestamps@ == start.skip(k),
            ensures
                self.throughput_window == w,
                self.request_timestamps@ == prune_before(start, now, w),
            decreases self.request_timestamps@.len(),
        {
            if self.request_timestamps.len() == 0 {
                break;
            }
            let front = self.request_timestamps[0];
            let old_enough = if now >= front { now - front > w } else { false };
            if !old_enough {
                break;
            }
            let ghost before = self.request_timestamps@;
            let _ = self.request_timestamps.pop_front();
            proof {
                assert(self.request_timestamps@ =~= before.drop_first());
                let k = choose|k: int| 0 <= k <= start.len() && before == start.skip(k);
                assert(start.skip(k + 1) =~= before.drop_first());
            }
        }
        let ghost pruned = self.request_timestamps@;
        let mut i: u64 = 0;
        while i < message_count
            invariant
                i <= message_count,
                self.throughput_window == w,
                self.request_timestamps@ == pruned + copies(now, i as nat),
            decreases message_count - i,
        {
            self.request_timestamps.push_back(now);
            i = i + 1;
            assert(self.request_timestamps@ =~= pruned + copies(now, i as nat));
        }
        proof {
            lemma_prune_suffix(start, now, w);
            let fin = self.request_timestamps@;
            if ordered_until(start, now) {
                let k = choose|k: int| 0 <= k <= start.len() && prune_before(start, now, w) == start.skip(k);
                assert forall|a: int, b: int| 0 <= a <= b < fin.len() implies fin[a] <= fin[b] by {
                    if b < pruned.len() {
                        assert(fin[a] == start[a + k]);
                        assert(fin[b] == start[b + k]);
                    } else if a < pruned.len() {
                        assert(fin[a] == start[a + k]);
                    }
                }
                assert forall|a: int| 0 <= a < fin.len() implies elapsed(now, #[trigger] fin[a]) <= w by {
                    if a < pruned.len() {
                        assert(fin[a] == start[a + k]);
                        assert(fin[0] == start[k]);
                        assert(start[k] <= start[a + k]);
                    }
                }
            }
        }
    }

    /// How many request times are kept.
    pub fn request_count(&self) -> (r: usize)
        ensures
            r == self.timestamps().len(),
    {
        self.request_timestamps.len()
    }
}

/// The latest latencies, at most the given number of them.
#[derive(Debug)]
pub struct LatencySamples {
    latency_samples: VecDeque<u64>,
    max_latency_samples: usize,
}

impl LatencySamples {
    /// The latencies kept, oldest first.
    pub closed spec fn samples(&self) -> Seq<u64> {
        self.latency_samples@
    }

    /// How many latencies are kept at most.
    pub closed spec fn capacity(&self) -> usize {
        self.max_latency_samples
    }

    /// No latency yet; at most `max_latency_samples` are kept.
    pub fn new(max_latency_samples: usize) -> (r: LatencySamples)
        ensures
            r.samples() == Seq::<u64>::empty(),
            r.capacity() == max_latency_samples,
    {
        LatencySamples { latency_samples: VecDeque::new(), max_latency_samples }
    }

    /// Adds a latency; when that makes one more than the most kept, the
    /// oldest goes.
    pub fn update_latency(&mut self, latency_nanos: u64)
        ensures
            final(self).capacity() == old(self).capacity(),
            final(self).samples() == if old(self).samples().len() + 1 > old(self).capacity() {
                old(self).samples().push(latency_nanos).drop_first()
            } else {
                old(self).samples().push(latency_nanos)
            },
            old(self).samples().len() <= old(self).capacity() ==> final(self).samples().len() <= final(self).capacity(),
    {
        self.latency_samples.push_back(latency_nanos);
        if self.latency_samples.len() > self.max_latency_samples {
            let ghost pushed = self.latency_samples@;
            let _ = self.latency_samples.pop_front();
            assert(self.latency_samples@ =~= pushed.drop_first());
        }
    }

    /// The latencies kept, oldest first.
    pub fn to_vec(&self) -> (r: Vec<u64>)
        ensures
            r@ == self.samples(),
    {
        let mut out: Vec<u64> = Vec::new();
        let mut i: usize = 0;
        while i < self.latency_samples.len()
            invariant
                i <= self.latency_samples@.len(),
                out@ == self.latency_samples@.take(i as int),
            decreases self.latency_samples@.len() - i,
        {
            out.push(self.latency_samples[i]);
            i = i + 1;
            assert(out@ =~= self.latency_samples@.take(i as int));
        }
        assert(self.latency_samples@.take(i as int) =~= self.latency_samples@);
        out
    }
}

/// How many data points a history keeps: the retention over the
/// collection interval, both in seconds.
pub fn history_capacity(retention_secs: u64, interval_secs: u64) -> (r: usize)
    requires
        interval_secs > 0,
        retention_secs / interval_secs <= usize::MAX,
    ensures
        r == retention_secs / interval_secs,
{
    (retention_secs / interval_secs) as usize
}

/// The data points recorded over time, the newest last, at most the
/// capacity of them.
#[derive(Debug)]
pub struct HistoricalData<T> {
    data_points: VecDeque<T>,
    max_history_size: usize,
}

impl<T> HistoricalData<T> {
    /// The data points kept, oldest first.
    pub closed spec fn points(&self) -> Seq<T> {
        self.data_points@
    }

    /// How many data points are kept at most.
    pub closed spec fn capacity(&self) -> usize {
        self.max_history_size
    }

    /// No data point yet; at most `max_history_size` are kept.
    pub fn new(max_history_size: usize) -> (r: HistoricalData<T>)
        ensures
            r.points() == Seq::<T>::empty(),
            r.capacity() == max_history_size,
    {
        HistoricalData { data_points: VecDeque::new(), max_history_size }
    }

    /// Adds a data point, first dropping the oldest ones until there is
    /// room for it.
    pub fn add_data_point(&mut self, data_point: T)
        requires
            old(self).capacity() > 0,
        ensures
            final(self).capacity() == old(self).capacity(),
            final(self).points() == old(self).points().skip(
                if old(self).points().len() >= old(self).capacity() {
                    old(self).points().len() - old(self).capacity() + 1
                } else {
                    0
                },
            ).push(data_point),
            final(self).points().len() <= final(self).capacity(),
    {
        let ghost start = self.data_points@;
        let ghost drop: int = if start.len() >= self.max_history_size {
            start.len() - self.max_history_size + 1
        } else {
            0
        };
        assert(start.skip(0) =~= start);
        while self.data_points.len() >= self.max_history_size
            invariant
                self.max_history_size > 0,
                self.max_history_size == old(self).capacity(),
                start == old(self).points(),
                drop == (if start.len() >= self.max_history_size { start.len() - self.max_history_size + 1 } else { 0 }),
                exists|k: int| 0 <= k <= drop && self.data_points@ == start.skip(k),
            decreases self.data_points@.len(),
        {
            let ghost before = self.data_points@;
            let _ = self.data_points.pop_front();
            proof {
                let k = choose|k: int| 0 <= k <= drop && before == start.skip(k);
                assert(start.skip(k + 1) =~= before.drop_first());
            }
        }
        proof {
            let k = choose|k: int| 0 <= k <= drop && self.data_points@ == start.skip(k);
            assert(k == drop);
        }
        self.data_points.push_back(data_point);
    }

    /// How many data points are kept at most.
    pub fn max_history_size(&self) -> (r: usize)
        ensures
            r == self.capacity(),
    {
        self.max_history_size
    }

    /// How many data points are kept.
    pub fn len(&self) -> (r: usize)
        ensures
            r == self.points().len(),
    {
        self.data_points.len()
    }
}

} // verus!
