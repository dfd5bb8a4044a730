//! Pools of reusable objects: services, validation engines and buffers.
use vstd::prelude::*;

use crate::grpc::service::UnityMcpServiceImpl;
use crate::text::concat2;
use crate::validation::engine::StreamValidationEngine;

verus! {

/// An object waiting in a pool, with when it was last used (nanoseconds).
struct PooledItem<T> {
    object: T,
    created_at: u64,
    last_used: u64,
    use_count: u64,
}

/// Counters of a pool.
#[derive(Debug, Clone, Copy)]
pub struct ObjectPoolStats {
    pub total_created: u64,
    pub total_acquired: u64,
    pub total_returned: u64,
    pub current_active: u64,
    pub current_available: usize,
    pub avg_acquisition_time_ns: u64,
}

/// All counters at zero.
pub open spec fn zero_stats() -> ObjectPoolStats {
    ObjectPoolStats {
        total_created: 0,
        total_acquired: 0,
        total_returned: 0,
        current_active: 0,
        current_available: 0,
        avg_acquisition_time_ns: 0,
    }
}

impl ObjectPoolStats {
    /// All counters at zero.
    pub fn zero() -> (r: ObjectPoolStats)
        ensures
            r == zero_stats(),
    {
        ObjectPoolStats {
            total_created: 0,
            total_acquired: 0,
            total_returned: 0,
            current_active: 0,
            current_available: 0,
            avg_acquisition_time_ns: 0,
        }
    }
}

/// The time from `last` to `now`, or none if `last` is later.
pub open spec fn idle_time(now: u64, last: u64) -> int {
    if now >= last { now - last } else { 0 }
}

/// `idx` picks `m` of `n` positions, in increasing order.
pub open spec fn picks(idx: Seq<int>, n: nat, m: nat) -> bool {
    &&& idx.len() == m
    &&& forall|j: int| 0 <= j < m ==> 0 <= #[trigger] idx[j] < n
    &&& forall|j: int, k: int| 0 <= j < k < m ==> #[trigger] idx[j] < #[trigger] idx[k]
}

/// A pool of objects of type `T`, kept from the front (oldest returned
/// first) and trimmed from the back.
pub struct ObjectPool<T> {
    available_objects: Vec<PooledItem<T>>,
    max_size: usize,
    min_size: usize,
    stats: ObjectPoolStats,
}

impl<T> ObjectPool<T> {
    /// The objects waiting, front first.
    pub closed spec fn items(&self) -> Seq<T> {
        self.available_objects@.map_values(|p: PooledItem<T>| p.object)
    }

    /// When each waiting object was last used, front first.
    pub closed spec fn last_used(&self) -> Seq<u64> {
        self.available_objects@.map_values(|p: PooledItem<T>| p.last_used)
    }

    /// The most objects kept waiting.
    pub closed spec fn max(&self) -> nat {
        self.max_size as nat
    }

    /// The fewest objects a cleanup keeps.
    pub closed spec fn min(&self) -> nat {
        self.min_size as nat
    }

    /// The counters.
    pub closed spec fn counters(&self) -> ObjectPoolStats {
        self.stats
    }

    /// No more objects wait than the pool keeps.
    pub closed spec fn wf(&self) -> bool {
        self.available_objects@.len() <= self.max_size
    }

    /// An empty pool that keeps at most `max_size` objects waiting and
    /// trims to no fewer than `min_size`.
    pub fn new(max_size: usize, min_size: usize) -> (r: ObjectPool<T>)
        ensures
            r.wf(),
            r.items() == Seq::<T>::empty(),
            r.max() == max_size,
            r.min() == min_size,
            r.counters() == zero_stats(),
    {
        ObjectPool { available_objects: Vec::new(), max_size, min_size, stats: ObjectPoolStats::zero() }
    }

    /// An object: the one at the front when any waits (a hit), else a new
    /// one from `factory` (a miss). Either way one more is acquired and
    /// active; a hit also records how many are left, a miss one more
    /// created.
    pub fn get<F: Fn() -> T>(&mut self, factory: &F) -> (r: T)
        requires
            old(self).wf(),
            factory.requires(()),
            old(self).counters().total_acquired < u64::MAX,
            old(self).counters().total_created < u64::MAX,
            old(self).counters().current_active < u64::MAX,
        ensures
            final(self).wf(),
            final(self).max() == old(self).max(),
            final(self).min() == old(self).min(),
            old(self).items().len() > 0 ==> {
                &&& r == old(self).items()[0]
                &&& final(self).items() == old(self).items().drop_first()
                &&& final(self).last_used() == old(self).last_used().drop_first()
                &&& final(self).counters() == (ObjectPoolStats {
                    total_acquired: (old(self).counters().total_acquired + 1) as u64,
                    current_active: (old(self).counters().current_active + 1) as u64,
                    current_available: (old(self).items().len() - 1) as usize,
                    ..old(self).counters()
                })
            },
            old(self).items().len() == 0 ==> {
                &&& factory.ensures((), r)
                &&& final(self).items() == old(self).items()
                &&& final(self).last_used() == old(self).last_used()
                &&& final(self).counters() == (ObjectPoolStats {
                    total_created: (old(self).counters().total_created + 1) as u64,
                    total_acquired: (old(self).counters().total_acquired + 1) as u64,
                    current_active: (old(self).counters().current_active + 1) as u64,
                    ..old(self).counters()
                })
            },
    {
        if self.available_objects.len() > 0 {
            let ghost before = self.available_objects@;
            let item = self.available_objects.remove(0);
            proof {
                assert(self.available_objects@ == before.drop_first());
                assert(self.items() =~= before.map_values(|p: PooledItem<T>| p.object).drop_first());
                assert(self.last_used() =~= before.map_values(|p: PooledItem<T>| p.last_used).drop_first());
            }
            self.stats.total_acquired = self.stats.total_acquired + 1;
            self.stats.current_active = self.stats.current_active + 1;
            self.stats.current_available = self.available_objects.len();
            item.object
        } else {
            let object = factory();
            self.stats.total_created = self.stats.total_created + 1;
            self.stats.total_acquired = self.stats.total_acquired + 1;
            self.stats.current_active = self.stats.current_active + 1;
            object
        }
    }

    /// Takes back `object` at `now`: it waits at the back unless the pool
    /// is full, when it is dropped. One more is returned and one fewer
    /// active, not below zero.
    pub fn return_object(&mut self, object: T, now: u64)
        requires
            old(self).wf(),
            old(self).counters().total_returned < u64::MAX,
        ensures
            final(self).wf(),
            final(self).max() == old(self).max(),
            final(self).min() == old(self).min(),
            old(self).items().len() < old(self).max() ==> final(self).items() == old(self).items().push(object)
                && final(self).last_used() == old(self).last_used().push(now),
            old(self).items().len() >= old(self).max() ==> final(self).items() == old(self).items()
                && final(self).last_used() == old(self).last_used(),
            final(self).counters() == (ObjectPoolStats {
                total_returned: (old(self).counters().total_returned + 1) as u64,
                current_active: if old(self).counters().current_active == 0 { 0 } else { (old(self).counters().current_active - 1) as u64 },
                ..old(self).counters()
            }),
    {
        if self.available_objects.len() < self.max_size {
            let ghost before = self.available_objects@;
            self.available_objects.push(PooledItem { object, created_at: now, last_used: now, use_count: 0 });
            proof {
                assert(self.items() =~= before.map_values(|p: PooledItem<T>| p.object).push(object));
                assert(self.last_used() =~= before.map_values(|p: PooledItem<T>| p.last_used).push(now));
            }
        }
        self.stats.total_returned = self.stats.total_returned + 1;
        self.stats.current_active = if self.stats.current_active == 0 { 0 } else { self.stats.current_active - 1 };
    }

    /// Drops the objects idle for more than `max_idle` nanoseconds at
    /// `now`, oldest first, while more than the minimum wait: the others
    /// keep their order, none is dropped that is not idle that long, and
    /// while more than the minimum remain, none that is stays.
    pub fn cleanup_idle_objects(&mut self, max_idle: u64, now: u64)
        requires
            old(self).wf(),
        ensures
            final(self).wf(),
            final(self).cleaned_from(*old(self), max_idle, now),
    {
        let ghost orig = self.available_objects@;
        let ghost times = old(self).last_used();
        let ghost objs = old(self).items();
        let n = self.available_objects.len();
        let mut rest: Vec<PooledItem<T>> = Vec::new();
        std::mem::swap(&mut rest, &mut self.available_objects);
        let mut kept: Vec<PooledItem<T>> = Vec::new();
        let ghost mut idx: Seq<int> = Seq::empty();
        let mut i: usize = 0;
        assert(orig.skip(0) =~= orig);
        while i < n
            invariant
                n == orig.len(),
                i <= n,
                rest@ == orig.skip(i as int),
                kept@.len() <= i,
                picks(idx, i as nat, kept@.len()),
                forall|j: int| 0 <= j < kept@.len() ==> #[trigger] kept@[j] == orig[idx[j]],
                forall|q: int| 0 <= q < i && !idx.contains(q) ==> idle_time(now, #[trigger] orig[q].last_used) > max_idle,
                kept@.len() + (n - i) >= (if n <= self.min_size { n as int } else { self.min_size as int }),
                kept@.len() + (n - i) > self.min_size ==> forall|j: int| 0 <= j < kept@.len() ==> idle_time(now, #[trigger] kept@[j].last_used) <= max_idle,
                self.min_size == old(self).min_size,
                self.max_size == old(self).max_size,
                self.stats == old(self).stats,
            decreases n - i,
        {
            let ghost before_rest = rest@;
            let item = rest.remove(0);
            assert(rest@ =~= orig.skip(i + 1));
            assert(item == orig[i as int]);
            let last = item.last_used;
            let idle: u64 = if now >= last { now - last } else { 0 };
            if idle > max_idle && kept.len() + (n - i) > self.min_size {
                proof {
                    assert forall|q: int| 0 <= q < i + 1 && !idx.contains(q) implies idle_time(now, #[trigger] orig[q].last_used) > max_idle by {
                    }
                }
            } else {
                let ghost old_kept = kept@;
                let ghost old_idx = idx;
                kept.push(item);
                proof {
                    idx = idx.push(i as int);
                    assert forall|j: int| 0 <= j < kept@.len() implies #[trigger] kept@[j] == orig[idx[j]] by {
                        if j < old_kept.len() {
                            assert(kept@[j] == old_kept[j]);
                            assert(idx[j] == old_idx[j]);
                        }
                    }
                    assert forall|q: int| 0 <= q < i + 1 && !idx.contains(q) implies idle_time(now, #[trigger] orig[q].last_used) > max_idle by {
                        if q < i {
                            if old_idx.contains(q) {
                                let w = choose|w: int| 0 <= w < old_idx.len() && old_idx[w] == q;
                                assert(idx[w] == q);
                            }
                        } else {
                            assert(idx[idx.len() - 1] == q);
                        }
                    }
                }
            }
            i = i + 1;
        }
        self.available_objects = kept;
        proof {
            assert(self.items().len() == idx.len());
            assert forall|j: int| 0 <= j < self.items().len() implies self.items()[j] == objs[idx[j]]
                && self.last_used()[j] == times[idx[j]] by {
                assert(self.items()[j] == self.available_objects@[j].object);
            }
            assert forall|q: int| 0 <= q < objs.len() && !idx.contains(q) implies idle_time(now, times[q]) > max_idle by {
                assert(times[q] == orig[q].last_used);
            }
            if self.items().len() > self.min_size {
                assert forall|j: int| 0 <= j < self.last_used().len() implies idle_time(now, #[trigger] self.last_used()[j]) <= max_idle by {
                    assert(self.last_used()[j] == self.available_objects@[j].last_used);
                }
            }
        }
    }

    /// Fills the pool with up to `count` new objects from `factory`, last
    /// used at `now`, stopping when it is full.
    pub fn preallocate<F: Fn() -> T>(&mut self, count: usize, factory: &F, now: u64)
        requires
            old(self).wf(),
            factory.requires(()),
        ensures
            final(self).wf(),
            final(self).max() == old(self).max(),
            final(self).min() == old(self).min(),
            final(self).counters() == old(self).counters(),
            final(self).items().len() == (if old(self).items().len() + count <= old(self).max() {
                (old(self).items().len() + count) as int
            } else {
                old(self).max() as int
            }),
            final(self).items().take(old(self).items().len() as int) == old(self).items(),
            forall|i: int| old(self).items().len() <= i < final(self).items().len()
                ==> factory.ensures((), #[trigger] final(self).items()[i]),
    {
        let ghost start = self.items();
        let ghost n0 = start.len();
        let mut made: usize = 0;
        while made < count
            invariant_except_break
                self.available_objects@.len() <= self.max_size,
                made <= count,
                self.available_objects@.len() == n0 + made,
                self.items().take(n0 as int) == start,
                forall|i: int| n0 <= i < self.items().len() ==> factory.ensures((), #[trigger] self.items()[i]),
                self.stats == old(self).stats,
                self.max_size == old(self).max_size,
                self.min_size == old(self).min_size,
                factory.requires(()),
            ensures
                self.available_objects@.len() <= self.max_size,
                self.available_objects@.len() == (if n0 + count <= self.max_size { n0 + count } else { self.max_size as int }),
                self.items().take(n0 as int) == start,
                forall|i: int| n0 <= i < self.items().len() ==> factory.ensures((), #[trigger] self.items()[i]),
                self.stats == old(self).stats,
                self.max_size == old(self).max_size,
                self.min_size == old(self).min_size,
            decreases count - made,
        {
            if self.available_objects.len() >= self.max_size {
                break;
            }
            let object = factory();
            let ghost before = self.available_objects@;
            self.available_objects.push(PooledItem { object, created_at: now, last_used: now, use_count: 0 });
            proof {
                assert(self.items() =~= before.map_values(|p: PooledItem<T>| p.object).push(object));
                assert(self.items().take(n0 as int) =~= before.map_values(|p: PooledItem<T>| p.object).take(n0 as int));
            }
            made = made + 1;
        }
    }

    /// `self` is `before` taken back at `now`: `object` waits at the back
    /// unless `before` was full, one more is returned and one fewer active,
    /// not below zero.
    pub open spec fn returned_from(self, before: ObjectPool<T>, object: T, now: u64) -> bool {
        &&& self.max() == before.max()
        &&& self.min() == before.min()
        &&& before.items().len() < before.max() ==> self.items() == before.items().push(object)
            && self.last_used() == before.last_used().push(now)
        &&& before.items().len() >= before.max() ==> self.items() == before.items()
            && self.last_used() == before.last_used()
        &&& self.counters() == (ObjectPoolStats {
            total_returned: (before.counters().total_returned + 1) as u64,
            current_active: if before.counters().current_active == 0 { 0 } else { (before.counters().current_active - 1) as u64 },
            ..before.counters()
        })
    }

    /// `self` is `before` cleaned at `now` of objects idle for more than
    /// `max_idle`: the objects kept are some of those waiting, in their
    /// order, at least the minimum of them (or all, when fewer wait); every
    /// object dropped was idle that long; and while more than the minimum
    /// remain, none kept is. Sizes and counters are unchanged.
    pub open spec fn cleaned_from(self, before: ObjectPool<T>, max_idle: u64, now: u64) -> bool {
        &&& self.max() == before.max()
        &&& self.min() == before.min()
        &&& self.counters() == before.counters()
        &&& self.items().len() == self.last_used().len()
        &&& before.items().len() == before.last_used().len()
        &&& self.items().len() >= (if before.items().len() <= before.min() { before.items().len() } else { before.min() })
        &&& exists|idx: Seq<int>| {
            &&& picks(idx, before.items().len(), self.items().len())
            &&& forall|j: int| 0 <= j < self.items().len() ==> self.items()[j] == before.items()[#[trigger] idx[j]]
                && self.last_used()[j] == before.last_used()[idx[j]]
            &&& forall|q: int| 0 <= q < before.items().len() && !idx.contains(q)
                ==> idle_time(now, #[trigger] before.last_used()[q]) > max_idle
        }
        &&& self.items().len() > before.min() ==> forall|j: int| 0 <= j < self.last_used().len()
            ==> idle_time(now, #[trigger] self.last_used()[j]) <= max_idle
    }

    /// The counters after one more object is returned: one more returned,
    /// one fewer active, not below zero.
    pub open spec fn counted_return(self, before: ObjectPool<T>) -> bool {
        self.counters() == (ObjectPoolStats {
            total_returned: (before.counters().total_returned + 1) as u64,
            current_active: if before.counters().current_active == 0 { 0 } else { (before.counters().current_active - 1) as u64 },
            ..before.counters()
        })
    }

    /// A copy of the counters.
    pub fn get_stats(&self) -> (r: ObjectPoolStats)
        ensures
            r == self.counters(),
    {
        self.stats
    }

    /// How many objects wait.
    pub fn available_count(&self) -> (r: usize)
        ensures
            r == self.items().len(),
    {
        self.available_objects.len()
    }
}

/// Settings of the resource pools. Durations are in milliseconds.
#[derive(Debug, Clone)]
pub struct ResourcePoolConfig {
    pub service_pool_max: usize,
    pub service_pool_min: usize,
    pub validator_pool_max: usize,
    pub validator_pool_min: usize,
    pub buffer_pool_max: usize,
    pub buffer_pool_min: usize,
    pub buffer_initial_capacity: usize,
    pub buffer_max_capacity: usize,
    pub string_buffer_pool_max: usize,
    pub string_buffer_initial_capacity: usize,
    pub cleanup_interval_ms: u64,
    pub max_idle_time_ms: u64,
    pub enable_preallocation: bool,
}

impl Default for ResourcePoolConfig {
    /// Up to 20 services (2 kept), 10 validators (1 kept), 100 buffers of
    /// 8 KiB (10 kept, 1 MiB at most) and 50 strings of 1 KiB; a cleanup
    /// every minute of what was idle five minutes; preallocation on.
    fn default() -> (r: ResourcePoolConfig)
        ensures
            r.service_pool_max == 20 && r.service_pool_min == 2,
            r.validator_pool_max == 10 && r.validator_pool_min == 1,
            r.buffer_pool_max == 100 && r.buffer_pool_min == 10,
            r.buffer_initial_capacity == 8192 && r.buffer_max_capacity == 1048576,
            r.string_buffer_pool_max == 50 && r.string_buffer_initial_capacity == 1024,
            r.cleanup_interval_ms == 60_000 && r.max_idle_time_ms == 300_000,
            r.enable_preallocation,
    {
        ResourcePoolConfig {
            service_pool_max: 20,
            service_pool_min: 2,
            validator_pool_max: 10,
            validator_pool_min: 1,
            buffer_pool_max: 100,
            buffer_pool_min: 10,
            buffer_initial_capacity: 8192,
            buffer_max_capacity: 1048576,
            string_buffer_pool_max: 50,
            string_buffer_initial_capacity: 1024,
            cleanup_interval_ms: 60_000,
            max_idle_time_ms: 300_000,
            enable_preallocation: true,
        }
    }
}

/// Why a pool could not hand out an object.
#[derive(Debug, Clone, PartialEq, Eq)]
pub enum ResourcePoolError {
    PoolAtCapacity,
    ObjectCreationFailed(String),
    PoolShuttingDown,
    InternalError(String),
}

impl ResourcePoolError {
    /// The text the error displays.
    pub open spec fn text(&self) -> Seq<char> {
        match self {
            ResourcePoolError::PoolAtCapacity => "Pool is at capacity"@,
            ResourcePoolError::ObjectCreationFailed(s) => "Object creation failed: "@ + s@,
            ResourcePoolError::PoolShuttingDown => "Pool is shutting down"@,
            ResourcePoolError::InternalError(s) => "Internal pool error: "@ + s@,
        }
    }

    /// The text the error displays.
    pub fn display_string(&self) -> (r: String)
        ensures
            r@ == self.text(),
    {
        match self {
            ResourcePoolError::PoolAtCapacity => String::from_str("Pool is at capacity"),
            ResourcePoolError::ObjectCreationFailed(s) => concat2("Object creation failed: ", s.as_str()),
            ResourcePoolError::PoolShuttingDown => String::from_str("Pool is shutting down"),
            ResourcePoolError::InternalError(s) => concat2("Internal pool error: ", s.as_str()),
        }
    }
}

/// The counters of all the pools.
#[derive(Debug, Clone, Copy)]
pub struct PoolStatistics {
    pub service_pool_stats: ObjectPoolStats,
    pub validator_pool_stats: ObjectPoolStats,
    pub buffer_pool_stats: ObjectPoolStats,
    pub string_buffer_pool_stats: ObjectPoolStats,
    pub total_memory_allocated: usize,
    pub total_memory_in_use: usize,
}

/// Acquisitions served from a pool rather than created: acquired less
/// created, not below zero.
pub open spec fn pool_hits(s: ObjectPoolStats) -> nat {
    if s.total_acquired >= s.total_created { (s.total_acquired - s.total_created) as nat } else { 0 }
}

/// The idle time allowed, `ms` milliseconds in nanoseconds, or the most a
/// `u64` holds when that is more.
pub open spec fn idle_limit_nanos(ms: u64) -> u64 {
    if ms <= u64::MAX / 1_000_000 { (ms * 1_000_000) as u64 } else { u64::MAX }
}

/// A service made with the default settings.
pub fn make_service() -> (r: UnityMcpServiceImpl)
    ensures
        r.wf(),
{
    match UnityMcpServiceImpl::new() {
        Ok(s) => s,
        Err(_) => vstd::pervasive::unreached(),
    }
}

/// The pools of services, validation engines, byte buffers and strings.
pub struct ResourcePool {
    service_pool: ObjectPool<UnityMcpServiceImpl>,
    validator_pool: ObjectPool<StreamValidationEngine>,
    buffer_pool: ObjectPool<Vec<u8>>,
    string_buffer_pool: ObjectPool<String>,
    config: ResourcePoolConfig,
}

impl ResourcePool {
    /// The service pool.
    pub closed spec fn services(&self) -> ObjectPool<UnityMcpServiceImpl> {
        self.service_pool
    }

    /// The validator pool.
    pub closed spec fn validators(&self) -> ObjectPool<StreamValidationEngine> {
        self.validator_pool
    }

    /// The byte buffer pool.
    pub closed spec fn buffers(&self) -> ObjectPool<Vec<u8>> {
        self.buffer_pool
    }

    /// The string pool.
    pub closed spec fn strings(&self) -> ObjectPool<String> {
        self.string_buffer_pool
    }

    /// The settings.
    pub closed spec fn settings(&self) -> ResourcePoolConfig {
        self.config
    }

    /// Every pool is well formed.
    pub closed spec fn wf(&self) -> bool {
        &&& self.service_pool.wf()
        &&& self.validator_pool.wf()
        &&& self.buffer_pool.wf()
        &&& self.string_buffer_pool.wf()
        &&& forall|i: int| 0 <= i < self.service_pool.items().len() ==> (#[trigger] self.service_pool.items()[i]).wf()
        &&& forall|i: int| 0 <= i < self.validator_pool.items().len() ==> (#[trigger] self.validator_pool.items()[i]).wf()
    }

    /// Pools with `config`: each sized as it says (strings kept down to
    /// none), and, when preallocation is on, filled at `now` with the
    /// minimum of services, validators and buffers.
    pub fn with_config(config: ResourcePoolConfig, now: u64) -> (r: ResourcePool)
        ensures
            r.wf(),
            r.settings() == config,
            r.services().max() == config.service_pool_max && r.services().min() == config.service_pool_min,
            r.validators().max() == config.validator_pool_max && r.validators().min() == config.validator_pool_min,
            r.buffers().max() == config.buffer_pool_max && r.buffers().min() == config.buffer_pool_min,
            r.strings().max() == config.string_buffer_pool_max && r.strings().min() == 0,
            r.services().counters() == zero_stats(),
            r.validators().counters() == zero_stats(),
            r.buffers().counters() == zero_stats(),
            r.strings().counters() == zero_stats(),
            r.strings().items().len() == 0,
            config.enable_preallocation ==> {
                &&& r.services().items().len() == (if config.service_pool_min <= config.service_pool_max { config.service_pool_min } else { config.service_pool_max })
                &&& r.validators().items().len() == (if config.validator_pool_min <= config.validator_pool_max { config.validator_pool_min } else { config.validator_pool_max })
                &&& r.buffers().items().len() == (if config.buffer_pool_min <= config.buffer_pool_max { config.buffer_pool_min } else { config.buffer_pool_max })
                &&& forall|i: int| 0 <= i < r.buffers().items().len() ==> (#[trigger] r.buffers().items()[i])@.len() == 0
            },
            !config.enable_preallocation ==> r.services().items().len() == 0 && r.validators().items().len() == 0
                && r.buffers().items().len() == 0,
    {
        let mut service_pool: ObjectPool<UnityMcpServiceImpl> = ObjectPool::new(config.service_pool_max, config.service_pool_min);
        let mut validator_pool: ObjectPool<StreamValidationEngine> = ObjectPool::new(config.validator_pool_max, config.validator_pool_min);
        let mut buffer_pool: ObjectPool<Vec<u8>> = ObjectPool::new(config.buffer_pool_max, config.buffer_pool_min);
        let string_buffer_pool: ObjectPool<String> = ObjectPool::new(config.string_buffer_pool_max, 0);
        if config.enable_preallocation {
            let new_service = || -> (s: UnityMcpServiceImpl)
                ensures
                    s.wf(),
            {
                make_service()
            };
            let new_validator = || -> (v: StreamValidationEngine)
                ensures
                    v.wf(),
            {
                StreamValidationEngine::new()
            };
            let new_buffer = || -> (b: Vec<u8>)
                ensures
                    b@.len() == 0,
            {
                Vec::new()
            };
            service_pool.preallocate(config.service_pool_min, &new_service, now);
            validator_pool.preallocate(config.validator_pool_min, &new_validator, now);
            buffer_pool.preallocate(config.buffer_pool_min, &new_buffer, now);
        }
        ResourcePool { service_pool, validator_pool, buffer_pool, string_buffer_pool, config }
    }

    /// Pools with the default settings.
    pub fn new(now: u64) -> (r: ResourcePool)
        ensures
            r.wf(),
            r.services().items().len() == 2,
            r.validators().items().len() == 1,
            r.buffers().items().len() == 10,
    {
        ResourcePool::with_config(ResourcePoolConfig::default(), now)
    }

    /// A service, from the pool when one waits.
    pub fn get_service(&mut self) -> (r: UnityMcpServiceImpl)
        requires
            old(self).wf(),
            old(self).services().counters().total_acquired < u64::MAX,
            old(self).services().counters().total_created < u64::MAX,
            old(self).services().counters().current_active < u64::MAX,
        ensures
            final(self).wf(),
            r.wf(),
            final(self).settings() == old(self).settings(),
            old(self).services().items().len() > 0 ==> r == old(self).services().items()[0]
                && final(self).services().items() == old(self).services().items().drop_first(),
            final(self).validators() == old(self).validators(),
            final(self).buffers() == old(self).buffers(),
            final(self).strings() == old(self).strings(),
    {
        let f = || -> (s: UnityMcpServiceImpl)
            ensures
                s.wf(),
        {
            make_service()
        };
        self.service_pool.get(&f)
    }

    /// A validation engine, from the pool when one waits.
    pub fn get_validator(&mut self) -> (r: StreamValidationEngine)
        requires
            old(self).wf(),
            old(self).validators().counters().total_acquired < u64::MAX,
            old(self).validators().counters().total_created < u64::MAX,
            old(self).validators().counters().current_active < u64::MAX,
        ensures
            final(self).wf(),
            r.wf(),
            final(self).settings() == old(self).settings(),
            old(self).validators().items().len() > 0 ==> r == old(self).validators().items()[0]
                && final(self).validators().items() == old(self).validators().items().drop_first(),
            final(self).services() == old(self).services(),
            final(self).buffers() == old(self).buffers(),
            final(self).strings() == old(self).strings(),
    {
        let f = || -> (v: StreamValidationEngine)
            ensures
                v.wf(),
        {
            StreamValidationEngine::new()
        };
        self.validator_pool.get(&f)
    }

    /// A byte buffer, from the pool when one waits, else a new empty one.
    pub fn get_buffer(&mut self) -> (r: Vec<u8>)
        requires
            old(self).wf(),
            old(self).buffers().counters().total_acquired < u64::MAX,
            old(self).buffers().counters().total_created < u64::MAX,
            old(self).buffers().counters().current_active < u64::MAX,
        ensures
            final(self).wf(),
            final(self).settings() == old(self).settings(),
            old(self).buffers().items().len() > 0 ==> r == old(self).buffers().items()[0]
                && final(self).buffers().items() == old(self).buffers().items().drop_first(),
            old(self).buffers().items().len() == 0 ==> r@.len() == 0,
            final(self).services() == old(self).services(),
            final(self).validators() == old(self).validators(),
            final(self).strings() == old(self).strings(),
    {
        let f = || -> (b: Vec<u8>)
            ensures
                b@.len() == 0,
        {
            Vec::new()
        };
        self.buffer_pool.get(&f)
    }

    /// A string buffer, from the pool when one waits, else a new empty one.
    pub fn get_string_buffer(&mut self) -> (r: String)
        requires
            old(self).wf(),
            old(self).strings().counters().total_acquired < u64::MAX,
            old(self).strings().counters().total_created < u64::MAX,
            old(self).strings().counters().current_active < u64::MAX,
        ensures
            final(self).wf(),
            final(self).settings() == old(self).settings(),
            old(self).strings().items().len() > 0 ==> r == old(self).strings().items()[0]
                && final(self).strings().items() == old(self).strings().items().drop_first(),
            old(self).strings().items().len() == 0 ==> r@.len() == 0,
            final(self).services() == old(self).services(),
            final(self).validators() == old(self).validators(),
            final(self).buffers() == old(self).buffers(),
    {
        let f = || -> (s: String)
            ensures
                s@.len() == 0,
        {
            String::new()
        };
        self.string_buffer_pool.get(&f)
    }

    /// Takes back a byte buffer, emptied, at `now`.
    pub fn return_buffer(&mut self, buffer: Vec<u8>, now: u64)
        requires
            old(self).wf(),
            old(self).buffers().counters().total_returned < u64::MAX,
        ensures
            final(self).wf(),
            final(self).settings() == old(self).settings(),
            old(self).buffers().items().len() < old(self).buffers().max() ==> final(self).buffers().items().len() == old(self).buffers().items().len() + 1
                && final(self).buffers().items().last()@.len() == 0,
            old(self).buffers().items().len() < old(self).buffers().max() ==> final(self).buffers().items().drop_last() == old(self).buffers().items(),
            old(self).buffers().items().len() >= old(self).buffers().max() ==> final(self).buffers().items() == old(self).buffers().items(),
            final(self).buffers().max() == old(self).buffers().max() && final(self).buffers().min() == old(self).buffers().min(),
            final(self).buffers().counted_return(old(self).buffers()),
            final(self).services() == old(self).services(),
            final(self).validators() == old(self).validators(),
            final(self).strings() == old(self).strings(),
    {
        let mut b = buffer;
        b.clear();
        self.buffer_pool.return_object(b, now);
    }

    /// Takes back a string buffer, emptied, at `now`.
    pub fn return_string_buffer(&mut self, buffer: String, now: u64)
        requires
            old(self).wf(),
            old(self).strings().counters().total_returned < u64::MAX,
        ensures
            final(self).wf(),
            final(self).settings() == old(self).settings(),
            old(self).strings().items().len() < old(self).strings().max() ==> final(self).strings().items().len() == old(self).strings().items().len() + 1
                && final(self).strings().items().last()@.len() == 0,
            old(self).strings().items().len() < old(self).strings().max() ==> final(self).strings().items().drop_last() == old(self).strings().items(),
            old(self).strings().items().len() >= old(self).strings().max() ==> final(self).strings().items() == old(self).strings().items(),
            final(self).strings().max() == old(self).strings().max() && final(self).strings().min() == old(self).strings().min(),
            final(self).strings().counted_return(old(self).strings()),
            final(self).services() == old(self).services(),
            final(self).validators() == old(self).validators(),
            final(self).buffers() == old(self).buffers(),
    {
        self.string_buffer_pool.return_object(String::new(), now);
    }

    /// Takes back a service at `now`.
    pub fn return_service(&mut self, service: UnityMcpServiceImpl, now: u64)
        requires
            old(self).wf(),
            service.wf(),
            old(self).services().counters().total_returned < u64::MAX,
        ensures
            final(self).wf(),
            final(self).settings() == old(self).settings(),
            final(self).services().returned_from(old(self).services(), service, now),
            final(self).validators() == old(self).validators(),
            final(self).buffers() == old(self).buffers(),
            final(self).strings() == old(self).strings(),
    {
        self.service_pool.return_object(service, now);
    }

    /// Takes back a validation engine at `now`.
    pub fn return_validator(&mut self, validator: StreamValidationEngine, now: u64)
        requires
            old(self).wf(),
            validator.wf(),
            old(self).validators().counters().total_returned < u64::MAX,
        ensures
            final(self).wf(),
            final(self).settings() == old(self).settings(),
            final(self).validators().returned_from(old(self).validators(), validator, now),
            final(self).services() == old(self).services(),
            final(self).buffers() == old(self).buffers(),
            final(self).strings() == old(self).strings(),
    {
        self.validator_pool.return_object(validator, now);
    }

    /// Drops objects idle longer than the settings allow, at `now`: in each
    /// pool, from the back, those idle for more than the allowed time in
    /// nanoseconds, down to the pool's minimum.
    pub fn cleanup(&mut self, now: u64)
        requires
            old(self).wf(),
        ensures
            final(self).wf(),
            final(self).settings() == old(self).settings(),
            final(self).services().cleaned_from(old(self).services(), idle_limit_nanos(old(self).settings().max_idle_time_ms), now),
            final(self).validators().cleaned_from(old(self).validators(), idle_limit_nanos(old(self).settings().max_idle_time_ms), now),
            final(self).buffers().cleaned_from(old(self).buffers(), idle_limit_nanos(old(self).settings().max_idle_time_ms), now),
            final(self).strings().cleaned_from(old(self).strings(), idle_limit_nanos(old(self).settings().max_idle_time_ms), now),
    {
        let idle: u64 = if self.config.max_idle_time_ms <= u64::MAX / 1_000_000 {
            self.config.max_idle_time_ms * 1_000_000
        } else {
            u64::MAX
        };
        let ghost services = self.service_pool.items();
        let ghost validators = self.validator_pool.items();
        self.service_pool.cleanup_idle_objects(idle, now);
        self.validator_pool.cleanup_idle_objects(idle, now);
        proof {
            let si = choose|idx: Seq<int>| {
                &&& picks(idx, services.len(), self.service_pool.items().len())
                &&& forall|j: int| 0 <= j < self.service_pool.items().len() ==> self.service_pool.items()[j] == services[#[trigger] idx[j]]
                    && self.service_pool.last_used()[j] == old(self).service_pool.last_used()[idx[j]]
                &&& forall|q: int| 0 <= q < services.len() && !idx.contains(q)
                    ==> idle_time(now, #[trigger] old(self).service_pool.last_used()[q]) > idle
            };
            assert forall|i: int| 0 <= i < self.service_pool.items().len() implies (#[trigger] self.service_pool.items()[i]).wf() by {
                assert(self.service_pool.items()[i] == services[si[i]]);
            }
            let vi = choose|idx: Seq<int>| {
                &&& picks(idx, validators.len(), self.validator_pool.items().len())
                &&& forall|j: int| 0 <= j < self.validator_pool.items().len() ==> self.validator_pool.items()[j] == validators[#[trigger] idx[j]]
                    && self.validator_pool.last_used()[j] == old(self).validator_pool.last_used()[idx[j]]
                &&& forall|q: int| 0 <= q < validators.len() && !idx.contains(q)
                    ==> idle_time(now, #[trigger] old(self).validator_pool.last_used()[q]) > idle
            };
            assert forall|i: int| 0 <= i < self.validator_pool.items().len() implies (#[trigger] self.validator_pool.items()[i]).wf() by {
                assert(self.validator_pool.items()[i] == validators[vi[i]]);
            }
        }
        self.buffer_pool.cleanup_idle_objects(idle, now);
        self.string_buffer_pool.cleanup_idle_objects(idle, now);
    }

    /// The counters of all the pools.
    pub fn get_pool_statistics(&self) -> (r: PoolStatistics)
        ensures
            r.service_pool_stats == self.services().counters(),
            r.validator_pool_stats == self.validators().counters(),
            r.buffer_pool_stats == self.buffers().counters(),
            r.string_buffer_pool_stats == self.strings().counters(),
            r.total_memory_allocated == 0,
            r.total_memory_in_use == 0,
    {
        PoolStatistics {
            service_pool_stats: self.service_pool.get_stats(),
            validator_pool_stats: self.validator_pool.get_stats(),
            buffer_pool_stats: self.buffer_pool.get_stats(),
            string_buffer_pool_stats: self.string_buffer_pool.get_stats(),
            total_memory_allocated: 0,
            total_memory_in_use: 0,
        }
    }
}

/// Hits and acquisitions over all pools, whose ratio is the pools'
/// efficiency.
pub fn efficiency_counts(stats: &PoolStatistics) -> (r: (u128, u128))
    ensures
        r.0 == pool_hits(stats.service_pool_stats) + pool_hits(stats.validator_pool_stats)
            + pool_hits(stats.buffer_pool_stats) + pool_hits(stats.string_buffer_pool_stats),
        r.1 == stats.service_pool_stats.total_acquired + stats.validator_pool_stats.total_acquired
            + stats.buffer_pool_stats.total_acquired + stats.string_buffer_pool_stats.total_acquired,
{
    let s = [stats.service_pool_stats, stats.validator_pool_stats, stats.buffer_pool_stats, stats.string_buffer_pool_stats];
    let mut hits: u128 = 0;
    let mut requests: u128 = 0;
    let mut i: usize = 0;
    while i < 4
        invariant
            i <= 4,
            s@ == seq![stats.service_pool_stats, stats.validator_pool_stats, stats.buffer_pool_stats, stats.string_buffer_pool_stats],
            hits == (if i > 0 { pool_hits(s@[0]) } else { 0 }) + (if i > 1 { pool_hits(s@[1]) } else { 0 })
                + (if i > 2 { pool_hits(s@[2]) } else { 0 }) + (if i > 3 { pool_hits(s@[3]) } else { 0 }),
            requests == (if i > 0 { s@[0].total_acquired as int } else { 0 }) + (if i > 1 { s@[1].total_acquired as int } else { 0 })
                + (if i > 2 { s@[2].total_acquired as int } else { 0 }) + (if i > 3 { s@[3].total_acquired as int } else { 0 }),
        decreases 4 - i,
    {
        let p = s[i];
        let h: u64 = if p.total_acquired >= p.total_created { p.total_acquired - p.total_created } else { 0 };
        hits = hits + h as u128;
        requests = requests + p.total_acquired as u128;
        i = i + 1;
    }
    (hits, requests)
}

} // verus!
