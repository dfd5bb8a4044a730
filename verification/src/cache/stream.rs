//! The response cache: least-recently-used store, time to live, gzip
//! compression and statistics.
use vstd::prelude::*;

use crate::cache::config::{CacheConfig, CacheError};
use crate::cache::gzip::{gunzip_text, gzip_text};
use crate::cache::history::{AccessPatternAnalyzer, AccessRecord};
use crate::cache::gzip::gzip_of;
use crate::cache::json::{parse_response, reads_as, response_json, same_response, serialize_response};
use vstd::utf8::encode_utf8;
use crate::cache::keys::{key_for, operation_name, CacheKey, CacheKeyHasher, CacheKeyModel, DefaultCacheKeyHasher, OperationType};
use crate::cache::size::{estimate_response_size, response_size, sat};
use crate::cache::store::{
    entry_keys, index_of_key, store_peek, lru_capacity, lru_entries, store_clear, store_len, store_new, store_ok, store_pop,
    store_pop_lru, store_push, store_resize, store_sizes, CacheEntry, EntryStore, SlotKey,
};
use crate::clock::{instant_now, nanos_since};
use crate::proto::{copy_response, ImportAssetResponse, StreamRequest, StreamResponse, StreamResponseMessage, UnityAsset};
use crate::text::{concat3, u64_to_decimal, usize_to_decimal};

verus! {

/// Counters of the cache. Times are in nanoseconds.
#[derive(Debug, Clone)]
pub struct CacheStatistics {
    pub total_requests: u64,
    pub cache_hits: u64,
    pub cache_misses: u64,
    pub cache_evictions: u64,
    /// Moving average of the time of a hit, weighting the newest by a tenth.
    pub avg_hit_time_ns: u64,
    /// Moving average of the time of a miss, weighting the newest by a tenth.
    pub avg_miss_time_ns: u64,
    pub current_memory_usage: usize,
    pub peak_memory_usage: usize,
    pub current_entry_count: usize,
    /// Stored bytes of the compressed entries.
    pub compressed_memory_usage: usize,
    /// Original bytes of all entries.
    pub original_memory_usage: usize,
}

impl CacheStatistics {
    /// All counters at zero.
    pub fn zero() -> (r: CacheStatistics)
        ensures
            r.total_requests == 0 && r.cache_hits == 0 && r.cache_misses == 0 && r.cache_evictions == 0,
            r.avg_hit_time_ns == 0 && r.avg_miss_time_ns == 0,
            r.current_memory_usage == 0 && r.peak_memory_usage == 0 && r.current_entry_count == 0,
            r.compressed_memory_usage == 0 && r.original_memory_usage == 0,
    {
        CacheStatistics {
            total_requests: 0,
            cache_hits: 0,
            cache_misses: 0,
            cache_evictions: 0,
            avg_hit_time_ns: 0,
            avg_miss_time_ns: 0,
            current_memory_usage: 0,
            peak_memory_usage: 0,
            current_entry_count: 0,
            compressed_memory_usage: 0,
            original_memory_usage: 0,
        }
    }
}

impl Default for CacheStatistics {
    fn default() -> (r: CacheStatistics)
        ensures
            r.total_requests == 0 && r.cache_hits == 0 && r.cache_misses == 0,
    {
        CacheStatistics::zero()
    }
}

/// `x + 1`, staying at `u64::MAX`.
pub open spec fn inc(x: u64) -> u64 {
    if x == u64::MAX { u64::MAX } else { (x + 1) as u64 }
}

/// `after` is `before` with the lookup of `key` at `now` recorded: the
/// record, taking no time, joins the history (the oldest going when it is
/// full), and the count of the key's operation kind goes up by one,
/// staying at the most a `u64` holds.
pub open spec fn learned(after: AccessPatternAnalyzer, before: AccessPatternAnalyzer, key: CacheKeyModel, hit: bool, now: u64) -> bool {
    &&& after.history_cap() == before.history_cap()
    &&& before.history().len() <= before.history_cap() ==> {
        &&& after.history().len() > 0
        &&& after.history().drop_last() == (if before.history().len() < before.history_cap() {
            before.history()
        } else {
            before.history().drop_first()
        })
        &&& after.history().last().timestamp == now
        &&& after.history().last().cache_key@ == key
        &&& after.history().last().hit == hit
        &&& after.history().last().response_time == 0
    }
    &&& after.frequency() == before.frequency().insert(
        operation_name(key.operation_type),
        if before.frequency().contains_key(operation_name(key.operation_type)) {
            let n = before.frequency()[operation_name(key.operation_type)];
            if n == u64::MAX { u64::MAX } else { (n + 1) as u64 }
        } else {
            1
        },
    )
}

/// The moving average after a new sample: the sample itself at first, then
/// nine tenths of the old average and a tenth of the sample.
pub open spec fn moving_average(avg: u64, sample: u64) -> u64 {
    if avg == 0 { sample } else { ((9 * avg + sample) / 10) as u64 }
}

fn increment(x: u64) -> (r: u64)
    ensures
        r == inc(x),
{
    if x == u64::MAX { u64::MAX } else { x + 1 }
}

fn average_with(avg: u64, sample: u64) -> (r: u64)
    ensures
        r == moving_average(avg, sample),
{
    if avg == 0 {
        sample
    } else {
        let v: u128 = (9 * (avg as u128) + (sample as u128)) / 10;
        assert(v <= u64::MAX) by (nonlinear_arith)
            requires v == (9 * (avg as u128) + (sample as u128)) / 10, avg <= u64::MAX, sample <= u64::MAX;
        v as u64
    }
}

/// The number an operation kind has in a store key.
pub open spec fn operation_code(op: OperationType) -> u8 {
    match op {
        OperationType::ImportAsset => 0,
        OperationType::MoveAsset => 1,
        OperationType::DeleteAsset => 2,
        OperationType::Refresh => 3,
    }
}

/// The store key of a cache key.
pub open spec fn slot_of(k: CacheKeyModel) -> SlotKey {
    (operation_code(k.operation_type), k.request_hash, k.version)
}

fn slot_key(key: &CacheKey) -> (r: SlotKey)
    ensures
        r == slot_of(key@),
{
    let code: u8 = match key.operation_type {
        OperationType::ImportAsset => 0,
        OperationType::MoveAsset => 1,
        OperationType::DeleteAsset => 2,
        OperationType::Refresh => 3,
    };
    (code, key.request_hash, key.version)
}

/// Whether `entry` has expired at `now`.
pub open spec fn expired(entry: CacheEntry, now: u64) -> bool {
    entry.expires_at matches Some(t) && now > t
}

/// The entry after being served at `now`.
pub open spec fn touched(entry: CacheEntry, now: u64) -> CacheEntry {
    CacheEntry { last_accessed: now, access_count: inc(entry.access_count), ..entry }
}

/// Whether `out` is what serving `entry` may give: its response when it is
/// not compressed; else the response read back from the JSON text its data
/// holds, or the
/// stored response when reading fails. When the data is the gzip stream of
/// the JSON text of some response, reading does not fail and gives a
/// response with the same values as that one.
pub open spec fn served_from(entry: CacheEntry, out: StreamResponse) -> bool {
    if !entry.is_compressed || entry.compressed_data is None {
        out == entry.response
    } else {
        &&& out == entry.response || exists|t: Seq<char>| crate::cache::gzip::gunzip_text_of(
            entry.compressed_data->0@,
        ) == Some(t) && reads_as(out, t)
        &&& forall|level: u32, src: StreamResponse| entry.compressed_data->0@ == #[trigger] gzip_of(
            level,
            encode_utf8(response_json(src)),
        ) ==> same_response(src, out)
    }
}

/// The size an entry counts for: its compressed size when compressed.
pub open spec fn entry_size(e: CacheEntry) -> nat {
    if e.is_compressed { e.compressed_size as nat } else { e.original_size as nat }
}

/// The response stored in place of a compressed one.
pub open spec fn is_compressed_marker(r: StreamResponse, data_len: nat) -> bool {
    match r.message {
        Some(StreamResponseMessage::ImportAsset(m)) => m.error is None && match m.asset {
            Some(a) => a.guid@ == "__COMPRESSED_DATA_MARKER__"@
                && a.asset_path@ == "compressed:"@ + crate::text::decimal(data_len) + "bytes"@
                && a.asset_type@ == "application/gzip"@,
            None => false,
        },
        _ => false,
    }
}

/// Whether `marker`, `stored_size` and `data` are what compressing
/// `response` at `level` stores: the marker response, the length of the
/// data, and the gzip stream of the response's JSON text.
pub open spec fn stored_compressed(marker: StreamResponse, stored_size: usize, data: Option<Vec<u8>>, response: StreamResponse, level: u32) -> bool {
    match data {
        Some(d) => {
            &&& d@ == crate::cache::gzip::gzip_of(level, vstd::utf8::encode_utf8(response_json(response)))
            &&& stored_size == d@.len()
            &&& is_compressed_marker(marker, d@.len())
        },
        None => false,
    }
}

/// Whether `entry` is what `put` stores for `response` under `config`.
pub open spec fn stored_for(entry: CacheEntry, response: StreamResponse, config: CacheConfig) -> bool {
    &&& entry.original_size == sat(response_size(response))
    &&& entry.access_count == 1
    &&& entry.is_compressed == (config.enable_compression && entry.original_size >= config.compression_threshold_bytes)
    &&& entry.is_compressed ==> stored_compressed(entry.response, entry.compressed_size, entry.compressed_data, response, config.compression_level)
    &&& !entry.is_compressed ==> entry.response == response && entry.compressed_size == entry.original_size
        && entry.compressed_data is None
    &&& entry.last_accessed == entry.created_at
    &&& entry.expires_at == expiry_for(entry.created_at, config.default_ttl_ms)
}

/// `x`, or `u64::MAX` if that is less.
pub open spec fn sat_u64(x: int) -> u64 {
    if x > u64::MAX { u64::MAX } else { x as u64 }
}

/// When an entry made at `now` (in nanoseconds) expires with a time to live
/// of `ttl_ms` milliseconds: never for `u64::MAX`, else `now` plus the time
/// to live in nanoseconds, each step stopping at `u64::MAX`.
pub open spec fn expiry_for(now: u64, ttl_ms: u64) -> Option<u64> {
    if ttl_ms == u64::MAX { None } else { Some(sat_u64(now + sat_u64(ttl_ms * 1_000_000))) }
}

/// The entries left beside a new one under `slot` pushed onto `es` in a
/// store of `cap` entries: the entry under the same key goes; else, when
/// the store is full, the least recently used one.
pub open spec fn kept_beside(es: Seq<(SlotKey, CacheEntry)>, slot: SlotKey, cap: nat) -> Seq<(SlotKey, CacheEntry)> {
    match index_of_key(es, slot) {
        Some(i) => es.remove(i),
        None => if es.len() == cap { es.drop_last() } else { es },
    }
}

/// `a + b`, or `usize::MAX` if that is more.
fn add_sat_usize(a: usize, b: usize) -> (r: usize)
    ensures
        r == sat((a + b) as nat),
{
    crate::cache::size::add_sat(a, b)
}

fn add_sat_u64(a: u64, b: u64) -> (r: u64)
    ensures
        r == (if a + b > u64::MAX { u64::MAX as int } else { a + b }),
{
    if a > u64::MAX - b { u64::MAX } else { a + b }
}

fn mul_sat_u64(a: u64, b: u64) -> (r: u64)
    ensures
        r == (if a * b > u64::MAX { u64::MAX as int } else { a * b }),
{
    match a.checked_mul(b) {
        Some(v) => v,
        None => u64::MAX,
    }
}

/// The cache.
pub struct StreamCache {
    cache: EntryStore,
    statistics: CacheStatistics,
    access_pattern_analyzer: AccessPatternAnalyzer,
    config: CacheConfig,
    key_hasher: DefaultCacheKeyHasher,
    origin: std::time::Instant,
    /// The latest reading of the clock, in nanoseconds since `origin`.
    last_reading: u64,
}

impl StreamCache {
    /// The entries, most recently used first.
    pub closed spec fn entries(&self) -> Seq<(SlotKey, CacheEntry)> {
        lru_entries(self.cache)
    }

    /// How many entries the cache holds at most.
    pub closed spec fn capacity(&self) -> nat {
        lru_capacity(self.cache)
    }

    /// The counters.
    pub closed spec fn stats(&self) -> CacheStatistics {
        self.statistics
    }

    /// The access history.
    pub closed spec fn analyzer(&self) -> AccessPatternAnalyzer {
        self.access_pattern_analyzer
    }

    /// The settings.
    pub closed spec fn settings(&self) -> CacheConfig {
        self.config
    }

    /// The latest reading of the cache's clock, in nanoseconds since the
    /// cache was made; each operation that reads the clock moves it on.
    pub closed spec fn clock(&self) -> u64 {
        self.last_reading
    }

    /// The key scheme version.
    pub closed spec fn scheme(&self) -> u32 {
        self.key_hasher.scheme()
    }

    /// The parts are well formed.
    pub closed spec fn wf(&self) -> bool {
        &&& store_ok(self.cache)
        &&& self.access_pattern_analyzer.wf()
    }

    /// The key of `request` in this cache.
    pub open spec fn key_of(&self, request: StreamRequest) -> Option<CacheKeyModel> {
        key_for(request.message, self.scheme())
    }

    /// A cache with `config`; refused when it would hold no entry.
    pub fn with_config(config: CacheConfig) -> (r: Result<StreamCache, CacheError>)
        ensures
            config.max_entries == 0 <==> r is Err,
            r matches Err(e) ==> e == CacheError::InvalidConfiguration(e->InvalidConfiguration_0)
                && e->InvalidConfiguration_0@ == "max_entries must be greater than 0"@,
            r matches Ok(c) ==> c.wf() && c.settings() == config && c.capacity() == config.max_entries
                && c.entries() == Seq::<(SlotKey, CacheEntry)>::empty() && c.scheme() == 1
                && c.stats().total_requests == 0 && c.stats().cache_hits == 0 && c.stats().cache_misses == 0
                && c.stats().cache_evictions == 0,
    {
        if config.max_entries == 0 {
            return Err(CacheError::InvalidConfiguration(String::from_str("max_entries must be greater than 0")));
        }
        let analyzer = AccessPatternAnalyzer::new(config.enable_pattern_learning);
        Ok(StreamCache {
            cache: store_new(config.max_entries),
            statistics: CacheStatistics::zero(),
            access_pattern_analyzer: analyzer,
            config,
            key_hasher: DefaultCacheKeyHasher::new(),
            origin: instant_now(),
            last_reading: 0,
        })
    }

    /// A cache with the default settings.
    pub fn new() -> (r: Result<StreamCache, CacheError>)
        ensures
            r matches Ok(c) && c.wf() && c.capacity() == 1000 && c.entries().len() == 0
                && c.settings().compression_level == 6 && c.settings().enable_compression && c.settings().max_memory_mb == 50,
    {
        StreamCache::with_config(CacheConfig::default())
    }

    /// Reads the clock: nanoseconds since the cache was made, never less
    /// than the reading before (`Instant` is monotonic).
    fn read_clock(&mut self) -> (r: u64)
        ensures
            r >= old(self).last_reading,
            final(self).last_reading == r,
            final(self).cache == old(self).cache,
            final(self).statistics == old(self).statistics,
            final(self).access_pattern_analyzer == old(self).access_pattern_analyzer,
            final(self).config == old(self).config,
            final(self).key_hasher == old(self).key_hasher,
    {
        let t = nanos_since(&self.origin);
        if t > self.last_reading {
            self.last_reading = t;
        }
        self.last_reading
    }

    fn record_cache_hit(&mut self, response_time: u64)
        ensures
            final(self).statistics == (CacheStatistics {
                total_requests: inc(old(self).statistics.total_requests),
                cache_hits: inc(old(self).statistics.cache_hits),
                avg_hit_time_ns: moving_average(old(self).statistics.avg_hit_time_ns, response_time),
                ..old(self).statistics
            }),
            final(self).cache == old(self).cache,
            final(self).access_pattern_analyzer == old(self).access_pattern_analyzer,
            final(self).config == old(self).config,
            final(self).key_hasher == old(self).key_hasher,
            final(self).last_reading == old(self).last_reading,
    {
        self.statistics.total_requests = increment(self.statistics.total_requests);
        self.statistics.cache_hits = increment(self.statistics.cache_hits);
        self.statistics.avg_hit_time_ns = average_with(self.statistics.avg_hit_time_ns, response_time);
    }

    fn record_cache_miss(&mut self, response_time: u64)
        ensures
            final(self).statistics == (CacheStatistics {
                total_requests: inc(old(self).statistics.total_requests),
                cache_misses: inc(old(self).statistics.cache_misses),
                avg_miss_time_ns: moving_average(old(self).statistics.avg_miss_time_ns, response_time),
                ..old(self).statistics
            }),
            final(self).cache == old(self).cache,
            final(self).access_pattern_analyzer == old(self).access_pattern_analyzer,
            final(self).config == old(self).config,
            final(self).key_hasher == old(self).key_hasher,
            final(self).last_reading == old(self).last_reading,
    {
        self.statistics.total_requests = increment(self.statistics.total_requests);
        self.statistics.cache_misses = increment(self.statistics.cache_misses);
        self.statistics.avg_miss_time_ns = average_with(self.statistics.avg_miss_time_ns, response_time);
    }

    /// Records, when pattern learning is on, the lookup of `key` at `now`
    /// that hit or missed, taking no time of its own.
    fn learn_access_pattern(&mut self, key: &CacheKey, hit: bool, now: u64)
        requires
            old(self).access_pattern_analyzer.wf(),
        ensures
            final(self).access_pattern_analyzer.wf(),
            !old(self).config.enable_pattern_learning ==> final(self).access_pattern_analyzer == old(self).access_pattern_analyzer,
            old(self).config.enable_pattern_learning ==> learned(
                final(self).access_pattern_analyzer,
                old(self).access_pattern_analyzer,
                key@,
                hit,
                now,
            ),
            final(self).cache == old(self).cache,
            final(self).statistics == old(self).statistics,
            final(self).config == old(self).config,
            final(self).key_hasher == old(self).key_hasher,
            final(self).last_reading == old(self).last_reading,
    {
        if !self.config.enable_pattern_learning {
            return;
        }
        let record = AccessRecord { timestamp: now, cache_key: key.copy_key(), hit, response_time: 0 };
        let ghost r = record;
        let ghost before = self.access_pattern_analyzer;
        self.access_pattern_analyzer.record_access(record);
        proof {
            let after = self.access_pattern_analyzer;
            assert(r.cache_key@ == key@);
            assert(r.cache_key.operation_type == key@.operation_type);
            assert(r.timestamp == now && r.hit == hit && r.response_time == 0);
            if before.history().len() < before.history_cap() {
                assert(after.history().drop_last() =~= before.history());
            } else if before.history().len() == before.history_cap() {
                assert(after.history().drop_last() =~= before.history().drop_first());
            }
        }
    }

    /// The response served from `entry`: read back from its compressed
    /// data, or the stored response.
    fn decompress_response(&self, entry: &CacheEntry) -> (r: Result<StreamResponse, CacheError>)
        ensures
            r matches Ok(out) ==> served_from(*entry, out),
            entry.is_compressed && entry.compressed_data is Some ==> forall|level: u32, src: StreamResponse|
                entry.compressed_data->0@ == #[trigger] gzip_of(level, encode_utf8(response_json(src))) ==> (r matches Ok(
                out,
            ) && same_response(src, out)),
    {
        if !entry.is_compressed || entry.compressed_data.is_none() {
            return Ok(copy_response(&entry.response));
        }
        let data = match &entry.compressed_data {
            Some(d) => d,
            None => {
                return Err(CacheError::DecompressionError(String::from_str("No compressed data available")));
            },
        };
        let text = match gunzip_text(data) {
            Some(t) => t,
            None => {
                return Err(CacheError::DecompressionError(String::from_str("Decompression failed")));
            },
        };
        match parse_response(text.as_str()) {
            Some(out) => Ok(out),
            None => Err(CacheError::DecompressionError(String::from_str("Deserialization failed"))),
        }
    }

    fn serve(&self, entry: &CacheEntry) -> (r: StreamResponse)
        ensures
            served_from(*entry, r),
    {
        match self.decompress_response(entry) {
            Ok(out) => out,
            Err(_) => copy_response(&entry.response),
        }
    }

    /// Serves `request` from the cache. A request without a key is not
    /// looked up. An entry stored under its key that has expired is dropped
    /// and counts as a miss; one still valid is served, counts as a hit, and
    /// becomes the most recently used. Lookups that reach an entry or find
    /// none are recorded in the access history when pattern learning is on.
    pub fn get(&mut self, request: &StreamRequest) -> (r: Option<StreamResponse>)
        requires
            old(self).wf(),
        ensures
            final(self).wf(),
            final(self).settings() == old(self).settings(),
            final(self).capacity() == old(self).capacity(),
            final(self).scheme() == old(self).scheme(),
            final(self).clock() >= old(self).clock(),
            old(self).key_of(*request) is None ==> r is None && *final(self) == *old(self),
            r matches Some(out) ==> exists|i: int| 0 <= i < old(self).entries().len()
                && served_from(#[trigger] old(self).entries()[i].1, out),
            old(self).key_of(*request) matches Some(k) ==> {
                let es = old(self).entries();
                match index_of_key(es, slot_of(k)) {
                    Some(i) => if es[i].1.key@ == k {
                        exists|now: u64| #![trigger expired(es[i].1, now)] old(self).clock() <= now <= final(self).clock() && {
                            if expired(es[i].1, now) {
                                &&& r is None
                                &&& final(self).entries() == es.remove(i)
                                &&& final(self).stats().cache_misses == inc(old(self).stats().cache_misses)
                                &&& final(self).stats().cache_hits == old(self).stats().cache_hits
                                &&& final(self).stats().total_requests == inc(old(self).stats().total_requests)
                            } else {
                                &&& r matches Some(out) && served_from(es[i].1, out)
                                &&& final(self).entries() == seq![(slot_of(k), touched(es[i].1, now))] + es.remove(i)
                                &&& final(self).stats().cache_hits == inc(old(self).stats().cache_hits)
                                &&& final(self).stats().cache_misses == old(self).stats().cache_misses
                                &&& final(self).stats().total_requests == inc(old(self).stats().total_requests)
                            }
                        }
                    } else {
                        &&& r is None
                        &&& final(self).entries() == es
                        &&& final(self).stats().cache_misses == inc(old(self).stats().cache_misses)
                        &&& final(self).stats().cache_hits == old(self).stats().cache_hits
                        &&& final(self).stats().total_requests == inc(old(self).stats().total_requests)
                    },
                    None => {
                        &&& r is None
                        &&& final(self).entries() == es
                        &&& final(self).stats().cache_misses == inc(old(self).stats().cache_misses)
                        &&& final(self).stats().cache_hits == old(self).stats().cache_hits
                        &&& final(self).stats().total_requests == inc(old(self).stats().total_requests)
                    },
                }
            },
    {
        let cache_key = match self.key_hasher.generate_key(request) {
            Some(k) => k,
            None => {
                return None;
            },
        };
        let start = self.read_clock();
        let slot = slot_key(&cache_key);
        let ghost es = self.entries();
        let matches = match store_peek(&self.cache, &slot) {
            Some(e) => e.key.same_as(&cache_key),
            None => false,
        };
        let result = if !matches {
            let end = self.read_clock();
            self.record_cache_miss(end - start);
            None
        } else {
            let now = self.read_clock();
            let mut entry = match store_pop(&mut self.cache, &slot) {
                Some(e) => e,
                None => {
                    return None;
                },
            };
            let is_expired = match entry.expires_at {
                Some(t) => now > t,
                None => false,
            };
            if is_expired {
                let end = self.read_clock();
                self.record_cache_miss(end - start);
                assert(expired(es[index_of_key(es, slot)->0].1, now));
                return None;
            }
            entry.last_accessed = now;
            entry.access_count = increment(entry.access_count);
            let response = self.serve(&entry);
            let ghost popped = self.entries();
            let _ = store_push(&mut self.cache, slot, entry);
            proof {
                assert(index_of_key(popped, slot) is None) by {
                    lemma_removed_key_absent(es, index_of_key(es, slot)->0);
                }
            }
            let end = self.read_clock();
            self.record_cache_hit(end - start);
            assert(!expired(es[index_of_key(es, slot)->0].1, now));
            assert(served_from(es[index_of_key(es, slot)->0].1, response));
            Some(response)
        };
        let stamp = self.read_clock();
        self.learn_access_pattern(&cache_key, result.is_some(), stamp);
        result
    }

    /// The response to store for `response`, whether it is compressed, its
    /// estimated size, its stored size and the compressed data: compressed
    /// only when its estimate reaches the threshold and compression works.
    fn compress_response_if_beneficial(&self, response: &StreamResponse) -> (r: (StreamResponse, bool, usize, usize, Option<Vec<u8>>))
        requires
            self.config.compression_level <= 10,
        ensures
            r.2 == sat(response_size(*response)),
            r.2 < self.config.compression_threshold_bytes <==> !r.1,
            !r.1 ==> r.0 == *response && r.3 == r.2 && r.4 is None,
            r.1 ==> stored_compressed(r.0, r.3, r.4, *response, self.config.compression_level),
    {
        let original_size = estimate_response_size(response);
        if original_size < self.config.compression_threshold_bytes {
            return (copy_response(response), false, original_size, original_size, None);
        }
        match self.compress_response(response) {
            Ok((marker, data)) => {
                let n = data.len();
                (marker, true, original_size, n, Some(data))
            },
            Err(_) => (copy_response(response), false, original_size, original_size, None),
        }
    }

    /// Compresses the JSON text of `response` with gzip; gives the marker
    /// response that stands for it and the data.
    fn compress_response(&self, response: &StreamResponse) -> (r: Result<(StreamResponse, Vec<u8>), CacheError>)
        requires
            self.config.compression_level <= 10,
        ensures
            r is Ok,
            r matches Ok((m, d)) ==> stored_compressed(m, d@.len() as usize, Some(d), *response, self.config.compression_level),
    {
        let text = serialize_response(response);
        let data = match gzip_text(text.as_str(), self.config.compression_level) {
            Some(d) => d,
            None => {
                return Err(CacheError::CompressionError(String::from_str("Compression finish failed")));
            },
        };
        let n = usize_to_decimal(data.len());
        let marker = StreamResponse {
            message: Some(StreamResponseMessage::ImportAsset(ImportAssetResponse {
                asset: Some(UnityAsset {
                    guid: String::from_str("__COMPRESSED_DATA_MARKER__"),
                    asset_path: concat3("compressed:", n.as_str(), "bytes"),
                    asset_type: String::from_str("application/gzip"),
                }),
                error: None,
            })),
        };
        Ok((marker, data))
    }

    /// Whether storing `entry` would take the memory in use past the limit.
    fn should_evict_for_memory(&self, entry: &CacheEntry) -> (r: bool)
        requires
            self.wf(),
            self.config.max_memory_mb <= usize::MAX / 1048576,
        ensures
            r == (self.statistics.current_memory_usage + entry_size(*entry) > self.config.max_memory_mb * 1048576),
    {
        let size = if entry.is_compressed { entry.compressed_size } else { entry.original_size };
        let max_bytes = self.config.max_memory_mb * 1024 * 1024;
        if self.statistics.current_memory_usage > usize::MAX - size {
            true
        } else {
            self.statistics.current_memory_usage + size > max_bytes
        }
    }

    /// Drops least recently used entries until the memory in use is at most
    /// four fifths of the limit.
    fn evict_by_memory_pressure(&mut self)
        requires
            old(self).wf(),
            old(self).config.max_memory_mb <= usize::MAX / 1048576,
        ensures
            final(self).wf(),
            final(self).config == old(self).config,
            final(self).key_hasher == old(self).key_hasher,
            final(self).last_reading == old(self).last_reading,
            final(self).statistics.total_requests == old(self).statistics.total_requests,
            final(self).statistics.cache_hits == old(self).statistics.cache_hits,
            final(self).statistics.cache_misses == old(self).statistics.cache_misses,
            final(self).access_pattern_analyzer == old(self).access_pattern_analyzer,
            lru_capacity(final(self).cache) == lru_capacity(old(self).cache),
            exists|m: int| 0 <= m <= old(self).entries().len() && final(self).entries() == old(self).entries().take(m),
    {
        let max_bytes = self.config.max_memory_mb * 1024 * 1024;
        let target = max_bytes / 5 * 4 + (max_bytes % 5) * 4 / 5;
        let sizes = store_sizes(&self.cache);
        let mut current: usize = 0;
        let mut i: usize = 0;
        while i < sizes.len()
            invariant
                i <= sizes@.len(),
            decreases sizes@.len() - i,
        {
            let (c, cs, os) = sizes[i];
            current = add_sat_usize(current, if c { cs } else { os });
            i = i + 1;
        }
        let ghost es = self.entries();
        let ghost cap = lru_capacity(self.cache);
        assert(es.take(es.len() as int) =~= es);
        while current > target && store_len(&self.cache) > 0
            invariant
                store_ok(self.cache),
                lru_capacity(self.cache) == cap,
                self.config == old(self).config,
                self.key_hasher == old(self).key_hasher,
                self.last_reading == old(self).last_reading,
                self.statistics.total_requests == old(self).statistics.total_requests,
                self.statistics.cache_hits == old(self).statistics.cache_hits,
                self.statistics.cache_misses == old(self).statistics.cache_misses,
                self.access_pattern_analyzer == old(self).access_pattern_analyzer,
                self.access_pattern_analyzer.wf(),
                self.config.max_memory_mb <= usize::MAX / 1048576,
                es == old(self).entries(),
                exists|m: int| 0 <= m <= es.len() && lru_entries(self.cache) == es.take(m),
            decreases lru_entries(self.cache).len(),
        {
            let ghost before = lru_entries(self.cache);
            let ghost m = choose|m: int| 0 <= m <= es.len() && before == es.take(m);
            match store_pop_lru(&mut self.cache) {
                Some((_, e)) => {
                    let size = if e.is_compressed { e.compressed_size } else { e.original_size };
                    current = if current >= size { current - size } else { 0 };
                    self.statistics.cache_evictions = increment(self.statistics.cache_evictions);
                    assert(lru_entries(self.cache) == es.take(m - 1));
                },
                None => {
                    break;
                },
            }
        }
    }

    /// Brings the counts of entries and memory up to date.
    fn update_cache_statistics(&mut self)
        ensures
            final(self).cache == old(self).cache,
            final(self).config == old(self).config,
            final(self).key_hasher == old(self).key_hasher,
            final(self).last_reading == old(self).last_reading,
            final(self).access_pattern_analyzer == old(self).access_pattern_analyzer,
            final(self).statistics.current_entry_count == lru_entries(old(self).cache).len(),
            final(self).statistics.total_requests == old(self).statistics.total_requests,
            final(self).statistics.cache_hits == old(self).statistics.cache_hits,
            final(self).statistics.cache_misses == old(self).statistics.cache_misses,
            final(self).statistics.peak_memory_usage >= old(self).statistics.peak_memory_usage,
            final(self).statistics.peak_memory_usage >= final(self).statistics.current_memory_usage,
    {
        let sizes = store_sizes(&self.cache);
        let mut total: usize = 0;
        let mut compressed: usize = 0;
        let mut original: usize = 0;
        let mut i: usize = 0;
        while i < sizes.len()
            invariant
                i <= sizes@.len(),
            decreases sizes@.len() - i,
        {
            let (c, cs, os) = sizes[i];
            if c {
                compressed = add_sat_usize(compressed, cs);
                total = add_sat_usize(total, cs);
            } else {
                total = add_sat_usize(total, os);
            }
            original = add_sat_usize(original, os);
            i = i + 1;
        }
        self.statistics.current_entry_count = store_len(&self.cache);
        self.statistics.current_memory_usage = total;
        if total > self.statistics.peak_memory_usage {
            self.statistics.peak_memory_usage = total;
        }
        self.statistics.compressed_memory_usage = compressed;
        self.statistics.original_memory_usage = original;
    }

    /// Stores `response` for `request`. A request without a key is not
    /// stored. The entry expires after the default time to live; it is
    /// compressed when that is on and the response is large enough; when
    /// the memory limit would be passed, least recently used entries go
    /// first. The new entry becomes the most recently used; an entry under
    /// the same key is replaced, and when the cache is full the least
    /// recently used entry goes.
    pub fn put(&mut self, request: &StreamRequest, response: StreamResponse)
        requires
            old(self).wf(),
            old(self).settings().enable_compression ==> old(self).settings().compression_level <= 10,
            old(self).settings().max_memory_mb <= usize::MAX / 1048576,
        ensures
            final(self).wf(),
            final(self).settings() == old(self).settings(),
            final(self).capacity() == old(self).capacity(),
            final(self).scheme() == old(self).scheme(),
            final(self).clock() >= old(self).clock(),
            final(self).stats().total_requests == old(self).stats().total_requests,
            final(self).stats().cache_hits == old(self).stats().cache_hits,
            final(self).stats().cache_misses == old(self).stats().cache_misses,
            old(self).key_of(*request) is None ==> *final(self) == *old(self),
            old(self).key_of(*request) matches Some(k) ==> {
                &&& final(self).entries().len() >= 1
                &&& final(self).entries()[0].0 == slot_of(k)
                &&& final(self).entries()[0].1.key@ == k
                &&& final(self).entries()[0].1.created_at == final(self).clock()
                &&& stored_for(final(self).entries()[0].1, response, old(self).settings())
                &&& exists|m: int| {
                    &&& 0 <= m <= old(self).entries().len()
                    &&& old(self).stats().current_memory_usage + entry_size(final(self).entries()[0].1)
                        <= old(self).settings().max_memory_mb * 1048576 ==> m == old(self).entries().len()
                    &&& final(self).entries() == seq![final(self).entries()[0]] + kept_beside(
                        #[trigger] old(self).entries().take(m),
                        slot_of(k),
                        old(self).capacity(),
                    )
                }
            },
    {
        let cache_key = match self.key_hasher.generate_key(request) {
            Some(k) => k,
            None => {
                return;
            },
        };
        if !self.key_hasher.should_cache_response(request, &response) {
            return;
        }
        let now = self.read_clock();
        let ttl = self.key_hasher.calculate_ttl(request, self.config.default_ttl_ms);
        let expires_at = if ttl == u64::MAX {
            None
        } else {
            Some(add_sat_u64(now, mul_sat_u64(ttl, 1_000_000)))
        };
        let (final_response, is_compressed, original_size, compressed_size, compressed_data) =
            if self.config.enable_compression {
                self.compress_response_if_beneficial(&response)
            } else {
                let size = estimate_response_size(&response);
                (response, false, size, size, None)
            };
        let slot = slot_key(&cache_key);
        let entry = CacheEntry {
            key: cache_key,
            response: final_response,
            created_at: now,
            last_accessed: now,
            access_count: 1,
            expires_at,
            is_compressed,
            original_size,
            compressed_size,
            compressed_data,
            cache_quality_percent: 80,
        };
        let ghost es0 = self.entries();
        proof {
            assert(es0.take(es0.len() as int) =~= es0);
        }
        assert(self.statistics == old(self).statistics && self.cache == old(self).cache);
        let evict = self.should_evict_for_memory(&entry);
        if evict {
            self.evict_by_memory_pressure();
        } else {
            assert(self.entries() == es0.take(es0.len() as int));
        }
        let ghost before = self.entries();
        let ghost m = choose|m: int| 0 <= m <= es0.len() && before == es0.take(m);
        proof {
            assert(old(self).entries() == es0);
            if !evict {
                assert(es0.take(m).len() == es0.len());
                assert(m == es0.len());
            }
        }
        let ghost pushed = entry;
        let evicted = store_push(&mut self.cache, slot, entry);
        if evicted.is_some() {
            self.statistics.cache_evictions = increment(self.statistics.cache_evictions);
        }
        proof {
            assert(self.entries()[0] == (slot, pushed));
            assert(self.entries() =~= seq![self.entries()[0]] + kept_beside(es0.take(m), slot, lru_capacity(old(self).cache)));
        }
        self.update_cache_statistics();
    }

    /// Serves the entry stored under `key`, as `get` does, without recording
    /// the access; an expired entry is dropped and counts for nothing.
    pub fn get_by_key(&mut self, key: &CacheKey) -> (r: Option<StreamResponse>)
        requires
            old(self).wf(),
        ensures
            final(self).wf(),
            final(self).settings() == old(self).settings(),
            final(self).capacity() == old(self).capacity(),
            final(self).scheme() == old(self).scheme(),
            final(self).clock() >= old(self).clock(),
            final(self).analyzer() == old(self).analyzer(),
            ({
                let es = old(self).entries();
                match index_of_key(es, slot_of(key@)) {
                    Some(i) => if es[i].1.key@ == key@ {
                        exists|now: u64| #![trigger expired(es[i].1, now)] old(self).clock() <= now <= final(self).clock() && {
                            if expired(es[i].1, now) {
                                &&& r is None
                                &&& final(self).entries() == es.remove(i)
                                &&& final(self).stats() == old(self).stats()
                            } else {
                                &&& r matches Some(out) && served_from(es[i].1, out)
                                &&& final(self).entries() == seq![(slot_of(key@), touched(es[i].1, now))] + es.remove(i)
                                &&& final(self).stats().cache_hits == inc(old(self).stats().cache_hits)
                                &&& final(self).stats().cache_misses == old(self).stats().cache_misses
                                &&& final(self).stats().total_requests == inc(old(self).stats().total_requests)
                            }
                        }
                    } else {
                        &&& r is None
                        &&& final(self).entries() == es
                        &&& final(self).stats().cache_misses == inc(old(self).stats().cache_misses)
                        &&& final(self).stats().cache_hits == old(self).stats().cache_hits
                        &&& final(self).stats().total_requests == inc(old(self).stats().total_requests)
                    },
                    None => {
                        &&& r is None
                        &&& final(self).entries() == es
                        &&& final(self).stats().cache_misses == inc(old(self).stats().cache_misses)
                        &&& final(self).stats().cache_hits == old(self).stats().cache_hits
                        &&& final(self).stats().total_requests == inc(old(self).stats().total_requests)
                    },
                }
            }),
    {
        let start = self.read_clock();
        let slot = slot_key(key);
        let ghost es = self.entries();
        let matches = match store_peek(&self.cache, &slot) {
            Some(e) => e.key.same_as(key),
            None => false,
        };
        if !matches {
            let end = self.read_clock();
            self.record_cache_miss(end - start);
            return None;
        }
        let now = self.read_clock();
        let mut entry = match store_pop(&mut self.cache, &slot) {
            Some(e) => e,
            None => {
                return None;
            },
        };
        let is_expired = match entry.expires_at {
            Some(t) => now > t,
            None => false,
        };
        if is_expired {
            assert(expired(es[index_of_key(es, slot)->0].1, now));
            return None;
        }
        entry.last_accessed = now;
        entry.access_count = increment(entry.access_count);
        let response = self.serve(&entry);
        let ghost popped = self.entries();
        let _ = store_push(&mut self.cache, slot, entry);
        proof {
            assert(index_of_key(popped, slot) is None) by {
                lemma_removed_key_absent(es, index_of_key(es, slot)->0);
            }
        }
        let end = self.read_clock();
        self.record_cache_hit(end - start);
        assert(!expired(es[index_of_key(es, slot)->0].1, now));
        Some(response)
    }

    /// Changes how many entries the cache holds; the least recently used
    /// beyond the new size go. A size of zero is refused.
    pub fn resize_cache(&mut self, new_size: usize) -> (r: Result<(), CacheError>)
        requires
            old(self).wf(),
        ensures
            final(self).wf(),
            new_size == 0 ==> *final(self) == *old(self) && (r matches Err(e)
                && e == CacheError::InvalidConfiguration(e->InvalidConfiguration_0)
                && e->InvalidConfiguration_0@ == "new_size must be greater than 0"@),
            final(self).clock() == old(self).clock(),
            new_size > 0 ==> r is Ok && final(self).capacity() == new_size
                && final(self).entries() == old(self).entries().take(
                    if old(self).entries().len() <= new_size { old(self).entries().len() as int } else { new_size as int },
                ),
    {
        if new_size == 0 {
            return Err(CacheError::InvalidConfiguration(String::from_str("new_size must be greater than 0")));
        }
        store_resize(&mut self.cache, new_size);
        Ok(())
    }

    /// Drops every entry and sets the counters to zero.
    pub fn clear(&mut self)
        requires
            old(self).wf(),
        ensures
            final(self).wf(),
            final(self).capacity() == old(self).capacity(),
            final(self).settings() == old(self).settings(),
            final(self).entries() == Seq::<(SlotKey, CacheEntry)>::empty(),
            final(self).clock() == old(self).clock(),
            final(self).stats().total_requests == 0 && final(self).stats().cache_hits == 0
                && final(self).stats().cache_misses == 0 && final(self).stats().cache_evictions == 0,
    {
        store_clear(&mut self.cache);
        self.statistics = CacheStatistics::zero();
    }

    /// A copy of the counters.
    pub fn get_statistics(&self) -> (r: CacheStatistics)
        ensures
            r == self.stats(),
    {
        CacheStatistics { ..self.statistics }
    }

    /// The number of entries held.
    pub fn entry_count(&self) -> (r: usize)
        ensures
            r == self.entries().len(),
    {
        store_len(&self.cache)
    }

    /// The settings.
    pub fn config(&self) -> (r: &CacheConfig)
        ensures
            *r == self.settings(),
    {
        &self.config
    }

    /// Advice on tuning the cache.
    pub fn generate_optimization_recommendations(&self) -> (r: Vec<String>)
        ensures
            r@.len() == 3,
            r@[0]@ == "Consider increasing cache size if hit ratio < 70%"@,
            r@[1]@ == "Enable compression for better memory efficiency"@,
            r@[2]@ == "Adjust TTL based on access patterns"@,
    {
        let mut r: Vec<String> = Vec::new();
        r.push(String::from_str("Consider increasing cache size if hit ratio < 70%"));
        r.push(String::from_str("Enable compression for better memory efficiency"));
        r.push(String::from_str("Adjust TTL based on access patterns"));
        r
    }
}

/// Once the entry at `i` is removed, its key is no longer in the store.
proof fn lemma_removed_key_absent(es: Seq<(SlotKey, CacheEntry)>, i: int)
    requires
        entry_keys(es).no_duplicates(),
        0 <= i < es.len(),
    ensures
        index_of_key(es.remove(i), es[i].0) is None,
{
    let rest = es.remove(i);
    if exists|j: int| 0 <= j < rest.len() && (#[trigger] rest[j]).0 == es[i].0 {
        let j = choose|j: int| 0 <= j < rest.len() && (#[trigger] rest[j]).0 == es[i].0;
        let jj = if j < i { j } else { j + 1 };
        assert(es[jj] == rest[j]);
        assert(entry_keys(es)[jj] == entry_keys(es)[i]);
    }
}

/// What `put` stores is what the next lookup of the same request finds
/// and serves while it has not expired: the most recently used entry is
/// the one found under the key; an entry stored uncompressed serves the
/// very response that was put, and one stored compressed serves a response
/// with the same values; and the entry has not expired at any time `now`
/// within the time to live after it was stored, nor ever without one.
/// `put` leaves the cache's clock at the entry's creation time, and the
/// next `get` reads the clock between its value before and after the
/// call, so a `get` that ends within the time to live finds the entry.
pub proof fn law_get_after_put(
    es: Seq<(SlotKey, CacheEntry)>,
    k: CacheKeyModel,
    response: StreamResponse,
    config: CacheConfig,
    out: StreamResponse,
    now: u64,
)
    requires
        es.len() >= 1,
        entry_keys(es).no_duplicates(),
        es[0].0 == slot_of(k),
        es[0].1.key@ == k,
        stored_for(es[0].1, response, config),
        served_from(es[0].1, out),
    ensures
        index_of_key(es, slot_of(k)) == Some(0int),
        !es[0].1.is_compressed ==> out == response,
        !config.enable_compression ==> out == response,
        es[0].1.is_compressed ==> same_response(response, out),
        config.default_ttl_ms == u64::MAX ==> !expired(es[0].1, now),
        config.default_ttl_ms < u64::MAX && es[0].1.created_at <= now && now - es[0].1.created_at
            <= config.default_ttl_ms * 1_000_000 ==> !expired(es[0].1, now),
{
    if es[0].1.is_compressed {
        let d = es[0].1.compressed_data->0;
        assert(d@ == gzip_of(config.compression_level, encode_utf8(response_json(response))));
    }
    assert(exists|i: int| 0 <= i < es.len() && (#[trigger] es[i]).0 == slot_of(k)) by {
        assert(es[0].0 == slot_of(k));
    }
    let i = choose|i: int| 0 <= i < es.len() && (#[trigger] es[i]).0 == slot_of(k);
    if i != 0 {
        assert(entry_keys(es)[i] == es[i].0);
        assert(entry_keys(es)[0] == es[0].0);
        assert(entry_keys(es)[i] != entry_keys(es)[0]);
    }
    assert(i == 0);
    let found = index_of_key(es, slot_of(k));
    assert(found is Some);
    let j = found->0;
    assert(0 <= j < es.len() && es[j].0 == slot_of(k));
    if j != 0 {
        assert(entry_keys(es)[j] == es[j].0);
        assert(entry_keys(es)[0] == es[0].0);
        assert(entry_keys(es)[j] != entry_keys(es)[0]);
    }
}

} // verus!
