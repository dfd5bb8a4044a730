//! The least-recently-used store of the `lru` crate, behind trusted calls.
use vstd::prelude::*;

use crate::cache::keys::CacheKey;
use crate::proto::StreamResponse;

verus! {

/// `lru::LruCache`, declared so that the cache can hold one.
#[verifier::external_type_specification]
#[verifier::external_body]
#[verifier::reject_recursive_types(K)]
#[verifier::reject_recursive_types(V)]
#[verifier::reject_recursive_types(S)]
pub struct ExLruCache<K, V, S>(lru::LruCache<K, V, S>);

/// `lru::DefaultHasher`, the hasher the store is built with.
#[verifier::external_type_specification]
#[verifier::external_body]
pub struct ExLruDefaultHasher(lru::DefaultHasher);

/// The integers by which an entry is found: operation kind, request hash
/// and key scheme version.
pub type SlotKey = (u8, u64, u32);

/// A cached response with its bookkeeping. Times are nanoseconds on the
/// cache's clock.
#[derive(Debug, Clone)]
pub struct CacheEntry {
    /// The full key the entry was stored under.
    pub key: CacheKey,
    /// The response, or a marker standing for it when it is compressed.
    pub response: StreamResponse,
    pub created_at: u64,
    pub last_accessed: u64,
    pub access_count: u64,
    /// When the entry stops being served, if ever.
    pub expires_at: Option<u64>,
    pub is_compressed: bool,
    pub original_size: usize,
    pub compressed_size: usize,
    /// The compressed response.
    pub compressed_data: Option<Vec<u8>>,
    /// Quality of the entry, in hundredths.
    pub cache_quality_percent: u8,
}

/// The store the cache keeps its entries in.
pub type EntryStore = lru::LruCache<SlotKey, CacheEntry>;

/// Name for the entries of a store, most recently used first.
pub uninterp spec fn lru_entries(store: EntryStore) -> Seq<(SlotKey, CacheEntry)>;

/// Name for the number of entries a store holds at most.
pub uninterp spec fn lru_capacity(store: EntryStore) -> nat;

/// The keys of `entries`.
pub open spec fn entry_keys(entries: Seq<(SlotKey, CacheEntry)>) -> Seq<SlotKey> {
    entries.map_values(|e: (SlotKey, CacheEntry)| e.0)
}

/// What holds of every store: each key once, no more entries than the
/// capacity, and a capacity of at least one.
pub open spec fn store_ok(store: EntryStore) -> bool {
    &&& entry_keys(lru_entries(store)).no_duplicates()
    &&& lru_entries(store).len() <= lru_capacity(store)
    &&& lru_capacity(store) >= 1
}

/// The index of `key` in `entries`, if it is there.
pub open spec fn index_of_key(entries: Seq<(SlotKey, CacheEntry)>, key: SlotKey) -> Option<int> {
    if exists|i: int| 0 <= i < entries.len() && (#[trigger] entries[i]).0 == key {
        Some(choose|i: int| 0 <= i < entries.len() && (#[trigger] entries[i]).0 == key)
    } else {
        None
    }
}

/// Calls `LruCache::new` with capacity `cap` (made a `NonZeroUsize`): an
/// empty store of that capacity.
#[verifier::external_body]
pub fn store_new(cap: usize) -> (r: EntryStore)
    requires
        cap > 0,
    ensures
        store_ok(r),
        lru_entries(r) == Seq::<(SlotKey, CacheEntry)>::empty(),
        lru_capacity(r) == cap,
{
    lru::LruCache::new(std::num::NonZeroUsize::new(cap).unwrap())
}

/// Calls `LruCache::push`: the entry goes first. An entry under the same key
/// is replaced and given back with the key; else, when the store is full,
/// the least recently used entry goes and is given back.
#[verifier::external_body]
pub fn store_push(store: &mut EntryStore, key: SlotKey, value: CacheEntry) -> (r: Option<(SlotKey, CacheEntry)>)
    requires
        store_ok(*old(store)),
    ensures
        store_ok(*final(store)),
        lru_capacity(*final(store)) == lru_capacity(*old(store)),
        match index_of_key(lru_entries(*old(store)), key) {
            Some(i) => r == Some((key, lru_entries(*old(store))[i].1))
                && lru_entries(*final(store)) == seq![(key, value)] + lru_entries(*old(store)).remove(i),
            None => if lru_entries(*old(store)).len() == lru_capacity(*old(store)) {
                r == Some(lru_entries(*old(store)).last())
                    && lru_entries(*final(store)) == seq![(key, value)] + lru_entries(*old(store)).drop_last()
            } else {
                r is None && lru_entries(*final(store)) == seq![(key, value)] + lru_entries(*old(store))
            },
        },
{
    store.push(key, value)
}

/// Calls `LruCache::pop`: removes the entry under `key` and gives its value
/// back.
#[verifier::external_body]
pub fn store_pop(store: &mut EntryStore, key: &SlotKey) -> (r: Option<CacheEntry>)
    requires
        store_ok(*old(store)),
    ensures
        store_ok(*final(store)),
        lru_capacity(*final(store)) == lru_capacity(*old(store)),
        match index_of_key(lru_entries(*old(store)), *key) {
            Some(i) => r == Some(lru_entries(*old(store))[i].1)
                && lru_entries(*final(store)) == lru_entries(*old(store)).remove(i),
            None => r is None && lru_entries(*final(store)) == lru_entries(*old(store)),
        },
{
    store.pop(key)
}

/// Calls `LruCache::peek`: the value under `key`, without making it the
/// most recently used.
#[verifier::external_body]
pub fn store_peek<'a>(store: &'a EntryStore, key: &SlotKey) -> (r: Option<&'a CacheEntry>)
    ensures
        match index_of_key(lru_entries(*store), *key) {
            Some(i) => r == Some(&lru_entries(*store)[i].1),
            None => r is None,
        },
{
    store.peek(key)
}

/// Calls `LruCache::pop_lru`: removes the least recently used entry and
/// gives it back.
#[verifier::external_body]
pub fn store_pop_lru(store: &mut EntryStore) -> (r: Option<(SlotKey, CacheEntry)>)
    requires
        store_ok(*old(store)),
    ensures
        store_ok(*final(store)),
        lru_capacity(*final(store)) == lru_capacity(*old(store)),
        lru_entries(*old(store)).len() == 0 ==> r is None && lru_entries(*final(store)) == lru_entries(*old(store)),
        lru_entries(*old(store)).len() > 0 ==> r == Some(lru_entries(*old(store)).last())
            && lru_entries(*final(store)) == lru_entries(*old(store)).drop_last(),
{
    store.pop_lru()
}

/// Calls `LruCache::resize` with capacity `cap`: the least recently used
/// entries beyond it go.
#[verifier::external_body]
pub fn store_resize(store: &mut EntryStore, cap: usize)
    requires
        store_ok(*old(store)),
        cap > 0,
    ensures
        store_ok(*final(store)),
        lru_capacity(*final(store)) == cap,
        lru_entries(*final(store)) == lru_entries(*old(store)).take(
            if lru_entries(*old(store)).len() <= cap { lru_entries(*old(store)).len() as int } else { cap as int },
        ),
{
    store.resize(std::num::NonZeroUsize::new(cap).unwrap())
}

/// Calls `LruCache::clear`: no entry is left.
#[verifier::external_body]
pub fn store_clear(store: &mut EntryStore)
    requires
        store_ok(*old(store)),
    ensures
        store_ok(*final(store)),
        lru_capacity(*final(store)) == lru_capacity(*old(store)),
        lru_entries(*final(store)) == Seq::<(SlotKey, CacheEntry)>::empty(),
{
    store.clear()
}

/// Calls `LruCache::len`.
#[verifier::external_body]
pub fn store_len(store: &EntryStore) -> (r: usize)
    ensures
        r == lru_entries(*store).len(),
{
    store.len()
}

/// Calls `LruCache::iter` and gives, for each entry, most recently used
/// first, whether it is compressed and its two sizes.
#[verifier::external_body]
pub fn store_sizes(store: &EntryStore) -> (r: Vec<(bool, usize, usize)>)
    ensures
        r@.len() == lru_entries(*store).len(),
        forall|i: int| 0 <= i < r@.len() ==> (#[trigger] r@[i]) == (
            lru_entries(*store)[i].1.is_compressed,
            lru_entries(*store)[i].1.compressed_size,
            lru_entries(*store)[i].1.original_size,
        ),
{
    store.iter().map(|(_, e)| (e.is_compressed, e.compressed_size, e.original_size)).collect()
}

} // verus!
