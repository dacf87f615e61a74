use vstd::prelude::*;

verus! {

#[verifier::external_type_specification]
#[verifier::external_body]
#[verifier::reject_recursive_types(K)]
#[verifier::reject_recursive_types(V)]
#[verifier::reject_recursive_types(S)]
pub struct ExCache<K, V, S>(moka::sync::Cache<K, V, S>);

/// The value that each key was last given through this handle of the cache.
/// An entry may since have expired or been evicted; it is never replaced by
/// anything else.
pub uninterp spec fn stored(c: moka::sync::Cache<String, String>) -> Map<Seq<char>, Seq<char>>;

/// The capacity and the time to live in seconds that the cache was built with.
pub uninterp spec fn settings(c: moka::sync::Cache<String, String>) -> (u64, u64);

/// The longest time to live that moka's builder accepts: a thousand years.
pub const MAX_TTL_SECONDS: u64 = 31_536_000_000;

/// Relies on moka's `CacheBuilder` (`max_capacity`, `eviction_policy` with
/// `EvictionPolicy::lru`, `time_to_live`, `build`): a new cache holds nothing and
/// keeps the capacity and time to live it was given; `build` panics on a time to
/// live over a thousand years.
#[verifier::external_body]
fn build_cache(max_capacity: u64, ttl_seconds: u64) -> (r: moka::sync::Cache<String, String>)
    requires
        ttl_seconds <= MAX_TTL_SECONDS,
    ensures
        stored(r).dom() == Set::<Seq<char>>::empty(),
        settings(r) == (max_capacity, ttl_seconds),
{
    moka::sync::Cache::builder()
        .max_capacity(max_capacity)
        .eviction_policy(moka::policy::EvictionPolicy::lru())
        .time_to_live(std::time::Duration::from_secs(ttl_seconds))
        .build()
}

/// Relies on moka's `Cache::get`: it returns a clone of the value held for the
/// key, which is the value last inserted for it, or nothing once that entry has
/// expired or been evicted.
#[verifier::external_body]
fn cache_get(c: &moka::sync::Cache<String, String>, key: &str) -> (r: Option<String>)
    ensures
        r matches Some(v) ==> stored(*c).contains_key(key@) && stored(*c)[key@] == v@,
{
    c.get(key)
}

/// Relies on moka's `Cache::insert`: the key is given the value, replacing the
/// one it held; the cache's capacity and time to live stay.
#[verifier::external_body]
fn cache_insert(c: &mut moka::sync::Cache<String, String>, key: String, value: String)
    ensures
        stored(*final(c)) == stored(*old(c)).insert(key@, value@),
        settings(*final(c)) == settings(*old(c)),
{
    c.insert(key, value)
}

/// The most entries that a translation cache holds.
pub const CACHE_CAPACITY: u64 = 1000;

/// A bounded, time-limited store of finished translations, keyed by text. When
/// full, it evicts the least recently used entry.
pub struct TranslationCache {
    cache: moka::sync::Cache<String, String>,
}

impl TranslationCache {
    /// What the cache was last given for each key.
    pub closed spec fn entries(&self) -> Map<Seq<char>, Seq<char>> {
        stored(self.cache)
    }

    /// The capacity and the time to live in seconds that the cache was built with.
    pub closed spec fn capacity_and_ttl(&self) -> (u64, u64) {
        settings(self.cache)
    }

    /// An empty cache of `CACHE_CAPACITY` entries whose entries expire
    /// `ttl_seconds` after insertion.
    pub fn new(ttl_seconds: u64) -> (r: TranslationCache)
        requires
            ttl_seconds <= MAX_TTL_SECONDS,
        ensures
            r.entries().dom() == Set::<Seq<char>>::empty(),
            r.capacity_and_ttl() == (CACHE_CAPACITY, ttl_seconds),
    {
        TranslationCache { cache: build_cache(CACHE_CAPACITY, ttl_seconds) }
    }

    /// The value held for `key`, if it is still there. A value found is the one
    /// that the key was last given.
    pub fn get(&self, key: &str) -> (r: Option<String>)
        ensures
            r matches Some(v) ==> self.entries().contains_key(key@) && self.entries()[key@]
                == v@,
    {
        cache_get(&self.cache, key)
    }

    /// Gives `key` the value `value`.
    pub fn insert(&mut self, key: String, value: String)
        ensures
            final(self).entries() == old(self).entries().insert(key@, value@),
            final(self).capacity_and_ttl() == old(self).capacity_and_ttl(),
    {
        cache_insert(&mut self.cache, key, value)
    }
}

} // verus!
