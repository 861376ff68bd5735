use vstd::prelude::*;

use mini_moka::sync::Cache;

use crate::error::SpError;

verus! {

#[verifier::external_type_specification]
#[verifier::external_body]
#[verifier::reject_recursive_types(K)]
#[verifier::reject_recursive_types(V)]
#[verifier::reject_recursive_types(S)]
pub struct ExCache<K, V, S>(Cache<K, V, S>);

/// The entries that a bounded cache of raw handles currently holds.
pub uninterp spec fn cache_entries(c: Cache<i32, usize>) -> Map<i32, usize>;

/// How many entries each handle cache keeps before it starts to evict.
pub const CACHE_CAPACITY: u64 = 30;

/// A cache that holds nothing.
pub open spec fn no_entries() -> Map<i32, usize> {
    Map::empty()
}

/// What a map holds under `key`, if anything.
pub open spec fn lookup(m: Map<i32, usize>, key: i32) -> Option<usize> {
    if m.contains_key(key) {
        Some(m[key])
    } else {
        None
    }
}

/// What invoking the member cached under `key` goes through: its raw handle,
/// or a cache miss when no handle is cached.
pub open spec fn call_outcome(m: Map<i32, usize>, key: i32) -> Result<usize, SpError> {
    match lookup(m, key) {
        Some(h) => Ok(h),
        None => Err(SpError::CacheMiss),
    }
}

/// A bounded cache from small integer keys to raw handle values.
///
/// Under pressure the cache drops entries on its own, without notice; an
/// entry that is present holds the value that was last published for its key.
pub struct HandleCache {
    inner: Cache<i32, usize>,
}

impl View for HandleCache {
    type V = Map<i32, usize>;

    closed spec fn view(&self) -> Map<i32, usize> {
        cache_entries(self.inner)
    }
}

/// Relies on mini_moka::sync::Cache::new: a new cache holds no entry.
#[verifier::external_body]
fn new_cache(max_capacity: u64) -> (r: Cache<i32, usize>)
    ensures
        cache_entries(r) == no_entries(),
{
    Cache::new(max_capacity)
}

/// Relies on mini_moka::sync::Cache::contains_key: true exactly when the key has
/// an entry (none expires, as no time-to-live or time-to-idle is set).
#[verifier::external_body]
fn cache_contains(c: &Cache<i32, usize>, key: i32) -> (r: bool)
    ensures
        r == cache_entries(*c).contains_key(key),
{
    c.contains_key(&key)
}

/// Relies on mini_moka::sync::Cache::get: the value under the key at the time of
/// the call; the pending maintenance that the call may run afterwards only evicts.
#[verifier::external_body]
fn cache_get(c: &mut Cache<i32, usize>, key: i32) -> (r: Option<usize>)
    ensures
        r == lookup(cache_entries(*old(c)), key),
        cache_entries(*final(c)).submap_of(cache_entries(*old(c))),
{
    c.get(&key)
}

/// Relies on mini_moka::sync::Cache::insert: a key that had no entry gets one at
/// once; the pending maintenance that the call may run first only evicts entries
/// that were there before.
#[verifier::external_body]
fn cache_insert(c: &mut Cache<i32, usize>, key: i32, value: usize)
    requires
        !cache_entries(*old(c)).contains_key(key),
    ensures
        cache_entries(*final(c)).contains_key(key),
        cache_entries(*final(c))[key] == value,
        cache_entries(*final(c)).submap_of(cache_entries(*old(c)).insert(key, value)),
{
    c.insert(key, value)
}

impl HandleCache {
    /// An empty cache that starts to evict beyond `max_capacity` entries.
    pub(crate) fn with_capacity(max_capacity: u64) -> (r: HandleCache)
        ensures
            r@ == no_entries(),
    {
        HandleCache { inner: new_cache(max_capacity) }
    }

    /// Whether `key` has an entry.
    pub(crate) fn contains_key(&self, key: i32) -> (r: bool)
        ensures
            r == self@.contains_key(key),
    {
        cache_contains(&self.inner, key)
    }

    /// The value under `key`; the call may evict other entries.
    pub(crate) fn get(&mut self, key: i32) -> (r: Option<usize>)
        ensures
            r == lookup(old(self)@, key),
            final(self)@.submap_of(old(self)@),
    {
        cache_get(&mut self.inner, key)
    }

    /// Caches `value` under `key`, which had no entry; the call may evict other entries.
    pub(crate) fn insert(&mut self, key: i32, value: usize)
        requires
            !old(self)@.contains_key(key),
        ensures
            final(self)@.contains_key(key),
            final(self)@[key] == value,
            final(self)@.submap_of(old(self)@.insert(key, value)),
    {
        cache_insert(&mut self.inner, key, value)
    }
}

/// The five handle caches, one for each kind of handle, each bounded on its own.
pub struct Registry {
    pub classes: HandleCache,
    pub fields: HandleCache,
    pub static_fields: HandleCache,
    pub methods: HandleCache,
    pub static_methods: HandleCache,
}

/// The kinds of handle, one cache each.
#[derive(Debug, Clone, Copy, PartialEq, Eq, Structural)]
pub enum HandleKind {
    Class,
    Field,
    StaticField,
    Method,
    StaticMethod,
}

impl Registry {
    /// Every cache but the one of kind `k` is the same in both registries.
    pub open spec fn same_except(self, other: Registry, k: HandleKind) -> bool {
        &&& (k != HandleKind::Class ==> self.classes == other.classes)
        &&& (k != HandleKind::Field ==> self.fields == other.fields)
        &&& (k != HandleKind::StaticField ==> self.static_fields == other.static_fields)
        &&& (k != HandleKind::Method ==> self.methods == other.methods)
        &&& (k != HandleKind::StaticMethod ==> self.static_methods == other.static_methods)
    }

    /// Five empty caches of `CACHE_CAPACITY` entries each.
    pub fn new() -> (r: Registry)
        ensures
            r.classes@ == no_entries(),
            r.fields@ == no_entries(),
            r.static_fields@ == no_entries(),
            r.methods@ == no_entries(),
            r.static_methods@ == no_entries(),
    {
        Registry {
            classes: HandleCache::with_capacity(CACHE_CAPACITY),
            fields: HandleCache::with_capacity(CACHE_CAPACITY),
            static_fields: HandleCache::with_capacity(CACHE_CAPACITY),
            methods: HandleCache::with_capacity(CACHE_CAPACITY),
            static_methods: HandleCache::with_capacity(CACHE_CAPACITY),
        }
    }
}

} // verus!
