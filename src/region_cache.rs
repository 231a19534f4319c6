use vstd::prelude::*;
use polars_utils::cache::FastFixedCache;

verus! {

#[verifier::external_type_specification]
#[verifier::external_body]
#[verifier::reject_recursive_types(K)]
#[verifier::reject_recursive_types(V)]
pub struct ExFastFixedCache<K, V>(FastFixedCache<K, V>);

/// What a cache holds: for each key that `get` finds, the value that it returns.
pub uninterp spec fn cached_entries(c: FastFixedCache<String, String>) -> Map<Seq<char>, Seq<char>>;

/// The number of slots that a cache was made with.
pub uninterp spec fn cache_slots(c: FastFixedCache<String, String>) -> nat;

/// Relies on `FastFixedCache::new`: the cache starts empty, with `n` rounded up to a
/// power of two, at least 16, slots; a power of two of at least 16 stays as it is.
#[verifier::external_body]
fn new_fixed_cache(n: usize) -> (r: FastFixedCache<String, String>)
    requires
        n == 16 || n == 32 || n == 64 || n == 128 || n == 256,
    ensures
        cached_entries(r).dom() == Set::<Seq<char>>::empty(),
        cache_slots(r) == n,
{
    FastFixedCache::new(n)
}

/// Relies on `FastFixedCache::get`: it finds the slot that holds the key, if any, and
/// changes no entry (only the time of last access).
#[verifier::external_body]
fn fixed_cache_get(c: &FastFixedCache<String, String>, k: &str) -> (r: Option<String>)
    ensures
        r matches Some(v) ==> cached_entries(*c).contains_key(k@) && cached_entries(*c)[k@] == v@,
        r is None ==> !cached_entries(*c).contains_key(k@),
{
    c.get(k).cloned()
}

/// Relies on `FastFixedCache::get_mut`: where the key is held, its value is replaced in
/// place; no other slot changes.
#[verifier::external_body]
fn fixed_cache_overwrite(c: &mut FastFixedCache<String, String>, k: &str, v: String) -> (r: bool)
    ensures
        r == cached_entries(*old(c)).contains_key(k@),
        cached_entries(*final(c)) == if r {
            cached_entries(*old(c)).insert(k@, v@)
        } else {
            cached_entries(*old(c))
        },
        cache_slots(*final(c)) == cache_slots(*old(c)),
{
    match c.get_mut(k) {
        Some(slot) => {
            *slot = v;
            true
        },
        None => false,
    }
}

/// Relies on `FastFixedCache::insert`: a key that is not held takes one of its two
/// slots, evicting at most the entry that was there; the slots hold distinct keys, so
/// no more entries than slots.
#[verifier::external_body]
fn fixed_cache_insert(c: &mut FastFixedCache<String, String>, k: String, v: String)
    requires
        !cached_entries(*old(c)).contains_key(k@),
    ensures
        cached_entries(*final(c)).contains_key(k@),
        cached_entries(*final(c))[k@] == v@,
        forall|j: Seq<char>| #[trigger] cached_entries(*final(c)).contains_key(j) && j != k@
            ==> cached_entries(*old(c)).contains_key(j) && cached_entries(*final(c))[j]
            == cached_entries(*old(c))[j],
        cached_entries(*final(c)).dom().finite(),
        cached_entries(*final(c)).dom().len() <= cache_slots(*final(c)),
        cache_slots(*final(c)) == cache_slots(*old(c)),
{
    c.insert(k, v);
}

/// Entries that a region cache holds at most.
pub const REGION_CACHE_SIZE: usize = 32;

/// A bounded cache from bucket name to the bucket's region. When full, an insertion
/// evicts an entry that was used less recently.
pub struct RegionCache {
    cache: FastFixedCache<String, String>,
}

/// `after` is `before` once `region` was stored for `bucket`: the bucket maps to the
/// region, every other entry was there before with the same region, and the bound holds.
pub open spec fn stored(before: RegionCache, after: RegionCache, bucket: Seq<char>, region: Seq<char>) -> bool {
    &&& after.wf()
    &&& after.bound() == before.bound()
    &&& after.entries().contains_key(bucket)
    &&& after.entries()[bucket] == region
    &&& forall|j: Seq<char>| #[trigger] after.entries().contains_key(j) && j != bucket
        ==> before.entries().contains_key(j) && after.entries()[j] == before.entries()[j]
}

impl RegionCache {
    /// The region held for each bucket.
    pub closed spec fn entries(&self) -> Map<Seq<char>, Seq<char>> {
        cached_entries(self.cache)
    }

    /// The most entries that the cache holds.
    pub closed spec fn bound(&self) -> nat {
        cache_slots(self.cache)
    }

    /// The cache holds finitely many entries, no more than its bound.
    pub open spec fn wf(&self) -> bool {
        &&& self.entries().dom().finite()
        &&& self.entries().dom().len() <= self.bound()
    }

    /// An empty cache for `REGION_CACHE_SIZE` buckets.
    pub fn new() -> (r: RegionCache)
        ensures
            r.wf(),
            r.entries().dom() == Set::<Seq<char>>::empty(),
            r.bound() == REGION_CACHE_SIZE,
    {
        let cache = new_fixed_cache(REGION_CACHE_SIZE);
        RegionCache { cache }
    }

    /// The region held for a bucket.
    pub fn get(&self, bucket: &str) -> (r: Option<String>)
        ensures
            r matches Some(v) ==> self.entries().contains_key(bucket@) && self.entries()[bucket@] == v@,
            r is None ==> !self.entries().contains_key(bucket@),
    {
        fixed_cache_get(&self.cache, bucket)
    }

    /// Stores the region of a bucket, replacing what was held for it.
    pub fn insert(&mut self, bucket: String, region: String)
        requires
            old(self).wf(),
        ensures
            stored(*old(self), *final(self), bucket@, region@),
    {
        let ghost before = *self;
        let replaced = fixed_cache_overwrite(&mut self.cache, bucket.as_str(), region.clone());
        if !replaced {
            fixed_cache_insert(&mut self.cache, bucket, region);
        } else {
            assert(self.entries().dom() =~= before.entries().dom());
        }
    }
}

/// A lookup right after a bucket's region was stored finds that region, and the cache
/// never holds more entries than its bound.
pub proof fn lemma_lookup_after_store(
    before: RegionCache,
    after: RegionCache,
    bucket: Seq<char>,
    region: Seq<char>,
)
    requires
        stored(before, after, bucket, region),
    ensures
        after.entries().contains_key(bucket),
        after.entries()[bucket] == region,
        after.entries().dom().len() <= after.bound(),
        after.bound() == before.bound(),
{
}

} // verus!
