//! In-memory string cache with per-entry time-to-live, used to avoid
//! re-invoking expensive external queries.
//!
//! The cache is modelled as a `Map` from key to `(value, expiry)`. Reads
//! sweep out every expired entry first; a disabled cache stores nothing and
//! always misses. Time enters as an explicit instant so that every decision
//! is verified; the clock is read only in the thin public wrappers.

use vstd::prelude::*;

use crate::clock::now_seconds;
use crate::config::CacheConfig;
use crate::strutil::str_eq;

verus! {

/// One stored entry: a value and the instant past which it is dead.
pub struct CacheEntry {
    pub data: String,
    pub expires_at: u64,
}

/// The instant at which an entry stored now with this time-to-live dies,
/// clamped at the top of the clock's range.
pub open spec fn expiry_of(now: u64, ttl_seconds: u64) -> u64 {
    if now + ttl_seconds > u64::MAX {
        u64::MAX
    } else {
        (now + ttl_seconds) as u64
    }
}

impl CacheEntry {
    /// A fresh entry that expires `ttl_seconds` after `now`.
    pub fn new(data: String, ttl_seconds: u64, now: u64) -> (r: CacheEntry)
        ensures
            r.data == data,
            r.expires_at == expiry_of(now, ttl_seconds),
    {
        CacheEntry { data, expires_at: now.saturating_add(ttl_seconds) }
    }

    /// An entry is dead strictly after its expiry instant.
    pub fn is_expired(&self, now: u64) -> (r: bool)
        ensures
            r == (now > self.expires_at),
    {
        now > self.expires_at
    }
}

/// One keyed item of the backing store.
struct CacheItem {
    key: String,
    entry: CacheEntry,
}

/// Mathematical model of one keyed item.
pub ghost struct CacheItemModel {
    pub key: Seq<char>,
    pub data: Seq<char>,
    pub expires_at: u64,
}

impl View for CacheItem {
    type V = CacheItemModel;

    closed spec fn view(&self) -> CacheItemModel {
        CacheItemModel { key: self.key@, data: self.entry.data@, expires_at:
            self.entry.expires_at }
    }
}

/// The stored value and expiry that one item denotes.
pub ghost struct CacheEntryModel {
    pub data: Seq<char>,
    pub expires_at: u64,
}

/// The models of a sequence of items.
spec fn cache_models(s: Seq<CacheItem>) -> Seq<CacheItemModel> {
    s.map_values(|it: CacheItem| it@)
}

/// All keys in `s` are pairwise distinct.
pub open spec fn cache_keys_unique(s: Seq<CacheItemModel>) -> bool {
    forall|i: int, j: int| 0 <= i < j < s.len() ==> s[i].key != s[j].key
}

/// The map that a sequence of items denotes.
pub open spec fn items_as_map(s: Seq<CacheItemModel>) -> Map<Seq<char>, CacheEntryModel>
    decreases s.len(),
{
    if s.len() == 0 {
        Map::empty()
    } else {
        items_as_map(s.drop_last()).insert(
            s.last().key,
            CacheEntryModel { data: s.last().data, expires_at: s.last().expires_at },
        )
    }
}

/// The part of a cache map that is still alive at `now`.
pub open spec fn live_entries(m: Map<Seq<char>, CacheEntryModel>, now: u64) -> Map<
    Seq<char>,
    CacheEntryModel,
> {
    Map::new(|k: Seq<char>| m.contains_key(k) && now <= m[k].expires_at, |k: Seq<char>| m[k])
}

/// The items of `s` that are still alive at `now`, in order.
pub open spec fn filter_live(s: Seq<CacheItemModel>, now: u64) -> Seq<CacheItemModel>
    decreases s.len(),
{
    if s.len() == 0 {
        Seq::empty()
    } else if now <= s.last().expires_at {
        filter_live(s.drop_last(), now).push(s.last())
    } else {
        filter_live(s.drop_last(), now)
    }
}

/// Under unique keys, membership and lookup in `items_as_map` are exactly
/// membership and lookup in the sequence.
proof fn lemma_items_as_map_props(s: Seq<CacheItemModel>)
    requires
        cache_keys_unique(s),
    ensures
        forall|k: Seq<char>|
            #[trigger] items_as_map(s).contains_key(k) <==> exists|i: int|
                0 <= i < s.len() && s[i].key == k,
        forall|i: int|
            0 <= i < s.len() ==> items_as_map(s)[#[trigger] s[i].key] == (CacheEntryModel {
                data: s[i].data,
                expires_at: s[i].expires_at,
            }),
    decreases s.len(),
{
    if s.len() > 0 {
        let dl = s.drop_last();
        assert(cache_keys_unique(dl));
        lemma_items_as_map_props(dl);
        assert forall|i: int| 0 <= i < s.len() implies items_as_map(s)[#[trigger] s[i].key]
            == (CacheEntryModel { data: s[i].data, expires_at: s[i].expires_at }) by {
            if i < s.len() - 1 {
                assert(s[i].key != s.last().key);
                assert(dl[i] == s[i]);
            }
        }
        assert forall|k: Seq<char>| #[trigger] items_as_map(s).contains_key(k) implies exists|
            i: int,
        | 0 <= i < s.len() && s[i].key == k by {
            if k == s.last().key {
                assert(s[s.len() - 1].key == k);
            } else {
                assert(items_as_map(dl).contains_key(k));
                let i = choose|i: int| 0 <= i < dl.len() && dl[i].key == k;
                assert(dl[i] == s[i]);
                assert(s[i].key == k);
            }
        }
        assert forall|k: Seq<char>| (exists|i: int| 0 <= i < s.len() && s[i].key == k)
            implies #[trigger] items_as_map(s).contains_key(k) by {
            let i = choose|i: int| 0 <= i < s.len() && s[i].key == k;
            if i < s.len() - 1 {
                assert(dl[i].key == k);
            }
        }
    }
}

/// Sweeping the sequence is restricting the map to its live part.
proof fn lemma_filter_live_map(s: Seq<CacheItemModel>, now: u64)
    requires
        cache_keys_unique(s),
    ensures
        cache_keys_unique(filter_live(s, now)),
        items_as_map(filter_live(s, now)) == live_entries(items_as_map(s), now),
    decreases s.len(),
{
    lemma_items_as_map_props(s);
    if s.len() == 0 {
        assert(items_as_map(filter_live(s, now)) =~= live_entries(items_as_map(s), now));
    } else {
        let dl = s.drop_last();
        assert(cache_keys_unique(dl));
        lemma_filter_live_map(dl, now);
        lemma_items_as_map_props(dl);
        lemma_items_as_map_props(filter_live(dl, now));
        let last = s.last();
        assert(!items_as_map(dl).contains_key(last.key));
        assert(!items_as_map(filter_live(dl, now)).contains_key(last.key));
        if now <= last.expires_at {
            let f = filter_live(dl, now).push(last);
            assert(cache_keys_unique(f)) by {
                assert forall|i: int, j: int| 0 <= i < j < f.len() implies f[i].key != f[j].key by {
                    if j == f.len() - 1 {
                        assert(f[i] == filter_live(dl, now)[i]);
                        assert(f[i].key != last.key);
                    } else {
                        assert(f[i] == filter_live(dl, now)[i] && f[j] == filter_live(dl, now)[j]);
                    }
                }
            }
            assert(f.drop_last() =~= filter_live(dl, now));
            assert(items_as_map(filter_live(s, now)) =~= live_entries(items_as_map(s), now));
        } else {
            assert(items_as_map(filter_live(s, now)) =~= live_entries(items_as_map(s), now));
        }
    }
}

/// String-keyed cache with per-entry expiry; a disabled cache stores
/// nothing. The shell guards each instance with its own lock, held only for
/// the duration of one call.
pub struct StringCache {
    items: Vec<CacheItem>,
    enabled: bool,
}

impl View for StringCache {
    type V = Map<Seq<char>, CacheEntryModel>;

    /// The cache denotes the map from keys to live-or-dead entries.
    closed spec fn view(&self) -> Map<Seq<char>, CacheEntryModel> {
        items_as_map(cache_models(self.items@))
    }
}

impl StringCache {
    /// The backing store holds each key at most once.
    pub closed spec fn wf(&self) -> bool {
        cache_keys_unique(cache_models(self.items@))
    }

    /// Whether the cache stores anything at all.
    pub closed spec fn is_enabled(&self) -> bool {
        self.enabled
    }

    /// A fresh, empty, enabled cache.
    pub fn new() -> (r: StringCache)
        ensures
            r.wf(),
            r.is_enabled(),
            r@ == Map::<Seq<char>, CacheEntryModel>::empty(),
    {
        let r = StringCache { items: Vec::new(), enabled: true };
        proof {
            assert(cache_models(r.items@) =~= Seq::<CacheItemModel>::empty());
        }
        r
    }

    /// Turns caching on or off; turning it off does not drop what an
    /// enabled cache already stored, it only stops every lookup and store.
    pub fn set_enabled(&mut self, enabled: bool)
        requires
            old(self).wf(),
        ensures
            final(self).wf(),
            final(self)@ == old(self)@,
            final(self).is_enabled() == enabled,
    {
        self.enabled = enabled;
    }

    /// Index of the item with this key, if any.
    fn find_index(&self, key: &str) -> (r: Option<usize>)
        requires
            self.wf(),
        ensures
            r matches Some(i) ==> i < self.items@.len() && self.items@[i as int]@.key == key@,
            r is None ==> forall|i: int|
                0 <= i < self.items@.len() ==> cache_models(self.items@)[i].key
                    != key@,
    {
        let mut i: usize = 0;
        while i < self.items.len()
            invariant
                i <= self.items@.len(),
                forall|j: int|
                    0 <= j < i ==> cache_models(self.items@)[j].key != key@,
            decreases self.items@.len() - i,
        {
            if str_eq(self.items[i].key.as_str(), key) {
                return Some(i);
            }
            i += 1;
        }
        None
    }

    /// Drops every entry that is dead at `now`.
    fn sweep_at(&mut self, now: u64)
        requires
            old(self).wf(),
        ensures
            final(self).wf(),
            final(self)@ == live_entries(old(self)@, now),
            final(self).is_enabled() == old(self).is_enabled(),
    {
        let ghost pre = cache_models(self.items@);
        let mut kept: Vec<CacheItem> = Vec::new();
        let mut i: usize = 0;
        while i < self.items.len()
            invariant
                i <= self.items@.len(),
                pre == cache_models(self.items@),
                cache_models(kept@) == filter_live(pre.take(i as int), now),
            decreases self.items@.len() - i,
        {
            proof {
                assert(pre.take(i + 1).drop_last() =~= pre.take(i as int));
                assert(pre.take(i + 1).last() == pre[i as int]);
            }
            if now <= self.items[i].entry.expires_at {
                let copy = CacheItem {
                    key: self.items[i].key.clone(),
                    entry: CacheEntry {
                        data: self.items[i].entry.data.clone(),
                        expires_at: self.items[i].entry.expires_at,
                    },
                };
                proof {
                    assert(copy@ == pre[i as int]);
                }
                kept.push(copy);
                proof {
                    assert(cache_models(kept@) =~= filter_live(
                        pre.take(i + 1),
                        now,
                    ));
                }
            } else {
                proof {
                    assert(cache_models(kept@) =~= filter_live(
                        pre.take(i + 1),
                        now,
                    ));
                }
            }
            i += 1;
        }
        proof {
            assert(pre.take(pre.len() as int) =~= pre);
            lemma_filter_live_map(pre, now);
        }
        self.items = kept;
    }

    /// Lookup at an explicit instant: sweeps every expired entry out, then
    /// answers from what is left. A disabled cache always misses, without
    /// touching the store.
    pub fn get_at(&mut self, key: &str, now: u64) -> (r: Option<String>)
        requires
            old(self).wf(),
        ensures
            final(self).wf(),
            final(self).is_enabled() == old(self).is_enabled(),
            !old(self).is_enabled() ==> r is None && final(self)@ == old(self)@,
            old(self).is_enabled() ==> {
                &&& final(self)@ == live_entries(old(self)@, now)
                &&& (r is Some <==> old(self)@.contains_key(key@) && now <= old(
                    self,
                )@[key@].expires_at)
                &&& (r matches Some(v) ==> v@ == old(self)@[key@].data)
            },
    {
        if !self.enabled {
            return None;
        }
        self.sweep_at(now);
        proof {
            lemma_items_as_map_props(cache_models(self.items@));
        }
        match self.find_index(key) {
            Some(i) => {
                proof {
                    let models = cache_models(self.items@);
                    assert(models[i as int].key == key@);
                    assert(self@.contains_key(key@));
                    assert(self@[key@] == (CacheEntryModel {
                        data: models[i as int].data,
                        expires_at: models[i as int].expires_at,
                    }));
                }
                Some(self.items[i].entry.data.clone())
            },
            None => {
                proof {
                    assert(!self@.contains_key(key@));
                }
                None
            },
        }
    }

    /// Store at an explicit instant: overwrites any prior entry for the
    /// key. A disabled cache stores nothing at all.
    pub fn set_at(&mut self, key: String, value: String, ttl_seconds: u64, now: u64)
        requires
            old(self).wf(),
        ensures
            final(self).wf(),
            final(self).is_enabled() == old(self).is_enabled(),
            !old(self).is_enabled() ==> final(self)@ == old(self)@,
            old(self).is_enabled() ==> final(self)@ == old(self)@.insert(
                key@,
                CacheEntryModel { data: value@, expires_at: expiry_of(now, ttl_seconds) },
            ),
    {
        if !self.enabled {
            return ;
        }
        self.remove_key(&key);
        let ghost pre = cache_models(self.items@);
        let item = CacheItem { key, entry: CacheEntry::new(value, ttl_seconds, now) };
        let ghost item_model = item@;
        proof {
            lemma_items_as_map_props(pre);
        }
        proof {
            assert(!items_as_map(pre).contains_key(item_model.key));
            assert forall|a: int| 0 <= a < pre.len() implies pre[a].key != item_model.key by {
                assert(items_as_map(pre).contains_key(pre[a].key));
            }
        }
        self.items.push(item);
        proof {
            let post = cache_models(self.items@);
            assert(post.drop_last() =~= pre);
            assert(post.last() == item_model);
            assert(cache_keys_unique(post)) by {
                assert forall|a: int, b: int| 0 <= a < b < post.len() implies post[a].key
                    != post[b].key by {
                    if b < post.len() - 1 {
                        assert(post[a] == pre[a] && post[b] == pre[b]);
                    } else {
                        assert(post[a] == pre[a] && post[b] == item_model);
                    }
                }
            }
            assert(final(self)@ =~= old(self)@.insert(
                item_model.key,
                CacheEntryModel { data: item_model.data, expires_at: item_model.expires_at },
            ));
        }
    }

    /// Removes the entry for `key`, leaving everything else unchanged.
    fn remove_key(&mut self, key: &String)
        requires
            old(self).wf(),
        ensures
            final(self).wf(),
            final(self)@ == old(self)@.remove(key@),
            final(self).is_enabled() == old(self).is_enabled(),
    {
        let ghost pre = cache_models(self.items@);
        proof {
            lemma_items_as_map_props(pre);
        }
        match self.find_index(key.as_str()) {
            Some(i) => {
                self.items.remove(i);
                proof {
                    lemma_cache_map_remove(pre, i as int);
                    assert(cache_models(self.items@) =~= pre.remove(i as int));
                    assert(cache_keys_unique(pre.remove(i as int)));
                    assert(pre[i as int].key == key@);
                }
            },
            None => {
                proof {
                    assert(final(self)@ =~= old(self)@.remove(key@));
                }
            },
        }
    }

    /// Removes the entry for `key` unconditionally, enabled or not.
    pub fn invalidate(&mut self, key: &str)
        requires
            old(self).wf(),
        ensures
            final(self).wf(),
            final(self)@ == old(self)@.remove(key@),
            final(self).is_enabled() == old(self).is_enabled(),
    {
        let owned = key.to_owned();
        self.remove_key(&owned);
    }

    /// Removes everything, enabled or not.
    pub fn clear(&mut self)
        requires
            old(self).wf(),
        ensures
            final(self).wf(),
            final(self)@ == Map::<Seq<char>, CacheEntryModel>::empty(),
            final(self).is_enabled() == old(self).is_enabled(),
    {
        self.items.clear();
        proof {
            assert(cache_models(self.items@) =~= Seq::<CacheItemModel>::empty());
        }
    }

    /// Lookup against the wall clock.
    pub fn get(&mut self, key: &str) -> (r: Option<String>)
        requires
            old(self).wf(),
        ensures
            final(self).wf(),
            final(self).is_enabled() == old(self).is_enabled(),
            !old(self).is_enabled() ==> r is None && final(self)@ == old(self)@,
            old(self).is_enabled() ==> exists|now: u64|
                {
                    &&& final(self)@ == live_entries(old(self)@, now)
                    &&& (r is Some <==> old(self)@.contains_key(key@) && now <= old(
                        self,
                    )@[key@].expires_at)
                    &&& (r matches Some(v) ==> v@ == old(self)@[key@].data)
                },
    {
        let now = now_seconds();
        self.get_at(key, now)
    }

    /// Store against the wall clock.
    pub fn set(&mut self, key: String, value: String, ttl_seconds: u64)
        requires
            old(self).wf(),
        ensures
            final(self).wf(),
            final(self).is_enabled() == old(self).is_enabled(),
            !old(self).is_enabled() ==> final(self)@ == old(self)@,
            old(self).is_enabled() ==> exists|now: u64|
                final(self)@ == old(self)@.insert(
                    key@,
                    CacheEntryModel { data: value@, expires_at: expiry_of(now, ttl_seconds) },
                ),
    {
        let now = now_seconds();
        self.set_at(key, value, ttl_seconds, now)
    }
}

/// Removing the item at index `i` removes exactly its key from the map.
proof fn lemma_cache_map_remove(s: Seq<CacheItemModel>, i: int)
    requires
        cache_keys_unique(s),
        0 <= i < s.len(),
    ensures
        items_as_map(s.remove(i)) == items_as_map(s).remove(s[i].key),
    decreases s.len(),
{
    let dl = s.drop_last();
    assert(cache_keys_unique(dl));
    lemma_items_as_map_props(s);
    if i == s.len() - 1 {
        lemma_items_as_map_props(dl);
        assert(s.remove(i) =~= dl);
        assert(!items_as_map(dl).contains_key(s[i].key));
        assert(items_as_map(dl) =~= items_as_map(s).remove(s[i].key));
    } else {
        lemma_cache_map_remove(dl, i);
        assert(s.remove(i).drop_last() =~= dl.remove(i));
        assert(s.remove(i).last() == s.last());
        assert(s[i].key != s.last().key);
        assert(items_as_map(s.remove(i)) == items_as_map(dl.remove(i)).insert(
            s.remove(i).last().key,
            CacheEntryModel {
                data: s.remove(i).last().data,
                expires_at: s.remove(i).last().expires_at,
            },
        ));
        assert(items_as_map(s.remove(i)) =~= items_as_map(s).remove(s[i].key));
    }
}

/// The cache TTL law: after a value is stored at `now` with a time-to-live,
/// a lookup of its key finds exactly that value at every instant up to
/// `now + ttl_seconds`, and misses at every later instant. With the lookup
/// semantics of `get_at`, "finds" is `contains_key` plus liveness.
pub proof fn lemma_cache_ttl(
    m: Map<Seq<char>, CacheEntryModel>,
    key: Seq<char>,
    value: Seq<char>,
    ttl_seconds: u64,
    now: u64,
    later: u64,
)
    ensures
        ({
            let stored = m.insert(
                key,
                CacheEntryModel { data: value, expires_at: expiry_of(now, ttl_seconds) },
            );
            &&& stored[key].data == value
            &&& (stored.contains_key(key) && later <= stored[key].expires_at) <==> later
                <= expiry_of(now, ttl_seconds)
        }),
{
}

/// The time-to-live configured for one purpose of caching, with the global
/// default for any other purpose.
pub fn get_cache_ttl(cache_type: &str, cfg: &CacheConfig) -> (r: u64)
    ensures
        r == (if cache_type@ == "azure_resources"@ {
            cfg.azure_resources_ttl
        } else if cache_type@ == "github_deployments"@ {
            cfg.github_deployments_ttl
        } else {
            cfg.default_ttl
        }),
{
    if str_eq(cache_type, "azure_resources") {
        cfg.azure_resources_ttl
    } else if str_eq(cache_type, "github_deployments") {
        cfg.github_deployments_ttl
    } else {
        cfg.default_ttl
    }
}

} // verus!
