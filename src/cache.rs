//! Cache key conventions of the gateway.

use vstd::prelude::*;
use vstd::string::StringExecFns;
use crate::text::{join_spec, owned, str_eq};

verus! {

/// The characters of each part.
pub open spec fn parts_view(parts: Seq<&str>) -> Seq<Seq<char>> {
    parts.map_values(|s: &str| s@)
}

/// A key: the prefix, a colon, and the parts joined by colons.
pub open spec fn key_spec(prefix: Seq<char>, parts: Seq<Seq<char>>) -> Seq<char> {
    prefix + ":"@ + join_spec(parts, ":"@)
}

/// Builds a cache key from a prefix and parts.
pub fn make_key(prefix: &str, parts: &[&str]) -> (r: String)
    ensures
        r@ == key_spec(prefix@, parts_view(parts@)),
{
    let ghost view = parts_view(parts@);
    let mut r = owned(prefix);
    r.append(":");
    let ghost head = r@;
    let mut i: usize = 0;
    while i < parts.len()
        invariant
            i <= parts@.len(),
            view == parts_view(parts@),
            head == prefix@ + ":"@,
            r@ == head + join_spec(view.take(i as int), ":"@),
        decreases parts.len() - i,
    {
        proof {
            let t = view.take(i + 1);
            assert(t.drop_last() =~= view.take(i as int));
            assert(t.last() == parts@[i as int]@);
            if i == 0 {
                assert(join_spec(view.take(0), ":"@) =~= Seq::<char>::empty());
                assert(t.len() == 1);
            }
        }
        if i > 0 {
            r.append(":");
        }
        r.append(parts[i]);
        proof {
            if i == 0 {
                assert(r@ =~= head + parts@[0]@);
            } else {
                assert(r@ =~= head + join_spec(view.take(i + 1), ":"@));
            }
        }
        i = i + 1;
    }
    assert(view.take(i as int) =~= view);
    r
}

/// Key conventions: `<prefix>:<part>:<part>...`.
pub trait CacheKeyGenerator {
    /// A key of parts under a prefix.
    fn generate(&self, prefix: &str, parts: &[&str]) -> (r: String)
        ensures
            r@ == key_spec(prefix@, parts_view(parts@)),
    {
        make_key(prefix, parts)
    }

    /// The key of one entity: `<type>:<id>`.
    fn entity_key(&self, entity_type: &str, id: &str) -> (r: String)
        ensures
            r@ == key_spec(entity_type@, seq![id@]),
    {
        let parts = [id];
        let r = self.generate(entity_type, &parts);
        assert(parts_view(parts@) =~= seq![id@]);
        r
    }

    /// The key of a filtered list: `<type>:list:<filter>`.
    fn list_key(&self, entity_type: &str, filter: &str) -> (r: String)
        ensures
            r@ == key_spec(entity_type@ + ":list"@, seq![filter@]),
    {
        let mut prefix = owned(entity_type);
        prefix.append(":list");
        let parts = [filter];
        let r = self.generate(prefix.as_str(), &parts);
        assert(parts_view(parts@) =~= seq![filter@]);
        r
    }

    /// The key of a user's resource: `user:<user>:<resource>`.
    fn user_key(&self, user_id: &str, resource: &str) -> (r: String)
        ensures
            r@ == key_spec("user"@, seq![user_id@, resource@]),
    {
        let parts = [user_id, resource];
        let r = self.generate("user", &parts);
        assert(parts_view(parts@) =~= seq![user_id@, resource@]);
        r
    }

    /// The key of a session: `session:<id>`.
    fn session_key(&self, session_id: &str) -> (r: String)
        ensures
            r@ == key_spec("session"@, seq![session_id@]),
    {
        let parts = [session_id];
        let r = self.generate("session", &parts);
        assert(parts_view(parts@) =~= seq![session_id@]);
        r
    }

    /// The key of a permission: `permission:<user>:<resource>:<action>`.
    fn permission_key(&self, user_id: &str, resource: &str, action: &str) -> (r: String)
        ensures
            r@ == key_spec("permission"@, seq![user_id@, resource@, action@]),
    {
        let parts = [user_id, resource, action];
        let r = self.generate("permission", &parts);
        assert(parts_view(parts@) =~= seq![user_id@, resource@, action@]);
        r
    }
}

/// The key conventions as they stand.
#[derive(Debug)]
pub struct DefaultCacheKeyGenerator;

impl CacheKeyGenerator for DefaultCacheKeyGenerator {}

/// One cached value. Times are seconds since the Unix epoch.
#[derive(Debug)]
struct CacheItem {
    value: String,
    expires_at: Option<u64>,
    created_at: u64,
    access_count: u64,
}

/// What a cache entry holds, as plain values.
pub ghost struct EntryModel {
    pub key: Seq<char>,
    pub value: Seq<char>,
    pub expires_at: Option<u64>,
}

/// An entry has expired when the time is past its expiry.
pub open spec fn expired(e: EntryModel, now: u64) -> bool {
    match e.expires_at {
        Some(t) => now > t,
        None => false,
    }
}

/// The expiry of an entry stored at `now` for `ttl` seconds (saturating).
pub open spec fn expiry_of(ttl: Option<u64>, now: u64) -> Option<u64> {
    match ttl {
        Some(t) => Some(if now + t > u64::MAX { u64::MAX } else { (now + t) as u64 }),
        None => None,
    }
}

impl CacheItem {
    fn new(value: String, ttl_seconds: Option<u64>, now: u64) -> (r: CacheItem)
        ensures
            r.value@ == value@,
            r.expires_at == expiry_of(ttl_seconds, now),
            r.access_count == 1,
    {
        let expires_at = match ttl_seconds {
            Some(t) => Some(if now > u64::MAX - t { u64::MAX } else { now + t }),
            None => None,
        };
        CacheItem { value, expires_at, created_at: now, access_count: 1 }
    }

    fn is_expired(&self, now: u64) -> (r: bool)
        ensures
            r == match self.expires_at {
                Some(t) => now > t,
                None => false,
            },
    {
        match self.expires_at {
            Some(t) => now > t,
            None => false,
        }
    }

    fn access(&mut self)
        ensures
            final(self).value@ == old(self).value@,
            final(self).expires_at == old(self).expires_at,
    {
        if self.access_count < u64::MAX {
            self.access_count = self.access_count + 1;
        }
    }
}

/// An in-memory cache with optional expiry per entry. The current time, in
/// seconds, is handed to each operation that depends on it.
#[derive(Debug)]
pub struct MemoryCache {
    items: Vec<(String, CacheItem)>,
    hit_count: u64,
    miss_count: u64,
}

/// The bytes that an entry is reckoned to take: key, value, and 64 of overhead.
pub open spec fn entry_usage(e: EntryModel) -> nat {
    vstd::utf8::encode_utf8(e.key).len() + vstd::utf8::encode_utf8(e.value).len() + 64
}

/// The reckoned bytes of all entries.
pub open spec fn usage(es: Seq<EntryModel>) -> nat
    decreases es.len(),
{
    if es.len() == 0 {
        0
    } else {
        usage(es.drop_last()) + entry_usage(es.last())
    }
}

impl MemoryCache {
    /// The entries, in order.
    pub closed spec fn entries(&self) -> Seq<EntryModel> {
        self.items@.map_values(
            |p: (String, CacheItem)| EntryModel { key: p.0@, value: p.1.value@, expires_at: p.1.expires_at },
        )
    }

    pub closed spec fn hits(&self) -> u64 {
        self.hit_count
    }

    pub closed spec fn misses(&self) -> u64 {
        self.miss_count
    }

    /// Keys are unique.
    pub open spec fn wf(&self) -> bool {
        self.entries().map_values(|e: EntryModel| e.key).no_duplicates()
    }

    /// An empty cache.
    pub fn new() -> (r: MemoryCache)
        ensures
            r.wf(),
            r.entries().len() == 0,
            r.hits() == 0,
            r.misses() == 0,
    {
        let r = MemoryCache { items: Vec::new(), hit_count: 0, miss_count: 0 };
        assert(r.entries() =~= Seq::<EntryModel>::empty());
        assert(r.entries().map_values(|e: EntryModel| e.key) =~= Seq::<Seq<char>>::empty());
        r
    }

    fn find(&self, key: &str) -> (r: Option<usize>)
        ensures
            match r {
                Some(i) => i < self.entries().len() && self.entries()[i as int].key == key@,
                None => forall|k: int| 0 <= k < self.entries().len() ==> self.entries()[k].key != key@,
            },
    {
        let mut i: usize = 0;
        while i < self.items.len()
            invariant
                i <= self.items@.len(),
                forall|k: int| 0 <= k < i ==> self.entries()[k].key != key@,
            decreases self.items.len() - i,
        {
            if str_eq(self.items[i].0.as_str(), key) {
                return Some(i);
            }
            i = i + 1;
        }
        None
    }

    /// Drops the entries that have expired at `now`; the others stay, in order.
    pub fn cleanup_expired(&mut self, now: u64)
        requires
            old(self).wf(),
        ensures
            final(self).wf(),
            final(self).hits() == old(self).hits(),
            final(self).misses() == old(self).misses(),
            forall|j: int|
                0 <= j < final(self).entries().len() ==> !expired(#[trigger] final(self).entries()[j], now)
                    && old(self).entries().contains(final(self).entries()[j]),
            forall|i: int|
                0 <= i < old(self).entries().len() && !expired(#[trigger] old(self).entries()[i], now)
                    ==> final(self).entries().contains(old(self).entries()[i]),
    {
        let ghost olde = self.entries();
        let mut old_items: Vec<(String, CacheItem)> = Vec::new();
        std::mem::swap(&mut old_items, &mut self.items);
        assert(old_items@.map_values(
            |p: (String, CacheItem)| EntryModel { key: p.0@, value: p.1.value@, expires_at: p.1.expires_at },
        ) == olde);
        let n = old_items.len();
        let mut kept: Vec<(String, CacheItem)> = Vec::new();
        let ghost mut idx: Seq<int> = Seq::empty();
        let mut pending = old_items;
        let mut i: usize = 0;
        while i < n
            invariant
                n == olde.len(),
                i <= n,
                pending@.len() == n - i,
                forall|k: int| 0 <= k < n - i ==> (#[trigger] pending@[k]).0@ == olde[i + k].key
                    && pending@[k].1.value@ == olde[i + k].value && pending@[k].1.expires_at == olde[i + k].expires_at,
                idx.len() == kept@.len(),
                forall|j: int| 0 <= j < idx.len() ==> 0 <= #[trigger] idx[j] < i,
                forall|a: int, b: int| 0 <= a < b < idx.len() ==> idx[a] < idx[b],
                forall|j: int| 0 <= j < kept@.len() ==> (#[trigger] kept@[j]).0@ == olde[idx[j]].key
                    && kept@[j].1.value@ == olde[idx[j]].value && kept@[j].1.expires_at == olde[idx[j]].expires_at
                    && !expired(olde[idx[j]], now),
                forall|k: int| 0 <= k < i && !expired(#[trigger] olde[k], now) ==> exists|j: int| 0 <= j < idx.len() && idx[j] == k,
            decreases n - i,
        {
            let item = pending.remove(0);
            proof {
                assert forall|k: int| 0 <= k < n - i - 1 implies (#[trigger] pending@[k]).0@ == olde[i + 1 + k].key
                    && pending@[k].1.value@ == olde[i + 1 + k].value && pending@[k].1.expires_at == olde[i + 1 + k].expires_at by {
                }
            }
            let ghost idx0 = idx;
            if !item.1.is_expired(now) {
                kept.push(item);
                proof {
                    idx = idx.push(i as int);
                }
            }
            proof {
                assert forall|k: int| 0 <= k < i + 1 && !expired(#[trigger] olde[k], now) implies exists|j: int| 0 <= j < idx.len() && idx[j] == k by {
                    if k == i {
                        assert(idx[idx.len() - 1] == k);
                    } else {
                        let j = choose|j: int| 0 <= j < idx0.len() && idx0[j] == k;
                        assert(idx[j] == idx0[j]);
                    }
                }
            }
            i = i + 1;
        }
        self.items = kept;
        proof {
            let fe = self.entries();
            assert forall|j: int| 0 <= j < fe.len() implies fe[j] == olde[idx[j]] by {}
            assert forall|j: int| 0 <= j < fe.len() implies !expired(#[trigger] fe[j], now) && olde.contains(fe[j]) by {
                assert(fe[j] == olde[idx[j]]);
            }
            assert forall|k: int| 0 <= k < olde.len() && !expired(#[trigger] olde[k], now) implies fe.contains(olde[k]) by {
                let j = choose|j: int| 0 <= j < idx.len() && idx[j] == k;
                assert(fe[j] == olde[k]);
            }
            let ok = olde.map_values(|e: EntryModel| e.key);
            let fk = fe.map_values(|e: EntryModel| e.key);
            assert forall|a: int, b: int| 0 <= a < fk.len() && 0 <= b < fk.len() && a != b implies fk[a] != fk[b] by {
                assert(fk[a] == ok[idx[a]]);
                assert(fk[b] == ok[idx[b]]);
                if a < b {
                    assert(idx[a] < idx[b]);
                } else {
                    assert(idx[b] < idx[a]);
                }
            }
        }
    }

    /// The live value under `key`: expired entries are dropped first. A hit
    /// or a miss is counted.
    pub fn get(&mut self, key: &str, now: u64) -> (r: Option<String>)
        requires
            old(self).wf(),
        ensures
            final(self).wf(),
            r is Some ==> exists|i: int|
                0 <= i < old(self).entries().len() && old(self).entries()[i].key == key@ && !expired(
                    old(self).entries()[i],
                    now,
                ) && old(self).entries()[i].value == r->0@,
            r is None ==> forall|i: int|
                0 <= i < old(self).entries().len() && old(self).entries()[i].key == key@ ==> expired(
                    #[trigger] old(self).entries()[i],
                    now,
                ),
            r is Some ==> final(self).hits() as int == if old(self).hits() == u64::MAX { u64::MAX as int } else { old(self).hits() + 1 },
            r is None ==> final(self).misses() as int == if old(self).misses() == u64::MAX { u64::MAX as int } else { old(self).misses() + 1 },
    {
        self.cleanup_expired(now);
        let ghost mid = self.entries();
        match self.find(key) {
            Some(i) => {
                let mut entry = self.items.remove(i);
                entry.1.access();
                let v = entry.1.value.clone();
                self.items.insert(i, entry);
                proof {
                    assert(self.entries() =~= mid);
                    assert(!expired(mid[i as int], now) && old(self).entries().contains(mid[i as int]));
                }
                if self.hit_count < u64::MAX {
                    self.hit_count = self.hit_count + 1;
                }
                Some(v)
            },
            None => {
                proof {
                    assert forall|i: int|
                        0 <= i < old(self).entries().len() && old(self).entries()[i].key == key@ implies expired(
                            #[trigger] old(self).entries()[i],
                            now,
                        ) by {
                        if !expired(old(self).entries()[i], now) {
                            assert(mid.contains(old(self).entries()[i]));
                            let j = choose|j: int| 0 <= j < mid.len() && mid[j] == old(self).entries()[i];
                            assert(mid[j].key == key@);
                        }
                    }
                }
                if self.miss_count < u64::MAX {
                    self.miss_count = self.miss_count + 1;
                }
                None
            },
        }
    }

    /// Whether a live value stands under `key`; expired entries are dropped first.
    pub fn contains_live(&mut self, key: &str, now: u64) -> (r: bool)
        requires
            old(self).wf(),
        ensures
            final(self).wf(),
            r == exists|i: int|
                0 <= i < old(self).entries().len() && old(self).entries()[i].key == key@ && !expired(
                    old(self).entries()[i],
                    now,
                ),
    {
        self.cleanup_expired(now);
        let ghost mid = self.entries();
        let found = self.find(key);
        proof {
            match found {
                Some(i) => {
                    assert(!expired(mid[i as int], now) && old(self).entries().contains(mid[i as int]));
                },
                None => {
                    if exists|i: int|
                        0 <= i < old(self).entries().len() && old(self).entries()[i].key == key@ && !expired(
                            old(self).entries()[i],
                            now,
                        ) {
                        let i = choose|i: int|
                            0 <= i < old(self).entries().len() && old(self).entries()[i].key == key@ && !expired(
                                old(self).entries()[i],
                                now,
                            );
                        assert(mid.contains(old(self).entries()[i]));
                        let j = choose|j: int| 0 <= j < mid.len() && mid[j] == old(self).entries()[i];
                        assert(mid[j].key == key@);
                    }
                },
            }
        }
        found.is_some()
    }

    /// Stores `value` under `key`, replacing any entry of that key; with a
    /// time to live, the entry expires that many seconds after `now`.
    pub fn set(&mut self, key: &str, value: &str, ttl_seconds: Option<u64>, now: u64)
        requires
            old(self).wf(),
        ensures
            final(self).wf(),
            final(self).entries().contains(
                EntryModel { key: key@, value: value@, expires_at: expiry_of(ttl_seconds, now) },
            ),
            forall|j: int|
                0 <= j < final(self).entries().len() && (#[trigger] final(self).entries()[j]).key != key@
                    ==> old(self).entries().contains(final(self).entries()[j]),
            forall|i: int|
                0 <= i < old(self).entries().len() && (#[trigger] old(self).entries()[i]).key != key@
                    ==> final(self).entries().contains(old(self).entries()[i]),
    {
        let item = CacheItem::new(owned(value), ttl_seconds, now);
        let ghost e = EntryModel { key: key@, value: value@, expires_at: expiry_of(ttl_seconds, now) };
        let ghost olde = self.entries();
        match self.find(key) {
            Some(i) => {
                self.items.set(i, (owned(key), item));
                proof {
                    assert(self.entries() =~= olde.update(i as int, e));
                    assert(self.entries()[i as int] == e);
                    let ok = olde.map_values(|x: EntryModel| x.key);
                    assert(self.entries().map_values(|x: EntryModel| x.key) =~= ok);
                    assert forall|j: int|
                        0 <= j < self.entries().len() && (#[trigger] self.entries()[j]).key != key@ implies olde.contains(
                            self.entries()[j],
                        ) by {
                        assert(self.entries()[j] == olde[j]);
                    }
                    assert forall|k: int| 0 <= k < olde.len() && (#[trigger] olde[k]).key != key@ implies self.entries().contains(
                        olde[k],
                    ) by {
                        assert(self.entries()[k] == olde[k]);
                    }
                }
            },
            None => {
                self.items.push((owned(key), item));
                proof {
                    let n = olde.len();
                    assert(self.entries() =~= olde.push(e));
                    assert(self.entries()[n as int] == e);
                    let ok = olde.map_values(|x: EntryModel| x.key);
                    let fk = self.entries().map_values(|x: EntryModel| x.key);
                    assert(fk =~= ok.push(key@));
                    assert forall|a: int, b: int| 0 <= a < fk.len() && 0 <= b < fk.len() && a != b implies fk[a] != fk[b] by {
                        if a == n {
                            assert(olde[b].key != key@);
                        } else if b == n {
                            assert(olde[a].key != key@);
                        } else {
                            assert(ok[a] != ok[b]);
                        }
                    }
                    assert forall|j: int|
                        0 <= j < self.entries().len() && (#[trigger] self.entries()[j]).key != key@ implies olde.contains(
                            self.entries()[j],
                        ) by {
                        assert(self.entries()[j] == olde[j]);
                    }
                    assert forall|k: int| 0 <= k < olde.len() && (#[trigger] olde[k]).key != key@ implies self.entries().contains(
                        olde[k],
                    ) by {
                        assert(self.entries()[k] == olde[k]);
                    }
                }
            },
        }
    }

    /// Removes the entry under `key`, if any.
    pub fn delete(&mut self, key: &str)
        requires
            old(self).wf(),
        ensures
            final(self).wf(),
            forall|j: int|
                0 <= j < final(self).entries().len() ==> (#[trigger] final(self).entries()[j]).key != key@
                    && old(self).entries().contains(final(self).entries()[j]),
            forall|i: int|
                0 <= i < old(self).entries().len() && (#[trigger] old(self).entries()[i]).key != key@
                    ==> final(self).entries().contains(old(self).entries()[i]),
    {
        let ghost olde = self.entries();
        match self.find(key) {
            Some(i) => {
                self.items.remove(i);
                proof {
                    let ok = olde.map_values(|x: EntryModel| x.key);
                    assert(self.entries() =~= olde.remove(i as int));
                    assert(self.entries().map_values(|x: EntryModel| x.key) =~= ok.remove(i as int));
                    assert forall|j: int| 0 <= j < self.entries().len() implies (#[trigger] self.entries()[j]).key != key@
                        && olde.contains(self.entries()[j]) by {
                        if j < i {
                            assert(self.entries()[j] == olde[j]);
                            assert(ok[j] != ok[i as int]);
                        } else {
                            assert(self.entries()[j] == olde[j + 1]);
                            assert(ok[j + 1] != ok[i as int]);
                        }
                    }
                    assert forall|k: int| 0 <= k < olde.len() && (#[trigger] olde[k]).key != key@ implies self.entries().contains(
                        olde[k],
                    ) by {
                        if k < i {
                            assert(self.entries()[k] == olde[k]);
                        } else {
                            assert(k != i);
                            assert(self.entries()[k - 1] == olde[k]);
                        }
                    }
                }
            },
            None => {
                proof {
                    assert forall|j: int| 0 <= j < self.entries().len() implies (#[trigger] self.entries()[j]).key != key@
                        && olde.contains(self.entries()[j]) by {
                        assert(self.entries()[j] == olde[j]);
                    }
                    assert forall|k: int| 0 <= k < olde.len() && (#[trigger] olde[k]).key != key@ implies self.entries().contains(
                        olde[k],
                    ) by {
                        assert(self.entries()[k] == olde[k]);
                    }
                }
            },
        }
    }

    /// Empties the cache and resets the counters.
    pub fn clear(&mut self)
        ensures
            final(self).wf(),
            final(self).entries().len() == 0,
            final(self).hits() == 0,
            final(self).misses() == 0,
    {
        self.items = Vec::new();
        self.hit_count = 0;
        self.miss_count = 0;
        assert(self.entries() =~= Seq::<EntryModel>::empty());
        assert(self.entries().map_values(|e: EntryModel| e.key) =~= Seq::<Seq<char>>::empty());
    }

    /// The reckoned bytes of all entries, at most `u64::MAX`.
    pub fn calculate_memory_usage(&self) -> (r: u64)
        ensures
            r as nat == if usage(self.entries()) > u64::MAX { u64::MAX as nat } else { usage(self.entries()) },
    {
        let mut total: u64 = 0;
        let mut i: usize = 0;
        while i < self.items.len()
            invariant
                i <= self.items@.len(),
                total as nat == if usage(self.entries().take(i as int)) > u64::MAX {
                    u64::MAX as nat
                } else {
                    usage(self.entries().take(i as int))
                },
            decreases self.items.len() - i,
        {
            let k = self.items[i].0.as_str().as_bytes().len() as u64;
            let v = self.items[i].1.value.as_str().as_bytes().len() as u64;
            proof {
                let t = self.entries().take(i + 1);
                assert(t.drop_last() =~= self.entries().take(i as int));
                assert(t.last() == self.entries()[i as int]);
            }
            let add: u128 = (k as u128) + (v as u128) + 64;
            let sum: u128 = (total as u128) + add;
            total = if sum > u64::MAX as u128 { u64::MAX } else { sum as u64 };
            i = i + 1;
        }
        assert(self.entries().take(i as int) =~= self.entries());
        total
    }

    pub fn hit_count(&self) -> (r: u64)
        ensures
            r == self.hits(),
    {
        self.hit_count
    }

    pub fn miss_count(&self) -> (r: u64)
        ensures
            r == self.misses(),
    {
        self.miss_count
    }
}

/// Makes caches.
#[derive(Debug)]
pub struct CacheFactory;

impl CacheFactory {
    /// An empty in-memory cache.
    pub fn create_memory() -> (r: MemoryCache)
        ensures
            r.wf(),
            r.entries().len() == 0,
    {
        MemoryCache::new()
    }
}

} // verus!
