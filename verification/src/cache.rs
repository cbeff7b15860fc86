//! Time-boxed memoizing cache: the result of an expensive point lookup is
//! kept per key until a chosen instant, refreshed lazily after expiry, and
//! never stored at all when the lookup yields nothing or fails.
use std::collections::HashMap;
use vstd::prelude::*;

verus! {

broadcast use vstd::std_specs::hash::group_hash_axioms;

/// One cached value with the instant (Unix seconds) at which it expires.
pub struct CacheEntry<V> {
    pub value: V,
    pub expires_at: i64,
}

/// Relies on `chrono::Utc::now` for the wall-clock instant, reduced to Unix
/// seconds; nothing is assumed of the value.
#[verifier::external_body]
fn now_timestamp() -> (r: i64) {
    chrono::Utc::now().timestamp()
}

/// The caller's instant when one was supplied; the wall clock otherwise.
pub fn get_now(now: Option<i64>) -> (r: i64)
    ensures
        now matches Some(t) ==> r == t,
{
    match now {
        Some(t) => t,
        None => now_timestamp(),
    }
}

/// The expiry instant for a value cached at `now`: `now + interval`,
/// saturated at the greatest representable instant.
pub open spec fn expiry_of(now: int, interval: int) -> int {
    if now + interval <= i64::MAX {
        now + interval
    } else {
        i64::MAX as int
    }
}

/// The expiry instant for a value cached now, `interval` seconds from the
/// caller's instant or from the wall clock.
pub fn expire_at(now: Option<i64>, interval: i64) -> (r: i64)
    requires
        interval >= 0,
    ensures
        now matches Some(t) ==> r == expiry_of(t as int, interval as int),
{
    let t = get_now(now);
    if t <= i64::MAX - interval {
        t + interval
    } else {
        i64::MAX
    }
}

/// Whether the entry cached under `key` in `entries` is live at instant
/// `t`; an entry expiring exactly at `t` is already stale.
pub open spec fn entry_live<V>(entries: Map<u64, CacheEntry<V>>, key: u64, t: int) -> bool {
    entries.contains_key(key) && t < entries[key].expires_at
}

/// How a refresh at instant `t` changes the cached entries: the supplied
/// value `v` (or a clone of it) is stored under `key` until `t + ttl`, and
/// nothing else changes.
pub open spec fn refreshed<V: Clone>(
    pre: Map<u64, CacheEntry<V>>,
    post: Map<u64, CacheEntry<V>>,
    key: u64,
    t: int,
    ttl: int,
    v: V,
) -> bool {
    exists|u: V|
        #![all_triggers]
        cloned(v, u) && post == pre.insert(key, (CacheEntry { value: u, expires_at: expiry_of(t, ttl) as i64 }))
}

/// Caches the result of a keyed lookup for `expiration` seconds per entry.
/// Stale entries are replaced lazily on the next access, never evicted, and
/// a lookup that yields nothing is never cached.
pub struct HolderMap<V> {
    map: HashMap<u64, CacheEntry<V>>,
    expiration: i64,
}

impl<V: Clone> HolderMap<V> {
    /// The cached entries by key.
    pub closed spec fn entries(self) -> Map<u64, CacheEntry<V>> {
        self.map@
    }

    /// How long a cached value lives, in seconds.
    pub closed spec fn ttl(self) -> int {
        self.expiration as int
    }

    /// The cache's invariant: a non-negative lifetime.
    pub open spec fn wf(self) -> bool {
        self.ttl() >= 0
    }

    /// Whether the entry cached under `key` is still live at instant `t`;
    /// an entry expiring exactly at `t` is already stale.
    pub open spec fn live_at(self, key: u64, t: int) -> bool {
        entry_live(self.entries(), key, t)
    }

    /// An empty cache whose entries live `expiration` seconds.
    pub fn new(expiration: i64) -> (r: Self)
        requires
            expiration >= 0,
        ensures
            r.wf(),
            r.ttl() == expiration,
            r.entries() == Map::<u64, CacheEntry<V>>::empty(),
    {
        HolderMap { map: HashMap::new(), expiration }
    }

    /// How many keys hold a cached value.
    pub fn len(&self) -> (r: usize)
        ensures
            r == self.entries().dom().len(),
    {
        self.map.len()
    }

    /// The live value cached under `key` at instant `t`, if any; a stale or
    /// missing entry yields nothing and changes nothing.
    pub fn peek(&self, key: u64, t: i64) -> (r: Option<V>)
        ensures
            if self.live_at(key, t as int) {
                r matches Some(v) && cloned(self.entries()[key].value, v)
            } else {
                r is None
            },
    {
        match self.map.get(&key) {
            Some(entry) => {
                if t < entry.expires_at {
                    Some(entry.value.clone())
                } else {
                    None
                }
            },
            None => None,
        }
    }

    /// Absorbs what the supplier returned for `key` at instant `t`: a value
    /// is cached until `t + ttl` and handed back; nothing is cached on
    /// `None`, and an error passes through with the cache untouched.
    pub fn refresh<E>(&mut self, key: u64, supplied: Result<Option<V>, E>, t: i64) -> (r: Result<
        Option<V>,
        E,
    >)
        requires
            old(self).wf(),
        ensures
            final(self).wf(),
            final(self).ttl() == old(self).ttl(),
            r == supplied,
            r matches Err(_) ==> final(self).entries() == old(self).entries(),
            r matches Ok(None) ==> final(self).entries() == old(self).entries(),
            r matches Ok(Some(v)) ==> refreshed(
                old(self).entries(),
                final(self).entries(),
                key,
                t as int,
                old(self).ttl(),
                v,
            ),
    {
        match supplied {
            Err(e) => Err(e),
            Ok(None) => Ok(None),
            Ok(Some(value)) => {
                let stored = value.clone();
                let ghost witness = stored;
                let exp = if t <= i64::MAX - self.expiration {
                    t + self.expiration
                } else {
                    i64::MAX
                };
                self.map.insert(key, CacheEntry { value: stored, expires_at: exp });
                proof {
                    assert(cloned(value, witness) && self.entries() == old(self).entries().insert(
                        key,
                        (CacheEntry {
                            value: witness,
                            expires_at: expiry_of(t as int, old(self).ttl()) as i64,
                        }),
                    ));
                }
                Ok(Some(value))
            },
        }
    }

    /// The memoized lookup. A live entry is returned without consulting the
    /// supplier. Otherwise the supplier runs once: a value is cached until
    /// `now + ttl` and returned; nothing is returned and nothing cached when
    /// it yields `None`; its error is passed through with the cache
    /// untouched.
    pub fn get<F: FnOnce(u64) -> Result<Option<V>, E>, E>(
        &mut self,
        key: u64,
        f: F,
        now: Option<i64>,
    ) -> (r: Result<Option<V>, E>)
        requires
            old(self).wf(),
            call_requires(f, (key,)),
        ensures
            final(self).wf(),
            final(self).ttl() == old(self).ttl(),
            r matches Err(_) ==> final(self).entries() == old(self).entries(),
            r matches Ok(None) ==> final(self).entries() == old(self).entries(),
            now matches Some(t) ==> (if old(self).live_at(key, t as int) {
                &&& final(self).entries() == old(self).entries()
                &&& r matches Ok(Some(v)) && cloned(old(self).entries()[key].value, v)
            } else {
                &&& call_ensures(f, (key,), r)
                &&& (r matches Ok(Some(v)) ==> refreshed(
                    old(self).entries(),
                    final(self).entries(),
                    key,
                    t as int,
                    old(self).ttl(),
                    v,
                ))
            }),
            final(self).entries() == old(self).entries() || (r matches Ok(Some(_))
                && final(self).entries().contains_key(key) && final(self).entries()
                == old(self).entries().insert(key, final(self).entries()[key])),
    {
        let t = get_now(now);
        match self.map.get(&key) {
            Some(entry) => {
                if t < entry.expires_at {
                    return Ok(Some(entry.value.clone()));
                }
            },
            None => {},
        }
        match f(key) {
            Err(e) => Err(e),
            Ok(None) => Ok(None),
            Ok(Some(value)) => {
                let stored = value.clone();
                let ghost witness = stored;
                let exp = if t <= i64::MAX - self.expiration {
                    t + self.expiration
                } else {
                    i64::MAX
                };
                self.map.insert(key, CacheEntry { value: stored, expires_at: exp });
                proof {
                    if now is Some {
                        let t0 = now->0 as int;
                        assert(cloned(value, witness) && self.entries() == old(
                            self,
                        ).entries().insert(
                            key,
                            (CacheEntry {
                                value: witness,
                                expires_at: expiry_of(t0, old(self).ttl()) as i64,
                            }),
                        ));
                    }
                }
                Ok(Some(value))
            },
        }
    }
}

/// A value cached by a refresh at instant `t0` is live at exactly the
/// instants strictly before `t0 + ttl`: a lookup inside that window hits
/// without consulting the supplier, and one at or after it refreshes.
pub proof fn lemma_refreshed_entry_window<V: Clone>(
    pre: Map<u64, CacheEntry<V>>,
    post: Map<u64, CacheEntry<V>>,
    key: u64,
    t0: int,
    ttl: int,
    v: V,
    t: int,
)
    requires
        refreshed(pre, post, key, t0, ttl, v),
        i64::MIN <= t0 <= i64::MAX,
        0 <= ttl <= i64::MAX,
    ensures
        entry_live(post, key, t) <==> t < expiry_of(t0, ttl),
{
}

/// Liveness at an instant is decided by a strict comparison: an entry is
/// live strictly before its expiry instant and stale from that instant on.
pub proof fn lemma_expiry_is_strict<V: Clone>(c: HolderMap<V>, key: u64, t: int)
    requires
        c.entries().contains_key(key),
    ensures
        c.live_at(key, t) <==> t < c.entries()[key].expires_at,
        !c.live_at(key, c.entries()[key].expires_at as int),
{
}

} // verus!
