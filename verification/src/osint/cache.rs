//! Time-to-live bookkeeping of cached OSINT results, and the cache of
//! results per email address.

use vstd::prelude::*;
use crate::keyed::{lemma_lookup_absent, lemma_lookup_at, lemma_store, lookup, unique_keys};
use crate::text::{chars_of, equal_chars};

verus! {

/// A cached value with the second it was stored (Unix time) and how many
/// seconds it stays valid.
pub struct CacheEntry<T> {
    pub data: T,
    pub timestamp: u64,
    pub ttl_seconds: u64,
}

/// An entry stored at `timestamp` is expired at `now` when the seconds since
/// then, computed with 64-bit wrap-around (so a clock that reads earlier than
/// the store time counts as a very long wait), exceed its time-to-live.
pub open spec fn entry_expired(timestamp: u64, ttl_seconds: u64, now: u64) -> bool {
    now.wrapping_sub(timestamp) > ttl_seconds
}

/// `SystemTime::now` in whole seconds since the Unix epoch (0 before the
/// epoch). It reads the clock, so nothing is stated of it.
#[verifier::external_body]
fn clock_seconds() -> (t: u64) {
    std::time::SystemTime::now().duration_since(std::time::UNIX_EPOCH).map_or(0, |d| d.as_secs())
}

impl<T> CacheEntry<T> {
    /// A fresh entry stored at `now`.
    pub fn new(data: T, now: u64, ttl_seconds: u64) -> (r: Self)
        ensures
            r.data == data,
            r.timestamp == now,
            r.ttl_seconds == ttl_seconds,
    {
        CacheEntry { data, timestamp: now, ttl_seconds }
    }

    /// Whether the entry is expired at `now`.
    pub fn is_expired_at(&self, now: u64) -> (r: bool)
        ensures
            r == entry_expired(self.timestamp, self.ttl_seconds, now),
    {
        now.wrapping_sub(self.timestamp) > self.ttl_seconds
    }

    /// Whether the entry is expired by the clock's current reading.
    pub fn is_expired(&self) -> (r: bool)
        ensures
            exists|now: u64| r == entry_expired(self.timestamp, self.ttl_seconds, now),
    {
        self.is_expired_at(clock_seconds())
    }
}

/// An entry is valid for exactly its time-to-live: at every second from its
/// store time up to `ttl_seconds` later it is not expired, and one second
/// beyond it is.
pub proof fn lemma_valid_for_ttl(timestamp: u64, ttl_seconds: u64, now: u64)
    requires
        timestamp <= now,
    ensures
        entry_expired(timestamp, ttl_seconds, now) <==> now - timestamp > ttl_seconds,
{
}


/// `r` is what a lookup of the cached entry `e` gives at `now`: a copy of
/// its result while it is not expired, nothing otherwise.
pub open spec fn served<T: Clone>(r: Option<T>, e: Option<CacheEntry<T>>, now: u64) -> bool {
    match e {
        Some(e) => if entry_expired(e.timestamp, e.ttl_seconds, now) {
            r is None
        } else {
            r matches Some(v) && cloned(e.data, v)
        },
        None => r is None,
    }
}

/// Results cached per email address, each valid for the cache's
/// time-to-live from when it was stored.
pub struct OsintCache<T> {
    email_cache: Vec<(String, CacheEntry<T>)>,
    ttl_seconds: u64,
}

/// The entries of a cache keyed by email.
pub open spec fn email_entries<T>(list: Seq<(String, CacheEntry<T>)>) -> Seq<(Seq<char>, CacheEntry<T>)> {
    list.map_values(|p: (String, CacheEntry<T>)| (p.0@, p.1))
}

impl<T> OsintCache<T> {
    /// The cached entries keyed by email.
    pub closed spec fn entries(&self) -> Seq<(Seq<char>, CacheEntry<T>)> {
        email_entries(self.email_cache@)
    }

    /// How long a result stays valid, in seconds.
    pub closed spec fn ttl(&self) -> u64 {
        self.ttl_seconds
    }

    #[verifier::type_invariant]
    spec fn well_formed(self) -> bool {
        unique_keys(email_entries(self.email_cache@))
    }
}

impl<T: Clone> OsintCache<T> {
    /// An empty cache whose results stay valid `ttl_seconds`.
    pub fn new(ttl_seconds: u64) -> (r: Self)
        ensures
            r.entries().len() == 0,
            r.ttl() == ttl_seconds,
    {
        OsintCache { email_cache: Vec::new(), ttl_seconds }
    }

    /// The position of the entry of `email`, if any.
    fn position(&self, email: &Vec<char>) -> (pos: Option<usize>)
        ensures
            match pos {
                Some(j) => j < self.entries().len() && self.entries()[j as int].0 == email@,
                None => forall|m: int| 0 <= m < self.entries().len() ==> (#[trigger] self.entries()[m]).0 != email@,
            },
    {
        let mut j: usize = 0;
        while j < self.email_cache.len()
            invariant
                j <= self.email_cache@.len(),
                forall|m: int| 0 <= m < j ==> (#[trigger] email_entries(self.email_cache@)[m]).0 != email@,
            decreases self.email_cache@.len() - j,
        {
            if equal_chars(&chars_of(self.email_cache[j].0.as_str()), email) {
                return Some(j);
            }
            j = j + 1;
        }
        None
    }

    /// A copy of the result cached for `email`, unless there is none or it
    /// is expired at `now`.
    pub fn get_email_at(&self, email: &str, now: u64) -> (r: Option<T>)
        ensures
            served(r, lookup(self.entries(), email@), now),
    {
        proof {
            use_type_invariant(self);
        }
        match self.position(&chars_of(email)) {
            Some(j) => {
                proof {
                    lemma_lookup_at(self.entries(), j as int);
                }
                let entry = &self.email_cache[j].1;
                if entry.is_expired_at(now) {
                    None
                } else {
                    Some(entry.data.clone())
                }
            },
            None => {
                proof {
                    lemma_lookup_absent(self.entries(), email@);
                }
                None
            },
        }
    }

    /// Caches `result` for `email`, stored at `now`, replacing what was
    /// cached for it; the other emails keep their entries.
    pub fn set_email_at(&mut self, email: String, result: T, now: u64)
        ensures
            final(self).ttl() == old(self).ttl(),
            lookup(final(self).entries(), email@) == Some(
                CacheEntry { data: result, timestamp: now, ttl_seconds: old(self).ttl() },
            ),
            forall|k: Seq<char>| k != email@ ==> #[trigger] lookup(final(self).entries(), k) == lookup(old(self).entries(), k),
    {
        proof {
            use_type_invariant(&*self);
        }
        let ghost before = self.entries();
        let entry = CacheEntry { data: result, timestamp: now, ttl_seconds: self.ttl_seconds };
        let ghost key = email@;
        let ghost e = entry;
        match self.position(&chars_of(email.as_str())) {
            Some(j) => {
                let mut list: Vec<(String, CacheEntry<T>)> = Vec::new();
                std::mem::swap(&mut list, &mut self.email_cache);
                assert(email_entries(list@) == before);
                list.set(j, (email, entry));
                proof {
                    assert(email_entries(list@) =~= before.update(j as int, (key, e)));
                    lemma_store(before, email_entries(list@), j as int, key, e);
                }
                self.email_cache = list;
            },
            None => {
                let mut list: Vec<(String, CacheEntry<T>)> = Vec::new();
                std::mem::swap(&mut list, &mut self.email_cache);
                assert(email_entries(list@) == before);
                list.push((email, entry));
                proof {
                    assert(email_entries(list@) =~= before.push((key, e)));
                    lemma_store(before, email_entries(list@), before.len() as int, key, e);
                }
                self.email_cache = list;
            },
        }
    }

    /// Empties the cache.
    pub fn clear_email_cache(&mut self)
        ensures
            final(self).entries().len() == 0,
            final(self).ttl() == old(self).ttl(),
    {
        self.email_cache = Vec::new();
    }

    /// The number of cached emails, expired ones included.
    pub fn cache_size(&self) -> (r: usize)
        ensures
            r == self.entries().len(),
    {
        self.email_cache.len()
    }

    /// A copy of the result cached for `email`, unless there is none or it
    /// is expired by the clock's current reading.
    pub fn get_email(&self, email: &str) -> (r: Option<T>)
        ensures
            exists|now: u64| #[trigger] served(r, lookup(self.entries(), email@), now),
    {
        self.get_email_at(email, clock_seconds())
    }

    /// Caches `result` for `email`, stored at the clock's current reading.
    pub fn set_email(&mut self, email: String, result: T)
        ensures
            final(self).ttl() == old(self).ttl(),
            exists|now: u64|
                lookup(final(self).entries(), email@) == Some(
                    CacheEntry { data: result, timestamp: now, ttl_seconds: old(self).ttl() },
                ),
            forall|k: Seq<char>| k != email@ ==> #[trigger] lookup(final(self).entries(), k) == lookup(old(self).entries(), k),
    {
        let now = clock_seconds();
        self.set_email_at(email, result, now);
    }
}

/// What is cached is served: a result stored at `stored` for `email` is
/// looked up under `email` and, at any time up to its time-to-live later,
/// is not expired, so `get_email_at` gives back a copy of it.
pub proof fn lemma_cached_result_served(stored: u64, ttl_seconds: u64, now: u64)
    requires
        stored <= now,
        now - stored <= ttl_seconds,
    ensures
        !entry_expired(stored, ttl_seconds, now),
{
}

} // verus!
