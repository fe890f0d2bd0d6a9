//! The response cache: generated responses kept per request key for a
//! time-to-live, so a repeated request is answered without the model.

use vstd::prelude::*;
use std::hash::{Hash, Hasher};
use crate::llm::types::{LLMResponse, LLMResponseView};
use crate::keyed::{lemma_lookup_absent, lemma_lookup_at, lemma_store, lookup, unique_keys};
use crate::text::{chars_of, equal_chars};

verus! {

broadcast use vstd::string::group_string_axioms;

// ---------------------------------------------------------------------------
// Keys and time (std)
// ---------------------------------------------------------------------------

/// The cache key of a request: `DefaultHasher` (created with `new`, so the same
/// in every run of one build) over the model, the prompt, the bits of the
/// temperature and the token limit, printed in lower-case hexadecimal.
pub uninterp spec fn request_key(model: Seq<char>, prompt: Seq<char>, temperature_bits: u32, max_tokens: u32) -> Seq<char>;

/// Computes `request_key` with `std::collections::hash_map::DefaultHasher`.
#[verifier::external_body]
fn generate_key(model: &str, prompt: &str, temperature_bits: u32, max_tokens: u32) -> (k: String)
    ensures
        k@ == request_key(model@, prompt@, temperature_bits, max_tokens),
{
    let mut hasher = std::collections::hash_map::DefaultHasher::new();
    (model, prompt, temperature_bits, max_tokens).hash(&mut hasher);
    format!("{:x}", hasher.finish())
}

/// `SystemTime::now` as nanoseconds since the Unix epoch (0 for a clock set
/// before the epoch). It reads the clock, so nothing is stated of it.
#[verifier::external_body]
fn clock_nanos() -> (t: u128) {
    std::time::SystemTime::now().duration_since(std::time::UNIX_EPOCH).map_or(0, |d| d.as_nanos())
}

// ---------------------------------------------------------------------------
// Entries
// ---------------------------------------------------------------------------

/// Nanoseconds in an hour.
pub const NANOS_PER_HOUR: u128 = 3_600_000_000_000;

/// A cached response with the time it was stored and its time-to-live.
pub struct CachedEntry {
    pub response: LLMResponse,
    pub cached_at: u128,
    pub ttl: u128,
}

/// The content of a cached entry.
pub struct CachedView {
    pub response: LLMResponseView,
    pub cached_at: u128,
    pub ttl: u128,
}

impl View for CachedEntry {
    type V = CachedView;

    open spec fn view(&self) -> CachedView {
        CachedView { response: self.response@, cached_at: self.cached_at, ttl: self.ttl }
    }
}

/// An entry is expired at `now` when more than its time-to-live has passed
/// since it was stored, or when the clock reads earlier than the store time.
pub open spec fn expired_at(e: CachedView, now: u128) -> bool {
    now < e.cached_at || now - e.cached_at > e.ttl
}

/// `r` is what a lookup of the stored entry `e` gives at `now`: its response
/// while it is not expired, nothing when it is expired or there is none.
pub open spec fn served_at(r: Option<LLMResponse>, e: Option<CachedView>, now: u128) -> bool {
    match e {
        Some(e) => if expired_at(e, now) {
            r is None
        } else {
            r matches Some(resp) && resp@ == e.response
        },
        None => r is None,
    }
}

impl CachedEntry {
    /// Whether this entry is expired at `now`.
    pub fn is_expired_at(&self, now: u128) -> (r: bool)
        ensures
            r == expired_at(self@, now),
    {
        now < self.cached_at || now - self.cached_at > self.ttl
    }
}

/// How many entries of `s` are expired at `now`.
pub open spec fn expired_count(s: Seq<(Seq<char>, CachedView)>, now: u128) -> nat
    decreases s.len(),
{
    if s.len() == 0 {
        0
    } else {
        expired_count(s.drop_last(), now) + if expired_at(s.last().1, now) {
            1nat
        } else {
            0nat
        }
    }
}

// ---------------------------------------------------------------------------
// The cache
// ---------------------------------------------------------------------------

/// Statistics of a cache at one moment.
#[derive(Debug, Clone, Copy, PartialEq, Eq, Structural)]
pub struct CacheStats {
    pub total: usize,
    pub valid: usize,
    pub expired: usize,
}

/// Responses per request key, each kept for the cache's time-to-live.
pub struct ResponseCache {
    slots: Vec<(String, CachedEntry)>,
    ttl: u128,
}

impl ResponseCache {
    /// The stored entries, in storage order.
    pub closed spec fn entries(&self) -> Seq<(Seq<char>, CachedView)> {
        self.slots@.map_values(|p: (String, CachedEntry)| (p.0@, p.1@))
    }

    /// The time-to-live given to new entries, in nanoseconds.
    pub closed spec fn ttl_nanos(&self) -> u128 {
        self.ttl
    }

    #[verifier::type_invariant]
    spec fn well_formed(self) -> bool {
        unique_keys(self.entries())
    }

    /// An empty cache whose entries live `ttl_hours` hours.
    pub fn new(ttl_hours: u32) -> (r: Self)
        ensures
            r.entries() == Seq::<(Seq<char>, CachedView)>::empty(),
            r.ttl_nanos() == ttl_hours as int * NANOS_PER_HOUR as int,
    {
        let r = ResponseCache { slots: Vec::new(), ttl: (ttl_hours as u128) * NANOS_PER_HOUR };
        assert(r.entries() =~= Seq::<(Seq<char>, CachedView)>::empty());
        r
    }

    /// The position of the slot stored under `key`, if any.
    fn position(&self, key: &Vec<char>) -> (r: Option<usize>)
        ensures
            match r {
                Some(i) => i < self.entries().len() && self.entries()[i as int].0 == key@,
                None => forall|i: int| 0 <= i < self.entries().len() ==> (#[trigger] self.entries()[i]).0 != key@,
            },
    {
        let mut i: usize = 0;
        while i < self.slots.len()
            invariant
                i <= self.slots@.len(),
                forall|j: int| 0 <= j < i ==> (#[trigger] self.entries()[j]).0 != key@,
            decreases self.slots@.len() - i,
        {
            let k = chars_of(self.slots[i].0.as_str());
            if equal_chars(&k, key) {
                return Some(i);
            }
            i = i + 1;
        }
        None
    }

    /// The response stored under `key` if it is not expired at `now`.
    pub fn get_at(&self, key: &str, now: u128) -> (r: Option<LLMResponse>)
        ensures
            match lookup(self.entries(), key@) {
                Some(e) => if expired_at(e, now) {
                    r is None
                } else {
                    r matches Some(resp) && resp@ == e.response
                },
                None => r is None,
            },
    {
        proof {
            use_type_invariant(self);
        }
        let k = chars_of(key);
        match self.position(&k) {
            Some(i) => {
                proof {
                    lemma_lookup_at(self.entries(), i as int);
                }
                let entry = &self.slots[i].1;
                if entry.is_expired_at(now) {
                    None
                } else {
                    Some(entry.response.duplicate())
                }
            },
            None => {
                proof {
                    lemma_lookup_absent(self.entries(), key@);
                }
                None
            },
        }
    }

    /// Stores `response` under `key` at time `now`, replacing what was stored
    /// under that key; every other key keeps its entry.
    pub fn put_at(&mut self, key: &str, response: LLMResponse, now: u128)
        ensures
            lookup(final(self).entries(), key@) == Some(
                CachedView { response: response@, cached_at: now, ttl: old(self).ttl_nanos() },
            ),
            forall|k: Seq<char>| k != key@ ==> lookup(final(self).entries(), k) == lookup(old(self).entries(), k),
            final(self).ttl_nanos() == old(self).ttl_nanos(),
    {
        proof {
            use_type_invariant(&*self);
        }
        let ghost before = self.entries();
        let ghost resp_view = response@;
        let k = chars_of(key);
        let entry = CachedEntry { response, cached_at: now, ttl: self.ttl };
        let pos = self.position(&k);
        let mut slots = Vec::new();
        std::mem::swap(&mut slots, &mut self.slots);
        match pos {
            Some(i) => {
                slots.set(i, (string_copy(key), entry));
            },
            None => {
                slots.push((string_copy(key), entry));
            },
        }
        let ghost after = slots@.map_values(|p: (String, CachedEntry)| (p.0@, p.1@));
        let ghost new_view = CachedView { response: resp_view, cached_at: now, ttl: self.ttl };
        proof {
            let j = match pos {
                Some(i) => i as int,
                None => before.len() as int,
            };
            match pos {
                Some(i) => {
                    assert(after =~= before.update(i as int, (key@, new_view)));
                },
                None => {
                    assert(after =~= before.push((key@, new_view)));
                },
            }
            lemma_store(before, after, j, key@, new_view);
        }
        self.slots = slots;
    }

    /// Drops every entry expired at `now`; the others stay, unchanged.
    pub fn cleanup_expired_at(&mut self, now: u128)
        ensures
            forall|k: Seq<char>|
                #[trigger] lookup(final(self).entries(), k) == fresh(lookup(old(self).entries(), k), now),
            final(self).ttl_nanos() == old(self).ttl_nanos(),
    {
        proof {
            use_type_invariant(&*self);
        }
        let ghost before = self.entries();
        let mut slots = Vec::new();
        std::mem::swap(&mut slots, &mut self.slots);
        let mut kept: Vec<(String, CachedEntry)> = Vec::new();
        let ghost mut i: int = 0;
        while slots.len() > 0
            invariant
                0 <= i <= before.len(),
                slots@.map_values(|p: (String, CachedEntry)| (p.0@, p.1@)) == before.skip(i),
                kept@.map_values(|p: (String, CachedEntry)| (p.0@, p.1@)) == keep_fresh(before.take(i), now),
            decreases slots@.len(),
        {
            let ghost kept_before = kept@;
            assert(slots@.map_values(|p: (String, CachedEntry)| (p.0@, p.1@)).len() == slots@.len());
            assert(i < before.len());
            assert(slots@.map_values(|p: (String, CachedEntry)| (p.0@, p.1@))[0] == (slots@[0].0@, slots@[0].1@));
            let ghost old_slots = slots@;
            let slot = slots.remove(0);
            proof {
                assert(before.skip(i)[0] == before[i]);
                assert(before.take(i + 1).drop_last() =~= before.take(i));
                assert(before.take(i + 1).last() == before[i]);
                assert(before.skip(i).drop_first() =~= before.skip(i + 1));
                assert(slots@ =~= old_slots.drop_first());
                assert(slots@.map_values(|p: (String, CachedEntry)| (p.0@, p.1@)) =~= old_slots.map_values(
                    |p: (String, CachedEntry)| (p.0@, p.1@),
                ).drop_first());
            }
            if !slot.1.is_expired_at(now) {
                let ghost v = (slot.0@, slot.1@);
                kept.push(slot);
                assert(kept@.map_values(|p: (String, CachedEntry)| (p.0@, p.1@)) =~= kept_before.map_values(
                    |p: (String, CachedEntry)| (p.0@, p.1@),
                ).push(v));
            }
            proof {
                i = i + 1;
            }
        }
        proof {
            assert(before.skip(i).len() == 0);
            assert(before.take(i) =~= before);
            lemma_keep_fresh_unique(before, now);
            assert forall|k: Seq<char>| #[trigger] lookup(keep_fresh(before, now), k) == fresh(lookup(before, k), now) by {
                lemma_keep_fresh_lookup(before, now, k);
            }
        }
        self.slots = kept;
    }

    /// Counts the entries, and how many of them are expired at `now`.
    pub fn stats_at(&self, now: u128) -> (r: CacheStats)
        ensures
            r.total == self.entries().len(),
            r.expired == expired_count(self.entries(), now),
            r.valid == r.total - r.expired,
    {
        let mut expired: usize = 0;
        let mut i: usize = 0;
        while i < self.slots.len()
            invariant
                i <= self.slots@.len(),
                expired <= i,
                expired == expired_count(self.entries().take(i as int), now),
            decreases self.slots@.len() - i,
        {
            proof {
                assert(self.entries().take(i + 1).drop_last() =~= self.entries().take(i as int));
                assert(self.entries().take(i + 1).last() == self.entries()[i as int]);
            }
            if self.slots[i].1.is_expired_at(now) {
                expired = expired + 1;
            }
            i = i + 1;
        }
        assert(self.entries().take(i as int) =~= self.entries());
        CacheStats { total: self.slots.len(), valid: self.slots.len() - expired, expired }
    }

    /// Empties the cache.
    pub fn clear(&mut self)
        ensures
            final(self).entries() == Seq::<(Seq<char>, CachedView)>::empty(),
            final(self).ttl_nanos() == old(self).ttl_nanos(),
    {
        self.slots = Vec::new();
        assert(self.entries() =~= Seq::<(Seq<char>, CachedView)>::empty());
    }

    /// The cached response for a request, if one is stored under its key and
    /// has not expired by the clock's current reading.
    pub fn get(&self, model: &str, prompt: &str, temperature_bits: u32, max_tokens: u32) -> (r: Option<
        LLMResponse,
    >)
        ensures
            exists|now: u128|
                #[trigger] served_at(r, lookup(self.entries(), request_key(model@, prompt@, temperature_bits, max_tokens)), now),
    {
        let key = generate_key(model, prompt, temperature_bits, max_tokens);
        let now = clock_nanos();
        let r = self.get_at(key.as_str(), now);
        assert(served_at(r, lookup(self.entries(), key@), now));
        r
    }

    /// Stores a response for a request under its key, stamped with the
    /// clock's current reading.
    pub fn put(&mut self, model: &str, prompt: &str, temperature_bits: u32, max_tokens: u32, response: LLMResponse)
        ensures
            lookup(final(self).entries(), request_key(model@, prompt@, temperature_bits, max_tokens)) matches Some(e)
                && e.response == response@ && e.ttl == old(self).ttl_nanos(),
            forall|k: Seq<char>|
                k != request_key(model@, prompt@, temperature_bits, max_tokens) ==> lookup(final(self).entries(), k)
                    == lookup(old(self).entries(), k),
    {
        let key = generate_key(model, prompt, temperature_bits, max_tokens);
        self.put_at(key.as_str(), response, clock_nanos());
    }

    /// Drops the entries expired by the clock's current reading.
    pub fn cleanup_expired(&mut self)
        ensures
            exists|now: u128| #[trigger] cleaned(old(self).entries(), final(self).entries(), now),
    {
        let now = clock_nanos();
        self.cleanup_expired_at(now);
        assert(cleaned(old(self).entries(), self.entries(), now));
    }

    /// Statistics by the clock's current reading.
    pub fn stats(&self) -> (r: CacheStats)
        ensures
            r.total == self.entries().len(),
            exists|now: u128| r.expired == expired_count(self.entries(), now),
            r.valid == r.total - r.expired,
    {
        self.stats_at(clock_nanos())
    }
}

/// `after` holds what `before` held, less the entries expired at `now`.
pub open spec fn cleaned(before: Seq<(Seq<char>, CachedView)>, after: Seq<(Seq<char>, CachedView)>, now: u128) -> bool {
    forall|k: Seq<char>| #[trigger] lookup(after, k) == fresh(lookup(before, k), now)
}

/// What is stored is served: an entry stored at `t_put` is given back by a
/// lookup at every time from `t_put` to `t_put` plus its time-to-live, and by
/// none before it was stored or after that time has passed. With `put_at`
/// (the key then looks up this entry) and `get_at` (a fresh entry's response
/// comes back), a read after a write returns what was written.
pub proof fn lemma_stored_response_served(resp: LLMResponseView, t_put: u128, ttl: u128, t: u128)
    ensures
        t_put <= t && t - t_put <= ttl ==> !expired_at(CachedView { response: resp, cached_at: t_put, ttl }, t),
        t < t_put || t - t_put > ttl ==> expired_at(CachedView { response: resp, cached_at: t_put, ttl }, t),
{
}

/// The entries of `s` not expired at `now`, in order.
pub open spec fn keep_fresh(s: Seq<(Seq<char>, CachedView)>, now: u128) -> Seq<(Seq<char>, CachedView)>
    decreases s.len(),
{
    if s.len() == 0 {
        s
    } else if expired_at(s.last().1, now) {
        keep_fresh(s.drop_last(), now)
    } else {
        keep_fresh(s.drop_last(), now).push(s.last())
    }
}

/// A looked-up entry, unless it is expired at `now`.
pub open spec fn fresh(e: Option<CachedView>, now: u128) -> Option<CachedView> {
    match e {
        Some(v) => if expired_at(v, now) {
            None
        } else {
            Some(v)
        },
        None => None,
    }
}

/// Every entry kept is an entry of `s`.
proof fn lemma_keep_fresh_sub(s: Seq<(Seq<char>, CachedView)>, now: u128)
    ensures
        forall|i: int|
            0 <= i < keep_fresh(s, now).len() ==> exists|j: int|
                0 <= j < s.len() && s[j] == #[trigger] keep_fresh(s, now)[i],
    decreases s.len(),
{
    if s.len() > 0 {
        lemma_keep_fresh_sub(s.drop_last(), now);
        let k = keep_fresh(s, now);
        let kd = keep_fresh(s.drop_last(), now);
        assert forall|i: int| 0 <= i < k.len() implies exists|j: int| 0 <= j < s.len() && s[j] == #[trigger] k[i] by {
            if i < kd.len() {
                assert(k[i] == kd[i]);
                let j = choose|j: int| 0 <= j < s.drop_last().len() && s.drop_last()[j] == #[trigger] kd[i];
                assert(s[j] == s.drop_last()[j]);
            } else {
                assert(s[s.len() - 1] == k[i]);
            }
        }
    }
}

/// Keeping the fresh entries keeps keys unique.
proof fn lemma_keep_fresh_unique(s: Seq<(Seq<char>, CachedView)>, now: u128)
    requires
        unique_keys(s),
    ensures
        unique_keys(keep_fresh(s, now)),
    decreases s.len(),
{
    if s.len() > 0 {
        let d = s.drop_last();
        assert(unique_keys(d)) by {
            assert forall|i: int, j: int| 0 <= i < j < d.len() implies (#[trigger] d[i]).0 != (#[trigger] d[j]).0 by {
                assert(d[i] == s[i] && d[j] == s[j]);
            }
        }
        lemma_keep_fresh_unique(d, now);
        lemma_keep_fresh_sub(d, now);
        let kd = keep_fresh(d, now);
        if !expired_at(s.last().1, now) {
            let k = keep_fresh(s, now);
            assert forall|i: int, j: int| 0 <= i < j < k.len() implies (#[trigger] k[i]).0 != (#[trigger] k[j]).0 by {
                if j == k.len() - 1 {
                    assert(k[i] == kd[i]);
                    let m = choose|m: int| 0 <= m < d.len() && d[m] == #[trigger] kd[i];
                    assert(s[m] == d[m]);
                    assert(s[s.len() - 1] == s.last());
                } else {
                    assert(k[i] == kd[i] && k[j] == kd[j]);
                }
            }
        }
    }
}

/// With unique keys, looking up in the fresh entries is looking up and
/// dropping an expired result.
proof fn lemma_keep_fresh_lookup(s: Seq<(Seq<char>, CachedView)>, now: u128, k: Seq<char>)
    requires
        unique_keys(s),
    ensures
        lookup(keep_fresh(s, now), k) == fresh(lookup(s, k), now),
    decreases s.len(),
{
    if s.len() > 0 {
        let d = s.drop_last();
        assert(unique_keys(d)) by {
            assert forall|i: int, j: int| 0 <= i < j < d.len() implies (#[trigger] d[i]).0 != (#[trigger] d[j]).0 by {
                assert(d[i] == s[i] && d[j] == s[j]);
            }
        }
        lemma_keep_fresh_lookup(d, now, k);
        let kd = keep_fresh(d, now);
        assert(kd.push(s.last()).drop_last() =~= kd);
        assert(kd.push(s.last()).last() == s.last());
        if s.last().0 == k {
            assert forall|i: int| 0 <= i < d.len() implies (#[trigger] d[i]).0 != k by {
                assert(d[i] == s[i]);
                assert(s[s.len() - 1] == s.last());
            }
            lemma_lookup_absent(d, k);
        }
    }
}

/// A copy of a string slice as an owned string.
fn string_copy(s: &str) -> (r: String)
    ensures
        r@ == s@,
{
    crate::text::string_from(s)
}

} // verus!
