//! What the catalog search commands compute: option handling, the listing
//! filters, lookups by id, per-tier and per-actor tallies, and the text of an
//! entry's one-line and full display.

use vstd::prelude::*;
use crate::catalog::{
    any_contains_lower, covers, is_ranking, lemma_entry_covers_own_techniques, lemma_entry_covers_related_techniques,
    lemma_name_matching, lemma_ranks_before_order, rank_positions, ranks_before, Detection,
};
use crate::json::{decimal, push_decimal};
use crate::keyed::{group_of, group_pairs, groups_view, lemma_lookup_absent, lemma_lookup_at, lookup, unique_keys};
use crate::text::{
    chars_of, eq_ignore_ascii_case, equal_chars, equal_ignore_ascii_case, join, push_char, push_str,
    starts_with, string_from, uppercase_of, views,
};

verus! {

broadcast use vstd::string::group_string_axioms;

// ---------------------------------------------------------------------------
// Options
// ---------------------------------------------------------------------------

/// The position of the first argument equal to `flag`, if any.
pub open spec fn flag_position(args: Seq<Seq<char>>, flag: Seq<char>) -> Option<int> {
    if exists|i: int| 0 <= i < args.len() && args[i] == flag {
        Some(choose|i: int| 0 <= i < args.len() && args[i] == flag && forall|j: int| 0 <= j < i ==> args[j] != flag)
    } else {
        None
    }
}

/// Takes `flag value` out of the arguments and returns the value. When the
/// flag is absent, or is the last argument, nothing is taken and `None` comes
/// back.
pub fn take_opt(args: &mut Vec<String>, flag: &str) -> (r: Option<String>)
    ensures
        match flag_position(views(old(args)@), flag@) {
            Some(i) => if i + 1 < old(args)@.len() {
                &&& r matches Some(v) && v@ == old(args)@[i + 1]@
                &&& views(final(args)@) == views(old(args)@).take(i) + views(old(args)@).skip(i + 2)
            } else {
                r is None && final(args)@ == old(args)@
            },
            None => r is None && final(args)@ == old(args)@,
        },
{
    let ghost before = args@;
    let f = chars_of(flag);
    let mut i: usize = 0;
    while i < args.len()
        invariant
            i <= args@.len(),
            args@ == before,
            before == old(args)@,
            f@ == flag@,
            forall|j: int| 0 <= j < i ==> args@[j]@ != flag@,
        decreases args@.len() - i,
    {
        if equal_chars(&chars_of(args[i].as_str()), &f) {
            proof {
                let vs = views(before);
                assert(vs[i as int] == flag@);
                let c = choose|c: int| 0 <= c < vs.len() && vs[c] == flag@ && forall|j: int| 0 <= j < c ==> vs[j] != flag@;
                if c < i {
                    assert(vs[c] == args@[c]@);
                } else if c > i {
                }
                assert(flag_position(vs, flag@) == Some(i as int));
            }
            if i + 1 < args.len() {
                let value = args.remove(i + 1);
                let _flag = args.remove(i);
                proof {
                    assert(views(args@) =~= views(before).take(i as int) + views(before).skip(i + 2));
                    assert(before == old(args)@);
                    assert(value@ == before[i + 1]@);
                }
                return Some(value);
            }
            assert(before == old(args)@);
            assert(args@ == old(args)@);
            return None;
        }
        i = i + 1;
    }
    proof {
        let vs = views(before);
        assert forall|j: int| 0 <= j < vs.len() implies vs[j] != flag@ by {
            assert(vs[j] == args@[j]@);
        }
    }
    None
}

// ---------------------------------------------------------------------------
// Filters
// ---------------------------------------------------------------------------

/// How the catalog is filtered.
#[derive(Debug, Clone, Copy, PartialEq, Eq, Structural)]
pub enum EntryFilter {
    /// Entries covering a technique (parent or sub-technique, any case).
    Technique,
    /// Entries with a tactic containing the text, any case.
    Tactic,
    /// Entries with an actor containing the text, any case.
    Actor,
}

/// Whether entry `d` passes `filter` for `arg`.
pub open spec fn entry_passes(d: Detection, filter: EntryFilter, arg: Seq<char>) -> bool {
    match filter {
        EntryFilter::Technique => covers(d, arg),
        EntryFilter::Tactic => any_contains_lower(d.tactics@, arg),
        EntryFilter::Actor => any_contains_lower(d.actors@, arg),
    }
}

/// Each filter finds an entry by what the entry itself lists: by technique
/// each of its techniques and every sub-technique of one, by actor each of its
/// actors, by tactic each of its tactics; an entry that lists nothing a
/// filter looks at is never found by it.
pub proof fn lemma_filters_find_own_entries(d: Detection, w: Seq<char>)
    ensures
        forall|k: int| 0 <= k < d.actors@.len() ==> entry_passes(d, EntryFilter::Actor, (#[trigger] d.actors@[k])@),
        forall|k: int| 0 <= k < d.tactics@.len() ==> entry_passes(d, EntryFilter::Tactic, (#[trigger] d.tactics@[k])@),
        forall|k: int|
            0 <= k < d.techniques@.len() ==> entry_passes(d, EntryFilter::Technique, (#[trigger] d.techniques@[k])@),
        forall|k: int|
            0 <= k < d.techniques@.len() && starts_with(uppercase_of(w), uppercase_of((#[trigger] d.techniques@[k])@).push('.'))
                ==> entry_passes(d, EntryFilter::Technique, w),
        d.actors@.len() == 0 ==> !entry_passes(d, EntryFilter::Actor, w),
        d.tactics@.len() == 0 ==> !entry_passes(d, EntryFilter::Tactic, w),
        d.techniques@.len() == 0 ==> !entry_passes(d, EntryFilter::Technique, w),
{
    assert forall|k: int| 0 <= k < d.actors@.len() implies entry_passes(d, EntryFilter::Actor, (#[trigger] d.actors@[k])@) by {
        lemma_name_matching(d.actors@, k, w, w, d.actors@[k]);
    }
    assert forall|k: int| 0 <= k < d.tactics@.len() implies entry_passes(d, EntryFilter::Tactic, (#[trigger] d.tactics@[k])@) by {
        lemma_name_matching(d.tactics@, k, w, w, d.tactics@[k]);
    }
    assert forall|k: int| 0 <= k < d.techniques@.len() implies entry_passes(d, EntryFilter::Technique, (#[trigger] d.techniques@[k])@) by {
        lemma_entry_covers_own_techniques(d, k, d.techniques@[k]@);
    }
    assert forall|k: int|
        0 <= k < d.techniques@.len() && starts_with(uppercase_of(w), uppercase_of((#[trigger] d.techniques@[k])@).push('.'))
        implies entry_passes(d, EntryFilter::Technique, w) by {
        lemma_entry_covers_related_techniques(d, k, w);
    }
}

/// Entry `d` is listed for the optional tier and fidelity (each compared
/// ignoring ASCII case).
pub open spec fn entry_listed(d: Detection, tier: Option<Seq<char>>, fidelity: Option<Seq<char>>) -> bool {
    &&& (tier matches Some(t) ==> eq_ignore_ascii_case(d.tier@, t))
    &&& (fidelity matches Some(f) ==> eq_ignore_ascii_case(d.fidelity@, f))
}

/// The entries a sequence of references points to.
pub open spec fn entries_of(r: Seq<&Detection>) -> Seq<Detection> {
    r.map_values(|d: &Detection| *d)
}

/// The view of an optional string slice.
pub open spec fn opt_text(o: Option<&str>) -> Option<Seq<char>> {
    match o {
        Some(s) => Some(s@),
        None => None,
    }
}

/// The entries passing `filter` for `arg`, in catalog order.
pub fn filter_entries<'a>(catalog: &'a [Detection], filter: EntryFilter, arg: &str) -> (r: Vec<&'a Detection>)
    ensures
        entries_of(r@) == catalog@.filter(|d: Detection| entry_passes(d, filter, arg@)),
{
    let ghost pred = |d: Detection| entry_passes(d, filter, arg@);
    let mut r: Vec<&'a Detection> = Vec::new();
    let mut i: usize = 0;
    assert(catalog@.take(0).filter(pred) =~= Seq::<Detection>::empty());
    while i < catalog.len()
        invariant
            i <= catalog@.len(),
            pred == (|d: Detection| entry_passes(d, filter, arg@)),
            entries_of(r@) == catalog@.take(i as int).filter(pred),
        decreases catalog@.len() - i,
    {
        let d = &catalog[i];
        proof {
            catalog@.take(i as int).lemma_filter_push(catalog@[i as int], pred);
            assert(catalog@.take(i + 1) =~= catalog@.take(i as int).push(catalog@[i as int]));
        }
        let pass = match filter {
            EntryFilter::Technique => d.covers_technique(arg),
            EntryFilter::Tactic => d.has_tactic(arg),
            EntryFilter::Actor => d.has_actor(arg),
        };
        if pass {
            let ghost before = r@;
            r.push(d);
            assert(entries_of(r@) =~= entries_of(before).push(*d));
        }
        i = i + 1;
    }
    assert(catalog@.take(i as int) =~= catalog@);
    r
}

/// The entries listed for the optional tier and fidelity, in catalog order.
pub fn list_entries<'a>(catalog: &'a [Detection], tier: Option<&str>, fidelity: Option<&str>) -> (r: Vec<&'a Detection>)
    ensures
        entries_of(r@) == catalog@.filter(|d: Detection| entry_listed(d, opt_text(tier), opt_text(fidelity))),
{
    let ghost pred = |d: Detection| entry_listed(d, opt_text(tier), opt_text(fidelity));
    let t: Option<Vec<char>> = match tier {
        Some(s) => Some(chars_of(s)),
        None => None,
    };
    let f: Option<Vec<char>> = match fidelity {
        Some(s) => Some(chars_of(s)),
        None => None,
    };
    let mut r: Vec<&'a Detection> = Vec::new();
    let mut i: usize = 0;
    assert(catalog@.take(0).filter(pred) =~= Seq::<Detection>::empty());
    while i < catalog.len()
        invariant
            i <= catalog@.len(),
            pred == (|d: Detection| entry_listed(d, opt_text(tier), opt_text(fidelity))),
            match t {
                Some(v) => opt_text(tier) == Some(v@),
                None => opt_text(tier) is None,
            },
            match f {
                Some(v) => opt_text(fidelity) == Some(v@),
                None => opt_text(fidelity) is None,
            },
            entries_of(r@) == catalog@.take(i as int).filter(pred),
        decreases catalog@.len() - i,
    {
        let d = &catalog[i];
        proof {
            catalog@.take(i as int).lemma_filter_push(catalog@[i as int], pred);
            assert(catalog@.take(i + 1) =~= catalog@.take(i as int).push(catalog@[i as int]));
        }
        let tier_ok = match &t {
            Some(v) => equal_ignore_ascii_case(&chars_of(d.tier.as_str()), v),
            None => true,
        };
        let fidelity_ok = match &f {
            Some(v) => equal_ignore_ascii_case(&chars_of(d.fidelity.as_str()), v),
            None => true,
        };
        if tier_ok && fidelity_ok {
            let ghost before = r@;
            r.push(d);
            assert(entries_of(r@) =~= entries_of(before).push(*d));
        }
        i = i + 1;
    }
    assert(catalog@.take(i as int) =~= catalog@);
    r
}

/// The position of the first entry whose id equals `id` ignoring ASCII case.
pub open spec fn entry_position(catalog: Seq<Detection>, id: Seq<char>) -> Option<int> {
    if exists|i: int| 0 <= i < catalog.len() && eq_ignore_ascii_case(catalog[i].id@, id) {
        Some(
            choose|i: int|
                0 <= i < catalog.len() && eq_ignore_ascii_case(catalog[i].id@, id) && forall|j: int|
                    0 <= j < i ==> !eq_ignore_ascii_case(catalog[j].id@, id),
        )
    } else {
        None
    }
}

/// The first entry whose id equals `id` ignoring ASCII case.
pub fn find_entry<'a>(catalog: &'a [Detection], id: &str) -> (r: Option<&'a Detection>)
    ensures
        match entry_position(catalog@, id@) {
            Some(i) => r matches Some(d) && *d == catalog@[i],
            None => r is None,
        },
{
    let want = chars_of(id);
    let mut i: usize = 0;
    while i < catalog.len()
        invariant
            i <= catalog@.len(),
            want@ == id@,
            forall|j: int| 0 <= j < i ==> !eq_ignore_ascii_case(catalog@[j].id@, id@),
        decreases catalog@.len() - i,
    {
        if equal_ignore_ascii_case(&chars_of(catalog[i].id.as_str()), &want) {
            proof {
                let c = choose|c: int|
                    0 <= c < catalog@.len() && eq_ignore_ascii_case(catalog@[c].id@, id@) && forall|j: int|
                        0 <= j < c ==> !eq_ignore_ascii_case(catalog@[j].id@, id@);
                if c < i {
                } else if c > i {
                }
            }
            return Some(&catalog[i]);
        }
        i = i + 1;
    }
    None
}

// ---------------------------------------------------------------------------
// Tallies
// ---------------------------------------------------------------------------

/// The `(tier, id)` pairs of a catalog, in order.
pub open spec fn tier_pairs(catalog: Seq<Detection>) -> Seq<(Seq<char>, Seq<char>)> {
    catalog.map_values(|d: Detection| (d.tier@, d.id@))
}

/// The `(actor, id)` pairs of a catalog: each entry's actors in order.
pub open spec fn actor_pairs(catalog: Seq<Detection>) -> Seq<(Seq<char>, Seq<char>)>
    decreases catalog.len(),
{
    if catalog.len() == 0 {
        Seq::empty()
    } else {
        actor_pairs(catalog.drop_last()) + catalog.last().actors@.map_values(|a: String| (a@, catalog.last().id@))
    }
}

/// A tally as `(key, count)` entries.
pub open spec fn tally_entries(r: Seq<(String, usize)>) -> Seq<(Seq<char>, usize)> {
    r.map_values(|p: (String, usize)| (p.0@, p.1))
}

/// `r` counts the pairs by key: one entry per distinct key, each with the
/// number of pairs holding that key.
pub open spec fn counts_pairs(r: Seq<(String, usize)>, pairs: Seq<(Seq<char>, Seq<char>)>) -> bool {
    &&& unique_keys(tally_entries(r))
    &&& forall|k: Seq<char>|
        #[trigger] lookup(tally_entries(r), k) == if group_of(pairs, k).len() > 0 {
            Some(group_of(pairs, k).len() as usize)
        } else {
            None
        }
}

/// `r` counts the pairs by key, in ascending key order.
pub open spec fn is_tally(r: Seq<(String, usize)>, pairs: Seq<(Seq<char>, Seq<char>)>) -> bool {
    &&& counts_pairs(r, pairs)
    &&& forall|a: int, b: int|
        0 <= a < b < r.len() ==> crate::text::seq_lt((#[trigger] r[a]).0@, (#[trigger] r[b]).0@)
}

/// `r` counts the pairs by key, most frequent key first, keys of equal count
/// in ascending order.
pub open spec fn is_count_ranking(r: Seq<(String, usize)>, pairs: Seq<(Seq<char>, Seq<char>)>) -> bool {
    &&& counts_pairs(r, pairs)
    &&& forall|a: int, b: int|
        0 <= a < b < r.len() ==> {
            ||| (#[trigger] r[a]).1 > (#[trigger] r[b]).1
            ||| r[a].1 == r[b].1 && crate::text::seq_lt(r[a].0@, r[b].0@)
        }
}

/// Counts pairs by key: in ascending key order, or, `by_count`, most frequent
/// key first and keys of equal count in ascending order.
pub(crate) fn tally(pairs: &Vec<(String, String)>, by_count: bool) -> (r: Vec<(String, usize)>)
    ensures
        !by_count ==> is_tally(r@, pairs@.map_values(|p: (String, String)| (p.0@, p.1@))),
        by_count ==> is_count_ranking(r@, pairs@.map_values(|p: (String, String)| (p.0@, p.1@))),
{
    let ghost pv = pairs@.map_values(|p: (String, String)| (p.0@, p.1@));
    let groups = group_pairs(pairs);
    let ghost gv = groups_view(groups@);
    let mut ones: Vec<usize> = Vec::new();
    let mut keys: Vec<Vec<char>> = Vec::new();
    let mut i: usize = 0;
    while i < groups.len()
        invariant
            i <= groups@.len(),
            gv == groups_view(groups@),
            ones@.len() == i,
            keys@.len() == i,
            unique_keys(gv),
            forall|k: Seq<char>|
                #[trigger] lookup(gv, k) == if group_of(pv, k).len() > 0 {
                    Some(group_of(pv, k))
                } else {
                    None
                },
            forall|j: int| 0 <= j < i ==> #[trigger] ones@[j] == (if by_count { gv[j].1.len() } else { 1 }),
            forall|j: int| 0 <= j < i ==> #[trigger] ones@[j] > 0,
            forall|j: int| 0 <= j < i ==> #[trigger] keys@[j]@ == gv[j].0,
        decreases groups@.len() - i,
    {
        proof {
            lemma_lookup_at(gv, i as int);
        }
        let n: usize = if by_count { groups[i].1.len() } else { 1 };
        ones.push(n);
        keys.push(chars_of(groups[i].0.as_str()));
        i = i + 1;
    }
    let order = rank_positions(&ones, &keys);
    let ghost sc = ones@.map_values(|s: usize| s as int);
    let ghost kv = keys@.map_values(|d: Vec<char>| d@);
    proof {
        assert forall|x: int| 0 <= x < gv.len() implies #[trigger] sc[x] > 0 by {
            assert(ones@[x] > 0);
        }
    }
    let mut r: Vec<(String, usize)> = Vec::new();
    let mut k: usize = 0;
    while k < order.len()
        invariant
            k <= order@.len(),
            gv == groups_view(groups@),
            unique_keys(gv),
            is_ranking(sc, kv, order@),
            sc.len() == gv.len(),
            kv.len() == gv.len(),
            forall|j: int| 0 <= j < gv.len() ==> #[trigger] kv[j] == gv[j].0,
            forall|j: int| 0 <= j < gv.len() ==> #[trigger] sc[j] == (if by_count { gv[j].1.len() as int } else { 1 }),
            r@.len() == k,
            forall|m: int|
                0 <= m < k ==> (#[trigger] r@[m]).0@ == gv[order@[m] as int].0 && r@[m].1 == gv[order@[m] as int].1.len(),
        decreases order@.len() - k,
    {
        let pos = order[k];
        assert(pos < groups@.len());
        let name = groups[pos].0.clone();
        let n = groups[pos].1.len();
        r.push((name, n));
        k = k + 1;
    }
    proof {
        let tv = tally_entries(r@);
        assert forall|a: int, b: int| 0 <= a < b < r@.len() implies {
            &&& !by_count ==> crate::text::seq_lt((#[trigger] r@[a]).0@, (#[trigger] r@[b]).0@)
            &&& by_count ==> {
                ||| r@[a].1 > r@[b].1
                ||| r@[a].1 == r@[b].1 && crate::text::seq_lt(r@[a].0@, r@[b].0@)
            }
        } by {
            let x = order@[a] as int;
            let y = order@[b] as int;
            assert(ranks_before(sc, kv, x, y));
            lemma_ranks_before_order(sc, kv, x, y, x);
            assert(x != y);
            assert(gv[x].0 != gv[y].0);
        }
        assert(unique_keys(tv)) by {
            assert forall|a: int, b: int| 0 <= a < b < tv.len() implies (#[trigger] tv[a]).0 != (#[trigger] tv[b]).0 by {
                let x = order@[a] as int;
                let y = order@[b] as int;
                assert(ranks_before(sc, kv, x, y));
                lemma_ranks_before_order(sc, kv, x, y, x);
                assert(gv[x].0 != gv[y].0);
            }
        }
        assert forall|key: Seq<char>| #[trigger] lookup(tv, key) == if group_of(pv, key).len() > 0 {
            Some(group_of(pv, key).len() as usize)
        } else {
            None
        } by {
            if exists|j: int| 0 <= j < gv.len() && gv[j].0 == key {
                let j = choose|j: int| 0 <= j < gv.len() && gv[j].0 == key;
                assert(sc[j] > 0);
                assert(order@.contains(j as usize));
                let m = choose|m: int| 0 <= m < order@.len() && order@[m] == j as usize;
                assert(tv[m] == (key, gv[j].1.len() as usize));
                lemma_lookup_at(tv, m);
                lemma_lookup_at(gv, j);
            } else {
                lemma_lookup_absent(gv, key);
                assert forall|m: int| 0 <= m < tv.len() implies (#[trigger] tv[m]).0 != key by {
                    let x = order@[m] as int;
                    assert(tv[m].0 == gv[x].0);
                }
                lemma_lookup_absent(tv, key);
            }
        }
    }
    r
}

/// Entries per tier, in ascending tier order.
pub fn tier_counts(catalog: &[Detection]) -> (r: Vec<(String, usize)>)
    ensures
        is_tally(r@, tier_pairs(catalog@)),
{
    let mut pairs: Vec<(String, String)> = Vec::new();
    let mut i: usize = 0;
    while i < catalog.len()
        invariant
            i <= catalog@.len(),
            pairs@.map_values(|p: (String, String)| (p.0@, p.1@)) == tier_pairs(catalog@.take(i as int)),
        decreases catalog@.len() - i,
    {
        let ghost before = pairs@;
        pairs.push((catalog[i].tier.clone(), catalog[i].id.clone()));
        assert(pairs@.map_values(|p: (String, String)| (p.0@, p.1@)) =~= before.map_values(
            |p: (String, String)| (p.0@, p.1@),
        ).push((catalog@[i as int].tier@, catalog@[i as int].id@)));
        assert(tier_pairs(catalog@.take(i + 1)) =~= tier_pairs(catalog@.take(i as int)).push(
            (catalog@[i as int].tier@, catalog@[i as int].id@),
        ));
        i = i + 1;
    }
    assert(catalog@.take(i as int) =~= catalog@);
    tally(&pairs, false)
}

/// Actor mentions per actor, in ascending actor order.
pub fn actor_counts(catalog: &[Detection]) -> (r: Vec<(String, usize)>)
    ensures
        is_tally(r@, actor_pairs(catalog@)),
{
    let mut pairs: Vec<(String, String)> = Vec::new();
    let mut i: usize = 0;
    while i < catalog.len()
        invariant
            i <= catalog@.len(),
            pairs@.map_values(|p: (String, String)| (p.0@, p.1@)) == actor_pairs(catalog@.take(i as int)),
        decreases catalog@.len() - i,
    {
        let d = &catalog[i];
        let ghost base = pairs@.map_values(|p: (String, String)| (p.0@, p.1@));
        let ghost av = d.actors@.map_values(|a: String| (a@, d.id@));
        let mut k: usize = 0;
        while k < d.actors.len()
            invariant
                k <= d.actors@.len(),
                av == d.actors@.map_values(|a: String| (a@, d.id@)),
                pairs@.map_values(|p: (String, String)| (p.0@, p.1@)) == base + av.take(k as int),
            decreases d.actors@.len() - k,
        {
            let ghost before = pairs@;
            pairs.push((d.actors[k].clone(), d.id.clone()));
            assert(pairs@.map_values(|p: (String, String)| (p.0@, p.1@)) =~= before.map_values(
                |p: (String, String)| (p.0@, p.1@),
            ).push(av[k as int]));
            assert(av.take(k + 1) =~= av.take(k as int).push(av[k as int]));
            k = k + 1;
        }
        proof {
            assert(av.take(k as int) =~= av);
            assert(catalog@.take(i + 1).drop_last() =~= catalog@.take(i as int));
            assert(catalog@.take(i + 1).last() == *d);
        }
        i = i + 1;
    }
    assert(catalog@.take(i as int) =~= catalog@);
    tally(&pairs, false)
}

// ---------------------------------------------------------------------------
// Display
// ---------------------------------------------------------------------------

/// `s` padded with spaces on the right to `width` characters (`{:<width}`).
pub open spec fn padded(s: Seq<char>, width: nat) -> Seq<char> {
    if s.len() < width {
        s + Seq::new((width - s.len()) as nat, |i: int| ' ')
    } else {
        s
    }
}

/// The one-line listing of an entry: id, tier, fidelity, name, and its
/// techniques when it has any.
pub open spec fn brief_text(d: Detection) -> Seq<char> {
    "  "@ + padded(d.id@, 5) + " ["@ + padded(d.tier@, 11) + "] "@ + padded(d.fidelity@, 11) + " "@ + d.name@
        + if d.techniques@.len() == 0 {
        Seq::empty()
    } else {
        "  "@ + join(views(d.techniques@), ","@)
    }
}

/// An optional display line: `label` and the joined list, when not empty.
pub open spec fn list_line(label: Seq<char>, items: Seq<String>) -> Seq<char> {
    if items.len() == 0 {
        Seq::empty()
    } else {
        label + join(views(items), ", "@) + "\n"@
    }
}

/// The full display of an entry.
pub open spec fn show_text_of(d: Detection) -> Seq<char> {
    d.id@ + " — "@ + d.name@ + "\n"@ + "  tier:        "@ + d.tier@ + "\n"@ + "  fidelity:    "@ + d.fidelity@ + "\n"@
        + list_line("  techniques:  "@, d.techniques@) + list_line("  tactics:     "@, d.tactics@) + list_line(
        "  actors:      "@,
        d.actors@,
    ) + "  data source: "@ + d.data_source@ + "\n"@ + "  dialect:     "@ + d.dialect@ + "\n"@ + "  summary:     "@
        + d.summary@ + "\n"@ + "  tuning:      "@ + d.tuning@ + "\n"@ + "\n  "@ + d.query@ + "\n"@ + "\n"@
}

/// One search hit: its score, id, name and summary.
pub open spec fn hit_text(score: nat, d: Detection) -> Seq<char> {
    "  ["@ + decimal(score) + "] "@ + padded(d.id@, 5) + " "@ + d.name@ + " — "@ + d.summary@
}

/// Appends `s` padded to `width`.
fn push_padded(out: &mut String, s: &str, width: usize)
    ensures
        final(out)@ == old(out)@ + padded(s@, width as nat),
{
    push_str(out, s);
    let n = chars_of(s).len();
    let mut k: usize = n;
    let ghost base = out@;
    while k < width
        invariant
            n <= k,
            n == s@.len(),
            base == old(out)@ + s@,
            k <= width || k == n,
            out@ == base + Seq::new((k - n) as nat, |i: int| ' '),
        decreases width - k,
    {
        push_char(out, ' ');
        assert(Seq::new((k + 1 - n) as nat, |i: int| ' ') =~= Seq::new((k - n) as nat, |i: int| ' ').push(' '));
        k = k + 1;
    }
    proof {
        if s@.len() >= width {
            assert(Seq::new(0nat, |i: int| ' ') =~= Seq::<char>::empty());
        }
    }
    assert(out@ =~= old(out)@ + padded(s@, width as nat));
}

/// Joins strings with a separator.
pub(crate) fn join_with(parts: &Vec<String>, sep: &str) -> (r: String)
    ensures
        r@ == join(views(parts@), sep@),
{
    let mut r = String::new();
    if parts.len() == 0 {
        assert(views(parts@) =~= Seq::<Seq<char>>::empty());
        return r;
    }
    push_str(&mut r, parts[0].as_str());
    assert(views(parts@.take(1)) =~= seq![parts@[0]@]);
    let mut i: usize = 1;
    while i < parts.len()
        invariant
            1 <= i <= parts@.len(),
            r@ == join(views(parts@.take(i as int)), sep@),
        decreases parts@.len() - i,
    {
        push_str(&mut r, sep);
        push_str(&mut r, parts[i].as_str());
        proof {
            let pre = views(parts@.take(i as int));
            let next = views(parts@.take(i + 1));
            assert(next.drop_last() =~= pre);
            assert(next.last() == parts@[i as int]@);
            assert(r@ =~= join(pre, sep@) + sep@ + parts@[i as int]@);
        }
        i = i + 1;
    }
    assert(parts@.take(i as int) =~= parts@);
    r
}

/// The one-line listing of an entry.
pub fn brief_line(d: &Detection) -> (r: String)
    ensures
        r@ == brief_text(*d),
{
    let mut r = string_from("  ");
    push_padded(&mut r, d.id.as_str(), 5);
    push_str(&mut r, " [");
    push_padded(&mut r, d.tier.as_str(), 11);
    push_str(&mut r, "] ");
    push_padded(&mut r, d.fidelity.as_str(), 11);
    push_str(&mut r, " ");
    push_str(&mut r, d.name.as_str());
    if d.techniques.len() > 0 {
        push_str(&mut r, "  ");
        let joined = join_with(&d.techniques, ",");
        push_str(&mut r, joined.as_str());
    }
    assert(r@ =~= brief_text(*d));
    r
}

/// Appends an optional display line.
fn push_list_line(out: &mut String, label: &str, items: &Vec<String>)
    ensures
        final(out)@ == old(out)@ + list_line(label@, items@),
{
    if items.len() > 0 {
        push_str(out, label);
        let joined = join_with(items, ", ");
        push_str(out, joined.as_str());
        push_str(out, "\n");
    }
    assert(out@ =~= old(out)@ + list_line(label@, items@));
}

/// The full display of an entry.
pub fn show_text(d: &Detection) -> (r: String)
    ensures
        r@ == show_text_of(*d),
{
    let mut r = String::new();
    push_str(&mut r, d.id.as_str());
    push_str(&mut r, " — ");
    push_str(&mut r, d.name.as_str());
    push_str(&mut r, "\n");
    push_str(&mut r, "  tier:        ");
    push_str(&mut r, d.tier.as_str());
    push_str(&mut r, "\n");
    push_str(&mut r, "  fidelity:    ");
    push_str(&mut r, d.fidelity.as_str());
    push_str(&mut r, "\n");
    let ghost head = r@;
    push_list_line(&mut r, "  techniques:  ", &d.techniques);
    push_list_line(&mut r, "  tactics:     ", &d.tactics);
    push_list_line(&mut r, "  actors:      ", &d.actors);
    let ghost mid = r@;
    push_str(&mut r, "  data source: ");
    push_str(&mut r, d.data_source.as_str());
    push_str(&mut r, "\n");
    push_str(&mut r, "  dialect:     ");
    push_str(&mut r, d.dialect.as_str());
    push_str(&mut r, "\n");
    push_str(&mut r, "  summary:     ");
    push_str(&mut r, d.summary.as_str());
    push_str(&mut r, "\n");
    push_str(&mut r, "  tuning:      ");
    push_str(&mut r, d.tuning.as_str());
    push_str(&mut r, "\n");
    push_str(&mut r, "\n  ");
    push_str(&mut r, d.query.as_str());
    push_str(&mut r, "\n");
    push_str(&mut r, "\n");
    assert(r@ =~= show_text_of(*d));
    r
}

/// One search hit.
pub fn hit_text_line(score: usize, d: &Detection) -> (r: String)
    ensures
        r@ == hit_text(score as nat, *d),
{
    let mut r = string_from("  [");
    push_decimal(&mut r, score);
    push_str(&mut r, "] ");
    push_padded(&mut r, d.id.as_str(), 5);
    push_str(&mut r, " ");
    push_str(&mut r, d.name.as_str());
    push_str(&mut r, " — ");
    push_str(&mut r, d.summary.as_str());
    assert(r@ =~= hit_text(score as nat, *d));
    r
}

} // verus!
