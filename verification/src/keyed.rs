//! Association lists keyed by text: the model of the maps the library keeps
//! as vectors of `(key, value)` entries with unique keys.

use vstd::prelude::*;
use crate::text::{chars_of, equal_chars};

verus! {

broadcast use vstd::string::group_string_axioms;

/// The value stored under `k` in `s`, if any (the last one, should a key
/// repeat).
pub open spec fn lookup<V>(s: Seq<(Seq<char>, V)>, k: Seq<char>) -> Option<V>
    decreases s.len(),
{
    if s.len() == 0 {
        None
    } else if s.last().0 == k {
        Some(s.last().1)
    } else {
        lookup(s.drop_last(), k)
    }
}

/// No key occurs twice.
pub open spec fn unique_keys<V>(s: Seq<(Seq<char>, V)>) -> bool {
    forall|i: int, j: int| 0 <= i < j < s.len() ==> (#[trigger] s[i]).0 != (#[trigger] s[j]).0
}

/// With unique keys, the entry at position `i` is what its key looks up.
pub proof fn lemma_lookup_at<V>(s: Seq<(Seq<char>, V)>, i: int)
    requires
        unique_keys(s),
        0 <= i < s.len(),
    ensures
        lookup(s, s[i].0) == Some(s[i].1),
    decreases s.len(),
{
    if i < s.len() - 1 {
        assert(s.drop_last()[i] == s[i]);
        lemma_lookup_at(s.drop_last(), i);
    }
}

/// A key at no position looks up nothing.
pub proof fn lemma_lookup_absent<V>(s: Seq<(Seq<char>, V)>, k: Seq<char>)
    requires
        forall|i: int| 0 <= i < s.len() ==> (#[trigger] s[i]).0 != k,
    ensures
        lookup(s, k) is None,
    decreases s.len(),
{
    if s.len() > 0 {
        assert forall|i: int| 0 <= i < s.drop_last().len() implies (#[trigger] s.drop_last()[i]).0 != k by {
            assert(s.drop_last()[i] == s[i]);
        }
        lemma_lookup_absent(s.drop_last(), k);
    }
}

/// What a key looks up is stored at some position holding that key.
pub proof fn lemma_lookup_found<V>(s: Seq<(Seq<char>, V)>, k: Seq<char>)
    requires
        lookup(s, k) is Some,
    ensures
        exists|i: int| 0 <= i < s.len() && (#[trigger] s[i]).0 == k && Some(s[i].1) == lookup(s, k),
    decreases s.len(),
{
    if s.last().0 != k {
        lemma_lookup_found(s.drop_last(), k);
        let i = choose|i: int|
            0 <= i < s.drop_last().len() && (#[trigger] s.drop_last()[i]).0 == k && Some(s.drop_last()[i].1)
                == lookup(s.drop_last(), k);
        assert(s[i] == s.drop_last()[i]);
    } else {
        assert(s[s.len() - 1] == s.last());
    }
}

/// Storing `(k, v)` — over the entry already holding `k` at `j`, or appended
/// when no entry holds `k` — keeps keys unique, makes `k` look up `v` and
/// leaves every other key alone.
pub proof fn lemma_store<V>(before: Seq<(Seq<char>, V)>, after: Seq<(Seq<char>, V)>, j: int, k: Seq<char>, v: V)
    requires
        unique_keys(before),
        0 <= j <= before.len(),
        j < before.len() ==> before[j].0 == k && after == before.update(j, (k, v)),
        j == before.len() ==> after == before.push((k, v)) && forall|i: int|
            0 <= i < before.len() ==> (#[trigger] before[i]).0 != k,
    ensures
        unique_keys(after),
        lookup(after, k) == Some(v),
        forall|k2: Seq<char>| k2 != k ==> lookup(after, k2) == lookup(before, k2),
{
    assert(unique_keys(after)) by {
        assert forall|a: int, b: int| 0 <= a < b < after.len() implies (#[trigger] after[a]).0 != (#[trigger] after[b]).0 by {
            if a != j && b != j {
                assert(after[a] == before[a] && after[b] == before[b]);
            } else if a == j {
                assert(after[b] == before[b]);
            } else {
                assert(after[a] == before[a]);
            }
        }
    }
    assert(after[j] == (k, v));
    lemma_lookup_at(after, j);
    assert forall|k2: Seq<char>| k2 != k implies lookup(after, k2) == lookup(before, k2) by {
        if lookup(before, k2) is Some {
            lemma_lookup_found(before, k2);
            let m = choose|m: int| 0 <= m < before.len() && (#[trigger] before[m]).0 == k2 && Some(before[m].1) == lookup(before, k2);
            lemma_lookup_at(before, m);
            assert(after[m] == before[m]);
            lemma_lookup_at(after, m);
        } else if lookup(after, k2) is Some {
            lemma_lookup_found(after, k2);
            let m = choose|m: int| 0 <= m < after.len() && (#[trigger] after[m]).0 == k2 && Some(after[m].1) == lookup(after, k2);
            assert(m != j);
            assert(after[m] == before[m]);
            lemma_lookup_at(before, m);
        }
    }
}

/// The entries of `s` whose value satisfies `keep`, in order.
pub open spec fn kept<V>(s: Seq<(Seq<char>, V)>, keep: spec_fn(V) -> bool) -> Seq<(Seq<char>, V)>
    decreases s.len(),
{
    if s.len() == 0 {
        s
    } else if keep(s.last().1) {
        kept(s.drop_last(), keep).push(s.last())
    } else {
        kept(s.drop_last(), keep)
    }
}

/// Every kept entry is an entry of `s`.
pub proof fn lemma_kept_sub<V>(s: Seq<(Seq<char>, V)>, keep: spec_fn(V) -> bool)
    ensures
        forall|i: int|
            0 <= i < kept(s, keep).len() ==> exists|j: int| 0 <= j < s.len() && s[j] == #[trigger] kept(s, keep)[i],
    decreases s.len(),
{
    if s.len() > 0 {
        lemma_kept_sub(s.drop_last(), keep);
        let k = kept(s, keep);
        let kd = kept(s.drop_last(), keep);
        assert forall|i: int| 0 <= i < k.len() implies exists|j: int| 0 <= j < s.len() && s[j] == #[trigger] k[i] by {
            if i < kd.len() {
                assert(k[i] == kd[i]);
                let j = choose|j: int| 0 <= j < s.drop_last().len() && s.drop_last()[j] == #[trigger] kd[i];
                assert(s[j] == s.drop_last()[j]);
            } else {
                assert(s[s.len() - 1] == k[i]);
            }
        }
    }
}

/// Keeping some entries keeps keys unique; a key then looks up its value if
/// that value is kept, and nothing otherwise.
pub proof fn lemma_kept<V>(s: Seq<(Seq<char>, V)>, keep: spec_fn(V) -> bool)
    requires
        unique_keys(s),
    ensures
        unique_keys(kept(s, keep)),
        forall|k: Seq<char>| #[trigger] lookup(kept(s, keep), k) == match lookup(s, k) {
            Some(v) => if keep(v) {
                Some(v)
            } else {
                None
            },
            None => None,
        },
    decreases s.len(),
{
    if s.len() > 0 {
        let d = s.drop_last();
        assert(unique_keys(d)) by {
            assert forall|i: int, j: int| 0 <= i < j < d.len() implies (#[trigger] d[i]).0 != (#[trigger] d[j]).0 by {
                assert(d[i] == s[i] && d[j] == s[j]);
            }
        }
        lemma_kept(d, keep);
        lemma_kept_sub(d, keep);
        let kd = kept(d, keep);
        assert(kd.push(s.last()).drop_last() =~= kd);
        assert(kd.push(s.last()).last() == s.last());
        if keep(s.last().1) {
            let k = kept(s, keep);
            assert forall|i: int, j: int| 0 <= i < j < k.len() implies (#[trigger] k[i]).0 != (#[trigger] k[j]).0 by {
                if j == k.len() - 1 {
                    assert(k[i] == kd[i]);
                    let m = choose|m: int| 0 <= m < d.len() && d[m] == #[trigger] kd[i];
                    assert(s[m] == d[m]);
                    assert(s[s.len() - 1] == s.last());
                } else {
                    assert(k[i] == kd[i] && k[j] == kd[j]);
                }
            }
        }
        assert forall|k: Seq<char>| #[trigger] lookup(kept(s, keep), k) == match lookup(s, k) {
            Some(v) => if keep(v) {
                Some(v)
            } else {
                None
            },
            None => None,
        } by {
            assert(lookup(kd, k) == match lookup(d, k) {
                Some(v) => if keep(v) {
                    Some(v)
                } else {
                    None
                },
                None => None,
            });
            if s.last().0 == k {
                assert forall|i: int| 0 <= i < d.len() implies (#[trigger] d[i]).0 != k by {
                    assert(d[i] == s[i]);
                    assert(s[s.len() - 1] == s.last());
                }
                lemma_lookup_absent(d, k);
                if keep(s.last().1) {
                    assert(lookup(kd.push(s.last()), k) == Some(s.last().1));
                }
            } else {
                assert(lookup(s, k) == lookup(d, k));
                if keep(s.last().1) {
                    assert(lookup(kd.push(s.last()), k) == lookup(kd, k));
                }
            }
        }
    }
}

/// The values paired with key `k`, in order (a pair occurring twice counts
/// twice).
pub open spec fn group_of(pairs: Seq<(Seq<char>, Seq<char>)>, k: Seq<char>) -> Seq<Seq<char>>
    decreases pairs.len(),
{
    if pairs.len() == 0 {
        Seq::empty()
    } else if pairs.last().0 == k {
        group_of(pairs.drop_last(), k).push(pairs.last().1)
    } else {
        group_of(pairs.drop_last(), k)
    }
}

/// A grouping as `(key, values)` entries.
pub open spec fn groups_view(r: Seq<(String, Vec<String>)>) -> Seq<(Seq<char>, Seq<Seq<char>>)> {
    r.map_values(|p: (String, Vec<String>)| (p.0@, p.1@.map_values(|s: String| s@)))
}

/// A copy of a list of strings.
fn copy_strings(v: &Vec<String>) -> (r: Vec<String>)
    ensures
        r@.map_values(|s: String| s@) == v@.map_values(|s: String| s@),
{
    let mut r: Vec<String> = Vec::new();
    let mut i: usize = 0;
    while i < v.len()
        invariant
            i <= v@.len(),
            r@.map_values(|s: String| s@) == v@.take(i as int).map_values(|s: String| s@),
        decreases v@.len() - i,
    {
        let ghost before = r@;
        r.push(v[i].clone());
        assert(r@.map_values(|s: String| s@) =~= before.map_values(|s: String| s@).push(v@[i as int]@));
        assert(v@.take(i + 1).map_values(|s: String| s@) =~= v@.take(i as int).map_values(|s: String| s@).push(v@[i as int]@));
        i = i + 1;
    }
    assert(v@.take(i as int) =~= v@);
    r
}

/// The position of the group of `key`, if any.
fn group_position(r: &Vec<(String, Vec<String>)>, key: &Vec<char>) -> (pos: Option<usize>)
    ensures
        match pos {
            Some(j) => j < r@.len() && groups_view(r@)[j as int].0 == key@,
            None => forall|m: int| 0 <= m < r@.len() ==> (#[trigger] groups_view(r@)[m]).0 != key@,
        },
{
    let mut j: usize = 0;
    while j < r.len()
        invariant
            j <= r@.len(),
            forall|m: int| 0 <= m < j ==> (#[trigger] groups_view(r@)[m]).0 != key@,
        decreases r@.len() - j,
    {
        if equal_chars(&chars_of(r[j].0.as_str()), key) {
            return Some(j);
        }
        j = j + 1;
    }
    None
}

/// Groups `(key, value)` pairs by key: one entry per distinct key, in order
/// of first appearance, with the values paired with it.
pub fn group_pairs(pairs: &Vec<(String, String)>) -> (r: Vec<(String, Vec<String>)>)
    ensures
        unique_keys(groups_view(r@)),
        forall|k: Seq<char>|
            #[trigger] lookup(groups_view(r@), k) == if group_of(
                pairs@.map_values(|p: (String, String)| (p.0@, p.1@)),
                k,
            ).len() > 0 {
                Some(group_of(pairs@.map_values(|p: (String, String)| (p.0@, p.1@)), k))
            } else {
                None
            },
{
    let ghost pv = pairs@.map_values(|p: (String, String)| (p.0@, p.1@));
    let mut r: Vec<(String, Vec<String>)> = Vec::new();
    let mut i: usize = 0;
    while i < pairs.len()
        invariant
            i <= pairs@.len(),
            pv == pairs@.map_values(|p: (String, String)| (p.0@, p.1@)),
            unique_keys(groups_view(r@)),
            forall|k: Seq<char>|
                #[trigger] lookup(groups_view(r@), k) == if group_of(pv.take(i as int), k).len() > 0 {
                    Some(group_of(pv.take(i as int), k))
                } else {
                    None
                },
        decreases pairs@.len() - i,
    {
        let ghost pre = pv.take(i as int);
        let ghost next = pv.take(i + 1);
        let ghost key_v = pairs@[i as int].0@;
        let ghost id_v = pairs@[i as int].1@;
        proof {
            assert(next.drop_last() =~= pre);
            assert(next.last() == (key_v, id_v));
        }
        let key = chars_of(pairs[i].0.as_str());
        let ghost before = groups_view(r@);
        match group_position(&r, &key) {
            Some(j) => {
                proof {
                    lemma_lookup_at(before, j as int);
                }
                let mut ids = copy_strings(&r[j].1);
                ids.push(pairs[i].1.clone());
                let name = r[j].0.clone();
                let ghost new_ids = group_of(next, key_v);
                assert(ids@.map_values(|s: String| s@) =~= group_of(pre, key_v).push(id_v));
                r.set(j, (name, ids));
                proof {
                    let after = groups_view(r@);
                    assert(after =~= before.update(j as int, (key_v, new_ids)));
                    lemma_store(before, after, j as int, key_v, new_ids);
                }
            },
            None => {
                proof {
                    lemma_lookup_absent(before, key_v);
                }
                let mut ids: Vec<String> = Vec::new();
                ids.push(pairs[i].1.clone());
                let ghost new_ids = group_of(next, key_v);
                assert(group_of(pre, key_v).len() == 0);
                assert(ids@.map_values(|s: String| s@) =~= group_of(pre, key_v).push(id_v));
                r.push((pairs[i].0.clone(), ids));
                proof {
                    let after = groups_view(r@);
                    assert(after =~= before.push((key_v, new_ids)));
                    lemma_store(before, after, before.len() as int, key_v, new_ids);
                }
            },
        }
        i = i + 1;
    }
    assert(pv.take(i as int) =~= pv);
    r
}

} // verus!
