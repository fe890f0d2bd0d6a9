//! The searchable detection catalog: its entries, their searchable text, the
//! technique, actor and tactic filters, and the ranked term search.

use vstd::prelude::*;
use serde_json::Error as JsonError;
use crate::text::{
    chars_less, chars_of, contains, contains_seq, equal_chars, has_prefix, join,
    lemma_seq_lt_order, lowercase_of, occurs_at, push_char, push_str, seq_lt, split_words, starts_with,
    string_of, to_lowercase, to_uppercase, uppercase_of, views, words,
};

verus! {

broadcast use vstd::string::group_string_axioms;

// ---------------------------------------------------------------------------
// Entries
// ---------------------------------------------------------------------------

/// One entry in a catalog: a detection (tier hunt, correlation, blind-spot,
/// baseline), a self-audit control (tier self-audit) or a recon technique.
/// Fields an entry kind does not use are empty.
#[derive(Debug, Clone)]
pub struct Detection {
    pub id: String,
    pub name: String,
    /// hunt | correlation | blind-spot | baseline | self-audit | recon
    pub tier: String,
    pub techniques: Vec<String>,
    pub tactics: Vec<String>,
    pub actors: Vec<String>,
    /// Detection confidence (detections); empty for self-audit controls.
    pub fidelity: String,
    /// Priority (self-audit controls, e.g. P1); empty for detections.
    pub priority: String,
    pub data_source: String,
    pub dialect: String,
    pub summary: String,
    /// The detection query, or (self-audit) how to run the check.
    pub query: String,
    /// Tuning notes, or (self-audit) the fix.
    pub tuning: String,
}

/// The display label: the fidelity when there is one, else the priority.
pub open spec fn label_of(d: Detection) -> Seq<char> {
    if d.fidelity@.len() > 0 {
        d.fidelity@
    } else {
        d.priority@
    }
}

/// A single space, the separator of the searchable text.
pub open spec fn space() -> Seq<char> {
    seq![' ']
}

/// The searchable fields of an entry, in order; list fields joined by spaces.
/// The dialect is not searchable.
pub open spec fn searchable_fields(d: Detection) -> Seq<Seq<char>> {
    seq![
        d.id@,
        d.name@,
        d.tier@,
        join(views(d.techniques@), space()),
        join(views(d.tactics@), space()),
        join(views(d.actors@), space()),
        d.fidelity@,
        d.priority@,
        d.data_source@,
        d.summary@,
        d.query@,
        d.tuning@,
    ]
}

/// The lower-cased searchable text of an entry.
pub open spec fn haystack_of(d: Detection) -> Seq<char> {
    lowercase_of(join(searchable_fields(d), space()))
}

/// Technique ids `t` and `want` (both upper-cased) cover each other: equal, or
/// one is a sub-technique (`T1566.001`) of the other (`T1566`).
pub open spec fn technique_match(t: Seq<char>, want: Seq<char>) -> bool {
    ||| t == want
    ||| starts_with(t, want.push('.'))
    ||| starts_with(want, t.push('.'))
}

/// The entry covers technique `tid`, ignoring case.
pub open spec fn covers(d: Detection, tid: Seq<char>) -> bool {
    exists|k: int|
        0 <= k < d.techniques@.len() && technique_match(
            uppercase_of(#[trigger] d.techniques@[k]@),
            uppercase_of(tid),
        )
}

/// Technique matching is symmetric between parent and sub-technique: every
/// id matches itself, an id matches each of its sub-techniques (the id, a
/// dot, anything) and each sub-technique matches it back.
pub proof fn lemma_technique_match_symmetric(t: Seq<char>, w: Seq<char>)
    ensures
        technique_match(t, w) == technique_match(w, t),
        technique_match(t, t),
        starts_with(w, t.push('.')) ==> technique_match(t, w) && technique_match(w, t),
{
}

/// An entry listing a technique covers every sub-technique of it, and an
/// entry listing a sub-technique covers its parent, whatever the case of
/// either id.
pub proof fn lemma_entry_covers_related_techniques(d: Detection, k: int, tid: Seq<char>)
    requires
        0 <= k < d.techniques@.len(),
        starts_with(uppercase_of(tid), uppercase_of(d.techniques@[k]@).push('.')) || starts_with(
            uppercase_of(d.techniques@[k]@),
            uppercase_of(tid).push('.'),
        ),
    ensures
        covers(d, tid),
{
    assert(technique_match(uppercase_of(d.techniques@[k]@), uppercase_of(tid)));
}

/// An entry covers each technique it lists, in any case that upper-cases
/// alike, and adding techniques to an entry never loses coverage.
pub proof fn lemma_entry_covers_own_techniques(d: Detection, k: int, tid: Seq<char>)
    requires
        0 <= k < d.techniques@.len(),
        uppercase_of(tid) == uppercase_of(d.techniques@[k]@),
    ensures
        covers(d, tid),
        covers(d, d.techniques@[k]@),
{
    assert(technique_match(uppercase_of(d.techniques@[k]@), uppercase_of(tid)));
    assert(technique_match(uppercase_of(d.techniques@[k]@), uppercase_of(d.techniques@[k]@)));
}

/// Some entry of `names`, lower-cased, contains `needle` lower-cased.
pub open spec fn any_contains_lower(names: Seq<String>, needle: Seq<char>) -> bool {
    exists|k: int|
        0 <= k < names.len() && contains_seq(lowercase_of(#[trigger] names[k]@), lowercase_of(needle))
}

/// Matching names ignores case and looks at every name: each listed name is
/// found by itself, queries that lower-case alike find the same entries, and
/// a name found in a list is still found once more names are added.
pub proof fn lemma_name_matching(names: Seq<String>, k: int, q: Seq<char>, q2: Seq<char>, extra: String)
    requires
        0 <= k < names.len(),
    ensures
        any_contains_lower(names, names[k]@),
        lowercase_of(q) == lowercase_of(q2) ==> any_contains_lower(names, q) == any_contains_lower(names, q2),
        any_contains_lower(names, q) ==> any_contains_lower(names.push(extra), q),
        any_contains_lower(names, q) ==> any_contains_lower(seq![extra] + names, q),
{
    let l = lowercase_of(names[k]@);
    assert(l.subrange(0, l.len() as int) =~= l);
    assert(occurs_at(l, l, 0));
    if any_contains_lower(names, q) {
        let j = choose|j: int| 0 <= j < names.len() && contains_seq(lowercase_of(#[trigger] names[j]@), lowercase_of(q));
        assert(names.push(extra)[j] == names[j]);
        assert((seq![extra] + names)[j + 1] == names[j]);
    }
}

/// Concatenates `parts` with `sep` between neighbours (`[String]::join`).
fn join_strings(parts: &Vec<String>, sep: char) -> (out: String)
    ensures
        out@ == join(views(parts@), seq![sep]),
{
    let mut out = String::new();
    if parts.len() == 0 {
        assert(views(parts@) =~= Seq::<Seq<char>>::empty());
        return out;
    }
    push_str(&mut out, parts[0].as_str());
    proof {
        assert(views(parts@.take(1)) =~= seq![parts@[0]@]);
        assert(out@ =~= parts@[0]@);
    }
    let mut i: usize = 1;
    while i < parts.len()
        invariant
            1 <= i <= parts@.len(),
            out@ == join(views(parts@.take(i as int)), seq![sep]),
        decreases parts@.len() - i,
    {
        push_char(&mut out, sep);
        push_str(&mut out, parts[i].as_str());
        proof {
            let pre = views(parts@.take(i as int));
            let next = views(parts@.take(i + 1));
            assert(next.drop_last() =~= pre);
            assert(next.last() == parts@[i as int]@);
            assert(out@ =~= join(pre, seq![sep]) + seq![sep] + parts@[i as int]@);
        }
        i = i + 1;
    }
    assert(parts@.take(parts@.len() as int) =~= parts@);
    out
}

/// Whether some entry of `names`, lower-cased, contains `needle` lower-cased.
fn any_contains_lowercase(names: &Vec<String>, needle: &str) -> (r: bool)
    ensures
        r == any_contains_lower(names@, needle@),
{
    let want_s = to_lowercase(needle);
    let want = chars_of(want_s.as_str());
    let mut k: usize = 0;
    while k < names.len()
        invariant
            k <= names@.len(),
            want@ == lowercase_of(needle@),
            forall|j: int| 0 <= j < k ==> !contains_seq(lowercase_of(#[trigger] names@[j]@), lowercase_of(needle@)),
        decreases names@.len() - k,
    {
        let low = to_lowercase(names[k].as_str());
        let hay = chars_of(low.as_str());
        if contains(&hay, &want) {
            return true;
        }
        k = k + 1;
    }
    false
}

impl Detection {
    /// Display label: the detection fidelity, or the self-audit priority.
    pub fn label(&self) -> (r: &str)
        ensures
            r@ == label_of(*self),
    {
        if !self.fidelity.as_str().is_empty() {
            self.fidelity.as_str()
        } else {
            self.priority.as_str()
        }
    }

    /// Lower-cased concatenation of every searchable field, space separated.
    pub fn haystack(&self) -> (r: String)
        ensures
            r@ == haystack_of(*self),
    {
        let mut fields: Vec<String> = Vec::new();
        fields.push(self.id.clone());
        fields.push(self.name.clone());
        fields.push(self.tier.clone());
        fields.push(join_strings(&self.techniques, ' '));
        fields.push(join_strings(&self.tactics, ' '));
        fields.push(join_strings(&self.actors, ' '));
        fields.push(self.fidelity.clone());
        fields.push(self.priority.clone());
        fields.push(self.data_source.clone());
        fields.push(self.summary.clone());
        fields.push(self.query.clone());
        fields.push(self.tuning.clone());
        let all = join_strings(&fields, ' ');
        assert(views(fields@) =~= searchable_fields(*self));
        to_lowercase(all.as_str())
    }

    /// True if this entry covers `tid`: the same technique, or its parent or
    /// a sub-technique of it, ignoring case.
    pub fn covers_technique(&self, tid: &str) -> (r: bool)
        ensures
            r == covers(*self, tid@),
    {
        let want_s = to_uppercase(tid);
        let want = chars_of(want_s.as_str());
        let mut want_dot = want.clone();
        want_dot.push('.');
        let mut k: usize = 0;
        while k < self.techniques.len()
            invariant
                k <= self.techniques@.len(),
                want@ == uppercase_of(tid@),
                want_dot@ == want@.push('.'),
                forall|j: int|
                    0 <= j < k ==> !technique_match(
                        uppercase_of(#[trigger] self.techniques@[j]@),
                        uppercase_of(tid@),
                    ),
            decreases self.techniques@.len() - k,
        {
            let up = to_uppercase(self.techniques[k].as_str());
            let t = chars_of(up.as_str());
            let mut t_dot = t.clone();
            t_dot.push('.');
            if equal_chars(&t, &want) || has_prefix(&t, &want_dot) || has_prefix(&want, &t_dot) {
                return true;
            }
            k = k + 1;
        }
        false
    }

    /// True if some listed actor contains `actor`, ignoring case.
    pub fn has_actor(&self, actor: &str) -> (r: bool)
        ensures
            r == any_contains_lower(self.actors@, actor@),
    {
        any_contains_lowercase(&self.actors, actor)
    }

    /// True if some listed tactic contains `tactic`, ignoring case.
    pub fn has_tactic(&self, tactic: &str) -> (r: bool)
        ensures
            r == any_contains_lower(self.tactics@, tactic@),
    {
        any_contains_lowercase(&self.tactics, tactic)
    }
}

// ---------------------------------------------------------------------------
// Ranked search
// ---------------------------------------------------------------------------

/// The search terms of a query: its whitespace-separated words, lower-cased.
pub open spec fn query_terms(query: Seq<char>) -> Seq<Seq<char>> {
    words(query).map_values(|w: Seq<char>| lowercase_of(w))
}

/// How many of `terms` occur in `hay` (a term counted once per occurrence in
/// the list).
pub open spec fn match_count(hay: Seq<char>, terms: Seq<Seq<char>>) -> nat
    decreases terms.len(),
{
    if terms.len() == 0 {
        0
    } else {
        match_count(hay, terms.drop_last()) + if contains_seq(hay, terms.last()) {
            1nat
        } else {
            0nat
        }
    }
}

/// The score of an entry for a query: how many query terms its searchable
/// text contains.
pub open spec fn score_of(d: Detection, query: Seq<char>) -> nat {
    match_count(haystack_of(d), query_terms(query))
}

/// The scores of every entry of a catalog.
pub open spec fn catalog_scores(catalog: Seq<Detection>, query: Seq<char>) -> Seq<int> {
    Seq::new(catalog.len(), |i: int| score_of(catalog[i], query) as int)
}

/// The ids of every entry of a catalog.
pub open spec fn catalog_ids(catalog: Seq<Detection>) -> Seq<Seq<char>> {
    catalog.map_values(|d: Detection| d.id@)
}

/// Position `i` ranks before position `j`: a higher score, or an equal score
/// and a smaller id, or equal score and id and an earlier position.
pub open spec fn ranks_before(scores: Seq<int>, ids: Seq<Seq<char>>, i: int, j: int) -> bool {
    ||| scores[i] > scores[j]
    ||| scores[i] == scores[j] && seq_lt(ids[i], ids[j])
    ||| scores[i] == scores[j] && ids[i] == ids[j] && i < j
}

/// `order` lists every position with a positive score, each once, best first.
pub open spec fn is_ranking(scores: Seq<int>, ids: Seq<Seq<char>>, order: Seq<usize>) -> bool {
    &&& forall|k: int| 0 <= k < order.len() ==> #[trigger] order[k] < scores.len() && scores[order[k] as int] > 0
    &&& forall|i: int| 0 <= i < scores.len() && scores[i] > 0 ==> order.contains(i as usize)
    &&& forall|a: int, b: int|
        0 <= a < b < order.len() ==> ranks_before(scores, ids, #[trigger] order[a] as int, #[trigger] order[b] as int)
}

/// `ranks_before` is a strict total order on positions.
pub(crate) proof fn lemma_ranks_before_order(scores: Seq<int>, ids: Seq<Seq<char>>, i: int, j: int, k: int)
    requires
        0 <= i < scores.len(),
        0 <= j < scores.len(),
        0 <= k < scores.len(),
        ids.len() == scores.len(),
    ensures
        !ranks_before(scores, ids, i, i),
        ranks_before(scores, ids, i, j) ==> !ranks_before(scores, ids, j, i),
        i != j ==> ranks_before(scores, ids, i, j) || ranks_before(scores, ids, j, i),
        ranks_before(scores, ids, i, j) && ranks_before(scores, ids, j, k) ==> ranks_before(scores, ids, i, k),
{
    lemma_seq_lt_order(ids[i], ids[j], ids[k]);
    lemma_seq_lt_order(ids[j], ids[i], ids[i]);
    lemma_seq_lt_order(ids[i], ids[i], ids[i]);
}

/// A ranking is fully determined: two orders that both rank the same scores
/// and ids are equal. So the search result of a catalog and a query is unique.
pub proof fn lemma_ranking_unique(scores: Seq<int>, ids: Seq<Seq<char>>, o1: Seq<usize>, o2: Seq<usize>)
    requires
        ids.len() == scores.len(),
        is_ranking(scores, ids, o1),
        is_ranking(scores, ids, o2),
    ensures
        o1 == o2,
    decreases o1.len(),
{
    if o1.len() == 0 {
        if o2.len() > 0 {
            assert(o1.contains(o2[0]));
        }
        assert(o1 =~= o2);
    } else {
        assert(o2.contains(o1[0]));
        let j = choose|j: int| 0 <= j < o2.len() && o2[j] == o1[0];
        assert(o1.contains(o2[0]));
        let i = choose|i: int| 0 <= i < o1.len() && o1[i] == o2[0];
        if j > 0 {
            lemma_ranks_before_order(scores, ids, o2[0] as int, o2[j] as int, o2[0] as int);
            if i > 0 {
                assert(ranks_before(scores, ids, o1[0] as int, o1[i] as int));
            }
        }
        assert(o1[0] == o2[0]);
        let t1 = o1.drop_first();
        let t2 = o2.drop_first();
        let x = o1[0];
        // The tails rank the same positions, all but the common head.
        assert forall|k: int| 0 <= k < t1.len() implies #[trigger] t1[k] < scores.len() && scores[t1[k] as int] > 0 by {
            assert(t1[k] == o1[k + 1]);
        }
        assert forall|k: int| 0 <= k < t2.len() implies #[trigger] t2[k] < scores.len() && scores[t2[k] as int] > 0 by {
            assert(t2[k] == o2[k + 1]);
        }
        assert forall|a: int, b: int| 0 <= a < b < t1.len() implies ranks_before(
            scores,
            ids,
            #[trigger] t1[a] as int,
            #[trigger] t1[b] as int,
        ) by {
            assert(t1[a] == o1[a + 1] && t1[b] == o1[b + 1]);
        }
        assert forall|a: int, b: int| 0 <= a < b < t2.len() implies ranks_before(
            scores,
            ids,
            #[trigger] t2[a] as int,
            #[trigger] t2[b] as int,
        ) by {
            assert(t2[a] == o2[a + 1] && t2[b] == o2[b + 1]);
        }
        // Both tails hold exactly the positions of the other order but the head.
        assert forall|k: int| 0 <= k < t1.len() implies t2.contains(#[trigger] t1[k]) by {
            let y = t1[k];
            assert(y == o1[k + 1]);
            assert(ranks_before(scores, ids, x as int, y as int));
            lemma_ranks_before_order(scores, ids, x as int, y as int, x as int);
            assert(o2.contains(y));
            let m = choose|m: int| 0 <= m < o2.len() && o2[m] == y;
            assert(m != 0);
            assert(t2[m - 1] == y);
        }
        assert forall|k: int| 0 <= k < t2.len() implies t1.contains(#[trigger] t2[k]) by {
            let y = t2[k];
            assert(y == o2[k + 1]);
            assert(ranks_before(scores, ids, x as int, y as int));
            lemma_ranks_before_order(scores, ids, x as int, y as int, x as int);
            assert(o1.contains(y));
            let m = choose|m: int| 0 <= m < o1.len() && o1[m] == y;
            assert(m != 0);
            assert(t1[m - 1] == y);
        }
        lemma_ranking_tails(scores, ids, t1, t2);
        assert(o1 =~= seq![x] + t1);
        assert(o2 =~= seq![x] + t2);
    }
}

/// Two strictly ranked orders holding the same positions are equal.
proof fn lemma_ranking_tails(scores: Seq<int>, ids: Seq<Seq<char>>, t1: Seq<usize>, t2: Seq<usize>)
    requires
        ids.len() == scores.len(),
        forall|k: int| 0 <= k < t1.len() ==> #[trigger] t1[k] < scores.len(),
        forall|k: int| 0 <= k < t2.len() ==> #[trigger] t2[k] < scores.len(),
        forall|a: int, b: int| 0 <= a < b < t1.len() ==> ranks_before(scores, ids, #[trigger] t1[a] as int, #[trigger] t1[b] as int),
        forall|a: int, b: int| 0 <= a < b < t2.len() ==> ranks_before(scores, ids, #[trigger] t2[a] as int, #[trigger] t2[b] as int),
        forall|k: int| 0 <= k < t1.len() ==> t2.contains(#[trigger] t1[k]),
        forall|k: int| 0 <= k < t2.len() ==> t1.contains(#[trigger] t2[k]),
    ensures
        t1 == t2,
    decreases t1.len(),
{
    if t1.len() == 0 {
        if t2.len() > 0 {
            assert(t1.contains(t2[0]));
        }
        assert(t1 =~= t2);
    } else {
        assert(t2.contains(t1[0]));
        assert(t2.len() > 0);
        assert(t1.contains(t2[0]));
        let j = choose|j: int| 0 <= j < t2.len() && t2[j] == t1[0];
        let i = choose|i: int| 0 <= i < t1.len() && t1[i] == t2[0];
        if j > 0 {
            lemma_ranks_before_order(scores, ids, t2[0] as int, t2[j] as int, t2[0] as int);
            if i > 0 {
                assert(ranks_before(scores, ids, t1[0] as int, t1[i] as int));
            }
        }
        assert(t1[0] == t2[0]);
        let x = t1[0];
        let u1 = t1.drop_first();
        let u2 = t2.drop_first();
        assert forall|a: int, b: int| 0 <= a < b < u1.len() implies ranks_before(
            scores,
            ids,
            #[trigger] u1[a] as int,
            #[trigger] u1[b] as int,
        ) by {
            assert(u1[a] == t1[a + 1] && u1[b] == t1[b + 1]);
        }
        assert forall|a: int, b: int| 0 <= a < b < u2.len() implies ranks_before(
            scores,
            ids,
            #[trigger] u2[a] as int,
            #[trigger] u2[b] as int,
        ) by {
            assert(u2[a] == t2[a + 1] && u2[b] == t2[b + 1]);
        }
        assert forall|k: int| 0 <= k < u1.len() implies #[trigger] u1[k] < scores.len() by {
            assert(u1[k] == t1[k + 1]);
        }
        assert forall|k: int| 0 <= k < u2.len() implies #[trigger] u2[k] < scores.len() by {
            assert(u2[k] == t2[k + 1]);
        }
        assert forall|k: int| 0 <= k < u1.len() implies u2.contains(#[trigger] u1[k]) by {
            let y = u1[k];
            assert(y == t1[k + 1]);
            assert(ranks_before(scores, ids, x as int, y as int));
            lemma_ranks_before_order(scores, ids, x as int, y as int, x as int);
            let m = choose|m: int| 0 <= m < t2.len() && t2[m] == y;
            assert(m != 0);
            assert(u2[m - 1] == y);
        }
        assert forall|k: int| 0 <= k < u2.len() implies u1.contains(#[trigger] u2[k]) by {
            let y = u2[k];
            assert(y == t2[k + 1]);
            assert(ranks_before(scores, ids, x as int, y as int));
            lemma_ranks_before_order(scores, ids, x as int, y as int, x as int);
            let m = choose|m: int| 0 <= m < t1.len() && t1[m] == y;
            assert(m != 0);
            assert(u1[m - 1] == y);
        }
        lemma_ranking_tails(scores, ids, u1, u2);
        assert(t1 =~= seq![x] + u1);
        assert(t2 =~= seq![x] + u2);
    }
}

/// When every position has a positive score, a ranking lists every position
/// exactly once, so it is as long as the scores.
pub proof fn lemma_ranking_covers_all(scores: Seq<int>, ids: Seq<Seq<char>>, order: Seq<usize>)
    requires
        ids.len() == scores.len(),
        is_ranking(scores, ids, order),
        scores.len() <= usize::MAX,
        forall|i: int| 0 <= i < scores.len() ==> #[trigger] scores[i] > 0,
    ensures
        order.len() == scores.len(),
{
    let o = order.map_values(|x: usize| x as int);
    assert(o.no_duplicates()) by {
        assert forall|a: int, b: int| 0 <= a < o.len() && 0 <= b < o.len() && a != b implies o[a] != o[b] by {
            if a < b {
                lemma_ranks_before_order(scores, ids, order[a] as int, order[b] as int, order[a] as int);
            } else {
                lemma_ranks_before_order(scores, ids, order[b] as int, order[a] as int, order[b] as int);
            }
        }
    }
    o.unique_seq_to_set();
    assert(o.to_set() =~= vstd::set_lib::set_int_range(0, scores.len() as int)) by {
        assert forall|x: int| o.to_set().contains(x) implies 0 <= x < scores.len() by {
            let k = choose|k: int| 0 <= k < o.len() && o[k] == x;
            assert(order[k] < scores.len());
        }
        assert forall|x: int| 0 <= x < scores.len() implies o.to_set().contains(x) by {
            assert(scores[x] > 0);
            assert(order.contains(x as usize));
            let k = choose|k: int| 0 <= k < order.len() && order[k] == x as usize;
            assert((x as usize) as int == x);
            assert(o[k] == x);
        }
    }
    vstd::set_lib::lemma_int_range(0, scores.len() as int);
}

/// How many of `terms` occur in `hay`.
fn count_matches(hay: &Vec<char>, terms: &Vec<Vec<char>>) -> (n: usize)
    ensures
        n == match_count(hay@, terms@.map_values(|t: Vec<char>| t@)),
        n <= terms@.len(),
{
    let ghost tv = terms@.map_values(|t: Vec<char>| t@);
    let mut n: usize = 0;
    let mut k: usize = 0;
    while k < terms.len()
        invariant
            k <= terms@.len(),
            n <= k,
            tv == terms@.map_values(|t: Vec<char>| t@),
            n == match_count(hay@, tv.take(k as int)),
        decreases terms@.len() - k,
    {
        proof {
            assert(tv.take(k + 1).drop_last() =~= tv.take(k as int));
            assert(tv.take(k + 1).last() == terms@[k as int]@);
        }
        if contains(hay, &terms[k]) {
            n = n + 1;
        }
        k = k + 1;
    }
    assert(tv.take(terms@.len() as int) =~= tv);
    n
}

/// Whether position `i` ranks before position `j`.
fn ranks_before_exec(scores: &Vec<usize>, ids: &Vec<Vec<char>>, i: usize, j: usize) -> (r: bool)
    requires
        i < scores@.len(),
        j < scores@.len(),
        ids@.len() == scores@.len(),
    ensures
        r == ranks_before(
            scores@.map_values(|s: usize| s as int),
            ids@.map_values(|d: Vec<char>| d@),
            i as int,
            j as int,
        ),
{
    if scores[i] != scores[j] {
        return scores[i] > scores[j];
    }
    if chars_less(&ids[i], &ids[j]) {
        return true;
    }
    equal_chars(&ids[i], &ids[j]) && i < j
}

/// Orders the positions with a positive score, best first (an insertion sort,
/// stable by construction since positions are inserted in increasing order).
pub(crate) fn rank_positions(scores: &Vec<usize>, ids: &Vec<Vec<char>>) -> (order: Vec<usize>)
    requires
        ids@.len() == scores@.len(),
    ensures
        is_ranking(
            scores@.map_values(|s: usize| s as int),
            ids@.map_values(|d: Vec<char>| d@),
            order@,
        ),
{
    let ghost sc = scores@.map_values(|s: usize| s as int);
    let ghost iv = ids@.map_values(|d: Vec<char>| d@);
    let mut order: Vec<usize> = Vec::new();
    let mut i: usize = 0;
    while i < scores.len()
        invariant
            i <= scores@.len(),
            ids@.len() == scores@.len(),
            sc == scores@.map_values(|s: usize| s as int),
            iv == ids@.map_values(|d: Vec<char>| d@),
            forall|k: int| 0 <= k < order@.len() ==> #[trigger] order@[k] < i && sc[order@[k] as int] > 0,
            forall|x: int| 0 <= x < i && sc[x] > 0 ==> order@.contains(x as usize),
            forall|a: int, b: int|
                0 <= a < b < order@.len() ==> ranks_before(sc, iv, #[trigger] order@[a] as int, #[trigger] order@[b] as int),
        decreases scores@.len() - i,
    {
        if scores[i] > 0 {
            let mut p: usize = 0;
            while p < order.len() && !ranks_before_exec(scores, ids, i, order[p])
                invariant
                    p <= order@.len(),
                    i < scores@.len(),
                    ids@.len() == scores@.len(),
                    sc == scores@.map_values(|s: usize| s as int),
                    iv == ids@.map_values(|d: Vec<char>| d@),
                    forall|k: int| 0 <= k < order@.len() ==> #[trigger] order@[k] < i,
                    forall|k: int| 0 <= k < p ==> ranks_before(sc, iv, #[trigger] order@[k] as int, i as int),
                decreases order@.len() - p,
            {
                proof {
                    lemma_ranks_before_order(sc, iv, i as int, order@[p as int] as int, i as int);
                }
                p = p + 1;
            }
            let ghost old_order = order@;
            order.insert(p, i);
            proof {
                assert(order@ =~= old_order.insert(p as int, i));
                assert forall|a: int, b: int| 0 <= a < b < order@.len() implies ranks_before(
                    sc,
                    iv,
                    #[trigger] order@[a] as int,
                    #[trigger] order@[b] as int,
                ) by {
                    if a < p && b == p {
                    } else if a == p && b > p {
                        let first = old_order[p as int] as int;
                        if b == p + 1 {
                        } else {
                            assert(ranks_before(sc, iv, first, old_order[b - 1] as int));
                            lemma_ranks_before_order(sc, iv, i as int, first, old_order[b - 1] as int);
                        }
                    } else if a < p && b > p {
                    } else if a > p {
                        assert(order@[a] == old_order[a - 1]);
                        assert(order@[b] == old_order[b - 1]);
                    } else {
                        assert(order@[a] == old_order[a]);
                    }
                }
                assert forall|x: int| 0 <= x < i + 1 && sc[x] > 0 implies order@.contains(x as usize) by {
                    if x == i {
                        assert(order@[p as int] == i);
                    } else {
                        let k = choose|k: int| 0 <= k < old_order.len() && old_order[k] == x as usize;
                        if k < p {
                            assert(order@[k] == x as usize);
                        } else {
                            assert(order@[k + 1] == x as usize);
                        }
                    }
                }
            }
        } else {
            proof {
                assert forall|x: int| 0 <= x < i + 1 && sc[x] > 0 implies order@.contains(x as usize) by {
                    assert(x != i);
                }
            }
        }
        i = i + 1;
    }
    order
}

/// Ranks catalog entries by how many query terms their searchable text
/// contains. Returns `(score, entry)` pairs for the entries that match at least
/// one term, highest score first, ties broken by id, then by catalog order.
pub fn search<'a>(catalog: &'a [Detection], query: &str) -> (out: Vec<(usize, &'a Detection)>)
    ensures
        exists|order: Seq<usize>|
            {
                &&& is_ranking(catalog_scores(catalog@, query@), catalog_ids(catalog@), order)
                &&& out@.len() == order.len()
                &&& forall|k: int|
                    0 <= k < order.len() ==> {
                        &&& (#[trigger] out@[k]).0 == score_of(catalog@[order[k] as int], query@)
                        &&& *out@[k].1 == catalog@[order[k] as int]
                    }
            },
{
    let qchars = chars_of(query);
    let ws = split_words(&qchars);
    let mut terms: Vec<Vec<char>> = Vec::new();
    let mut k: usize = 0;
    while k < ws.len()
        invariant
            k <= ws@.len(),
            ws@.map_values(|p: Vec<char>| p@) == words(query@),
            terms@.map_values(|t: Vec<char>| t@) == query_terms(query@).take(k as int),
        decreases ws@.len() - k,
    {
        let w = string_of(&ws[k]);
        let low = to_lowercase(w.as_str());
        let t = chars_of(low.as_str());
        let ghost before = terms@;
        terms.push(t);
        proof {
            assert(terms@.map_values(|t: Vec<char>| t@) =~= before.map_values(|t: Vec<char>| t@).push(t@));
            assert(query_terms(query@).take(k + 1) =~= query_terms(query@).take(k as int).push(
                lowercase_of(ws@[k as int]@),
            ));
        }
        k = k + 1;
    }
    assert(query_terms(query@).take(ws@.len() as int) =~= query_terms(query@));
    let mut scores: Vec<usize> = Vec::new();
    let mut ids: Vec<Vec<char>> = Vec::new();
    let mut i: usize = 0;
    while i < catalog.len()
        invariant
            i <= catalog@.len(),
            scores@.len() == i,
            ids@.len() == i,
            terms@.map_values(|t: Vec<char>| t@) == query_terms(query@),
            forall|j: int| 0 <= j < i ==> #[trigger] scores@[j] == score_of(catalog@[j], query@),
            forall|j: int| 0 <= j < i ==> #[trigger] ids@[j]@ == catalog@[j].id@,
        decreases catalog@.len() - i,
    {
        let hay_s = catalog[i].haystack();
        let hay = chars_of(hay_s.as_str());
        let n = count_matches(&hay, &terms);
        scores.push(n);
        ids.push(chars_of(catalog[i].id.as_str()));
        i = i + 1;
    }
    let order = rank_positions(&scores, &ids);
    proof {
        assert(scores@.map_values(|s: usize| s as int) =~= catalog_scores(catalog@, query@));
        assert(ids@.map_values(|d: Vec<char>| d@) =~= catalog_ids(catalog@));
    }
    let mut out: Vec<(usize, &'a Detection)> = Vec::new();
    let mut k: usize = 0;
    while k < order.len()
        invariant
            k <= order@.len(),
            out@.len() == k,
            scores@.len() == catalog@.len(),
            is_ranking(catalog_scores(catalog@, query@), catalog_ids(catalog@), order@),
            forall|j: int| 0 <= j < catalog@.len() ==> #[trigger] scores@[j] == score_of(catalog@[j], query@),
            forall|m: int|
                0 <= m < k ==> {
                    &&& (#[trigger] out@[m]).0 == score_of(catalog@[order@[m] as int], query@)
                    &&& *out@[m].1 == catalog@[order@[m] as int]
                },
        decreases order@.len() - k,
    {
        let pos = order[k];
        assert(pos < catalog@.len());
        out.push((scores[pos], &catalog[pos]));
        k = k + 1;
    }
    out
}

// ---------------------------------------------------------------------------
// Several catalogs
// ---------------------------------------------------------------------------

/// The error `serde_json` reports for a catalog that does not parse.
#[verifier::external_type_specification]
#[verifier::external_body]
pub struct ExJsonError(JsonError);

/// The entries of `parsed` concatenated in order, when every catalog parsed.
pub open spec fn concat_catalogs(parsed: Seq<Result<Vec<Detection>, JsonError>>) -> Seq<Detection>
    decreases parsed.len(),
{
    if parsed.len() == 0 {
        Seq::empty()
    } else {
        concat_catalogs(parsed.drop_last()) + match parsed.last() {
            Ok(v) => v@,
            Err(_) => Seq::empty(),
        }
    }
}

/// Joins several parsed catalog files into one searchable set, in order. The
/// first catalog that failed to parse decides the error; otherwise the result
/// is every entry of every catalog, in order.
pub fn parse_catalogs(parsed: Vec<Result<Vec<Detection>, JsonError>>) -> (r: Result<
    Vec<Detection>,
    JsonError,
>)
    ensures
        match r {
            Ok(all) => {
                &&& forall|k: int| 0 <= k < parsed@.len() ==> (#[trigger] parsed@[k]) is Ok
                &&& all@ == concat_catalogs(parsed@)
            },
            Err(e) => exists|k: int|
                {
                    &&& 0 <= k < parsed@.len()
                    &&& (#[trigger] parsed@[k]) == Err::<Vec<Detection>, JsonError>(e)
                    &&& forall|j: int| 0 <= j < k ==> (#[trigger] parsed@[j]) is Ok
                },
        },
{
    let mut rest = parsed;
    let ghost all_parsed = rest@;
    let mut all: Vec<Detection> = Vec::new();
    let total: usize = rest.len();
    let mut k: usize = 0;
    while rest.len() > 0
        invariant
            k + rest@.len() == all_parsed.len(),
            all_parsed == parsed@,
            all_parsed.len() == total,
            rest@ == all_parsed.skip(k as int),
            forall|j: int| 0 <= j < k ==> (#[trigger] all_parsed[j]) is Ok,
            all@ == concat_catalogs(all_parsed.take(k as int)),
        decreases rest@.len(),
    {
        let item = rest.remove(0);
        proof {
            assert(item == all_parsed[k as int]);
            assert(all_parsed.take(k + 1).drop_last() =~= all_parsed.take(k as int));
            assert(rest@ =~= all_parsed.skip(k + 1));
        }
        match item {
            Ok(mut entries) => {
                all.append(&mut entries);
                assert(all@ == concat_catalogs(all_parsed.take(k + 1)));
            },
            Err(e) => {
                return Err(e);
            },
        }
        k = k + 1;
    }
    assert(all_parsed.take(k as int) =~= all_parsed);
    Ok(all)
}

} // verus!
