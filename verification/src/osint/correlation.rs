//! Correlation of threat actors: the techniques pairs of actors share, how
//! widely each technique is used, an actor's network of shared techniques,
//! and the sectors several actors target.

use vstd::prelude::*;
use crate::catalog::{is_ranking, lemma_ranks_before_order, rank_positions, ranks_before};
use crate::keyed::{group_of, group_pairs, groups_view, kept, lemma_kept, lemma_lookup_at, lookup, unique_keys};
use crate::osint::threat_feeds::{targets, ThreatActor, ThreatIntelligenceFeed};
use crate::text::{chars_of, equal_chars, listed, seq_lt, views};

verus! {

broadcast use vstd::string::group_string_axioms;

/// Correlates the actors of a feed.
pub struct CorrelationEngine {
    pub feed: ThreatIntelligenceFeed,
}

/// The `(target, actor id)` pairs of a list of actors: each actor's known
/// targets in order, actor after actor.
pub open spec fn target_pairs(actors: Seq<ThreatActor>) -> Seq<(Seq<char>, Seq<char>)>
    decreases actors.len(),
{
    if actors.len() == 0 {
        Seq::empty()
    } else {
        target_pairs(actors.drop_last()) + actors.last().known_targets@.map_values(
            |t: String| (t@, actors.last().actor_id@),
        )
    }
}

impl CorrelationEngine {
    /// An engine over a feed.
    pub fn new(feed: ThreatIntelligenceFeed) -> (r: Self)
        ensures
            r.feed == feed,
    {
        CorrelationEngine { feed }
    }

    /// The targets named by more than one `(target, actor)` pairing, each with
    /// the ids of the actors that target it, in feed order.
    pub fn find_common_targets(&self) -> (r: Vec<(String, Vec<String>)>)
        ensures
            unique_keys(groups_view(r@)),
            forall|k: Seq<char>|
                #[trigger] lookup(groups_view(r@), k) == if group_of(target_pairs(self.feed.actor_list()), k).len() > 1 {
                    Some(group_of(target_pairs(self.feed.actor_list()), k))
                } else {
                    None
                },
    {
        let actors = self.feed.list_actors();
        let ghost all = self.feed.actor_list();
        let mut pairs: Vec<(String, String)> = Vec::new();
        let mut i: usize = 0;
        while i < actors.len()
            invariant
                i <= actors@.len(),
                crate::osint::threat_feeds::targets(actors@) == all,
                pairs@.map_values(|p: (String, String)| (p.0@, p.1@)) == target_pairs(all.take(i as int)),
            decreases actors@.len() - i,
        {
            let a = actors[i];
            assert(*a == all[i as int]);
            let ghost base = pairs@.map_values(|p: (String, String)| (p.0@, p.1@));
            let ghost tv = a.known_targets@.map_values(|t: String| (t@, a.actor_id@));
            let mut k: usize = 0;
            while k < a.known_targets.len()
                invariant
                    k <= a.known_targets@.len(),
                    tv == a.known_targets@.map_values(|t: String| (t@, a.actor_id@)),
                    pairs@.map_values(|p: (String, String)| (p.0@, p.1@)) == base + tv.take(k as int),
                decreases a.known_targets@.len() - k,
            {
                let ghost before = pairs@;
                pairs.push((a.known_targets[k].clone(), a.actor_id.clone()));
                assert(pairs@.map_values(|p: (String, String)| (p.0@, p.1@)) =~= before.map_values(
                    |p: (String, String)| (p.0@, p.1@),
                ).push(tv[k as int]));
                assert(tv.take(k + 1) =~= tv.take(k as int).push(tv[k as int]));
                k = k + 1;
            }
            proof {
                assert(tv.take(k as int) =~= tv);
                assert(all.take(i + 1).drop_last() =~= all.take(i as int));
                assert(all.take(i + 1).last() == all[i as int]);
            }
            i = i + 1;
        }
        assert(all.take(i as int) =~= all);
        let groups = group_pairs(&pairs);
        let ghost gv = groups_view(groups@);
        let ghost keep = |ids: Seq<Seq<char>>| ids.len() > 1;
        proof {
            lemma_kept(gv, keep);
        }
        let mut r: Vec<(String, Vec<String>)> = Vec::new();
        let mut rest = groups;
        let ghost mut done: int = 0;
        while rest.len() > 0
            invariant
                0 <= done <= gv.len(),
                groups_view(rest@) == gv.skip(done),
                groups_view(r@) == kept(gv.take(done), keep),
                keep == (|ids: Seq<Seq<char>>| ids.len() > 1),
            decreases rest@.len(),
        {
            let ghost old_rest = rest@;
            assert(groups_view(old_rest).len() == old_rest.len());
            assert(done < gv.len());
            assert(gv.skip(done)[0] == gv[done]);
            assert(groups_view(old_rest)[0] == gv[done]);
            let entry = rest.remove(0);
            proof {
                assert(rest@ =~= old_rest.drop_first());
                assert(groups_view(rest@) =~= groups_view(old_rest).drop_first());
                assert(gv.skip(done).drop_first() =~= gv.skip(done + 1));
                assert(groups_view(rest@) =~= gv.skip(done + 1));
                assert(gv.take(done + 1).drop_last() =~= gv.take(done));
                assert(gv.take(done + 1).last() == gv[done]);
            }
            if entry.1.len() > 1 {
                let ghost before = r@;
                let ghost ev = (entry.0@, entry.1@.map_values(|s: String| s@));
                r.push(entry);
                assert(groups_view(r@) =~= groups_view(before).push(ev));
            }
            proof {
                done = done + 1;
            }
        }
        proof {
            assert(gv.take(done) =~= gv);
        }
        r
    }
}


// ---------------------------------------------------------------------------
// Shared techniques
// ---------------------------------------------------------------------------

/// Two actors that use some of the same techniques.
#[derive(Debug, Clone)]
pub struct CorrelationLink {
    pub actor1_id: String,
    pub actor2_id: String,
    /// The techniques both actors use, each once.
    pub shared_techniques: Vec<String>,
    /// The number of shared techniques.
    pub correlation_score: usize,
}

/// The techniques both actors use.
pub open spec fn shared_set(a: ThreatActor, b: ThreatActor) -> Set<Seq<char>> {
    views(a.techniques@).to_set().intersect(views(b.techniques@).to_set())
}

/// How many techniques both actors use.
pub open spec fn shared_count(a: ThreatActor, b: ThreatActor) -> nat {
    shared_set(a, b).len()
}

/// `l` links actor `a` to actor `b` through the techniques both use.
pub open spec fn is_link(l: CorrelationLink, a: ThreatActor, b: ThreatActor) -> bool {
    &&& l.actor1_id@ == a.actor_id@
    &&& l.actor2_id@ == b.actor_id@
    &&& views(l.shared_techniques@).no_duplicates()
    &&& views(l.shared_techniques@).to_set() == shared_set(a, b)
    &&& l.correlation_score == shared_count(a, b)
    &&& l.correlation_score == l.shared_techniques@.len()
}

/// The pairs `(i, j)`, `i < j < n`, with `i` below `m`, first index first.
pub open spec fn pairs_below(n: int, m: int) -> Seq<(int, int)>
    decreases m,
{
    if m <= 0 {
        Seq::empty()
    } else {
        pairs_below(n, m - 1) + row_pairs(n, m - 1)
    }
}

/// The pairs `(i, j)` for `i < j < n`.
pub open spec fn row_pairs(n: int, i: int) -> Seq<(int, int)> {
    Seq::new(if n > i + 1 { (n - i - 1) as nat } else { 0 }, |k: int| (i, i + 1 + k))
}

/// Every pair of positions among `n`, first index first.
pub open spec fn all_pairs(n: int) -> Seq<(int, int)> {
    pairs_below(n, n)
}

/// The number of shared techniques of each pair of actors.
pub open spec fn pair_scores(actors: Seq<ThreatActor>) -> Seq<int> {
    all_pairs(actors.len() as int).map_values(|p: (int, int)| shared_count(actors[p.0], actors[p.1]) as int)
}

/// No names: ties of a ranking are broken by position alone.
pub open spec fn no_names(n: nat) -> Seq<Seq<char>> {
    Seq::new(n, |i: int| Seq::<char>::empty())
}

/// `links` are the links of every pair of actors sharing a technique, most
/// shared techniques first, pairs of equal score in pair order.
pub open spec fn is_correlation(links: Seq<CorrelationLink>, actors: Seq<ThreatActor>) -> bool {
    exists|order: Seq<usize>|
        {
            &&& #[trigger] is_ranking(pair_scores(actors), no_names(all_pairs(actors.len() as int).len()), order)
            &&& links.len() == order.len()
            &&& forall|k: int|
                0 <= k < order.len() ==> is_link(
                    #[trigger] links[k],
                    actors[all_pairs(actors.len() as int)[order[k] as int].0],
                    actors[all_pairs(actors.len() as int)[order[k] as int].1],
                )
        }
}

/// The link of two actors.
fn link_of(a: &ThreatActor, b: &ThreatActor) -> (r: CorrelationLink)
    ensures
        is_link(r, *a, *b),
{
    let mut shared: Vec<String> = Vec::new();
    let ghost av = views(a.techniques@);
    let ghost bv = views(b.techniques@);
    let mut i: usize = 0;
    while i < a.techniques.len()
        invariant
            i <= a.techniques@.len(),
            av == views(a.techniques@),
            bv == views(b.techniques@),
            views(shared@).no_duplicates(),
            forall|t: Seq<char>| #[trigger] views(shared@).contains(t) <==> av.take(i as int).contains(t) && bv.contains(t),
        decreases a.techniques@.len() - i,
    {
        let t = chars_of(a.techniques[i].as_str());
        let ghost tv = av[i as int];
        assert(t@ == tv);
        proof {
            assert(av.take(i + 1) =~= av.take(i as int).push(tv));
        }
        let in_b = listed(&b.techniques, &t);
        let in_shared = listed(&shared, &t);
        if in_b && !in_shared {
            let ghost before = views(shared@);
            assert(forall|u: Seq<char>| #[trigger] before.contains(u) <==> av.take(i as int).contains(u) && bv.contains(u));
            shared.push(a.techniques[i].clone());
            proof {
                assert(views(shared@) =~= before.push(tv));
                assert forall|x: int, y: int|
                    0 <= x < views(shared@).len() && 0 <= y < views(shared@).len() && x != y implies views(shared@)[x]
                    != views(shared@)[y] by {
                    if x == before.len() {
                        assert(before[y] == views(shared@)[y]);
                    } else if y == before.len() {
                        assert(before[x] == views(shared@)[x]);
                    } else {
                        assert(before[x] == views(shared@)[x] && before[y] == views(shared@)[y]);
                    }
                }
                assert forall|u: Seq<char>| #[trigger] views(shared@).contains(u) <==> av.take(i + 1).contains(u)
                    && bv.contains(u) by {
                    let next = av.take(i + 1);
                    let prev = av.take(i as int);
                    assert(before.contains(u) <==> prev.contains(u) && bv.contains(u));
                    if next.contains(u) {
                        let k = choose|k: int| 0 <= k < next.len() && next[k] == u;
                        if k < i {
                            assert(prev[k] == u);
                        }
                    }
                    if prev.contains(u) {
                        let k = choose|k: int| 0 <= k < prev.len() && prev[k] == u;
                        assert(next[k] == u);
                    }
                    if u == tv {
                        assert(next[i as int] == u);
                    }
                    if views(shared@).contains(u) && u != tv {
                        let k = choose|k: int| 0 <= k < views(shared@).len() && views(shared@)[k] == u;
                        assert(before[k] == u);
                    }
                    if before.contains(u) {
                        let k = choose|k: int| 0 <= k < before.len() && before[k] == u;
                        assert(views(shared@)[k] == u);
                    }
                    if u == tv {
                        assert(views(shared@)[before.len() as int] == u);
                    }
                }
            }
        } else {
            proof {
                assert forall|u: Seq<char>| #[trigger] views(shared@).contains(u) <==> av.take(i + 1).contains(u)
                    && bv.contains(u) by {
                    let next = av.take(i + 1);
                    let prev = av.take(i as int);
                    assert(views(shared@).contains(u) <==> prev.contains(u) && bv.contains(u));
                    assert(next =~= prev.push(tv));
                    if next.contains(u) {
                        let k = choose|k: int| 0 <= k < next.len() && next[k] == u;
                        if k < i {
                            assert(prev[k] == u);
                        }
                    }
                    if prev.contains(u) {
                        let k = choose|k: int| 0 <= k < prev.len() && prev[k] == u;
                        assert(next[k] == u);
                    }
                    if u == tv {
                        assert(next[i as int] == u);
                        if bv.contains(u) {
                            assert(in_b);
                            assert(in_shared);
                        }
                    }
                }
            }
        }
        i = i + 1;
    }
    assert(av.take(i as int) =~= av);
    proof {
        assert(views(shared@).to_set() =~= shared_set(*a, *b));
        views(shared@).unique_seq_to_set();
    }
    let n = shared.len();
    CorrelationLink {
        actor1_id: a.actor_id.clone(),
        actor2_id: b.actor_id.clone(),
        shared_techniques: shared,
        correlation_score: n,
    }
}

impl CorrelationEngine {
    /// The link of two actors of the feed. Both must be in the feed.
    pub fn correlate_pair(&self, actor1_id: &str, actor2_id: &str) -> (r: CorrelationLink)
        requires
            lookup(self.feed.entries(), actor1_id@) is Some,
            lookup(self.feed.entries(), actor2_id@) is Some,
        ensures
            is_link(r, lookup(self.feed.entries(), actor1_id@).unwrap(), lookup(self.feed.entries(), actor2_id@).unwrap()),
    {
        match (self.feed.get_actor(actor1_id), self.feed.get_actor(actor2_id)) {
            (Some(a), Some(b)) => link_of(a, b),
            _ => {
                assert(false);
                link_of(self.feed.get_actor(actor1_id).unwrap(), self.feed.get_actor(actor2_id).unwrap())
            },
        }
    }

    /// The links of every pair of actors sharing a technique (see
    /// `is_correlation`).
    pub fn correlate_all_actors(&self) -> (r: Vec<CorrelationLink>)
        ensures
            is_correlation(r@, self.feed.actor_list()),
    {
        let actors = self.feed.list_actors();
        let ghost av = self.feed.actor_list();
        let n = actors.len();
        let mut pairs: Vec<(usize, usize)> = Vec::new();
        let mut scores: Vec<usize> = Vec::new();
        let mut i: usize = 0;
        while i < n
            invariant
                n == actors@.len(),
                targets(actors@) == av,
                i <= n,
                pairs@.len() == scores@.len(),
                pairs@.map_values(|p: (usize, usize)| (p.0 as int, p.1 as int)) == pairs_below(n as int, i as int),
                forall|k: int| 0 <= k < scores@.len() ==> #[trigger] scores@[k] as int == shared_count(
                    av[pairs@[k].0 as int],
                    av[pairs@[k].1 as int],
                ),
            decreases n - i,
        {
            let ghost base = pairs@.map_values(|p: (usize, usize)| (p.0 as int, p.1 as int));
            let mut j: usize = i + 1;
            while j < n
                invariant
                    n == actors@.len(),
                    targets(actors@) == av,
                    i < n,
                    i + 1 <= j <= n,
                    pairs@.len() == scores@.len(),
                    pairs@.map_values(|p: (usize, usize)| (p.0 as int, p.1 as int)) == base + row_pairs(
                        n as int,
                        i as int,
                    ).take(j - i - 1),
                    forall|k: int| 0 <= k < scores@.len() ==> #[trigger] scores@[k] as int == shared_count(
                        av[pairs@[k].0 as int],
                        av[pairs@[k].1 as int],
                    ),
                decreases n - j,
            {
                assert(*actors@[i as int] == av[i as int]);
                assert(*actors@[j as int] == av[j as int]);
                let link = link_of(actors[i], actors[j]);
                let ghost before = pairs@.map_values(|p: (usize, usize)| (p.0 as int, p.1 as int));
                pairs.push((i, j));
                scores.push(link.correlation_score);
                proof {
                    let row = row_pairs(n as int, i as int);
                    assert(row[j - i - 1] == (i as int, j as int));
                    assert(row.take(j - i) =~= row.take(j - i - 1).push((i as int, j as int)));
                    assert(pairs@.map_values(|p: (usize, usize)| (p.0 as int, p.1 as int)) =~= before.push(
                        (i as int, j as int),
                    ));
                }
                j = j + 1;
            }
            proof {
                let row = row_pairs(n as int, i as int);
                assert(row.take(j - i - 1) =~= row);
            }
            i = i + 1;
        }
        let ghost pv = pairs@.map_values(|p: (usize, usize)| (p.0 as int, p.1 as int));
        assert(pv == all_pairs(n as int));
        let mut names: Vec<Vec<char>> = Vec::new();
        let mut k: usize = 0;
        while k < scores.len()
            invariant
                k <= scores@.len(),
                names@.len() == k,
                forall|m: int| 0 <= m < k ==> (#[trigger] names@[m])@ == Seq::<char>::empty(),
            decreases scores@.len() - k,
        {
            names.push(Vec::new());
            k = k + 1;
        }
        let order = rank_positions(&scores, &names);
        proof {
            assert(scores@.map_values(|s: usize| s as int) =~= pair_scores(av));
            assert(names@.map_values(|d: Vec<char>| d@) =~= no_names(all_pairs(n as int).len()));
        }
        let mut r: Vec<CorrelationLink> = Vec::new();
        let mut k: usize = 0;
        while k < order.len()
            invariant
                k <= order@.len(),
                n == actors@.len(),
                targets(actors@) == av,
                pv == pairs@.map_values(|p: (usize, usize)| (p.0 as int, p.1 as int)),
                pv == all_pairs(n as int),
                pairs@.len() == scores@.len(),
                is_ranking(pair_scores(av), no_names(all_pairs(n as int).len()), order@),
                pair_scores(av).len() == pairs@.len(),
                r@.len() == k,
                forall|m: int|
                    0 <= m < k ==> is_link(
                        #[trigger] r@[m],
                        av[all_pairs(av.len() as int)[order@[m] as int].0],
                        av[all_pairs(av.len() as int)[order@[m] as int].1],
                    ),
            decreases order@.len() - k,
        {
            let pos = order[k];
            assert(pos < pairs@.len());
            let (x, y) = pairs[pos];
            assert(pv[pos as int] == (x as int, y as int));
            assert(x < n && y < n) by {
                lemma_pairs_in_range(n as int, n as int, pos as int);
            }
            assert(*actors@[x as int] == av[x as int]);
            assert(*actors@[y as int] == av[y as int]);
            let link = link_of(actors[x], actors[y]);
            r.push(link);
            k = k + 1;
        }
        proof {
            assert(is_ranking(pair_scores(av), no_names(all_pairs(av.len() as int).len()), order@));
        }
        r
    }
}

/// Every pair lies within range, its first index below its second.
proof fn lemma_pairs_in_range(n: int, m: int, k: int)
    requires
        0 <= k < pairs_below(n, m).len(),
    ensures
        0 <= pairs_below(n, m)[k].0 < pairs_below(n, m)[k].1 < n,
    decreases m,
{
    if m > 0 {
        let prev = pairs_below(n, m - 1);
        if k < prev.len() {
            lemma_pairs_in_range(n, m - 1, k);
        }
    }
}


// ---------------------------------------------------------------------------
// Networks
// ---------------------------------------------------------------------------

/// An actor and its links to the actors it shares techniques with.
#[derive(Debug, Clone)]
pub struct ActorNetwork {
    pub actor_id: String,
    pub connected_actors: Vec<CorrelationLink>,
    /// The shared techniques of all its links, counted link by link.
    pub shared_technique_count: usize,
}

/// The link involves the actor.
pub open spec fn involves(l: CorrelationLink, id: Seq<char>) -> bool {
    l.actor1_id@ == id || l.actor2_id@ == id
}

/// The shared techniques of the links, counted link by link.
pub open spec fn shared_total(links: Seq<CorrelationLink>) -> nat
    decreases links.len(),
{
    if links.len() == 0 {
        0
    } else {
        shared_total(links.drop_last()) + links.last().shared_techniques@.len()
    }
}

/// `r` is the network of actor `id` drawn from the correlation `links`:
/// nothing when no link involves the actor, else the links involving it, in
/// order, and their shared techniques counted (up to the largest `usize`).
pub open spec fn is_network_of(r: Option<ActorNetwork>, links: Seq<CorrelationLink>, id: Seq<char>) -> bool {
    let c = links.filter(|l: CorrelationLink| involves(l, id));
    match r {
        None => c.len() == 0,
        Some(net) => {
            &&& c.len() > 0
            &&& net.actor_id@ == id
            &&& net.connected_actors@ == c
            &&& net.shared_technique_count == (if shared_total(c) <= usize::MAX {
                shared_total(c)
            } else {
                usize::MAX as nat
            })
        },
    }
}

impl CorrelationEngine {
    /// The network of an actor: the correlation links involving it.
    pub fn get_actor_network(&self, actor_id: &str) -> (r: Option<ActorNetwork>)
        ensures
            exists|links: Seq<CorrelationLink>|
                #[trigger] is_correlation(links, self.feed.actor_list()) && is_network_of(r, links, actor_id@),
    {
        let all = self.correlate_all_actors();
        let ghost lv = all@;
        let ghost pred = |l: CorrelationLink| involves(l, actor_id@);
        let want = chars_of(actor_id);
        let mut rest = all;
        let mut connected: Vec<CorrelationLink> = Vec::new();
        let mut total: usize = 0;
        let ghost mut i: int = 0;
        assert(lv.take(0).filter(pred) =~= Seq::<CorrelationLink>::empty());
        while rest.len() > 0
            invariant
                0 <= i <= lv.len(),
                rest@ == lv.skip(i),
                want@ == actor_id@,
                pred == (|l: CorrelationLink| involves(l, actor_id@)),
                connected@ == lv.take(i).filter(pred),
                total == (if shared_total(connected@) <= usize::MAX {
                    shared_total(connected@)
                } else {
                    usize::MAX as nat
                }),
            decreases rest@.len(),
        {
            assert(i < lv.len());
            let l = rest.remove(0);
            proof {
                assert(l == lv[i]);
                assert(rest@ =~= lv.skip(i + 1));
                lv.take(i).lemma_filter_push(lv[i], pred);
                assert(lv.take(i + 1) =~= lv.take(i).push(lv[i]));
            }
            if equal_chars(&chars_of(l.actor1_id.as_str()), &want) || equal_chars(&chars_of(l.actor2_id.as_str()), &want) {
                let ghost before = connected@;
                total = total.saturating_add(l.shared_techniques.len());
                connected.push(l);
                assert(connected@.drop_last() =~= before);
            }
            proof {
                i = i + 1;
            }
        }
        assert(lv.take(i) =~= lv);
        if connected.len() == 0 {
            None
        } else {
            Some(ActorNetwork { actor_id: crate::text::string_from(actor_id), connected_actors: connected, shared_technique_count: total })
        }
    }
}

// ---------------------------------------------------------------------------
// Technique prevalence
// ---------------------------------------------------------------------------

/// A technique and the actors that use it.
#[derive(Debug, Clone)]
pub struct TTPPattern {
    pub technique: String,
    /// The actors using the technique, each once, in feed order.
    pub actors: Vec<String>,
    /// The number of actors using the technique.
    pub count: usize,
    /// The number of actors in the feed: `count` out of it is the
    /// technique's prevalence.
    pub total_actors: usize,
}

/// The `(technique, actor id)` pairs of a list of actors: each actor's
/// techniques in order, actor after actor.
pub open spec fn ttp_pairs(actors: Seq<ThreatActor>) -> Seq<(Seq<char>, Seq<char>)>
    decreases actors.len(),
{
    if actors.len() == 0 {
        Seq::empty()
    } else {
        ttp_pairs(actors.drop_last()) + actors.last().techniques@.map_values(
            |t: String| (t@, actors.last().actor_id@),
        )
    }
}

/// The items of `s`, each once, in order of first occurrence.
pub open spec fn distinct(s: Seq<Seq<char>>) -> Seq<Seq<char>>
    decreases s.len(),
{
    if s.len() == 0 {
        s
    } else if distinct(s.drop_last()).contains(s.last()) {
        distinct(s.drop_last())
    } else {
        distinct(s.drop_last()).push(s.last())
    }
}

/// `ps` are the techniques of the actors, most widely used first and
/// techniques used by equally many actors in ascending order, each with the
/// actors that use it.
pub open spec fn is_ttp_patterns(ps: Seq<TTPPattern>, actors: Seq<ThreatActor>) -> bool {
    let pairs = ttp_pairs(actors);
    &&& forall|k: int|
        0 <= k < ps.len() ==> {
            &&& group_of(pairs, (#[trigger] ps[k]).technique@).len() > 0
            &&& views(ps[k].actors@) == distinct(group_of(pairs, ps[k].technique@))
            &&& ps[k].count == ps[k].actors@.len()
            &&& ps[k].total_actors == actors.len()
        }
    &&& forall|t: Seq<char>|
        group_of(pairs, t).len() > 0 ==> exists|k: int| 0 <= k < ps.len() && (#[trigger] ps[k]).technique@ == t
    &&& forall|a: int, b: int|
        0 <= a < b < ps.len() ==> {
            ||| (#[trigger] ps[a]).count > (#[trigger] ps[b]).count
            ||| ps[a].count == ps[b].count && seq_lt(ps[a].technique@, ps[b].technique@)
        }
}

/// A nonempty list has a nonempty list of distinct items.
proof fn lemma_distinct_nonempty(s: Seq<Seq<char>>)
    ensures
        s.len() > 0 ==> distinct(s).len() > 0,
        distinct(s).len() <= s.len(),
    decreases s.len(),
{
    if s.len() > 0 {
        lemma_distinct_nonempty(s.drop_last());
    }
}

/// The items of a list, each once, in order of first occurrence.
pub(crate) fn distinct_strings(list: &Vec<String>) -> (r: Vec<String>)
    ensures
        views(r@) == distinct(views(list@)),
{
    let mut r: Vec<String> = Vec::new();
    let mut i: usize = 0;
    while i < list.len()
        invariant
            i <= list@.len(),
            views(r@) == distinct(views(list@).take(i as int)),
        decreases list@.len() - i,
    {
        let x = chars_of(list[i].as_str());
        proof {
            assert(views(list@).take(i + 1).drop_last() =~= views(list@).take(i as int));
            assert(views(list@).take(i + 1).last() == x@);
        }
        if !listed(&r, &x) {
            let ghost before = views(r@);
            r.push(list[i].clone());
            assert(views(r@) =~= before.push(x@));
        }
        i = i + 1;
    }
    assert(views(list@).take(i as int) =~= views(list@));
    r
}

impl CorrelationEngine {
    /// The techniques of the feed's actors and the actors using each (see
    /// `is_ttp_patterns`).
    pub fn get_ttp_patterns(&self) -> (r: Vec<TTPPattern>)
        ensures
            is_ttp_patterns(r@, self.feed.actor_list()),
    {
        let actors = self.feed.list_actors();
        let ghost all = self.feed.actor_list();
        let n = actors.len();
        let mut pairs: Vec<(String, String)> = Vec::new();
        let mut i: usize = 0;
        while i < actors.len()
            invariant
                i <= actors@.len(),
                targets(actors@) == all,
                pairs@.map_values(|p: (String, String)| (p.0@, p.1@)) == ttp_pairs(all.take(i as int)),
            decreases actors@.len() - i,
        {
            let a = actors[i];
            assert(*a == all[i as int]);
            let ghost base = pairs@.map_values(|p: (String, String)| (p.0@, p.1@));
            let ghost tv = a.techniques@.map_values(|t: String| (t@, a.actor_id@));
            let mut k: usize = 0;
            while k < a.techniques.len()
                invariant
                    k <= a.techniques@.len(),
                    tv == a.techniques@.map_values(|t: String| (t@, a.actor_id@)),
                    pairs@.map_values(|p: (String, String)| (p.0@, p.1@)) == base + tv.take(k as int),
                decreases a.techniques@.len() - k,
            {
                let ghost before = pairs@;
                pairs.push((a.techniques[k].clone(), a.actor_id.clone()));
                assert(pairs@.map_values(|p: (String, String)| (p.0@, p.1@)) =~= before.map_values(
                    |p: (String, String)| (p.0@, p.1@),
                ).push(tv[k as int]));
                assert(tv.take(k + 1) =~= tv.take(k as int).push(tv[k as int]));
                k = k + 1;
            }
            proof {
                assert(tv.take(k as int) =~= tv);
                assert(all.take(i + 1).drop_last() =~= all.take(i as int));
                assert(all.take(i + 1).last() == all[i as int]);
            }
            i = i + 1;
        }
        assert(all.take(i as int) =~= all);
        let ghost pv = ttp_pairs(all);
        let groups = group_pairs(&pairs);
        let ghost gv = groups_view(groups@);
        let mut counts: Vec<usize> = Vec::new();
        let mut names: Vec<Vec<char>> = Vec::new();
        let mut g: usize = 0;
        while g < groups.len()
            invariant
                g <= groups@.len(),
                gv == groups_view(groups@),
                unique_keys(gv),
                forall|key: Seq<char>|
                    #[trigger] lookup(gv, key) == if group_of(pv, key).len() > 0 {
                        Some(group_of(pv, key))
                    } else {
                        None
                    },
                counts@.len() == g,
                names@.len() == g,
                forall|j: int| 0 <= j < g ==> #[trigger] counts@[j] == distinct(gv[j].1).len(),
                forall|j: int| 0 <= j < g ==> #[trigger] counts@[j] > 0,
                forall|j: int| 0 <= j < g ==> #[trigger] names@[j]@ == gv[j].0,
            decreases groups@.len() - g,
        {
            proof {
                lemma_lookup_at(gv, g as int);
                lemma_distinct_nonempty(gv[g as int].1);
            }
            let d = distinct_strings(&groups[g].1);
            counts.push(d.len());
            names.push(chars_of(groups[g].0.as_str()));
            g = g + 1;
        }
        let order = rank_positions(&counts, &names);
        let ghost sc = counts@.map_values(|c: usize| c as int);
        let ghost kv = names@.map_values(|d: Vec<char>| d@);
        proof {
            assert forall|x: int| 0 <= x < gv.len() implies #[trigger] sc[x] > 0 by {
                assert(counts@[x] > 0);
            }
        }
        let mut r: Vec<TTPPattern> = Vec::new();
        let mut k: usize = 0;
        while k < order.len()
            invariant
                k <= order@.len(),
                gv == groups_view(groups@),
                unique_keys(gv),
                forall|key: Seq<char>|
                    #[trigger] lookup(gv, key) == if group_of(pv, key).len() > 0 {
                        Some(group_of(pv, key))
                    } else {
                        None
                    },
                is_ranking(sc, kv, order@),
                sc.len() == gv.len(),
                kv.len() == gv.len(),
                forall|j: int| 0 <= j < gv.len() ==> #[trigger] kv[j] == gv[j].0,
                forall|j: int| 0 <= j < gv.len() ==> #[trigger] sc[j] == distinct(gv[j].1).len(),
                n == all.len(),
                r@.len() == k,
                forall|m: int|
                    0 <= m < k ==> {
                        &&& (#[trigger] r@[m]).technique@ == gv[order@[m] as int].0
                        &&& views(r@[m].actors@) == distinct(gv[order@[m] as int].1)
                        &&& r@[m].count == r@[m].actors@.len()
                        &&& r@[m].total_actors == n
                    },
            decreases order@.len() - k,
        {
            let pos = order[k];
            assert(pos < groups@.len());
            let d = distinct_strings(&groups[pos].1);
            let c = d.len();
            r.push(TTPPattern { technique: groups[pos].0.clone(), actors: d, count: c, total_actors: n });
            k = k + 1;
        }
        proof {
            let pairs_all = ttp_pairs(all);
            assert forall|m: int| 0 <= m < r@.len() implies {
                &&& group_of(pairs_all, (#[trigger] r@[m]).technique@).len() > 0
                &&& views(r@[m].actors@) == distinct(group_of(pairs_all, r@[m].technique@))
                &&& r@[m].count == r@[m].actors@.len()
                &&& r@[m].total_actors == all.len()
            } by {
                let x = order@[m] as int;
                lemma_lookup_at(gv, x);
            }
            assert forall|t: Seq<char>| group_of(pairs_all, t).len() > 0 implies exists|m: int|
                0 <= m < r@.len() && (#[trigger] r@[m]).technique@ == t by {
                crate::keyed::lemma_lookup_found(gv, t);
                let j = choose|j: int| 0 <= j < gv.len() && (#[trigger] gv[j]).0 == t && Some(gv[j].1) == lookup(gv, t);
                lemma_distinct_nonempty(gv[j].1);
                assert(sc[j] > 0);
                assert(order@.contains(j as usize));
                let m = choose|m: int| 0 <= m < order@.len() && order@[m] == j as usize;
                assert(r@[m].technique@ == t);
            }
            assert forall|a: int, b: int| 0 <= a < b < r@.len() implies {
                ||| (#[trigger] r@[a]).count > (#[trigger] r@[b]).count
                ||| r@[a].count == r@[b].count && seq_lt(r@[a].technique@, r@[b].technique@)
            } by {
                let x = order@[a] as int;
                let y = order@[b] as int;
                assert(ranks_before(sc, kv, x, y));
                lemma_ranks_before_order(sc, kv, x, y, x);
                assert(gv[x].0 != gv[y].0);
            }
        }
        r
    }

    /// The `limit` most widely used techniques (all of them when there are
    /// fewer), in the order of `get_ttp_patterns`.
    pub fn get_most_common_techniques(&self, limit: usize) -> (r: Vec<TTPPattern>)
        ensures
            exists|ps: Seq<TTPPattern>|
                #[trigger] is_ttp_patterns(ps, self.feed.actor_list()) && r@ == ps.take(
                    if limit < ps.len() { limit as int } else { ps.len() as int },
                ),
    {
        let mut ps = self.get_ttp_patterns();
        let ghost all = ps@;
        ps.truncate(limit);
        assert(ps@ =~= all.take(if limit < all.len() { limit as int } else { all.len() as int }));
        ps
    }
}


// ---------------------------------------------------------------------------
// Laws
// ---------------------------------------------------------------------------

/// Correlation is symmetric: two actors share as many techniques whichever
/// is named first.
pub proof fn lemma_shared_count_symmetric(a: ThreatActor, b: ThreatActor)
    ensures
        shared_count(a, b) == shared_count(b, a),
{
    assert(shared_set(a, b) =~= shared_set(b, a));
}

/// Every reported correlation link shares at least one technique.
pub proof fn lemma_correlation_links_share(links: Seq<CorrelationLink>, actors: Seq<ThreatActor>)
    requires
        is_correlation(links, actors),
    ensures
        forall|k: int| 0 <= k < links.len() ==> (#[trigger] links[k]).shared_techniques@.len() > 0,
{
    let n = actors.len() as int;
    let order = choose|order: Seq<usize>|
        {
            &&& #[trigger] is_ranking(pair_scores(actors), no_names(all_pairs(n).len()), order)
            &&& links.len() == order.len()
            &&& forall|k: int|
                0 <= k < order.len() ==> is_link(
                    #[trigger] links[k],
                    actors[all_pairs(n)[order[k] as int].0],
                    actors[all_pairs(n)[order[k] as int].1],
                )
        };
    assert forall|k: int| 0 <= k < links.len() implies (#[trigger] links[k]).shared_techniques@.len() > 0 by {
        let p = order[k] as int;
        assert(pair_scores(actors)[p] > 0);
        assert(is_link(links[k], actors[all_pairs(n)[p].0], actors[all_pairs(n)[p].1]));
    }
}

/// The actor ids of the `(technique, actor id)` pairs are ids of the actors.
proof fn lemma_ttp_pairs_ids(actors: Seq<ThreatActor>, t: Seq<char>, x: Seq<char>)
    requires
        group_of(ttp_pairs(actors), t).contains(x),
    ensures
        actors.map_values(|a: ThreatActor| a.actor_id@).contains(x),
    decreases actors.len(),
{
    let d = actors.drop_last();
    let last = actors.last();
    let add = last.techniques@.map_values(|s: String| (s@, last.actor_id@));
    let pairs = ttp_pairs(actors);
    assert(pairs == ttp_pairs(d) + add);
    lemma_group_concat(ttp_pairs(d), add, t);
    if group_of(ttp_pairs(d), t).contains(x) {
        lemma_ttp_pairs_ids(d, t, x);
        let dids = d.map_values(|a: ThreatActor| a.actor_id@);
        assert(dids.contains(x));
        let j = choose|j: int| 0 <= j < dids.len() && dids[j] == x;
        assert(actors[j] == d[j]);
        assert(actors.map_values(|a: ThreatActor| a.actor_id@)[j] == x);
    } else {
        lemma_group_values(add, t, x);
        assert(x == last.actor_id@);
        assert(actors.map_values(|a: ThreatActor| a.actor_id@)[actors.len() - 1] == x);
    }
}

/// The group of a key in pairs joined end to end is the two groups joined.
proof fn lemma_group_concat(a: Seq<(Seq<char>, Seq<char>)>, b: Seq<(Seq<char>, Seq<char>)>, k: Seq<char>)
    ensures
        group_of(a + b, k) == group_of(a, k) + group_of(b, k),
    decreases b.len(),
{
    if b.len() == 0 {
        assert(a + b =~= a);
        assert(group_of(a, k) + group_of(b, k) =~= group_of(a, k));
    } else {
        assert((a + b).drop_last() =~= a + b.drop_last());
        assert((a + b).last() == b.last());
        lemma_group_concat(a, b.drop_last(), k);
        if b.last().0 == k {
            assert(group_of(a, k) + group_of(b, k) =~= (group_of(a, k) + group_of(b.drop_last(), k)).push(b.last().1));
        }
    }
}

/// Every value grouped under a key is the value of some pair.
proof fn lemma_group_values(pairs: Seq<(Seq<char>, Seq<char>)>, k: Seq<char>, x: Seq<char>)
    requires
        group_of(pairs, k).contains(x),
    ensures
        exists|i: int| 0 <= i < pairs.len() && (#[trigger] pairs[i]).1 == x,
    decreases pairs.len(),
{
    let d = pairs.drop_last();
    if pairs.last().0 == k && pairs.last().1 == x {
        assert(pairs[pairs.len() - 1] == pairs.last());
    } else {
        if pairs.last().0 == k {
            let g = group_of(d, k);
            let j = choose|j: int| 0 <= j < g.push(pairs.last().1).len() && g.push(pairs.last().1)[j] == x;
            assert(g[j] == x);
        }
        lemma_group_values(d, k, x);
        let i = choose|i: int| 0 <= i < d.len() && (#[trigger] d[i]).1 == x;
        assert(pairs[i] == d[i]);
    }
}

/// The distinct items of a list hold no item twice, and only items of the
/// list.
proof fn lemma_distinct(s: Seq<Seq<char>>)
    ensures
        distinct(s).no_duplicates(),
        forall|x: Seq<char>| #[trigger] distinct(s).contains(x) ==> s.contains(x),
    decreases s.len(),
{
    if s.len() > 0 {
        let d = s.drop_last();
        lemma_distinct(d);
        let dd = distinct(d);
        assert forall|x: Seq<char>| #[trigger] distinct(s).contains(x) implies s.contains(x) by {
            if dd.contains(x) {
                let j = choose|j: int| 0 <= j < d.len() && d[j] == x;
                assert(s[j] == x);
            } else {
                assert(x == s.last());
                assert(s[s.len() - 1] == x);
            }
        }
        if !dd.contains(s.last()) {
            let p = dd.push(s.last());
            assert forall|a: int, b: int| 0 <= a < p.len() && 0 <= b < p.len() && a != b implies p[a] != p[b] by {
                if a < dd.len() && b < dd.len() {
                    assert(p[a] == dd[a] && p[b] == dd[b]);
                } else if a < dd.len() {
                    assert(p[a] == dd[a]);
                } else {
                    assert(p[b] == dd[b]);
                }
            }
        }
    }
}

/// No technique is used by more actors than the feed holds: the prevalence
/// of a technique is at most one.
pub proof fn lemma_prevalence_at_most_one(ps: Seq<TTPPattern>, actors: Seq<ThreatActor>)
    requires
        is_ttp_patterns(ps, actors),
    ensures
        forall|k: int| 0 <= k < ps.len() ==> (#[trigger] ps[k]).count <= ps[k].total_actors,
{
    let ids = actors.map_values(|a: ThreatActor| a.actor_id@);
    assert forall|k: int| 0 <= k < ps.len() implies (#[trigger] ps[k]).count <= ps[k].total_actors by {
        let g = group_of(ttp_pairs(actors), ps[k].technique@);
        let d = distinct(g);
        lemma_distinct(g);
        assert(views(ps[k].actors@) == d);
        assert(d.to_set().subset_of(ids.to_set())) by {
            assert forall|x: Seq<char>| d.to_set().contains(x) implies ids.to_set().contains(x) by {
                assert(d.contains(x));
                assert(g.contains(x));
                lemma_ttp_pairs_ids(actors, ps[k].technique@, x);
            }
        }
        d.unique_seq_to_set();
        ids.lemma_cardinality_of_set();
        vstd::set_lib::lemma_len_subset(d.to_set(), ids.to_set());
    }
}

} // verus!
