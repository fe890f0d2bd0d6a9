//! The threat-actor feed: actors keyed by id, with lookups by country,
//! technique, targeted sector and infrastructure indicator.

use vstd::prelude::*;
use crate::keyed::{lemma_lookup_absent, lemma_lookup_at, lemma_store, lookup, unique_keys};
use crate::osint::models::ThreatIndicator;
use crate::text::{chars_of, contains, contains_seq, copy_range, equal_chars, occurs_at, occurs_at_pos, push_str, string_of};

verus! {

broadcast use vstd::string::group_string_axioms;

/// Infrastructure and activity attributed to an actor.
#[derive(Debug, Clone)]
pub struct ThreatFeedData {
    pub c2_ips: Vec<String>,
    pub malware_hashes: Vec<String>,
    pub phishing_domains: Vec<String>,
    pub exploit_kits: Vec<String>,
    pub attributed_actors: Vec<String>,
    pub recent_campaigns: Vec<String>,
}

/// A threat actor.
#[derive(Debug, Clone)]
pub struct ThreatActor {
    pub actor_id: String,
    pub name: String,
    pub aliases: Vec<String>,
    pub country: String,
    pub motivation: String,
    pub techniques: Vec<String>,
    pub recent_activity: Vec<String>,
    pub known_targets: Vec<String>,
    pub infrastructure: ThreatFeedData,
}

/// Some entry of `list` is exactly `x`.
pub open spec fn has_text(list: Seq<String>, x: Seq<char>) -> bool {
    exists|i: int| 0 <= i < list.len() && (#[trigger] list[i])@ == x
}

/// Some entry of `list` contains `x`.
pub open spec fn any_contains(list: Seq<String>, x: Seq<char>) -> bool {
    exists|i: int| 0 <= i < list.len() && contains_seq((#[trigger] list[i])@, x)
}

/// `s` up to the first occurrence of `pat`, or all of `s` when `pat` does not
/// occur (the first piece of `str::split`).
pub open spec fn before_first(s: Seq<char>, pat: Seq<char>) -> Seq<char> {
    if exists|i: int| occurs_at(s, pat, i) {
        s.take(choose|i: int| occurs_at(s, pat, i) && forall|j: int| 0 <= j < i ==> !occurs_at(s, pat, j))
    } else {
        s
    }
}

/// The part of `s` before the first occurrence of `pat`.
pub(crate) fn prefix_before(s: &str, pat: &str) -> (r: String)
    requires
        pat@.len() > 0,
    ensures
        r@ == before_first(s@, pat@),
{
    let v = chars_of(s);
    let p = chars_of(pat);
    let mut i: usize = 0;
    while i < v.len()
        invariant
            i <= v@.len(),
            v@ == s@,
            p@ == pat@,
            forall|j: int| 0 <= j < i ==> !occurs_at(s@, pat@, j),
        decreases v@.len() - i,
    {
        if occurs_at_pos(&v, &p, i) {
            proof {
                let c = choose|c: int| occurs_at(s@, pat@, c) && forall|j: int| 0 <= j < c ==> !occurs_at(s@, pat@, j);
                if c < i {
                } else if c > i {
                }
                assert(c == i);
            }
            let head = copy_range(&v, 0, i);
            assert(head@ =~= s@.take(i as int));
            return string_of(&head);
        }
        i = i + 1;
    }
    proof {
        assert forall|j: int| !occurs_at(s@, pat@, j) by {
            if 0 <= j < i {
            }
        }
    }
    string_of(&v)
}

/// The actor a framework entry describes: named by its id, located in the
/// country its attribution names before any parenthesis, using the
/// techniques of its characteristic TTPs, and with its signature behaviours as
/// recent campaigns of its (otherwise empty) infrastructure.
pub open spec fn framework_actor_ok(
    a: ThreatActor,
    id: Seq<char>,
    aliases: Seq<String>,
    attributed_to: Seq<char>,
    motivation: Seq<char>,
    target_sectors: Seq<String>,
    notable_campaigns: Seq<String>,
    techniques: Seq<String>,
    signature_behaviors: Seq<String>,
) -> bool {
    &&& a.actor_id@ == id
    &&& a.name@ == id
    &&& a.aliases@ == aliases
    &&& a.country@ == before_first(attributed_to, " ("@)
    &&& a.motivation@ == motivation
    &&& a.techniques@ == techniques
    &&& a.recent_activity@ == notable_campaigns
    &&& a.known_targets@ == target_sectors
    &&& a.infrastructure.c2_ips@.len() == 0
    &&& a.infrastructure.malware_hashes@.len() == 0
    &&& a.infrastructure.phishing_domains@.len() == 0
    &&& a.infrastructure.exploit_kits@.len() == 0
    &&& a.infrastructure.attributed_actors@.len() == 1
    &&& a.infrastructure.attributed_actors@[0]@ == id
    &&& a.infrastructure.recent_campaigns@ == signature_behaviors
}

impl ThreatActor {
    /// The actor described by an entry of the threat-actor framework.
    pub fn from_framework(
        id: String,
        aliases: Vec<String>,
        attributed_to: &str,
        primary_motivation: String,
        target_sectors: Vec<String>,
        notable_campaigns: Vec<String>,
        ttp_techniques: Vec<String>,
        signature_behaviors: Vec<String>,
    ) -> (r: ThreatActor)
        ensures
            framework_actor_ok(
                r,
                id@,
                aliases@,
                attributed_to@,
                primary_motivation@,
                target_sectors@,
                notable_campaigns@,
                ttp_techniques@,
                signature_behaviors@,
            ),
    {
        proof {
            reveal_strlit(" (");
        }
        let country = prefix_before(attributed_to, " (");
        let mut attributed: Vec<String> = Vec::new();
        attributed.push(id.clone());
        ThreatActor {
            actor_id: id.clone(),
            name: id,
            aliases,
            country,
            motivation: primary_motivation,
            techniques: ttp_techniques,
            recent_activity: notable_campaigns,
            known_targets: target_sectors,
            infrastructure: ThreatFeedData {
                c2_ips: Vec::new(),
                malware_hashes: Vec::new(),
                phishing_domains: Vec::new(),
                exploit_kits: Vec::new(),
                attributed_actors: attributed,
                recent_campaigns: signature_behaviors,
            },
        }
    }
}

/// How the feed is searched.
#[derive(Debug, Clone, Copy, PartialEq, Eq, Structural)]
pub enum ActorFilter {
    /// The actor's country equals the needle.
    Country,
    /// One of the actor's techniques equals the needle.
    Technique,
    /// One of the actor's known targets contains the needle.
    Sector,
}

/// Whether actor `a` passes `filter` for `needle`.
pub open spec fn passes(a: ThreatActor, filter: ActorFilter, needle: Seq<char>) -> bool {
    match filter {
        ActorFilter::Country => a.country@ == needle,
        ActorFilter::Technique => has_text(a.techniques@, needle),
        ActorFilter::Sector => any_contains(a.known_targets@, needle),
    }
}

/// The actors of `s` that pass `filter`, in order.
pub open spec fn selected(s: Seq<ThreatActor>, filter: ActorFilter, needle: Seq<char>) -> Seq<ThreatActor>
    decreases s.len(),
{
    if s.len() == 0 {
        Seq::empty()
    } else if passes(s.last(), filter, needle) {
        selected(s.drop_last(), filter, needle).push(s.last())
    } else {
        selected(s.drop_last(), filter, needle)
    }
}

/// The indicator matches reported for one actor: C2 IP, then phishing domain,
/// then malware hash.
pub open spec fn actor_hits(a: ThreatActor, indicator: Seq<char>) -> Seq<Seq<char>> {
    (if has_text(a.infrastructure.c2_ips@, indicator) {
        seq![a.actor_id@ + " (C2 IP)"@]
    } else {
        Seq::empty()
    }) + (if has_text(a.infrastructure.phishing_domains@, indicator) {
        seq![a.actor_id@ + " (Phishing Domain)"@]
    } else {
        Seq::empty()
    }) + (if has_text(a.infrastructure.malware_hashes@, indicator) {
        seq![a.actor_id@ + " (Malware Hash)"@]
    } else {
        Seq::empty()
    })
}

/// The indicator matches of every actor of `s`, in order.
pub open spec fn indicator_hits(s: Seq<ThreatActor>, indicator: Seq<char>) -> Seq<Seq<char>>
    decreases s.len(),
{
    if s.len() == 0 {
        Seq::empty()
    } else {
        indicator_hits(s.drop_last(), indicator) + actor_hits(s.last(), indicator)
    }
}

/// The actors a sequence of references points to.
pub open spec fn targets(r: Seq<&ThreatActor>) -> Seq<ThreatActor> {
    r.map_values(|a: &ThreatActor| *a)
}

/// The `(id, actor)` entries of a list of actors.
pub open spec fn keyed_actors(s: Seq<ThreatActor>) -> Seq<(Seq<char>, ThreatActor)> {
    s.map_values(|a: ThreatActor| (a.actor_id@, a))
}

/// Whether some string of `list` equals `x`.
fn list_has(list: &Vec<String>, x: &Vec<char>) -> (r: bool)
    ensures
        r == has_text(list@, x@),
{
    let mut i: usize = 0;
    while i < list.len()
        invariant
            i <= list@.len(),
            forall|j: int| 0 <= j < i ==> (#[trigger] list@[j])@ != x@,
        decreases list@.len() - i,
    {
        if equal_chars(&chars_of(list[i].as_str()), x) {
            return true;
        }
        i = i + 1;
    }
    false
}

/// Whether some string of `list` contains `x`.
fn list_any_contains(list: &Vec<String>, x: &Vec<char>) -> (r: bool)
    ensures
        r == any_contains(list@, x@),
{
    let mut i: usize = 0;
    while i < list.len()
        invariant
            i <= list@.len(),
            forall|j: int| 0 <= j < i ==> !contains_seq((#[trigger] list@[j])@, x@),
        decreases list@.len() - i,
    {
        if contains(&chars_of(list[i].as_str()), x) {
            return true;
        }
        i = i + 1;
    }
    false
}

/// Whether actor `a` passes `filter` for `needle`.
fn actor_passes(a: &ThreatActor, filter: ActorFilter, needle: &Vec<char>) -> (r: bool)
    ensures
        r == passes(*a, filter, needle@),
{
    match filter {
        ActorFilter::Country => equal_chars(&chars_of(a.country.as_str()), needle),
        ActorFilter::Technique => list_has(&a.techniques, needle),
        ActorFilter::Sector => list_any_contains(&a.known_targets, needle),
    }
}

/// Threat actors keyed by their ids.
#[derive(Debug)]
pub struct ThreatIntelligenceFeed {
    actors: Vec<ThreatActor>,
    indicators: Vec<ThreatIndicator>,
}

impl ThreatIntelligenceFeed {
    /// The actors, in storage order.
    pub closed spec fn actor_list(&self) -> Seq<ThreatActor> {
        self.actors@
    }

    /// The actors keyed by id.
    pub open spec fn entries(&self) -> Seq<(Seq<char>, ThreatActor)> {
        keyed_actors(self.actor_list())
    }

    #[verifier::type_invariant]
    spec fn well_formed(self) -> bool {
        unique_keys(keyed_actors(self.actors@))
    }

    /// A feed without actors.
    pub fn empty() -> (r: Self)
        ensures
            r.actor_list() == Seq::<ThreatActor>::empty(),
    {
        let r = ThreatIntelligenceFeed { actors: Vec::new(), indicators: Vec::new() };
        assert(keyed_actors(r.actors@) =~= Seq::<(Seq<char>, ThreatActor)>::empty());
        r
    }

    /// The position of the actor with this id, if any.
    fn position(&self, id: &Vec<char>) -> (r: Option<usize>)
        ensures
            match r {
                Some(i) => i < self.actor_list().len() && self.actor_list()[i as int].actor_id@ == id@,
                None => forall|i: int| 0 <= i < self.actor_list().len() ==> (#[trigger] self.actor_list()[i]).actor_id@ != id@,
            },
    {
        let mut i: usize = 0;
        while i < self.actors.len()
            invariant
                i <= self.actors@.len(),
                forall|j: int| 0 <= j < i ==> (#[trigger] self.actors@[j]).actor_id@ != id@,
            decreases self.actors@.len() - i,
        {
            if equal_chars(&chars_of(self.actors[i].actor_id.as_str()), id) {
                return Some(i);
            }
            i = i + 1;
        }
        None
    }

    /// Adds an actor, replacing the one with the same id; the others stay.
    pub fn insert_actor(&mut self, actor: ThreatActor)
        ensures
            lookup(final(self).entries(), actor.actor_id@) == Some(actor),
            forall|k: Seq<char>| k != actor.actor_id@ ==> lookup(final(self).entries(), k) == lookup(old(self).entries(), k),
    {
        proof {
            use_type_invariant(&*self);
        }
        let ghost before = keyed_actors(self.actors@);
        let ghost a = actor;
        let id = chars_of(actor.actor_id.as_str());
        let pos = self.position(&id);
        let mut actors = Vec::new();
        std::mem::swap(&mut actors, &mut self.actors);
        match pos {
            Some(i) => {
                actors.set(i, actor);
            },
            None => {
                actors.push(actor);
            },
        }
        proof {
            let after = keyed_actors(actors@);
            let j = match pos {
                Some(i) => i as int,
                None => before.len() as int,
            };
            match pos {
                Some(i) => {
                    assert(after =~= before.update(i as int, (a.actor_id@, a)));
                },
                None => {
                    assert(after =~= before.push((a.actor_id@, a)));
                },
            }
            lemma_store(before, after, j, a.actor_id@, a);
        }
        self.actors = actors;
    }

    /// A feed of the given actors; of several with one id the last is kept,
    /// as inserting them one by one into a map does.
    pub fn from_actors(list: Vec<ThreatActor>) -> (r: Self)
        ensures
            forall|k: Seq<char>| #[trigger] lookup(r.entries(), k) == lookup(keyed_actors(list@), k),
    {
        let mut feed = Self::empty();
        let mut rest = list;
        let ghost all = rest@;
        let mut i: usize = 0;
        let total = rest.len();
        assert(keyed_actors(all.take(0)) =~= Seq::<(Seq<char>, ThreatActor)>::empty());
        while rest.len() > 0
            invariant
                i + rest@.len() == all.len(),
                all == list@,
                total == all.len(),
                rest@ == all.skip(i as int),
                forall|k: Seq<char>| #[trigger] lookup(feed.entries(), k) == lookup(keyed_actors(all.take(i as int)), k),
            decreases rest@.len(),
        {
            let a = rest.remove(0);
            proof {
                assert(a == all[i as int]);
                assert(rest@ =~= all.skip(i + 1));
                assert(keyed_actors(all.take(i + 1)).drop_last() =~= keyed_actors(all.take(i as int)));
                assert(keyed_actors(all.take(i + 1)).last() == (a.actor_id@, a));
            }
            feed.insert_actor(a);
            i = i + 1;
        }
        assert(all.take(i as int) =~= all);
        feed
    }

    /// The actor with this id, if any.
    pub fn get_actor(&self, actor_id: &str) -> (r: Option<&ThreatActor>)
        ensures
            match lookup(self.entries(), actor_id@) {
                Some(a) => r matches Some(x) && *x == a,
                None => r is None,
            },
    {
        proof {
            use_type_invariant(self);
        }
        let id = chars_of(actor_id);
        match self.position(&id) {
            Some(i) => {
                proof {
                    lemma_lookup_at(self.entries(), i as int);
                }
                Some(&self.actors[i])
            },
            None => {
                proof {
                    lemma_lookup_absent(self.entries(), actor_id@);
                }
                None
            },
        }
    }

    /// Every actor, in storage order.
    pub fn list_actors(&self) -> (r: Vec<&ThreatActor>)
        ensures
            targets(r@) == self.actor_list(),
    {
        let mut r: Vec<&ThreatActor> = Vec::new();
        let mut i: usize = 0;
        while i < self.actors.len()
            invariant
                i <= self.actors@.len(),
                targets(r@) == self.actor_list().take(i as int),
            decreases self.actors@.len() - i,
        {
            let ghost before = r@;
            r.push(&self.actors[i]);
            assert(targets(r@) =~= targets(before).push(self.actors@[i as int]));
            assert(self.actor_list().take(i + 1) =~= self.actor_list().take(i as int).push(self.actors@[i as int]));
            i = i + 1;
        }
        assert(self.actor_list().take(i as int) =~= self.actor_list());
        r
    }

    /// The actors passing `filter` for `needle`, in storage order.
    fn select(&self, filter: ActorFilter, needle: &str) -> (r: Vec<&ThreatActor>)
        ensures
            targets(r@) == selected(self.actor_list(), filter, needle@),
    {
        let n = chars_of(needle);
        let mut r: Vec<&ThreatActor> = Vec::new();
        let mut i: usize = 0;
        while i < self.actors.len()
            invariant
                i <= self.actors@.len(),
                n@ == needle@,
                targets(r@) == selected(self.actor_list().take(i as int), filter, needle@),
            decreases self.actors@.len() - i,
        {
            proof {
                assert(self.actor_list().take(i + 1).drop_last() =~= self.actor_list().take(i as int));
                assert(self.actor_list().take(i + 1).last() == self.actors@[i as int]);
            }
            if actor_passes(&self.actors[i], filter, &n) {
                let ghost before = r@;
                r.push(&self.actors[i]);
                assert(targets(r@) =~= targets(before).push(self.actors@[i as int]));
            }
            i = i + 1;
        }
        assert(self.actor_list().take(i as int) =~= self.actor_list());
        r
    }

    /// The actors attributed to exactly this country.
    pub fn find_actors_by_country(&self, country: &str) -> (r: Vec<&ThreatActor>)
        ensures
            targets(r@) == selected(self.actor_list(), ActorFilter::Country, country@),
    {
        self.select(ActorFilter::Country, country)
    }

    /// The actors using exactly this technique id.
    pub fn find_actors_by_technique(&self, technique: &str) -> (r: Vec<&ThreatActor>)
        ensures
            targets(r@) == selected(self.actor_list(), ActorFilter::Technique, technique@),
    {
        self.select(ActorFilter::Technique, technique)
    }

    /// The actors with a known target whose name contains `sector`.
    pub fn find_actors_targeting_sector(&self, sector: &str) -> (r: Vec<&ThreatActor>)
        ensures
            targets(r@) == selected(self.actor_list(), ActorFilter::Sector, sector@),
    {
        self.select(ActorFilter::Sector, sector)
    }

    /// The actors whose infrastructure lists `indicator`, each match labelled
    /// with its kind: "ID (C2 IP)", "ID (Phishing Domain)", "ID (Malware Hash)".
    pub fn check_indicator_presence(&self, indicator: &str) -> (r: Vec<String>)
        ensures
            r@.map_values(|s: String| s@) == indicator_hits(self.actor_list(), indicator@),
    {
        let x = chars_of(indicator);
        let mut r: Vec<String> = Vec::new();
        let mut i: usize = 0;
        while i < self.actors.len()
            invariant
                i <= self.actors@.len(),
                x@ == indicator@,
                r@.map_values(|s: String| s@) == indicator_hits(self.actor_list().take(i as int), indicator@),
            decreases self.actors@.len() - i,
        {
            let a = &self.actors[i];
            let ghost before = r@.map_values(|s: String| s@);
            let ghost mut added: Seq<Seq<char>> = Seq::empty();
            if list_has(&a.infrastructure.c2_ips, &x) {
                let mut m = a.actor_id.clone();
                push_str(&mut m, " (C2 IP)");
                let ghost mv = m@;
                r.push(m);
                proof {
                    added = added.push(mv);
                }
            }
            if list_has(&a.infrastructure.phishing_domains, &x) {
                let mut m = a.actor_id.clone();
                push_str(&mut m, " (Phishing Domain)");
                let ghost mv = m@;
                r.push(m);
                proof {
                    added = added.push(mv);
                }
            }
            if list_has(&a.infrastructure.malware_hashes, &x) {
                let mut m = a.actor_id.clone();
                push_str(&mut m, " (Malware Hash)");
                let ghost mv = m@;
                r.push(m);
                proof {
                    added = added.push(mv);
                }
            }
            proof {
                assert(added =~= actor_hits(*a, indicator@));
                assert(r@.map_values(|s: String| s@) =~= before + added);
                assert(self.actor_list().take(i + 1).drop_last() =~= self.actor_list().take(i as int));
                assert(self.actor_list().take(i + 1).last() == *a);
            }
            i = i + 1;
        }
        assert(self.actor_list().take(i as int) =~= self.actor_list());
        r
    }
}

/// A search of the feed, as typed: `country:`, `technique:`, `sector:` or
/// `indicator:` followed by the value.
#[derive(Debug)]
pub enum FeedQuery {
    Country(String),
    Technique(String),
    Sector(String),
    Indicator(String),
    /// Not one of the four forms.
    Unsupported,
}

/// The value after `prefix` when `q` starts with it exactly, else nothing
/// (the prefix is recognised ignoring case, but cut off only as typed).
pub open spec fn after_prefix(q: Seq<char>, prefix: Seq<char>) -> Seq<char> {
    if crate::text::starts_with(q, prefix) {
        q.skip(prefix.len() as int)
    } else {
        Seq::empty()
    }
}

/// What a typed query asks for.
pub open spec fn query_meaning(q: Seq<char>) -> (int, Seq<char>) {
    let low = crate::text::lowercase_of(q);
    if crate::text::starts_with(low, "country:"@) {
        (0, after_prefix(q, "country:"@))
    } else if crate::text::starts_with(low, "technique:"@) {
        (1, after_prefix(q, "technique:"@))
    } else if crate::text::starts_with(low, "sector:"@) {
        (2, after_prefix(q, "sector:"@))
    } else if crate::text::starts_with(low, "indicator:"@) {
        (3, after_prefix(q, "indicator:"@))
    } else {
        (4, Seq::empty())
    }
}

/// The value after `prefix`, when `q` starts with it as typed.
fn cut_prefix(q: &Vec<char>, prefix: &str) -> (r: String)
    ensures
        r@ == after_prefix(q@, prefix@),
{
    let p = chars_of(prefix);
    if crate::text::has_prefix(q, &p) {
        let tail = copy_range(q, p.len(), q.len());
        assert(tail@ =~= q@.skip(p@.len() as int));
        string_of(&tail)
    } else {
        String::new()
    }
}

/// Reads a typed feed search (see `query_meaning`).
pub fn parse_feed_query(query: &str) -> (r: FeedQuery)
    ensures
        match r {
            FeedQuery::Country(v) => query_meaning(query@) == (0int, v@),
            FeedQuery::Technique(v) => query_meaning(query@) == (1int, v@),
            FeedQuery::Sector(v) => query_meaning(query@) == (2int, v@),
            FeedQuery::Indicator(v) => query_meaning(query@) == (3int, v@),
            FeedQuery::Unsupported => query_meaning(query@).0 == 4,
        },
{
    let low_s = crate::text::to_lowercase(query);
    let low = chars_of(low_s.as_str());
    let q = chars_of(query);
    if crate::text::has_prefix(&low, &chars_of("country:")) {
        FeedQuery::Country(cut_prefix(&q, "country:"))
    } else if crate::text::has_prefix(&low, &chars_of("technique:")) {
        FeedQuery::Technique(cut_prefix(&q, "technique:"))
    } else if crate::text::has_prefix(&low, &chars_of("sector:")) {
        FeedQuery::Sector(cut_prefix(&q, "sector:"))
    } else if crate::text::has_prefix(&low, &chars_of("indicator:")) {
        FeedQuery::Indicator(cut_prefix(&q, "indicator:"))
    } else {
        FeedQuery::Unsupported
    }
}

} // verus!
