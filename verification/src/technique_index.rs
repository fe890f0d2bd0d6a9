//! The framework's technique index — for each ATT&CK technique, the actors,
//! scenarios, campaigns, detections and reconnaissance techniques that refer
//! to it — and the detection coverage matrix of the scenarios' stages.

use vstd::prelude::*;
use crate::framework::{
    first_technique, technique_by_id, Campaign, Detection, ReconTechnique, ScenarioSummary, StageSummary, Technique,
    TechniqueEntry, ThreatActor,
};
use crate::keyed::{lemma_store, lookup, unique_keys};
use crate::text::{chars_of, equal_chars, listed, views};

verus! {

broadcast use vstd::string::group_string_axioms;

// ---------------------------------------------------------------------------
// References
// ---------------------------------------------------------------------------

/// The list of an index entry that a reference of kind `k` goes to: 0 actors,
/// 1 scenarios, 2 campaigns, 3 detections, 4 reconnaissance techniques.
pub open spec fn is_kind(k: int) -> bool {
    0 <= k < 5
}

/// A reference `(technique, kind, id)`: the item `id` of the given kind
/// refers to the technique.
pub type Reference = (Seq<char>, int, Seq<char>);

/// The references of the scenarios: each stage's technique, scenario by
/// scenario.
pub open spec fn scenario_refs(list: Seq<ScenarioSummary>) -> Seq<Reference>
    decreases list.len(),
{
    if list.len() == 0 {
        Seq::empty()
    } else {
        scenario_refs(list.drop_last()) + list.last().stages@.map_values(
            |st: StageSummary| (st.technique@, 1int, list.last().id@),
        )
    }
}

/// The references of the detections, one each.
pub open spec fn detection_refs(list: Seq<Detection>) -> Seq<Reference> {
    list.map_values(|d: Detection| (d.technique@, 3int, d.id@))
}

/// The references of the campaigns: each listed technique, campaign by
/// campaign.
pub open spec fn campaign_refs(list: Seq<Campaign>) -> Seq<Reference>
    decreases list.len(),
{
    if list.len() == 0 {
        Seq::empty()
    } else {
        campaign_refs(list.drop_last()) + list.last().techniques@.map_values(
            |t: String| (t@, 2int, list.last().id@),
        )
    }
}

/// The references of the actors: the technique of each characteristic TTP,
/// actor by actor.
pub open spec fn actor_refs(list: Seq<ThreatActor>) -> Seq<Reference>
    decreases list.len(),
{
    if list.len() == 0 {
        Seq::empty()
    } else {
        actor_refs(list.drop_last()) + list.last().characteristic_ttps@.map_values(
            |t: crate::framework::TTP| (t.technique@, 0int, list.last().id@),
        )
    }
}

/// The references of the reconnaissance techniques whose id is an ATT&CK
/// technique: each refers to itself.
pub open spec fn recon_refs(list: Seq<ReconTechnique>, mitre: Seq<Technique>) -> Seq<Reference>
    decreases list.len(),
{
    if list.len() == 0 {
        Seq::empty()
    } else if first_technique(mitre, list.last().id@) is Some {
        recon_refs(list.drop_last(), mitre).push((list.last().id@, 4int, list.last().id@))
    } else {
        recon_refs(list.drop_last(), mitre)
    }
}

/// Every reference of the framework, in the order the index takes them in:
/// scenarios, detections, campaigns, actors, reconnaissance techniques.
pub open spec fn framework_refs(
    scenarios: Seq<ScenarioSummary>,
    detections: Seq<Detection>,
    campaigns: Seq<Campaign>,
    actors: Seq<ThreatActor>,
    recon: Seq<ReconTechnique>,
    mitre: Seq<Technique>,
) -> Seq<Reference> {
    scenario_refs(scenarios) + detection_refs(detections) + campaign_refs(campaigns) + actor_refs(actors)
        + recon_refs(recon, mitre)
}

// ---------------------------------------------------------------------------
// The index
// ---------------------------------------------------------------------------

/// Five empty lists.
pub open spec fn no_lists() -> Seq<Seq<Seq<char>>> {
    Seq::new(5, |i: int| Seq::<Seq<char>>::empty())
}

/// The lists with `x` added to list `k`, unless it is there already.
pub open spec fn add_item(lists: Seq<Seq<Seq<char>>>, k: int, x: Seq<char>) -> Seq<Seq<Seq<char>>> {
    if lists[k].contains(x) {
        lists
    } else {
        lists.update(k, lists[k].push(x))
    }
}

/// The index entry of technique `t` after the references `refs`: the five
/// lists, each holding the ids that refer to `t` in order of first
/// reference; `None` when nothing refers to `t`.
pub open spec fn entry_for(refs: Seq<Reference>, t: Seq<char>) -> Option<Seq<Seq<Seq<char>>>>
    decreases refs.len(),
{
    if refs.len() == 0 {
        None
    } else {
        let prev = entry_for(refs.drop_last(), t);
        if refs.last().0 == t {
            Some(
                add_item(
                    match prev {
                        Some(l) => l,
                        None => no_lists(),
                    },
                    refs.last().1,
                    refs.last().2,
                ),
            )
        } else {
            prev
        }
    }
}

/// The five lists of an index entry.
pub open spec fn entry_lists(e: TechniqueEntry) -> Seq<Seq<Seq<char>>> {
    seq![
        views(e.actors@),
        views(e.scenarios@),
        views(e.campaigns@),
        views(e.detections@),
        views(e.recon_techniques@),
    ]
}

/// An index keyed by technique id.
pub open spec fn index_view(r: Seq<TechniqueEntry>) -> Seq<(Seq<char>, Seq<Seq<Seq<char>>>)> {
    r.map_values(|e: TechniqueEntry| (e.id@, entry_lists(e)))
}

/// The references as plain values.
pub open spec fn refs_view(r: Seq<(String, u8, String)>) -> Seq<Reference> {
    r.map_values(|p: (String, u8, String)| (p.0@, p.1 as int, p.2@))
}

/// Appends `x` unless the list holds it already.
fn push_new(list: &mut Vec<String>, x: &String)
    ensures
        views(final(list)@) == if views(old(list)@).contains(x@) {
            views(old(list)@)
        } else {
            views(old(list)@).push(x@)
        },
{
    if !listed(list, &chars_of(x.as_str())) {
        list.push(x.clone());
        assert(views(list@) =~= views(old(list)@).push(x@));
    }
}

/// The position of the entry of a technique, if any.
fn entry_position(index: &Vec<TechniqueEntry>, technique: &Vec<char>) -> (pos: Option<usize>)
    ensures
        match pos {
            Some(j) => j < index@.len() && index@[j as int].id@ == technique@,
            None => forall|m: int| 0 <= m < index@.len() ==> (#[trigger] index_view(index@)[m]).0 != technique@,
        },
{
    let mut j: usize = 0;
    while j < index.len()
        invariant
            j <= index@.len(),
            forall|m: int| 0 <= m < j ==> (#[trigger] index_view(index@)[m]).0 != technique@,
        decreases index@.len() - j,
    {
        if equal_chars(&chars_of(index[j].id.as_str()), technique) {
            return Some(j);
        }
        j = j + 1;
    }
    None
}

/// Adds `item` to list `kind` of the entry of `technique`, creating the
/// entry if there is none.
fn add_reference(index: &mut Vec<TechniqueEntry>, technique: &String, kind: u8, item: &String)
    requires
        unique_keys(index_view(old(index)@)),
        kind < 5,
    ensures
        unique_keys(index_view(final(index)@)),
        forall|t: Seq<char>|
            #[trigger] lookup(index_view(final(index)@), t) == if t == technique@ {
                Some(
                    add_item(
                        match lookup(index_view(old(index)@), t) {
                            Some(l) => l,
                            None => no_lists(),
                        },
                        kind as int,
                        item@,
                    ),
                )
            } else {
                lookup(index_view(old(index)@), t)
            },
{
    let ghost before = index_view(index@);
    let pos = entry_position(index, &chars_of(technique.as_str()));
    if let Some(j) = pos {
        proof {
            crate::keyed::lemma_lookup_at(before, j as int);
        }
        let mut e = index.remove(j);
        let ghost old_lists = entry_lists(e);
        if kind == 0 {
            push_new(&mut e.actors, item);
        } else if kind == 1 {
            push_new(&mut e.scenarios, item);
        } else if kind == 2 {
            push_new(&mut e.campaigns, item);
        } else if kind == 3 {
            push_new(&mut e.detections, item);
        } else {
            push_new(&mut e.recon_techniques, item);
        }
        let ghost new_lists = add_item(old_lists, kind as int, item@);
        assert(entry_lists(e) =~~= new_lists);
        index.insert(j, e);
        proof {
            let after = index_view(index@);
            assert(index@ =~= old(index)@.update(j as int, e));
            assert(after =~~= before.update(j as int, (technique@, new_lists)));
            lemma_store(before, after, j as int, technique@, new_lists);
        }
    } else {
        proof {
            crate::keyed::lemma_lookup_absent(before, technique@);
        }
        let mut e = TechniqueEntry {
            id: technique.clone(),
            actors: Vec::new(),
            scenarios: Vec::new(),
            campaigns: Vec::new(),
            detections: Vec::new(),
            recon_techniques: Vec::new(),
        };
        assert(entry_lists(e) =~~= no_lists());
        if kind == 0 {
            push_new(&mut e.actors, item);
        } else if kind == 1 {
            push_new(&mut e.scenarios, item);
        } else if kind == 2 {
            push_new(&mut e.campaigns, item);
        } else if kind == 3 {
            push_new(&mut e.detections, item);
        } else {
            push_new(&mut e.recon_techniques, item);
        }
        let ghost new_lists = add_item(no_lists(), kind as int, item@);
        assert(entry_lists(e) =~~= new_lists);
        index.push(e);
        proof {
            let after = index_view(index@);
            assert(after =~~= before.push((technique@, new_lists)));
            lemma_store(before, after, before.len() as int, technique@, new_lists);
        }
    }
}

/// Every reference of the framework (see `framework_refs`).
fn collect_refs(
    scenarios: &Vec<ScenarioSummary>,
    detections: &Vec<Detection>,
    campaigns: &Vec<Campaign>,
    actors: &Vec<ThreatActor>,
    recon: &Vec<ReconTechnique>,
    mitre: &Vec<Technique>,
) -> (r: Vec<(String, u8, String)>)
    ensures
        refs_view(r@) == framework_refs(scenarios@, detections@, campaigns@, actors@, recon@, mitre@),
        forall|i: int| 0 <= i < r@.len() ==> (#[trigger] r@[i]).1 < 5,
{
    let mut r: Vec<(String, u8, String)> = Vec::new();
    let mut i: usize = 0;
    while i < scenarios.len()
        invariant
            i <= scenarios@.len(),
            refs_view(r@) == scenario_refs(scenarios@.take(i as int)),
            forall|m: int| 0 <= m < r@.len() ==> (#[trigger] r@[m]).1 < 5,
        decreases scenarios@.len() - i,
    {
        let s = &scenarios[i];
        let ghost base = refs_view(r@);
        let ghost add = s.stages@.map_values(|st: StageSummary| (st.technique@, 1int, s.id@));
        let mut j: usize = 0;
        while j < s.stages.len()
            invariant
                j <= s.stages@.len(),
                add == s.stages@.map_values(|st: StageSummary| (st.technique@, 1int, s.id@)),
                refs_view(r@) == base + add.take(j as int),
                forall|m: int| 0 <= m < r@.len() ==> (#[trigger] r@[m]).1 < 5,
            decreases s.stages@.len() - j,
        {
            let ghost prev = r@;
            r.push((s.stages[j].technique.clone(), 1, s.id.clone()));
            assert(refs_view(r@) =~= refs_view(prev).push(add[j as int]));
            assert(add.take(j + 1) =~= add.take(j as int).push(add[j as int]));
            j = j + 1;
        }
        assert(add.take(j as int) =~= add);
        assert(scenarios@.take(i + 1).drop_last() =~= scenarios@.take(i as int));
        i = i + 1;
    }
    assert(scenarios@.take(i as int) =~= scenarios@);
    let ghost after_scenarios = refs_view(r@);
    let mut i: usize = 0;
    while i < detections.len()
        invariant
            i <= detections@.len(),
            refs_view(r@) == after_scenarios + detection_refs(detections@.take(i as int)),
            forall|m: int| 0 <= m < r@.len() ==> (#[trigger] r@[m]).1 < 5,
        decreases detections@.len() - i,
    {
        let ghost prev = r@;
        r.push((detections[i].technique.clone(), 3, detections[i].id.clone()));
        assert(refs_view(r@) =~= refs_view(prev).push((detections@[i as int].technique@, 3int, detections@[i as int].id@)));
        assert(detection_refs(detections@.take(i + 1)) =~= detection_refs(detections@.take(i as int)).push(
            (detections@[i as int].technique@, 3int, detections@[i as int].id@),
        ));
        i = i + 1;
    }
    assert(detections@.take(i as int) =~= detections@);
    let ghost after_detections = refs_view(r@);
    let mut i: usize = 0;
    while i < campaigns.len()
        invariant
            i <= campaigns@.len(),
            refs_view(r@) == after_detections + campaign_refs(campaigns@.take(i as int)),
            forall|m: int| 0 <= m < r@.len() ==> (#[trigger] r@[m]).1 < 5,
        decreases campaigns@.len() - i,
    {
        let c = &campaigns[i];
        let ghost base = refs_view(r@);
        let ghost add = c.techniques@.map_values(|t: String| (t@, 2int, c.id@));
        let mut j: usize = 0;
        while j < c.techniques.len()
            invariant
                j <= c.techniques@.len(),
                add == c.techniques@.map_values(|t: String| (t@, 2int, c.id@)),
                refs_view(r@) == base + add.take(j as int),
                forall|m: int| 0 <= m < r@.len() ==> (#[trigger] r@[m]).1 < 5,
            decreases c.techniques@.len() - j,
        {
            let ghost prev = r@;
            r.push((c.techniques[j].clone(), 2, c.id.clone()));
            assert(refs_view(r@) =~= refs_view(prev).push(add[j as int]));
            assert(add.take(j + 1) =~= add.take(j as int).push(add[j as int]));
            j = j + 1;
        }
        assert(add.take(j as int) =~= add);
        assert(campaigns@.take(i + 1).drop_last() =~= campaigns@.take(i as int));
        i = i + 1;
    }
    assert(campaigns@.take(i as int) =~= campaigns@);
    let ghost after_campaigns = refs_view(r@);
    let mut i: usize = 0;
    while i < actors.len()
        invariant
            i <= actors@.len(),
            refs_view(r@) == after_campaigns + actor_refs(actors@.take(i as int)),
            forall|m: int| 0 <= m < r@.len() ==> (#[trigger] r@[m]).1 < 5,
        decreases actors@.len() - i,
    {
        let a = &actors[i];
        let ghost base = refs_view(r@);
        let ghost add = a.characteristic_ttps@.map_values(|t: crate::framework::TTP| (t.technique@, 0int, a.id@));
        let mut j: usize = 0;
        while j < a.characteristic_ttps.len()
            invariant
                j <= a.characteristic_ttps@.len(),
                add == a.characteristic_ttps@.map_values(|t: crate::framework::TTP| (t.technique@, 0int, a.id@)),
                refs_view(r@) == base + add.take(j as int),
                forall|m: int| 0 <= m < r@.len() ==> (#[trigger] r@[m]).1 < 5,
            decreases a.characteristic_ttps@.len() - j,
        {
            let ghost prev = r@;
            r.push((a.characteristic_ttps[j].technique.clone(), 0, a.id.clone()));
            assert(refs_view(r@) =~= refs_view(prev).push(add[j as int]));
            assert(add.take(j + 1) =~= add.take(j as int).push(add[j as int]));
            j = j + 1;
        }
        assert(add.take(j as int) =~= add);
        assert(actors@.take(i + 1).drop_last() =~= actors@.take(i as int));
        i = i + 1;
    }
    assert(actors@.take(i as int) =~= actors@);
    let ghost after_actors = refs_view(r@);
    let mut i: usize = 0;
    while i < recon.len()
        invariant
            i <= recon@.len(),
            refs_view(r@) == after_actors + recon_refs(recon@.take(i as int), mitre@),
            forall|m: int| 0 <= m < r@.len() ==> (#[trigger] r@[m]).1 < 5,
        decreases recon@.len() - i,
    {
        assert(recon@.take(i + 1).drop_last() =~= recon@.take(i as int));
        let ghost prev = r@;
        if technique_by_id(mitre, recon[i].id.as_str()).is_some() {
            r.push((recon[i].id.clone(), 4, recon[i].id.clone()));
            assert(refs_view(r@) =~= refs_view(prev).push((recon@[i as int].id@, 4int, recon@[i as int].id@)));
        }
        i = i + 1;
    }
    assert(recon@.take(i as int) =~= recon@);
    r
}

/// The technique index: one entry per technique that anything refers to,
/// with the ids of the actors, scenarios, campaigns, detections and
/// reconnaissance techniques referring to it, each list in order of first
/// reference and without repeats. A reconnaissance technique counts only when
/// its id is an ATT&CK technique of `mitre`.
pub fn build_technique_index(
    scenarios: &Vec<ScenarioSummary>,
    detections: &Vec<Detection>,
    campaigns: &Vec<Campaign>,
    actors: &Vec<ThreatActor>,
    recon: &Vec<ReconTechnique>,
    mitre: &Vec<Technique>,
) -> (r: Vec<TechniqueEntry>)
    ensures
        unique_keys(index_view(r@)),
        forall|t: Seq<char>|
            #[trigger] lookup(index_view(r@), t) == entry_for(
                framework_refs(scenarios@, detections@, campaigns@, actors@, recon@, mitre@),
                t,
            ),
{
    let refs = collect_refs(scenarios, detections, campaigns, actors, recon, mitre);
    let ghost all = refs_view(refs@);
    let mut index: Vec<TechniqueEntry> = Vec::new();
    let mut i: usize = 0;
    while i < refs.len()
        invariant
            i <= refs@.len(),
            all == refs_view(refs@),
            forall|m: int| 0 <= m < refs@.len() ==> (#[trigger] refs@[m]).1 < 5,
            unique_keys(index_view(index@)),
            forall|t: Seq<char>| #[trigger] lookup(index_view(index@), t) == entry_for(all.take(i as int), t),
        decreases refs@.len() - i,
    {
        let ghost before = index_view(index@);
        assert(refs@[i as int].1 < 5);
        add_reference(&mut index, &refs[i].0, refs[i].1, &refs[i].2);
        proof {
            let next = all.take(i + 1);
            assert(next.drop_last() =~= all.take(i as int));
            assert(next.last() == all[i as int]);
            assert forall|t: Seq<char>| #[trigger] lookup(index_view(index@), t) == entry_for(next, t) by {
                assert(lookup(before, t) == entry_for(all.take(i as int), t));
            }
        }
        i = i + 1;
    }
    assert(all.take(i as int) =~= all);
    index
}

// ---------------------------------------------------------------------------
// Coverage
// ---------------------------------------------------------------------------

/// How one stage of a scenario is covered by detections.
#[derive(Debug, Clone)]
pub struct CoverageRow {
    pub scenario_id: String,
    pub stage_id: String,
    pub technique: String,
    pub detection_coverage: Vec<String>,
    /// 100 when some detection covers the technique, 0 otherwise.
    pub coverage_percent: u32,
}

/// The ids of the detections mapped to exactly technique `t`, in order.
pub open spec fn detection_ids_for(dets: Seq<Detection>, t: Seq<char>) -> Seq<Seq<char>>
    decreases dets.len(),
{
    if dets.len() == 0 {
        Seq::empty()
    } else if dets.last().technique@ == t {
        detection_ids_for(dets.drop_last(), t).push(dets.last().id@)
    } else {
        detection_ids_for(dets.drop_last(), t)
    }
}

/// A coverage row as plain values.
pub type RowView = (Seq<char>, Seq<char>, Seq<char>, Seq<Seq<char>>, u32);

/// The row of a stage of scenario `scenario_id`.
pub open spec fn stage_row(scenario_id: Seq<char>, st: StageSummary, dets: Seq<Detection>) -> RowView {
    let ids = detection_ids_for(dets, st.technique@);
    (scenario_id, st.stage_id@, st.technique@, ids, if ids.len() > 0 { 100u32 } else { 0u32 })
}

/// The rows of every stage, scenario by scenario.
pub open spec fn coverage_rows(scenarios: Seq<ScenarioSummary>, dets: Seq<Detection>) -> Seq<RowView>
    decreases scenarios.len(),
{
    if scenarios.len() == 0 {
        Seq::empty()
    } else {
        coverage_rows(scenarios.drop_last(), dets) + scenarios.last().stages@.map_values(
            |st: StageSummary| stage_row(scenarios.last().id@, st, dets),
        )
    }
}

/// A row as plain values.
pub open spec fn row_view(r: CoverageRow) -> RowView {
    (r.scenario_id@, r.stage_id@, r.technique@, views(r.detection_coverage@), r.coverage_percent)
}

/// The ids of the detections mapped to exactly this technique.
fn detection_ids(dets: &Vec<Detection>, technique: &String) -> (r: Vec<String>)
    ensures
        views(r@) == detection_ids_for(dets@, technique@),
{
    let want = chars_of(technique.as_str());
    let mut r: Vec<String> = Vec::new();
    let mut i: usize = 0;
    while i < dets.len()
        invariant
            i <= dets@.len(),
            want@ == technique@,
            views(r@) == detection_ids_for(dets@.take(i as int), technique@),
        decreases dets@.len() - i,
    {
        assert(dets@.take(i + 1).drop_last() =~= dets@.take(i as int));
        if equal_chars(&chars_of(dets[i].technique.as_str()), &want) {
            let ghost prev = r@;
            r.push(dets[i].id.clone());
            assert(views(r@) =~= views(prev).push(dets@[i as int].id@));
        }
        i = i + 1;
    }
    assert(dets@.take(i as int) =~= dets@);
    r
}

/// The coverage matrix: for every stage of every scenario, the detections
/// mapped to its technique and whether there is any.
pub fn build_coverage_matrix(scenarios: &Vec<ScenarioSummary>, detections: &Vec<Detection>) -> (r: Vec<CoverageRow>)
    ensures
        r@.map_values(|row: CoverageRow| row_view(row)) == coverage_rows(scenarios@, detections@),
{
    let mut r: Vec<CoverageRow> = Vec::new();
    let mut i: usize = 0;
    while i < scenarios.len()
        invariant
            i <= scenarios@.len(),
            r@.map_values(|row: CoverageRow| row_view(row)) == coverage_rows(scenarios@.take(i as int), detections@),
        decreases scenarios@.len() - i,
    {
        let s = &scenarios[i];
        let ghost base = r@.map_values(|row: CoverageRow| row_view(row));
        let ghost add = s.stages@.map_values(|st: StageSummary| stage_row(s.id@, st, detections@));
        let mut j: usize = 0;
        while j < s.stages.len()
            invariant
                j <= s.stages@.len(),
                add == s.stages@.map_values(|st: StageSummary| stage_row(s.id@, st, detections@)),
                r@.map_values(|row: CoverageRow| row_view(row)) == base + add.take(j as int),
            decreases s.stages@.len() - j,
        {
            let st = &s.stages[j];
            let ids = detection_ids(detections, &st.technique);
            let pct: u32 = if ids.len() > 0 { 100 } else { 0 };
            let row = CoverageRow {
                scenario_id: s.id.clone(),
                stage_id: st.stage_id.clone(),
                technique: st.technique.clone(),
                detection_coverage: ids,
                coverage_percent: pct,
            };
            assert(row_view(row) == add[j as int]);
            let ghost prev = r@;
            r.push(row);
            assert(r@.map_values(|row: CoverageRow| row_view(row)) =~= prev.map_values(
                |row: CoverageRow| row_view(row),
            ).push(add[j as int]));
            assert(add.take(j + 1) =~= add.take(j as int).push(add[j as int]));
            j = j + 1;
        }
        assert(add.take(j as int) =~= add);
        assert(scenarios@.take(i + 1).drop_last() =~= scenarios@.take(i as int));
        i = i + 1;
    }
    assert(scenarios@.take(i as int) =~= scenarios@);
    r
}


// ---------------------------------------------------------------------------
// Laws of the index
// ---------------------------------------------------------------------------

/// Every reference names one of the five lists.
pub open spec fn kinds_valid(refs: Seq<Reference>) -> bool {
    forall|i: int| 0 <= i < refs.len() ==> is_kind(#[trigger] refs[i].1)
}

/// A technique has an index entry exactly when something refers to it; the
/// entry has its five lists, none holding an id twice, and an id stands in
/// list `k` exactly when a reference of kind `k` from that id to the
/// technique exists.
pub proof fn lemma_index_entries(refs: Seq<Reference>, t: Seq<char>, k: int, x: Seq<char>)
    requires
        kinds_valid(refs),
        is_kind(k),
    ensures
        entry_for(refs, t) is Some <==> exists|i: int| 0 <= i < refs.len() && (#[trigger] refs[i]).0 == t,
        entry_for(refs, t) matches Some(l) ==> {
            &&& l.len() == 5
            &&& forall|j: int| 0 <= j < 5 ==> (#[trigger] l[j]).no_duplicates()
            &&& l[k].contains(x) <==> refs.contains((t, k, x))
        },
    decreases refs.len(),
{
    if refs.len() > 0 {
        let d = refs.drop_last();
        assert(kinds_valid(d)) by {
            assert forall|i: int| 0 <= i < d.len() implies is_kind(#[trigger] d[i].1) by {
                assert(d[i] == refs[i]);
            }
        }
        lemma_index_entries(d, t, k, x);
        let last = refs.last();
        assert(refs[refs.len() - 1] == last);
        assert(is_kind(last.1));
        assert forall|i: int| 0 <= i < d.len() implies d[i] == refs[i] by {}
        if exists|i: int| 0 <= i < d.len() && (#[trigger] d[i]).0 == t {
            let i = choose|i: int| 0 <= i < d.len() && (#[trigger] d[i]).0 == t;
            assert(refs[i].0 == t);
        }
        assert(refs.contains((t, k, x)) <==> d.contains((t, k, x)) || last == (t, k, x)) by {
            if refs.contains((t, k, x)) {
                let i = choose|i: int| 0 <= i < refs.len() && refs[i] == (t, k, x);
                if i < d.len() {
                    assert(d[i] == refs[i]);
                }
            }
            if d.contains((t, k, x)) {
                let i = choose|i: int| 0 <= i < d.len() && d[i] == (t, k, x);
                assert(refs[i] == d[i]);
            }
        }
        if last.0 == t {
            let base = match entry_for(d, t) {
                Some(l) => l,
                None => no_lists(),
            };
            assert(base.len() == 5);
            assert forall|j: int| 0 <= j < 5 implies (#[trigger] base[j]).no_duplicates() by {
                if entry_for(d, t) is None {
                    assert(base[j] =~= Seq::<Seq<char>>::empty());
                }
            }
            assert(base[k].contains(x) <==> d.contains((t, k, x))) by {
                if entry_for(d, t) is None {
                    assert(base[k] =~= Seq::<Seq<char>>::empty());
                    if d.contains((t, k, x)) {
                        let i = choose|i: int| 0 <= i < d.len() && d[i] == (t, k, x);
                        assert(d[i].0 == t);
                    }
                }
            }
            let l = add_item(base, last.1, last.2);
            if !base[last.1].contains(last.2) {
                let p = base[last.1].push(last.2);
                assert(p.no_duplicates()) by {
                    assert forall|a: int, b: int| 0 <= a < b < p.len() implies p[a] != p[b] by {
                        if b == p.len() - 1 {
                            assert(base[last.1][a] == p[a]);
                        } else {
                            assert(base[last.1][a] == p[a] && base[last.1][b] == p[b]);
                        }
                    }
                }
                assert forall|j: int| 0 <= j < 5 implies (#[trigger] l[j]).no_duplicates() by {
                    if j != last.1 {
                        assert(l[j] == base[j]);
                    }
                }
                if last.1 == k {
                    assert(l[k].contains(x) <==> base[k].contains(x) || last.2 == x) by {
                        if l[k].contains(x) {
                            let i = choose|i: int| 0 <= i < l[k].len() && l[k][i] == x;
                            if i < base[k].len() {
                                assert(base[k][i] == l[k][i]);
                            }
                        }
                        if base[k].contains(x) {
                            let i = choose|i: int| 0 <= i < base[k].len() && base[k][i] == x;
                            assert(l[k][i] == base[k][i]);
                        }
                        if last.2 == x {
                            assert(l[k][l[k].len() - 1] == x);
                        }
                    }
                } else {
                    assert(l[k] == base[k]);
                }
            } else {
                if last.1 == k && last.2 == x {
                    assert(base[k].contains(x));
                }
            }
        }
    }
}


/// References joined end to end keep naming valid lists.
proof fn lemma_kinds_concat(a: Seq<Reference>, b: Seq<Reference>)
    requires
        kinds_valid(a),
        kinds_valid(b),
    ensures
        kinds_valid(a + b),
{
    assert forall|i: int| 0 <= i < (a + b).len() implies is_kind(#[trigger] (a + b)[i].1) by {
        if i < a.len() {
            assert((a + b)[i] == a[i]);
        } else {
            assert((a + b)[i] == b[i - a.len()]);
        }
    }
}

/// The references of the framework all name one of the five lists, so the
/// laws of `lemma_index_entries` hold of every technique index.
pub proof fn lemma_framework_refs_valid(
    scenarios: Seq<ScenarioSummary>,
    detections: Seq<Detection>,
    campaigns: Seq<Campaign>,
    actors: Seq<ThreatActor>,
    recon: Seq<ReconTechnique>,
    mitre: Seq<Technique>,
)
    ensures
        kinds_valid(framework_refs(scenarios, detections, campaigns, actors, recon, mitre)),
{
    lemma_scenario_refs_valid(scenarios);
    lemma_campaign_refs_valid(campaigns);
    lemma_actor_refs_valid(actors);
    lemma_recon_refs_valid(recon, mitre);
    assert(kinds_valid(detection_refs(detections)));
    lemma_kinds_concat(scenario_refs(scenarios), detection_refs(detections));
    lemma_kinds_concat(scenario_refs(scenarios) + detection_refs(detections), campaign_refs(campaigns));
    lemma_kinds_concat(
        scenario_refs(scenarios) + detection_refs(detections) + campaign_refs(campaigns),
        actor_refs(actors),
    );
    lemma_kinds_concat(
        scenario_refs(scenarios) + detection_refs(detections) + campaign_refs(campaigns) + actor_refs(actors),
        recon_refs(recon, mitre),
    );
}

proof fn lemma_scenario_refs_valid(list: Seq<ScenarioSummary>)
    ensures
        kinds_valid(scenario_refs(list)),
    decreases list.len(),
{
    if list.len() > 0 {
        lemma_scenario_refs_valid(list.drop_last());
        let add = list.last().stages@.map_values(|st: StageSummary| (st.technique@, 1int, list.last().id@));
        assert(kinds_valid(add));
        lemma_kinds_concat(scenario_refs(list.drop_last()), add);
    }
}

proof fn lemma_campaign_refs_valid(list: Seq<Campaign>)
    ensures
        kinds_valid(campaign_refs(list)),
    decreases list.len(),
{
    if list.len() > 0 {
        lemma_campaign_refs_valid(list.drop_last());
        let add = list.last().techniques@.map_values(|t: String| (t@, 2int, list.last().id@));
        assert(kinds_valid(add));
        lemma_kinds_concat(campaign_refs(list.drop_last()), add);
    }
}

proof fn lemma_actor_refs_valid(list: Seq<ThreatActor>)
    ensures
        kinds_valid(actor_refs(list)),
    decreases list.len(),
{
    if list.len() > 0 {
        lemma_actor_refs_valid(list.drop_last());
        let add = list.last().characteristic_ttps@.map_values(
            |t: crate::framework::TTP| (t.technique@, 0int, list.last().id@),
        );
        assert(kinds_valid(add));
        lemma_kinds_concat(actor_refs(list.drop_last()), add);
    }
}

proof fn lemma_recon_refs_valid(list: Seq<ReconTechnique>, mitre: Seq<Technique>)
    ensures
        kinds_valid(recon_refs(list, mitre)),
    decreases list.len(),
{
    if list.len() > 0 {
        lemma_recon_refs_valid(list.drop_last(), mitre);
        let p = recon_refs(list.drop_last(), mitre);
        if first_technique(mitre, list.last().id@) is Some {
            assert forall|i: int| 0 <= i < p.push((list.last().id@, 4int, list.last().id@)).len() implies is_kind(
                #[trigger] p.push((list.last().id@, 4int, list.last().id@))[i].1,
            ) by {
                if i < p.len() {
                    assert(p.push((list.last().id@, 4int, list.last().id@))[i] == p[i]);
                }
            }
        }
    }
}

} // verus!
