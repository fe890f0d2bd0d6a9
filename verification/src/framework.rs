//! Records of the red-team framework: detections, actors and their TTPs,
//! reconnaissance techniques, self-audit controls, campaigns, the MITRE
//! ATT&CK tactics and techniques, and the framework index.

use vstd::prelude::*;
use crate::catalog::{is_ranking, rank_positions};
use crate::text::{chars_of, equal_chars, listed, views};

verus! {

broadcast use vstd::string::group_string_axioms;

/// A detection of the framework's detection mapping.
#[derive(Debug, Clone)]
pub struct Detection {
    pub id: String,
    pub tier: String,
    pub technique: String,
    pub tactic: String,
    pub detection_name: String,
    pub data_source: String,
    pub query: String,
    pub tuning: Option<String>,
    pub associated_campaigns: Vec<String>,
}

/// A threat actor of the framework.
#[derive(Debug, Clone)]
pub struct ThreatActor {
    pub id: String,
    pub aliases: Vec<String>,
    pub characteristic_ttps: Vec<TTP>,
    pub target_sectors: Vec<String>,
    pub sophistication: String,
    pub emulation_difficulty: String,
}

/// A tactic, technique and procedure of an actor.
#[derive(Debug, Clone)]
pub struct TTP {
    pub tactic: String,
    pub technique: String,
    pub name: String,
}

/// A reconnaissance technique.
#[derive(Debug, Clone)]
pub struct ReconTechnique {
    pub id: String,
    pub technique_name: String,
    pub category: String,
    pub footprint_risk: String,
    pub description: Option<String>,
}

/// A self-audit control.
#[derive(Debug, Clone)]
pub struct SelfAudit {
    pub id: String,
    pub technique_name: String,
    pub detection_id: String,
    pub remediation: Option<String>,
}

/// A campaign.
#[derive(Debug, Clone)]
pub struct Campaign {
    pub id: String,
    pub name: String,
    pub associated_actors: Vec<String>,
    pub techniques: Vec<String>,
}

/// Counts of the framework index.
#[derive(Debug, Clone)]
pub struct IndexMetadata {
    pub generated: String,
    pub framework_version: String,
    pub total_techniques: usize,
    pub total_actors: usize,
    pub total_scenarios: usize,
    pub total_detections: usize,
    pub total_drills: usize,
}

/// Where one technique appears in the framework.
#[derive(Debug, Clone)]
pub struct TechniqueEntry {
    pub id: String,
    pub actors: Vec<String>,
    pub scenarios: Vec<String>,
    pub campaigns: Vec<String>,
    pub detections: Vec<String>,
    pub recon_techniques: Vec<String>,
}

/// The MITRE ATT&CK tactics and techniques.
#[derive(Debug, Clone)]
pub struct MitreFramework {
    pub tactics: Vec<Tactic>,
    pub techniques: Vec<Technique>,
}

/// A MITRE ATT&CK tactic.
#[derive(Debug, Clone)]
pub struct Tactic {
    pub id: String,
    pub name: String,
}

/// A MITRE ATT&CK technique and its tactic.
#[derive(Debug, Clone)]
pub struct Technique {
    pub id: String,
    pub name: String,
    pub tactic: String,
}

/// When and for which scenario a report was generated.
#[derive(Debug, Clone)]
pub struct ReportMetadata {
    pub generated: String,
    pub scenario_id: String,
    pub status: String,
}

/// The detections mapped to exactly this technique, in order.
pub open spec fn detections_matching(list: Seq<Detection>, technique: Seq<char>) -> Seq<Detection> {
    list.filter(|d: Detection| d.technique@ == technique)
}

/// The techniques of exactly this tactic, in order.
pub open spec fn techniques_matching(list: Seq<Technique>, tactic: Seq<char>) -> Seq<Technique> {
    list.filter(|t: Technique| t.tactic@ == tactic)
}

/// The first technique with this id.
pub open spec fn first_technique(list: Seq<Technique>, id: Seq<char>) -> Option<int> {
    if exists|i: int| 0 <= i < list.len() && list[i].id@ == id {
        Some(choose|i: int| 0 <= i < list.len() && list[i].id@ == id && forall|j: int| 0 <= j < i ==> list[j].id@ != id)
    } else {
        None
    }
}

/// The detections mapped to exactly this technique.
pub fn detections_for_technique(list: Vec<Detection>, technique: &str) -> (r: Vec<Detection>)
    ensures
        r@ == detections_matching(list@, technique@),
{
    let want = chars_of(technique);
    let ghost all = list@;
    let ghost pred = |d: Detection| d.technique@ == technique@;
    let mut rest = list;
    let mut r: Vec<Detection> = Vec::new();
    let ghost mut i: int = 0;
    assert(all.take(0).filter(pred) =~= Seq::<Detection>::empty());
    while rest.len() > 0
        invariant
            0 <= i <= all.len(),
            rest@ == all.skip(i),
            want@ == technique@,
            pred == (|d: Detection| d.technique@ == technique@),
            r@ == all.take(i).filter(pred),
        decreases rest@.len(),
    {
        let ghost old_rest = rest@;
        assert(i < all.len());
        let d = rest.remove(0);
        proof {
            assert(d == all[i]);
            assert(rest@ =~= all.skip(i + 1));
            all.take(i).lemma_filter_push(all[i], pred);
            assert(all.take(i + 1) =~= all.take(i).push(all[i]));
        }
        if equal_chars(&chars_of(d.technique.as_str()), &want) {
            r.push(d);
        }
        proof {
            i = i + 1;
        }
    }
    assert(all.take(i) =~= all);
    r
}

/// The techniques of exactly this tactic.
pub fn techniques_by_tactic(list: Vec<Technique>, tactic: &str) -> (r: Vec<Technique>)
    ensures
        r@ == techniques_matching(list@, tactic@),
{
    let want = chars_of(tactic);
    let ghost all = list@;
    let ghost pred = |t: Technique| t.tactic@ == tactic@;
    let mut rest = list;
    let mut r: Vec<Technique> = Vec::new();
    let ghost mut i: int = 0;
    assert(all.take(0).filter(pred) =~= Seq::<Technique>::empty());
    while rest.len() > 0
        invariant
            0 <= i <= all.len(),
            rest@ == all.skip(i),
            want@ == tactic@,
            pred == (|t: Technique| t.tactic@ == tactic@),
            r@ == all.take(i).filter(pred),
        decreases rest@.len(),
    {
        assert(i < all.len());
        let t = rest.remove(0);
        proof {
            assert(t == all[i]);
            assert(rest@ =~= all.skip(i + 1));
            all.take(i).lemma_filter_push(all[i], pred);
            assert(all.take(i + 1) =~= all.take(i).push(all[i]));
        }
        if equal_chars(&chars_of(t.tactic.as_str()), &want) {
            r.push(t);
        }
        proof {
            i = i + 1;
        }
    }
    assert(all.take(i) =~= all);
    r
}

/// The first technique with this id, if any.
pub fn technique_by_id<'a>(list: &'a Vec<Technique>, technique_id: &str) -> (r: Option<&'a Technique>)
    ensures
        match first_technique(list@, technique_id@) {
            Some(i) => r matches Some(t) && *t == list@[i],
            None => r is None,
        },
{
    let want = chars_of(technique_id);
    let mut i: usize = 0;
    while i < list.len()
        invariant
            i <= list@.len(),
            want@ == technique_id@,
            forall|j: int| 0 <= j < i ==> list@[j].id@ != technique_id@,
        decreases list@.len() - i,
    {
        if equal_chars(&chars_of(list[i].id.as_str()), &want) {
            proof {
                let c = choose|c: int|
                    0 <= c < list@.len() && list@[c].id@ == technique_id@ && forall|j: int|
                        0 <= j < c ==> list@[j].id@ != technique_id@;
                if c < i {
                } else if c > i {
                }
            }
            return Some(&list[i]);
        }
        i = i + 1;
    }
    None
}


/// One stage of an attack scenario: the parts that the framework queries read.
#[derive(Debug, Clone)]
pub struct StageSummary {
    pub stage_id: String,
    pub tactic: String,
    pub technique: String,
}

/// An attack scenario and its stages: the parts that the framework queries
/// read.
#[derive(Debug, Clone)]
pub struct ScenarioSummary {
    pub id: String,
    pub name: String,
    pub stages: Vec<StageSummary>,
}

/// Some stage of the scenario uses exactly this technique.
pub open spec fn scenario_uses(s: ScenarioSummary, technique: Seq<char>) -> bool {
    exists|i: int| 0 <= i < s.stages@.len() && (#[trigger] s.stages@[i]).technique@ == technique
}

/// The scenarios with a stage using exactly this technique, in order.
pub open spec fn scenarios_using(list: Seq<ScenarioSummary>, technique: Seq<char>) -> Seq<ScenarioSummary> {
    list.filter(|s: ScenarioSummary| scenario_uses(s, technique))
}

/// The campaigns listing exactly this technique, in order.
pub open spec fn campaigns_using(list: Seq<Campaign>, technique: Seq<char>) -> Seq<Campaign> {
    list.filter(|c: Campaign| views(c.techniques@).contains(technique))
}

/// The actors targeting exactly this sector, in order.
pub open spec fn actors_targeting(list: Seq<ThreatActor>, sector: Seq<char>) -> Seq<ThreatActor> {
    list.filter(|a: ThreatActor| views(a.target_sectors@).contains(sector))
}

/// The position of the first actor with this id.
pub open spec fn first_actor(list: Seq<ThreatActor>, id: Seq<char>) -> Option<int> {
    if exists|i: int| 0 <= i < list.len() && list[i].id@ == id {
        Some(choose|i: int| 0 <= i < list.len() && list[i].id@ == id && forall|j: int| 0 <= j < i ==> list[j].id@ != id)
    } else {
        None
    }
}

/// Whether some stage of the scenario uses exactly this technique.
fn uses_technique(s: &ScenarioSummary, want: &Vec<char>) -> (r: bool)
    ensures
        r == scenario_uses(*s, want@),
{
    let mut i: usize = 0;
    while i < s.stages.len()
        invariant
            i <= s.stages@.len(),
            forall|j: int| 0 <= j < i ==> (#[trigger] s.stages@[j]).technique@ != want@,
        decreases s.stages@.len() - i,
    {
        if equal_chars(&chars_of(s.stages[i].technique.as_str()), want) {
            return true;
        }
        i = i + 1;
    }
    false
}

/// The scenarios with a stage using exactly this technique.
pub fn scenarios_for_technique(list: Vec<ScenarioSummary>, technique: &str) -> (r: Vec<ScenarioSummary>)
    ensures
        r@ == scenarios_using(list@, technique@),
{
    let want = chars_of(technique);
    let ghost all = list@;
    let ghost pred = |s: ScenarioSummary| scenario_uses(s, technique@);
    let mut rest = list;
    let mut r: Vec<ScenarioSummary> = Vec::new();
    let ghost mut i: int = 0;
    assert(all.take(0).filter(pred) =~= Seq::<ScenarioSummary>::empty());
    while rest.len() > 0
        invariant
            0 <= i <= all.len(),
            rest@ == all.skip(i),
            want@ == technique@,
            pred == (|s: ScenarioSummary| scenario_uses(s, technique@)),
            r@ == all.take(i).filter(pred),
        decreases rest@.len(),
    {
        assert(i < all.len());
        let s = rest.remove(0);
        proof {
            assert(s == all[i]);
            assert(rest@ =~= all.skip(i + 1));
            all.take(i).lemma_filter_push(all[i], pred);
            assert(all.take(i + 1) =~= all.take(i).push(all[i]));
        }
        if uses_technique(&s, &want) {
            r.push(s);
        }
        proof {
            i = i + 1;
        }
    }
    assert(all.take(i) =~= all);
    r
}

/// The campaigns listing exactly this technique.
pub fn campaigns_for_technique(list: Vec<Campaign>, technique: &str) -> (r: Vec<Campaign>)
    ensures
        r@ == campaigns_using(list@, technique@),
{
    let want = chars_of(technique);
    let ghost all = list@;
    let ghost pred = |c: Campaign| views(c.techniques@).contains(technique@);
    let mut rest = list;
    let mut r: Vec<Campaign> = Vec::new();
    let ghost mut i: int = 0;
    assert(all.take(0).filter(pred) =~= Seq::<Campaign>::empty());
    while rest.len() > 0
        invariant
            0 <= i <= all.len(),
            rest@ == all.skip(i),
            want@ == technique@,
            pred == (|c: Campaign| views(c.techniques@).contains(technique@)),
            r@ == all.take(i).filter(pred),
        decreases rest@.len(),
    {
        assert(i < all.len());
        let c = rest.remove(0);
        proof {
            assert(c == all[i]);
            assert(rest@ =~= all.skip(i + 1));
            all.take(i).lemma_filter_push(all[i], pred);
            assert(all.take(i + 1) =~= all.take(i).push(all[i]));
        }
        if listed(&c.techniques, &want) {
            r.push(c);
        }
        proof {
            i = i + 1;
        }
    }
    assert(all.take(i) =~= all);
    r
}

/// The actors targeting exactly this sector.
pub fn actors_for_sector(list: Vec<ThreatActor>, sector: &str) -> (r: Vec<ThreatActor>)
    ensures
        r@ == actors_targeting(list@, sector@),
{
    let want = chars_of(sector);
    let ghost all = list@;
    let ghost pred = |a: ThreatActor| views(a.target_sectors@).contains(sector@);
    let mut rest = list;
    let mut r: Vec<ThreatActor> = Vec::new();
    let ghost mut i: int = 0;
    assert(all.take(0).filter(pred) =~= Seq::<ThreatActor>::empty());
    while rest.len() > 0
        invariant
            0 <= i <= all.len(),
            rest@ == all.skip(i),
            want@ == sector@,
            pred == (|a: ThreatActor| views(a.target_sectors@).contains(sector@)),
            r@ == all.take(i).filter(pred),
        decreases rest@.len(),
    {
        assert(i < all.len());
        let a = rest.remove(0);
        proof {
            assert(a == all[i]);
            assert(rest@ =~= all.skip(i + 1));
            all.take(i).lemma_filter_push(all[i], pred);
            assert(all.take(i + 1) =~= all.take(i).push(all[i]));
        }
        if listed(&a.target_sectors, &want) {
            r.push(a);
        }
        proof {
            i = i + 1;
        }
    }
    assert(all.take(i) =~= all);
    r
}

/// The first actor with this id, if any.
pub fn get_actor<'a>(list: &'a Vec<ThreatActor>, actor_id: &str) -> (r: Option<&'a ThreatActor>)
    ensures
        match first_actor(list@, actor_id@) {
            Some(i) => r matches Some(a) && *a == list@[i],
            None => r is None,
        },
{
    let want = chars_of(actor_id);
    let mut i: usize = 0;
    while i < list.len()
        invariant
            i <= list@.len(),
            want@ == actor_id@,
            forall|j: int| 0 <= j < i ==> list@[j].id@ != actor_id@,
        decreases list@.len() - i,
    {
        if equal_chars(&chars_of(list[i].id.as_str()), &want) {
            proof {
                let c = choose|c: int|
                    0 <= c < list@.len() && list@[c].id@ == actor_id@ && forall|j: int|
                        0 <= j < c ==> list@[j].id@ != actor_id@;
                if c < i {
                } else if c > i {
                }
            }
            return Some(&list[i]);
        }
        i = i + 1;
    }
    None
}

/// A score of one for each of `n` positions.
pub open spec fn all_ones(n: nat) -> Seq<int> {
    Seq::new(n, |i: int| 1int)
}

/// The ids of a list of scenarios.
pub open spec fn scenario_ids(list: Seq<ScenarioSummary>) -> Seq<Seq<char>> {
    list.map_values(|s: ScenarioSummary| s.id@)
}

/// The scenarios in ascending id order (scenarios with equal ids in list
/// order).
pub fn list_scenarios(list: &Vec<ScenarioSummary>) -> (r: Vec<&ScenarioSummary>)
    ensures
        exists|order: Seq<usize>|
            {
                &&& #[trigger] is_ranking(all_ones(list@.len()), scenario_ids(list@), order)
                &&& r@.len() == order.len()
                &&& forall|k: int| 0 <= k < order.len() ==> *r@[k] == list@[order[k] as int]
            },
{
    let mut ones: Vec<usize> = Vec::new();
    let mut ids: Vec<Vec<char>> = Vec::new();
    let mut i: usize = 0;
    while i < list.len()
        invariant
            i <= list@.len(),
            ones@.len() == i,
            ids@.len() == i,
            forall|j: int| 0 <= j < i ==> #[trigger] ones@[j] == 1,
            forall|j: int| 0 <= j < i ==> #[trigger] ids@[j]@ == list@[j].id@,
        decreases list@.len() - i,
    {
        ones.push(1);
        ids.push(chars_of(list[i].id.as_str()));
        i = i + 1;
    }
    let order = rank_positions(&ones, &ids);
    proof {
        assert(ones@.map_values(|s: usize| s as int) =~= all_ones(list@.len()));
        assert(ids@.map_values(|d: Vec<char>| d@) =~= scenario_ids(list@));
    }
    let mut r: Vec<&ScenarioSummary> = Vec::new();
    let mut k: usize = 0;
    while k < order.len()
        invariant
            k <= order@.len(),
            is_ranking(all_ones(list@.len()), scenario_ids(list@), order@),
            r@.len() == k,
            forall|m: int| 0 <= m < k ==> *r@[m] == list@[order@[m] as int],
        decreases order@.len() - k,
    {
        let pos = order[k];
        assert(pos < list@.len());
        r.push(&list[pos]);
        k = k + 1;
    }
    r
}

} // verus!
