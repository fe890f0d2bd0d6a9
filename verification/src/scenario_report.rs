//! What the scenario commands compute: a scenario's detection coverage and
//! execution metrics, the objectives of an incident-response drill drawn from
//! it, the existing drills it maps to, and ATT&CK coverage per tactic.

use vstd::prelude::*;
use crate::framework::{ScenarioSummary, StageSummary, Tactic, Technique, techniques_matching};
use crate::osint::correlation::{distinct, distinct_strings};
use crate::technique_index::detection_ids_for;
use crate::framework::Detection;
use crate::text::{chars_of, equal_chars, listed, push_str, split_all, split_on, starts_with, string_from, string_of, views};

verus! {

broadcast use vstd::string::group_string_axioms;

// ---------------------------------------------------------------------------
// Coverage of a scenario
// ---------------------------------------------------------------------------

/// Some detection is mapped to exactly technique `t`.
pub open spec fn detected(dets: Seq<Detection>, t: Seq<char>) -> bool {
    detection_ids_for(dets, t).len() > 0
}

/// The number of stages whose technique some detection covers.
pub open spec fn covered_stages(stages: Seq<StageSummary>, dets: Seq<Detection>) -> nat
    decreases stages.len(),
{
    if stages.len() == 0 {
        0
    } else {
        covered_stages(stages.drop_last(), dets) + if detected(dets, stages.last().technique@) {
            1nat
        } else {
            0nat
        }
    }
}

/// The techniques of a scenario's stages, in stage order.
pub open spec fn stage_techniques(stages: Seq<StageSummary>) -> Seq<Seq<char>> {
    stages.map_values(|st: StageSummary| st.technique@)
}

/// Whether some detection is mapped to exactly this technique.
fn has_detection(dets: &Vec<Detection>, technique: &Vec<char>) -> (r: bool)
    ensures
        r == detected(dets@, technique@),
{
    let mut i: usize = 0;
    while i < dets.len()
        invariant
            i <= dets@.len(),
            detection_ids_for(dets@.take(i as int), technique@).len() == 0,
        decreases dets@.len() - i,
    {
        assert(dets@.take(i + 1).drop_last() =~= dets@.take(i as int));
        if equal_chars(&chars_of(dets[i].technique.as_str()), technique) {
            proof {
                lemma_ids_grow(dets@, technique@, i as int + 1);
            }
            return true;
        }
        i = i + 1;
    }
    assert(dets@.take(i as int) =~= dets@);
    false
}

/// Once a prefix holds a matching detection, every longer prefix does.
proof fn lemma_ids_grow(dets: Seq<Detection>, t: Seq<char>, n: int)
    requires
        0 <= n <= dets.len(),
        detection_ids_for(dets.take(n), t).len() > 0,
    ensures
        detection_ids_for(dets, t).len() > 0,
    decreases dets.len() - n,
{
    if n < dets.len() {
        assert(dets.take(n + 1).drop_last() =~= dets.take(n));
        lemma_ids_grow(dets, t, n + 1);
    } else {
        assert(dets.take(n) =~= dets);
    }
}

/// How many of a scenario's stages some detection covers, out of all its
/// stages.
pub fn stage_coverage(scenario: &ScenarioSummary, detections: &Vec<Detection>) -> (r: (usize, usize))
    ensures
        r.0 == covered_stages(scenario.stages@, detections@),
        r.1 == scenario.stages@.len(),
{
    let mut covered: usize = 0;
    let mut i: usize = 0;
    while i < scenario.stages.len()
        invariant
            i <= scenario.stages@.len(),
            covered == covered_stages(scenario.stages@.take(i as int), detections@),
            covered <= i,
        decreases scenario.stages@.len() - i,
    {
        assert(scenario.stages@.take(i + 1).drop_last() =~= scenario.stages@.take(i as int));
        if has_detection(detections, &chars_of(scenario.stages[i].technique.as_str())) {
            covered = covered + 1;
        }
        i = i + 1;
    }
    assert(scenario.stages@.take(i as int) =~= scenario.stages@);
    (covered, scenario.stages.len())
}

/// The counts of a scenario run's execution metrics.
#[derive(Debug, Clone, Copy, PartialEq, Eq, Structural)]
pub struct ExecutionCounts {
    pub total_stages: usize,
    /// Distinct techniques of the stages.
    pub unique_techniques: usize,
    /// Distinct techniques some detection covers.
    pub techniques_covered_by_detections: usize,
    /// Distinct techniques no detection covers.
    pub detection_gaps: usize,
}

/// The distinct techniques of the stages that some detection covers.
pub open spec fn covered_techniques(techs: Seq<Seq<char>>, dets: Seq<Detection>) -> Seq<Seq<char>> {
    techs.filter(|t: Seq<char>| detected(dets, t))
}

/// The execution counts of a scenario against the detections.
pub fn execution_counts(scenario: &ScenarioSummary, detections: &Vec<Detection>) -> (r: ExecutionCounts)
    ensures
        r.total_stages == scenario.stages@.len(),
        r.unique_techniques == distinct(stage_techniques(scenario.stages@)).len(),
        r.techniques_covered_by_detections == covered_techniques(
            distinct(stage_techniques(scenario.stages@)),
            detections@,
        ).len(),
        r.detection_gaps == r.unique_techniques - r.techniques_covered_by_detections,
{
    let mut techs: Vec<String> = Vec::new();
    let mut i: usize = 0;
    while i < scenario.stages.len()
        invariant
            i <= scenario.stages@.len(),
            views(techs@) == stage_techniques(scenario.stages@.take(i as int)),
        decreases scenario.stages@.len() - i,
    {
        let ghost before = views(techs@);
        techs.push(scenario.stages[i].technique.clone());
        assert(views(techs@) =~= before.push(scenario.stages@[i as int].technique@));
        assert(stage_techniques(scenario.stages@.take(i + 1)) =~= stage_techniques(scenario.stages@.take(i as int)).push(
            scenario.stages@[i as int].technique@,
        ));
        i = i + 1;
    }
    assert(scenario.stages@.take(i as int) =~= scenario.stages@);
    let unique = distinct_strings(&techs);
    let ghost uv = views(unique@);
    let ghost pred = |t: Seq<char>| detected(detections@, t);
    let mut covered: usize = 0;
    let mut k: usize = 0;
    assert(uv.take(0).filter(pred) =~= Seq::<Seq<char>>::empty());
    while k < unique.len()
        invariant
            k <= unique@.len(),
            uv == views(unique@),
            pred == (|t: Seq<char>| detected(detections@, t)),
            covered == uv.take(k as int).filter(pred).len(),
            covered <= k,
        decreases unique@.len() - k,
    {
        proof {
            uv.take(k as int).lemma_filter_push(uv[k as int], pred);
            assert(uv.take(k + 1) =~= uv.take(k as int).push(uv[k as int]));
        }
        if has_detection(detections, &chars_of(unique[k].as_str())) {
            covered = covered + 1;
        }
        k = k + 1;
    }
    assert(uv.take(k as int) =~= uv);
    proof {
        uv.filter_lemma(pred);
    }
    let n = unique.len();
    ExecutionCounts {
        total_stages: scenario.stages.len(),
        unique_techniques: n,
        techniques_covered_by_detections: covered,
        detection_gaps: n - covered,
    }
}

// ---------------------------------------------------------------------------
// Drills
// ---------------------------------------------------------------------------

/// An existing incident-response drill and the scenario it came from.
#[derive(Debug, Clone)]
pub struct DrillSource {
    pub drill_id: String,
    pub scenario_source: String,
}

/// The objective of a drill for one stage.
pub open spec fn objective(st: StageSummary) -> Seq<char> {
    "Detect and respond to "@ + st.tactic@ + ": "@ + st.technique@
}

/// The text of a scenario id up to its first `-`.
pub open spec fn id_prefix(scenario_id: Seq<char>) -> Seq<char> {
    split_on(scenario_id, '-')[0]
}

/// The objectives of a drill drawn from a scenario: one per stage.
pub fn drill_objectives(scenario: &ScenarioSummary) -> (r: Vec<String>)
    ensures
        views(r@) == scenario.stages@.map_values(|st: StageSummary| objective(st)),
{
    let mut r: Vec<String> = Vec::new();
    let mut i: usize = 0;
    while i < scenario.stages.len()
        invariant
            i <= scenario.stages@.len(),
            views(r@) == scenario.stages@.take(i as int).map_values(|st: StageSummary| objective(st)),
        decreases scenario.stages@.len() - i,
    {
        let st = &scenario.stages[i];
        let mut o = string_from("Detect and respond to ");
        push_str(&mut o, st.tactic.as_str());
        push_str(&mut o, ": ");
        push_str(&mut o, st.technique.as_str());
        let ghost before = views(r@);
        r.push(o);
        assert(views(r@) =~= before.push(objective(*st)));
        assert(scenario.stages@.take(i + 1).map_values(|st: StageSummary| objective(st)) =~= scenario.stages@.take(
            i as int,
        ).map_values(|st: StageSummary| objective(st)).push(objective(*st)));
        i = i + 1;
    }
    assert(scenario.stages@.take(i as int) =~= scenario.stages@);
    r
}

/// The text of a scenario id up to its first `-`.
fn prefix_of(scenario_id: &str) -> (r: Vec<char>)
    ensures
        r@ == id_prefix(scenario_id@),
{
    let parts = split_all(&chars_of(scenario_id), '-');
    proof {
        assert(parts@.map_values(|p: Vec<char>| p@)[0] == parts@[0]@);
    }
    let mut r: Vec<char> = Vec::new();
    let mut i: usize = 0;
    while i < parts[0].len()
        invariant
            parts@.len() >= 1,
            i <= parts@[0]@.len(),
            r@ == parts@[0]@.take(i as int),
        decreases parts@[0]@.len() - i,
    {
        r.push(parts[0][i]);
        assert(r@ =~= parts@[0]@.take(i + 1));
        i = i + 1;
    }
    assert(parts@[0]@.take(i as int) =~= parts@[0]@);
    r
}

/// The id of a drill drawn from a scenario on a day: `ir-drill-`, the
/// scenario id up to its first `-`, `-`, and the date.
pub fn drill_id(scenario_id: &str, date: &str) -> (r: String)
    ensures
        r@ == "ir-drill-"@ + id_prefix(scenario_id@) + "-"@ + date@,
{
    let p = prefix_of(scenario_id);
    let mut r = string_from("ir-drill-");
    let ps = string_of(&p);
    push_str(&mut r, ps.as_str());
    push_str(&mut r, "-");
    push_str(&mut r, date);
    r
}

/// The existing drills whose source starts with the scenario id up to its
/// first `-`, in order.
pub fn mapped_drills(drills: &Vec<DrillSource>, scenario_id: &str) -> (r: Vec<String>)
    ensures
        views(r@) == drills@.filter(|d: DrillSource| starts_with(d.scenario_source@, id_prefix(scenario_id@))).map_values(
            |d: DrillSource| d.drill_id@,
        ),
{
    let p = prefix_of(scenario_id);
    let ghost pred = |d: DrillSource| starts_with(d.scenario_source@, id_prefix(scenario_id@));
    let mut r: Vec<String> = Vec::new();
    let mut i: usize = 0;
    assert(drills@.take(0).filter(pred) =~= Seq::<DrillSource>::empty());
    while i < drills.len()
        invariant
            i <= drills@.len(),
            p@ == id_prefix(scenario_id@),
            pred == (|d: DrillSource| starts_with(d.scenario_source@, id_prefix(scenario_id@))),
            views(r@) == drills@.take(i as int).filter(pred).map_values(|d: DrillSource| d.drill_id@),
        decreases drills@.len() - i,
    {
        proof {
            drills@.take(i as int).lemma_filter_push(drills@[i as int], pred);
            assert(drills@.take(i + 1) =~= drills@.take(i as int).push(drills@[i as int]));
        }
        if crate::text::has_prefix(&chars_of(drills[i].scenario_source.as_str()), &p) {
            let ghost before = views(r@);
            r.push(drills[i].drill_id.clone());
            assert(views(r@) =~= before.push(drills@[i as int].drill_id@));
            assert(drills@.take(i + 1).filter(pred).map_values(|d: DrillSource| d.drill_id@) =~= drills@.take(
                i as int,
            ).filter(pred).map_values(|d: DrillSource| d.drill_id@).push(drills@[i as int].drill_id@));
        } else {
            assert(drills@.take(i + 1).filter(pred) =~= drills@.take(i as int).filter(pred));
        }
        i = i + 1;
    }
    assert(drills@.take(i as int) =~= drills@);
    r
}

// ---------------------------------------------------------------------------
// ATT&CK coverage
// ---------------------------------------------------------------------------

/// How many of a tactic's techniques the scenarios implement.
#[derive(Debug, Clone)]
pub struct TacticCoverage {
    pub tactic: String,
    pub implemented: usize,
    pub total: usize,
}

/// Every stage technique of the scenarios, scenario by scenario.
pub open spec fn all_stage_techniques(scenarios: Seq<ScenarioSummary>) -> Seq<Seq<char>>
    decreases scenarios.len(),
{
    if scenarios.len() == 0 {
        Seq::empty()
    } else {
        all_stage_techniques(scenarios.drop_last()) + stage_techniques(scenarios.last().stages@)
    }
}

/// The coverage of one tactic: its techniques and how many of them some
/// scenario stage uses.
pub open spec fn tactic_row(t: Tactic, techniques: Seq<Technique>, used: Seq<Seq<char>>) -> (Seq<char>, nat, nat) {
    let mine = techniques_matching(techniques, t.name@);
    (t.name@, mine.filter(|x: Technique| used.contains(x.id@)).len(), mine.len())
}

/// Every stage technique of the scenarios.
fn collect_stage_techniques(scenarios: &Vec<ScenarioSummary>) -> (r: Vec<String>)
    ensures
        views(r@) == all_stage_techniques(scenarios@),
{
    let mut r: Vec<String> = Vec::new();
    let mut i: usize = 0;
    while i < scenarios.len()
        invariant
            i <= scenarios@.len(),
            views(r@) == all_stage_techniques(scenarios@.take(i as int)),
        decreases scenarios@.len() - i,
    {
        let s = &scenarios[i];
        let ghost base = views(r@);
        let mut j: usize = 0;
        while j < s.stages.len()
            invariant
                j <= s.stages@.len(),
                views(r@) == base + stage_techniques(s.stages@.take(j as int)),
            decreases s.stages@.len() - j,
        {
            let ghost before = views(r@);
            r.push(s.stages[j].technique.clone());
            assert(views(r@) =~= before.push(s.stages@[j as int].technique@));
            assert(stage_techniques(s.stages@.take(j + 1)) =~= stage_techniques(s.stages@.take(j as int)).push(
                s.stages@[j as int].technique@,
            ));
            j = j + 1;
        }
        assert(s.stages@.take(j as int) =~= s.stages@);
        assert(scenarios@.take(i + 1).drop_last() =~= scenarios@.take(i as int));
        i = i + 1;
    }
    assert(scenarios@.take(i as int) =~= scenarios@);
    r
}

/// For each tactic, in order, how many of its techniques some scenario stage
/// uses, out of all its techniques.
pub fn tactic_coverage(scenarios: &Vec<ScenarioSummary>, tactics: &Vec<Tactic>, techniques: &Vec<Technique>) -> (r: Vec<
    TacticCoverage,
>)
    ensures
        r@.len() == tactics@.len(),
        forall|k: int|
            0 <= k < r@.len() ==> ((#[trigger] r@[k]).tactic@, r@[k].implemented as nat, r@[k].total as nat)
                == tactic_row(tactics@[k], techniques@, all_stage_techniques(scenarios@)),
{
    let used = collect_stage_techniques(scenarios);
    let ghost uv = views(used@);
    let mut r: Vec<TacticCoverage> = Vec::new();
    let mut k: usize = 0;
    while k < tactics.len()
        invariant
            k <= tactics@.len(),
            uv == views(used@),
            uv == all_stage_techniques(scenarios@),
            r@.len() == k,
            forall|m: int|
                0 <= m < k ==> ((#[trigger] r@[m]).tactic@, r@[m].implemented as nat, r@[m].total as nat)
                    == tactic_row(tactics@[m], techniques@, uv),
        decreases tactics@.len() - k,
    {
        let t = &tactics[k];
        let want = chars_of(t.name.as_str());
        let ghost all = techniques@;
        let ghost mine_pred = |x: Technique| x.tactic@ == t.name@;
        let ghost used_pred = |x: Technique| uv.contains(x.id@);
        let mut total: usize = 0;
        let mut implemented: usize = 0;
        let mut i: usize = 0;
        assert(all.take(0).filter(mine_pred) =~= Seq::<Technique>::empty());
        while i < techniques.len()
            invariant
                i <= all.len(),
                all == techniques@,
                want@ == t.name@,
                uv == views(used@),
                mine_pred == (|x: Technique| x.tactic@ == t.name@),
                used_pred == (|x: Technique| uv.contains(x.id@)),
                total == all.take(i as int).filter(mine_pred).len(),
                implemented == all.take(i as int).filter(mine_pred).filter(used_pred).len(),
                implemented <= total <= i,
            decreases all.len() - i,
        {
            let ghost pre = all.take(i as int).filter(mine_pred);
            proof {
                all.take(i as int).lemma_filter_push(all[i as int], mine_pred);
                assert(all.take(i + 1) =~= all.take(i as int).push(all[i as int]));
            }
            if equal_chars(&chars_of(techniques[i].tactic.as_str()), &want) {
                proof {
                    pre.lemma_filter_push(all[i as int], used_pred);
                }
                total = total + 1;
                if listed(&used, &chars_of(techniques[i].id.as_str())) {
                    implemented = implemented + 1;
                }
            }
            i = i + 1;
        }
        assert(all.take(i as int) =~= all);
        let row = TacticCoverage { tactic: t.name.clone(), implemented, total };
        assert((row.tactic@, row.implemented as nat, row.total as nat) == tactic_row(*t, techniques@, uv));
        r.push(row);
        k = k + 1;
    }
    r
}

/// The number of distinct techniques the scenarios' stages use.
pub fn techniques_implemented(scenarios: &Vec<ScenarioSummary>) -> (r: usize)
    ensures
        r == distinct(all_stage_techniques(scenarios@)).len(),
{
    let used = collect_stage_techniques(scenarios);
    let unique = distinct_strings(&used);
    unique.len()
}

} // verus!
