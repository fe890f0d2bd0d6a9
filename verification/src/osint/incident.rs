//! Incident mapping: the attack scenarios on record for each threat actor,
//! and the reports drawn from them (scenario mapping, attack chain, technique
//! usage, infrastructure patterns).
//!
//! Rates and confidences are whole percentages.

use vstd::prelude::*;
use crate::catalog_commands::{is_count_ranking, join_with, tally, tally_entries};
use crate::json::{decimal, push_decimal};
use crate::keyed::{group_of, lemma_lookup_absent, lemma_lookup_at, lookup, unique_keys};
use crate::text::{chars_of, equal_chars, join, push_str, string_from, views};

verus! {

broadcast use vstd::string::group_string_axioms;

/// An actor's campaign across scenarios, phase by phase.
#[derive(Debug, Clone)]
pub struct IncidentChain {
    pub incident_id: String,
    pub actor_id: String,
    pub scenario_sequence: Vec<String>,
    pub start_date: Option<String>,
    pub end_date: Option<String>,
    pub target_sector: String,
    pub total_targets: usize,
    /// `(phase, techniques)` pairs.
    pub attack_phases: Vec<(String, Vec<String>)>,
    pub infrastructure_required: Vec<String>,
    pub evasion_techniques: Vec<String>,
}

/// An attack scenario on record for an actor.
#[derive(Debug, Clone)]
pub struct ScenarioIncident {
    pub scenario_id: String,
    pub scenario_name: String,
    pub actor_id: String,
    pub actor_name: String,
    /// Confidence of the attribution, in percent.
    pub attack_confidence_percent: u32,
    pub mapped_techniques: Vec<String>,
    pub execution_phase: String,
    pub infrastructure_indicators: Vec<String>,
    /// Historical success rate, in percent.
    pub success_historical_rate_percent: u32,
    pub detection_difficulty: String,
}

/// The scenarios, techniques, targets and infrastructure on record for one
/// actor.
#[derive(Debug, Clone)]
pub struct ActorScenarioMapping {
    pub actor_id: String,
    pub known_scenarios: Vec<ScenarioIncident>,
    pub preferred_techniques: Vec<String>,
    pub target_sectors: Vec<String>,
    /// `(pattern type, patterns)` pairs.
    pub infrastructure_patterns: Vec<(String, Vec<String>)>,
    /// Average success rate, in percent.
    pub success_rate_average_percent: u32,
    /// Detection evasion score, in percent.
    pub detection_evasion_score_percent: u32,
}

/// A mapping has scenarios, and its lists and percentages stay within bounds.
pub open spec fn mapping_ok(m: ActorScenarioMapping) -> bool {
    &&& 0 < m.known_scenarios@.len() <= 1000
    &&& forall|i: int|
        0 <= i < m.known_scenarios@.len() ==> (#[trigger] m.known_scenarios@[i]).mapped_techniques@.len() <= 1000
    &&& m.success_rate_average_percent <= 100
    &&& m.detection_evasion_score_percent <= 100
}

/// The mappings keyed by actor id.
pub open spec fn keyed_mappings(list: Seq<ActorScenarioMapping>) -> Seq<(Seq<char>, ActorScenarioMapping)> {
    list.map_values(|m: ActorScenarioMapping| (m.actor_id@, m))
}

/// The actors that the mapper has records for, in order.
pub open spec fn mapped_actor_ids() -> Seq<Seq<char>> {
    seq!["APT29"@, "APT28"@]
}

/// The figures of a scenario on record: id, confidence, techniques and
/// historical success rate.
pub open spec fn scenario_facts(s: ScenarioIncident) -> (Seq<char>, u32, Seq<Seq<char>>, u32) {
    (s.scenario_id@, s.attack_confidence_percent, views(s.mapped_techniques@), s.success_historical_rate_percent)
}

/// The figures of an actor's records: its scenarios' figures, preferred
/// techniques, target sectors, average success rate and evasion score.
pub open spec fn mapping_facts(m: ActorScenarioMapping) -> (
    Seq<(Seq<char>, u32, Seq<Seq<char>>, u32)>,
    Seq<Seq<char>>,
    Seq<Seq<char>>,
    u32,
    u32,
) {
    (
        m.known_scenarios@.map_values(|s: ScenarioIncident| scenario_facts(s)),
        views(m.preferred_techniques@),
        views(m.target_sectors@),
        m.success_rate_average_percent,
        m.detection_evasion_score_percent,
    )
}

/// The figures on record for APT29 and for APT28.
pub open spec fn recorded_facts() -> Seq<
    (Seq<(Seq<char>, u32, Seq<Seq<char>>, u32)>, Seq<Seq<char>>, Seq<Seq<char>>, u32, u32),
> {
    seq![
        (
            seq![
                ("APT-029-001"@, 95u32, seq!["T1589"@, "T1598.003"@, "T1566.002"@], 85u32),
                ("APT-029-002"@, 98u32, seq!["T1195.002"@, "T1195.003"@, "T1090"@], 92u32),
            ],
            seq!["T1566.002"@, "T1598"@, "T1589"@, "T1195"@, "T1199"@],
            seq!["Government"@, "Technology"@, "Utilities"@, "Defense Contractors"@],
            88u32,
            92u32,
        ),
        (
            seq![("APT-028-001"@, 93u32, seq!["T1598.003"@, "T1589"@, "T1591"@], 78u32)],
            seq!["T1598.003"@, "T1583"@, "T1589"@, "T1566"@],
            seq!["Government"@, "Military"@, "Political Organizations"@],
            81u32,
            75u32,
        ),
    ]
}

/// Everything a scenario on record holds.
#[verifier::ext_equal]
pub struct ScenarioRecord {
    pub scenario_id: Seq<char>,
    pub scenario_name: Seq<char>,
    pub actor_id: Seq<char>,
    pub actor_name: Seq<char>,
    pub attack_confidence_percent: u32,
    pub mapped_techniques: Seq<Seq<char>>,
    pub execution_phase: Seq<char>,
    pub infrastructure_indicators: Seq<Seq<char>>,
    pub success_historical_rate_percent: u32,
    pub detection_difficulty: Seq<char>,
}

/// Everything an actor's records hold.
#[verifier::ext_equal]
pub struct MappingRecord {
    pub actor_id: Seq<char>,
    pub known_scenarios: Seq<ScenarioRecord>,
    pub preferred_techniques: Seq<Seq<char>>,
    pub target_sectors: Seq<Seq<char>>,
    pub infrastructure_patterns: Seq<(Seq<char>, Seq<Seq<char>>)>,
    pub success_rate_average_percent: u32,
    pub detection_evasion_score_percent: u32,
}

/// The content of a scenario.
pub open spec fn scenario_view(s: ScenarioIncident) -> ScenarioRecord {
    ScenarioRecord {
        scenario_id: s.scenario_id@,
        scenario_name: s.scenario_name@,
        actor_id: s.actor_id@,
        actor_name: s.actor_name@,
        attack_confidence_percent: s.attack_confidence_percent,
        mapped_techniques: views(s.mapped_techniques@),
        execution_phase: s.execution_phase@,
        infrastructure_indicators: views(s.infrastructure_indicators@),
        success_historical_rate_percent: s.success_historical_rate_percent,
        detection_difficulty: s.detection_difficulty@,
    }
}

/// The content of an actor's records.
pub open spec fn mapping_view(m: ActorScenarioMapping) -> MappingRecord {
    MappingRecord {
        actor_id: m.actor_id@,
        known_scenarios: m.known_scenarios@.map_values(|s: ScenarioIncident| scenario_view(s)),
        preferred_techniques: views(m.preferred_techniques@),
        target_sectors: views(m.target_sectors@),
        infrastructure_patterns: m.infrastructure_patterns@.map_values(
            |p: (String, Vec<String>)| (p.0@, views(p.1@)),
        ),
        success_rate_average_percent: m.success_rate_average_percent,
        detection_evasion_score_percent: m.detection_evasion_score_percent,
    }
}

/// The full records for APT29 and for APT28.
pub open spec fn recorded_mappings() -> Seq<MappingRecord> {
    seq![
        MappingRecord {
            actor_id: "APT29"@,
            known_scenarios: seq![
                ScenarioRecord {
                    scenario_id: "APT-029-001"@,
                    scenario_name: "Cozy Bear Credential Theft Campaign"@,
                    actor_id: "APT29"@,
                    actor_name: "APT29 / Cozy Bear"@,
                    attack_confidence_percent: 95,
                    mapped_techniques: seq!["T1589"@, "T1598.003"@, "T1566.002"@],
                    execution_phase: "Initial Access & Persistence"@,
                    infrastructure_indicators: seq![
                        "Legitimate infrastructure hijacking"@,
                        "Spear phishing email"@,
                        "Office macro exploit"@,
                    ],
                    success_historical_rate_percent: 85,
                    detection_difficulty: "High"@,
                },
                ScenarioRecord {
                    scenario_id: "APT-029-002"@,
                    scenario_name: "SolarWinds Supply Chain Attack"@,
                    actor_id: "APT29"@,
                    actor_name: "APT29 / Cozy Bear"@,
                    attack_confidence_percent: 98,
                    mapped_techniques: seq!["T1195.002"@, "T1195.003"@, "T1090"@],
                    execution_phase: "Supply Chain Compromise"@,
                    infrastructure_indicators: seq![
                        "Compromised package repository"@,
                        "Malicious update delivery"@,
                        "Legitimate vendor infrastructure"@,
                    ],
                    success_historical_rate_percent: 92,
                    detection_difficulty: "Very High"@,
                },
            ],
            preferred_techniques: seq!["T1566.002"@, "T1598"@, "T1589"@, "T1195"@, "T1199"@],
            target_sectors: seq!["Government"@, "Technology"@, "Utilities"@, "Defense Contractors"@],
            infrastructure_patterns: seq![
                ("C2"@, seq!["SVR-hosted VPS"@, "Compromised infrastructure"@, "HTTPS on standard ports"@]),
                (
                    "Phishing"@,
                    seq!["Legitimate domain spoofing"@, "Email server compromise"@, "Office 365 federation abuse"@],
                ),
            ],
            success_rate_average_percent: 88,
            detection_evasion_score_percent: 92,
        },
        MappingRecord {
            actor_id: "APT28"@,
            known_scenarios: seq![
                ScenarioRecord {
                    scenario_id: "APT-028-001"@,
                    scenario_name: "Fancy Bear Credential Harvesting"@,
                    actor_id: "APT28"@,
                    actor_name: "APT28 / Fancy Bear"@,
                    attack_confidence_percent: 93,
                    mapped_techniques: seq!["T1598.003"@, "T1589"@, "T1591"@],
                    execution_phase: "Reconnaissance & Social Engineering"@,
                    infrastructure_indicators: seq![
                        "Lookalike phishing domains"@,
                        "Gmail account takeovers"@,
                        "Watering hole attacks"@,
                    ],
                    success_historical_rate_percent: 78,
                    detection_difficulty: "Medium"@,
                },
            ],
            preferred_techniques: seq!["T1598.003"@, "T1583"@, "T1589"@, "T1566"@],
            target_sectors: seq!["Government"@, "Military"@, "Political Organizations"@],
            infrastructure_patterns: seq![
                ("Phishing"@, seq!["Lookalike domains"@, "Typosquatting"@, "Homograph domains"@]),
            ],
            success_rate_average_percent: 81,
            detection_evasion_score_percent: 75,
        },
    ]
}

/// Maps threat actors to the attack scenarios on record for them.
pub struct IncidentMapper {
    actor_scenarios: Vec<ActorScenarioMapping>,
}

// ---------------------------------------------------------------------------
// Report text
// ---------------------------------------------------------------------------

/// One line per item: `prefix`, the item, a line break.
pub open spec fn bullets(prefix: Seq<char>, items: Seq<Seq<char>>) -> Seq<char>
    decreases items.len(),
{
    if items.len() == 0 {
        Seq::empty()
    } else {
        bullets(prefix, items.drop_last()) + prefix + items.last() + "\n"@
    }
}

/// Two identical lines per item: `prefix`, the item, a line break.
pub open spec fn bullets_twice(prefix: Seq<char>, items: Seq<Seq<char>>) -> Seq<char>
    decreases items.len(),
{
    if items.len() == 0 {
        Seq::empty()
    } else {
        bullets_twice(prefix, items.drop_last()) + prefix + items.last() + "\n"@ + prefix + items.last() + "\n"@
    }
}

/// The first lines of the block of scenario number `n`: name, id, rates and
/// phase.
pub open spec fn scenario_heading(n: nat, s: ScenarioIncident) -> Seq<char> {
    "\n"@ + decimal(n) + ". "@ + s.scenario_name@ + " (ID: "@ + s.scenario_id@ + ")\n"@ + "   Confidence: "@
        + decimal(s.attack_confidence_percent as nat) + "% | Success Rate: "@ + decimal(
        s.success_historical_rate_percent as nat,
    ) + "%\n"@ + "   Phase: "@ + s.execution_phase@ + "\n"@
}

/// The block describing scenario number `n` in the scenario mapping.
pub open spec fn scenario_block(n: nat, s: ScenarioIncident) -> Seq<char> {
    scenario_heading(n, s) + "   Mapped Techniques:\n"@ + bullets("     • "@, views(s.mapped_techniques@))
        + "   Infrastructure Indicators:\n"@ + bullets("     • "@, views(s.infrastructure_indicators@))
}

/// The blocks of a list of scenarios, numbered from 1.
pub open spec fn scenario_blocks(scs: Seq<ScenarioIncident>) -> Seq<char>
    decreases scs.len(),
{
    if scs.len() == 0 {
        Seq::empty()
    } else {
        scenario_blocks(scs.drop_last()) + scenario_block(scs.len(), scs.last())
    }
}

/// The scenario mapping of an actor.
pub open spec fn mapping_report(m: ActorScenarioMapping) -> Seq<char> {
    "=== Scenario-to-Incident Mapping ===\n\n"@ + "Actor: "@ + m.actor_id@ + " ("@ + m.actor_id@ + ")\n"@
        + "Average Success Rate: "@ + decimal(m.success_rate_average_percent as nat) + ".0%\n"@
        + "Evasion Capability Score: "@ + decimal(m.detection_evasion_score_percent as nat) + ".0%\n\n"@
        + "Known Attack Scenarios:\n"@ + scenario_blocks(m.known_scenarios@) + "\nTarget Sectors:\n"@ + bullets(
        "  • "@,
        views(m.target_sectors@),
    ) + "\nPreferred Techniques:\n"@ + bullets_twice("  • "@, views(m.preferred_techniques@))
}

/// The scenarios confident enough (over 70 percent) to enter an attack chain.
pub open spec fn chain_scenarios(m: ActorScenarioMapping) -> Seq<ScenarioIncident> {
    m.known_scenarios@.filter(|s: ScenarioIncident| s.attack_confidence_percent > 70)
}

/// The step of an attack chain for scenario number `n`.
pub open spec fn chain_step(n: nat, s: ScenarioIncident) -> Seq<char> {
    decimal(n) + ". "@ + s.scenario_name@ + " (Confidence: "@ + decimal(s.attack_confidence_percent as nat) + "%)\n"@
        + "   Techniques: "@ + join(views(s.mapped_techniques@), ", "@) + "\n"@ + "   Required Infrastructure:\n"@
        + bullets("     • "@, views(s.infrastructure_indicators@))
}

/// The steps of an attack chain, numbered from 1.
pub open spec fn chain_steps(scs: Seq<ScenarioIncident>) -> Seq<char>
    decreases scs.len(),
{
    if scs.len() == 0 {
        Seq::empty()
    } else {
        chain_steps(scs.drop_last()) + chain_step(scs.len(), scs.last())
    }
}

/// The attack chain of an actor against a sector.
pub open spec fn chain_report(actor: Seq<char>, sector: Seq<char>, m: ActorScenarioMapping) -> Seq<char> {
    "=== Attack Chain Analysis ===\n\n"@ + "Actor: "@ + actor + "\n"@ + "Target Sector: "@ + sector + "\n\n"@
        + "Probable Attack Sequence:\n"@ + chain_steps(chain_scenarios(m))
        + "\nOverall Attack Chain Characteristics:\n"@ + "  • Attack Complexity: High\n"@
        + "  • Average Success Rate: "@ + decimal(m.success_rate_average_percent as nat) + "%\n"@
        + "  • Detection Difficulty: "@ + (if m.detection_evasion_score_percent > 85 {
        "Very High"@
    } else {
        "High"@
    }) + "+\n"@
}

/// The `(technique, scenario id)` pairs of a list of scenarios: each
/// scenario's techniques in order, scenario after scenario.
pub open spec fn technique_pairs(scs: Seq<ScenarioIncident>) -> Seq<(Seq<char>, Seq<char>)>
    decreases scs.len(),
{
    if scs.len() == 0 {
        Seq::empty()
    } else {
        technique_pairs(scs.drop_last()) + scs.last().mapped_techniques@.map_values(
            |t: String| (t@, scs.last().scenario_id@),
        )
    }
}

/// `count` out of `total` as a whole percentage, rounded to the nearest,
/// halves to even.
pub open spec fn rounded_percent(count: nat, total: nat) -> nat
    recommends
        total > 0,
{
    let q = count * 100 / total;
    let rem = count * 100 % total;
    if 2 * rem > total || (2 * rem == total && q % 2 == 1) {
        q + 1
    } else {
        q
    }
}

/// The prevalence lines of technique counts, out of `total` scenarios.
pub open spec fn usage_lines(rows: Seq<(String, usize)>, total: nat) -> Seq<char>
    decreases rows.len(),
{
    if rows.len() == 0 {
        Seq::empty()
    } else {
        usage_lines(rows.drop_last(), total) + "  "@ + rows.last().0@ + " - "@ + decimal(
            rounded_percent(rows.last().1 as nat, total),
        ) + "% (used in "@ + decimal(rows.last().1 as nat) + " scenarios)\n"@
    }
}

/// The technique usage report of an actor, from the technique counts.
pub open spec fn usage_report(actor: Seq<char>, rows: Seq<(String, usize)>, total: nat) -> Seq<char> {
    "=== Technique Usage Analysis ===\n\n"@ + "Actor: "@ + actor + "\n\n"@
        + "Technique Prevalence (across known scenarios):\n"@ + usage_lines(rows, total)
}

/// `t` is the technique usage report of an actor: the prevalence lines of
/// its technique counts, most used first.
pub open spec fn is_usage_report(t: Seq<char>, actor: Seq<char>, m: ActorScenarioMapping) -> bool {
    exists|rows: Seq<(String, usize)>|
        {
            &&& #[trigger] is_count_ranking(rows, technique_pairs(m.known_scenarios@))
            &&& t == usage_report(actor, rows, m.known_scenarios@.len())
        }
}

/// The infrastructure pattern sections.
pub open spec fn pattern_sections(groups: Seq<(String, Vec<String>)>) -> Seq<char>
    decreases groups.len(),
{
    if groups.len() == 0 {
        Seq::empty()
    } else {
        pattern_sections(groups.drop_last()) + groups.last().0@ + ":\n"@ + bullets("  • "@, views(groups.last().1@))
            + "\n"@
    }
}

/// The infrastructure pattern report of an actor.
pub open spec fn patterns_report(actor: Seq<char>, m: ActorScenarioMapping) -> Seq<char> {
    "=== Infrastructure Patterns ===\n\n"@ + "Actor: "@ + actor + "\n\n"@ + pattern_sections(
        m.infrastructure_patterns@,
    )
}

// ---------------------------------------------------------------------------
// Building text
// ---------------------------------------------------------------------------

/// Appends one line per item.
pub(crate) fn push_bullets(out: &mut String, prefix: &str, items: &Vec<String>)
    ensures
        final(out)@ == old(out)@ + bullets(prefix@, views(items@)),
{
    let mut i: usize = 0;
    while i < items.len()
        invariant
            i <= items@.len(),
            out@ == old(out)@ + bullets(prefix@, views(items@.take(i as int))),
        decreases items@.len() - i,
    {
        push_str(out, prefix);
        push_str(out, items[i].as_str());
        push_str(out, "\n");
        assert(views(items@.take(i + 1)).drop_last() =~= views(items@.take(i as int)));
        i = i + 1;
    }
    assert(items@.take(i as int) =~= items@);
}

/// Appends two identical lines per item.
fn push_bullets_twice(out: &mut String, prefix: &str, items: &Vec<String>)
    ensures
        final(out)@ == old(out)@ + bullets_twice(prefix@, views(items@)),
{
    let mut i: usize = 0;
    while i < items.len()
        invariant
            i <= items@.len(),
            out@ == old(out)@ + bullets_twice(prefix@, views(items@.take(i as int))),
        decreases items@.len() - i,
    {
        push_str(out, prefix);
        push_str(out, items[i].as_str());
        push_str(out, "\n");
        push_str(out, prefix);
        push_str(out, items[i].as_str());
        push_str(out, "\n");
        assert(views(items@.take(i + 1)).drop_last() =~= views(items@.take(i as int)));
        i = i + 1;
    }
    assert(items@.take(i as int) =~= items@);
}

/// Appends the block of scenario number `n`.
fn push_scenario_block(out: &mut String, n: usize, s: &ScenarioIncident)
    ensures
        final(out)@ == old(out)@ + scenario_block(n as nat, *s),
{
    push_scenario_heading(out, n, s);
    push_str(out, "   Mapped Techniques:\n");
    push_bullets(out, "     • ", &s.mapped_techniques);
    push_str(out, "   Infrastructure Indicators:\n");
    push_bullets(out, "     • ", &s.infrastructure_indicators);
    assert(out@ =~= old(out)@ + scenario_block(n as nat, *s));
}

/// Appends the first lines of the block of scenario number `n`.
fn push_scenario_heading(out: &mut String, n: usize, s: &ScenarioIncident)
    ensures
        final(out)@ == old(out)@ + scenario_heading(n as nat, *s),
{
    push_str(out, "\n");
    push_decimal(out, n);
    push_str(out, ". ");
    push_str(out, s.scenario_name.as_str());
    push_str(out, " (ID: ");
    push_str(out, s.scenario_id.as_str());
    push_str(out, ")\n");
    push_str(out, "   Confidence: ");
    push_decimal(out, s.attack_confidence_percent as usize);
    push_str(out, "% | Success Rate: ");
    push_decimal(out, s.success_historical_rate_percent as usize);
    push_str(out, "%\n");
    push_str(out, "   Phase: ");
    push_str(out, s.execution_phase.as_str());
    push_str(out, "\n");
    assert(out@ =~= old(out)@ + scenario_heading(n as nat, *s));
}

/// Appends the attack chain step of scenario number `n`.
fn push_chain_step(out: &mut String, n: usize, s: &ScenarioIncident)
    ensures
        final(out)@ == old(out)@ + chain_step(n as nat, *s),
{
    push_decimal(out, n);
    push_str(out, ". ");
    push_str(out, s.scenario_name.as_str());
    push_str(out, " (Confidence: ");
    push_decimal(out, s.attack_confidence_percent as usize);
    push_str(out, "%)\n");
    push_str(out, "   Techniques: ");
    let joined = join_with(&s.mapped_techniques, ", ");
    push_str(out, joined.as_str());
    push_str(out, "\n");
    push_str(out, "   Required Infrastructure:\n");
    push_bullets(out, "     • ", &s.infrastructure_indicators);
    assert(out@ =~= old(out)@ + chain_step(n as nat, *s));
}

/// Owned copies of string literals.
fn strings(items: &[&str]) -> (r: Vec<String>)
    ensures
        views(r@) == items@.map_values(|s: &str| s@),
{
    let mut r: Vec<String> = Vec::new();
    let mut i: usize = 0;
    while i < items.len()
        invariant
            i <= items@.len(),
            views(r@) == items@.take(i as int).map_values(|s: &str| s@),
        decreases items@.len() - i,
    {
        r.push(string_from(items[i]));
        assert(items@.take(i + 1).map_values(|s: &str| s@) =~= items@.take(i as int).map_values(|s: &str| s@).push(
            items@[i as int]@,
        ));
        assert(views(r@) =~= items@.take(i + 1).map_values(|s: &str| s@));
        i = i + 1;
    }
    assert(items@.take(i as int) =~= items@);
    r
}

/// A scenario on record.
fn incident(
    scenario_id: &str,
    scenario_name: &str,
    actor_id: &str,
    actor_name: &str,
    attack_confidence_percent: u32,
    mapped_techniques: &[&str],
    execution_phase: &str,
    infrastructure_indicators: &[&str],
    success_historical_rate_percent: u32,
    detection_difficulty: &str,
) -> (r: ScenarioIncident)
    ensures
        r.scenario_id@ == scenario_id@,
        r.actor_id@ == actor_id@,
        r.attack_confidence_percent == attack_confidence_percent,
        r.mapped_techniques@.len() == mapped_techniques@.len(),
        views(r.mapped_techniques@) == mapped_techniques@.map_values(|s: &str| s@),
        r.success_historical_rate_percent == success_historical_rate_percent,
        scenario_view(r) == (ScenarioRecord {
            scenario_id: scenario_id@,
            scenario_name: scenario_name@,
            actor_id: actor_id@,
            actor_name: actor_name@,
            attack_confidence_percent,
            mapped_techniques: mapped_techniques@.map_values(|s: &str| s@),
            execution_phase: execution_phase@,
            infrastructure_indicators: infrastructure_indicators@.map_values(|s: &str| s@),
            success_historical_rate_percent,
            detection_difficulty: detection_difficulty@,
        }),
{
    let techniques = strings(mapped_techniques);
    assert(views(techniques@).len() == techniques@.len());
    ScenarioIncident {
        scenario_id: string_from(scenario_id),
        scenario_name: string_from(scenario_name),
        actor_id: string_from(actor_id),
        actor_name: string_from(actor_name),
        attack_confidence_percent,
        mapped_techniques: techniques,
        execution_phase: string_from(execution_phase),
        infrastructure_indicators: strings(infrastructure_indicators),
        success_historical_rate_percent,
        detection_difficulty: string_from(detection_difficulty),
    }
}

impl IncidentMapper {
    /// The mappings keyed by actor id.
    pub closed spec fn entries(&self) -> Seq<(Seq<char>, ActorScenarioMapping)> {
        keyed_mappings(self.actor_scenarios@)
    }

    #[verifier::type_invariant]
    spec fn well_formed(self) -> bool {
        &&& unique_keys(keyed_mappings(self.actor_scenarios@))
        &&& forall|i: int| 0 <= i < self.actor_scenarios@.len() ==> mapping_ok(#[trigger] self.actor_scenarios@[i])
    }

    /// The mapper with the scenarios on record for APT29 and APT28.
    pub fn new() -> (r: Self)
        ensures
            r.entries().map_values(|e: (Seq<char>, ActorScenarioMapping)| e.0) == mapped_actor_ids(),
            r.entries().map_values(|e: (Seq<char>, ActorScenarioMapping)| mapping_facts(e.1)) == recorded_facts(),
            r.entries().map_values(|e: (Seq<char>, ActorScenarioMapping)| mapping_view(e.1)) == recorded_mappings(),
            unique_keys(r.entries()),
            forall|i: int| 0 <= i < r.entries().len() ==> mapping_ok(#[trigger] r.entries()[i].1),
    {
        let list = Self::build_mappings();
        let r = IncidentMapper { actor_scenarios: list };
        assert(r.entries().map_values(|e: (Seq<char>, ActorScenarioMapping)| e.0) =~= mapped_actor_ids());
        assert(r.entries().map_values(|e: (Seq<char>, ActorScenarioMapping)| mapping_facts(e.1)) =~= recorded_facts());
        assert(r.entries().map_values(|e: (Seq<char>, ActorScenarioMapping)| mapping_view(e.1)) =~= recorded_mappings());
        r
    }

    /// The scenarios on record, actor by actor.
    fn build_mappings() -> (r: Vec<ActorScenarioMapping>)
        ensures
            keyed_mappings(r@).map_values(|e: (Seq<char>, ActorScenarioMapping)| e.0) == mapped_actor_ids(),
            r@.map_values(|m: ActorScenarioMapping| mapping_facts(m)) == recorded_facts(),
            r@.map_values(|m: ActorScenarioMapping| mapping_view(m)) == recorded_mappings(),
            unique_keys(keyed_mappings(r@)),
            forall|i: int| 0 <= i < r@.len() ==> mapping_ok(#[trigger] r@[i]),
    {
        let s1 = incident(
            "APT-029-001",
            "Cozy Bear Credential Theft Campaign",
            "APT29",
            "APT29 / Cozy Bear",
            95,
            &["T1589", "T1598.003", "T1566.002"],
            "Initial Access & Persistence",
            &["Legitimate infrastructure hijacking", "Spear phishing email", "Office macro exploit"],
            85,
            "High",
        );
        let s2 = incident(
            "APT-029-002",
            "SolarWinds Supply Chain Attack",
            "APT29",
            "APT29 / Cozy Bear",
            98,
            &["T1195.002", "T1195.003", "T1090"],
            "Supply Chain Compromise",
            &["Compromised package repository", "Malicious update delivery", "Legitimate vendor infrastructure"],
            92,
            "Very High",
        );
        let s3 = incident(
            "APT-028-001",
            "Fancy Bear Credential Harvesting",
            "APT28",
            "APT28 / Fancy Bear",
            93,
            &["T1598.003", "T1589", "T1591"],
            "Reconnaissance & Social Engineering",
            &["Lookalike phishing domains", "Gmail account takeovers", "Watering hole attacks"],
            78,
            "Medium",
        );
        assert(scenario_facts(s1) =~~= ("APT-029-001"@, 95u32, seq!["T1589"@, "T1598.003"@, "T1566.002"@], 85u32));
        assert(scenario_facts(s2) =~~= ("APT-029-002"@, 98u32, seq!["T1195.002"@, "T1195.003"@, "T1090"@], 92u32));
        assert(scenario_facts(s3) =~~= ("APT-028-001"@, 93u32, seq!["T1598.003"@, "T1589"@, "T1591"@], 78u32));
        let apt29 = ActorScenarioMapping {
            actor_id: string_from("APT29"),
            known_scenarios: vec![s1, s2],
            preferred_techniques: strings(&["T1566.002", "T1598", "T1589", "T1195", "T1199"]),
            target_sectors: strings(&["Government", "Technology", "Utilities", "Defense Contractors"]),
            infrastructure_patterns: vec![
                (
                    string_from("C2"),
                    strings(&["SVR-hosted VPS", "Compromised infrastructure", "HTTPS on standard ports"]),
                ),
                (
                    string_from("Phishing"),
                    strings(&["Legitimate domain spoofing", "Email server compromise", "Office 365 federation abuse"]),
                ),
            ],
            success_rate_average_percent: 88,
            detection_evasion_score_percent: 92,
        };
        let apt28 = ActorScenarioMapping {
            actor_id: string_from("APT28"),
            known_scenarios: vec![s3],
            preferred_techniques: strings(&["T1598.003", "T1583", "T1589", "T1566"]),
            target_sectors: strings(&["Government", "Military", "Political Organizations"]),
            infrastructure_patterns: vec![
                (string_from("Phishing"), strings(&["Lookalike domains", "Typosquatting", "Homograph domains"])),
            ],
            success_rate_average_percent: 81,
            detection_evasion_score_percent: 75,
        };
        let r = vec![apt29, apt28];
        proof {
            reveal_strlit("APT29");
            reveal_strlit("APT28");
            assert("APT29"@[4] != "APT28"@[4]);
            assert(keyed_mappings(r@).map_values(|e: (Seq<char>, ActorScenarioMapping)| e.0) =~= mapped_actor_ids());
            assert(r@[0].known_scenarios@.len() == 2);
            assert(r@[1].known_scenarios@.len() == 1);
            assert(r@[0].known_scenarios@.map_values(|s: ScenarioIncident| scenario_facts(s)) =~~= recorded_facts()[0].0);
            assert(r@[1].known_scenarios@.map_values(|s: ScenarioIncident| scenario_facts(s)) =~~= recorded_facts()[1].0);
            assert(mapping_facts(r@[0]) =~~= recorded_facts()[0]);
            assert(mapping_facts(r@[1]) =~~= recorded_facts()[1]);
            assert(r@.map_values(|m: ActorScenarioMapping| mapping_facts(m)) =~~= recorded_facts());
            assert(mapping_view(r@[0]) =~~= recorded_mappings()[0]);
            assert(mapping_view(r@[1]) =~~= recorded_mappings()[1]);
            assert(r@.map_values(|m: ActorScenarioMapping| mapping_view(m)) =~~= recorded_mappings());
        }
        r
    }

    /// The position of the mapping of `actor_id`, if any.
    fn position(&self, actor_id: &str) -> (pos: Option<usize>)
        ensures
            match pos {
                Some(i) => {
                    &&& i < self.actor_scenarios@.len()
                    &&& lookup(self.entries(), actor_id@) == Some(self.actor_scenarios@[i as int])
                    &&& mapping_ok(self.actor_scenarios@[i as int])
                },
                None => lookup(self.entries(), actor_id@) is None,
            },
    {
        proof {
            use_type_invariant(self);
        }
        let want = chars_of(actor_id);
        let ghost e = self.entries();
        let mut i: usize = 0;
        while i < self.actor_scenarios.len()
            invariant
                i <= self.actor_scenarios@.len(),
                e == keyed_mappings(self.actor_scenarios@),
                unique_keys(e),
                forall|j: int| 0 <= j < self.actor_scenarios@.len() ==> mapping_ok(#[trigger] self.actor_scenarios@[j]),
                want@ == actor_id@,
                forall|j: int| 0 <= j < i ==> (#[trigger] e[j]).0 != actor_id@,
            decreases self.actor_scenarios@.len() - i,
        {
            if equal_chars(&chars_of(self.actor_scenarios[i].actor_id.as_str()), &want) {
                proof {
                    lemma_lookup_at(e, i as int);
                }
                return Some(i);
            }
            i = i + 1;
        }
        proof {
            lemma_lookup_absent(e, actor_id@);
        }
        None
    }

    /// The scenario mapping of an actor; an error for an actor without
    /// records.
    pub fn map_scenarios_to_actor(&self, actor_id: &str) -> (r: Result<String, String>)
        ensures
            match lookup(self.entries(), actor_id@) {
                Some(m) => r matches Ok(t) && t@ == mapping_report(m),
                None => r matches Err(e) && e@ == "No incident mappings found for actor: "@ + actor_id@,
            },
    {
        match self.position(actor_id) {
            Some(i) => {
                let m = &self.actor_scenarios[i];
                let mut out = string_from("=== Scenario-to-Incident Mapping ===\n\n");
                push_str(&mut out, "Actor: ");
                push_str(&mut out, m.actor_id.as_str());
                push_str(&mut out, " (");
                push_str(&mut out, m.actor_id.as_str());
                push_str(&mut out, ")\n");
                push_str(&mut out, "Average Success Rate: ");
                push_decimal(&mut out, m.success_rate_average_percent as usize);
                push_str(&mut out, ".0%\n");
                push_str(&mut out, "Evasion Capability Score: ");
                push_decimal(&mut out, m.detection_evasion_score_percent as usize);
                push_str(&mut out, ".0%\n\n");
                push_str(&mut out, "Known Attack Scenarios:\n");
                let ghost head = out@;
                let mut k: usize = 0;
                while k < m.known_scenarios.len()
                    invariant
                        k <= m.known_scenarios@.len(),
                        out@ == head + scenario_blocks(m.known_scenarios@.take(k as int)),
                    decreases m.known_scenarios@.len() - k,
                {
                    push_scenario_block(&mut out, k + 1, &m.known_scenarios[k]);
                    assert(m.known_scenarios@.take(k + 1).drop_last() =~= m.known_scenarios@.take(k as int));
                    k = k + 1;
                }
                assert(m.known_scenarios@.take(k as int) =~= m.known_scenarios@);
                push_str(&mut out, "\nTarget Sectors:\n");
                push_bullets(&mut out, "  • ", &m.target_sectors);
                push_str(&mut out, "\nPreferred Techniques:\n");
                push_bullets_twice(&mut out, "  • ", &m.preferred_techniques);
                assert(out@ =~= mapping_report(*m));
                Ok(out)
            },
            None => {
                let mut e = string_from("No incident mappings found for actor: ");
                push_str(&mut e, actor_id);
                Err(e)
            },
        }
    }

    /// The probable attack chain of an actor against a sector, from its
    /// scenarios of over 70 percent confidence; an error for an actor without
    /// records or without such scenarios.
    pub fn build_attack_chain(&self, actor_id: &str, target_sector: &str) -> (r: Result<String, String>)
        ensures
            match lookup(self.entries(), actor_id@) {
                Some(m) => if chain_scenarios(m).len() > 0 {
                    r matches Ok(t) && t@ == chain_report(actor_id@, target_sector@, m)
                } else {
                    r matches Err(e) && e@ == "No high-confidence scenarios found for "@ + actor_id@ + " targeting "@
                        + target_sector@
                },
                None => r matches Err(e) && e@ == "Actor not found: "@ + actor_id@,
            },
    {
        match self.position(actor_id) {
            Some(i) => {
                let m = &self.actor_scenarios[i];
                let ghost all = m.known_scenarios@;
                let ghost keep = |s: ScenarioIncident| s.attack_confidence_percent > 70;
                let mut steps = String::new();
                let mut n: usize = 0;
                let mut k: usize = 0;
                while k < m.known_scenarios.len()
                    invariant
                        k <= all.len(),
                        all == m.known_scenarios@,
                        keep == (|s: ScenarioIncident| s.attack_confidence_percent > 70),
                        n == all.take(k as int).filter(keep).len(),
                        n <= k,
                        steps@ == chain_steps(all.take(k as int).filter(keep)),
                    decreases all.len() - k,
                {
                    let s = &m.known_scenarios[k];
                    proof {
                        assert(all.take(k + 1).drop_last() =~= all.take(k as int));
                        reveal(Seq::filter);
                    }
                    if s.attack_confidence_percent > 70 {
                        let ghost before = steps@;
                        n = n + 1;
                        push_chain_step(&mut steps, n, s);
                        proof {
                            let f = all.take(k + 1).filter(keep);
                            assert(f.drop_last() =~= all.take(k as int).filter(keep));
                            assert(f.last() == *s);
                        }
                    }
                    k = k + 1;
                }
                assert(all.take(k as int) =~= all);
                if n == 0 {
                    let mut e = string_from("No high-confidence scenarios found for ");
                    push_str(&mut e, actor_id);
                    push_str(&mut e, " targeting ");
                    push_str(&mut e, target_sector);
                    return Err(e);
                }
                let mut out = string_from("=== Attack Chain Analysis ===\n\n");
                push_str(&mut out, "Actor: ");
                push_str(&mut out, actor_id);
                push_str(&mut out, "\n");
                push_str(&mut out, "Target Sector: ");
                push_str(&mut out, target_sector);
                push_str(&mut out, "\n\n");
                push_str(&mut out, "Probable Attack Sequence:\n");
                push_str(&mut out, steps.as_str());
                push_str(&mut out, "\nOverall Attack Chain Characteristics:\n");
                push_str(&mut out, "  • Attack Complexity: High\n");
                push_str(&mut out, "  • Average Success Rate: ");
                push_decimal(&mut out, m.success_rate_average_percent as usize);
                push_str(&mut out, "%\n");
                push_str(&mut out, "  • Detection Difficulty: ");
                if m.detection_evasion_score_percent > 85 {
                    push_str(&mut out, "Very High");
                } else {
                    push_str(&mut out, "High");
                }
                push_str(&mut out, "+\n");
                assert(out@ =~= chain_report(actor_id@, target_sector@, *m));
                Ok(out)
            },
            None => {
                let mut e = string_from("Actor not found: ");
                push_str(&mut e, actor_id);
                Err(e)
            },
        }
    }

    /// How often each technique is used across an actor's scenarios, most
    /// used first; an error for an actor without records.
    pub fn analyze_technique_usage(&self, actor_id: &str) -> (r: Result<String, String>)
        ensures
            match lookup(self.entries(), actor_id@) {
                Some(m) => r matches Ok(t) && is_usage_report(t@, actor_id@, m),
                None => r matches Err(e) && e@ == "Actor not found: "@ + actor_id@,
            },
    {
        match self.position(actor_id) {
            Some(i) => {
                let m = &self.actor_scenarios[i];
                let ghost all = m.known_scenarios@;
                let mut pairs: Vec<(String, String)> = Vec::new();
                let mut k: usize = 0;
                while k < m.known_scenarios.len()
                    invariant
                        k <= all.len(),
                        all == m.known_scenarios@,
                        pairs@.map_values(|p: (String, String)| (p.0@, p.1@)) == technique_pairs(all.take(k as int)),
                    decreases all.len() - k,
                {
                    let s = &m.known_scenarios[k];
                    let ghost base = pairs@.map_values(|p: (String, String)| (p.0@, p.1@));
                    let ghost tv = s.mapped_techniques@.map_values(|t: String| (t@, s.scenario_id@));
                    let mut j: usize = 0;
                    while j < s.mapped_techniques.len()
                        invariant
                            j <= s.mapped_techniques@.len(),
                            tv == s.mapped_techniques@.map_values(|t: String| (t@, s.scenario_id@)),
                            pairs@.map_values(|p: (String, String)| (p.0@, p.1@)) == base + tv.take(j as int),
                        decreases s.mapped_techniques@.len() - j,
                    {
                        let ghost before = pairs@;
                        pairs.push((s.mapped_techniques[j].clone(), s.scenario_id.clone()));
                        assert(pairs@.map_values(|p: (String, String)| (p.0@, p.1@)) =~= before.map_values(
                            |p: (String, String)| (p.0@, p.1@),
                        ).push(tv[j as int]));
                        assert(tv.take(j + 1) =~= tv.take(j as int).push(tv[j as int]));
                        j = j + 1;
                    }
                    assert(tv.take(j as int) =~= tv);
                    assert(all.take(k + 1).drop_last() =~= all.take(k as int));
                    k = k + 1;
                }
                assert(all.take(k as int) =~= all);
                let rows = tally(&pairs, true);
                let total = m.known_scenarios.len();
                let ghost pv = technique_pairs(all);
                proof {
                    lemma_technique_pairs_len(all);
                }
                let mut out = string_from("=== Technique Usage Analysis ===\n\n");
                push_str(&mut out, "Actor: ");
                push_str(&mut out, actor_id);
                push_str(&mut out, "\n\n");
                push_str(&mut out, "Technique Prevalence (across known scenarios):\n");
                let ghost head = out@;
                let mut x: usize = 0;
                while x < rows.len()
                    invariant
                        x <= rows@.len(),
                        0 < total <= 1000,
                        pv.len() <= 1_000_000,
                        is_count_ranking(rows@, pv),
                        out@ == head + usage_lines(rows@.take(x as int), total as nat),
                    decreases rows@.len() - x,
                {
                    let ghost before = out@;
                    proof {
                        lemma_lookup_at(tally_entries(rows@), x as int);
                        lemma_group_len(pv, rows@[x as int].0@);
                    }
                    let count = rows[x].1;
                    push_str(&mut out, "  ");
                    push_str(&mut out, rows[x].0.as_str());
                    push_str(&mut out, " - ");
                    let pct = percent_of(count, total);
                    push_decimal(&mut out, pct);
                    push_str(&mut out, "% (used in ");
                    push_decimal(&mut out, count);
                    push_str(&mut out, " scenarios)\n");
                    assert(rows@.take(x + 1).drop_last() =~= rows@.take(x as int));
                    assert(out@ =~= head + usage_lines(rows@.take(x + 1), total as nat));
                    x = x + 1;
                }
                assert(rows@.take(x as int) =~= rows@);
                proof {
                    let found = self.actor_scenarios@[i as int];
                    assert(found.known_scenarios@ == all);
                    assert(is_count_ranking(rows@, technique_pairs(found.known_scenarios@)));
                    assert(out@ =~= usage_report(actor_id@, rows@, found.known_scenarios@.len()));
                    assert(is_usage_report(out@, actor_id@, found));
                }
                Ok(out)
            },
            None => {
                let mut e = string_from("Actor not found: ");
                push_str(&mut e, actor_id);
                Err(e)
            },
        }
    }

    /// The infrastructure patterns of an actor, section by section; an error
    /// for an actor without records.
    pub fn get_infrastructure_patterns(&self, actor_id: &str) -> (r: Result<String, String>)
        ensures
            match lookup(self.entries(), actor_id@) {
                Some(m) => r matches Ok(t) && t@ == patterns_report(actor_id@, m),
                None => r matches Err(e) && e@ == "Actor not found: "@ + actor_id@,
            },
    {
        match self.position(actor_id) {
            Some(i) => {
                let m = &self.actor_scenarios[i];
                let mut out = string_from("=== Infrastructure Patterns ===\n\n");
                push_str(&mut out, "Actor: ");
                push_str(&mut out, actor_id);
                push_str(&mut out, "\n\n");
                let ghost head = out@;
                let mut k: usize = 0;
                while k < m.infrastructure_patterns.len()
                    invariant
                        k <= m.infrastructure_patterns@.len(),
                        out@ == head + pattern_sections(m.infrastructure_patterns@.take(k as int)),
                    decreases m.infrastructure_patterns@.len() - k,
                {
                    let ghost before = out@;
                    push_str(&mut out, m.infrastructure_patterns[k].0.as_str());
                    push_str(&mut out, ":\n");
                    push_bullets(&mut out, "  • ", &m.infrastructure_patterns[k].1);
                    push_str(&mut out, "\n");
                    assert(m.infrastructure_patterns@.take(k + 1).drop_last() =~= m.infrastructure_patterns@.take(
                        k as int,
                    ));
                    assert(out@ =~= head + pattern_sections(m.infrastructure_patterns@.take(k + 1)));
                    k = k + 1;
                }
                assert(m.infrastructure_patterns@.take(k as int) =~= m.infrastructure_patterns@);
                Ok(out)
            },
            None => {
                let mut e = string_from("Actor not found: ");
                push_str(&mut e, actor_id);
                Err(e)
            },
        }
    }
}

/// `count` out of `total` as a whole percentage (see `rounded_percent`).
fn percent_of(count: usize, total: usize) -> (r: usize)
    requires
        0 < total <= 1000,
        count <= 1_000_000,
    ensures
        r == rounded_percent(count as nat, total as nat),
{
    let c: u64 = count as u64 * 100;
    let t: u64 = total as u64;
    let q: u64 = c / t;
    let rem: u64 = c % t;
    assert(q <= c) by (nonlinear_arith)
        requires
            t > 0,
            q == c / t,
    ;
    if 2 * rem > t || (2 * rem == t && q % 2 == 1) {
        (q + 1) as usize
    } else {
        q as usize
    }
}

/// A key's group holds at most every pair.
proof fn lemma_group_len(pairs: Seq<(Seq<char>, Seq<char>)>, k: Seq<char>)
    ensures
        group_of(pairs, k).len() <= pairs.len(),
    decreases pairs.len(),
{
    if pairs.len() > 0 {
        lemma_group_len(pairs.drop_last(), k);
    }
}

/// Scenarios of at most a thousand techniques each give at most a thousand
/// technique pairs per scenario.
proof fn lemma_technique_pairs_len(scs: Seq<ScenarioIncident>)
    requires
        forall|i: int| 0 <= i < scs.len() ==> (#[trigger] scs[i]).mapped_techniques@.len() <= 1000,
    ensures
        technique_pairs(scs).len() <= 1000 * scs.len(),
    decreases scs.len(),
{
    if scs.len() > 0 {
        let d = scs.drop_last();
        assert forall|i: int| 0 <= i < d.len() implies (#[trigger] d[i]).mapped_techniques@.len() <= 1000 by {
            assert(d[i] == scs[i]);
        }
        lemma_technique_pairs_len(d);
        assert(scs[scs.len() - 1] == scs.last());
    }
}

} // verus!
