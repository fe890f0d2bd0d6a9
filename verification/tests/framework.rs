use huntsman::framework::{
    actors_for_sector, campaigns_for_technique, detections_for_technique, get_actor, list_scenarios,
    scenarios_for_technique, technique_by_id, techniques_by_tactic, Campaign, Detection, ReconTechnique,
    ScenarioSummary, StageSummary, Technique, ThreatActor, TTP,
};
use huntsman::paths::{join_path, FrameworkPaths};
use huntsman::technique_index::{build_coverage_matrix, build_technique_index};

fn technique(id: &str, tactic: &str) -> Technique {
    Technique { id: id.to_string(), name: format!("{id} name"), tactic: tactic.to_string() }
}

fn detection(id: &str, technique: &str) -> Detection {
    Detection {
        id: id.to_string(),
        tier: "hunt".to_string(),
        technique: technique.to_string(),
        tactic: "Execution".to_string(),
        detection_name: "d".to_string(),
        data_source: "s".to_string(),
        query: "q".to_string(),
        tuning: None,
        associated_campaigns: vec![],
    }
}

#[test]
fn detections_are_filtered_by_exact_technique() {
    let list = vec![detection("D1", "T1059"), detection("D2", "T1059.001"), detection("D3", "T1059")];
    let ids: Vec<String> = detections_for_technique(list, "T1059").into_iter().map(|d| d.id).collect();
    assert_eq!(ids, vec!["D1".to_string(), "D3".to_string()]);
}

#[test]
fn techniques_by_tactic_and_id() {
    let list = vec![technique("T1", "Execution"), technique("T2", "Persistence"), technique("T1", "Impact")];
    assert_eq!(technique_by_id(&list, "T1").unwrap().tactic, "Execution");
    assert!(technique_by_id(&list, "T9").is_none());
    let exec = techniques_by_tactic(list, "Execution");
    assert_eq!(exec.len(), 1);
}

fn scenario(id: &str, stages: &[(&str, &str)]) -> ScenarioSummary {
    ScenarioSummary {
        id: id.to_string(),
        name: format!("{id} scenario"),
        stages: stages
            .iter()
            .map(|(stage, technique)| StageSummary {
                stage_id: stage.to_string(),
                tactic: "Execution".to_string(),
                technique: technique.to_string(),
            })
            .collect(),
    }
}

fn campaign(id: &str, techniques: &[&str]) -> Campaign {
    Campaign {
        id: id.to_string(),
        name: format!("{id} campaign"),
        associated_actors: vec![],
        techniques: techniques.iter().map(|t| t.to_string()).collect(),
    }
}

fn actor(id: &str, techniques: &[&str], sectors: &[&str]) -> ThreatActor {
    ThreatActor {
        id: id.to_string(),
        aliases: vec![],
        characteristic_ttps: techniques
            .iter()
            .map(|t| TTP { tactic: "Execution".to_string(), technique: t.to_string(), name: "ttp".to_string() })
            .collect(),
        target_sectors: sectors.iter().map(|s| s.to_string()).collect(),
        sophistication: "high".to_string(),
        emulation_difficulty: "medium".to_string(),
    }
}

fn recon(id: &str) -> ReconTechnique {
    ReconTechnique {
        id: id.to_string(),
        technique_name: "r".to_string(),
        category: "passive".to_string(),
        footprint_risk: "low".to_string(),
        description: None,
    }
}

fn ids<T>(list: &[T], id: impl Fn(&T) -> String) -> Vec<String> {
    list.iter().map(id).collect()
}

#[test]
fn scenarios_campaigns_and_actors_are_filtered() {
    let scenarios = vec![
        scenario("S2", &[("1", "T1566"), ("2", "T1059")]),
        scenario("S1", &[("1", "T1078")]),
        scenario("S3", &[("1", "T1059"), ("2", "T1059")]),
    ];
    let hits = scenarios_for_technique(scenarios, "T1059");
    assert_eq!(ids(&hits, |s| s.id.clone()), vec!["S2", "S3"]);

    let campaigns = vec![campaign("C1", &["T1059", "T1566"]), campaign("C2", &["T1059.001"])];
    let hits = campaigns_for_technique(campaigns, "T1059");
    assert_eq!(ids(&hits, |c| c.id.clone()), vec!["C1"]);

    let actors = vec![actor("A1", &[], &["Finance", "Energy"]), actor("A2", &[], &["Financial Services"])];
    assert_eq!(ids(&actors_for_sector(actors.clone(), "Finance"), |a| a.id.clone()), vec!["A1"]);
    assert_eq!(get_actor(&actors, "A2").unwrap().target_sectors, vec!["Financial Services".to_string()]);
    assert!(get_actor(&actors, "a2").is_none());
}

#[test]
fn scenarios_are_listed_by_id() {
    let scenarios = vec![scenario("S3", &[]), scenario("S1", &[]), scenario("S2", &[])];
    let listed = list_scenarios(&scenarios);
    let order: Vec<&str> = listed.iter().map(|s| s.id.as_str()).collect();
    assert_eq!(order, vec!["S1", "S2", "S3"]);
}

#[test]
fn technique_index_gathers_every_reference_once() {
    let scenarios = vec![scenario("S1", &[("1", "T1566"), ("2", "T1059"), ("3", "T1566")])];
    let detections = vec![detection("D1", "T1059"), detection("D2", "T1059"), detection("D1", "T1059")];
    let campaigns = vec![campaign("C1", &["T1566", "T1071"])];
    let actors = vec![actor("APT1", &["T1566", "T1059"], &[]), actor("APT2", &["T1566"], &[])];
    let recon_list = vec![recon("T1595"), recon("R-01")];
    let mitre = vec![technique("T1595", "Reconnaissance"), technique("T1566", "Initial Access")];
    let index = build_technique_index(&scenarios, &detections, &campaigns, &actors, &recon_list, &mitre);

    let keys: Vec<&str> = index.iter().map(|e| e.id.as_str()).collect();
    assert_eq!(keys, vec!["T1566", "T1059", "T1071", "T1595"]);
    let phishing = &index[0];
    assert_eq!(phishing.scenarios, vec!["S1".to_string()]);
    assert_eq!(phishing.campaigns, vec!["C1".to_string()]);
    assert_eq!(phishing.actors, vec!["APT1".to_string(), "APT2".to_string()]);
    assert!(phishing.detections.is_empty());
    let exec = &index[1];
    assert_eq!(exec.detections, vec!["D1".to_string(), "D2".to_string()]);
    assert_eq!(exec.actors, vec!["APT1".to_string()]);
    assert_eq!(index[3].recon_techniques, vec!["T1595".to_string()]);
}

#[test]
fn coverage_matrix_rows_per_stage() {
    let scenarios = vec![scenario("S1", &[("1", "T1566"), ("2", "T1059")]), scenario("S2", &[("a", "T1078")])];
    let detections = vec![detection("D1", "T1059"), detection("D2", "T1059")];
    let rows = build_coverage_matrix(&scenarios, &detections);
    assert_eq!(rows.len(), 3);
    assert_eq!(rows[0].scenario_id, "S1");
    assert_eq!(rows[0].coverage_percent, 0);
    assert!(rows[0].detection_coverage.is_empty());
    assert_eq!(rows[1].stage_id, "2");
    assert_eq!(rows[1].detection_coverage, vec!["D1".to_string(), "D2".to_string()]);
    assert_eq!(rows[1].coverage_percent, 100);
    assert_eq!(rows[2].scenario_id, "S2");
    assert_eq!(rows[2].technique, "T1078");
}

#[test]
fn framework_paths_follow_the_directory_layout() {
    let p = FrameworkPaths::under("/repo/red-team");
    assert_eq!(p.red_team_dir, "/repo/red-team");
    assert_eq!(p.scenarios_dir, "/repo/red-team/scenarios");
    assert_eq!(p.threat_actors_file, "/repo/red-team/intelligence-led/threat-actors.json");
    assert_eq!(p.attack_surface_file, "/repo/red-team/intelligence-led/reconnaissance/attack-surface.json");
    assert_eq!(p.detections_file, "/repo/red-team/intelligence-led/detection-mapping/detections.json");
    assert_eq!(p.campaigns_dir, "/repo/red-team/intelligence-led/campaigns");
    assert_eq!(p.drill_framework_file, "/repo/red-team/incident-response/drill-framework.json");
    assert_eq!(p.index_file, "/repo/red-team/mitre-attack/index.json");
    assert_eq!(FrameworkPaths::under("base/").reports_dir, "base/reports");
    assert_eq!(FrameworkPaths::under("").mitre_dir, "mitre-attack");
    assert_eq!(join_path("a", "b"), std::path::Path::new("a").join("b").to_string_lossy());
    assert_eq!(join_path("a/", "b"), std::path::Path::new("a/").join("b").to_string_lossy());
}
