use huntsman::framework::{Detection, ScenarioSummary, StageSummary, Tactic, Technique};
use huntsman::scenario_report::{
    drill_id, drill_objectives, execution_counts, mapped_drills, stage_coverage, tactic_coverage,
    techniques_implemented, DrillSource,
};

fn scenario(id: &str, stages: &[(&str, &str, &str)]) -> ScenarioSummary {
    ScenarioSummary {
        id: id.to_string(),
        name: format!("{id} scenario"),
        stages: stages
            .iter()
            .map(|(stage, tactic, technique)| StageSummary {
                stage_id: stage.to_string(),
                tactic: tactic.to_string(),
                technique: technique.to_string(),
            })
            .collect(),
    }
}

fn detection(id: &str, technique: &str) -> Detection {
    Detection {
        id: id.to_string(),
        tier: "hunt".to_string(),
        technique: technique.to_string(),
        tactic: "Execution".to_string(),
        detection_name: "d".to_string(),
        data_source: "s".to_string(),
        query: "q".to_string(),
        tuning: None,
        associated_campaigns: vec![],
    }
}

fn technique(id: &str, tactic: &str) -> Technique {
    Technique { id: id.to_string(), name: format!("{id} name"), tactic: tactic.to_string() }
}

#[test]
fn coverage_counts_stages_and_distinct_techniques() {
    let s = scenario(
        "APT29-001",
        &[("1", "Initial Access", "T1566"), ("2", "Execution", "T1059"), ("3", "Initial Access", "T1566")],
    );
    let dets = vec![detection("D1", "T1566")];
    assert_eq!(stage_coverage(&s, &dets), (2, 3));
    let counts = execution_counts(&s, &dets);
    assert_eq!(counts.total_stages, 3);
    assert_eq!(counts.unique_techniques, 2);
    assert_eq!(counts.techniques_covered_by_detections, 1);
    assert_eq!(counts.detection_gaps, 1);
    assert_eq!(stage_coverage(&scenario("E", &[]), &dets), (0, 0));
}

#[test]
fn drill_plan_parts() {
    let s = scenario("APT29-001", &[("1", "Initial Access", "T1566"), ("2", "Execution", "T1059")]);
    assert_eq!(
        drill_objectives(&s),
        vec![
            "Detect and respond to Initial Access: T1566".to_string(),
            "Detect and respond to Execution: T1059".to_string()
        ]
    );
    assert_eq!(drill_id("APT29-001", "20240101"), "ir-drill-APT29-20240101");
    assert_eq!(drill_id("NODASH", "20240101"), "ir-drill-NODASH-20240101");
    let drills = vec![
        DrillSource { drill_id: "DR-1".to_string(), scenario_source: "APT29-003".to_string() },
        DrillSource { drill_id: "DR-2".to_string(), scenario_source: "FIN7-001".to_string() },
        DrillSource { drill_id: "DR-3".to_string(), scenario_source: "APT29".to_string() },
    ];
    assert_eq!(mapped_drills(&drills, "APT29-001"), vec!["DR-1".to_string(), "DR-3".to_string()]);
    assert!(mapped_drills(&drills, "APT28-001").is_empty());
}

#[test]
fn attack_coverage_per_tactic() {
    let scenarios = vec![
        scenario("S1", &[("1", "Initial Access", "T1566"), ("2", "Execution", "T1059")]),
        scenario("S2", &[("1", "Execution", "T1059")]),
    ];
    let tactics = vec![
        Tactic { id: "TA0001".to_string(), name: "Initial Access".to_string() },
        Tactic { id: "TA0002".to_string(), name: "Execution".to_string() },
        Tactic { id: "TA0040".to_string(), name: "Impact".to_string() },
    ];
    let techniques = vec![
        technique("T1566", "Initial Access"),
        technique("T1078", "Initial Access"),
        technique("T1059", "Execution"),
    ];
    let rows = tactic_coverage(&scenarios, &tactics, &techniques);
    let got: Vec<(&str, usize, usize)> = rows.iter().map(|r| (r.tactic.as_str(), r.implemented, r.total)).collect();
    assert_eq!(got, vec![("Initial Access", 1, 2), ("Execution", 1, 1), ("Impact", 0, 0)]);
    assert_eq!(techniques_implemented(&scenarios), 2);
}
