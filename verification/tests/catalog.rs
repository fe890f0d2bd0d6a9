use huntsman::catalog::{parse_catalogs, search, Detection};

fn strings(items: &[&str]) -> Vec<String> {
    items.iter().map(|s| s.to_string()).collect()
}

/// The two entries of the sample catalog: a hunt detection and a blind spot.
fn sample() -> Vec<Detection> {
    let h06 = Detection {
        id: "H-06".to_string(),
        name: "Office app spawns a shell".to_string(),
        tier: "hunt".to_string(),
        techniques: strings(&["T1566.001", "T1204.002"]),
        tactics: strings(&["Execution"]),
        actors: strings(&["FIN7"]),
        fidelity: "very-high".to_string(),
        priority: String::new(),
        data_source: "DeviceProcessEvents".to_string(),
        dialect: "KQL".to_string(),
        summary: "macro spawns powershell".to_string(),
        query: "DeviceProcessEvents ...".to_string(),
        tuning: "low FP".to_string(),
    };
    let b01 = Detection {
        id: "B-01".to_string(),
        name: "Endpoints went dark".to_string(),
        tier: "blind-spot".to_string(),
        techniques: vec![],
        tactics: vec![],
        actors: vec![],
        fidelity: "high".to_string(),
        priority: String::new(),
        data_source: "DeviceInfo".to_string(),
        dialect: "KQL".to_string(),
        summary: "EDR telemetry stopped".to_string(),
        query: "DeviceInfo ...".to_string(),
        tuning: "exclude decom".to_string(),
    };
    parse_catalogs(vec![Ok(vec![h06, b01])]).unwrap()
}

#[test]
fn parses_and_defaults_empty_vecs() {
    let cat = sample();
    assert_eq!(cat.len(), 2);
    let b01 = cat.iter().find(|d| d.id == "B-01").unwrap();
    assert!(b01.techniques.is_empty());
    assert!(b01.actors.is_empty());
}

#[test]
fn technique_matches_parent_and_child() {
    let cat = sample();
    let h06 = &cat[0];
    assert!(h06.covers_technique("T1566.001"));
    assert!(h06.covers_technique("T1566"));
    assert!(!h06.covers_technique("T1059"));
}

#[test]
fn search_ranks_by_term_matches() {
    let cat = sample();
    let hits = search(&cat, "powershell edr");
    assert!(!hits.is_empty());
    let hits2 = search(&cat, "office powershell fin7");
    assert_eq!(hits2[0].1.id, "H-06");
    assert!(hits2[0].0 >= 2);
}

#[test]
fn actor_filter_is_case_insensitive() {
    let cat = sample();
    assert!(cat[0].has_actor("fin7"));
    assert!(!cat[1].has_actor("fin7"));
}

#[test]
fn technique_match_ignores_case_and_unrelated_prefixes() {
    let cat = sample();
    assert!(cat[0].covers_technique("t1566.001"));
    assert!(cat[0].covers_technique("T1204.002"));
    assert!(!cat[0].covers_technique("T156"));
    assert!(!cat[1].covers_technique("T1566"));
}

#[test]
fn search_orders_by_score_then_id() {
    let cat = sample();
    // "kql" matches neither haystack (the dialect is not searchable).
    assert!(search(&cat, "kql").is_empty());
    // "device" matches both once; ties are broken by id, B-01 before H-06.
    let hits = search(&cat, "device");
    assert_eq!(hits.len(), 2);
    assert_eq!(hits[0].0, 1);
    assert_eq!(hits[0].1.id, "B-01");
    assert_eq!(hits[1].1.id, "H-06");
    // Terms are counted once each; an empty query finds nothing.
    let hits = search(&cat, "  EDR   telemetry  ");
    assert_eq!(hits.len(), 1);
    assert_eq!(hits[0].0, 2);
    assert!(search(&cat, "   ").is_empty());
}

#[test]
fn label_prefers_fidelity_then_priority() {
    let mut cat = sample();
    assert_eq!(cat[0].label(), "very-high");
    cat[0].fidelity = String::new();
    cat[0].priority = "P1".to_string();
    assert_eq!(cat[0].label(), "P1");
}

#[test]
fn haystack_joins_searchable_fields_lowercased() {
    let cat = sample();
    assert_eq!(
        cat[1].haystack(),
        "b-01 endpoints went dark blind-spot    high  deviceinfo edr telemetry stopped deviceinfo ... exclude decom"
    );
    assert!(cat[0].haystack().contains("t1566.001 t1204.002 execution fin7"));
}

#[test]
fn tactic_filter_matches_substrings() {
    let cat = sample();
    assert!(cat[0].has_tactic("exec"));
    assert!(!cat[0].has_tactic("persistence"));
}

#[test]
fn parse_catalogs_concatenates_and_stops_at_first_error() {
    let first = sample();
    let second = sample();
    let all = parse_catalogs(vec![Ok(first), Ok(vec![]), Ok(second)]).unwrap();
    assert_eq!(all.len(), 4);
    assert_eq!(all[2].id, "H-06");
    let bad = serde_json::from_str::<serde_json::Value>("{").unwrap_err();
    let line = bad.line();
    let r = parse_catalogs(vec![Ok(sample()), Err(bad), Ok(sample())]);
    match r {
        Err(e) => assert_eq!(e.line(), line),
        Ok(_) => panic!("expected the parse error"),
    }
}
