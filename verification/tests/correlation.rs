use huntsman::osint::correlation::CorrelationEngine;
use huntsman::osint::threat_feeds::{ThreatActor, ThreatIntelligenceFeed};

fn strings(items: &[&str]) -> Vec<String> {
    items.iter().map(|s| s.to_string()).collect()
}

fn actor(id: &str, techniques: &[&str]) -> ThreatActor {
    ThreatActor::from_framework(
        id.to_string(),
        vec![],
        "Russia (SVR)",
        "espionage".to_string(),
        strings(&["Government"]),
        strings(&["campaign"]),
        strings(techniques),
        strings(&["behaviour"]),
    )
}

/// Three actors with overlapping techniques.
fn feed() -> ThreatIntelligenceFeed {
    ThreatIntelligenceFeed::from_actors(vec![
        actor("APT29", &["T1566", "T1078", "T1195", "T1566"]),
        actor("APT28", &["T1566", "T1110", "T1078"]),
        actor("FIN7", &["T1566", "T1204"]),
        actor("LONE", &["T9999"]),
    ])
}

#[test]
fn test_correlate_all_actors() {
    let engine = CorrelationEngine::new(feed());
    let correlations = engine.correlate_all_actors();
    assert!(!correlations.is_empty());
    assert_eq!(correlations.len(), 3);
    assert_eq!(correlations[0].actor1_id, "APT29");
    assert_eq!(correlations[0].actor2_id, "APT28");
    assert_eq!(correlations[0].correlation_score, 2);
    let mut shared = correlations[0].shared_techniques.clone();
    shared.sort();
    assert_eq!(shared, strings(&["T1078", "T1566"]));
    assert_eq!((correlations[1].actor1_id.as_str(), correlations[1].actor2_id.as_str()), ("APT29", "FIN7"));
    assert_eq!((correlations[2].actor1_id.as_str(), correlations[2].actor2_id.as_str()), ("APT28", "FIN7"));
    assert_eq!(correlations[2].shared_techniques, strings(&["T1566"]));
}

#[test]
fn correlate_pair_is_symmetric_in_score() {
    let engine = CorrelationEngine::new(feed());
    let ab = engine.correlate_pair("APT29", "APT28");
    let ba = engine.correlate_pair("APT28", "APT29");
    assert_eq!(ab.correlation_score, ba.correlation_score);
    assert_eq!(ab.actor1_id, "APT29");
    assert_eq!(ba.actor1_id, "APT28");
    let none = engine.correlate_pair("APT29", "LONE");
    assert!(none.shared_techniques.is_empty());
    assert_eq!(none.correlation_score, 0);
}

#[test]
fn test_ttp_patterns() {
    let engine = CorrelationEngine::new(feed());
    let patterns = engine.get_ttp_patterns();
    assert!(!patterns.is_empty());
    for pattern in &patterns {
        assert!(!pattern.actors.is_empty());
        assert!(pattern.count <= pattern.total_actors);
    }
    assert_eq!(patterns[0].technique, "T1566");
    assert_eq!(patterns[0].actors, strings(&["APT29", "APT28", "FIN7"]));
    assert_eq!(patterns[0].count, 3);
    assert_eq!(patterns[0].total_actors, 4);
    assert_eq!(patterns[1].technique, "T1078");
    assert_eq!(patterns[1].count, 2);
    let rest: Vec<&str> = patterns[2..].iter().map(|p| p.technique.as_str()).collect();
    assert_eq!(rest, vec!["T1110", "T1195", "T1204", "T9999"]);
}

#[test]
fn test_most_common_techniques() {
    let engine = CorrelationEngine::new(feed());
    let techniques = engine.get_most_common_techniques(3);
    assert!(techniques.len() <= 3);
    let names: Vec<&str> = techniques.iter().map(|p| p.technique.as_str()).collect();
    assert_eq!(names, vec!["T1566", "T1078", "T1110"]);
    assert_eq!(engine.get_most_common_techniques(100).len(), 6);
    assert!(engine.get_most_common_techniques(0).is_empty());
}

#[test]
fn actor_network_links_and_totals() {
    let engine = CorrelationEngine::new(feed());
    let network = engine.get_actor_network("FIN7").unwrap();
    assert_eq!(network.actor_id, "FIN7");
    assert_eq!(network.connected_actors.len(), 2);
    assert_eq!(network.shared_technique_count, 2);
    let apt29 = engine.get_actor_network("APT29").unwrap();
    assert_eq!(apt29.shared_technique_count, 3);
    assert!(engine.get_actor_network("LONE").is_none());
    assert!(engine.get_actor_network("NOBODY").is_none());
}
