use huntsman::osint::attribution::{
    breach_year, geography_confidence_per_mille, geography_indicator_value, geography_weight_per_mille,
    is_corporate_domain, is_recent_year,
};
use huntsman::osint::attribution::AttributionEngine;
use huntsman::osint::cache::{CacheEntry, OsintCache};
use huntsman::osint::config::OsintApiConfig;
use huntsman::osint::correlation::CorrelationEngine;
use huntsman::osint::detection_rules::{DetectionRuleGenerator, RuleFormat};
use huntsman::osint::geolocation::{BreachVictimData, GeolocationEngine};
use huntsman::osint::models::recommendations_for_risk;
use huntsman::osint::sources::{DataSourceType, MockDataSource, SourceConfig};
use huntsman::osint::threat_feeds::{ThreatActor, ThreatIntelligenceFeed};
use huntsman::osint::timeline::{AttackStage, TimelineAnalyzer};

fn strings(items: &[&str]) -> Vec<String> {
    items.iter().map(|s| s.to_string()).collect()
}

fn actor(id: &str, country: &str, techniques: &[&str], targets: &[&str]) -> ThreatActor {
    ThreatActor::from_framework(
        id.to_string(),
        vec![],
        country,
        "espionage".to_string(),
        strings(targets),
        strings(&["campaign"]),
        strings(techniques),
        strings(&["behaviour"]),
    )
}

/// A small feed: two Russian actors and one North Korean actor.
fn feed() -> ThreatIntelligenceFeed {
    ThreatIntelligenceFeed::from_actors(vec![
        actor("APT29", "Russia (SVR)", &["T1566.002", "T1078", "T1195.002"], &["Government", "Enterprise IT"]),
        actor("APT28", "Russia (GRU)", &["T1110"], &["Government", "Defense"]),
        actor("LAZARUS", "North Korea", &["T1566.001"], &["Finance"]),
    ])
}

fn breach(name: &str, date: &str, hash: Option<&str>, fields: &[&str], forum: &str, recoverable: bool) -> BreachVictimData {
    BreachVictimData {
        breach_name: name.to_string(),
        breach_date: date.to_string(),
        victim_email: "test@example.com".to_string(),
        victim_location: None,
        username: None,
        password_hash: hash.map(|h| h.to_string()),
        exposed_fields: strings(fields),
        stealer_forum: forum.to_string(),
        recovery_possible: recoverable,
    }
}

#[test]
fn config_test_default_config() {
    let config = OsintApiConfig::default();
    assert!(config.haveibeenpwned_enabled);
    assert!(!config.use_mock_data);
}

#[test]
fn test_config_builder() {
    let config = OsintApiConfig::default().with_virustotal_key("test_key".to_string()).with_mock_data(true);
    assert!(config.virustotal_key.is_some());
    assert!(config.use_mock_data);
}

#[test]
fn test_config_summary() {
    let config = OsintApiConfig::default();
    let summary = config.get_summary();
    assert!(summary.contains("OSINT API Configuration"));
    assert!(summary.contains("VirusTotal"));
}

#[test]
fn config_summary_lines() {
    let config = OsintApiConfig::default().with_abuseipdb_key("k".to_string()).with_hibp_enabled(false);
    assert_eq!(
        config.get_summary(),
        "=== OSINT API Configuration ===\nVirusTotal: ✗ Not configured\nAbuseIPDB: ✓ Configured\nHaveIBeenPwned: ✗ Disabled\nMock Data: ✗ Disabled\n===============================\n"
    );
}

#[test]
fn test_source_config_default() {
    let config = SourceConfig::default();
    assert!(config.sources_enabled.contains(&DataSourceType::HaveIBeenPwned));
    assert_eq!(config.cache_ttl_seconds, 3600);
}

#[test]
fn test_attack_stage_inference() {
    let analyzer = TimelineAnalyzer::new(ThreatIntelligenceFeed::empty());
    let breach = BreachVictimData {
        breach_name: "Test".to_string(),
        breach_date: "2021-06-21".to_string(),
        victim_email: "test@example.com".to_string(),
        victim_location: None,
        username: None,
        password_hash: Some("hash".to_string()),
        exposed_fields: vec!["email".to_string()],
        stealer_forum: "Test".to_string(),
        recovery_possible: false,
    };
    let stage = analyzer.infer_attack_stage(&breach);
    assert_eq!(stage, AttackStage::Installation);
}

#[test]
fn test_duration_calculation() {
    let analyzer = TimelineAnalyzer::new(ThreatIntelligenceFeed::empty());
    let duration = analyzer.calculate_duration_days(Some("2021-01-01"), Some("2021-12-31"));
    assert!(duration > 0);
}

#[test]
fn duration_values() {
    let analyzer = TimelineAnalyzer::new(ThreatIntelligenceFeed::empty());
    assert_eq!(analyzer.calculate_duration_days(Some("2021-01-01"), Some("2021-12-31")), 1130);
    assert_eq!(analyzer.calculate_duration_days(Some("2021-12-31"), Some("2021-01-01")), 1130);
    assert_eq!(analyzer.calculate_duration_days(Some("2013-08-24"), Some("2021-06-21")), 7);
    assert_eq!(analyzer.calculate_duration_days(None, Some("2021-06-21")), 0);
    // An unparsable date counts as 0.
    assert_eq!(analyzer.calculate_duration_days(Some("garbage"), Some("+9000")), 9000);
    assert_eq!(analyzer.calculate_duration_days(Some("99999999999"), Some("1")), 1);
}

#[test]
fn test_timeline_analysis() {
    let analyzer = TimelineAnalyzer::new(ThreatIntelligenceFeed::empty());
    let timeline = analyzer.analyze_attack_timeline("test@example.com", &[]);
    assert_eq!(timeline.total_events, 0);
    assert_eq!(timeline.likely_attack_vector, "Unknown");
}

#[test]
fn timeline_orders_events_by_date() {
    let analyzer = TimelineAnalyzer::new(ThreatIntelligenceFeed::empty());
    let engine = GeolocationEngine::new();
    let breaches = engine.get_breach_victim_data("test@gmail.com");
    let t = analyzer.analyze_attack_timeline("test@gmail.com", &breaches);
    assert_eq!(t.total_events, 2);
    assert_eq!(t.events[0].event_type, "Twitter 2021");
    assert_eq!(t.events[0].confidence_percent, 60);
    assert_eq!(t.events[1].confidence_percent, 80);
    assert_eq!(t.events[0].description, "Breach: Twitter 2021 - Exposed fields: email, phone");
    assert_eq!(t.events[0].stage, AttackStage::Delivery);
    assert_eq!(t.events[1].stage, AttackStage::Weaponization);
    assert_eq!(t.stage_progression, vec![AttackStage::Delivery, AttackStage::Weaponization]);
    assert_eq!(t.earliest_event.as_deref(), Some("2021-06-01"));
    assert_eq!(t.latest_event.as_deref(), Some("2021-06-21"));
    assert_eq!(t.attack_duration_days, 20);
    assert_eq!(t.likely_attack_vector, "Data Exposure / Breach");
    assert_eq!(t.estimated_attacker_country.as_deref(), Some("Russia"));
    assert_eq!(t.events[0].indicators, strings(&["Twitter 2021", "United States", "BreachForums"]));
}

#[test]
fn test_attack_vector_determination() {
    let analyzer = TimelineAnalyzer::new(ThreatIntelligenceFeed::empty());
    let vector = analyzer.determine_attack_vector(&[]);
    assert!(!vector.is_empty());
    let phish = [breach("Big PHISHING wave", "2020-01-01", None, &["email"], "x", true)];
    assert_eq!(analyzer.determine_attack_vector(&phish), "Phishing / Social Engineering");
    let creds = [
        breach("a", "2020-01-01", Some("h"), &["email"], "x", true),
        breach("b", "2020-01-02", None, &["email"], "x", true),
    ];
    assert_eq!(analyzer.determine_attack_vector(&creds), "Credential Compromise / Lateral Movement");
}

#[test]
fn attacker_country_follows_forum_table() {
    let analyzer = TimelineAnalyzer::new(ThreatIntelligenceFeed::empty());
    let bs = [
        breach("a", "2020", None, &[], "private", true),
        breach("b", "2020", None, &[], "the Underground board", true),
    ];
    assert_eq!(analyzer.infer_attacker_country(&bs).as_deref(), Some("China"));
    assert!(analyzer.infer_attacker_country(&bs[..1]).is_none());
}

#[test]
fn stage_names_and_descriptions() {
    assert_eq!(AttackStage::CommandControl.as_str(), "Command & Control");
    assert_eq!(AttackStage::Actions.description(), "Attacker performs mission objectives");
}

#[test]
fn test_attack_stage_determination() {
    let engine = AttributionEngine::new(ThreatIntelligenceFeed::empty());
    let stage = engine.determine_attack_stage(&[]);
    assert_eq!(stage, "reconnaissance");
}

#[test]
fn attack_stage_from_exposures() {
    let engine = AttributionEngine::new(ThreatIntelligenceFeed::empty());
    let geo = GeolocationEngine::new();
    assert_eq!(engine.determine_attack_stage(&geo.get_breach_victim_data("x@gmail.com")), "post_compromise");
    assert_eq!(engine.determine_attack_stage(&geo.get_breach_victim_data("x@yahoo.com")), "credential_theft");
}

#[test]
fn test_geographic_fingerprint() {
    let engine = AttributionEngine::new(ThreatIntelligenceFeed::empty());
    assert_eq!(engine.build_geographic_fingerprint(&vec![]), "unknown");
    assert_eq!(engine.build_geographic_fingerprint(&strings(&["Russia", "Russia"])), "Single-country: Russia");
    assert_eq!(engine.build_geographic_fingerprint(&strings(&["Russia", "China"])), "Multi-country: Russia, China");
}

#[test]
fn response_recommendations_for_an_actor() {
    let engine = AttributionEngine::new(feed());
    let geo = GeolocationEngine::new();
    let yahoo = geo.get_breach_victim_data("x@yahoo.com");
    let r = engine.generate_response_recommendations(Some("APT29"), &yahoo);
    assert_eq!(
        r,
        strings(&[
            "Review APT29 techniques and TTPs for indicators of compromise",
            "This actor targets: Government, Enterprise IT",
            "Assume full account compromise - reset all credentials immediately",
            "Set up breach monitoring alerts for this email",
        ])
    );
    let gmail = geo.get_breach_victim_data("x@gmail.com");
    let r = engine.generate_response_recommendations(None, &gmail);
    assert_eq!(
        r,
        strings(&[
            "Change passwords for all accounts, enable MFA where available",
            "Monitor for SIM swap and account takeover attacks",
            "Set up breach monitoring alerts for this email",
        ])
    );
}

#[test]
fn detection_opportunities_for_an_actor() {
    let engine = AttributionEngine::new(feed());
    let r = engine.identify_detection_opportunities(Some("APT29"), "Single-country: Russia");
    assert_eq!(
        r,
        strings(&[
            "Monitor for APT29 infrastructure",
            "Implement detection for T1566.002 technique usage",
            "Implement detection for T1078 technique usage",
            "Implement detection for T1195.002 technique usage",
            "Enable logging on all compromised systems",
            "Review email forwarding rules and recovery options",
        ])
    );
    assert_eq!(engine.identify_detection_opportunities(Some("NOBODY"), "").len(), 2);
}

#[test]
fn incident_severity_and_recovery() {
    let engine = AttributionEngine::new(ThreatIntelligenceFeed::empty());
    assert_eq!(engine.exposure_severity(0), "low");
    assert_eq!(engine.exposure_severity(1), "medium");
    assert_eq!(engine.exposure_severity(3), "high");
    assert_eq!(engine.exposure_severity(4), "critical");
    let geo = GeolocationEngine::new();
    assert_eq!(engine.recovery_difficulty(&geo.get_breach_victim_data("x@yahoo.com")), "difficult");
    assert_eq!(engine.recovery_difficulty(&geo.get_breach_victim_data("x@gmail.com")), "easy");
}

#[test]
fn test_breach_victim_data() {
    let engine = GeolocationEngine::new();
    let breaches = engine.get_breach_victim_data("test@gmail.com");
    assert!(!breaches.is_empty());
    assert_eq!(breaches[0].username.as_deref(), Some("user_test"));
    assert!(engine.get_breach_victim_data("nobody").is_empty());
}

#[test]
fn test_geographic_patterns() {
    let engine = GeolocationEngine::new();
    let breaches = engine.get_breach_victim_data("test@gmail.com");
    let patterns = engine.identify_geographic_patterns(&breaches);
    assert!(!patterns.is_empty());
    assert_eq!(patterns, vec![("United States".to_string(), 2)]);
}

#[test]
fn feed_lookups() {
    let f = feed();
    assert_eq!(f.list_actors().len(), 3);
    assert_eq!(f.get_actor("APT28").unwrap().country, "Russia");
    assert!(f.get_actor("apt28").is_none());
    let russians: Vec<&str> = f.find_actors_by_country("Russia").iter().map(|a| a.actor_id.as_str()).collect();
    assert_eq!(russians, vec!["APT29", "APT28"]);
    assert_eq!(f.find_actors_by_technique("T1566.001")[0].actor_id, "LAZARUS");
    assert_eq!(f.find_actors_targeting_sector("Enterprise").len(), 1);
}

#[test]
fn feed_keeps_last_actor_per_id() {
    let f = ThreatIntelligenceFeed::from_actors(vec![
        actor("X", "A", &[], &[]),
        actor("Y", "B", &[], &[]),
        actor("X", "C", &[], &[]),
    ]);
    assert_eq!(f.list_actors().len(), 2);
    assert_eq!(f.get_actor("X").unwrap().country, "C");
}

#[test]
fn indicator_presence_lists_kinds() {
    let mut a = actor("APT1", "China", &[], &[]);
    a.infrastructure.c2_ips = strings(&["1.2.3.4"]);
    a.infrastructure.malware_hashes = strings(&["1.2.3.4"]);
    let f = ThreatIntelligenceFeed::from_actors(vec![a]);
    assert_eq!(f.check_indicator_presence("1.2.3.4"), strings(&["APT1 (C2 IP)", "APT1 (Malware Hash)"]));
    assert!(f.check_indicator_presence("5.6.7.8").is_empty());
}

#[test]
fn test_common_targets() {
    let engine = CorrelationEngine::new(feed());
    let targets = engine.find_common_targets();
    assert!(!targets.is_empty());
    for (target, actors) in &targets {
        assert!(actors.len() > 1, "Target {} should be shared by multiple actors", target);
    }
    assert_eq!(targets, vec![("Government".to_string(), strings(&["APT29", "APT28"]))]);
}

#[test]
fn test_tuning_guidance() {
    let generator = DetectionRuleGenerator::new(feed());
    let guidance = generator.get_tuning_guidance("DET-APT29-001");
    assert!(!guidance.false_positive_causes.is_empty());
    assert!(!guidance.tuning_recommendations.is_empty());
    assert_eq!(guidance.tuning_recommendations[0], "Adjust thresholds based on environment");
    let phishing = generator.get_tuning_guidance("DET-T1566-001");
    assert_eq!(phishing.false_positive_causes[0], "Legitimate attachment delivery");
    assert_eq!(phishing.baseline_period_days, 14);
}

#[test]
fn test_rule_generation() {
    let generator = DetectionRuleGenerator::new(feed());
    let ruleset = generator.generate_rules_for_actor("APT29", RuleFormat::Sigma);
    assert!(ruleset.is_some());
    let rs = ruleset.unwrap();
    assert!(!rs.rules.is_empty());
    assert_eq!(rs.rules[0].rule_id, "DET-APT29-001");
    assert_eq!(rs.rules[0].title, "Phishing - Email Attachment");
    assert_eq!(rs.rules[2].severity, "critical");
    assert_eq!(rs.rules[2].confidence_percent, 95);
    assert!(generator.generate_rules_for_actor("NOBODY", RuleFormat::Sigma).is_none());
}

#[test]
fn test_rule_formats() {
    let generator = DetectionRuleGenerator::new(feed());
    for format in &[RuleFormat::Sigma, RuleFormat::Yara, RuleFormat::SiemQuery, RuleFormat::Snort] {
        let ruleset = generator.generate_rules_for_actor("APT29", *format);
        assert!(ruleset.is_some());
    }
}

#[test]
fn test_ruleset_export() {
    let generator = DetectionRuleGenerator::new(feed());
    let ruleset = generator.generate_rules_for_actor("APT29", RuleFormat::Sigma);
    if let Some(rs) = ruleset {
        let exported = generator.export_ruleset_as_text(&rs);
        assert!(exported.contains("APT29"));
        assert!(exported.contains("Coverage"));
        assert!(exported.starts_with("=== Detection Rules for APT29 ===\n\nCoverage: 3/3 techniques (100.0%)\n\nRule ID: DET-APT29-001\n"));
        assert!(exported.contains("Confidence: 85%\nFalse Positive Risk: low\nFormat: Sigma\n\n"));
    }
}

#[test]
fn generic_rule_names_the_technique() {
    let generator = DetectionRuleGenerator::new(ThreatIntelligenceFeed::empty());
    let rule = generator.generate_rule_for_technique("R-1", "T9999", "X", &RuleFormat::Snort);
    assert_eq!(rule.title, "Technique T9999 Detection");
    assert_eq!(rule.description, "Generic detection for MITRE technique T9999");
    assert_eq!(rule.severity, "medium");
    assert_eq!(rule.confidence_percent, 70);
    assert_eq!(rule.false_positive_risk, "medium");
    assert_eq!(rule.content, "alert tcp any any -> any any (msg:\"Generic Threat Detected\"; sid:9000001;)");
}

#[test]
fn risk_recommendations_by_level() {
    assert_eq!(recommendations_for_risk("critical").len(), 4);
    assert_eq!(recommendations_for_risk("low"), strings(&["Maintain regular security practices", "Monitor for future exposures"]));
}

#[test]
fn mock_source_answers() {
    let m = MockDataSource;
    assert_eq!(m.email_breaches("a@gmail.com").len(), 2);
    assert!(m.email_breaches("a@example.com").is_empty());
    assert_eq!(m.ip_intelligence("1.1.1.1").threat_level, "low");
    assert_eq!(m.credentials("bob")[0].breach_source, "LinkedIn");
    assert!(m.email_profile("a@gmail.com").is_some());
    assert_eq!(m.email_threats("a@gmail.com")[0].value, "a@gmail.com");
}

#[test]
fn cache_entry_expiry() {
    let e = CacheEntry::new(5u32, 1_000, 60);
    assert!(!e.is_expired_at(1_060));
    assert!(e.is_expired_at(1_061));
    assert!(e.is_expired_at(999));
}

#[test]
fn test_cache_set_and_get() {
    let mut cache: OsintCache<String> = OsintCache::new(3600);
    cache.set_email("test@example.com".to_string(), "result for test@example.com".to_string());
    let cached = cache.get_email("test@example.com");
    assert!(cached.is_some());
    assert_eq!(cached.as_deref(), Some("result for test@example.com"));
    assert!(cache.get_email("other@example.com").is_none());
}

#[test]
fn test_cache_size() {
    let mut cache: OsintCache<String> = OsintCache::new(3600);
    cache.set_email("test@example.com".to_string(), "first".to_string());
    assert_eq!(cache.cache_size(), 1);
    cache.set_email("test@example.com".to_string(), "second".to_string());
    assert_eq!(cache.cache_size(), 1);
    assert_eq!(cache.get_email("test@example.com").as_deref(), Some("second"));
    cache.clear_email_cache();
    assert_eq!(cache.cache_size(), 0);
}

#[test]
fn cached_results_expire_after_their_ttl() {
    let mut cache: OsintCache<u32> = OsintCache::new(60);
    cache.set_email_at("a@b.c".to_string(), 7, 1_000);
    assert_eq!(cache.get_email_at("a@b.c", 1_000), Some(7));
    assert_eq!(cache.get_email_at("a@b.c", 1_060), Some(7));
    assert_eq!(cache.get_email_at("a@b.c", 1_061), None);
    assert_eq!(cache.get_email_at("A@B.C", 1_000), None);
}

#[test]
fn test_feed_creation() {
    let feed = feed();
    assert!(!feed.list_actors().is_empty());
}

#[test]
fn test_actors_loaded_from_framework() {
    let feed = feed();
    let actors = feed.list_actors();
    assert!(actors.len() > 0);
    let actor_ids: Vec<_> = actors.iter().map(|a| a.actor_id.as_str()).collect();
    assert!(actor_ids.iter().any(|id| *id == "APT29" || *id == "FIN7" || *id == "LAZARUS"));
}

#[test]
fn test_find_actors_by_technique() {
    let feed = feed();
    let actors = feed.find_actors_by_technique("T1195.002");
    assert!(actors.len() >= 1);
    assert_eq!(actors[0].actor_id, "APT29");
}

#[test]
fn test_actors_have_techniques() {
    let feed = feed();
    for actor in feed.list_actors() {
        assert!(!actor.techniques.is_empty(), "Actor {} has no techniques", actor.actor_id);
    }
}

#[test]
fn attribution_indicator_helpers() {
    assert_eq!(geography_confidence_per_mille("critical"), 900);
    assert_eq!(geography_confidence_per_mille("other"), 300);
    assert_eq!(geography_weight_per_mille("high"), 650);
    assert_eq!(geography_weight_per_mille("medium"), 450);
    assert_eq!(geography_indicator_value("Russia", "RU"), "Russia (RU)");
    assert!(!is_corporate_domain("example.com"));
    assert!(is_corporate_domain("megacorp.com"));
    assert!(is_corporate_domain("agency.gov"));
    assert_eq!(breach_year("2021-06-01"), 2021);
    assert_eq!(breach_year("+2019"), 2019);
    assert_eq!(breach_year("unknown"), 0);
    assert_eq!(breach_year("99999999999-01"), 0);
    assert!(is_recent_year(2021));
    assert!(!is_recent_year(2020));
}
