use huntsman::osint::campaign_planner::CampaignPlanner;
use huntsman::osint::counter_defense::CounterDefenseStrategist;
use huntsman::osint::infrastructure::InfrastructureDeployer;
use huntsman::osint::persistence::PersistenceStrategist;
use huntsman::osint::social_engineering::SocialEngineer;
use huntsman::osint::supply_chain::SupplyChainPlanner;

/// The cost per credential as the report prints it.
fn cost_text(harvest: usize) -> String {
    format!("{:.2}", (500 as f64 * 50.0) / (harvest * 2) as f64)
}

#[test]
fn test_registry_run_persistence() {
    let strategist = PersistenceStrategist;
    let mech = strategist.plan_persistence_mechanism("registry_run").unwrap();
    assert_eq!(mech.technique_id, "T1547.001");
    assert!(mech.reliability_per_mille < 750);
}

#[test]
fn test_scheduled_task_persistence() {
    let strategist = PersistenceStrategist;
    let mech = strategist.plan_persistence_mechanism("scheduled_task").unwrap();
    assert_eq!(mech.technique_id, "T1053.005");
    assert!(mech.reliability_per_mille > 800);
}

#[test]
fn test_wmi_event_persistence() {
    let strategist = PersistenceStrategist;
    let mech = strategist.plan_persistence_mechanism("wmi_event").unwrap();
    assert_eq!(mech.technique_id, "T1547.013");
    assert!(mech.reliability_per_mille > 850);
}

#[test]
fn test_backdoor_chain_enterprise() {
    let strategist = PersistenceStrategist;
    let chain = strategist.plan_backdoor_chain("enterprise").unwrap();
    assert!(!chain.primary_backdoor.is_empty());
    assert!(chain.secondary_backdoors.len() > 0);
    assert!(chain.estimated_persistence_days > 30);
}

#[test]
fn test_privilege_escalation_uac() {
    let strategist = PersistenceStrategist;
    let privesc = strategist.plan_privilege_escalation("uac_bypass").unwrap();
    assert_eq!(privesc.escalation_id, "PRIVESC-UAC-001");
    assert!(privesc.success_per_mille > 700);
}

#[test]
fn persistence_tables_carry_exact_records() {
    let s = PersistenceStrategist;
    let g = s.plan_persistence_mechanism("bootkit").unwrap();
    assert_eq!((g.mechanism_id.as_str(), g.technique_id.as_str(), g.reliability_per_mille), ("PERSIST-GENERIC", "T1547", 500));
    assert_eq!(g.implementation_steps, vec!["Generic steps".to_string()]);
    let n = s.plan_persistence_mechanism("netsh_helper").unwrap();
    assert_eq!((n.reliability_per_mille, n.recovery_options.len()), (950, 2));
    let c = s.plan_backdoor_chain("mid_market").unwrap();
    assert_eq!(c.chain_id, "CHAIN-mid_market-20260825");
    assert_eq!((c.estimated_persistence_days, c.secondary_backdoors.len()), (90, 2));
    assert_eq!(s.plan_backdoor_chain("lab").unwrap().estimated_persistence_days, 30);
    let k = s.plan_privilege_escalation("kernel_exploit").unwrap();
    assert_eq!((k.success_per_mille, k.detection_risk_per_mille, k.affected_versions.len()), (650, 600, 3));
    assert_eq!(s.plan_privilege_escalation("other").unwrap().escalation_id, "PRIVESC-GENERIC");
}

#[test]
fn test_apt29_campaign_phases() {
    let planner = CampaignPlanner;
    let phases = planner.build_apt29_phases("Government");
    assert_eq!(phases.len(), 4);
    assert_eq!(phases[0].phase_number, 1);
}

#[test]
fn test_optimal_timing_windows() {
    let planner = CampaignPlanner;
    let windows = planner.identify_optimal_timing();
    assert!(windows.is_ok());
    assert!(windows.unwrap().len() > 0);
}

#[test]
fn campaign_phases_follow_the_actor() {
    let p = CampaignPlanner;
    let a29 = p.build_campaign_phases("APT29", "Finance");
    let days: Vec<u32> = a29.iter().map(|x| x.duration_days).collect();
    assert_eq!(days, vec![30, 21, 14, 60]);
    assert_eq!(a29[1].success_per_mille, 720);
    let a28 = p.build_campaign_phases("APT28", "Finance");
    assert_eq!(a28.len(), 2);
    assert_eq!(a28[1].phase_name, "Credential Harvesting");
    let other = p.build_campaign_phases("FIN7", "Retail");
    assert_eq!((other.len(), other[0].primary_actor.as_str()), (1, "Unknown"));
    assert_eq!(p.identify_supporting_actors("APT28"), vec!["APT28".to_string(), "Affiliated groups".to_string()]);
    assert_eq!(p.identify_supporting_actors("FIN7"), vec!["FIN7".to_string()]);
    assert_eq!(p.identify_optimal_timing().unwrap()[3].risk_level, "High-Reward");
}

#[test]
fn test_detect_enterprise_environment() {
    let strategist = CounterDefenseStrategist;
    let env = strategist.detect_defense_environment("enterprise").unwrap();
    assert!(!env.edr_solutions.is_empty());
    assert!(!env.siem_systems.is_empty());
    assert!(env.detection_maturity_per_mille > 750);
}

#[test]
fn test_detect_small_business_environment() {
    let strategist = CounterDefenseStrategist;
    let env = strategist.detect_defense_environment("small_business").unwrap();
    assert!(!env.edr_solutions.is_empty());
    assert!(env.detection_maturity_per_mille < 350);
}

#[test]
fn test_plan_windows_defender_evasion() {
    let strategist = CounterDefenseStrategist;
    let strategy = strategist.plan_evasion_strategy("windows_defender").unwrap();
    assert!(!strategy.steps.is_empty());
    assert!(strategy.effectiveness_per_mille > 0);
}

#[test]
fn test_plan_splunk_evasion() {
    let strategist = CounterDefenseStrategist;
    let strategy = strategist.plan_evasion_strategy("splunk_siem").unwrap();
    assert!(!strategy.steps.is_empty());
    assert!(strategy.detection_risks.len() > 0);
}

#[test]
fn defense_tables_carry_exact_records() {
    let s = CounterDefenseStrategist;
    let g = s.plan_evasion_strategy("Acme EDR").unwrap();
    assert_eq!((g.strategy_id.as_str(), g.defense_target.as_str(), g.effectiveness_per_mille), ("EVADE-GENERIC-20260825", "Acme EDR", 500));
    let c = s.plan_evasion_strategy("crowdstrike_falcon").unwrap();
    assert_eq!((c.effectiveness_per_mille, c.steps.len()), (550, 6));
    let e = s.detect_defense_environment("small_business").unwrap();
    assert!(e.siem_systems.is_empty());
    assert_eq!(e.detection_maturity_per_mille, 250);
    let u = s.detect_defense_environment("home").unwrap();
    assert_eq!((u.edr_solutions, u.detection_maturity_per_mille), (vec!["Unknown EDR".to_string()], 500));
}

#[test]
fn test_recommend_c2_frameworks() {
    let deployer = InfrastructureDeployer;
    let frameworks = deployer.recommend_c2_framework("stealth").unwrap();
    assert!(!frameworks.is_empty());
    assert!(frameworks[0].evasion_per_mille > 750);
}

#[test]
fn test_recommend_vps_providers() {
    let deployer = InfrastructureDeployer;
    let providers = deployer.recommend_vps_provider("US", "low").unwrap();
    assert!(!providers.is_empty());
    assert!(providers[0].detection_risk_per_mille < 500);
}

#[test]
fn infrastructure_filters_keep_catalogue_order() {
    let d = InfrastructureDeployer;
    let names = |v: Vec<huntsman::osint::infrastructure::C2Framework>| v.into_iter().map(|f| f.name).collect::<Vec<_>>();
    assert_eq!(names(d.recommend_c2_framework("stealth").unwrap()), vec!["Cobalt Strike", "Sliver"]);
    assert_eq!(names(d.recommend_c2_framework("fast").unwrap()).len(), 4);
    assert_eq!(names(d.recommend_c2_framework("advanced").unwrap()), vec!["Cobalt Strike", "Sliver", "Empire", "Metasploit"]);
    let vps = |t: &str| d.recommend_vps_provider("EU", t).unwrap().into_iter().map(|p| p.provider_name).collect::<Vec<_>>();
    assert_eq!(vps("low"), vec!["Vultr", "OVH"]);
    assert_eq!(vps("medium"), vec!["Vultr", "OVH"]);
    assert_eq!(vps("high").len(), 4);
    let all = d.recommend_vps_provider("US", "high").unwrap();
    assert_eq!((all[0].monthly_cost_cents, all[3].monthly_cost_cents), (500, 1000));
}

#[test]
fn test_target_analysis() {
    let engineer = SocialEngineer;
    let profile = engineer.analyze_target_personnel("IT", "Administrator").unwrap();
    assert!(!profile.likely_access.is_empty());
}

#[test]
fn test_high_value_targeting() {
    let engineer = SocialEngineer;
    let targets = engineer.identify_high_value_targets("Corp").unwrap();
    assert!(targets.len() > 0);
}

#[test]
fn test_roi_calculation() {
    let engineer = SocialEngineer;
    let roi = engineer.calculate_roi(50, &cost_text(50)).unwrap();
    assert!(roi.contains("ROI"));
}

#[test]
fn personnel_tables_and_reports_are_exact() {
    let e = SocialEngineer;
    let hr = e.analyze_target_personnel("HR", "Manager").unwrap();
    assert_eq!((hr.job_title.as_str(), hr.likely_access.len()), ("HR Manager", 4));
    let other = e.analyze_target_personnel("IT", "Intern").unwrap();
    assert_eq!((other.job_title.as_str(), other.department.as_str()), ("Generic Role", "IT"));
    assert_eq!(e.identify_high_value_targets("Acme").unwrap()[0], "CEO/President of Acme - highest access");
    let roi = e.calculate_roi(50, &cost_text(50)).unwrap();
    assert_eq!(
        roi,
        "=== Social Engineering Campaign ROI ===\n\nEstimated credential harvest: 100\nTime investment: ~500 hours\n\
         Cost per credential: $250.00\n\nDerived capabilities:\n  • Valid credentials: 100\n  • Compromised accounts: 50\n\
         \x20 • Network access points: 10\n  • Lateral movement paths: 16\n"
    );
}

#[test]
fn test_malware_staging() {
    let planner = SupplyChainPlanner;
    let staging = planner.plan_malware_staging("Trojan").unwrap();
    assert!(!staging.payload_type.is_empty());
    assert!(staging.obfuscation_techniques.len() > 0);
}

#[test]
fn test_compromise_impact_analysis() {
    let planner = SupplyChainPlanner;
    let impact = planner.estimate_compromise_impact("SolarWinds").unwrap();
    assert!(impact.contains("Impact"));
}

#[test]
fn test_attack_surface_identification() {
    let planner = SupplyChainPlanner;
    let surface = planner.identify_attack_surface().unwrap();
    assert!(surface.len() > 0);
}

#[test]
fn supply_chain_reports_are_exact() {
    let p = SupplyChainPlanner;
    let impact = p.estimate_compromise_impact("Acme").unwrap();
    assert!(impact.starts_with("=== Supply Chain Compromise Impact Analysis ===\n\nTarget Vendor: Acme\n\nDirect Impact:\n"));
    assert!(impact.ends_with("  • Disruption potential: Critical infrastructure\n"));
    assert_eq!(p.identify_attack_surface().unwrap().len(), 8);
    let s = p.plan_malware_staging("Loader").unwrap();
    assert_eq!((s.payload_type.as_str(), s.size_estimate_mb, s.persistence_period_days), ("Loader", 5, 365));
}

#[test]
fn persistence_strategy_report_lists_each_phase() {
    let s = PersistenceStrategist;
    let r = s.generate_persistence_strategy("enterprise").unwrap();
    assert!(r.starts_with("\n=== Post-Compromise Persistence Strategy ===\n\nTarget Environment: enterprise\nStrategy ID: CHAIN-enterprise-20260825\n\n"));
    assert!(r.contains("  Mechanism: Scheduled Tasks\n  Technique: T1053.005\n  Steps:\n    • Step 1: "));
    assert!(r.contains("  Reliability: 85%\n"));
    assert!(r.contains("  Affected Versions: Windows 7 and later\n  Success Rate: 80%\n  Detection Risk: 45%\n"));
    assert!(r.contains("  Estimated Safe Persistence: 60 days\n  Detection Evasion Score: 72%\n"));
    assert!(r.ends_with("\n========================================\n"));
}

#[test]
fn test_plan_legitimate_domain() {
    let deployer = InfrastructureDeployer;
    let domain = deployer.plan_domain_strategy("legitimate_looking").unwrap();
    assert!(domain.whois_privacy);
    assert!(domain.reputation_risk_per_mille < 500);
}

#[test]
fn test_plan_disposable_domain() {
    let deployer = InfrastructureDeployer;
    let domain = deployer.plan_domain_strategy("disposable").unwrap();
    assert!(domain.whois_privacy);
    assert!(domain.reputation_risk_per_mille > 600);
}

#[test]
fn domain_strategies_are_exact() {
    let d = InfrastructureDeployer;
    let g = d.plan_domain_strategy("other").unwrap();
    assert_eq!((g.privacy_provider, g.reputation_risk_per_mille, g.dns_records.len()), (None, 500, 1));
    let c = d.plan_domain_strategy("compromised_registrar").unwrap();
    assert_eq!(c.privacy_provider.as_deref(), Some("Use registrar's privacy if available"));
    assert_eq!(c.reputation_risk_per_mille, 250);
}

#[test]
fn test_vendor_target_identification() {
    let planner = SupplyChainPlanner;
    let targets = planner.identify_vendor_targets().unwrap();
    assert!(targets.len() > 0);
    assert!(targets[0].market_penetration_per_mille > 0);
}

#[test]
fn vendor_targets_are_exact() {
    let t = SupplyChainPlanner.identify_vendor_targets().unwrap();
    let names: Vec<&str> = t.iter().map(|v| v.vendor_name.as_str()).collect();
    assert_eq!(names, vec!["SolarWinds", "Microsoft", "JetBrains", "Slack"]);
    assert_eq!((t[1].customer_count_estimate, t[1].potential_impact_per_mille), (1_000_000_000, 990));
    assert_eq!(t[3].update_frequency, "Biweekly");
}
