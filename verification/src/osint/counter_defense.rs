//! Defensive-stack tables: the detection products an environment of each
//! size runs, and for each product how an emulated adversary tries to stay
//! unseen and what still gives it away.

use vstd::prelude::*;
use crate::text::{same_text, string_from, views};

verus! {

broadcast use vstd::string::group_string_axioms;

/// The defensive stack of an environment.
pub struct DefenseEnvironment {
    /// Endpoint detection products.
    pub edr_solutions: Vec<String>,
    /// SIEM products.
    pub siem_systems: Vec<String>,
    /// Host-based detection.
    pub host_detection: Vec<String>,
    /// Network-based detection.
    pub network_detection: Vec<String>,
    /// Incident-response capability.
    pub incident_response_capability: String,
    /// Detection maturity, in thousandths.
    pub detection_maturity_per_mille: u32,
}

/// The content of a [`DefenseEnvironment`].
#[verifier::ext_equal]
pub struct DefenseEnvironmentView {
    pub edr_solutions: Seq<Seq<char>>,
    pub siem_systems: Seq<Seq<char>>,
    pub host_detection: Seq<Seq<char>>,
    pub network_detection: Seq<Seq<char>>,
    pub incident_response_capability: Seq<char>,
    pub detection_maturity_per_mille: u32,
}

impl View for DefenseEnvironment {
    type V = DefenseEnvironmentView;

    open spec fn view(&self) -> DefenseEnvironmentView {
        DefenseEnvironmentView {
            edr_solutions: views(self.edr_solutions@),
            siem_systems: views(self.siem_systems@),
            host_detection: views(self.host_detection@),
            network_detection: views(self.network_detection@),
            incident_response_capability: self.incident_response_capability@,
            detection_maturity_per_mille: self.detection_maturity_per_mille,
        }
    }
}

/// The defensive stack of an environment kind; an unknown kind gets the generic record.
pub open spec fn environment_record(e: Seq<char>) -> DefenseEnvironmentView {
    if e == "enterprise"@ {
        DefenseEnvironmentView {
            edr_solutions: seq![
                "Microsoft Defender for Endpoint"@,
                "CrowdStrike Falcon"@,
                "SentinelOne"@,
                "Carbon Black"@,
            ],
            siem_systems: seq![
                "Splunk"@,
                "Microsoft Sentinel"@,
                "Elastic Security"@,
                "ArcSight"@,
            ],
            host_detection: seq![
                "Windows Defender"@,
                "Autoruns monitoring"@,
                "Registry monitoring"@,
                "Process creation logging"@,
            ],
            network_detection: seq![
                "IDS/IPS systems"@,
                "Proxy filtering"@,
                "DNS filtering"@,
                "DLP systems"@,
            ],
            incident_response_capability: "Very High - Dedicated SOC team"@,
            detection_maturity_per_mille: 850,
        }
    } else if e == "mid_market"@ {
        DefenseEnvironmentView {
            edr_solutions: seq![
                "Microsoft Defender for Endpoint"@,
                "Sophos Intercept X"@,
            ],
            siem_systems: seq![
                "Splunk"@,
                "ArcSight"@,
            ],
            host_detection: seq![
                "Windows Defender"@,
                "File integrity monitoring"@,
                "Process creation logs"@,
            ],
            network_detection: seq![
                "Basic IDS"@,
                "Proxy filtering"@,
                "DNS filtering"@,
            ],
            incident_response_capability: "Medium - Shared SOC resources"@,
            detection_maturity_per_mille: 600,
        }
    } else if e == "small_business"@ {
        DefenseEnvironmentView {
            edr_solutions: seq![
                "Windows Defender"@,
            ],
            siem_systems: Seq::<Seq<char>>::empty(),
            host_detection: seq![
                "Windows Defender AV"@,
                "Basic logging"@,
            ],
            network_detection: seq![
                "Basic firewall"@,
            ],
            incident_response_capability: "Low - Limited IR capability"@,
            detection_maturity_per_mille: 250,
        }
    } else {
        DefenseEnvironmentView {
            edr_solutions: seq![
                "Unknown EDR"@,
            ],
            siem_systems: seq![
                "Unknown SIEM"@,
            ],
            host_detection: seq![
                "Unknown"@,
            ],
            network_detection: seq![
                "Unknown"@,
            ],
            incident_response_capability: "Unknown"@,
            detection_maturity_per_mille: 500,
        }
    }
}

/// How an emulated adversary faces one defensive product.
pub struct EvvasionStrategy {
    /// Identifier of the strategy.
    pub strategy_id: String,
    /// The defensive product it faces.
    pub defense_target: String,
    /// How that product detects.
    pub detection_technique: String,
    /// How detection is avoided.
    pub evasion_method: String,
    /// How complex it is.
    pub implementation_complexity: String,
    /// Effectiveness, in thousandths.
    pub effectiveness_per_mille: u32,
    /// How long detection is avoided.
    pub detection_avoidance_period: String,
    /// What it needs.
    pub prerequisites: Vec<String>,
    /// The steps.
    pub steps: Vec<String>,
    /// What may still detect it.
    pub detection_risks: Vec<String>,
    /// What defenders can look for.
    pub behavioral_indicators: Vec<String>,
    /// Other ways to the same end.
    pub alternative_methods: Vec<String>,
}

/// The content of a [`EvvasionStrategy`].
#[verifier::ext_equal]
pub struct EvvasionStrategyView {
    pub strategy_id: Seq<char>,
    pub defense_target: Seq<char>,
    pub detection_technique: Seq<char>,
    pub evasion_method: Seq<char>,
    pub implementation_complexity: Seq<char>,
    pub effectiveness_per_mille: u32,
    pub detection_avoidance_period: Seq<char>,
    pub prerequisites: Seq<Seq<char>>,
    pub steps: Seq<Seq<char>>,
    pub detection_risks: Seq<Seq<char>>,
    pub behavioral_indicators: Seq<Seq<char>>,
    pub alternative_methods: Seq<Seq<char>>,
}

impl View for EvvasionStrategy {
    type V = EvvasionStrategyView;

    open spec fn view(&self) -> EvvasionStrategyView {
        EvvasionStrategyView {
            strategy_id: self.strategy_id@,
            defense_target: self.defense_target@,
            detection_technique: self.detection_technique@,
            evasion_method: self.evasion_method@,
            implementation_complexity: self.implementation_complexity@,
            effectiveness_per_mille: self.effectiveness_per_mille,
            detection_avoidance_period: self.detection_avoidance_period@,
            prerequisites: views(self.prerequisites@),
            steps: views(self.steps@),
            detection_risks: views(self.detection_risks@),
            behavioral_indicators: views(self.behavioral_indicators@),
            alternative_methods: views(self.alternative_methods@),
        }
    }
}

/// The strategy against a defensive product; an unknown product gets the generic record, naming the product.
pub open spec fn evasion_record(defense_tool: Seq<char>) -> EvvasionStrategyView {
    if defense_tool == "windows_defender"@ {
        EvvasionStrategyView {
            strategy_id: "EVADE-WD-20260825"@,
            defense_target: "Windows Defender (AMSI + Real-time protection)"@,
            detection_technique: "Signature detection + Behavioral analysis"@,
            evasion_method: "AMSI bypass + Memory obfuscation + Staged delivery"@,
            implementation_complexity: "Medium"@,
            effectiveness_per_mille: 720,
            detection_avoidance_period: "2-5 days before detection"@,
            prerequisites: seq![
                "Knowledge of AMSI internals"@,
                "Code obfuscation capabilities"@,
                "C2 infrastructure"@,
            ],
            steps: seq![
                "Step 1: Disable AMSI in-memory scanning via patching"@,
                "Step 2: Encrypt payload at rest"@,
                "Step 3: Decrypt and execute in-memory only"@,
                "Step 4: Use legitimate tools (Living-off-the-Land)"@,
                "Step 5: Avoid known malicious APIs"@,
                "Step 6: Implement process injection to trusted processes"@,
            ],
            detection_risks: seq![
                "AMSI patching detection"@,
                "Suspicious memory allocation patterns"@,
                "Code injection into system processes"@,
                "Behavioral anomalies in process tree"@,
            ],
            behavioral_indicators: seq![
                "Unusual PowerShell script execution"@,
                "Suspicious DLL injection into lsass.exe"@,
                "Registry modification for disabling security features"@,
                "Abnormal child process creation"@,
            ],
            alternative_methods: seq![
                "Direct kernel access via driver"@,
                "Virtual machine escape"@,
                "Supply chain compromise"@,
            ],
        }
    } else if defense_tool == "crowdstrike_falcon"@ {
        EvvasionStrategyView {
            strategy_id: "EVADE-CSF-20260825"@,
            defense_target: "CrowdStrike Falcon (Behavioral + Kernel-level)"@,
            detection_technique: "Behavioral analysis + Kernel callbacks + IOC matching"@,
            evasion_method: "Legitimate process abuse + Defense evasion + Encryption"@,
            implementation_complexity: "High"@,
            effectiveness_per_mille: 550,
            detection_avoidance_period: "1-3 days before detection"@,
            prerequisites: seq![
                "Kernel-level driver development"@,
                "Understanding of EDR callbacks"@,
                "C2 infrastructure with stealth communications"@,
                "Rootkit capabilities"@,
            ],
            steps: seq![
                "Step 1: Deploy rootkit to intercept kernel callbacks"@,
                "Step 2: Hide malicious processes from visibility"@,
                "Step 3: Spoof legitimate process metadata"@,
                "Step 4: Use encrypted C2 channels"@,
                "Step 5: Implement anti-debugging techniques"@,
                "Step 6: Hide artifacts from file system"@,
            ],
            detection_risks: seq![
                "Rootkit detection via integrity verification"@,
                "Kernel anomaly detection"@,
                "C2 traffic pattern analysis"@,
                "Memory scanning detection"@,
            ],
            behavioral_indicators: seq![
                "Kernel driver loading from unusual paths"@,
                "System call filtering"@,
                "Registry callback interception"@,
                "Process hiding mechanisms"@,
            ],
            alternative_methods: seq![
                "Supply chain compromise of CrowdStrike updates"@,
                "Exploit CrowdStrike agent vulnerabilities"@,
                "Physical access attacks"@,
            ],
        }
    } else if defense_tool == "splunk_siem"@ {
        EvvasionStrategyView {
            strategy_id: "EVADE-SPLUNK-20260825"@,
            defense_target: "Splunk SIEM (Log analysis + Threat detection)"@,
            detection_technique: "Log correlation + Anomaly detection + Threat hunting"@,
            evasion_method: "Log tampering + False positives + C2 obfuscation"@,
            implementation_complexity: "Medium-High"@,
            effectiveness_per_mille: 680,
            detection_avoidance_period: "3-7 days before correlation"@,
            prerequisites: seq![
                "Access to syslog forwarder credentials"@,
                "Understanding of Splunk query language"@,
                "Knowledge of common threat detection rules"@,
                "Ability to generate benign-looking traffic"@,
            ],
            steps: seq![
                "Step 1: Identify Splunk data collection points"@,
                "Step 2: Intercept logs before forwarding to Splunk"@,
                "Step 3: Filter out malicious log entries"@,
                "Step 4: Inject benign activity to mask attack patterns"@,
                "Step 5: Use common benign processes for C2 (svchost, rundll32)"@,
                "Step 6: Implement traffic patterns matching legitimate software"@,
            ],
            detection_risks: seq![
                "Log deletion/tampering detection"@,
                "Syslog forwarder integrity checks"@,
                "Endpoint detection and response (EDR) logging"@,
                "Out-of-band log collection"@,
            ],
            behavioral_indicators: seq![
                "Syslog configuration modifications"@,
                "Large volume of benign-looking events"@,
                "Process execution from temp directories"@,
                "Unusual network patterns masked by legitimate traffic"@,
            ],
            alternative_methods: seq![
                "Compromise Splunk deployment server"@,
                "Exploit Splunk vulnerabilities"@,
                "Compromise log forwarder credentials"@,
            ],
        }
    } else {
        EvvasionStrategyView {
            strategy_id: "EVADE-GENERIC-20260825"@,
            defense_target: defense_tool,
            detection_technique: "Generic detection"@,
            evasion_method: "Generic evasion"@,
            implementation_complexity: "Unknown"@,
            effectiveness_per_mille: 500,
            detection_avoidance_period: "Unknown"@,
            prerequisites: seq![
                "Generic prerequisites"@,
            ],
            steps: seq![
                "Generic implementation"@,
            ],
            detection_risks: seq![
                "Generic risks"@,
            ],
            behavioral_indicators: seq![
                "Generic indicators"@,
            ],
            alternative_methods: seq![
                "Generic alternatives"@,
            ],
        }
    }
}

/// Plans how an exercise faces a defensive stack.
pub struct CounterDefenseStrategist;

impl CounterDefenseStrategist {
    /// The defensive stack of an environment kind (`enterprise`,
    /// `mid_market`, `small_business`); any other kind gets the generic
    /// record. Never fails.
    pub fn detect_defense_environment(&self, environment: &str) -> (r: Result<DefenseEnvironment, String>)
        ensures
            r matches Ok(d) && d@ == environment_record(environment@),
    {
        if same_text(environment, "enterprise") {
            let r = DefenseEnvironment {
                edr_solutions: vec![
                    string_from("Microsoft Defender for Endpoint"),
                    string_from("CrowdStrike Falcon"),
                    string_from("SentinelOne"),
                    string_from("Carbon Black"),
                ],
                siem_systems: vec![
                    string_from("Splunk"),
                    string_from("Microsoft Sentinel"),
                    string_from("Elastic Security"),
                    string_from("ArcSight"),
                ],
                host_detection: vec![
                    string_from("Windows Defender"),
                    string_from("Autoruns monitoring"),
                    string_from("Registry monitoring"),
                    string_from("Process creation logging"),
                ],
                network_detection: vec![
                    string_from("IDS/IPS systems"),
                    string_from("Proxy filtering"),
                    string_from("DNS filtering"),
                    string_from("DLP systems"),
                ],
                incident_response_capability: string_from("Very High - Dedicated SOC team"),
                detection_maturity_per_mille: 850,
            };
            assert(r@ =~~= environment_record(environment@));
            Ok(r)
        } else if same_text(environment, "mid_market") {
            let r = DefenseEnvironment {
                edr_solutions: vec![
                    string_from("Microsoft Defender for Endpoint"),
                    string_from("Sophos Intercept X"),
                ],
                siem_systems: vec![
                    string_from("Splunk"),
                    string_from("ArcSight"),
                ],
                host_detection: vec![
                    string_from("Windows Defender"),
                    string_from("File integrity monitoring"),
                    string_from("Process creation logs"),
                ],
                network_detection: vec![
                    string_from("Basic IDS"),
                    string_from("Proxy filtering"),
                    string_from("DNS filtering"),
                ],
                incident_response_capability: string_from("Medium - Shared SOC resources"),
                detection_maturity_per_mille: 600,
            };
            assert(r@ =~~= environment_record(environment@));
            Ok(r)
        } else if same_text(environment, "small_business") {
            let r = DefenseEnvironment {
                edr_solutions: vec![
                    string_from("Windows Defender"),
                ],
                siem_systems: Vec::new(),
                host_detection: vec![
                    string_from("Windows Defender AV"),
                    string_from("Basic logging"),
                ],
                network_detection: vec![
                    string_from("Basic firewall"),
                ],
                incident_response_capability: string_from("Low - Limited IR capability"),
                detection_maturity_per_mille: 250,
            };
            assert(r@ =~~= environment_record(environment@));
            Ok(r)
        } else {
            let r = DefenseEnvironment {
                edr_solutions: vec![
                    string_from("Unknown EDR"),
                ],
                siem_systems: vec![
                    string_from("Unknown SIEM"),
                ],
                host_detection: vec![
                    string_from("Unknown"),
                ],
                network_detection: vec![
                    string_from("Unknown"),
                ],
                incident_response_capability: string_from("Unknown"),
                detection_maturity_per_mille: 500,
            };
            assert(r@ =~~= environment_record(environment@));
            Ok(r)
        }
    }

    /// The strategy against a defensive product (`windows_defender`,
    /// `crowdstrike_falcon`, `splunk_siem`); any other product gets the
    /// generic record, which names it. Never fails.
    pub fn plan_evasion_strategy(&self, defense_tool: &str) -> (r: Result<EvvasionStrategy, String>)
        ensures
            r matches Ok(s) && s@ == evasion_record(defense_tool@),
    {
        if same_text(defense_tool, "windows_defender") {
            let r = EvvasionStrategy {
                strategy_id: string_from("EVADE-WD-20260825"),
                defense_target: string_from("Windows Defender (AMSI + Real-time protection)"),
                detection_technique: string_from("Signature detection + Behavioral analysis"),
                evasion_method: string_from("AMSI bypass + Memory obfuscation + Staged delivery"),
                implementation_complexity: string_from("Medium"),
                effectiveness_per_mille: 720,
                detection_avoidance_period: string_from("2-5 days before detection"),
                prerequisites: vec![
                    string_from("Knowledge of AMSI internals"),
                    string_from("Code obfuscation capabilities"),
                    string_from("C2 infrastructure"),
                ],
                steps: vec![
                    string_from("Step 1: Disable AMSI in-memory scanning via patching"),
                    string_from("Step 2: Encrypt payload at rest"),
                    string_from("Step 3: Decrypt and execute in-memory only"),
                    string_from("Step 4: Use legitimate tools (Living-off-the-Land)"),
                    string_from("Step 5: Avoid known malicious APIs"),
                    string_from("Step 6: Implement process injection to trusted processes"),
                ],
                detection_risks: vec![
                    string_from("AMSI patching detection"),
                    string_from("Suspicious memory allocation patterns"),
                    string_from("Code injection into system processes"),
                    string_from("Behavioral anomalies in process tree"),
                ],
                behavioral_indicators: vec![
                    string_from("Unusual PowerShell script execution"),
                    string_from("Suspicious DLL injection into lsass.exe"),
                    string_from("Registry modification for disabling security features"),
                    string_from("Abnormal child process creation"),
                ],
                alternative_methods: vec![
                    string_from("Direct kernel access via driver"),
                    string_from("Virtual machine escape"),
                    string_from("Supply chain compromise"),
                ],
            };
            assert(r@ =~~= evasion_record(defense_tool@));
            Ok(r)
        } else if same_text(defense_tool, "crowdstrike_falcon") {
            let r = EvvasionStrategy {
                strategy_id: string_from("EVADE-CSF-20260825"),
                defense_target: string_from("CrowdStrike Falcon (Behavioral + Kernel-level)"),
                detection_technique: string_from("Behavioral analysis + Kernel callbacks + IOC matching"),
                evasion_method: string_from("Legitimate process abuse + Defense evasion + Encryption"),
                implementation_complexity: string_from("High"),
                effectiveness_per_mille: 550,
                detection_avoidance_period: string_from("1-3 days before detection"),
                prerequisites: vec![
                    string_from("Kernel-level driver development"),
                    string_from("Understanding of EDR callbacks"),
                    string_from("C2 infrastructure with stealth communications"),
                    string_from("Rootkit capabilities"),
                ],
                steps: vec![
                    string_from("Step 1: Deploy rootkit to intercept kernel callbacks"),
                    string_from("Step 2: Hide malicious processes from visibility"),
                    string_from("Step 3: Spoof legitimate process metadata"),
                    string_from("Step 4: Use encrypted C2 channels"),
                    string_from("Step 5: Implement anti-debugging techniques"),
                    string_from("Step 6: Hide artifacts from file system"),
                ],
                detection_risks: vec![
                    string_from("Rootkit detection via integrity verification"),
                    string_from("Kernel anomaly detection"),
                    string_from("C2 traffic pattern analysis"),
                    string_from("Memory scanning detection"),
                ],
                behavioral_indicators: vec![
                    string_from("Kernel driver loading from unusual paths"),
                    string_from("System call filtering"),
                    string_from("Registry callback interception"),
                    string_from("Process hiding mechanisms"),
                ],
                alternative_methods: vec![
                    string_from("Supply chain compromise of CrowdStrike updates"),
                    string_from("Exploit CrowdStrike agent vulnerabilities"),
                    string_from("Physical access attacks"),
                ],
            };
            assert(r@ =~~= evasion_record(defense_tool@));
            Ok(r)
        } else if same_text(defense_tool, "splunk_siem") {
            let r = EvvasionStrategy {
                strategy_id: string_from("EVADE-SPLUNK-20260825"),
                defense_target: string_from("Splunk SIEM (Log analysis + Threat detection)"),
                detection_technique: string_from("Log correlation + Anomaly detection + Threat hunting"),
                evasion_method: string_from("Log tampering + False positives + C2 obfuscation"),
                implementation_complexity: string_from("Medium-High"),
                effectiveness_per_mille: 680,
                detection_avoidance_period: string_from("3-7 days before correlation"),
                prerequisites: vec![
                    string_from("Access to syslog forwarder credentials"),
                    string_from("Understanding of Splunk query language"),
                    string_from("Knowledge of common threat detection rules"),
                    string_from("Ability to generate benign-looking traffic"),
                ],
                steps: vec![
                    string_from("Step 1: Identify Splunk data collection points"),
                    string_from("Step 2: Intercept logs before forwarding to Splunk"),
                    string_from("Step 3: Filter out malicious log entries"),
                    string_from("Step 4: Inject benign activity to mask attack patterns"),
                    string_from("Step 5: Use common benign processes for C2 (svchost, rundll32)"),
                    string_from("Step 6: Implement traffic patterns matching legitimate software"),
                ],
                detection_risks: vec![
                    string_from("Log deletion/tampering detection"),
                    string_from("Syslog forwarder integrity checks"),
                    string_from("Endpoint detection and response (EDR) logging"),
                    string_from("Out-of-band log collection"),
                ],
                behavioral_indicators: vec![
                    string_from("Syslog configuration modifications"),
                    string_from("Large volume of benign-looking events"),
                    string_from("Process execution from temp directories"),
                    string_from("Unusual network patterns masked by legitimate traffic"),
                ],
                alternative_methods: vec![
                    string_from("Compromise Splunk deployment server"),
                    string_from("Exploit Splunk vulnerabilities"),
                    string_from("Compromise log forwarder credentials"),
                ],
            };
            assert(r@ =~~= evasion_record(defense_tool@));
            Ok(r)
        } else {
            let r = EvvasionStrategy {
                strategy_id: string_from("EVADE-GENERIC-20260825"),
                defense_target: string_from(defense_tool),
                detection_technique: string_from("Generic detection"),
                evasion_method: string_from("Generic evasion"),
                implementation_complexity: string_from("Unknown"),
                effectiveness_per_mille: 500,
                detection_avoidance_period: string_from("Unknown"),
                prerequisites: vec![
                    string_from("Generic prerequisites"),
                ],
                steps: vec![
                    string_from("Generic implementation"),
                ],
                detection_risks: vec![
                    string_from("Generic risks"),
                ],
                behavioral_indicators: vec![
                    string_from("Generic indicators"),
                ],
                alternative_methods: vec![
                    string_from("Generic alternatives"),
                ],
            };
            assert(r@ =~~= evasion_record(defense_tool@));
            Ok(r)
        }
    }
}

} // verus!
