//! Campaign planning tables: the phases of an adversary-emulation campaign
//! after the tradecraft of a known actor, and the time windows in which
//! activity blends in best.

use vstd::prelude::*;
use crate::text::{same_text, string_from, views};

verus! {

broadcast use vstd::string::group_string_axioms;

/// One phase of an emulated campaign.
pub struct CampaignPhase {
    /// Position of the phase, from 1.
    pub phase_number: u32,
    /// Name of the phase.
    pub phase_name: String,
    /// Length of the phase in days.
    pub duration_days: u32,
    /// The actor whose tradecraft it follows.
    pub primary_actor: String,
    /// MITRE ATT&CK techniques used.
    pub techniques: Vec<String>,
    /// What the phase aims at.
    pub objectives: Vec<String>,
    /// Infrastructure it needs.
    pub infrastructure_required: Vec<String>,
    /// Risk of detection, in thousandths.
    pub detection_risk_per_mille: u32,
    /// How it avoids detection.
    pub evasion_tactics: Vec<String>,
    /// Likelihood of success, in thousandths.
    pub success_per_mille: u32,
    /// Resources it needs.
    pub resource_requirements: Vec<String>,
}

/// The content of a [`CampaignPhase`].
#[verifier::ext_equal]
pub struct CampaignPhaseView {
    pub phase_number: u32,
    pub phase_name: Seq<char>,
    pub duration_days: u32,
    pub primary_actor: Seq<char>,
    pub techniques: Seq<Seq<char>>,
    pub objectives: Seq<Seq<char>>,
    pub infrastructure_required: Seq<Seq<char>>,
    pub detection_risk_per_mille: u32,
    pub evasion_tactics: Seq<Seq<char>>,
    pub success_per_mille: u32,
    pub resource_requirements: Seq<Seq<char>>,
}

impl View for CampaignPhase {
    type V = CampaignPhaseView;

    open spec fn view(&self) -> CampaignPhaseView {
        CampaignPhaseView {
            phase_number: self.phase_number,
            phase_name: self.phase_name@,
            duration_days: self.duration_days,
            primary_actor: self.primary_actor@,
            techniques: views(self.techniques@),
            objectives: views(self.objectives@),
            infrastructure_required: views(self.infrastructure_required@),
            detection_risk_per_mille: self.detection_risk_per_mille,
            evasion_tactics: views(self.evasion_tactics@),
            success_per_mille: self.success_per_mille,
            resource_requirements: views(self.resource_requirements@),
        }
    }
}

/// The contents of a sequence of phases.
pub open spec fn phases_view(p: Seq<CampaignPhase>) -> Seq<CampaignPhaseView> {
    p.map_values(|x: CampaignPhase| x@)
}

/// The four phases of a campaign after APT29.
pub open spec fn apt29_phases() -> Seq<CampaignPhaseView> {
    seq![
        CampaignPhaseView {
            phase_number: 1,
            phase_name: "Extended Reconnaissance"@,
            duration_days: 30,
            primary_actor: "APT29"@,
            techniques: seq![
                "T1589"@,
                "T1590"@,
                "T1598"@,
            ],
            objectives: seq![
                "Map organizational structure"@,
                "Identify key personnel"@,
                "Document security tools"@,
                "Find third-party connections"@,
            ],
            infrastructure_required: seq![
                "Passive DNS monitoring"@,
                "WHOIS queries"@,
                "Breach database access"@,
            ],
            detection_risk_per_mille: 100,
            evasion_tactics: seq![
                "Distributed queries over time"@,
                "Legitimate tool usage"@,
                "Third-party infrastructure"@,
            ],
            success_per_mille: 950,
            resource_requirements: seq![
                "Analyst time: 40 hours"@,
                "OSINT tools subscription"@,
            ],
        },
        CampaignPhaseView {
            phase_number: 2,
            phase_name: "Initial Access via Supply Chain"@,
            duration_days: 21,
            primary_actor: "APT29"@,
            techniques: seq![
                "T1195.002"@,
                "T1195.003"@,
                "T1566.002"@,
            ],
            objectives: seq![
                "Compromise third-party software"@,
                "Distribute trojanized update"@,
                "Establish initial foothold"@,
            ],
            infrastructure_required: seq![
                "Compromised software vendor account"@,
                "Code signing certificate (stolen/forged)"@,
                "Delivery infrastructure"@,
            ],
            detection_risk_per_mille: 250,
            evasion_tactics: seq![
                "Legitimate vendor compromise"@,
                "Code obfuscation"@,
                "Signed executables"@,
                "Timing to match legitimate updates"@,
            ],
            success_per_mille: 720,
            resource_requirements: seq![
                "Access to vendor infrastructure"@,
                "Malware development"@,
                "Code signing capability"@,
            ],
        },
        CampaignPhaseView {
            phase_number: 3,
            phase_name: "Persistence and Lateral Movement"@,
            duration_days: 14,
            primary_actor: "APT29"@,
            techniques: seq![
                "T1098.001"@,
                "T1087"@,
                "T1570"@,
            ],
            objectives: seq![
                "Establish persistent backdoor"@,
                "Enumerate domain users"@,
                "Identify admin accounts"@,
                "Move to high-value systems"@,
            ],
            infrastructure_required: seq![
                "C2 infrastructure (HTTPS)"@,
                "Legitimate cloud services (O365, AWS)"@,
                "Proxy chains"@,
            ],
            detection_risk_per_mille: 350,
            evasion_tactics: seq![
                "Living-off-the-land binaries"@,
                "Legitimate administrative tools"@,
                "Encrypted communications"@,
                "Timing attacks during business hours"@,
            ],
            success_per_mille: 680,
            resource_requirements: seq![
                "Malware development (beacons)"@,
                "C2 server management"@,
            ],
        },
        CampaignPhaseView {
            phase_number: 4,
            phase_name: "Objective Achievement"@,
            duration_days: 60,
            primary_actor: "APT29"@,
            techniques: seq![
                "T1005"@,
                "T1020"@,
                "T1041"@,
            ],
            objectives: seq![
                "Access sensitive data stores"@,
                "Exfiltrate target information"@,
                "Maintain access for future operations"@,
            ],
            infrastructure_required: seq![
                "Data staging servers"@,
                "Exfiltration infrastructure"@,
                "Long-term C2 servers"@,
            ],
            detection_risk_per_mille: 450,
            evasion_tactics: seq![
                "Data chunking"@,
                "Scheduled transfers"@,
                "Steganography for sensitive data"@,
                "Encryption of all traffic"@,
            ],
            success_per_mille: 850,
            resource_requirements: seq![
                "Data exfiltration tools"@,
                "Long-term infrastructure"@,
            ],
        },
    ]
}

/// The two phases of a campaign after APT28.
pub open spec fn apt28_phases() -> Seq<CampaignPhaseView> {
    seq![
        CampaignPhaseView {
            phase_number: 1,
            phase_name: "Intelligence Gathering"@,
            duration_days: 14,
            primary_actor: "APT28"@,
            techniques: seq![
                "T1589"@,
                "T1591"@,
                "T1598.003"@,
            ],
            objectives: seq![
                "Identify high-value targets"@,
                "Build targeting lists"@,
                "Analyze email patterns"@,
            ],
            infrastructure_required: seq![
                "Credential database access"@,
                "Email enumeration tools"@,
            ],
            detection_risk_per_mille: 50,
            evasion_tactics: seq![
                "Passive enumeration"@,
                "Third-party tool usage"@,
            ],
            success_per_mille: 920,
            resource_requirements: seq![
                "OSINT analysts"@,
                "Targeting infrastructure"@,
            ],
        },
        CampaignPhaseView {
            phase_number: 2,
            phase_name: "Credential Harvesting"@,
            duration_days: 21,
            primary_actor: "APT28"@,
            techniques: seq![
                "T1598.003"@,
                "T1566.002"@,
                "T1192"@,
            ],
            objectives: seq![
                "Send spear phishing emails"@,
                "Harvest valid credentials"@,
                "Setup fake credential pages"@,
            ],
            infrastructure_required: seq![
                "Lookalike domains"@,
                "Phishing infrastructure"@,
                "Credential harvesting pages"@,
            ],
            detection_risk_per_mille: 400,
            evasion_tactics: seq![
                "Typosquatting domains"@,
                "Timing to evade detection"@,
                "Custom phishing templates"@,
            ],
            success_per_mille: 650,
            resource_requirements: seq![
                "Domain registration"@,
                "Phishing site development"@,
            ],
        },
    ]
}

/// The single phase of a campaign after an unknown actor.
pub open spec fn generic_phases() -> Seq<CampaignPhaseView> {
    seq![
        CampaignPhaseView {
            phase_number: 1,
            phase_name: "Initial Access"@,
            duration_days: 30,
            primary_actor: "Unknown"@,
            techniques: seq![
                "T1566.002"@,
                "T1195"@,
            ],
            objectives: seq![
                "Establish initial access"@,
            ],
            infrastructure_required: seq![
                "Phishing infrastructure"@,
            ],
            detection_risk_per_mille: 300,
            evasion_tactics: seq![
                "Standard evasion"@,
            ],
            success_per_mille: 700,
            resource_requirements: seq![
                "Standard tools"@,
            ],
        },
    ]
}

/// The phases of a campaign after `actor`.
pub open spec fn campaign_phases(actor: Seq<char>) -> Seq<CampaignPhaseView> {
    if actor == "APT29"@ {
        apt29_phases()
    } else if actor == "APT28"@ {
        apt28_phases()
    } else {
        generic_phases()
    }
}

/// The actors of a campaign led by `primary`.
pub open spec fn supporting_actors(primary: Seq<char>) -> Seq<Seq<char>> {
    if primary == "APT29"@ || primary == "APT28"@ {
        seq![primary, "Affiliated groups"@]
    } else {
        seq![primary]
    }
}

/// A time window in which activity blends in.
pub struct AnomalyWindow {
    /// Kind of window.
    pub window_type: String,
    /// Why the window matters.
    pub description: String,
    /// When it occurs.
    pub timing: String,
    /// How an exercise uses it.
    pub operational_guidance: String,
    /// Risk level.
    pub risk_level: String,
}

/// The content of a [`AnomalyWindow`].
#[verifier::ext_equal]
pub struct AnomalyWindowView {
    pub window_type: Seq<char>,
    pub description: Seq<char>,
    pub timing: Seq<char>,
    pub operational_guidance: Seq<char>,
    pub risk_level: Seq<char>,
}

impl View for AnomalyWindow {
    type V = AnomalyWindowView;

    open spec fn view(&self) -> AnomalyWindowView {
        AnomalyWindowView {
            window_type: self.window_type@,
            description: self.description@,
            timing: self.timing@,
            operational_guidance: self.operational_guidance@,
            risk_level: self.risk_level@,
        }
    }
}

/// The contents of a sequence of windows.
pub open spec fn windows_view(w: Seq<AnomalyWindow>) -> Seq<AnomalyWindowView> {
    w.map_values(|x: AnomalyWindow| x@)
}

/// The windows in which activity blends in, in the order they are listed.
pub open spec fn timing_windows() -> Seq<AnomalyWindowView> {
    seq![
        AnomalyWindowView {
            window_type: "Business Hours"@,
            description: "Activity blends with legitimate business operations"@,
            timing: "08:00-18:00 local time"@,
            operational_guidance: "Leverage normal admin activity patterns"@,
            risk_level: "Low"@,
        },
        AnomalyWindowView {
            window_type: "End of Month/Quarter"@,
            description: "Financial system activity increases, hiding reconnaissance"@,
            timing: "Last week of month/quarter"@,
            operational_guidance: "Escalate access requests during legitimate cycle"@,
            risk_level: "Low-Medium"@,
        },
        AnomalyWindowView {
            window_type: "Maintenance Windows"@,
            description: "System changes blend with legitimate maintenance"@,
            timing: "Post-patch Tuesday activity windows"@,
            operational_guidance: "Exploit legitimate change windows"@,
            risk_level: "Medium"@,
        },
        AnomalyWindowView {
            window_type: "Holiday Periods"@,
            description: "Reduced security monitoring"@,
            timing: "Weekends, nights, holidays"@,
            operational_guidance: "Execute high-risk activities during low-detection periods"@,
            risk_level: "High-Reward"@,
        },
    ]
}

/// Plans emulated campaigns.
pub struct CampaignPlanner;

impl CampaignPlanner {
    /// The four phases of a campaign after APT29, whatever the sector.
    pub fn build_apt29_phases(&self, sector: &str) -> (p: Vec<CampaignPhase>)
        ensures
            phases_view(p@) == apt29_phases(),
            p@.len() == 4,
            forall|i: int| 0 <= i < 4 ==> (#[trigger] p@[i]).phase_number == i + 1,
    {
        let v = vec![
            CampaignPhase {
                phase_number: 1,
                phase_name: string_from("Extended Reconnaissance"),
                duration_days: 30,
                primary_actor: string_from("APT29"),
                techniques: vec![
                    string_from("T1589"),
                    string_from("T1590"),
                    string_from("T1598"),
                ],
                objectives: vec![
                    string_from("Map organizational structure"),
                    string_from("Identify key personnel"),
                    string_from("Document security tools"),
                    string_from("Find third-party connections"),
                ],
                infrastructure_required: vec![
                    string_from("Passive DNS monitoring"),
                    string_from("WHOIS queries"),
                    string_from("Breach database access"),
                ],
                detection_risk_per_mille: 100,
                evasion_tactics: vec![
                    string_from("Distributed queries over time"),
                    string_from("Legitimate tool usage"),
                    string_from("Third-party infrastructure"),
                ],
                success_per_mille: 950,
                resource_requirements: vec![
                    string_from("Analyst time: 40 hours"),
                    string_from("OSINT tools subscription"),
                ],
            },
            CampaignPhase {
                phase_number: 2,
                phase_name: string_from("Initial Access via Supply Chain"),
                duration_days: 21,
                primary_actor: string_from("APT29"),
                techniques: vec![
                    string_from("T1195.002"),
                    string_from("T1195.003"),
                    string_from("T1566.002"),
                ],
                objectives: vec![
                    string_from("Compromise third-party software"),
                    string_from("Distribute trojanized update"),
                    string_from("Establish initial foothold"),
                ],
                infrastructure_required: vec![
                    string_from("Compromised software vendor account"),
                    string_from("Code signing certificate (stolen/forged)"),
                    string_from("Delivery infrastructure"),
                ],
                detection_risk_per_mille: 250,
                evasion_tactics: vec![
                    string_from("Legitimate vendor compromise"),
                    string_from("Code obfuscation"),
                    string_from("Signed executables"),
                    string_from("Timing to match legitimate updates"),
                ],
                success_per_mille: 720,
                resource_requirements: vec![
                    string_from("Access to vendor infrastructure"),
                    string_from("Malware development"),
                    string_from("Code signing capability"),
                ],
            },
            CampaignPhase {
                phase_number: 3,
                phase_name: string_from("Persistence and Lateral Movement"),
                duration_days: 14,
                primary_actor: string_from("APT29"),
                techniques: vec![
                    string_from("T1098.001"),
                    string_from("T1087"),
                    string_from("T1570"),
                ],
                objectives: vec![
                    string_from("Establish persistent backdoor"),
                    string_from("Enumerate domain users"),
                    string_from("Identify admin accounts"),
                    string_from("Move to high-value systems"),
                ],
                infrastructure_required: vec![
                    string_from("C2 infrastructure (HTTPS)"),
                    string_from("Legitimate cloud services (O365, AWS)"),
                    string_from("Proxy chains"),
                ],
                detection_risk_per_mille: 350,
                evasion_tactics: vec![
                    string_from("Living-off-the-land binaries"),
                    string_from("Legitimate administrative tools"),
                    string_from("Encrypted communications"),
                    string_from("Timing attacks during business hours"),
                ],
                success_per_mille: 680,
                resource_requirements: vec![
                    string_from("Malware development (beacons)"),
                    string_from("C2 server management"),
                ],
            },
            CampaignPhase {
                phase_number: 4,
                phase_name: string_from("Objective Achievement"),
                duration_days: 60,
                primary_actor: string_from("APT29"),
                techniques: vec![
                    string_from("T1005"),
                    string_from("T1020"),
                    string_from("T1041"),
                ],
                objectives: vec![
                    string_from("Access sensitive data stores"),
                    string_from("Exfiltrate target information"),
                    string_from("Maintain access for future operations"),
                ],
                infrastructure_required: vec![
                    string_from("Data staging servers"),
                    string_from("Exfiltration infrastructure"),
                    string_from("Long-term C2 servers"),
                ],
                detection_risk_per_mille: 450,
                evasion_tactics: vec![
                    string_from("Data chunking"),
                    string_from("Scheduled transfers"),
                    string_from("Steganography for sensitive data"),
                    string_from("Encryption of all traffic"),
                ],
                success_per_mille: 850,
                resource_requirements: vec![
                    string_from("Data exfiltration tools"),
                    string_from("Long-term infrastructure"),
                ],
            },
        ];
        assert(phases_view(v@) =~~= apt29_phases());
        v
    }

    /// The two phases of a campaign after APT28, whatever the sector.
    pub fn build_apt28_phases(&self, sector: &str) -> (p: Vec<CampaignPhase>)
        ensures
            phases_view(p@) == apt28_phases(),
    {
        let v = vec![
            CampaignPhase {
                phase_number: 1,
                phase_name: string_from("Intelligence Gathering"),
                duration_days: 14,
                primary_actor: string_from("APT28"),
                techniques: vec![
                    string_from("T1589"),
                    string_from("T1591"),
                    string_from("T1598.003"),
                ],
                objectives: vec![
                    string_from("Identify high-value targets"),
                    string_from("Build targeting lists"),
                    string_from("Analyze email patterns"),
                ],
                infrastructure_required: vec![
                    string_from("Credential database access"),
                    string_from("Email enumeration tools"),
                ],
                detection_risk_per_mille: 50,
                evasion_tactics: vec![
                    string_from("Passive enumeration"),
                    string_from("Third-party tool usage"),
                ],
                success_per_mille: 920,
                resource_requirements: vec![
                    string_from("OSINT analysts"),
                    string_from("Targeting infrastructure"),
                ],
            },
            CampaignPhase {
                phase_number: 2,
                phase_name: string_from("Credential Harvesting"),
                duration_days: 21,
                primary_actor: string_from("APT28"),
                techniques: vec![
                    string_from("T1598.003"),
                    string_from("T1566.002"),
                    string_from("T1192"),
                ],
                objectives: vec![
                    string_from("Send spear phishing emails"),
                    string_from("Harvest valid credentials"),
                    string_from("Setup fake credential pages"),
                ],
                infrastructure_required: vec![
                    string_from("Lookalike domains"),
                    string_from("Phishing infrastructure"),
                    string_from("Credential harvesting pages"),
                ],
                detection_risk_per_mille: 400,
                evasion_tactics: vec![
                    string_from("Typosquatting domains"),
                    string_from("Timing to evade detection"),
                    string_from("Custom phishing templates"),
                ],
                success_per_mille: 650,
                resource_requirements: vec![
                    string_from("Domain registration"),
                    string_from("Phishing site development"),
                ],
            },
        ];
        assert(phases_view(v@) =~~= apt28_phases());
        v
    }

    /// The single phase of a campaign after an unknown actor, whatever the sector.
    pub fn build_generic_phases(&self, sector: &str) -> (p: Vec<CampaignPhase>)
        ensures
            phases_view(p@) == generic_phases(),
    {
        let v = vec![
            CampaignPhase {
                phase_number: 1,
                phase_name: string_from("Initial Access"),
                duration_days: 30,
                primary_actor: string_from("Unknown"),
                techniques: vec![
                    string_from("T1566.002"),
                    string_from("T1195"),
                ],
                objectives: vec![
                    string_from("Establish initial access"),
                ],
                infrastructure_required: vec![
                    string_from("Phishing infrastructure"),
                ],
                detection_risk_per_mille: 300,
                evasion_tactics: vec![
                    string_from("Standard evasion"),
                ],
                success_per_mille: 700,
                resource_requirements: vec![
                    string_from("Standard tools"),
                ],
            },
        ];
        assert(phases_view(v@) =~~= generic_phases());
        v
    }

    /// The phases of a campaign after `actor` (`APT29`, `APT28`, or any other).
    pub fn build_campaign_phases(&self, actor: &str, sector: &str) -> (p: Vec<CampaignPhase>)
        ensures
            phases_view(p@) == campaign_phases(actor@),
    {
        if same_text(actor, "APT29") {
            self.build_apt29_phases(sector)
        } else if same_text(actor, "APT28") {
            self.build_apt28_phases(sector)
        } else {
            self.build_generic_phases(sector)
        }
    }

    /// The actors of a campaign led by `primary`: with affiliated groups for
    /// APT29 and APT28, alone otherwise.
    pub fn identify_supporting_actors(&self, primary: &str) -> (r: Vec<String>)
        ensures
            views(r@) == supporting_actors(primary@),
    {
        let r = if same_text(primary, "APT29") || same_text(primary, "APT28") {
            vec![string_from(primary), string_from("Affiliated groups")]
        } else {
            vec![string_from(primary)]
        };
        assert(views(r@) =~= supporting_actors(primary@));
        r
    }

    /// The windows in which activity blends in best. Never fails.
    pub fn identify_optimal_timing(&self) -> (r: Result<Vec<AnomalyWindow>, String>)
        ensures
            r matches Ok(w) && windows_view(w@) == timing_windows(),
    {
        let v = vec![
            AnomalyWindow {
                window_type: string_from("Business Hours"),
                description: string_from("Activity blends with legitimate business operations"),
                timing: string_from("08:00-18:00 local time"),
                operational_guidance: string_from("Leverage normal admin activity patterns"),
                risk_level: string_from("Low"),
            },
            AnomalyWindow {
                window_type: string_from("End of Month/Quarter"),
                description: string_from("Financial system activity increases, hiding reconnaissance"),
                timing: string_from("Last week of month/quarter"),
                operational_guidance: string_from("Escalate access requests during legitimate cycle"),
                risk_level: string_from("Low-Medium"),
            },
            AnomalyWindow {
                window_type: string_from("Maintenance Windows"),
                description: string_from("System changes blend with legitimate maintenance"),
                timing: string_from("Post-patch Tuesday activity windows"),
                operational_guidance: string_from("Exploit legitimate change windows"),
                risk_level: string_from("Medium"),
            },
            AnomalyWindow {
                window_type: string_from("Holiday Periods"),
                description: string_from("Reduced security monitoring"),
                timing: string_from("Weekends, nights, holidays"),
                operational_guidance: string_from("Execute high-risk activities during low-detection periods"),
                risk_level: string_from("High-Reward"),
            },
        ];
        assert(windows_view(v@) =~~= timing_windows());
        Ok(v)
    }
}

} // verus!
