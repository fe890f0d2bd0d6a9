//! Supply-chain exercise tables: the attack surface of a software vendor,
//! how a staged payload is described, and the impact report of a vendor
//! compromise.

use vstd::prelude::*;
use crate::text::{push_str, string_from, views};

verus! {

broadcast use vstd::string::group_string_axioms;

/// How the payload of a supply-chain exercise is staged.
pub struct MalwareStaging {
    /// How delivery is staged.
    pub staging_phase: String,
    /// Kind of payload.
    pub payload_type: String,
    /// Estimated size in MB.
    pub size_estimate_mb: u32,
    /// Obfuscation in use.
    pub obfuscation_techniques: Vec<String>,
    /// How it is signed.
    pub code_signing_method: String,
    /// How it is distributed.
    pub distribution_method: String,
    /// How fast it arrives.
    pub delivery_speed: String,
    /// Days it is expected to last.
    pub persistence_period_days: u32,
    /// How it resists analysis.
    pub anti_analysis_techniques: Vec<String>,
}

/// The content of a [`MalwareStaging`].
#[verifier::ext_equal]
pub struct MalwareStagingView {
    pub staging_phase: Seq<char>,
    pub payload_type: Seq<char>,
    pub size_estimate_mb: u32,
    pub obfuscation_techniques: Seq<Seq<char>>,
    pub code_signing_method: Seq<char>,
    pub distribution_method: Seq<char>,
    pub delivery_speed: Seq<char>,
    pub persistence_period_days: u32,
    pub anti_analysis_techniques: Seq<Seq<char>>,
}

impl View for MalwareStaging {
    type V = MalwareStagingView;

    open spec fn view(&self) -> MalwareStagingView {
        MalwareStagingView {
            staging_phase: self.staging_phase@,
            payload_type: self.payload_type@,
            size_estimate_mb: self.size_estimate_mb,
            obfuscation_techniques: views(self.obfuscation_techniques@),
            code_signing_method: self.code_signing_method@,
            distribution_method: self.distribution_method@,
            delivery_speed: self.delivery_speed@,
            persistence_period_days: self.persistence_period_days,
            anti_analysis_techniques: views(self.anti_analysis_techniques@),
        }
    }
}

/// The staging of a payload of kind `payload_type`.
pub open spec fn staging_record(payload_type: Seq<char>) -> MalwareStagingView {
    MalwareStagingView {
        staging_phase: "Multi-stage delivery"@,
        payload_type: payload_type,
        size_estimate_mb: 5,
        obfuscation_techniques: seq![
            "Code virtualization"@,
            "Control flow flattening"@,
            "String encryption"@,
            "API hooking abstraction"@,
            "Polymorphic code generation"@,
        ],
        code_signing_method: "Stolen/forged certificate from vendor"@,
        distribution_method: "Signed update package through official channels"@,
        delivery_speed: "Immediate upon update installation"@,
        persistence_period_days: 365,
        anti_analysis_techniques: seq![
            "VM detection"@,
            "Debugger detection"@,
            "Sandbox detection"@,
            "Behavioral blocking evasion"@,
            "Memory-only operation"@,
        ],
    }
}

/// The impact report of a compromise of `vendor`.
pub open spec fn impact_text(vendor: Seq<char>) -> Seq<char> {
    "=== Supply Chain Compromise Impact Analysis ===\n\n"@
        + "Target Vendor: "@
        + vendor
        + "\n\n"@
        + "Direct Impact:\n"@
        + "  • Estimated affected customers: 100,000 - 500,000+\n"@
        + "  • Global impact potential: Yes (worldwide distribution)\n"@
        + "  • Sectors impacted: Government, Defense, Finance, Technology\n\n"@
        + "Persistence Capabilities:\n"@
        + "  • Initial compromise: Via software update (trusted channel)\n"@
        + "  • Long-term persistence: 1+ years without detection\n"@
        + "  • Re-infection capability: Multiple fallback mechanisms\n\n"@
        + "Detection Challenges:\n"@
        + "  • Code appears legitimate (vendor-signed)\n"@
        + "  • Distribution through trusted channels\n"@
        + "  • Mimics legitimate software behavior\n"@
        + "  • Difficult to attribute to specific threat actor\n\n"@
        + "Operational Impact:\n"@
        + "  • Access to sensitive networks: Government, Defense contractors\n"@
        + "  • Data exfiltration potential: Terabytes of sensitive data\n"@
        + "  • Espionage capability: Strategic intelligence gathering\n"@
        + "  • Disruption potential: Critical infrastructure\n"@
}

/// The parts of a vendor an attacker can reach.
pub open spec fn attack_surface() -> Seq<Seq<char>> {
    seq![
        "Vendor infrastructure (dev/build/release environment)"@,
        "Developer credentials (phishing, credential stuffing)"@,
        "Build pipeline (CI/CD systems)"@,
        "Code signing infrastructure"@,
        "Update distribution servers"@,
        "Third-party dependencies (npm, Maven, NuGet)"@,
        "Developer tools (IDEs, compilers)"@,
        "Open source projects with high dependency count"@,
    ]
}

/// A software vendor whose update channel reaches many customers.
pub struct VendorTarget {
    /// Name of the vendor.
    pub vendor_name: String,
    /// The product whose updates reach customers.
    pub software_name: String,
    /// Market penetration, in thousandths.
    pub market_penetration_per_mille: u32,
    /// Sectors its customers are in.
    pub target_sectors: Vec<String>,
    /// How often it updates.
    pub update_frequency: String,
    /// Estimated number of customers.
    pub customer_count_estimate: usize,
    /// Its security maturity.
    pub security_maturity: String,
    /// How hard it would be to compromise.
    pub exploitation_difficulty: String,
    /// Potential impact, in thousandths.
    pub potential_impact_per_mille: u32,
}

/// The content of a [`VendorTarget`].
#[verifier::ext_equal]
pub struct VendorTargetView {
    pub vendor_name: Seq<char>,
    pub software_name: Seq<char>,
    pub market_penetration_per_mille: u32,
    pub target_sectors: Seq<Seq<char>>,
    pub update_frequency: Seq<char>,
    pub customer_count_estimate: usize,
    pub security_maturity: Seq<char>,
    pub exploitation_difficulty: Seq<char>,
    pub potential_impact_per_mille: u32,
}

impl View for VendorTarget {
    type V = VendorTargetView;

    open spec fn view(&self) -> VendorTargetView {
        VendorTargetView {
            vendor_name: self.vendor_name@,
            software_name: self.software_name@,
            market_penetration_per_mille: self.market_penetration_per_mille,
            target_sectors: views(self.target_sectors@),
            update_frequency: self.update_frequency@,
            customer_count_estimate: self.customer_count_estimate,
            security_maturity: self.security_maturity@,
            exploitation_difficulty: self.exploitation_difficulty@,
            potential_impact_per_mille: self.potential_impact_per_mille,
        }
    }
}

/// The contents of a sequence of vendors.
pub open spec fn vendor_views(s: Seq<VendorTarget>) -> Seq<VendorTargetView> {
    s.map_values(|x: VendorTarget| x@)
}

/// The vendors considered, in order.
pub open spec fn vendor_targets() -> Seq<VendorTargetView> {
    seq![
        VendorTargetView {
            vendor_name: "SolarWinds"@,
            software_name: "Orion Platform"@,
            market_penetration_per_mille: 950,
            target_sectors: seq![
                "Government"@,
                "Defense"@,
                "Utilities"@,
                "Finance"@,
            ],
            update_frequency: "Monthly"@,
            customer_count_estimate: 18000,
            security_maturity: "Medium"@,
            exploitation_difficulty: "Medium"@,
            potential_impact_per_mille: 980,
        },
        VendorTargetView {
            vendor_name: "Microsoft"@,
            software_name: "Windows Update"@,
            market_penetration_per_mille: 990,
            target_sectors: seq![
                "All"@,
            ],
            update_frequency: "Monthly"@,
            customer_count_estimate: 1_000_000_000,
            security_maturity: "High"@,
            exploitation_difficulty: "Very High"@,
            potential_impact_per_mille: 990,
        },
        VendorTargetView {
            vendor_name: "JetBrains"@,
            software_name: "IDE Updates"@,
            market_penetration_per_mille: 850,
            target_sectors: seq![
                "Technology"@,
                "Finance"@,
                "Defense Contractors"@,
            ],
            update_frequency: "Monthly"@,
            customer_count_estimate: 5_000_000,
            security_maturity: "Medium-High"@,
            exploitation_difficulty: "High"@,
            potential_impact_per_mille: 920,
        },
        VendorTargetView {
            vendor_name: "Slack"@,
            software_name: "Slack Desktop"@,
            market_penetration_per_mille: 900,
            target_sectors: seq![
                "Technology"@,
                "Finance"@,
                "Government"@,
            ],
            update_frequency: "Biweekly"@,
            customer_count_estimate: 750_000_000,
            security_maturity: "Medium-High"@,
            exploitation_difficulty: "High"@,
            potential_impact_per_mille: 880,
        },
    ]
}

/// Plans supply-chain exercises.
pub struct SupplyChainPlanner;

impl SupplyChainPlanner {
    /// The staging of a payload of kind `payload_type`. Never fails.
    pub fn plan_malware_staging(&self, payload_type: &str) -> (r: Result<MalwareStaging, String>)
        ensures
            r matches Ok(m) && m@ == staging_record(payload_type@),
    {
        let r = MalwareStaging {
            staging_phase: string_from("Multi-stage delivery"),
            payload_type: string_from(payload_type),
            size_estimate_mb: 5,
            obfuscation_techniques: vec![
                string_from("Code virtualization"),
                string_from("Control flow flattening"),
                string_from("String encryption"),
                string_from("API hooking abstraction"),
                string_from("Polymorphic code generation"),
            ],
            code_signing_method: string_from("Stolen/forged certificate from vendor"),
            distribution_method: string_from("Signed update package through official channels"),
            delivery_speed: string_from("Immediate upon update installation"),
            persistence_period_days: 365,
            anti_analysis_techniques: vec![
                string_from("VM detection"),
                string_from("Debugger detection"),
                string_from("Sandbox detection"),
                string_from("Behavioral blocking evasion"),
                string_from("Memory-only operation"),
            ],
        };
        assert(r@ =~~= staging_record(payload_type@));
        Ok(r)
    }

    /// The impact report of a compromise of `vendor`. Never fails.
    pub fn estimate_compromise_impact(&self, vendor: &str) -> (r: Result<String, String>)
        ensures
            r matches Ok(s) && s@ == impact_text(vendor@),
    {
        let mut s = String::new();
        push_str(&mut s, "=== Supply Chain Compromise Impact Analysis ===\n\n");
        push_str(&mut s, "Target Vendor: ");
        push_str(&mut s, vendor);
        push_str(&mut s, "\n\n");
        push_str(&mut s, "Direct Impact:\n");
        push_str(&mut s, "  • Estimated affected customers: 100,000 - 500,000+\n");
        push_str(&mut s, "  • Global impact potential: Yes (worldwide distribution)\n");
        push_str(&mut s, "  • Sectors impacted: Government, Defense, Finance, Technology\n\n");
        push_str(&mut s, "Persistence Capabilities:\n");
        push_str(&mut s, "  • Initial compromise: Via software update (trusted channel)\n");
        push_str(&mut s, "  • Long-term persistence: 1+ years without detection\n");
        push_str(&mut s, "  • Re-infection capability: Multiple fallback mechanisms\n\n");
        push_str(&mut s, "Detection Challenges:\n");
        push_str(&mut s, "  • Code appears legitimate (vendor-signed)\n");
        push_str(&mut s, "  • Distribution through trusted channels\n");
        push_str(&mut s, "  • Mimics legitimate software behavior\n");
        push_str(&mut s, "  • Difficult to attribute to specific threat actor\n\n");
        push_str(&mut s, "Operational Impact:\n");
        push_str(&mut s, "  • Access to sensitive networks: Government, Defense contractors\n");
        push_str(&mut s, "  • Data exfiltration potential: Terabytes of sensitive data\n");
        push_str(&mut s, "  • Espionage capability: Strategic intelligence gathering\n");
        push_str(&mut s, "  • Disruption potential: Critical infrastructure\n");
        Ok(s)
    }

    /// The parts of a vendor an attacker can reach. Never fails.
    pub fn identify_attack_surface(&self) -> (r: Result<Vec<String>, String>)
        ensures
            r matches Ok(v) && views(v@) == attack_surface(),
    {
        let v = vec![
            string_from("Vendor infrastructure (dev/build/release environment)"),
            string_from("Developer credentials (phishing, credential stuffing)"),
            string_from("Build pipeline (CI/CD systems)"),
            string_from("Code signing infrastructure"),
            string_from("Update distribution servers"),
            string_from("Third-party dependencies (npm, Maven, NuGet)"),
            string_from("Developer tools (IDEs, compilers)"),
            string_from("Open source projects with high dependency count"),
        ];
        assert(views(v@) =~= attack_surface());
        Ok(v)
    }
    /// The vendors considered, in order. Never fails.
    pub fn identify_vendor_targets(&self) -> (r: Result<Vec<VendorTarget>, String>)
        ensures
            r matches Ok(v) && vendor_views(v@) == vendor_targets(),
    {
        let v = vec![
            VendorTarget {
                vendor_name: string_from("SolarWinds"),
                software_name: string_from("Orion Platform"),
                market_penetration_per_mille: 950,
                target_sectors: vec![
                    string_from("Government"),
                    string_from("Defense"),
                    string_from("Utilities"),
                    string_from("Finance"),
                ],
                update_frequency: string_from("Monthly"),
                customer_count_estimate: 18000,
                security_maturity: string_from("Medium"),
                exploitation_difficulty: string_from("Medium"),
                potential_impact_per_mille: 980,
            },
            VendorTarget {
                vendor_name: string_from("Microsoft"),
                software_name: string_from("Windows Update"),
                market_penetration_per_mille: 990,
                target_sectors: vec![
                    string_from("All"),
                ],
                update_frequency: string_from("Monthly"),
                customer_count_estimate: 1_000_000_000,
                security_maturity: string_from("High"),
                exploitation_difficulty: string_from("Very High"),
                potential_impact_per_mille: 990,
            },
            VendorTarget {
                vendor_name: string_from("JetBrains"),
                software_name: string_from("IDE Updates"),
                market_penetration_per_mille: 850,
                target_sectors: vec![
                    string_from("Technology"),
                    string_from("Finance"),
                    string_from("Defense Contractors"),
                ],
                update_frequency: string_from("Monthly"),
                customer_count_estimate: 5_000_000,
                security_maturity: string_from("Medium-High"),
                exploitation_difficulty: string_from("High"),
                potential_impact_per_mille: 920,
            },
            VendorTarget {
                vendor_name: string_from("Slack"),
                software_name: string_from("Slack Desktop"),
                market_penetration_per_mille: 900,
                target_sectors: vec![
                    string_from("Technology"),
                    string_from("Finance"),
                    string_from("Government"),
                ],
                update_frequency: string_from("Biweekly"),
                customer_count_estimate: 750_000_000,
                security_maturity: string_from("Medium-High"),
                exploitation_difficulty: string_from("High"),
                potential_impact_per_mille: 880,
            },
        ];
        assert(vendor_views(v@) =~~= vendor_targets());
        Ok(v)
    }
}

} // verus!
