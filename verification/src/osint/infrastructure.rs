//! Exercise-infrastructure tables: command-and-control frameworks and
//! hosting providers, and which of them suit an operation.

use vstd::prelude::*;
use crate::text::{same_text, string_from, views};

verus! {

broadcast use vstd::string::group_string_axioms;

/// A command-and-control framework.
pub struct C2Framework {
    /// Name of the framework.
    pub name: String,
    /// What it is.
    pub description: String,
    /// Protocols it speaks.
    pub command_protocol: String,
    /// How stealthy it is.
    pub stealth_capability: String,
    /// Evasion rating, in thousandths.
    pub evasion_per_mille: u32,
    /// How hard it is to run.
    pub operational_difficulty: String,
    /// Persistence it offers.
    pub persistence_options: Vec<String>,
    /// Payloads it supports.
    pub supported_payloads: Vec<String>,
    /// How defenders detect it.
    pub known_detections: Vec<String>,
    /// Skill it asks of an operator.
    pub operator_skill_required: String,
}

/// The content of a [`C2Framework`].
#[verifier::ext_equal]
pub struct C2FrameworkView {
    pub name: Seq<char>,
    pub description: Seq<char>,
    pub command_protocol: Seq<char>,
    pub stealth_capability: Seq<char>,
    pub evasion_per_mille: u32,
    pub operational_difficulty: Seq<char>,
    pub persistence_options: Seq<Seq<char>>,
    pub supported_payloads: Seq<Seq<char>>,
    pub known_detections: Seq<Seq<char>>,
    pub operator_skill_required: Seq<char>,
}

impl View for C2Framework {
    type V = C2FrameworkView;

    open spec fn view(&self) -> C2FrameworkView {
        C2FrameworkView {
            name: self.name@,
            description: self.description@,
            command_protocol: self.command_protocol@,
            stealth_capability: self.stealth_capability@,
            evasion_per_mille: self.evasion_per_mille,
            operational_difficulty: self.operational_difficulty@,
            persistence_options: views(self.persistence_options@),
            supported_payloads: views(self.supported_payloads@),
            known_detections: views(self.known_detections@),
            operator_skill_required: self.operator_skill_required@,
        }
    }
}

/// The contents of a sequence of frameworks.
pub open spec fn c2_views(s: Seq<C2Framework>) -> Seq<C2FrameworkView> {
    s.map_values(|x: C2Framework| x@)
}

/// Every framework, in the order they are considered.
pub open spec fn c2_catalog() -> Seq<C2FrameworkView> {
    seq![
        C2FrameworkView {
            name: "Cobalt Strike"@,
            description: "Commercial C2 platform with extensive obfuscation"@,
            command_protocol: "HTTP/HTTPS + DNS + SMB"@,
            stealth_capability: "Very High - Beacon obfuscation, HTTPS proxying"@,
            evasion_per_mille: 880,
            operational_difficulty: "Medium - Extensive features, complex tuning"@,
            persistence_options: seq![
                "Registry run keys"@,
                "Scheduled tasks"@,
                "WMI event subscriptions"@,
                "Services"@,
                "Startup folders"@,
            ],
            supported_payloads: seq![
                "Windows shellcode"@,
                "DLL injection"@,
                "Process hollowing"@,
                "Reflective DLL injection"@,
            ],
            known_detections: seq![
                "Beacon.exe pattern matching"@,
                "Beacon traffic signatures"@,
                "Malleable C2 profile defaults"@,
            ],
            operator_skill_required: "Advanced - Custom C2 profiles, process injection"@,
        },
        C2FrameworkView {
            name: "Sliver"@,
            description: "Open-source C2 inspired by Sliver's stealth design"@,
            command_protocol: "gRPC + HTTP/HTTPS"@,
            stealth_capability: "High - gRPC encrypted communication"@,
            evasion_per_mille: 820,
            operational_difficulty: "Medium - Simpler than Cobalt Strike"@,
            persistence_options: seq![
                "Registry modification"@,
                "Startup shortcuts"@,
                "Scheduled tasks"@,
            ],
            supported_payloads: seq![
                "Native Windows shellcode"@,
                "DLL loading"@,
                "Process injection"@,
            ],
            known_detections: seq![
                "gRPC pattern detection"@,
                "Process memory signatures"@,
            ],
            operator_skill_required: "Intermediate - Configuration and payload generation"@,
        },
        C2FrameworkView {
            name: "Empire"@,
            description: "PowerShell-based C2 framework for Windows environments"@,
            command_protocol: "HTTP/HTTPS + DNS"@,
            stealth_capability: "Medium - PowerShell-based, requires AMSI bypass"@,
            evasion_per_mille: 650,
            operational_difficulty: "Low - Script-based, easier for operators"@,
            persistence_options: seq![
                "PowerShell profiles"@,
                "WMI event subscriptions"@,
                "Scheduled tasks"@,
                "Registry run keys"@,
            ],
            supported_payloads: seq![
                "PowerShell agents"@,
                "Obfuscated scripts"@,
                "Staged payloads"@,
            ],
            known_detections: seq![
                "PowerShell command line logging"@,
                "Script block logging"@,
                "AMSI detection"@,
            ],
            operator_skill_required: "Intermediate - PowerShell knowledge"@,
        },
        C2FrameworkView {
            name: "Metasploit"@,
            description: "Open-source penetration testing framework with C2 capabilities"@,
            command_protocol: "HTTP/HTTPS + DNS + raw TCP"@,
            stealth_capability: "Low - Default signatures widely detected"@,
            evasion_per_mille: 420,
            operational_difficulty: "Low - Many defaults, detection-prone"@,
            persistence_options: seq![
                "Multiple persistence modules"@,
                "Registry modification"@,
                "Service installation"@,
            ],
            supported_payloads: seq![
                "Meterpreter"@,
                "Reverse shells"@,
                "Custom shellcode"@,
            ],
            known_detections: seq![
                "Meterpreter signature"@,
                "Metasploit user-agent strings"@,
                "Reverse shell patterns"@,
            ],
            operator_skill_required: "Beginner to Intermediate - Wide documentation"@,
        },
    ]
}

/// Whether a framework suits an operation type: for `stealth` one rated
/// above 750 for evasion, for `fast` one whose operational difficulty is not
/// the advanced kind, for any other type every framework.
pub open spec fn c2_keeps(sel: Seq<char>, f: C2FrameworkView) -> bool {
    if sel == "stealth"@ {
        f.evasion_per_mille > 750
    } else if sel == "fast"@ {
        f.operational_difficulty != "Advanced - Custom C2 profiles, process injection"@
    } else {
        true
    }
}


/// The entries of `s` that `keeps` admits, in order.
pub open spec fn kept_c2(s: Seq<C2FrameworkView>, sel: Seq<char>) -> Seq<C2FrameworkView>
    decreases s.len(),
{
    if s.len() == 0 {
        s
    } else {
        let p = kept_c2(s.drop_last(), sel);
        if c2_keeps(sel, s.last()) {
            p.push(s.last())
        } else {
            p
        }
    }
}

/// A hosting provider for exercise infrastructure.
pub struct VPSProvider {
    /// Name of the provider.
    pub provider_name: String,
    /// Where it hosts.
    pub geographic_locations: Vec<String>,
    /// Reputation of its addresses.
    pub ip_reputation: String,
    /// Whether it protects against DDoS.
    pub ddos_protection: bool,
    /// Risk of detection, in thousandths.
    pub detection_risk_per_mille: u32,
    /// Monthly cost, in US cents.
    pub monthly_cost_cents: u32,
    /// Payment methods.
    pub payment_methods: Vec<String>,
    /// How fast it acts on abuse reports.
    pub abuse_reporting_lag: String,
    /// How it cooperates with law enforcement.
    pub law_enforcement_cooperation: String,
    /// How operators keep its addresses unflagged.
    pub provider_evasion_techniques: Vec<String>,
    /// Breaches it has had.
    pub previous_breach_history: Vec<String>,
}

/// The content of a [`VPSProvider`].
#[verifier::ext_equal]
pub struct VPSProviderView {
    pub provider_name: Seq<char>,
    pub geographic_locations: Seq<Seq<char>>,
    pub ip_reputation: Seq<char>,
    pub ddos_protection: bool,
    pub detection_risk_per_mille: u32,
    pub monthly_cost_cents: u32,
    pub payment_methods: Seq<Seq<char>>,
    pub abuse_reporting_lag: Seq<char>,
    pub law_enforcement_cooperation: Seq<char>,
    pub provider_evasion_techniques: Seq<Seq<char>>,
    pub previous_breach_history: Seq<Seq<char>>,
}

impl View for VPSProvider {
    type V = VPSProviderView;

    open spec fn view(&self) -> VPSProviderView {
        VPSProviderView {
            provider_name: self.provider_name@,
            geographic_locations: views(self.geographic_locations@),
            ip_reputation: self.ip_reputation@,
            ddos_protection: self.ddos_protection,
            detection_risk_per_mille: self.detection_risk_per_mille,
            monthly_cost_cents: self.monthly_cost_cents,
            payment_methods: views(self.payment_methods@),
            abuse_reporting_lag: self.abuse_reporting_lag@,
            law_enforcement_cooperation: self.law_enforcement_cooperation@,
            provider_evasion_techniques: views(self.provider_evasion_techniques@),
            previous_breach_history: views(self.previous_breach_history@),
        }
    }
}

/// The contents of a sequence of providers.
pub open spec fn vps_views(s: Seq<VPSProvider>) -> Seq<VPSProviderView> {
    s.map_values(|x: VPSProvider| x@)
}

/// Every provider, in the order they are considered.
pub open spec fn vps_catalog() -> Seq<VPSProviderView> {
    seq![
        VPSProviderView {
            provider_name: "Digital Ocean"@,
            geographic_locations: seq![
                "US"@,
                "UK"@,
                "Germany"@,
                "Singapore"@,
            ],
            ip_reputation: "Medium - Some datacenter IPs detected in threat lists"@,
            ddos_protection: true,
            detection_risk_per_mille: 650,
            monthly_cost_cents: 500,
            payment_methods: seq![
                "Credit Card"@,
                "PayPal"@,
            ],
            abuse_reporting_lag: "4-6 hours (responsive to reports)"@,
            law_enforcement_cooperation: "High - US-based, quick compliance"@,
            provider_evasion_techniques: seq![
                "Use older datacenter IP blocks (less monitored)"@,
                "Rotate IPs frequently"@,
                "Use load balancer for traffic distribution"@,
            ],
            previous_breach_history: seq![
                "2019: SSH key exposure (limited)"@,
            ],
        },
        VPSProviderView {
            provider_name: "Vultr"@,
            geographic_locations: seq![
                "US"@,
                "Netherlands"@,
                "Japan"@,
                "Australia"@,
            ],
            ip_reputation: "Low - Less common in threat intelligence feeds"@,
            ddos_protection: true,
            detection_risk_per_mille: 480,
            monthly_cost_cents: 600,
            payment_methods: seq![
                "Credit Card"@,
                "Bitcoin"@,
            ],
            abuse_reporting_lag: "2-3 hours (very responsive)"@,
            law_enforcement_cooperation: "Medium-High - US-based"@,
            provider_evasion_techniques: seq![
                "Use Netherlands or Japan nodes (less common for C2)"@,
                "Implement traffic rate limiting"@,
                "Use multiple small instances vs single large"@,
            ],
            previous_breach_history: seq![
                "No major breaches reported"@,
            ],
        },
        VPSProviderView {
            provider_name: "OVH"@,
            geographic_locations: seq![
                "France"@,
                "Canada"@,
                "Singapore"@,
                "Poland"@,
            ],
            ip_reputation: "Low - Less monitoring from US-centric vendors"@,
            ddos_protection: true,
            detection_risk_per_mille: 420,
            monthly_cost_cents: 400,
            payment_methods: seq![
                "Credit Card"@,
                "Cryptocurrency"@,
            ],
            abuse_reporting_lag: "12-24 hours (slower response)"@,
            law_enforcement_cooperation: "Medium - EU-based, GDPR considerations"@,
            provider_evasion_techniques: seq![
                "Use France or Poland nodes"@,
                "GDPR-based privacy claims"@,
                "European customers may face less monitoring"@,
            ],
            previous_breach_history: seq![
                "2013: Customer data exposure (resolved)"@,
            ],
        },
        VPSProviderView {
            provider_name: "AWS EC2"@,
            geographic_locations: seq![
                "Global (25+ regions)"@,
                "US"@,
                "EU"@,
                "Asia-Pacific"@,
            ],
            ip_reputation: "High-Varied - AWS IPs heavily monitored, but massive scale"@,
            ddos_protection: true,
            detection_risk_per_mille: 720,
            monthly_cost_cents: 1000,
            payment_methods: seq![
                "Credit Card"@,
                "Bank Account"@,
            ],
            abuse_reporting_lag: "1-2 hours (extremely responsive)"@,
            law_enforcement_cooperation: "Very High - Rapid compliance with US warrants"@,
            provider_evasion_techniques: seq![
                "Use dormant AWS IPs (non-standard ports)"@,
                "Use CloudFront distribution for traffic masking"@,
                "Implement within security groups for traffic filtering"@,
            ],
            previous_breach_history: seq![
                "2019: Elasticsearch exposure (customer misconfiguration)"@,
            ],
        },
    ]
}

/// Whether a provider suits a risk tolerance: for `low` one whose detection
/// risk is below 500, for `medium` below 650, for any other every provider.
pub open spec fn vps_keeps(sel: Seq<char>, p: VPSProviderView) -> bool {
    if sel == "low"@ {
        p.detection_risk_per_mille < 500
    } else if sel == "medium"@ {
        p.detection_risk_per_mille < 650
    } else {
        true
    }
}


/// The entries of `s` that `keeps` admits, in order.
pub open spec fn kept_vps(s: Seq<VPSProviderView>, sel: Seq<char>) -> Seq<VPSProviderView>
    decreases s.len(),
{
    if s.len() == 0 {
        s
    } else {
        let p = kept_vps(s.drop_last(), sel);
        if vps_keeps(sel, s.last()) {
            p.push(s.last())
        } else {
            p
        }
    }
}


/// How the domains of an exercise are set up.
pub struct DomainStrategy {
    /// What kind of domain.
    pub domain_name: String,
    /// Where it is registered.
    pub registrar: String,
    /// Whether WHOIS privacy is used.
    pub whois_privacy: bool,
    /// The privacy service, if any.
    pub privacy_provider: Option<String>,
    /// Who serves its DNS.
    pub dns_provider: String,
    /// Its DNS records.
    pub dns_records: Vec<String>,
    /// Reputation risk, in thousandths.
    pub reputation_risk_per_mille: u32,
    /// How its certificate is obtained.
    pub ssl_certificate_method: String,
    /// Who issues it.
    pub certificate_provider: String,
    /// How old it should be.
    pub domain_age_requirement: String,
}

/// The content of a [`DomainStrategy`].
#[verifier::ext_equal]
pub struct DomainStrategyView {
    pub domain_name: Seq<char>,
    pub registrar: Seq<char>,
    pub whois_privacy: bool,
    pub privacy_provider: Option<Seq<char>>,
    pub dns_provider: Seq<char>,
    pub dns_records: Seq<Seq<char>>,
    pub reputation_risk_per_mille: u32,
    pub ssl_certificate_method: Seq<char>,
    pub certificate_provider: Seq<char>,
    pub domain_age_requirement: Seq<char>,
}

impl View for DomainStrategy {
    type V = DomainStrategyView;

    open spec fn view(&self) -> DomainStrategyView {
        DomainStrategyView {
            domain_name: self.domain_name@,
            registrar: self.registrar@,
            whois_privacy: self.whois_privacy,
            privacy_provider: match self.privacy_provider {
                Some(s) => Some(s@),
                None => None,
            },
            dns_provider: self.dns_provider@,
            dns_records: views(self.dns_records@),
            reputation_risk_per_mille: self.reputation_risk_per_mille,
            ssl_certificate_method: self.ssl_certificate_method@,
            certificate_provider: self.certificate_provider@,
            domain_age_requirement: self.domain_age_requirement@,
        }
    }
}

/// The domain set-up of a strategy; an unknown strategy gets the generic record.
pub open spec fn domain_record(strategy_type: Seq<char>) -> DomainStrategyView {
    if strategy_type == "legitimate_looking"@ {
        DomainStrategyView {
            domain_name: "Example domain similar to target organization"@,
            registrar: "Namecheap or GoDaddy (legitimate, bulk registrations common)"@,
            whois_privacy: true,
            privacy_provider: Some("Domain.com Privacy Services"@),
            dns_provider: "CloudFlare (free DNS, abuse-resistant)"@,
            dns_records: seq![
                "A record pointing to redirector"@,
                "MX records for mail spoofing"@,
                "TXT records for phishing credibility"@,
                "CNAME for CDN masking"@,
            ],
            reputation_risk_per_mille: 350,
            ssl_certificate_method: "Let's Encrypt (free, automated)"@,
            certificate_provider: "Let's Encrypt via ACME"@,
            domain_age_requirement: "Ideally 3-6 months old for credibility"@,
        }
    } else if strategy_type == "disposable"@ {
        DomainStrategyView {
            domain_name: "Random domain registered for short-term use"@,
            registrar: "Cheap registrar (1&1, Bluehost for bulk purchases)"@,
            whois_privacy: true,
            privacy_provider: Some("Basic privacy service"@),
            dns_provider: "AWS Route53 or Azure DNS"@,
            dns_records: seq![
                "Minimal DNS records"@,
                "Direct A record to C2"@,
                "Fast TTL for quick pivots"@,
            ],
            reputation_risk_per_mille: 650,
            ssl_certificate_method: "Self-signed or free Let's Encrypt"@,
            certificate_provider: "Self-hosted or Let's Encrypt"@,
            domain_age_requirement: "None - disposable by design"@,
        }
    } else if strategy_type == "compromised_registrar"@ {
        DomainStrategyView {
            domain_name: "Use compromised registrar account for domain hijacking"@,
            registrar: "Compromised high-value registrar account"@,
            whois_privacy: true,
            privacy_provider: Some("Use registrar's privacy if available"@),
            dns_provider: "Registrar's DNS (minimal changes)"@,
            dns_records: seq![
                "Modify existing legitimate records"@,
                "Redirect to attacker infrastructure"@,
                "Maintain some legitimate traffic"@,
            ],
            reputation_risk_per_mille: 250,
            ssl_certificate_method: "Use existing SSL cert or issue from Let's Encrypt"@,
            certificate_provider: "Registrar or Let's Encrypt"@,
            domain_age_requirement: "Existing domain (no age suspicion)"@,
        }
    } else {
        DomainStrategyView {
            domain_name: "Generic domain"@,
            registrar: "Generic registrar"@,
            whois_privacy: true,
            privacy_provider: None,
            dns_provider: "Generic DNS provider"@,
            dns_records: seq![
                "A record"@,
            ],
            reputation_risk_per_mille: 500,
            ssl_certificate_method: "Let's Encrypt"@,
            certificate_provider: "Let's Encrypt"@,
            domain_age_requirement: "Variable"@,
        }
    }
}

/// Chooses infrastructure for an exercise.
pub struct InfrastructureDeployer;

impl InfrastructureDeployer {
    /// The frameworks that suit `operation_type`, in catalogue order. Never fails.
    pub fn recommend_c2_framework(&self, operation_type: &str) -> (r: Result<Vec<C2Framework>, String>)
        ensures
            r matches Ok(v) && c2_views(v@) == kept_c2(c2_catalog(), operation_type@),
    {
        let v = vec![
            C2Framework {
                name: string_from("Cobalt Strike"),
                description: string_from("Commercial C2 platform with extensive obfuscation"),
                command_protocol: string_from("HTTP/HTTPS + DNS + SMB"),
                stealth_capability: string_from("Very High - Beacon obfuscation, HTTPS proxying"),
                evasion_per_mille: 880,
                operational_difficulty: string_from("Medium - Extensive features, complex tuning"),
                persistence_options: vec![
                    string_from("Registry run keys"),
                    string_from("Scheduled tasks"),
                    string_from("WMI event subscriptions"),
                    string_from("Services"),
                    string_from("Startup folders"),
                ],
                supported_payloads: vec![
                    string_from("Windows shellcode"),
                    string_from("DLL injection"),
                    string_from("Process hollowing"),
                    string_from("Reflective DLL injection"),
                ],
                known_detections: vec![
                    string_from("Beacon.exe pattern matching"),
                    string_from("Beacon traffic signatures"),
                    string_from("Malleable C2 profile defaults"),
                ],
                operator_skill_required: string_from("Advanced - Custom C2 profiles, process injection"),
            },
            C2Framework {
                name: string_from("Sliver"),
                description: string_from("Open-source C2 inspired by Sliver's stealth design"),
                command_protocol: string_from("gRPC + HTTP/HTTPS"),
                stealth_capability: string_from("High - gRPC encrypted communication"),
                evasion_per_mille: 820,
                operational_difficulty: string_from("Medium - Simpler than Cobalt Strike"),
                persistence_options: vec![
                    string_from("Registry modification"),
                    string_from("Startup shortcuts"),
                    string_from("Scheduled tasks"),
                ],
                supported_payloads: vec![
                    string_from("Native Windows shellcode"),
                    string_from("DLL loading"),
                    string_from("Process injection"),
                ],
                known_detections: vec![
                    string_from("gRPC pattern detection"),
                    string_from("Process memory signatures"),
                ],
                operator_skill_required: string_from("Intermediate - Configuration and payload generation"),
            },
            C2Framework {
                name: string_from("Empire"),
                description: string_from("PowerShell-based C2 framework for Windows environments"),
                command_protocol: string_from("HTTP/HTTPS + DNS"),
                stealth_capability: string_from("Medium - PowerShell-based, requires AMSI bypass"),
                evasion_per_mille: 650,
                operational_difficulty: string_from("Low - Script-based, easier for operators"),
                persistence_options: vec![
                    string_from("PowerShell profiles"),
                    string_from("WMI event subscriptions"),
                    string_from("Scheduled tasks"),
                    string_from("Registry run keys"),
                ],
                supported_payloads: vec![
                    string_from("PowerShell agents"),
                    string_from("Obfuscated scripts"),
                    string_from("Staged payloads"),
                ],
                known_detections: vec![
                    string_from("PowerShell command line logging"),
                    string_from("Script block logging"),
                    string_from("AMSI detection"),
                ],
                operator_skill_required: string_from("Intermediate - PowerShell knowledge"),
            },
            C2Framework {
                name: string_from("Metasploit"),
                description: string_from("Open-source penetration testing framework with C2 capabilities"),
                command_protocol: string_from("HTTP/HTTPS + DNS + raw TCP"),
                stealth_capability: string_from("Low - Default signatures widely detected"),
                evasion_per_mille: 420,
                operational_difficulty: string_from("Low - Many defaults, detection-prone"),
                persistence_options: vec![
                    string_from("Multiple persistence modules"),
                    string_from("Registry modification"),
                    string_from("Service installation"),
                ],
                supported_payloads: vec![
                    string_from("Meterpreter"),
                    string_from("Reverse shells"),
                    string_from("Custom shellcode"),
                ],
                known_detections: vec![
                    string_from("Meterpreter signature"),
                    string_from("Metasploit user-agent strings"),
                    string_from("Reverse shell patterns"),
                ],
                operator_skill_required: string_from("Beginner to Intermediate - Wide documentation"),
            },
        ];
        assert(c2_views(v@) =~~= c2_catalog());
        let ghost all = c2_catalog();
        let mut rest = v;
        let mut out: Vec<C2Framework> = Vec::new();
        let ghost mut k: int = 0;
        while rest.len() > 0
            invariant
                0 <= k <= all.len(),
                rest@.len() == all.len() - k,
                c2_views(rest@) == all.skip(k),
                c2_views(out@) == kept_c2(all.take(k), operation_type@),
            decreases rest@.len(),
        {
            let ghost before = c2_views(rest@);
            let f = rest.remove(0);
            proof {
                assert(all.take(k + 1).drop_last() =~= all.take(k));
                assert(all.skip(k)[0] == all[k]);
            }
            let keep = if same_text(operation_type, "stealth") {
                f.evasion_per_mille > 750
            } else if same_text(operation_type, "fast") {
                !same_text(f.operational_difficulty.as_str(), "Advanced - Custom C2 profiles, process injection")
            } else {
                true
            };
            if keep {
                out.push(f);
            }
            proof {
                assert(c2_views(rest@) =~= before.skip(1));
                assert(before.skip(1) =~= all.skip(k + 1));
                assert(c2_views(out@) =~= kept_c2(all.take(k + 1), operation_type@));
                k = k + 1;
            }
        }
        proof {
            assert(all.take(k) =~= all);
        }

        Ok(out)
    }

    /// The providers that suit `risk_tolerance`, in catalogue order; the
    /// region does not narrow the choice. Never fails.
    pub fn recommend_vps_provider(&self, region: &str, risk_tolerance: &str) -> (r: Result<Vec<VPSProvider>, String>)
        ensures
            r matches Ok(v) && vps_views(v@) == kept_vps(vps_catalog(), risk_tolerance@),
    {
        let v = vec![
            VPSProvider {
                provider_name: string_from("Digital Ocean"),
                geographic_locations: vec![
                    string_from("US"),
                    string_from("UK"),
                    string_from("Germany"),
                    string_from("Singapore"),
                ],
                ip_reputation: string_from("Medium - Some datacenter IPs detected in threat lists"),
                ddos_protection: true,
                detection_risk_per_mille: 650,
                monthly_cost_cents: 500,
                payment_methods: vec![
                    string_from("Credit Card"),
                    string_from("PayPal"),
                ],
                abuse_reporting_lag: string_from("4-6 hours (responsive to reports)"),
                law_enforcement_cooperation: string_from("High - US-based, quick compliance"),
                provider_evasion_techniques: vec![
                    string_from("Use older datacenter IP blocks (less monitored)"),
                    string_from("Rotate IPs frequently"),
                    string_from("Use load balancer for traffic distribution"),
                ],
                previous_breach_history: vec![
                    string_from("2019: SSH key exposure (limited)"),
                ],
            },
            VPSProvider {
                provider_name: string_from("Vultr"),
                geographic_locations: vec![
                    string_from("US"),
                    string_from("Netherlands"),
                    string_from("Japan"),
                    string_from("Australia"),
                ],
                ip_reputation: string_from("Low - Less common in threat intelligence feeds"),
                ddos_protection: true,
                detection_risk_per_mille: 480,
                monthly_cost_cents: 600,
                payment_methods: vec![
                    string_from("Credit Card"),
                    string_from("Bitcoin"),
                ],
                abuse_reporting_lag: string_from("2-3 hours (very responsive)"),
                law_enforcement_cooperation: string_from("Medium-High - US-based"),
                provider_evasion_techniques: vec![
                    string_from("Use Netherlands or Japan nodes (less common for C2)"),
                    string_from("Implement traffic rate limiting"),
                    string_from("Use multiple small instances vs single large"),
                ],
                previous_breach_history: vec![
                    string_from("No major breaches reported"),
                ],
            },
            VPSProvider {
                provider_name: string_from("OVH"),
                geographic_locations: vec![
                    string_from("France"),
                    string_from("Canada"),
                    string_from("Singapore"),
                    string_from("Poland"),
                ],
                ip_reputation: string_from("Low - Less monitoring from US-centric vendors"),
                ddos_protection: true,
                detection_risk_per_mille: 420,
                monthly_cost_cents: 400,
                payment_methods: vec![
                    string_from("Credit Card"),
                    string_from("Cryptocurrency"),
                ],
                abuse_reporting_lag: string_from("12-24 hours (slower response)"),
                law_enforcement_cooperation: string_from("Medium - EU-based, GDPR considerations"),
                provider_evasion_techniques: vec![
                    string_from("Use France or Poland nodes"),
                    string_from("GDPR-based privacy claims"),
                    string_from("European customers may face less monitoring"),
                ],
                previous_breach_history: vec![
                    string_from("2013: Customer data exposure (resolved)"),
                ],
            },
            VPSProvider {
                provider_name: string_from("AWS EC2"),
                geographic_locations: vec![
                    string_from("Global (25+ regions)"),
                    string_from("US"),
                    string_from("EU"),
                    string_from("Asia-Pacific"),
                ],
                ip_reputation: string_from("High-Varied - AWS IPs heavily monitored, but massive scale"),
                ddos_protection: true,
                detection_risk_per_mille: 720,
                monthly_cost_cents: 1000,
                payment_methods: vec![
                    string_from("Credit Card"),
                    string_from("Bank Account"),
                ],
                abuse_reporting_lag: string_from("1-2 hours (extremely responsive)"),
                law_enforcement_cooperation: string_from("Very High - Rapid compliance with US warrants"),
                provider_evasion_techniques: vec![
                    string_from("Use dormant AWS IPs (non-standard ports)"),
                    string_from("Use CloudFront distribution for traffic masking"),
                    string_from("Implement within security groups for traffic filtering"),
                ],
                previous_breach_history: vec![
                    string_from("2019: Elasticsearch exposure (customer misconfiguration)"),
                ],
            },
        ];
        assert(vps_views(v@) =~~= vps_catalog());
        let ghost all = vps_catalog();
        let mut rest = v;
        let mut out: Vec<VPSProvider> = Vec::new();
        let ghost mut k: int = 0;
        while rest.len() > 0
            invariant
                0 <= k <= all.len(),
                rest@.len() == all.len() - k,
                vps_views(rest@) == all.skip(k),
                vps_views(out@) == kept_vps(all.take(k), risk_tolerance@),
            decreases rest@.len(),
        {
            let ghost before = vps_views(rest@);
            let f = rest.remove(0);
            proof {
                assert(all.take(k + 1).drop_last() =~= all.take(k));
                assert(all.skip(k)[0] == all[k]);
            }
            let keep = if same_text(risk_tolerance, "low") {
                f.detection_risk_per_mille < 500
            } else if same_text(risk_tolerance, "medium") {
                f.detection_risk_per_mille < 650
            } else {
                true
            };
            if keep {
                out.push(f);
            }
            proof {
                assert(vps_views(rest@) =~= before.skip(1));
                assert(before.skip(1) =~= all.skip(k + 1));
                assert(vps_views(out@) =~= kept_vps(all.take(k + 1), risk_tolerance@));
                k = k + 1;
            }
        }
        proof {
            assert(all.take(k) =~= all);
        }

        Ok(out)
    }
    /// The domain set-up of a strategy (`legitimate_looking`, `disposable`,
    /// `compromised_registrar`); any other strategy gets the generic record.
    /// Never fails.
    pub fn plan_domain_strategy(&self, strategy_type: &str) -> (r: Result<DomainStrategy, String>)
        ensures
            r matches Ok(d) && d@ == domain_record(strategy_type@),
    {
        if same_text(strategy_type, "legitimate_looking") {
            let r = DomainStrategy {
                domain_name: string_from("Example domain similar to target organization"),
                registrar: string_from("Namecheap or GoDaddy (legitimate, bulk registrations common)"),
                whois_privacy: true,
                privacy_provider: Some(string_from("Domain.com Privacy Services")),
                dns_provider: string_from("CloudFlare (free DNS, abuse-resistant)"),
                dns_records: vec![
                    string_from("A record pointing to redirector"),
                    string_from("MX records for mail spoofing"),
                    string_from("TXT records for phishing credibility"),
                    string_from("CNAME for CDN masking"),
                ],
                reputation_risk_per_mille: 350,
                ssl_certificate_method: string_from("Let's Encrypt (free, automated)"),
                certificate_provider: string_from("Let's Encrypt via ACME"),
                domain_age_requirement: string_from("Ideally 3-6 months old for credibility"),
            };
            assert(r@ =~~= domain_record(strategy_type@));
            Ok(r)
        } else if same_text(strategy_type, "disposable") {
            let r = DomainStrategy {
                domain_name: string_from("Random domain registered for short-term use"),
                registrar: string_from("Cheap registrar (1&1, Bluehost for bulk purchases)"),
                whois_privacy: true,
                privacy_provider: Some(string_from("Basic privacy service")),
                dns_provider: string_from("AWS Route53 or Azure DNS"),
                dns_records: vec![
                    string_from("Minimal DNS records"),
                    string_from("Direct A record to C2"),
                    string_from("Fast TTL for quick pivots"),
                ],
                reputation_risk_per_mille: 650,
                ssl_certificate_method: string_from("Self-signed or free Let's Encrypt"),
                certificate_provider: string_from("Self-hosted or Let's Encrypt"),
                domain_age_requirement: string_from("None - disposable by design"),
            };
            assert(r@ =~~= domain_record(strategy_type@));
            Ok(r)
        } else if same_text(strategy_type, "compromised_registrar") {
            let r = DomainStrategy {
                domain_name: string_from("Use compromised registrar account for domain hijacking"),
                registrar: string_from("Compromised high-value registrar account"),
                whois_privacy: true,
                privacy_provider: Some(string_from("Use registrar's privacy if available")),
                dns_provider: string_from("Registrar's DNS (minimal changes)"),
                dns_records: vec![
                    string_from("Modify existing legitimate records"),
                    string_from("Redirect to attacker infrastructure"),
                    string_from("Maintain some legitimate traffic"),
                ],
                reputation_risk_per_mille: 250,
                ssl_certificate_method: string_from("Use existing SSL cert or issue from Let's Encrypt"),
                certificate_provider: string_from("Registrar or Let's Encrypt"),
                domain_age_requirement: string_from("Existing domain (no age suspicion)"),
            };
            assert(r@ =~~= domain_record(strategy_type@));
            Ok(r)
        } else {
            let r = DomainStrategy {
                domain_name: string_from("Generic domain"),
                registrar: string_from("Generic registrar"),
                whois_privacy: true,
                privacy_provider: None,
                dns_provider: string_from("Generic DNS provider"),
                dns_records: vec![
                    string_from("A record"),
                ],
                reputation_risk_per_mille: 500,
                ssl_certificate_method: string_from("Let's Encrypt"),
                certificate_provider: string_from("Let's Encrypt"),
                domain_age_requirement: string_from("Variable"),
            };
            assert(r@ =~~= domain_record(strategy_type@));
            Ok(r)
        }
    }
}

} // verus!
