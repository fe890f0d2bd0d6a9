//! Persistence planning tables: the persistence mechanisms, backdoor chains
//! and privilege-escalation paths an exercise plan draws on, each with what
//! defenders can detect and how they recover.

use vstd::prelude::*;
use crate::catalog_commands::join_with;
use crate::json::{decimal, push_decimal};
use crate::osint::incident::{bullets, push_bullets};
use crate::text::{join, push_str, same_text, string_from, views};

verus! {

broadcast use vstd::string::group_string_axioms;

/// A persistence mechanism and how defenders see it.
pub struct PersistenceMechanism {
    /// Identifier of the mechanism.
    pub mechanism_id: String,
    /// Name of the mechanism.
    pub name: String,
    /// MITRE ATT&CK technique.
    pub technique_id: String,
    /// What the mechanism does.
    pub description: String,
    /// Windows versions it applies to.
    pub windows_version: String,
    /// How hard it is to detect.
    pub detection_difficulty: String,
    /// How it is put in place.
    pub implementation_steps: Vec<String>,
    /// What may detect it.
    pub detection_risks: Vec<String>,
    /// What defenders can look for.
    pub behavioral_indicators: Vec<String>,
    /// How defenders remove it.
    pub recovery_options: Vec<String>,
    /// Reliability, in thousandths.
    pub reliability_per_mille: u32,
    /// Privilege it needs.
    pub privilege_level_required: String,
}

/// The content of a [`PersistenceMechanism`].
#[verifier::ext_equal]
pub struct PersistenceMechanismView {
    pub mechanism_id: Seq<char>,
    pub name: Seq<char>,
    pub technique_id: Seq<char>,
    pub description: Seq<char>,
    pub windows_version: Seq<char>,
    pub detection_difficulty: Seq<char>,
    pub implementation_steps: Seq<Seq<char>>,
    pub detection_risks: Seq<Seq<char>>,
    pub behavioral_indicators: Seq<Seq<char>>,
    pub recovery_options: Seq<Seq<char>>,
    pub reliability_per_mille: u32,
    pub privilege_level_required: Seq<char>,
}

impl View for PersistenceMechanism {
    type V = PersistenceMechanismView;

    open spec fn view(&self) -> PersistenceMechanismView {
        PersistenceMechanismView {
            mechanism_id: self.mechanism_id@,
            name: self.name@,
            technique_id: self.technique_id@,
            description: self.description@,
            windows_version: self.windows_version@,
            detection_difficulty: self.detection_difficulty@,
            implementation_steps: views(self.implementation_steps@),
            detection_risks: views(self.detection_risks@),
            behavioral_indicators: views(self.behavioral_indicators@),
            recovery_options: views(self.recovery_options@),
            reliability_per_mille: self.reliability_per_mille,
            privilege_level_required: self.privilege_level_required@,
        }
    }
}

/// The mechanism planned for a mechanism type; an unknown type gets the generic record.
pub open spec fn mechanism_record(t: Seq<char>) -> PersistenceMechanismView {
    if t == "registry_run"@ {
        PersistenceMechanismView {
            mechanism_id: "PERSIST-REG-RUN"@,
            name: "Registry Run Keys"@,
            technique_id: "T1547.001"@,
            description: "Add malware to Windows Registry Run key for automatic execution at startup"@,
            windows_version: "All versions"@,
            detection_difficulty: "Low - Easy to detect via registry monitoring"@,
            implementation_steps: seq![
                "Step 1: Create payload in temp directory with legitimate name"@,
                "Step 2: Add HKLM\\Software\\Microsoft\\Windows\\CurrentVersion\\Run entry"@,
                "Step 3: Point to payload with obfuscated command line"@,
                "Step 4: Optionally disable UAC prompts via registry"@,
            ],
            detection_risks: seq![
                "Registry auditing (enabled by default in enterprise)"@,
                "EDR registry monitoring"@,
                "Sysmon registry event logging"@,
            ],
            behavioral_indicators: seq![
                "New registry Run key creation"@,
                "Suspicious command line in registry value"@,
                "Process execution from temp directory at startup"@,
            ],
            recovery_options: seq![
                "Manual registry deletion"@,
                "Registry restore from backup"@,
                "Safe Mode boot to remove entry"@,
            ],
            reliability_per_mille: 650,
            privilege_level_required: "User (HKCU) or Administrator (HKLM)"@,
        }
    } else if t == "scheduled_task"@ {
        PersistenceMechanismView {
            mechanism_id: "PERSIST-SCHED-TASK"@,
            name: "Scheduled Tasks"@,
            technique_id: "T1053.005"@,
            description: "Create scheduled task to execute malware at specified intervals"@,
            windows_version: "All versions"@,
            detection_difficulty: "Medium - Requires task scheduler auditing"@,
            implementation_steps: seq![
                "Step 1: Create task with legitimate name (e.g., 'Windows Update Check')"@,
                "Step 2: Set execution to SYSTEM account via RPC"@,
                "Step 3: Point to malware payload or command"@,
                "Step 4: Set trigger to boot, logon, or time-based interval"@,
                "Step 5: Hide task from standard display"@,
            ],
            detection_risks: seq![
                "Task Scheduler event logs (1698, 1699, 1702)"@,
                "Registry key modifications for hidden tasks"@,
                "EDR task creation monitoring"@,
                "Process execution from unexpected directories"@,
            ],
            behavioral_indicators: seq![
                "New scheduled task creation (especially SYSTEM account)"@,
                "Task pointing to suspicious binary"@,
                "Boot-time or logon-time task execution"@,
                "Hidden task registry entries"@,
            ],
            recovery_options: seq![
                "Delete task via Task Scheduler"@,
                "Remove task via registry"@,
                "Disable task scheduler service temporarily"@,
            ],
            reliability_per_mille: 850,
            privilege_level_required: "Administrator (for SYSTEM account tasks)"@,
        }
    } else if t == "wmi_event"@ {
        PersistenceMechanismView {
            mechanism_id: "PERSIST-WMI-EVENT"@,
            name: "WMI Event Subscriptions"@,
            technique_id: "T1547.013"@,
            description: "Create WMI event consumer for persistence with process monitoring"@,
            windows_version: "Windows XP and later"@,
            detection_difficulty: "High - Requires WMI monitoring"@,
            implementation_steps: seq![
                "Step 1: Create event filter watching for trigger (e.g., process creation)"@,
                "Step 2: Create event consumer (command to execute)"@,
                "Step 3: Bind filter and consumer together"@,
                "Step 4: Trigger event executes malware (fileless execution possible)"@,
            ],
            detection_risks: seq![
                "WMI audit logging (not enabled by default)"@,
                "Sysmon WMI event monitoring (not default)"@,
                "WMI repository queries by security tools"@,
                "Process execution from WMI command line"@,
            ],
            behavioral_indicators: seq![
                "WMI event filter creation"@,
                "WMI event consumer binding"@,
                "PowerShell WMI commands in logs"@,
                "Process creation from WMI service"@,
            ],
            recovery_options: seq![
                "Remove WMI class instances via WMI tools"@,
                "Rebuild WMI repository"@,
                "Disable WMI service"@,
            ],
            reliability_per_mille: 880,
            privilege_level_required: "Administrator"@,
        }
    } else if t == "dll_hijack"@ {
        PersistenceMechanismView {
            mechanism_id: "PERSIST-DLL-HIJACK"@,
            name: "DLL Search Order Hijacking"@,
            technique_id: "T1574.001"@,
            description: "Place malicious DLL in directory with higher precedence in search order"@,
            windows_version: "All versions"@,
            detection_difficulty: "Low - Pattern detection challenging"@,
            implementation_steps: seq![
                "Step 1: Identify legitimate application with missing DLL import"@,
                "Step 2: Create malicious DLL with same name"@,
                "Step 3: Place DLL in directory searched before legitimate library"@,
                "Step 4: Application loads hijacked DLL on next execution"@,
            ],
            detection_risks: seq![
                "File integrity monitoring (FIM) on system directories"@,
                "DLL signing validation"@,
                "Application whitelisting (if implemented)"@,
            ],
            behavioral_indicators: seq![
                "DLL in unusual directory with legitimate application name"@,
                "DLL execution from non-standard paths"@,
                "Mismatch between expected and actual DLL"@,
            ],
            recovery_options: seq![
                "Delete malicious DLL"@,
                "Restore original DLL from backup"@,
                "Modify application search path"@,
            ],
            reliability_per_mille: 920,
            privilege_level_required: "User or Administrator (depends on directory)"@,
        }
    } else if t == "netsh_helper"@ {
        PersistenceMechanismView {
            mechanism_id: "PERSIST-NETSH"@,
            name: "Netsh Helper DLL"@,
            technique_id: "T1547.007"@,
            description: "Register DLL as netsh helper to execute arbitrary code"@,
            windows_version: "Windows Vista and later"@,
            detection_difficulty: "Very High - Unusual execution path"@,
            implementation_steps: seq![
                "Step 1: Create DLL with DllMain function"@,
                "Step 2: Register DLL path in registry: HKLM\\Software\\Microsoft\\Netsh"@,
                "Step 3: Code executes when netsh.exe loads helper"@,
                "Step 4: Netsh.exe typically runs with NT AUTHORITY\\SYSTEM"@,
            ],
            detection_risks: seq![
                "Registry audit for netsh entries"@,
                "DLL signing verification"@,
                "Unusual DLL loading in netsh process (EDR)"@,
            ],
            behavioral_indicators: seq![
                "Netsh helper DLL registry entry"@,
                "DLL execution from unusual path via netsh"@,
                "Suspicious code in netsh.exe process memory"@,
            ],
            recovery_options: seq![
                "Remove registry entry for helper DLL"@,
                "Delete malicious DLL file"@,
            ],
            reliability_per_mille: 950,
            privilege_level_required: "Administrator (for registry write)"@,
        }
    } else {
        PersistenceMechanismView {
            mechanism_id: "PERSIST-GENERIC"@,
            name: "Generic Persistence"@,
            technique_id: "T1547"@,
            description: "Generic persistence mechanism"@,
            windows_version: "All"@,
            detection_difficulty: "Unknown"@,
            implementation_steps: seq![
                "Generic steps"@,
            ],
            detection_risks: seq![
                "Generic risks"@,
            ],
            behavioral_indicators: seq![
                "Generic indicators"@,
            ],
            recovery_options: seq![
                "Generic recovery"@,
            ],
            reliability_per_mille: 500,
            privilege_level_required: "Variable"@,
        }
    }
}

/// A privilege-escalation path.
pub struct PrivilegeEscalation {
    /// Identifier of the path.
    pub escalation_id: String,
    /// What is abused.
    pub vulnerability: String,
    /// Affected versions.
    pub affected_versions: Vec<String>,
    /// How hard it is.
    pub exploitation_difficulty: String,
    /// Likelihood of success, in thousandths.
    pub success_per_mille: u32,
    /// Risk of detection, in thousandths.
    pub detection_risk_per_mille: u32,
    /// The steps.
    pub steps: Vec<String>,
    /// Mitigations on the defending side.
    pub defender_mitigations: Vec<String>,
    /// Other ways to the same end.
    pub alternative_methods: Vec<String>,
    /// What follows.
    pub post_exploitation_actions: Vec<String>,
}

/// The content of a [`PrivilegeEscalation`].
#[verifier::ext_equal]
pub struct PrivilegeEscalationView {
    pub escalation_id: Seq<char>,
    pub vulnerability: Seq<char>,
    pub affected_versions: Seq<Seq<char>>,
    pub exploitation_difficulty: Seq<char>,
    pub success_per_mille: u32,
    pub detection_risk_per_mille: u32,
    pub steps: Seq<Seq<char>>,
    pub defender_mitigations: Seq<Seq<char>>,
    pub alternative_methods: Seq<Seq<char>>,
    pub post_exploitation_actions: Seq<Seq<char>>,
}

impl View for PrivilegeEscalation {
    type V = PrivilegeEscalationView;

    open spec fn view(&self) -> PrivilegeEscalationView {
        PrivilegeEscalationView {
            escalation_id: self.escalation_id@,
            vulnerability: self.vulnerability@,
            affected_versions: views(self.affected_versions@),
            exploitation_difficulty: self.exploitation_difficulty@,
            success_per_mille: self.success_per_mille,
            detection_risk_per_mille: self.detection_risk_per_mille,
            steps: views(self.steps@),
            defender_mitigations: views(self.defender_mitigations@),
            alternative_methods: views(self.alternative_methods@),
            post_exploitation_actions: views(self.post_exploitation_actions@),
        }
    }
}

/// The escalation path planned for a method; an unknown method gets the generic record.
pub open spec fn escalation_record(m: Seq<char>) -> PrivilegeEscalationView {
    if m == "uac_bypass"@ {
        PrivilegeEscalationView {
            escalation_id: "PRIVESC-UAC-001"@,
            vulnerability: "User Account Control (UAC) bypass via token impersonation"@,
            affected_versions: seq![
                "Windows 7 and later"@,
            ],
            exploitation_difficulty: "Low"@,
            success_per_mille: 800,
            detection_risk_per_mille: 450,
            steps: seq![
                "Step 1: Identify UAC bypass vector (CMSTPLUA.EXE, eventvwr, fodhelper, etc.)"@,
                "Step 2: Create registry key for administrator process"@,
                "Step 3: Execute bypass binary to elevate privilege"@,
                "Step 4: Verify SYSTEM or Administrator token"@,
            ],
            defender_mitigations: seq![
                "UAC elevation prompts (can be clicked through)"@,
                "Code Integrity Guard (CIG)"@,
                "AppLocker rules"@,
            ],
            alternative_methods: seq![
                "Token impersonation via named pipes"@,
                "COM elevation moniker abuse"@,
                "DLL hijacking of privileged process"@,
            ],
            post_exploitation_actions: seq![
                "Install persistence mechanism as SYSTEM"@,
                "Dump LSASS for credential harvesting"@,
                "Disable Windows Defender as SYSTEM"@,
                "Create administrative backdoor account"@,
            ],
        }
    } else if m == "kernel_exploit"@ {
        PrivilegeEscalationView {
            escalation_id: "PRIVESC-KERNEL-001"@,
            vulnerability: "Windows Kernel vulnerability (e.g., CVE-2021-1732, CVE-2020-1054)"@,
            affected_versions: seq![
                "Windows 7 SP1"@,
                "Windows 8.1"@,
                "Windows 10 (various builds)"@,
            ],
            exploitation_difficulty: "High"@,
            success_per_mille: 650,
            detection_risk_per_mille: 600,
            steps: seq![
                "Step 1: Identify applicable kernel vulnerability on target"@,
                "Step 2: Compile exploit for specific Windows version"@,
                "Step 3: Execute exploit to trigger kernel bug"@,
                "Step 4: Obtain SYSTEM token from kernel"@,
            ],
            defender_mitigations: seq![
                "Windows Update patches"@,
                "Driver signature enforcement"@,
                "Kernel patch guard"@,
                "Control Flow Guard (CFG)"@,
            ],
            alternative_methods: seq![
                "LTSC (Long-Term Servicing Channel) exploitation"@,
                "Unpatched system targeting"@,
                "Virtual machine escape (if applicable)"@,
            ],
            post_exploitation_actions: seq![
                "Load malicious kernel driver"@,
                "Patch kernel structures"@,
                "Install low-level rootkit"@,
                "Disable security features at kernel level"@,
            ],
        }
    } else {
        PrivilegeEscalationView {
            escalation_id: "PRIVESC-GENERIC"@,
            vulnerability: "Generic privilege escalation"@,
            affected_versions: seq![
                "All"@,
            ],
            exploitation_difficulty: "Unknown"@,
            success_per_mille: 500,
            detection_risk_per_mille: 500,
            steps: seq![
                "Generic steps"@,
            ],
            defender_mitigations: seq![
                "Generic mitigations"@,
            ],
            alternative_methods: seq![
                "Generic alternatives"@,
            ],
            post_exploitation_actions: seq![
                "Generic actions"@,
            ],
        }
    }
}

/// A chain of backdoors planned for an environment.
pub struct BackdoorChain {
    /// Identifier of the chain.
    pub chain_id: String,
    /// The first backdoor.
    pub primary_backdoor: String,
    /// Backdoors that take over when the first is blocked.
    pub secondary_backdoors: Vec<String>,
    /// How privilege is raised.
    pub privilege_escalation_path: String,
    /// Detection evasion, in thousandths.
    pub detection_evasion_per_mille: u32,
    /// Resilience to recovery, in thousandths.
    pub recovery_resilience_per_mille: u32,
    /// Days the chain is expected to last.
    pub estimated_persistence_days: u32,
    /// How the chain fails over.
    pub failover_mechanisms: Vec<String>,
    /// What is cleaned up afterwards.
    pub evidence_cleanup_procedures: Vec<String>,
}

/// The content of a [`BackdoorChain`].
#[verifier::ext_equal]
pub struct BackdoorChainView {
    pub chain_id: Seq<char>,
    pub primary_backdoor: Seq<char>,
    pub secondary_backdoors: Seq<Seq<char>>,
    pub privilege_escalation_path: Seq<char>,
    pub detection_evasion_per_mille: u32,
    pub recovery_resilience_per_mille: u32,
    pub estimated_persistence_days: u32,
    pub failover_mechanisms: Seq<Seq<char>>,
    pub evidence_cleanup_procedures: Seq<Seq<char>>,
}

impl View for BackdoorChain {
    type V = BackdoorChainView;

    open spec fn view(&self) -> BackdoorChainView {
        BackdoorChainView {
            chain_id: self.chain_id@,
            primary_backdoor: self.primary_backdoor@,
            secondary_backdoors: views(self.secondary_backdoors@),
            privilege_escalation_path: self.privilege_escalation_path@,
            detection_evasion_per_mille: self.detection_evasion_per_mille,
            recovery_resilience_per_mille: self.recovery_resilience_per_mille,
            estimated_persistence_days: self.estimated_persistence_days,
            failover_mechanisms: views(self.failover_mechanisms@),
            evidence_cleanup_procedures: views(self.evidence_cleanup_procedures@),
        }
    }
}

/// The first backdoor of the chain for an environment.
pub open spec fn primary_backdoor_for(env: Seq<char>) -> Seq<char> {
    if env == "enterprise"@ {
        "Cobalt Strike Beacon via scheduled task"@
    } else if env == "mid_market"@ {
        "Sliver C2 via scheduled task"@
    } else {
        "Generic backdoor via scheduled task"@
    }
}

/// The fallback backdoors of the chain for an environment.
pub open spec fn secondary_backdoors_for(env: Seq<char>) -> Seq<Seq<char>> {
    if env == "enterprise"@ {
        seq![
            "Empire PowerShell agent via WMI event subscription"@,
            "Custom C++ implant via DLL hijacking"@,
            "Metasploit Meterpreter via Registry Run key"@,
        ]
    } else if env == "mid_market"@ {
        seq!["PowerShell reverse shell via Registry Run"@, "Custom bash/Python script via cron"@]
    } else {
        seq!["Secondary backdoor"@]
    }
}

/// How many days the chain for an environment is expected to last.
pub open spec fn persistence_days_for(env: Seq<char>) -> u32 {
    if env == "enterprise"@ {
        60
    } else if env == "mid_market"@ {
        90
    } else {
        30
    }
}

/// The backdoor chain planned for an environment.
pub open spec fn backdoor_record(env: Seq<char>) -> BackdoorChainView {
    BackdoorChainView {
        chain_id: "CHAIN-"@ + env + "-20260825"@,
        primary_backdoor: primary_backdoor_for(env),
        secondary_backdoors: secondary_backdoors_for(env),
        privilege_escalation_path: "From user → SYSTEM via scheduled task or WMI"@,
        detection_evasion_per_mille: 720,
        recovery_resilience_per_mille: 880,
        estimated_persistence_days: persistence_days_for(env),
        failover_mechanisms: seq![
            "Fallback to secondary backdoor if primary blocked"@,
            "Automatic C2 infrastructure failover"@,
            "Domain-flux C2 channels"@,
            "DNS-based C2 tunnel as last resort"@,
        ],
        evidence_cleanup_procedures: seq![
            "Remove scheduled task entries from Task Scheduler"@,
            "Clear WMI repository events"@,
            "Remove registry persistence keys"@,
            "Delete artifacts from temp directories"@,
            "Clear event logs (Security, System, Application)"@,
        ],
    }
}


/// The persistence strategy report for an environment: a scheduled task
/// first, then a UAC bypass, then the environment's backdoor chain, with the
/// cleanup and what defenders can detect. Ratings print as whole percentages,
/// the thousandths divided by ten (every rating in these tables is a whole
/// percentage).
pub open spec fn persistence_report(env: Seq<char>) -> Seq<char> {
    let m = mechanism_record("scheduled_task"@);
    let p = escalation_record("uac_bypass"@);
    let c = backdoor_record(env);
    "\n=== Post-Compromise Persistence Strategy ===\n\n"@ + "Target Environment: "@ + env + "\n"@
        + "Strategy ID: "@ + c.chain_id + "\n\n"@ + "Phase 1: Initial Persistence (Scheduled Task)\n"@
        + "  Mechanism: "@ + m.name + "\n"@ + "  Technique: "@ + m.technique_id + "\n"@ + "  Steps:\n"@
        + bullets("    • "@, m.implementation_steps) + "  Reliability: "@ + decimal((m.reliability_per_mille / 10) as nat)
        + "%\n"@ + "  Privilege Required: "@ + m.privilege_level_required + "\n\n"@
        + "Phase 2: Privilege Escalation (UAC Bypass)\n"@ + "  Vulnerability: "@ + p.vulnerability + "\n"@
        + "  Affected Versions: "@ + join(p.affected_versions, ", "@) + "\n"@ + "  Success Rate: "@
        + decimal((p.success_per_mille / 10) as nat) + "%\n"@ + "  Detection Risk: "@ + decimal(
        (p.detection_risk_per_mille / 10) as nat,
    ) + "%\n"@ + "  Steps:\n"@ + bullets("    • "@, p.steps) + "  Post-Exploitation Actions:\n"@ + bullets(
        "    • "@,
        p.post_exploitation_actions,
    ) + "\n"@ + "Phase 3: Backdoor Chain (Multi-Layer Persistence)\n"@ + "  Primary Backdoor: "@ + c.primary_backdoor
        + "\n"@ + "  Secondary Backdoors:\n"@ + bullets("    • "@, c.secondary_backdoors)
        + "  Estimated Safe Persistence: "@ + decimal(c.estimated_persistence_days as nat) + " days\n"@
        + "  Detection Evasion Score: "@ + decimal((c.detection_evasion_per_mille / 10) as nat) + "%\n"@
        + "  Failover Mechanisms:\n"@ + bullets("    • "@, c.failover_mechanisms) + "\n"@
        + "Evidence Cleanup & Monitoring Evasion:\n"@ + bullets("  • "@, c.evidence_cleanup_procedures)
        + "\nDetection Risks:\n"@ + bullets("  • "@, m.detection_risks) + "\nBehavioral Indicators for Detection:\n"@
        + bullets("  • "@, m.behavioral_indicators) + "\n========================================\n"@
}

/// Plans persistence for an exercise.
pub struct PersistenceStrategist;

impl PersistenceStrategist {
    /// The record of a persistence mechanism (`registry_run`,
    /// `scheduled_task`, `wmi_event`, `dll_hijack`, `netsh_helper`); any other
    /// type gets the generic record. Never fails.
    pub fn plan_persistence_mechanism(&self, mechanism_type: &str) -> (r: Result<PersistenceMechanism, String>)
        ensures
            r matches Ok(m) && m@ == mechanism_record(mechanism_type@),
    {
        if same_text(mechanism_type, "registry_run") {
            let r = PersistenceMechanism {
                mechanism_id: string_from("PERSIST-REG-RUN"),
                name: string_from("Registry Run Keys"),
                technique_id: string_from("T1547.001"),
                description: string_from("Add malware to Windows Registry Run key for automatic execution at startup"),
                windows_version: string_from("All versions"),
                detection_difficulty: string_from("Low - Easy to detect via registry monitoring"),
                implementation_steps: vec![
                    string_from("Step 1: Create payload in temp directory with legitimate name"),
                    string_from("Step 2: Add HKLM\\Software\\Microsoft\\Windows\\CurrentVersion\\Run entry"),
                    string_from("Step 3: Point to payload with obfuscated command line"),
                    string_from("Step 4: Optionally disable UAC prompts via registry"),
                ],
                detection_risks: vec![
                    string_from("Registry auditing (enabled by default in enterprise)"),
                    string_from("EDR registry monitoring"),
                    string_from("Sysmon registry event logging"),
                ],
                behavioral_indicators: vec![
                    string_from("New registry Run key creation"),
                    string_from("Suspicious command line in registry value"),
                    string_from("Process execution from temp directory at startup"),
                ],
                recovery_options: vec![
                    string_from("Manual registry deletion"),
                    string_from("Registry restore from backup"),
                    string_from("Safe Mode boot to remove entry"),
                ],
                reliability_per_mille: 650,
                privilege_level_required: string_from("User (HKCU) or Administrator (HKLM)"),
            };
            assert(r@ =~~= mechanism_record(mechanism_type@));
            Ok(r)
        } else if same_text(mechanism_type, "scheduled_task") {
            let r = PersistenceMechanism {
                mechanism_id: string_from("PERSIST-SCHED-TASK"),
                name: string_from("Scheduled Tasks"),
                technique_id: string_from("T1053.005"),
                description: string_from("Create scheduled task to execute malware at specified intervals"),
                windows_version: string_from("All versions"),
                detection_difficulty: string_from("Medium - Requires task scheduler auditing"),
                implementation_steps: vec![
                    string_from("Step 1: Create task with legitimate name (e.g., 'Windows Update Check')"),
                    string_from("Step 2: Set execution to SYSTEM account via RPC"),
                    string_from("Step 3: Point to malware payload or command"),
                    string_from("Step 4: Set trigger to boot, logon, or time-based interval"),
                    string_from("Step 5: Hide task from standard display"),
                ],
                detection_risks: vec![
                    string_from("Task Scheduler event logs (1698, 1699, 1702)"),
                    string_from("Registry key modifications for hidden tasks"),
                    string_from("EDR task creation monitoring"),
                    string_from("Process execution from unexpected directories"),
                ],
                behavioral_indicators: vec![
                    string_from("New scheduled task creation (especially SYSTEM account)"),
                    string_from("Task pointing to suspicious binary"),
                    string_from("Boot-time or logon-time task execution"),
                    string_from("Hidden task registry entries"),
                ],
                recovery_options: vec![
                    string_from("Delete task via Task Scheduler"),
                    string_from("Remove task via registry"),
                    string_from("Disable task scheduler service temporarily"),
                ],
                reliability_per_mille: 850,
                privilege_level_required: string_from("Administrator (for SYSTEM account tasks)"),
            };
            assert(r@ =~~= mechanism_record(mechanism_type@));
            Ok(r)
        } else if same_text(mechanism_type, "wmi_event") {
            let r = PersistenceMechanism {
                mechanism_id: string_from("PERSIST-WMI-EVENT"),
                name: string_from("WMI Event Subscriptions"),
                technique_id: string_from("T1547.013"),
                description: string_from("Create WMI event consumer for persistence with process monitoring"),
                windows_version: string_from("Windows XP and later"),
                detection_difficulty: string_from("High - Requires WMI monitoring"),
                implementation_steps: vec![
                    string_from("Step 1: Create event filter watching for trigger (e.g., process creation)"),
                    string_from("Step 2: Create event consumer (command to execute)"),
                    string_from("Step 3: Bind filter and consumer together"),
                    string_from("Step 4: Trigger event executes malware (fileless execution possible)"),
                ],
                detection_risks: vec![
                    string_from("WMI audit logging (not enabled by default)"),
                    string_from("Sysmon WMI event monitoring (not default)"),
                    string_from("WMI repository queries by security tools"),
                    string_from("Process execution from WMI command line"),
                ],
                behavioral_indicators: vec![
                    string_from("WMI event filter creation"),
                    string_from("WMI event consumer binding"),
                    string_from("PowerShell WMI commands in logs"),
                    string_from("Process creation from WMI service"),
                ],
                recovery_options: vec![
                    string_from("Remove WMI class instances via WMI tools"),
                    string_from("Rebuild WMI repository"),
                    string_from("Disable WMI service"),
                ],
                reliability_per_mille: 880,
                privilege_level_required: string_from("Administrator"),
            };
            assert(r@ =~~= mechanism_record(mechanism_type@));
            Ok(r)
        } else if same_text(mechanism_type, "dll_hijack") {
            let r = PersistenceMechanism {
                mechanism_id: string_from("PERSIST-DLL-HIJACK"),
                name: string_from("DLL Search Order Hijacking"),
                technique_id: string_from("T1574.001"),
                description: string_from("Place malicious DLL in directory with higher precedence in search order"),
                windows_version: string_from("All versions"),
                detection_difficulty: string_from("Low - Pattern detection challenging"),
                implementation_steps: vec![
                    string_from("Step 1: Identify legitimate application with missing DLL import"),
                    string_from("Step 2: Create malicious DLL with same name"),
                    string_from("Step 3: Place DLL in directory searched before legitimate library"),
                    string_from("Step 4: Application loads hijacked DLL on next execution"),
                ],
                detection_risks: vec![
                    string_from("File integrity monitoring (FIM) on system directories"),
                    string_from("DLL signing validation"),
                    string_from("Application whitelisting (if implemented)"),
                ],
                behavioral_indicators: vec![
                    string_from("DLL in unusual directory with legitimate application name"),
                    string_from("DLL execution from non-standard paths"),
                    string_from("Mismatch between expected and actual DLL"),
                ],
                recovery_options: vec![
                    string_from("Delete malicious DLL"),
                    string_from("Restore original DLL from backup"),
                    string_from("Modify application search path"),
                ],
                reliability_per_mille: 920,
                privilege_level_required: string_from("User or Administrator (depends on directory)"),
            };
            assert(r@ =~~= mechanism_record(mechanism_type@));
            Ok(r)
        } else if same_text(mechanism_type, "netsh_helper") {
            let r = PersistenceMechanism {
                mechanism_id: string_from("PERSIST-NETSH"),
                name: string_from("Netsh Helper DLL"),
                technique_id: string_from("T1547.007"),
                description: string_from("Register DLL as netsh helper to execute arbitrary code"),
                windows_version: string_from("Windows Vista and later"),
                detection_difficulty: string_from("Very High - Unusual execution path"),
                implementation_steps: vec![
                    string_from("Step 1: Create DLL with DllMain function"),
                    string_from("Step 2: Register DLL path in registry: HKLM\\Software\\Microsoft\\Netsh"),
                    string_from("Step 3: Code executes when netsh.exe loads helper"),
                    string_from("Step 4: Netsh.exe typically runs with NT AUTHORITY\\SYSTEM"),
                ],
                detection_risks: vec![
                    string_from("Registry audit for netsh entries"),
                    string_from("DLL signing verification"),
                    string_from("Unusual DLL loading in netsh process (EDR)"),
                ],
                behavioral_indicators: vec![
                    string_from("Netsh helper DLL registry entry"),
                    string_from("DLL execution from unusual path via netsh"),
                    string_from("Suspicious code in netsh.exe process memory"),
                ],
                recovery_options: vec![
                    string_from("Remove registry entry for helper DLL"),
                    string_from("Delete malicious DLL file"),
                ],
                reliability_per_mille: 950,
                privilege_level_required: string_from("Administrator (for registry write)"),
            };
            assert(r@ =~~= mechanism_record(mechanism_type@));
            Ok(r)
        } else {
            let r = PersistenceMechanism {
                mechanism_id: string_from("PERSIST-GENERIC"),
                name: string_from("Generic Persistence"),
                technique_id: string_from("T1547"),
                description: string_from("Generic persistence mechanism"),
                windows_version: string_from("All"),
                detection_difficulty: string_from("Unknown"),
                implementation_steps: vec![
                    string_from("Generic steps"),
                ],
                detection_risks: vec![
                    string_from("Generic risks"),
                ],
                behavioral_indicators: vec![
                    string_from("Generic indicators"),
                ],
                recovery_options: vec![
                    string_from("Generic recovery"),
                ],
                reliability_per_mille: 500,
                privilege_level_required: string_from("Variable"),
            };
            assert(r@ =~~= mechanism_record(mechanism_type@));
            Ok(r)
        }
    }

    /// The record of a privilege-escalation method (`uac_bypass`,
    /// `kernel_exploit`); any other method gets the generic record. Never fails.
    pub fn plan_privilege_escalation(&self, escalation_method: &str) -> (r: Result<PrivilegeEscalation, String>)
        ensures
            r matches Ok(p) && p@ == escalation_record(escalation_method@),
    {
        if same_text(escalation_method, "uac_bypass") {
            let r = PrivilegeEscalation {
                escalation_id: string_from("PRIVESC-UAC-001"),
                vulnerability: string_from("User Account Control (UAC) bypass via token impersonation"),
                affected_versions: vec![
                    string_from("Windows 7 and later"),
                ],
                exploitation_difficulty: string_from("Low"),
                success_per_mille: 800,
                detection_risk_per_mille: 450,
                steps: vec![
                    string_from("Step 1: Identify UAC bypass vector (CMSTPLUA.EXE, eventvwr, fodhelper, etc.)"),
                    string_from("Step 2: Create registry key for administrator process"),
                    string_from("Step 3: Execute bypass binary to elevate privilege"),
                    string_from("Step 4: Verify SYSTEM or Administrator token"),
                ],
                defender_mitigations: vec![
                    string_from("UAC elevation prompts (can be clicked through)"),
                    string_from("Code Integrity Guard (CIG)"),
                    string_from("AppLocker rules"),
                ],
                alternative_methods: vec![
                    string_from("Token impersonation via named pipes"),
                    string_from("COM elevation moniker abuse"),
                    string_from("DLL hijacking of privileged process"),
                ],
                post_exploitation_actions: vec![
                    string_from("Install persistence mechanism as SYSTEM"),
                    string_from("Dump LSASS for credential harvesting"),
                    string_from("Disable Windows Defender as SYSTEM"),
                    string_from("Create administrative backdoor account"),
                ],
            };
            assert(r@ =~~= escalation_record(escalation_method@));
            Ok(r)
        } else if same_text(escalation_method, "kernel_exploit") {
            let r = PrivilegeEscalation {
                escalation_id: string_from("PRIVESC-KERNEL-001"),
                vulnerability: string_from("Windows Kernel vulnerability (e.g., CVE-2021-1732, CVE-2020-1054)"),
                affected_versions: vec![
                    string_from("Windows 7 SP1"),
                    string_from("Windows 8.1"),
                    string_from("Windows 10 (various builds)"),
                ],
                exploitation_difficulty: string_from("High"),
                success_per_mille: 650,
                detection_risk_per_mille: 600,
                steps: vec![
                    string_from("Step 1: Identify applicable kernel vulnerability on target"),
                    string_from("Step 2: Compile exploit for specific Windows version"),
                    string_from("Step 3: Execute exploit to trigger kernel bug"),
                    string_from("Step 4: Obtain SYSTEM token from kernel"),
                ],
                defender_mitigations: vec![
                    string_from("Windows Update patches"),
                    string_from("Driver signature enforcement"),
                    string_from("Kernel patch guard"),
                    string_from("Control Flow Guard (CFG)"),
                ],
                alternative_methods: vec![
                    string_from("LTSC (Long-Term Servicing Channel) exploitation"),
                    string_from("Unpatched system targeting"),
                    string_from("Virtual machine escape (if applicable)"),
                ],
                post_exploitation_actions: vec![
                    string_from("Load malicious kernel driver"),
                    string_from("Patch kernel structures"),
                    string_from("Install low-level rootkit"),
                    string_from("Disable security features at kernel level"),
                ],
            };
            assert(r@ =~~= escalation_record(escalation_method@));
            Ok(r)
        } else {
            let r = PrivilegeEscalation {
                escalation_id: string_from("PRIVESC-GENERIC"),
                vulnerability: string_from("Generic privilege escalation"),
                affected_versions: vec![
                    string_from("All"),
                ],
                exploitation_difficulty: string_from("Unknown"),
                success_per_mille: 500,
                detection_risk_per_mille: 500,
                steps: vec![
                    string_from("Generic steps"),
                ],
                defender_mitigations: vec![
                    string_from("Generic mitigations"),
                ],
                alternative_methods: vec![
                    string_from("Generic alternatives"),
                ],
                post_exploitation_actions: vec![
                    string_from("Generic actions"),
                ],
            };
            assert(r@ =~~= escalation_record(escalation_method@));
            Ok(r)
        }
    }

    /// The backdoor chain for an environment (`enterprise`, `mid_market`, or
    /// any other), identified as `CHAIN-<environment>-20260825`. Never fails.
    pub fn plan_backdoor_chain(&self, environment: &str) -> (r: Result<BackdoorChain, String>)
        ensures
            r matches Ok(c) && c@ == backdoor_record(environment@),
    {
        let (primary, secondaries, days) = if same_text(environment, "enterprise") {
            let s = vec![
                string_from("Empire PowerShell agent via WMI event subscription"),
                string_from("Custom C++ implant via DLL hijacking"),
                string_from("Metasploit Meterpreter via Registry Run key"),
            ];
            assert(views(s@) =~= secondary_backdoors_for(environment@));
            (string_from("Cobalt Strike Beacon via scheduled task"), s, 60u32)
        } else if same_text(environment, "mid_market") {
            let s = vec![
                string_from("PowerShell reverse shell via Registry Run"),
                string_from("Custom bash/Python script via cron"),
            ];
            assert(views(s@) =~= secondary_backdoors_for(environment@));
            (string_from("Sliver C2 via scheduled task"), s, 90u32)
        } else {
            let s = vec![string_from("Secondary backdoor")];
            assert(views(s@) =~= secondary_backdoors_for(environment@));
            (string_from("Generic backdoor via scheduled task"), s, 30u32)
        };
        let mut chain_id = string_from("CHAIN-");
        push_str(&mut chain_id, environment);
        push_str(&mut chain_id, "-20260825");
        let r = BackdoorChain {
            chain_id,
            primary_backdoor: primary,
            secondary_backdoors: secondaries,
            privilege_escalation_path: string_from("From user → SYSTEM via scheduled task or WMI"),
            detection_evasion_per_mille: 720,
            recovery_resilience_per_mille: 880,
            estimated_persistence_days: days,
            failover_mechanisms: vec![
                string_from("Fallback to secondary backdoor if primary blocked"),
                string_from("Automatic C2 infrastructure failover"),
                string_from("Domain-flux C2 channels"),
                string_from("DNS-based C2 tunnel as last resort"),
            ],
            evidence_cleanup_procedures: vec![
                string_from("Remove scheduled task entries from Task Scheduler"),
                string_from("Clear WMI repository events"),
                string_from("Remove registry persistence keys"),
                string_from("Delete artifacts from temp directories"),
                string_from("Clear event logs (Security, System, Application)"),
            ],
        };
        assert(r@ =~~= backdoor_record(environment@));
        Ok(r)
    }
    /// The persistence strategy report for an environment (see
    /// `persistence_report`). Never fails.
    pub fn generate_persistence_strategy(&self, environment: &str) -> (r: Result<String, String>)
        ensures
            r matches Ok(s) && s@ == persistence_report(environment@),
    {
        let m = match self.plan_persistence_mechanism("scheduled_task") {
            Ok(m) => m,
            Err(e) => return Err(e),
        };
        let c = match self.plan_backdoor_chain(environment) {
            Ok(c) => c,
            Err(e) => return Err(e),
        };
        let p = match self.plan_privilege_escalation("uac_bypass") {
            Ok(p) => p,
            Err(e) => return Err(e),
        };
        let mut out = string_from("\n=== Post-Compromise Persistence Strategy ===\n\n");
        push_str(&mut out, "Target Environment: ");
        push_str(&mut out, environment);
        push_str(&mut out, "\n");
        push_str(&mut out, "Strategy ID: ");
        push_str(&mut out, c.chain_id.as_str());
        push_str(&mut out, "\n\n");
        push_str(&mut out, "Phase 1: Initial Persistence (Scheduled Task)\n");
        push_str(&mut out, "  Mechanism: ");
        push_str(&mut out, m.name.as_str());
        push_str(&mut out, "\n");
        push_str(&mut out, "  Technique: ");
        push_str(&mut out, m.technique_id.as_str());
        push_str(&mut out, "\n");
        push_str(&mut out, "  Steps:\n");
        push_bullets(&mut out, "    • ", &m.implementation_steps);
        push_str(&mut out, "  Reliability: ");
        push_decimal(&mut out, (m.reliability_per_mille / 10) as usize);
        push_str(&mut out, "%\n");
        push_str(&mut out, "  Privilege Required: ");
        push_str(&mut out, m.privilege_level_required.as_str());
        push_str(&mut out, "\n\n");
        push_str(&mut out, "Phase 2: Privilege Escalation (UAC Bypass)\n");
        push_str(&mut out, "  Vulnerability: ");
        push_str(&mut out, p.vulnerability.as_str());
        push_str(&mut out, "\n");
        push_str(&mut out, "  Affected Versions: ");
        let versions = join_with(&p.affected_versions, ", ");
        push_str(&mut out, versions.as_str());
        push_str(&mut out, "\n");
        push_str(&mut out, "  Success Rate: ");
        push_decimal(&mut out, (p.success_per_mille / 10) as usize);
        push_str(&mut out, "%\n");
        push_str(&mut out, "  Detection Risk: ");
        push_decimal(&mut out, (p.detection_risk_per_mille / 10) as usize);
        push_str(&mut out, "%\n");
        push_str(&mut out, "  Steps:\n");
        push_bullets(&mut out, "    • ", &p.steps);
        push_str(&mut out, "  Post-Exploitation Actions:\n");
        push_bullets(&mut out, "    • ", &p.post_exploitation_actions);
        push_str(&mut out, "\n");
        push_str(&mut out, "Phase 3: Backdoor Chain (Multi-Layer Persistence)\n");
        push_str(&mut out, "  Primary Backdoor: ");
        push_str(&mut out, c.primary_backdoor.as_str());
        push_str(&mut out, "\n");
        push_str(&mut out, "  Secondary Backdoors:\n");
        push_bullets(&mut out, "    • ", &c.secondary_backdoors);
        push_str(&mut out, "  Estimated Safe Persistence: ");
        push_decimal(&mut out, c.estimated_persistence_days as usize);
        push_str(&mut out, " days\n");
        push_str(&mut out, "  Detection Evasion Score: ");
        push_decimal(&mut out, (c.detection_evasion_per_mille / 10) as usize);
        push_str(&mut out, "%\n");
        push_str(&mut out, "  Failover Mechanisms:\n");
        push_bullets(&mut out, "    • ", &c.failover_mechanisms);
        push_str(&mut out, "\n");
        push_str(&mut out, "Evidence Cleanup & Monitoring Evasion:\n");
        push_bullets(&mut out, "  • ", &c.evidence_cleanup_procedures);
        push_str(&mut out, "\nDetection Risks:\n");
        push_bullets(&mut out, "  • ", &m.detection_risks);
        push_str(&mut out, "\nBehavioral Indicators for Detection:\n");
        push_bullets(&mut out, "  • ", &m.behavioral_indicators);
        push_str(&mut out, "\n========================================\n");
        Ok(out)
    }
}

} // verus!
