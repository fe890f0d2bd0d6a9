//! Detection rules for an actor's techniques, in Sigma, YARA, SIEM-query or
//! Snort form, and the tuning advice that goes with them.

use vstd::prelude::*;
use crate::json::{decimal, push_decimal};
use crate::keyed::lookup;
use crate::osint::threat_feeds::ThreatIntelligenceFeed;
use crate::text::{chars_of, contains, contains_seq, push_str, split_all, split_on, string_from};

verus! {

broadcast use vstd::string::group_string_axioms;

/// The form a rule is written in.
#[derive(Debug, Clone, Copy, PartialEq, Eq, Structural)]
pub enum RuleFormat {
    Sigma,
    Yara,
    SiemQuery,
    Snort,
}

/// The family of technique a rule is written for.
#[derive(Debug, Clone, Copy, PartialEq, Eq, Structural)]
pub enum RuleKind {
    Phishing,
    SupplyChain,
    ValidAccounts,
    Discovery,
    BruteForce,
    CredentialPhishing,
    AccountManipulation,
    RemoteService,
    Generic,
}

/// The family of a technique id, by the first listed id it contains.
pub open spec fn rule_kind(technique: Seq<char>) -> RuleKind {
    if contains_seq(technique, "T1566"@) {
        RuleKind::Phishing
    } else if contains_seq(technique, "T1195"@) {
        RuleKind::SupplyChain
    } else if contains_seq(technique, "T1078"@) {
        RuleKind::ValidAccounts
    } else if contains_seq(technique, "T1087"@) {
        RuleKind::Discovery
    } else if contains_seq(technique, "T1110"@) {
        RuleKind::BruteForce
    } else if contains_seq(technique, "T1586"@) {
        RuleKind::CredentialPhishing
    } else if contains_seq(technique, "T1098"@) {
        RuleKind::AccountManipulation
    } else if contains_seq(technique, "T1021"@) {
        RuleKind::RemoteService
    } else {
        RuleKind::Generic
    }
}

/// The rule text of a family in a format.
pub open spec fn rule_content(kind: RuleKind, format: RuleFormat) -> Seq<char> {
    match (kind, format) {
        (RuleKind::Phishing, RuleFormat::Sigma) => "title: Phishing - Email Attachment\nlogsource:\n  product: exchange\n  service: audit\ndetection:\n  selection:\n    EventID: 2063\n    AttachmentFileName|endswith: '.exe'\n  condition: selection"@,
        (RuleKind::Phishing, RuleFormat::Yara) => "rule phishing_email_attachment {\n  strings:\n    $attach = /\\.exe$/ nocase\n  condition:\n    $attach\n}"@,
        (RuleKind::Phishing, RuleFormat::SiemQuery) => "source=email attachment_name=*.exe | stats count by sender, recipient"@,
        (RuleKind::Phishing, RuleFormat::Snort) => "alert smtp $EXTERNAL_NET any -> $HOME_NET 25 (msg:\"Phishing Email with Executable\"; flow:to_server,established; content:\"Content-Disposition\"; content:\".exe\"; sid:1000001;)"@,
        (RuleKind::SupplyChain, RuleFormat::Sigma) => "title: Supply Chain Compromise\nlogsource:\n  product: windows\n  service: security\ndetection:\n  selection:\n    EventID: 1\n    Image|endswith: 'sccm.exe'\n  condition: selection"@,
        (RuleKind::SupplyChain, RuleFormat::Yara) => "rule supply_chain_malware {\n  strings:\n    $unsigned = \"unsigned\"\n  condition:\n    $unsigned\n}"@,
        (RuleKind::SupplyChain, RuleFormat::SiemQuery) => "source=endpoint process_name=sccm.exe parent_process!=ccm.exe | stats count"@,
        (RuleKind::SupplyChain, RuleFormat::Snort) => "alert tcp any any -> any any (msg:\"Suspected Supply Chain Compromise\"; content:\"sccm\"; sid:1000002;)"@,
        (RuleKind::ValidAccounts, RuleFormat::Sigma) => "title: Valid Accounts Abuse\nlogsource:\n  product: windows\n  service: security\ndetection:\n  selection:\n    EventID: 4625\n    FailureCount: '>5'\n  condition: selection"@,
        (RuleKind::ValidAccounts, RuleFormat::Yara) => "rule valid_account_abuse {\n  strings:\n    $attempt = /failed.*logon/ nocase\n  condition:\n    $attempt\n}"@,
        (RuleKind::ValidAccounts, RuleFormat::SiemQuery) => "source=windows_security EventID=4625 | stats count by user_name | where count > 5"@,
        (RuleKind::ValidAccounts, RuleFormat::Snort) => "alert tcp any any -> any 445 (msg:\"Multiple Failed Login Attempts\"; flow:established; threshold: type both, track by_src, count 5; sid:1000003;)"@,
        (RuleKind::Discovery, RuleFormat::Sigma) => "title: Account Discovery\nlogsource:\n  product: windows\ndetection:\n  selection:\n    CommandLine|contains: 'net user'\n  condition: selection"@,
        (RuleKind::Discovery, RuleFormat::Yara) => "rule account_discovery {\n  strings:\n    $cmd = /net user/ nocase\n  condition:\n    $cmd\n}"@,
        (RuleKind::Discovery, RuleFormat::SiemQuery) => "source=process CommandLine=\"net user\" | stats count by user"@,
        (RuleKind::Discovery, RuleFormat::Snort) => "alert tcp any any -> any 445 (msg:\"Account Enumeration Detected\"; content:\"net user\"; sid:1000004;)"@,
        (RuleKind::BruteForce, RuleFormat::Sigma) => "title: Brute Force Attack\nlogsource:\n  product: windows\n  service: security\ndetection:\n  selection:\n    EventID: 4625\n  timeframe: 5m\n  condition: selection | count > 10"@,
        (RuleKind::BruteForce, RuleFormat::Yara) => "rule brute_force_attack {\n  strings:\n    $fail = /authentication failed/i\n  condition:\n    #fail > 10\n}"@,
        (RuleKind::BruteForce, RuleFormat::SiemQuery) => "source=auth failed_logins=* | stats count by src_ip | where count > 10"@,
        (RuleKind::BruteForce, RuleFormat::Snort) => "alert tcp any any -> any any (msg:\"Brute Force Attempt Detected\"; flow:established; threshold: type both, track by_src, count 10, seconds 300; sid:1000005;)"@,
        (RuleKind::CredentialPhishing, RuleFormat::Sigma) => "title: Credential Phishing\nlogsource:\n  product: proxy\ndetection:\n  selection:\n    url|contains: 'login'\n    domain|contains: 'phishing'\n  condition: selection"@,
        (RuleKind::CredentialPhishing, RuleFormat::Yara) => "rule credential_phishing {\n  strings:\n    $phish = /login.*phishing/ nocase\n  condition:\n    $phish\n}"@,
        (RuleKind::CredentialPhishing, RuleFormat::SiemQuery) => "source=proxy url=*login* domain=*phishing* | stats count by user"@,
        (RuleKind::CredentialPhishing, RuleFormat::Snort) => "alert http any any -> any any (msg:\"Credential Phishing Detection\"; content:\"login\"; content:\"phishing\"; sid:1000006;)"@,
        (RuleKind::AccountManipulation, RuleFormat::Sigma) => "title: Account Manipulation\nlogsource:\n  product: windows\n  service: security\ndetection:\n  selection:\n    EventID: 4720\n  condition: selection"@,
        (RuleKind::AccountManipulation, RuleFormat::Yara) => "rule account_manipulation {\n  strings:\n    $create = /account created/ nocase\n  condition:\n    $create\n}"@,
        (RuleKind::AccountManipulation, RuleFormat::SiemQuery) => "source=windows EventID=4720 | stats count by creator"@,
        (RuleKind::AccountManipulation, RuleFormat::Snort) => "alert tcp any any -> any 445 (msg:\"Suspicious Account Created\"; sid:1000007;)"@,
        (RuleKind::RemoteService, RuleFormat::Sigma) => "title: Remote Service Exploitation\nlogsource:\n  product: windows\n  service: security\ndetection:\n  selection:\n    EventID: 4688\n    CommandLine|contains: 'psexec'\n  condition: selection"@,
        (RuleKind::RemoteService, RuleFormat::Yara) => "rule remote_exploitation {\n  strings:\n    $psexec = /psexec/ nocase\n  condition:\n    $psexec\n}"@,
        (RuleKind::RemoteService, RuleFormat::SiemQuery) => "source=process CommandLine=*psexec* | stats count"@,
        (RuleKind::RemoteService, RuleFormat::Snort) => "alert tcp any any -> any 445 (msg:\"PsExec Lateral Movement Detected\"; content:\"psexec\"; sid:1000008;)"@,
        (RuleKind::Generic, RuleFormat::Sigma) => "title: Generic Threat Detection\nlogsource:\n  product: generic\ndetection:\n  selection:\n    indicator: present\n  condition: selection"@,
        (RuleKind::Generic, RuleFormat::Yara) => "rule generic_threat {\n  strings:\n    $indicator = \"threat\"\n  condition:\n    $indicator\n}"@,
        (RuleKind::Generic, RuleFormat::SiemQuery) => "source=* | stats count"@,
        (RuleKind::Generic, RuleFormat::Snort) => "alert tcp any any -> any any (msg:\"Generic Threat Detected\"; sid:9000001;)"@,
    }
}

/// The rule text of a family in a format.
fn rule_text(kind: RuleKind, format: RuleFormat) -> (r: &'static str)
    ensures
        r@ == rule_content(kind, format),
{
    match (kind, format) {
        (RuleKind::Phishing, RuleFormat::Sigma) => "title: Phishing - Email Attachment\nlogsource:\n  product: exchange\n  service: audit\ndetection:\n  selection:\n    EventID: 2063\n    AttachmentFileName|endswith: '.exe'\n  condition: selection",
        (RuleKind::Phishing, RuleFormat::Yara) => "rule phishing_email_attachment {\n  strings:\n    $attach = /\\.exe$/ nocase\n  condition:\n    $attach\n}",
        (RuleKind::Phishing, RuleFormat::SiemQuery) => "source=email attachment_name=*.exe | stats count by sender, recipient",
        (RuleKind::Phishing, RuleFormat::Snort) => "alert smtp $EXTERNAL_NET any -> $HOME_NET 25 (msg:\"Phishing Email with Executable\"; flow:to_server,established; content:\"Content-Disposition\"; content:\".exe\"; sid:1000001;)",
        (RuleKind::SupplyChain, RuleFormat::Sigma) => "title: Supply Chain Compromise\nlogsource:\n  product: windows\n  service: security\ndetection:\n  selection:\n    EventID: 1\n    Image|endswith: 'sccm.exe'\n  condition: selection",
        (RuleKind::SupplyChain, RuleFormat::Yara) => "rule supply_chain_malware {\n  strings:\n    $unsigned = \"unsigned\"\n  condition:\n    $unsigned\n}",
        (RuleKind::SupplyChain, RuleFormat::SiemQuery) => "source=endpoint process_name=sccm.exe parent_process!=ccm.exe | stats count",
        (RuleKind::SupplyChain, RuleFormat::Snort) => "alert tcp any any -> any any (msg:\"Suspected Supply Chain Compromise\"; content:\"sccm\"; sid:1000002;)",
        (RuleKind::ValidAccounts, RuleFormat::Sigma) => "title: Valid Accounts Abuse\nlogsource:\n  product: windows\n  service: security\ndetection:\n  selection:\n    EventID: 4625\n    FailureCount: '>5'\n  condition: selection",
        (RuleKind::ValidAccounts, RuleFormat::Yara) => "rule valid_account_abuse {\n  strings:\n    $attempt = /failed.*logon/ nocase\n  condition:\n    $attempt\n}",
        (RuleKind::ValidAccounts, RuleFormat::SiemQuery) => "source=windows_security EventID=4625 | stats count by user_name | where count > 5",
        (RuleKind::ValidAccounts, RuleFormat::Snort) => "alert tcp any any -> any 445 (msg:\"Multiple Failed Login Attempts\"; flow:established; threshold: type both, track by_src, count 5; sid:1000003;)",
        (RuleKind::Discovery, RuleFormat::Sigma) => "title: Account Discovery\nlogsource:\n  product: windows\ndetection:\n  selection:\n    CommandLine|contains: 'net user'\n  condition: selection",
        (RuleKind::Discovery, RuleFormat::Yara) => "rule account_discovery {\n  strings:\n    $cmd = /net user/ nocase\n  condition:\n    $cmd\n}",
        (RuleKind::Discovery, RuleFormat::SiemQuery) => "source=process CommandLine=\"net user\" | stats count by user",
        (RuleKind::Discovery, RuleFormat::Snort) => "alert tcp any any -> any 445 (msg:\"Account Enumeration Detected\"; content:\"net user\"; sid:1000004;)",
        (RuleKind::BruteForce, RuleFormat::Sigma) => "title: Brute Force Attack\nlogsource:\n  product: windows\n  service: security\ndetection:\n  selection:\n    EventID: 4625\n  timeframe: 5m\n  condition: selection | count > 10",
        (RuleKind::BruteForce, RuleFormat::Yara) => "rule brute_force_attack {\n  strings:\n    $fail = /authentication failed/i\n  condition:\n    #fail > 10\n}",
        (RuleKind::BruteForce, RuleFormat::SiemQuery) => "source=auth failed_logins=* | stats count by src_ip | where count > 10",
        (RuleKind::BruteForce, RuleFormat::Snort) => "alert tcp any any -> any any (msg:\"Brute Force Attempt Detected\"; flow:established; threshold: type both, track by_src, count 10, seconds 300; sid:1000005;)",
        (RuleKind::CredentialPhishing, RuleFormat::Sigma) => "title: Credential Phishing\nlogsource:\n  product: proxy\ndetection:\n  selection:\n    url|contains: 'login'\n    domain|contains: 'phishing'\n  condition: selection",
        (RuleKind::CredentialPhishing, RuleFormat::Yara) => "rule credential_phishing {\n  strings:\n    $phish = /login.*phishing/ nocase\n  condition:\n    $phish\n}",
        (RuleKind::CredentialPhishing, RuleFormat::SiemQuery) => "source=proxy url=*login* domain=*phishing* | stats count by user",
        (RuleKind::CredentialPhishing, RuleFormat::Snort) => "alert http any any -> any any (msg:\"Credential Phishing Detection\"; content:\"login\"; content:\"phishing\"; sid:1000006;)",
        (RuleKind::AccountManipulation, RuleFormat::Sigma) => "title: Account Manipulation\nlogsource:\n  product: windows\n  service: security\ndetection:\n  selection:\n    EventID: 4720\n  condition: selection",
        (RuleKind::AccountManipulation, RuleFormat::Yara) => "rule account_manipulation {\n  strings:\n    $create = /account created/ nocase\n  condition:\n    $create\n}",
        (RuleKind::AccountManipulation, RuleFormat::SiemQuery) => "source=windows EventID=4720 | stats count by creator",
        (RuleKind::AccountManipulation, RuleFormat::Snort) => "alert tcp any any -> any 445 (msg:\"Suspicious Account Created\"; sid:1000007;)",
        (RuleKind::RemoteService, RuleFormat::Sigma) => "title: Remote Service Exploitation\nlogsource:\n  product: windows\n  service: security\ndetection:\n  selection:\n    EventID: 4688\n    CommandLine|contains: 'psexec'\n  condition: selection",
        (RuleKind::RemoteService, RuleFormat::Yara) => "rule remote_exploitation {\n  strings:\n    $psexec = /psexec/ nocase\n  condition:\n    $psexec\n}",
        (RuleKind::RemoteService, RuleFormat::SiemQuery) => "source=process CommandLine=*psexec* | stats count",
        (RuleKind::RemoteService, RuleFormat::Snort) => "alert tcp any any -> any 445 (msg:\"PsExec Lateral Movement Detected\"; content:\"psexec\"; sid:1000008;)",
        (RuleKind::Generic, RuleFormat::Sigma) => "title: Generic Threat Detection\nlogsource:\n  product: generic\ndetection:\n  selection:\n    indicator: present\n  condition: selection",
        (RuleKind::Generic, RuleFormat::Yara) => "rule generic_threat {\n  strings:\n    $indicator = \"threat\"\n  condition:\n    $indicator\n}",
        (RuleKind::Generic, RuleFormat::SiemQuery) => "source=* | stats count",
        (RuleKind::Generic, RuleFormat::Snort) => "alert tcp any any -> any any (msg:\"Generic Threat Detected\"; sid:9000001;)",
    }
}

/// The title of a rule for `technique` of family `kind`.
pub open spec fn rule_title(kind: RuleKind, technique: Seq<char>) -> Seq<char> {
    match kind {
        RuleKind::Phishing => "Phishing - Email Attachment"@,
        RuleKind::SupplyChain => "Supply Chain Compromise"@,
        RuleKind::ValidAccounts => "Valid Accounts Abuse"@,
        RuleKind::Discovery => "Account Discovery"@,
        RuleKind::BruteForce => "Brute Force Attack"@,
        RuleKind::CredentialPhishing => "Credential Phishing"@,
        RuleKind::AccountManipulation => "Account Manipulation"@,
        RuleKind::RemoteService => "Remote Service Exploitation"@,
        RuleKind::Generic => "Technique "@ + technique + " Detection"@,
    }
}

/// The description of a rule for `technique` of family `kind`.
pub open spec fn rule_description(kind: RuleKind, technique: Seq<char>) -> Seq<char> {
    match kind {
        RuleKind::Phishing => "Detects suspicious email attachments commonly used in phishing campaigns"@,
        RuleKind::SupplyChain => "Detects indicators of supply chain compromise and software tampering"@,
        RuleKind::ValidAccounts => "Detects unauthorized use of valid user credentials"@,
        RuleKind::Discovery => "Detects enumeration of user accounts and credentials"@,
        RuleKind::BruteForce => "Detects brute force and credential stuffing attempts"@,
        RuleKind::CredentialPhishing => "Detects credential harvesting and phishing attempts"@,
        RuleKind::AccountManipulation => "Detects unauthorized account modifications and takeovers"@,
        RuleKind::RemoteService => "Detects exploitation of remote services and lateral movement"@,
        RuleKind::Generic => "Generic detection for MITRE technique "@ + technique,
    }
}

/// The severity of a family.
pub open spec fn rule_severity(kind: RuleKind) -> Seq<char> {
    match kind {
        RuleKind::Phishing => "high"@,
        RuleKind::SupplyChain => "critical"@,
        RuleKind::ValidAccounts => "high"@,
        RuleKind::Discovery => "medium"@,
        RuleKind::BruteForce => "high"@,
        RuleKind::CredentialPhishing => "high"@,
        RuleKind::AccountManipulation => "high"@,
        RuleKind::RemoteService => "critical"@,
        RuleKind::Generic => "medium"@,
    }
}

/// The confidence, in percent, of a rule of the given severity.
pub open spec fn severity_confidence(sev: Seq<char>) -> u32 {
    if sev == "critical"@ {
        95
    } else if sev == "high"@ {
        85
    } else if sev == "medium"@ {
        70
    } else {
        60
    }
}

/// The false-positive risk of a rule of the given severity.
pub open spec fn severity_fp_risk(sev: Seq<char>) -> Seq<char> {
    if sev == "critical"@ || sev == "high"@ {
        "low"@
    } else if sev == "medium"@ {
        "medium"@
    } else {
        "high"@
    }
}

/// The name a format is printed under.
pub open spec fn format_name(f: RuleFormat) -> Seq<char> {
    match f {
        RuleFormat::Sigma => "Sigma"@,
        RuleFormat::Yara => "Yara"@,
        RuleFormat::SiemQuery => "SiemQuery"@,
        RuleFormat::Snort => "Snort"@,
    }
}

/// A detection rule.
#[derive(Debug, Clone)]
pub struct DetectionRule {
    pub rule_id: String,
    pub title: String,
    pub description: String,
    pub format: RuleFormat,
    pub content: String,
    /// low, medium, high or critical
    pub severity: String,
    /// Confidence in percent.
    pub confidence_percent: u32,
    pub false_positive_risk: String,
    pub actor_id: String,
    pub techniques: Vec<String>,
    /// Share of the technique covered, in percent.
    pub coverage_percent: u32,
}

/// The rules for one actor.
#[derive(Debug, Clone)]
pub struct DetectionRuleset {
    pub actor_id: String,
    pub actor_name: String,
    pub rules: Vec<DetectionRule>,
    pub total_techniques: usize,
    pub covered_techniques: usize,
    /// Overall coverage in percent.
    pub overall_coverage_percent: u32,
}

/// How to tune a rule.
#[derive(Debug, Clone)]
pub struct TuningGuidance {
    pub rule_id: String,
    pub false_positive_causes: Vec<String>,
    pub tuning_recommendations: Vec<String>,
    pub baseline_period_days: usize,
    pub alert_threshold: String,
}

/// `r` is the rule `rule_id` written for `technique` of `actor_id` in
/// `format`.
pub open spec fn rule_ok(
    r: DetectionRule,
    rule_id: Seq<char>,
    technique: Seq<char>,
    actor_id: Seq<char>,
    format: RuleFormat,
) -> bool {
    let kind = rule_kind(technique);
    let sev = rule_severity(kind);
    &&& r.rule_id@ == rule_id
    &&& r.title@ == rule_title(kind, technique)
    &&& r.description@ == rule_description(kind, technique)
    &&& r.format == format
    &&& r.content@ == rule_content(kind, format)
    &&& r.severity@ == sev
    &&& r.confidence_percent == severity_confidence(sev)
    &&& r.false_positive_risk@ == severity_fp_risk(sev)
    &&& r.actor_id@ == actor_id
    &&& r.techniques@.len() == 1
    &&& r.techniques@[0]@ == technique
    &&& r.coverage_percent == 100
}

/// The part of a rule id after the first dash (up to the next one), or
/// nothing.
pub open spec fn rule_technique_part(rule_id: Seq<char>) -> Seq<char> {
    if split_on(rule_id, '-').len() > 1 {
        split_on(rule_id, '-')[1]
    } else {
        Seq::empty()
    }
}

/// The tuning advice for a rule id: false-positive causes and
/// recommendations for phishing (566) and valid-account (078) rules, and a
/// baseline otherwise.
pub open spec fn tuning_lists(rule_id: Seq<char>) -> (Seq<Seq<char>>, Seq<Seq<char>>) {
    let part = rule_technique_part(rule_id);
    if contains_seq(part, "566"@) {
        (
            seq!["Legitimate attachment delivery"@, "Mass email marketing"@, "Document sharing services"@],
            seq![
                "Whitelist known document sources"@,
                "Baseline external email volume"@,
                "Monitor file type patterns"@,
                "Correlate with user role and department"@,
            ],
        )
    } else if contains_seq(part, "078"@) {
        (
            seq!["Legitimate remote access"@, "Shared accounts"@, "Service accounts accessing resources"@],
            seq![
                "Establish baseline login patterns per account"@,
                "Monitor after-hours access for sensitive accounts"@,
                "Alert on geographic anomalies"@,
                "Correlate with failed login attempts"@,
            ],
        )
    } else {
        (seq!["Monitor initial baseline period"@], seq!["Adjust thresholds based on environment"@])
    }
}

/// `n` in decimal, padded with zeros to at least three digits.
pub open spec fn padded3(n: nat) -> Seq<char> {
    let d = decimal(n);
    if d.len() >= 3 {
        d
    } else {
        Seq::new((3 - d.len()) as nat, |i: int| '0') + d
    }
}

/// The id of the `n`-th rule (from 1) for an actor.
pub open spec fn rule_id_for(actor_id: Seq<char>, n: nat) -> Seq<char> {
    "DET-"@ + actor_id + "-"@ + padded3(n)
}

/// The text block of one rule in an export.
pub open spec fn rule_block(r: DetectionRule) -> Seq<char> {
    "Rule ID: "@ + r.rule_id@ + "\n"@ + "Title: "@ + r.title@ + "\n"@ + "Description: "@ + r.description@ + "\n"@
        + "Severity: "@ + r.severity@ + "\n"@ + "Confidence: "@ + decimal(r.confidence_percent as nat) + "%\n"@
        + "False Positive Risk: "@ + r.false_positive_risk@ + "\n"@ + "Format: "@ + format_name(r.format) + "\n"@
        + "\n"@
}

/// The text blocks of several rules.
pub open spec fn rule_blocks(rules: Seq<DetectionRule>) -> Seq<char>
    decreases rules.len(),
{
    if rules.len() == 0 {
        Seq::empty()
    } else {
        rule_blocks(rules.drop_last()) + rule_block(rules.last())
    }
}

/// The export of a ruleset: a header, the coverage line and every rule.
pub open spec fn ruleset_text(rs: DetectionRuleset) -> Seq<char> {
    "=== Detection Rules for "@ + rs.actor_name@ + " ===\n\n"@ + "Coverage: "@ + decimal(
        rs.covered_techniques as nat,
    ) + "/"@ + decimal(rs.total_techniques as nat) + " techniques ("@ + decimal(
        rs.overall_coverage_percent as nat,
    ) + ".0%)\n\n"@ + rule_blocks(rs.rules@)
}

/// The family of a technique id.
fn kind_of(technique: &str) -> (k: RuleKind)
    ensures
        k == rule_kind(technique@),
{
    let t = chars_of(technique);
    if contains(&t, &chars_of("T1566")) {
        RuleKind::Phishing
    } else if contains(&t, &chars_of("T1195")) {
        RuleKind::SupplyChain
    } else if contains(&t, &chars_of("T1078")) {
        RuleKind::ValidAccounts
    } else if contains(&t, &chars_of("T1087")) {
        RuleKind::Discovery
    } else if contains(&t, &chars_of("T1110")) {
        RuleKind::BruteForce
    } else if contains(&t, &chars_of("T1586")) {
        RuleKind::CredentialPhishing
    } else if contains(&t, &chars_of("T1098")) {
        RuleKind::AccountManipulation
    } else if contains(&t, &chars_of("T1021")) {
        RuleKind::RemoteService
    } else {
        RuleKind::Generic
    }
}

/// Owned strings from literals.
fn owned_lines(items: &[&str]) -> (r: Vec<String>)
    ensures
        r@.map_values(|s: String| s@) == items@.map_values(|s: &str| s@),
{
    let mut r: Vec<String> = Vec::new();
    let mut i: usize = 0;
    while i < items.len()
        invariant
            i <= items@.len(),
            r@.map_values(|s: String| s@) == items@.take(i as int).map_values(|s: &str| s@),
        decreases items@.len() - i,
    {
        let ghost before = r@;
        r.push(string_from(items[i]));
        proof {
            assert(r@.map_values(|s: String| s@) =~= before.map_values(|s: String| s@).push(items@[i as int]@));
            assert(items@.take(i + 1).map_values(|s: &str| s@) =~= items@.take(i as int).map_values(|s: &str| s@).push(
                items@[i as int]@,
            ));
        }
        i = i + 1;
    }
    assert(items@.take(items@.len() as int) =~= items@);
    r
}

/// Appends `n` in decimal, padded with zeros to three digits.
fn push_padded3(out: &mut String, n: usize)
    ensures
        final(out)@ == old(out)@ + padded3(n as nat),
{
    let mut digits = String::new();
    push_decimal(&mut digits, n);
    let d = chars_of(digits.as_str());
    let mut pad: usize = 0;
    if d.len() < 3 {
        pad = 3 - d.len();
    }
    let mut k: usize = 0;
    while k < pad
        invariant
            k <= pad,
            pad <= 3,
            out@ == old(out)@ + Seq::new(k as nat, |i: int| '0'),
        decreases pad - k,
    {
        crate::text::push_char(out, '0');
        assert(Seq::new((k + 1) as nat, |i: int| '0') =~= Seq::new(k as nat, |i: int| '0').push('0'));
        k = k + 1;
    }
    push_str(out, digits.as_str());
    proof {
        if d@.len() >= 3 {
            assert(Seq::new(0nat, |i: int| '0') =~= Seq::<char>::empty());
        }
    }
    assert(out@ =~= old(out)@ + padded3(n as nat));
}

/// The text block of one rule.
fn rule_block_text(rule: &DetectionRule) -> (r: String)
    ensures
        r@ == rule_block(*rule),
{
    let mut out = string_from("Rule ID: ");
    push_str(&mut out, rule.rule_id.as_str());
    push_str(&mut out, "\n");
    push_str(&mut out, "Title: ");
    push_str(&mut out, rule.title.as_str());
    push_str(&mut out, "\n");
    push_str(&mut out, "Description: ");
    push_str(&mut out, rule.description.as_str());
    push_str(&mut out, "\n");
    push_str(&mut out, "Severity: ");
    push_str(&mut out, rule.severity.as_str());
    push_str(&mut out, "\n");
    let ghost part1 = out@;
    push_str(&mut out, "Confidence: ");
    push_decimal(&mut out, rule.confidence_percent as usize);
    push_str(&mut out, "%\n");
    push_str(&mut out, "False Positive Risk: ");
    push_str(&mut out, rule.false_positive_risk.as_str());
    push_str(&mut out, "\n");
    push_str(&mut out, "Format: ");
    push_str(
        &mut out,
        match rule.format {
            RuleFormat::Sigma => "Sigma",
            RuleFormat::Yara => "Yara",
            RuleFormat::SiemQuery => "SiemQuery",
            RuleFormat::Snort => "Snort",
        },
    );
    push_str(&mut out, "\n");
    push_str(&mut out, "\n");
    assert(out@ =~= rule_block(*rule));
    out
}

/// Writes detection rules for the actors of a feed.
pub struct DetectionRuleGenerator {
    pub threat_feed: ThreatIntelligenceFeed,
}

impl DetectionRuleGenerator {
    /// A generator over a feed.
    pub fn new(threat_feed: ThreatIntelligenceFeed) -> (r: Self)
        ensures
            r.threat_feed == threat_feed,
    {
        DetectionRuleGenerator { threat_feed }
    }

    /// The rule `rule_id` for a technique of an actor, in the given format:
    /// its family decides title, description, text and severity, and the
    /// severity decides confidence and false-positive risk.
    pub fn generate_rule_for_technique(&self, rule_id: &str, technique: &str, actor_id: &str, format: &RuleFormat) -> (r:
        DetectionRule)
        ensures
            rule_ok(r, rule_id@, technique@, actor_id@, *format),
    {
        let kind = kind_of(technique);
        let (title, description, severity): (String, String, &str) = match kind {
            RuleKind::Phishing => (
                string_from("Phishing - Email Attachment"),
                string_from("Detects suspicious email attachments commonly used in phishing campaigns"),
                "high",
            ),
            RuleKind::SupplyChain => (
                string_from("Supply Chain Compromise"),
                string_from("Detects indicators of supply chain compromise and software tampering"),
                "critical",
            ),
            RuleKind::ValidAccounts => (
                string_from("Valid Accounts Abuse"),
                string_from("Detects unauthorized use of valid user credentials"),
                "high",
            ),
            RuleKind::Discovery => (
                string_from("Account Discovery"),
                string_from("Detects enumeration of user accounts and credentials"),
                "medium",
            ),
            RuleKind::BruteForce => (
                string_from("Brute Force Attack"),
                string_from("Detects brute force and credential stuffing attempts"),
                "high",
            ),
            RuleKind::CredentialPhishing => (
                string_from("Credential Phishing"),
                string_from("Detects credential harvesting and phishing attempts"),
                "high",
            ),
            RuleKind::AccountManipulation => (
                string_from("Account Manipulation"),
                string_from("Detects unauthorized account modifications and takeovers"),
                "high",
            ),
            RuleKind::RemoteService => (
                string_from("Remote Service Exploitation"),
                string_from("Detects exploitation of remote services and lateral movement"),
                "critical",
            ),
            RuleKind::Generic => {
                let mut t = string_from("Technique ");
                push_str(&mut t, technique);
                push_str(&mut t, " Detection");
                let mut d = string_from("Generic detection for MITRE technique ");
                push_str(&mut d, technique);
                (t, d, "medium")
            },
        };
        let sev = chars_of(severity);
        let critical = crate::text::equal_chars(&sev, &chars_of("critical"));
        let high = crate::text::equal_chars(&sev, &chars_of("high"));
        let medium = crate::text::equal_chars(&sev, &chars_of("medium"));
        let confidence_percent: u32 = if critical {
            95
        } else if high {
            85
        } else if medium {
            70
        } else {
            60
        };
        let fp: &str = if critical || high {
            "low"
        } else if medium {
            "medium"
        } else {
            "high"
        };
        let mut techniques: Vec<String> = Vec::new();
        techniques.push(string_from(technique));
        DetectionRule {
            rule_id: string_from(rule_id),
            title,
            description,
            format: *format,
            content: string_from(rule_text(kind, *format)),
            severity: string_from(severity),
            confidence_percent,
            false_positive_risk: string_from(fp),
            actor_id: string_from(actor_id),
            techniques,
            coverage_percent: 100,
        }
    }

    /// The tuning advice for a rule (see `tuning_lists`): a two-week baseline
    /// and alerting on any indicator.
    pub fn get_tuning_guidance(&self, rule_id: &str) -> (r: TuningGuidance)
        ensures
            r.rule_id@ == rule_id@,
            r.false_positive_causes@.map_values(|s: String| s@) == tuning_lists(rule_id@).0,
            r.tuning_recommendations@.map_values(|s: String| s@) == tuning_lists(rule_id@).1,
            r.baseline_period_days == 14,
            r.alert_threshold@ == "Match any indicator"@,
    {
        let id = chars_of(rule_id);
        let pieces = split_all(&id, '-');
        let part: Vec<char> = if pieces.len() > 1 {
            pieces[1].clone()
        } else {
            Vec::new()
        };
        proof {
            if pieces@.len() > 1 {
                assert(pieces@.map_values(|p: Vec<char>| p@)[1] == pieces@[1]@);
            }
        }
        assert(part@ == rule_technique_part(rule_id@));
        let (causes, recommendations) = if contains(&part, &chars_of("566")) {
            (
                owned_lines(&["Legitimate attachment delivery", "Mass email marketing", "Document sharing services"]),
                owned_lines(
                    &[
                        "Whitelist known document sources",
                        "Baseline external email volume",
                        "Monitor file type patterns",
                        "Correlate with user role and department",
                    ],
                ),
            )
        } else if contains(&part, &chars_of("078")) {
            (
                owned_lines(&["Legitimate remote access", "Shared accounts", "Service accounts accessing resources"]),
                owned_lines(
                    &[
                        "Establish baseline login patterns per account",
                        "Monitor after-hours access for sensitive accounts",
                        "Alert on geographic anomalies",
                        "Correlate with failed login attempts",
                    ],
                ),
            )
        } else {
            (owned_lines(&["Monitor initial baseline period"]), owned_lines(&["Adjust thresholds based on environment"]))
        };
        TuningGuidance {
            rule_id: string_from(rule_id),
            false_positive_causes: causes,
            tuning_recommendations: recommendations,
            baseline_period_days: 14,
            alert_threshold: string_from("Match any indicator"),
        }
    }

    /// The rules for every technique of an actor, numbered from 1; `None` for
    /// an actor not in the feed. Every technique gets a rule, so coverage is
    /// always complete.
    pub fn generate_rules_for_actor(&self, actor_id: &str, format: RuleFormat) -> (r: Option<DetectionRuleset>)
        ensures
            match lookup(self.threat_feed.entries(), actor_id@) {
                None => r is None,
                Some(a) => r matches Some(rs) && {
                    &&& rs.actor_id@ == actor_id@
                    &&& rs.actor_name@ == a.name@
                    &&& rs.rules@.len() == a.techniques@.len()
                    &&& forall|k: int|
                        0 <= k < rs.rules@.len() ==> rule_ok(
                            #[trigger] rs.rules@[k],
                            rule_id_for(actor_id@, (k + 1) as nat),
                            a.techniques@[k]@,
                            actor_id@,
                            format,
                        )
                    &&& rs.total_techniques == a.techniques@.len()
                    &&& rs.covered_techniques == rs.rules@.len()
                    &&& rs.overall_coverage_percent == 100
                },
            },
    {
        let actor = match self.threat_feed.get_actor(actor_id) {
            Some(a) => a,
            None => {
                return None;
            },
        };
        let mut rules: Vec<DetectionRule> = Vec::new();
        let mut i: usize = 0;
        while i < actor.techniques.len()
            invariant
                i <= actor.techniques@.len(),
                rules@.len() == i,
                forall|k: int|
                    0 <= k < i ==> rule_ok(
                        #[trigger] rules@[k],
                        rule_id_for(actor_id@, (k + 1) as nat),
                        actor.techniques@[k]@,
                        actor_id@,
                        format,
                    ),
            decreases actor.techniques@.len() - i,
        {
            let mut rule_id = string_from("DET-");
            push_str(&mut rule_id, actor_id);
            push_str(&mut rule_id, "-");
            push_padded3(&mut rule_id, i + 1);
            let rule = self.generate_rule_for_technique(rule_id.as_str(), actor.techniques[i].as_str(), actor_id, &format);
            rules.push(rule);
            i = i + 1;
        }
        let total = actor.techniques.len();
        let covered = rules.len();
        Some(
            DetectionRuleset {
                actor_id: string_from(actor_id),
                actor_name: actor.name.clone(),
                rules,
                total_techniques: total,
                covered_techniques: covered,
                overall_coverage_percent: 100,
            },
        )
    }

    /// A printable export of a ruleset (see `ruleset_text`).
    pub fn export_ruleset_as_text(&self, ruleset: &DetectionRuleset) -> (r: String)
        ensures
            r@ == ruleset_text(*ruleset),
    {
        let mut out = string_from("=== Detection Rules for ");
        push_str(&mut out, ruleset.actor_name.as_str());
        push_str(&mut out, " ===\n\n");
        push_str(&mut out, "Coverage: ");
        push_decimal(&mut out, ruleset.covered_techniques);
        push_str(&mut out, "/");
        push_decimal(&mut out, ruleset.total_techniques);
        push_str(&mut out, " techniques (");
        push_decimal(&mut out, ruleset.overall_coverage_percent as usize);
        push_str(&mut out, ".0%)\n\n");
        let ghost head = out@;
        let mut i: usize = 0;
        while i < ruleset.rules.len()
            invariant
                i <= ruleset.rules@.len(),
                out@ == head + rule_blocks(ruleset.rules@.take(i as int)),
            decreases ruleset.rules@.len() - i,
        {
            let rule = &ruleset.rules[i];
            let ghost before = out@;
            let block = rule_block_text(rule);
            push_str(&mut out, block.as_str());
            proof {
                assert(out@ =~= before + rule_block(*rule));
                assert(ruleset.rules@.take(i + 1).drop_last() =~= ruleset.rules@.take(i as int));
                assert(ruleset.rules@.take(i + 1).last() == *rule);
            }
            i = i + 1;
        }
        assert(ruleset.rules@.take(i as int) =~= ruleset.rules@);
        out
    }
}

} // verus!
