//! Records gathered about an OSINT entity.

use vstd::prelude::*;
use crate::text::{chars_of, equal_chars, string_from};

verus! {

broadcast use vstd::string::group_string_axioms;

/// The kind of an OSINT entity.
#[derive(Debug, Clone, Copy, PartialEq, Eq, Structural)]
pub enum EntityType {
    Email,
    Domain,
    IPAddress,
    PhoneNumber,
    Username,
    Hash,
}

/// An entity under investigation and when it was queried (Unix seconds).
#[derive(Debug, Clone)]
pub struct OsintEntity {
    pub entity: String,
    pub entity_type: EntityType,
    pub timestamp: u64,
}

/// A breach an entity appeared in.
#[derive(Debug, Clone)]
pub struct BreachData {
    pub name: String,
    pub date: String,
    pub exposed_data: Vec<String>,
    pub affected_count: Option<u64>,
    pub source: String,
}

/// A threat indicator tied to an entity.
#[derive(Debug, Clone)]
pub struct ThreatIndicator {
    pub indicator_type: String,
    pub value: String,
    pub threat_level: String,
    pub source: String,
    pub last_seen: String,
}

/// Exposed credentials.
#[derive(Debug, Clone)]
pub struct CredentialData {
    pub username: String,
    pub email: Option<String>,
    pub password_hash: Option<String>,
    pub breach_source: String,
    pub date_exposed: String,
}

/// What is known about an e-mail address.
#[derive(Debug, Clone)]
pub struct EmailProfile {
    pub email: String,
    pub domain: String,
    pub first_seen: Option<String>,
    pub associated_names: Vec<String>,
    pub associated_companies: Vec<String>,
    pub usage_context: String,
}

/// What is known about an IP address.
#[derive(Debug, Clone)]
pub struct IPIntelligence {
    pub ip_address: String,
    pub organization: String,
    pub country: String,
    pub is_vpn: bool,
    pub is_proxy: bool,
    pub is_datacenter: bool,
    pub threat_level: String,
    pub abuse_reports: u32,
}

/// The recommendations for a risk level: critical, high and medium each have
/// their own list; any other level gets the baseline advice.
pub open spec fn risk_recommendations(level: Seq<char>) -> Seq<Seq<char>> {
    if level == "critical"@ {
        seq![
            "Immediately change all account passwords"@,
            "Enable 2FA on all accounts"@,
            "Monitor for unauthorized account access"@,
            "Review recent account activity logs"@,
        ]
    } else if level == "high"@ {
        seq![
            "Change passwords for exposed accounts"@,
            "Enable 2FA where available"@,
            "Monitor breach notification sites"@,
        ]
    } else if level == "medium"@ {
        seq![
            "Review account security settings"@,
            "Consider enabling 2FA"@,
            "Update passwords on compromised services"@,
        ]
    } else {
        seq!["Maintain regular security practices"@, "Monitor for future exposures"@]
    }
}

/// Builds a vector of owned strings from literals.
fn owned(items: &[&str]) -> (r: Vec<String>)
    ensures
        r@.map_values(|s: String| s@) == items@.map_values(|s: &str| s@),
{
    let mut r: Vec<String> = Vec::new();
    let mut i: usize = 0;
    while i < items.len()
        invariant
            i <= items@.len(),
            r@.map_values(|s: String| s@) == items@.take(i as int).map_values(|s: &str| s@),
        decreases items@.len() - i,
    {
        let ghost before = r@;
        r.push(string_from(items[i]));
        proof {
            assert(r@.map_values(|s: String| s@) =~= before.map_values(|s: String| s@).push(items@[i as int]@));
            assert(items@.take(i + 1).map_values(|s: &str| s@) =~= items@.take(i as int).map_values(|s: &str| s@).push(
                items@[i as int]@,
            ));
        }
        i = i + 1;
    }
    assert(items@.take(items@.len() as int) =~= items@);
    r
}

/// The recommendations that go with a risk level.
pub fn recommendations_for_risk(level: &str) -> (r: Vec<String>)
    ensures
        r@.map_values(|s: String| s@) == risk_recommendations(level@),
{
    let l = chars_of(level);
    if equal_chars(&l, &chars_of("critical")) {
        let r = owned(
            &[
                "Immediately change all account passwords",
                "Enable 2FA on all accounts",
                "Monitor for unauthorized account access",
                "Review recent account activity logs",
            ],
        );
        r
    } else if equal_chars(&l, &chars_of("high")) {
        owned(&["Change passwords for exposed accounts", "Enable 2FA where available", "Monitor breach notification sites"])
    } else if equal_chars(&l, &chars_of("medium")) {
        owned(&["Review account security settings", "Consider enabling 2FA", "Update passwords on compromised services"])
    } else {
        owned(&["Maintain regular security practices", "Monitor for future exposures"])
    }
}

} // verus!
