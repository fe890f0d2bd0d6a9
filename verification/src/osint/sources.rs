//! OSINT data sources: their kinds, the default source configuration, and the
//! answers of the offline mock source.

use vstd::prelude::*;
use crate::osint::models::{BreachData, CredentialData, EmailProfile, IPIntelligence, ThreatIndicator};
use crate::text::{chars_of, ends_with, has_suffix, string_from};

verus! {

broadcast use vstd::string::group_string_axioms;

/// The kind of an OSINT data source.
#[derive(Debug, Clone, Copy, PartialEq, Eq, Structural)]
pub enum DataSourceType {
    HaveIBeenPwned,
    VirusTotal,
    Hunter,
    Shodan,
    GreyNoise,
    AbuseIPDB,
    ThreatFeed,
    Whois,
}

/// Which sources are queried, and how.
#[derive(Debug, Clone)]
pub struct SourceConfig {
    pub sources_enabled: Vec<DataSourceType>,
    pub cache_ttl_seconds: u64,
    pub rate_limit_per_minute: u32,
}

impl Default for SourceConfig {
    /// HaveIBeenPwned, VirusTotal and the threat feed; results cached for an
    /// hour; sixty requests a minute.
    fn default() -> (r: Self)
        ensures
            r.sources_enabled@ == seq![
                DataSourceType::HaveIBeenPwned,
                DataSourceType::VirusTotal,
                DataSourceType::ThreatFeed,
            ],
            r.cache_ttl_seconds == 3600,
            r.rate_limit_per_minute == 60,
    {
        let mut sources: Vec<DataSourceType> = Vec::new();
        sources.push(DataSourceType::HaveIBeenPwned);
        sources.push(DataSourceType::VirusTotal);
        sources.push(DataSourceType::ThreatFeed);
        SourceConfig { sources_enabled: sources, cache_ttl_seconds: 3600, rate_limit_per_minute: 60 }
    }
}

/// The offline source, answering from fixed data.
pub struct MockDataSource;

/// The address ends with `@gmail.com`.
pub open spec fn is_gmail(email: Seq<char>) -> bool {
    ends_with(email, "@gmail.com"@)
}

impl MockDataSource {
    /// What the mock source knows of an IP address: an unknown, low-threat
    /// host with no abuse reports.
    pub fn ip_intelligence(&self, ip: &str) -> (r: IPIntelligence)
        ensures
            r.ip_address@ == ip@,
            r.organization@ == "Unknown"@,
            r.country@ == "Unknown"@,
            !r.is_vpn && !r.is_proxy && !r.is_datacenter,
            r.threat_level@ == "low"@,
            r.abuse_reports == 0,
    {
        IPIntelligence {
            ip_address: string_from(ip),
            organization: string_from("Unknown"),
            country: string_from("Unknown"),
            is_vpn: false,
            is_proxy: false,
            is_datacenter: false,
            threat_level: string_from("low"),
            abuse_reports: 0,
        }
    }

    /// What the mock source knows of a username: one LinkedIn exposure.
    pub fn credentials(&self, username: &str) -> (r: Vec<CredentialData>)
        ensures
            r@.len() == 1,
            r@[0].username@ == username@,
            r@[0].email is None,
            r@[0].password_hash is None,
            r@[0].breach_source@ == "LinkedIn"@,
            r@[0].date_exposed@ == "2021-06-21"@,
    {
        let mut r: Vec<CredentialData> = Vec::new();
        r.push(
            CredentialData {
                username: string_from(username),
                email: None,
                password_hash: None,
                breach_source: string_from("LinkedIn"),
                date_exposed: string_from("2021-06-21"),
            },
        );
        r
    }

    /// The breaches the mock source reports for an address: LinkedIn and
    /// Twitter for a gmail.com address, none otherwise.
    pub fn email_breaches(&self, email: &str) -> (r: Vec<BreachData>)
        ensures
            !is_gmail(email@) ==> r@.len() == 0,
            is_gmail(email@) ==> {
                &&& r@.len() == 2
                &&& r@[0].name@ == "LinkedIn"@ && r@[0].date@ == "2021-06-21"@
                &&& r@[0].exposed_data@.map_values(|s: String| s@) == seq!["email"@, "name"@]
                &&& r@[0].affected_count == Some(700_000_000u64)
                &&& r@[0].source@ == "HaveIBeenPwned"@
                &&& r@[1].name@ == "Twitter"@ && r@[1].date@ == "2021-06-01"@
                &&& r@[1].exposed_data@.map_values(|s: String| s@) == seq!["email"@, "username"@]
                &&& r@[1].affected_count == Some(5_400_000u64)
                &&& r@[1].source@ == "HaveIBeenPwned"@
            },
    {
        let mut r: Vec<BreachData> = Vec::new();
        if has_suffix(&chars_of(email), &chars_of("@gmail.com")) {
            let mut first_data: Vec<String> = Vec::new();
            first_data.push(string_from("email"));
            first_data.push(string_from("name"));
            assert(first_data@.map_values(|s: String| s@) =~= seq!["email"@, "name"@]);
            r.push(
                BreachData {
                    name: string_from("LinkedIn"),
                    date: string_from("2021-06-21"),
                    exposed_data: first_data,
                    affected_count: Some(700_000_000),
                    source: string_from("HaveIBeenPwned"),
                },
            );
            let mut second_data: Vec<String> = Vec::new();
            second_data.push(string_from("email"));
            second_data.push(string_from("username"));
            assert(second_data@.map_values(|s: String| s@) =~= seq!["email"@, "username"@]);
            r.push(
                BreachData {
                    name: string_from("Twitter"),
                    date: string_from("2021-06-01"),
                    exposed_data: second_data,
                    affected_count: Some(5_400_000),
                    source: string_from("HaveIBeenPwned"),
                },
            );
        }
        r
    }

    /// The threat indicators the mock source reports for an address: the
    /// address seen in a breach (medium) for gmail.com, none otherwise.
    pub fn email_threats(&self, email: &str) -> (r: Vec<ThreatIndicator>)
        ensures
            !is_gmail(email@) ==> r@.len() == 0,
            is_gmail(email@) ==> {
                &&& r@.len() == 1
                &&& r@[0].indicator_type@ == "email_in_breach"@
                &&& r@[0].value@ == email@
                &&& r@[0].threat_level@ == "medium"@
                &&& r@[0].source@ == "ThreatFeed"@
                &&& r@[0].last_seen@ == "2026-08-24"@
            },
    {
        let mut r: Vec<ThreatIndicator> = Vec::new();
        if has_suffix(&chars_of(email), &chars_of("@gmail.com")) {
            r.push(
                ThreatIndicator {
                    indicator_type: string_from("email_in_breach"),
                    value: string_from(email),
                    threat_level: string_from("medium"),
                    source: string_from("ThreatFeed"),
                    last_seen: string_from("2026-08-24"),
                },
            );
        }
        r
    }

    /// The profile the mock source reports for a gmail.com address.
    pub fn email_profile(&self, email: &str) -> (r: Option<EmailProfile>)
        ensures
            !is_gmail(email@) ==> r is None,
            is_gmail(email@) ==> (r matches Some(p) && {
                &&& p.email@ == email@
                &&& p.domain@ == "gmail.com"@
                &&& (p.first_seen matches Some(f) && f@ == "2015-01-01"@)
                &&& p.associated_names@.len() == 1
                &&& p.associated_names@[0]@ == "Matthew Diegmann"@
                &&& p.associated_companies@.len() == 0
                &&& p.usage_context@ == "personal"@
            }),
    {
        if has_suffix(&chars_of(email), &chars_of("@gmail.com")) {
            let mut names: Vec<String> = Vec::new();
            names.push(string_from("Matthew Diegmann"));
            Some(
                EmailProfile {
                    email: string_from(email),
                    domain: string_from("gmail.com"),
                    first_seen: Some(string_from("2015-01-01")),
                    associated_names: names,
                    associated_companies: Vec::new(),
                    usage_context: string_from("personal"),
                },
            )
        } else {
            None
        }
    }
}

} // verus!
