//! Which OSINT services are configured.

use vstd::prelude::*;
use crate::text::push_str;

verus! {

broadcast use vstd::string::group_string_axioms;

/// Keys and switches of the OSINT services.
#[derive(Debug, Clone)]
pub struct OsintApiConfig {
    pub virustotal_key: Option<String>,
    pub abuseipdb_key: Option<String>,
    pub haveibeenpwned_enabled: bool,
    pub use_mock_data: bool,
}

impl Default for OsintApiConfig {
    /// No keys, HaveIBeenPwned enabled, live data.
    fn default() -> (r: Self)
        ensures
            r.virustotal_key is None,
            r.abuseipdb_key is None,
            r.haveibeenpwned_enabled,
            !r.use_mock_data,
    {
        OsintApiConfig {
            virustotal_key: None,
            abuseipdb_key: None,
            haveibeenpwned_enabled: true,
            use_mock_data: false,
        }
    }
}

/// The status word of a configured or enabled service.
pub open spec fn mark(on: bool, yes: Seq<char>, no: Seq<char>) -> Seq<char> {
    if on {
        yes
    } else {
        no
    }
}

/// The configuration summary: a header, one line per service, a footer.
pub open spec fn summary_of(c: OsintApiConfig) -> Seq<char> {
    "=== OSINT API Configuration ===\n"@
        + "VirusTotal: "@ + mark(c.virustotal_key is Some, "✓ Configured"@, "✗ Not configured"@) + "\n"@
        + "AbuseIPDB: "@ + mark(c.abuseipdb_key is Some, "✓ Configured"@, "✗ Not configured"@) + "\n"@
        + "HaveIBeenPwned: "@ + mark(c.haveibeenpwned_enabled, "✓ Enabled"@, "✗ Disabled"@) + "\n"@
        + "Mock Data: "@ + mark(c.use_mock_data, "✓ Enabled"@, "✗ Disabled"@) + "\n"@
        + "===============================\n"@
}

impl OsintApiConfig {
    /// The same configuration with a VirusTotal key.
    pub fn with_virustotal_key(self, key: String) -> (r: Self)
        ensures
            r == (OsintApiConfig { virustotal_key: Some(key), ..self }),
    {
        OsintApiConfig { virustotal_key: Some(key), ..self }
    }

    /// The same configuration with an AbuseIPDB key.
    pub fn with_abuseipdb_key(self, key: String) -> (r: Self)
        ensures
            r == (OsintApiConfig { abuseipdb_key: Some(key), ..self }),
    {
        OsintApiConfig { abuseipdb_key: Some(key), ..self }
    }

    /// The same configuration with mock data switched on or off.
    pub fn with_mock_data(self, use_mock: bool) -> (r: Self)
        ensures
            r == (OsintApiConfig { use_mock_data: use_mock, ..self }),
    {
        OsintApiConfig { use_mock_data: use_mock, ..self }
    }

    /// The same configuration with HaveIBeenPwned switched on or off.
    pub fn with_hibp_enabled(self, enabled: bool) -> (r: Self)
        ensures
            r == (OsintApiConfig { haveibeenpwned_enabled: enabled, ..self }),
    {
        OsintApiConfig { haveibeenpwned_enabled: enabled, ..self }
    }

    /// A printable summary of which services are configured.
    pub fn get_summary(&self) -> (r: String)
        ensures
            r@ == summary_of(*self),
    {
        let mut s = String::new();
        push_str(&mut s, "=== OSINT API Configuration ===\n");
        push_str(&mut s, "VirusTotal: ");
        push_str(&mut s, if self.virustotal_key.is_some() { "✓ Configured" } else { "✗ Not configured" });
        push_str(&mut s, "\n");
        push_str(&mut s, "AbuseIPDB: ");
        push_str(&mut s, if self.abuseipdb_key.is_some() { "✓ Configured" } else { "✗ Not configured" });
        push_str(&mut s, "\n");
        push_str(&mut s, "HaveIBeenPwned: ");
        push_str(&mut s, if self.haveibeenpwned_enabled { "✓ Enabled" } else { "✗ Disabled" });
        push_str(&mut s, "\n");
        push_str(&mut s, "Mock Data: ");
        push_str(&mut s, if self.use_mock_data { "✓ Enabled" } else { "✗ Disabled" });
        push_str(&mut s, "\n");
        push_str(&mut s, "===============================\n");
        assert(s@ =~= summary_of(*self));
        s
    }
}

} // verus!
