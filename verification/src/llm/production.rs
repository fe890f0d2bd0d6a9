//! Deployment presets: model settings and pool, batch and timeout sizes per
//! deployment kind.

use vstd::prelude::*;
use crate::llm::config::{config_problem, has_settings, local_endpoint, LocalLLMConfig};
use crate::text::{chars_of, equal_chars, is_ascii_seq, lower_ascii, lower_ascii_seq, lowercase_of, to_lowercase, upper_ascii};

verus! {

broadcast use vstd::string::group_string_axioms;

/// Model settings tuned for each kind of deployment.
pub struct ProductionConfig;

impl ProductionConfig {
    /// Edge deployments and laptops: `qwen2.5-coder:1.5b`, 1024 tokens,
    /// temperature 0.3, 30 s, cached for 48 h, 2048 MB.
    pub fn edge() -> (c: LocalLLMConfig)
        ensures
            has_settings(c, local_endpoint(), "qwen2.5-coder:1.5b"@, 1024, 30, 30, 48, true, Some(2048)),
            config_problem(c) is None,
    {
        let mut c = LocalLLMConfig::ollama_lightweight();
        c.max_tokens = 1024;
        c.timeout_seconds = 30;
        c
    }

    /// Small teams: `mistral`, 2048 tokens, temperature 0.4, 60 s, cached
    /// for 24 h, 4096 MB.
    pub fn standard() -> (c: LocalLLMConfig)
        ensures
            has_settings(c, local_endpoint(), "mistral"@, 2048, 40, 60, 24, true, Some(4096)),
            config_problem(c) is None,
    {
        let mut c = LocalLLMConfig::ollama_detailed();
        c.max_tokens = 2048;
        c.timeout_seconds = 60;
        c
    }

    /// High-volume analysis: `mistral`, 4096 tokens, temperature 0.2, 120 s,
    /// cached for 72 h, 8192 MB.
    pub fn enterprise() -> (c: LocalLLMConfig)
        ensures
            has_settings(c, local_endpoint(), "mistral"@, 4096, 20, 120, 72, true, Some(8192)),
            config_problem(c) is None,
    {
        let mut c = LocalLLMConfig::ollama_detailed();
        c.temperature_hundredths = 20;
        c.timeout_seconds = 120;
        c.cache_ttl_hours = 72;
        c.min_ram_mb = Some(8192);
        c
    }

    /// Real-time SOC/CSIRT analysis: `qwen2.5-coder:1.5b`, 512 tokens,
    /// temperature 0.2, 15 s, cached for 24 h, 2048 MB.
    pub fn realtime() -> (c: LocalLLMConfig)
        ensures
            has_settings(c, local_endpoint(), "qwen2.5-coder:1.5b"@, 512, 20, 15, 24, true, Some(2048)),
            config_problem(c) is None,
    {
        let mut c = LocalLLMConfig::ollama_lightweight();
        c.max_tokens = 512;
        c.temperature_hundredths = 20;
        c.timeout_seconds = 15;
        c.cache_ttl_hours = 24;
        c
    }

    /// Bulk historical analysis: `mistral`, 8192 tokens, temperature 0.3,
    /// 300 s, cached for 168 h, 16384 MB.
    pub fn batch() -> (c: LocalLLMConfig)
        ensures
            has_settings(c, local_endpoint(), "mistral"@, 8192, 30, 300, 168, true, Some(16384)),
            config_problem(c) is None,
    {
        let mut c = LocalLLMConfig::ollama_detailed();
        c.max_tokens = 8192;
        c.temperature_hundredths = 30;
        c.timeout_seconds = 300;
        c.cache_ttl_hours = 168;
        c.min_ram_mb = Some(16384);
        c
    }
}

/// The model settings a deployment profile runs with, chosen by the profile's
/// lower-cased name; `None` for an unknown profile. Every preset passes
/// `LocalLLMConfig::validate`.
pub fn config_for_profile(profile_name: &str) -> (r: Option<LocalLLMConfig>)
    ensures
        r is Some <==> profile_settings(lowercase_of(profile_name@)) is Some,
        r matches Some(c) ==> config_problem(c) is None,
        lowercase_of(profile_name@) == "edge"@ ==> (r matches Some(c) && has_settings(
            c, local_endpoint(), "qwen2.5-coder:1.5b"@, 1024, 30, 30, 48, true, Some(2048),
        )),
        lowercase_of(profile_name@) == "standard"@ ==> (r matches Some(c) && has_settings(
            c, local_endpoint(), "mistral"@, 2048, 40, 60, 24, true, Some(4096),
        )),
        lowercase_of(profile_name@) == "enterprise"@ ==> (r matches Some(c) && has_settings(
            c, local_endpoint(), "mistral"@, 4096, 20, 120, 72, true, Some(8192),
        )),
        lowercase_of(profile_name@) == "realtime"@ ==> (r matches Some(c) && has_settings(
            c, local_endpoint(), "qwen2.5-coder:1.5b"@, 512, 20, 15, 24, true, Some(2048),
        )),
        lowercase_of(profile_name@) == "batch"@ ==> (r matches Some(c) && has_settings(
            c, local_endpoint(), "mistral"@, 8192, 30, 300, 168, true, Some(16384),
        )),
{
    proof {
        reveal_strlit("edge");
        reveal_strlit("standard");
        reveal_strlit("enterprise");
        reveal_strlit("realtime");
        reveal_strlit("batch");
        assert("standard"@.len() != "edge"@.len());
        assert("enterprise"@.len() != "edge"@.len() && "enterprise"@.len() != "standard"@.len());
        assert("realtime"@.len() != "edge"@.len() && "realtime"@[0] != "standard"@[0]);
        assert("realtime"@.len() != "enterprise"@.len());
    }
    let low = to_lowercase(profile_name);
    let n = chars_of(low.as_str());
    if spells(&n, "edge") {
        Some(ProductionConfig::edge())
    } else if spells(&n, "standard") {
        Some(ProductionConfig::standard())
    } else if spells(&n, "enterprise") {
        Some(ProductionConfig::enterprise())
    } else if spells(&n, "realtime") {
        Some(ProductionConfig::realtime())
    } else if spells(&n, "batch") {
        Some(ProductionConfig::batch())
    } else {
        None
    }
}

/// A named deployment profile.
pub struct DeploymentProfile {
    pub name: &'static str,
    pub description: &'static str,
    pub pool_size: usize,
    pub batch_size: usize,
    pub timeout_seconds: u32,
}

/// The profile names, in the order `all_profiles` lists them.
pub open spec fn profile_names() -> Seq<Seq<char>> {
    seq!["edge"@, "standard"@, "enterprise"@, "realtime"@, "batch"@]
}

/// The settings of the profile called `n` (already lower-cased): description,
/// pool size, batch size and timeout; `None` for an unknown name.
pub open spec fn profile_settings(n: Seq<char>) -> Option<(Seq<char>, usize, usize, u32)> {
    if n == "edge"@ {
        Some(("Edge deployment - minimal resources"@, 1usize, 5usize, 30u32))
    } else if n == "standard"@ {
        Some(("Standard deployment - balanced performance"@, 3usize, 10usize, 60u32))
    } else if n == "enterprise"@ {
        Some(("Enterprise deployment - high throughput"@, 5usize, 20usize, 120u32))
    } else if n == "realtime"@ {
        Some(("Real-time deployment - SOC/CSIRT operations"@, 8usize, 32usize, 15u32))
    } else if n == "batch"@ {
        Some(("Batch processing - historical analysis"@, 2usize, 100usize, 300u32))
    } else {
        None
    }
}

/// `p` is the profile called `n` with the settings of the table.
pub open spec fn is_profile(p: DeploymentProfile, n: Seq<char>) -> bool {
    match profile_settings(n) {
        Some((description, pool_size, batch_size, timeout_seconds)) => {
            &&& p.name@ == n
            &&& p.description@ == description
            &&& p.pool_size == pool_size
            &&& p.batch_size == batch_size
            &&& p.timeout_seconds == timeout_seconds
        },
        None => false,
    }
}

/// Whether the character vector `v` spells `name`.
fn spells(v: &Vec<char>, name: &str) -> (r: bool)
    ensures
        r == (v@ == name@),
{
    let w = chars_of(name);
    equal_chars(v, &w)
}

impl DeploymentProfile {
    /// The profile called `name`, ignoring case; `None` for an unknown name.
    pub fn get_profile(name: &str) -> (r: Option<Self>)
        ensures
            match r {
                Some(p) => is_profile(p, lowercase_of(name@)),
                None => profile_settings(lowercase_of(name@)) is None,
            },
            is_ascii_seq(name@) ==> match r {
                Some(p) => is_profile(p, lower_ascii_seq(name@)),
                None => profile_settings(lower_ascii_seq(name@)) is None,
            },
    {
        let low = to_lowercase(name);
        let n = chars_of(low.as_str());
        if spells(&n, "edge") {
            Some(
                DeploymentProfile {
                    name: "edge",
                    description: "Edge deployment - minimal resources",
                    pool_size: 1,
                    batch_size: 5,
                    timeout_seconds: 30,
                },
            )
        } else if spells(&n, "standard") {
            Some(
                DeploymentProfile {
                    name: "standard",
                    description: "Standard deployment - balanced performance",
                    pool_size: 3,
                    batch_size: 10,
                    timeout_seconds: 60,
                },
            )
        } else if spells(&n, "enterprise") {
            Some(
                DeploymentProfile {
                    name: "enterprise",
                    description: "Enterprise deployment - high throughput",
                    pool_size: 5,
                    batch_size: 20,
                    timeout_seconds: 120,
                },
            )
        } else if spells(&n, "realtime") {
            Some(
                DeploymentProfile {
                    name: "realtime",
                    description: "Real-time deployment - SOC/CSIRT operations",
                    pool_size: 8,
                    batch_size: 32,
                    timeout_seconds: 15,
                },
            )
        } else if spells(&n, "batch") {
            Some(
                DeploymentProfile {
                    name: "batch",
                    description: "Batch processing - historical analysis",
                    pool_size: 2,
                    batch_size: 100,
                    timeout_seconds: 300,
                },
            )
        } else {
            None
        }
    }

    /// The names of every profile.
    pub fn all_profiles() -> (r: Vec<&'static str>)
        ensures
            r@.map_values(|s: &'static str| s@) == profile_names(),
    {
        let r = vec!["edge", "standard", "enterprise", "realtime", "batch"];
        assert(r@.map_values(|s: &'static str| s@) =~= profile_names());
        r
    }
}

/// Every listed profile name is plain ASCII and names a profile, so
/// `get_profile` finds each of them.
pub proof fn lemma_listed_profiles_resolve()
    ensures
        forall|i: int|
            0 <= i < profile_names().len() ==> {
                &&& is_ascii_seq(#[trigger] profile_names()[i])
                &&& profile_settings(lower_ascii_seq(profile_names()[i])) is Some
            },
{
    reveal_strlit("edge");
    reveal_strlit("standard");
    reveal_strlit("enterprise");
    reveal_strlit("realtime");
    reveal_strlit("batch");
    assert(lower_ascii_seq("edge"@) =~= "edge"@);
    assert(lower_ascii_seq("standard"@) =~= "standard"@);
    assert(lower_ascii_seq("enterprise"@) =~= "enterprise"@);
    assert(lower_ascii_seq("realtime"@) =~= "realtime"@);
    assert(lower_ascii_seq("batch"@) =~= "batch"@);
}

/// Profile lookup ignores case: an all-ASCII name and its ASCII upper-casing
/// (what `str::to_uppercase` gives on ASCII) are both ASCII and name the same
/// profile, so `get_profile` returns the same profile for both; in
/// particular every listed name, upper-cased, still finds its profile.
pub proof fn lemma_profile_lookup_ignores_case(n: Seq<char>)
    requires
        is_ascii_seq(n),
    ensures
        is_ascii_seq(n.map_values(|c: char| upper_ascii(c))),
        lower_ascii_seq(n.map_values(|c: char| upper_ascii(c))) == lower_ascii_seq(n),
        profile_settings(lower_ascii_seq(n.map_values(|c: char| upper_ascii(c)))) == profile_settings(
            lower_ascii_seq(n),
        ),
        profile_names().contains(n) ==> profile_settings(
            lower_ascii_seq(n.map_values(|c: char| upper_ascii(c))),
        ) is Some,
{
    let u = n.map_values(|c: char| upper_ascii(c));
    assert forall|i: int| 0 <= i < u.len() implies (#[trigger] u[i] as u32) < 128 by {
        assert((n[i] as u32) < 128);
    }
    assert forall|i: int| 0 <= i < n.len() implies lower_ascii(#[trigger] u[i]) == lower_ascii(n[i]) by {
        let c = n[i];
        assert((c as u32) < 128);
        if 'a' <= c <= 'z' {
            assert(u[i] == ((c as u32) - 32) as char);
        } else if 'A' <= c <= 'Z' {
        } else {
        }
    }
    assert(lower_ascii_seq(u) =~= lower_ascii_seq(n));
    if profile_names().contains(n) {
        lemma_listed_profiles_resolve();
        let i = choose|i: int| 0 <= i < profile_names().len() && profile_names()[i] == n;
        assert(profile_settings(lower_ascii_seq(profile_names()[i])) is Some);
    }
}

/// ASCII upper-casing of a text (what `str::to_uppercase` gives on ASCII).
pub open spec fn upper_ascii_seq(s: Seq<char>) -> Seq<char> {
    s.map_values(|c: char| upper_ascii(c))
}

/// Every listed profile name, upper-cased as `str::to_uppercase` does on
/// ASCII, is still ASCII and lower-cases back to the listed name, which names
/// a profile: `get_profile` on the upper-cased name returns the profile of
/// that very name.
pub proof fn lemma_listed_profiles_resolve_upper_cased()
    ensures
        forall|i: int|
            0 <= i < profile_names().len() ==> {
                let u = upper_ascii_seq(#[trigger] profile_names()[i]);
                &&& is_ascii_seq(u)
                &&& lower_ascii_seq(u) == profile_names()[i]
                &&& profile_settings(profile_names()[i]) is Some
            },
{
    lemma_listed_profiles_resolve();
    assert forall|i: int| 0 <= i < profile_names().len() implies {
        let u = upper_ascii_seq(#[trigger] profile_names()[i]);
        &&& is_ascii_seq(u)
        &&& lower_ascii_seq(u) == profile_names()[i]
        &&& profile_settings(profile_names()[i]) is Some
    } by {
        let n = profile_names()[i];
        lemma_profile_lookup_ignores_case(n);
        reveal_strlit("edge");
        reveal_strlit("standard");
        reveal_strlit("enterprise");
        reveal_strlit("realtime");
        reveal_strlit("batch");
        assert(lower_ascii_seq("edge"@) =~= "edge"@);
        assert(lower_ascii_seq("standard"@) =~= "standard"@);
        assert(lower_ascii_seq("enterprise"@) =~= "enterprise"@);
        assert(lower_ascii_seq("realtime"@) =~= "realtime"@);
        assert(lower_ascii_seq("batch"@) =~= "batch"@);
    }
}

} // verus!
