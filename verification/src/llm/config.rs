//! Local-model configuration: its settings, presets and checks.

use vstd::prelude::*;
use crate::llm::error::LLMError;
use crate::text::{chars_of, has_prefix, starts_with, string_from};

verus! {

broadcast use vstd::string::group_string_axioms;

/// Why a configuration is refused, in the order the checks run; `None` when
/// it is accepted. The temperature check is passed in as a boolean: whether
/// the temperature lies within 0.0 and 2.0.
pub open spec fn settings_problem(
    endpoint: Seq<char>,
    model: Seq<char>,
    temperature_in_range: bool,
    max_tokens: u32,
) -> Option<Seq<char>> {
    if endpoint.len() == 0 {
        Some("Ollama endpoint cannot be empty"@)
    } else if !starts_with(endpoint, "http://"@) && !starts_with(endpoint, "https://"@) {
        Some("Endpoint must be valid HTTP/HTTPS URL"@)
    } else if model.len() == 0 {
        Some("Model name cannot be empty"@)
    } else if !temperature_in_range {
        Some("Temperature must be between 0.0 and 2.0"@)
    } else if max_tokens < 256 || max_tokens > 32768 {
        Some("Max tokens must be between 256 and 32768"@)
    } else {
        None
    }
}

/// Validates a local-model configuration: a non-empty HTTP(S) endpoint, a
/// model name, a temperature in range and a token limit between 256 and 32768.
/// The first failing check decides the configuration error.
pub fn validate_settings(endpoint: &str, model: &str, temperature_in_range: bool, max_tokens: u32) -> (r:
    Result<(), LLMError>)
    ensures
        match settings_problem(endpoint@, model@, temperature_in_range, max_tokens) {
            None => r is Ok,
            Some(msg) => r matches Err(LLMError::Configuration(m)) && m@ == msg,
        },
{
    let e = chars_of(endpoint);
    if e.len() == 0 {
        return Err(LLMError::Configuration(string_from("Ollama endpoint cannot be empty")));
    }
    if !has_prefix(&e, &chars_of("http://")) && !has_prefix(&e, &chars_of("https://")) {
        return Err(LLMError::Configuration(string_from("Endpoint must be valid HTTP/HTTPS URL")));
    }
    if model.is_empty() {
        return Err(LLMError::Configuration(string_from("Model name cannot be empty")));
    }
    if !temperature_in_range {
        return Err(LLMError::Configuration(string_from("Temperature must be between 0.0 and 2.0")));
    }
    if max_tokens < 256 || max_tokens > 32768 {
        return Err(LLMError::Configuration(string_from("Max tokens must be between 256 and 32768")));
    }
    Ok(())
}

/// The default local endpoint of an Ollama server.
pub open spec fn local_endpoint() -> Seq<char> {
    "http://localhost:11434"@
}

/// Settings for a local language-model server. The sampling temperature is
/// held in hundredths (`70` stands for `0.7`).
pub struct LocalLLMConfig {
    /// Ollama or local LLM server endpoint (e.g. `http://localhost:11434`).
    pub endpoint: String,
    /// Model identifier (e.g. `qwen2.5-coder:1.5b`, `mistral`).
    pub model: String,
    /// Maximum tokens to generate.
    pub max_tokens: u32,
    /// Temperature for generation, in hundredths (valid: 0 to 200).
    pub temperature_hundredths: i32,
    /// Request timeout in seconds.
    pub timeout_seconds: u32,
    /// Whether responses are cached locally.
    pub cache_responses: bool,
    /// Cache lifetime in hours.
    pub cache_ttl_hours: u32,
    /// Whether a missing model is pulled automatically.
    pub auto_pull_model: bool,
    /// RAM the model needs, in MB, when known.
    pub min_ram_mb: Option<u32>,
}

/// `c` holds exactly the given settings.
pub open spec fn has_settings(
    c: LocalLLMConfig,
    endpoint: Seq<char>,
    model: Seq<char>,
    max_tokens: u32,
    temperature_hundredths: i32,
    timeout_seconds: u32,
    cache_ttl_hours: u32,
    auto_pull_model: bool,
    min_ram_mb: Option<u32>,
) -> bool {
    &&& c.endpoint@ == endpoint
    &&& c.model@ == model
    &&& c.max_tokens == max_tokens
    &&& c.temperature_hundredths == temperature_hundredths
    &&& c.timeout_seconds == timeout_seconds
    &&& c.cache_responses
    &&& c.cache_ttl_hours == cache_ttl_hours
    &&& c.auto_pull_model == auto_pull_model
    &&& c.min_ram_mb == min_ram_mb
}

/// Whether a temperature in hundredths lies within 0.0 and 2.0.
pub open spec fn temperature_in_range(t: i32) -> bool {
    0 <= t <= 200
}

/// Why `c` is refused, or `None` when it is accepted.
pub open spec fn config_problem(c: LocalLLMConfig) -> Option<Seq<char>> {
    settings_problem(c.endpoint@, c.model@, temperature_in_range(c.temperature_hundredths), c.max_tokens)
}

/// The local endpoint with a named model, a temperature in range and a token
/// limit in range passes every check.
proof fn lemma_local_endpoint_accepted(model: Seq<char>, max_tokens: u32, t: i32)
    requires
        model.len() > 0,
        temperature_in_range(t),
        256 <= max_tokens <= 32768,
    ensures
        settings_problem(local_endpoint(), model, temperature_in_range(t), max_tokens) is None,
{
    reveal_strlit("http://localhost:11434");
    reveal_strlit("http://");
    assert(local_endpoint().subrange(0, 7) =~= "http://"@);
}

/// A configuration built from a preset.
fn preset(
    model: &str,
    max_tokens: u32,
    temperature_hundredths: i32,
    timeout_seconds: u32,
    cache_ttl_hours: u32,
    auto_pull_model: bool,
    min_ram_mb: u32,
) -> (c: LocalLLMConfig)
    ensures
        has_settings(
            c,
            local_endpoint(),
            model@,
            max_tokens,
            temperature_hundredths,
            timeout_seconds,
            cache_ttl_hours,
            auto_pull_model,
            Some(min_ram_mb),
        ),
{
    LocalLLMConfig {
        endpoint: string_from("http://localhost:11434"),
        model: string_from(model),
        max_tokens,
        temperature_hundredths,
        timeout_seconds,
        cache_responses: true,
        cache_ttl_hours,
        auto_pull_model,
        min_ram_mb: Some(min_ram_mb),
    }
}

impl Default for LocalLLMConfig {
    /// The local endpoint with `qwen2.5-coder:1.5b`: 4096 tokens, temperature
    /// 0.7, a 60 s timeout, caching for 24 h, no automatic pull, 2048 MB.
    fn default() -> (c: LocalLLMConfig)
        ensures
            has_settings(c, local_endpoint(), "qwen2.5-coder:1.5b"@, 4096, 70, 60, 24, false, Some(2048)),
            config_problem(c) is None,
    {
        let c = preset("qwen2.5-coder:1.5b", 4096, 70, 60, 24, false, 2048);
        proof {
            reveal_strlit("qwen2.5-coder:1.5b");
            lemma_local_endpoint_accepted(c.model@, 4096, 70);
        }
        c
    }
}

impl LocalLLMConfig {
    /// The default settings with another endpoint and model.
    pub fn new(endpoint: &str, model: &str) -> (c: LocalLLMConfig)
        ensures
            has_settings(c, endpoint@, model@, 4096, 70, 60, 24, false, Some(2048)),
    {
        let mut c = LocalLLMConfig::default();
        c.endpoint = string_from(endpoint);
        c.model = string_from(model);
        c
    }

    /// Lightweight OSINT analysis: `qwen2.5-coder:1.5b`, 2048 tokens,
    /// temperature 0.3, 45 s, cached for 48 h, pulled automatically, 2048 MB.
    pub fn ollama_lightweight() -> (c: LocalLLMConfig)
        ensures
            has_settings(c, local_endpoint(), "qwen2.5-coder:1.5b"@, 2048, 30, 45, 48, true, Some(2048)),
            config_problem(c) is None,
    {
        let c = preset("qwen2.5-coder:1.5b", 2048, 30, 45, 48, true, 2048);
        proof {
            reveal_strlit("qwen2.5-coder:1.5b");
            lemma_local_endpoint_accepted(c.model@, 2048, 30);
        }
        c
    }

    /// Detailed analysis: `mistral`, 4096 tokens, temperature 0.4, 90 s,
    /// cached for 24 h, pulled automatically, 4096 MB.
    pub fn ollama_detailed() -> (c: LocalLLMConfig)
        ensures
            has_settings(c, local_endpoint(), "mistral"@, 4096, 40, 90, 24, true, Some(4096)),
            config_problem(c) is None,
    {
        let c = preset("mistral", 4096, 40, 90, 24, true, 4096);
        proof {
            reveal_strlit("mistral");
            lemma_local_endpoint_accepted(c.model@, 4096, 40);
        }
        c
    }

    /// Checks the configuration: the first failing check decides the error.
    pub fn validate(&self) -> (r: Result<(), LLMError>)
        ensures
            match config_problem(*self) {
                None => r is Ok,
                Some(msg) => r matches Err(LLMError::Configuration(m)) && m@ == msg,
            },
    {
        let in_range = 0 <= self.temperature_hundredths && self.temperature_hundredths <= 200;
        validate_settings(self.endpoint.as_str(), self.model.as_str(), in_range, self.max_tokens)
    }
}

} // verus!
