//! The local-model client of the detection catalog: its settings, the
//! prompts it sends to analyse a security event or draft a detection rule,
//! and the addresses of the model server it talks to.

use vstd::prelude::*;
use crate::text::{push_str, string_from};

verus! {

broadcast use vstd::string::group_string_axioms;

/// The model and server that security events are analysed with.
#[derive(Debug, Clone)]
pub struct OllamaClient {
    pub model_name: String,
    pub endpoint: String,
}

/// The prompt asking for a JSON analysis of an event in its context.
pub open spec fn analysis_prompt_text(event: Seq<char>, context: Seq<char>) -> Seq<char> {
    "Analyze this security event for threats. Return ONLY valid JSON with these fields: threat_type (string), confidence (0-1 float), reasoning (string), recommended_actions (string array).\n\nEvent: "@
        + event + "\nContext: "@ + context + "\n\nReturn JSON:"@
}

/// The prompt asking for a detection function for a threat pattern.
pub open spec fn rule_prompt_text(pattern: Seq<char>) -> Seq<char> {
    "Generate a Rust detection function for this threat. Return ONLY the Rust code without markdown or explanation.\n\nThreat Pattern: "@
        + pattern
}

impl OllamaClient {
    /// The default model on the local server.
    pub fn new() -> (r: Self)
        ensures
            r.model_name@ == "qwen2.5-coder:1.5b"@,
            r.endpoint@ == "http://127.0.0.1:11434"@,
    {
        OllamaClient { model_name: string_from("qwen2.5-coder:1.5b"), endpoint: string_from("http://127.0.0.1:11434") }
    }

    /// A model on a server of one's choice.
    pub fn with_endpoint(endpoint: String, model: String) -> (r: Self)
        ensures
            r.model_name == model,
            r.endpoint == endpoint,
    {
        OllamaClient { model_name: model, endpoint }
    }

    /// The prompt that analyses `event` in `context`.
    pub fn analysis_prompt(&self, event: &str, context: &str) -> (r: String)
        ensures
            r@ == analysis_prompt_text(event@, context@),
    {
        let mut r = string_from(
            "Analyze this security event for threats. Return ONLY valid JSON with these fields: threat_type (string), confidence (0-1 float), reasoning (string), recommended_actions (string array).\n\nEvent: ",
        );
        push_str(&mut r, event);
        push_str(&mut r, "\nContext: ");
        push_str(&mut r, context);
        push_str(&mut r, "\n\nReturn JSON:");
        r
    }

    /// The prompt that drafts a detection rule for `threat_pattern`.
    pub fn rule_prompt(&self, threat_pattern: &str) -> (r: String)
        ensures
            r@ == rule_prompt_text(threat_pattern@),
    {
        let mut r = string_from(
            "Generate a Rust detection function for this threat. Return ONLY the Rust code without markdown or explanation.\n\nThreat Pattern: ",
        );
        push_str(&mut r, threat_pattern);
        r
    }

    /// The server's generation address.
    pub fn generate_url(&self) -> (r: String)
        ensures
            r@ == self.endpoint@ + "/api/generate"@,
    {
        let mut r = string_from(self.endpoint.as_str());
        push_str(&mut r, "/api/generate");
        r
    }

    /// The server's model-list address, used as its health check.
    pub fn tags_url(&self) -> (r: String)
        ensures
            r@ == self.endpoint@ + "/api/tags"@,
    {
        let mut r = string_from(self.endpoint.as_str());
        push_str(&mut r, "/api/tags");
        r
    }
}

impl Default for OllamaClient {
    fn default() -> (r: Self)
        ensures
            r.model_name@ == "qwen2.5-coder:1.5b"@,
            r.endpoint@ == "http://127.0.0.1:11434"@,
    {
        Self::new()
    }
}

} // verus!
