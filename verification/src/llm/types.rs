//! Request and response records of the local-LLM integration.

use vstd::prelude::*;

verus! {

broadcast use vstd::string::group_string_axioms;

/// Token accounting of one generation.
#[derive(Debug, Clone, Copy, PartialEq, Eq, Structural)]
pub struct TokenUsage {
    pub prompt_tokens: u32,
    pub completion_tokens: u32,
    pub total_tokens: u32,
}

/// One generated response.
#[derive(Debug)]
pub struct LLMResponse {
    pub content: String,
    pub usage: TokenUsage,
    pub finish_reason: String,
    pub model: String,
    pub latency_ms: u32,
}

/// The content of a response as plain values.
pub struct LLMResponseView {
    pub content: Seq<char>,
    pub usage: TokenUsage,
    pub finish_reason: Seq<char>,
    pub model: Seq<char>,
    pub latency_ms: u32,
}

impl View for LLMResponse {
    type V = LLMResponseView;

    open spec fn view(&self) -> LLMResponseView {
        LLMResponseView {
            content: self.content@,
            usage: self.usage,
            finish_reason: self.finish_reason@,
            model: self.model@,
            latency_ms: self.latency_ms,
        }
    }
}

impl LLMResponse {
    /// A copy of this response with the same content.
    pub fn duplicate(&self) -> (r: Self)
        ensures
            r@ == self@,
    {
        LLMResponse {
            content: self.content.clone(),
            usage: self.usage,
            finish_reason: self.finish_reason.clone(),
            model: self.model.clone(),
            latency_ms: self.latency_ms,
        }
    }
}

/// A threat assessment returned by a model.
#[derive(Debug, Clone)]
pub struct ThreatAssessment {
    pub threat_level: String,
    pub threat_vectors: Vec<String>,
    pub vulnerability_assessment: Vec<String>,
    pub mitigation_recommendations: Vec<String>,
    pub monitoring_priorities: Vec<String>,
}

} // verus!
