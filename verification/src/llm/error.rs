//! Errors of the local-LLM integration.

use vstd::prelude::*;
use crate::text::push_str;

verus! {

broadcast use vstd::string::group_string_axioms;

/// What went wrong talking to, or making sense of, a local model.
pub enum LLMError {
    Network(String),
    InvalidResponse(String),
    ParseError(String),
    ModelNotFound(String),
    Timeout(String),
    Configuration(String),
    ModelLoading(String),
}

/// The prefix that names an error's kind in its message.
pub open spec fn error_prefix(e: &LLMError) -> Seq<char> {
    match e {
        LLMError::Network(_) => "Network error: "@,
        LLMError::InvalidResponse(_) => "Invalid response: "@,
        LLMError::ParseError(_) => "Parse error: "@,
        LLMError::ModelNotFound(_) => "Model not found: "@,
        LLMError::Timeout(_) => "Timeout: "@,
        LLMError::Configuration(_) => "Configuration error: "@,
        LLMError::ModelLoading(_) => "Model loading error: "@,
    }
}

/// The detail carried by an error.
pub open spec fn error_detail(e: &LLMError) -> Seq<char> {
    match e {
        LLMError::Network(m) => m@,
        LLMError::InvalidResponse(m) => m@,
        LLMError::ParseError(m) => m@,
        LLMError::ModelNotFound(m) => m@,
        LLMError::Timeout(m) => m@,
        LLMError::Configuration(m) => m@,
        LLMError::ModelLoading(m) => m@,
    }
}

impl LLMError {
    /// The human-readable message: the kind's prefix followed by the detail.
    pub fn message(&self) -> (r: String)
        ensures
            r@ == error_prefix(self) + error_detail(self),
    {
        let mut out = String::new();
        let detail = match self {
            LLMError::Network(m) => {
                push_str(&mut out, "Network error: ");
                m
            },
            LLMError::InvalidResponse(m) => {
                push_str(&mut out, "Invalid response: ");
                m
            },
            LLMError::ParseError(m) => {
                push_str(&mut out, "Parse error: ");
                m
            },
            LLMError::ModelNotFound(m) => {
                push_str(&mut out, "Model not found: ");
                m
            },
            LLMError::Timeout(m) => {
                push_str(&mut out, "Timeout: ");
                m
            },
            LLMError::Configuration(m) => {
                push_str(&mut out, "Configuration error: ");
                m
            },
            LLMError::ModelLoading(m) => {
                push_str(&mut out, "Model loading error: ");
                m
            },
        };
        push_str(&mut out, detail.as_str());
        assert(out@ =~= error_prefix(self) + error_detail(self));
        out
    }
}

} // verus!
