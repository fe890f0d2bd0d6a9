//! The parts of the model clients that work on text: the request and reply
//! records of the Ollama API, locating the JSON object in a model's answer,
//! the offline stand-in completion, and the token estimate.

use vstd::prelude::*;
use crate::text::{chars_of, contains, contains_seq, copy_range, push_str, string_of};

verus! {

broadcast use vstd::string::group_string_axioms;

/// A generation request to Ollama's `/api/generate`.
#[derive(Debug)]
pub struct OllamaRequest {
    pub model: String,
    pub prompt: String,
    pub stream: bool,
}

/// A reply of Ollama's `/api/generate`.
#[derive(Debug)]
pub struct OllamaResponse {
    pub response: String,
    pub model: String,
    pub done: bool,
}

/// The position of the first `c` in `s`, if any.
pub open spec fn first_index(s: Seq<char>, c: char) -> Option<int> {
    if exists|i: int| 0 <= i < s.len() && s[i] == c {
        Some(choose|i: int| 0 <= i < s.len() && s[i] == c && forall|j: int| 0 <= j < i ==> s[j] != c)
    } else {
        None
    }
}

/// The position of the last `c` in `s`, if any.
pub open spec fn last_index(s: Seq<char>, c: char) -> Option<int> {
    if exists|i: int| 0 <= i < s.len() && s[i] == c {
        Some(choose|i: int| 0 <= i < s.len() && s[i] == c && forall|j: int| i < j < s.len() ==> s[j] != c)
    } else {
        None
    }
}

/// The text from the first `{` to the last `}` of `s`, both included; `None`
/// when either brace is missing.
pub open spec fn json_span(s: Seq<char>) -> Option<Seq<char>> {
    match (first_index(s, '{'), last_index(s, '}')) {
        (Some(a), Some(b)) => Some(s.subrange(a, b + 1)),
        _ => None,
    }
}

/// The answer holds a `}` before its first `{` and none after it, which the
/// slicing of the span cannot handle.
pub open spec fn braces_reversed(s: Seq<char>) -> bool {
    match (first_index(s, '{'), last_index(s, '}')) {
        (Some(a), Some(b)) => b < a,
        _ => false,
    }
}

/// Cuts the JSON object out of a model's answer, which may hold text around
/// it: from the first `{` to the last `}`. An answer without both braces is
/// refused with "No JSON found in response".
pub fn extract_json_span(response: &str) -> (r: Result<String, String>)
    requires
        !braces_reversed(response@),
    ensures
        match json_span(response@) {
            Some(span) => r matches Ok(t) && t@ == span,
            None => r matches Err(m) && m@ == "No JSON found in response"@,
        },
{
    let v = chars_of(response);
    let mut a: usize = 0;
    while a < v.len() && v[a] != '{'
        invariant
            a <= v@.len(),
            v@ == response@,
            forall|j: int| 0 <= j < a ==> v@[j] != '{',
        decreases v@.len() - a,
    {
        a = a + 1;
    }
    if a == v.len() {
        return Err(crate::text::string_from("No JSON found in response"));
    }
    proof {
        assert(first_index(response@, '{') == Some(a as int)) by {
            let c = choose|i: int| 0 <= i < v@.len() && v@[i] == '{' && forall|j: int| 0 <= j < i ==> v@[j] != '{';
            assert(v@[a as int] == '{');
            if c < a {
            } else if c > a {
            }
        }
    }
    let mut b: usize = v.len();
    while b > 0 && v[b - 1] != '}'
        invariant
            b <= v@.len(),
            v@ == response@,
            forall|j: int| b <= j < v@.len() ==> v@[j] != '}',
        decreases b,
    {
        b = b - 1;
    }
    if b == 0 {
        return Err(crate::text::string_from("No JSON found in response"));
    }
    proof {
        assert(last_index(response@, '}') == Some(b - 1)) by {
            let c = choose|i: int| 0 <= i < v@.len() && v@[i] == '}' && forall|j: int| i < j < v@.len() ==> v@[j] != '}';
            assert(v@[b - 1] == '}');
            if c < b - 1 {
            } else if c > b - 1 {
            }
        }
    }
    let span = copy_range(&v, a, b);
    Ok(string_of(&span))
}

/// The offline stand-in answer for a prompt: a canned entity, correlation or
/// threat JSON object chosen by what the prompt asks for, else plain text.
pub open spec fn stand_in_answer(prompt: Seq<char>) -> Seq<char> {
    if contains_seq(prompt, "entity_summary"@) {
        "{\"entity_summary\": \"Analyzed entity\", \"key_attributes\": [\"attr1\"], \"confidence_assessment\": 0.85, \"intelligence_value\": 0.8, \"recommendations\": [\"verify\"], \"potential_connections\": [\"connection\"]}"@
    } else if contains_seq(prompt, "relationship"@) {
        "{\"relationship_type\": \"associated_with\", \"relationship_strength\": 0.75, \"supporting_evidence\": [\"evidence1\"], \"confidence_score\": 0.8, \"intelligence_implications\": [\"implication\"]}"@
    } else if contains_seq(prompt, "threat"@) {
        "{\"threat_level\": \"medium\", \"threat_vectors\": [\"vector1\"], \"vulnerability_assessment\": [\"vuln1\"], \"mitigation_recommendations\": [\"fix1\"], \"monitoring_priorities\": [\"priority1\"]}"@
    } else {
        "Generated response from local LLM"@
    }
}

/// Answers a prompt without a model (the client's offline mode).
pub fn stand_in_completion(prompt: &str) -> (r: String)
    ensures
        r@ == stand_in_answer(prompt@),
{
    let p = chars_of(prompt);
    let mut r = String::new();
    if contains(&p, &chars_of("entity_summary")) {
        push_str(&mut r, "{\"entity_summary\": \"Analyzed entity\", \"key_attributes\": [\"attr1\"], \"confidence_assessment\": 0.85, \"intelligence_value\": 0.8, \"recommendations\": [\"verify\"], \"potential_connections\": [\"connection\"]}");
    } else if contains(&p, &chars_of("relationship")) {
        push_str(&mut r, "{\"relationship_type\": \"associated_with\", \"relationship_strength\": 0.75, \"supporting_evidence\": [\"evidence1\"], \"confidence_score\": 0.8, \"intelligence_implications\": [\"implication\"]}");
    } else if contains(&p, &chars_of("threat")) {
        push_str(&mut r, "{\"threat_level\": \"medium\", \"threat_vectors\": [\"vector1\"], \"vulnerability_assessment\": [\"vuln1\"], \"mitigation_recommendations\": [\"fix1\"], \"monitoring_priorities\": [\"priority1\"]}");
    } else {
        push_str(&mut r, "Generated response from local LLM");
    }
    assert(r@ =~= stand_in_answer(prompt@));
    r
}

/// A rough token count: one token per four bytes of UTF-8, plus one.
pub fn estimate_tokens(text: &str) -> (n: u32)
    requires
        ((text.len() / 4) as u32) < u32::MAX,
    ensures
        n == ((text.len() / 4) as u32) + 1,
{
    (text.len() / 4) as u32 + 1
}

} // verus!
