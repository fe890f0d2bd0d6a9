//! The analysis prompts, tuned for small local models: each asks for one
//! JSON object with a fixed set of fields.

use vstd::prelude::*;

verus! {

/// The prompt texts.
pub struct AnalysisPrompts;

impl AnalysisPrompts {
    /// The text of the data validation prompt.
    pub open spec fn data_validation_spec() -> Seq<char> {
        "Validate this OSINT data for accuracy. Return ONLY valid JSON.

Return JSON with these exact fields:
{
  \"accuracy_assessment\": 0.0-1.0,
  \"reliability_score\": 0.0-1.0,
  \"inconsistencies\": [\"inconsistency1\"],
  \"verification_recommendations\": [\"check1\", \"check2\"],
  \"confidence_level\": 0.0-1.0
}"@
    }

    /// The text of the collection strategy prompt.
    pub open spec fn collection_strategy_spec() -> Seq<char> {
        "Recommend OSINT collection strategy for this target. Return ONLY valid JSON.

Return JSON with these exact fields:
{
  \"priority_sources\": [\"source1\", \"source2\"],
  \"collection_methods\": {\"source1\": [\"method1\", \"method2\"]},
  \"scheduling_recommendations\": {\"source1\": \"daily|weekly|monthly\"},
  \"resource_requirements\": [\"requirement1\"],
  \"success_probability\": 0.0-1.0
}"@
    }

    /// The text of the threat assessment prompt.
    pub open spec fn threat_assessment_spec() -> Seq<char> {
        "Assess threats from this OSINT data. Return ONLY valid JSON.

Return JSON with these exact fields:
{
  \"threat_level\": \"low|medium|high|critical\",
  \"threat_vectors\": [\"vector1\", \"vector2\"],
  \"vulnerability_assessment\": [\"vuln1\", \"vuln2\"],
  \"mitigation_recommendations\": [\"fix1\", \"fix2\"],
  \"monitoring_priorities\": [\"priority1\"]
}"@
    }

    /// The text of the correlation analysis prompt.
    pub open spec fn correlation_analysis_spec() -> Seq<char> {
        "Analyze the relationship between these two entities. Return ONLY valid JSON.

Return JSON with these exact fields:
{
  \"relationship_type\": \"owns|associated_with|connected_to\",
  \"relationship_strength\": 0.0-1.0,
  \"supporting_evidence\": [\"evidence1\", \"evidence2\"],
  \"confidence_score\": 0.0-1.0,
  \"intelligence_implications\": [\"implication1\"]
}"@
    }

    /// The text of the entity analysis prompt.
    pub open spec fn entity_analysis_spec() -> Seq<char> {
        "You are an OSINT analyst. Analyze this entity and return ONLY valid JSON.

Return JSON with these exact fields:
{
  \"entity_summary\": \"brief description\",
  \"key_attributes\": [\"attribute1\", \"attribute2\"],
  \"confidence_assessment\": 0.0-1.0,
  \"intelligence_value\": 0.0-1.0,
  \"recommendations\": [\"next step1\", \"next step2\"],
  \"potential_connections\": [\"connection1\"]
}"@
    }

    /// Entity analysis: a summary, key attributes, confidence, intelligence value, next steps and connections.
    pub fn entity_analysis() -> (r: &'static str)
        ensures
            r@ == Self::entity_analysis_spec(),
    {
        "You are an OSINT analyst. Analyze this entity and return ONLY valid JSON.

Return JSON with these exact fields:
{
  \"entity_summary\": \"brief description\",
  \"key_attributes\": [\"attribute1\", \"attribute2\"],
  \"confidence_assessment\": 0.0-1.0,
  \"intelligence_value\": 0.0-1.0,
  \"recommendations\": [\"next step1\", \"next step2\"],
  \"potential_connections\": [\"connection1\"]
}"
    }

    /// The relationship between two entities, its strength and the evidence for it.
    pub fn correlation_analysis() -> (r: &'static str)
        ensures
            r@ == Self::correlation_analysis_spec(),
    {
        "Analyze the relationship between these two entities. Return ONLY valid JSON.

Return JSON with these exact fields:
{
  \"relationship_type\": \"owns|associated_with|connected_to\",
  \"relationship_strength\": 0.0-1.0,
  \"supporting_evidence\": [\"evidence1\", \"evidence2\"],
  \"confidence_score\": 0.0-1.0,
  \"intelligence_implications\": [\"implication1\"]
}"
    }

    /// A threat assessment of collected data: level, vectors, weaknesses, mitigations.
    pub fn threat_assessment() -> (r: &'static str)
        ensures
            r@ == Self::threat_assessment_spec(),
    {
        "Assess threats from this OSINT data. Return ONLY valid JSON.

Return JSON with these exact fields:
{
  \"threat_level\": \"low|medium|high|critical\",
  \"threat_vectors\": [\"vector1\", \"vector2\"],
  \"vulnerability_assessment\": [\"vuln1\", \"vuln2\"],
  \"mitigation_recommendations\": [\"fix1\", \"fix2\"],
  \"monitoring_priorities\": [\"priority1\"]
}"
    }

    /// A collection strategy for a target: sources, methods, schedule, resources.
    pub fn collection_strategy() -> (r: &'static str)
        ensures
            r@ == Self::collection_strategy_spec(),
    {
        "Recommend OSINT collection strategy for this target. Return ONLY valid JSON.

Return JSON with these exact fields:
{
  \"priority_sources\": [\"source1\", \"source2\"],
  \"collection_methods\": {\"source1\": [\"method1\", \"method2\"]},
  \"scheduling_recommendations\": {\"source1\": \"daily|weekly|monthly\"},
  \"resource_requirements\": [\"requirement1\"],
  \"success_probability\": 0.0-1.0
}"
    }

    /// An accuracy check of collected data: accuracy, reliability, inconsistencies, checks.
    pub fn data_validation() -> (r: &'static str)
        ensures
            r@ == Self::data_validation_spec(),
    {
        "Validate this OSINT data for accuracy. Return ONLY valid JSON.

Return JSON with these exact fields:
{
  \"accuracy_assessment\": 0.0-1.0,
  \"reliability_score\": 0.0-1.0,
  \"inconsistencies\": [\"inconsistency1\"],
  \"verification_recommendations\": [\"check1\", \"check2\"],
  \"confidence_level\": 0.0-1.0
}"
    }
}

} // verus!
