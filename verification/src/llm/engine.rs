//! The decisions of the analysis engine: whether the configured model is
//! ready, must be pulled or is missing, and the prompt sent for each kind of
//! analysis. Requests to the model are made by the application.

use vstd::prelude::*;
use crate::llm::error::LLMError;
use crate::llm::prompts::AnalysisPrompts;
use crate::text::{chars_of, equal_chars, push_str};

verus! {

broadcast use vstd::string::group_string_axioms;

/// What to do before analysing with the configured model.
#[derive(Debug, Clone, Copy, PartialEq, Eq, Structural)]
pub enum ModelAction {
    /// The model is available locally.
    Ready,
    /// The model is missing and may be pulled.
    Pull,
}

/// Some entry of `names` is exactly `name`.
pub open spec fn listed(names: Seq<String>, name: Seq<char>) -> bool {
    exists|i: int| 0 <= i < names.len() && (#[trigger] names[i])@ == name
}

/// Decides whether the configured model can be used: the server must be up;
/// a model already available is ready; a missing one is pulled when automatic
/// pulls are on, and reported otherwise.
pub fn model_action(healthy: bool, available: &Vec<String>, model: &str, base_url: &str, auto_pull: bool) -> (r:
    Result<ModelAction, LLMError>)
    ensures
        !healthy ==> (r matches Err(LLMError::ModelNotFound(m)) && m@ == "Ollama not running at "@ + base_url@),
        healthy && listed(available@, model@) ==> r == Ok::<ModelAction, LLMError>(ModelAction::Ready),
        healthy && !listed(available@, model@) && auto_pull ==> r == Ok::<ModelAction, LLMError>(ModelAction::Pull),
        healthy && !listed(available@, model@) && !auto_pull ==> (r matches Err(LLMError::ModelNotFound(m)) && m@
            == "Model '"@ + model@ + "' not found locally. Use auto_pull_model=true or run: ollama pull "@ + model@),
{
    if !healthy {
        let mut m = String::new();
        push_str(&mut m, "Ollama not running at ");
        push_str(&mut m, base_url);
        return Err(LLMError::ModelNotFound(m));
    }
    let want = chars_of(model);
    let mut i: usize = 0;
    while i < available.len()
        invariant
            i <= available@.len(),
            healthy,
            want@ == model@,
            forall|j: int| 0 <= j < i ==> (#[trigger] available@[j])@ != model@,
        decreases available@.len() - i,
    {
        if equal_chars(&chars_of(available[i].as_str()), &want) {
            return Ok(ModelAction::Ready);
        }
        i = i + 1;
    }
    if auto_pull {
        Ok(ModelAction::Pull)
    } else {
        let mut m = String::new();
        push_str(&mut m, "Model '");
        push_str(&mut m, model);
        push_str(&mut m, "' not found locally. Use auto_pull_model=true or run: ollama pull ");
        push_str(&mut m, model);
        Err(LLMError::ModelNotFound(m))
    }
}

/// The entity-analysis request: the prompt, then the entity data.
pub fn entity_prompt(entity_data: &str) -> (r: String)
    ensures
        r@ == AnalysisPrompts::entity_analysis_spec() + "\n\nEntity data: "@ + entity_data@,
{
    let mut r = String::new();
    push_str(&mut r, AnalysisPrompts::entity_analysis());
    push_str(&mut r, "\n\nEntity data: ");
    push_str(&mut r, entity_data);
    r
}

/// The correlation request: the prompt, then both entities.
pub fn correlation_prompt(entity1_data: &str, entity2_data: &str) -> (r: String)
    ensures
        r@ == AnalysisPrompts::correlation_analysis_spec() + "\n\nEntity 1: "@ + entity1_data@ + "\n\nEntity 2: "@
            + entity2_data@,
{
    let mut r = String::new();
    push_str(&mut r, AnalysisPrompts::correlation_analysis());
    push_str(&mut r, "\n\nEntity 1: ");
    push_str(&mut r, entity1_data);
    push_str(&mut r, "\n\nEntity 2: ");
    push_str(&mut r, entity2_data);
    r
}

/// The threat-assessment request: the prompt, then the data.
pub fn threat_prompt(entities_data: &str) -> (r: String)
    ensures
        r@ == AnalysisPrompts::threat_assessment_spec() + "\n\nData: "@ + entities_data@,
{
    let mut r = String::new();
    push_str(&mut r, AnalysisPrompts::threat_assessment());
    push_str(&mut r, "\n\nData: ");
    push_str(&mut r, entities_data);
    r
}

/// The collection-strategy request: the prompt, then the target.
pub fn collection_prompt(target_profile: &str) -> (r: String)
    ensures
        r@ == AnalysisPrompts::collection_strategy_spec() + "\n\nTarget: "@ + target_profile@,
{
    let mut r = String::new();
    push_str(&mut r, AnalysisPrompts::collection_strategy());
    push_str(&mut r, "\n\nTarget: ");
    push_str(&mut r, target_profile);
    r
}

/// The data-validation request: the prompt, the data type, then the data.
pub fn validation_prompt(data: &str, data_type: &str) -> (r: String)
    ensures
        r@ == AnalysisPrompts::data_validation_spec() + "\n\nType: "@ + data_type@ + "\n\nData: "@ + data@,
{
    let mut r = String::new();
    push_str(&mut r, AnalysisPrompts::data_validation());
    push_str(&mut r, "\n\nType: ");
    push_str(&mut r, data_type);
    push_str(&mut r, "\n\nData: ");
    push_str(&mut r, data);
    r
}

} // verus!
