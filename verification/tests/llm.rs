use huntsman::llm::batch::BatchResult;
use huntsman::llm::cache::ResponseCache;
use huntsman::llm::client::{estimate_tokens, extract_json_span, stand_in_completion};
use huntsman::llm::config::{validate_settings, LocalLLMConfig};
use huntsman::llm::engine::{entity_prompt, model_action, validation_prompt, ModelAction};
use huntsman::llm::error::LLMError;
use huntsman::llm::metrics::Metrics;
use huntsman::llm::production::{DeploymentProfile, ProductionConfig};
use huntsman::llm::prompts::AnalysisPrompts;
use huntsman::llm::types::{LLMResponse, TokenUsage};

fn response(content: &str) -> LLMResponse {
    LLMResponse {
        content: content.to_string(),
        usage: TokenUsage { prompt_tokens: 10, completion_tokens: 5, total_tokens: 15 },
        finish_reason: "stop".to_string(),
        model: "test-model".to_string(),
        latency_ms: 100,
    }
}

#[test]
fn test_entity_analysis_prompt() {
    let prompt = AnalysisPrompts::entity_analysis();
    assert!(prompt.contains("entity_summary"));
    assert!(prompt.contains("key_attributes"));
    assert!(prompt.contains("confidence_assessment"));
}

#[test]
fn test_correlation_analysis_prompt() {
    let prompt = AnalysisPrompts::correlation_analysis();
    assert!(prompt.contains("relationship_type"));
    assert!(prompt.contains("relationship_strength"));
}

#[test]
fn test_threat_assessment_prompt() {
    let prompt = AnalysisPrompts::threat_assessment();
    assert!(prompt.contains("threat_level"));
    assert!(prompt.contains("threat_vectors"));
}

#[test]
fn test_collection_strategy_prompt() {
    let prompt = AnalysisPrompts::collection_strategy();
    assert!(prompt.contains("priority_sources"));
    assert!(prompt.contains("collection_methods"));
}

#[test]
fn test_data_validation_prompt() {
    let prompt = AnalysisPrompts::data_validation();
    assert!(prompt.contains("accuracy_assessment"));
    assert!(prompt.contains("reliability_score"));
}

#[test]
fn test_deployment_profiles() {
    for profile_name in DeploymentProfile::all_profiles() {
        let profile = DeploymentProfile::get_profile(profile_name);
        assert!(profile.is_some());
    }
}

#[test]
fn test_invalid_profile() {
    let profile = DeploymentProfile::get_profile("invalid");
    assert!(profile.is_none());
}

#[test]
fn profile_lookup_ignores_case_and_carries_settings() {
    let p = DeploymentProfile::get_profile("RealTime").unwrap();
    assert_eq!(p.name, "realtime");
    assert_eq!(p.description, "Real-time deployment - SOC/CSIRT operations");
    assert_eq!((p.pool_size, p.batch_size, p.timeout_seconds), (8, 32, 15));
    let b = DeploymentProfile::get_profile("batch").unwrap();
    assert_eq!((b.pool_size, b.batch_size, b.timeout_seconds), (2, 100, 300));
}

#[test]
fn test_metrics_creation() {
    let metrics = Metrics::new();
    let stats = metrics.counts();
    assert_eq!(stats.requests_total, 0);
    assert_eq!(stats.requests_success, 0);
}

#[test]
fn test_metrics_record_success() {
    let mut metrics = Metrics::new();
    metrics.record_success(100, 50);
    let stats = metrics.counts();
    assert_eq!(stats.requests_total, 1);
    assert_eq!(stats.requests_success, 1);
    assert_eq!(stats.tokens_generated, 50);
    assert_eq!(stats.total_latency_ms, 100);
}

#[test]
fn test_metrics_success_rate() {
    let mut metrics = Metrics::new();
    metrics.record_success(100, 50);
    metrics.record_success(120, 60);
    metrics.record_error("network");
    let stats = metrics.counts();
    assert_eq!(stats.requests_total, 3);
    assert_eq!(stats.requests_success, 2);
    assert_eq!(stats.errors_network, 1);
    let success_rate = stats.requests_success as f64 / stats.requests_total as f64 * 100.0;
    assert!((success_rate - 66.66).abs() < 1.0);
}

#[test]
fn test_metrics_cache_rate() {
    let mut metrics = Metrics::new();
    metrics.record_cache_hit();
    metrics.record_cache_hit();
    metrics.record_cache_miss();
    let stats = metrics.counts();
    assert_eq!(stats.cache_hits, 2);
    assert_eq!(stats.cache_misses, 1);
    let rate = stats.cache_hits as f64 / (stats.cache_hits + stats.cache_misses) as f64 * 100.0;
    assert!((rate - 66.66).abs() < 1.0);
}

#[test]
fn test_metrics_reset() {
    let mut metrics = Metrics::new();
    metrics.record_success(100, 50);
    metrics.record_cache_hit();
    metrics.reset();
    let stats = metrics.counts();
    assert_eq!(stats.requests_total, 0);
    assert_eq!(stats.cache_hits, 0);
}

#[test]
fn metrics_totals_balance_successes_and_errors() {
    let mut metrics = Metrics::new();
    metrics.record_success(1, 1);
    metrics.record_error("parse");
    metrics.record_error("timeout");
    metrics.record_error("something else");
    let c = metrics.counts();
    assert_eq!(c.requests_total, c.requests_success + c.requests_error);
    assert_eq!((c.errors_parse, c.errors_timeout, c.errors_network), (1, 1, 0));
    let timer = metrics.record_request_start();
    timer.stop_success(&mut metrics, 7);
    let timer = metrics.record_request_start();
    timer.stop_error(&mut metrics, "network");
    let c = metrics.counts();
    assert_eq!(c.requests_total, 6);
    assert_eq!(c.tokens_generated, 8);
    assert_eq!(c.errors_network, 1);
}

fn temperature(c: &LocalLLMConfig) -> f32 {
    c.temperature_hundredths as f32 / 100.0
}

#[test]
fn mod_test_default_config() {
    let config = LocalLLMConfig::default();
    assert_eq!(config.endpoint, "http://localhost:11434");
    assert_eq!(config.model, "qwen2.5-coder:1.5b");
    assert_eq!(config.max_tokens, 4096);
    assert_eq!(temperature(&config), 0.7);
    assert!(config.cache_responses);
}

#[test]
fn test_config_validation_success() {
    let config = LocalLLMConfig::default();
    assert!(config.validate().is_ok());
}

#[test]
fn test_config_validation_empty_endpoint() {
    let mut config = LocalLLMConfig::default();
    config.endpoint = String::new();
    assert!(config.validate().is_err());
}

#[test]
fn test_config_validation_invalid_url() {
    let mut config = LocalLLMConfig::default();
    config.endpoint = "not-a-url".to_string();
    assert!(config.validate().is_err());
}

#[test]
fn test_config_validation_empty_model() {
    let mut config = LocalLLMConfig::default();
    config.model = String::new();
    assert!(config.validate().is_err());
}

#[test]
fn test_config_validation_temperature_too_low() {
    let mut config = LocalLLMConfig::default();
    config.temperature_hundredths = -50;
    assert!(config.validate().is_err());
}

#[test]
fn test_config_validation_temperature_too_high() {
    let mut config = LocalLLMConfig::default();
    config.temperature_hundredths = 250;
    assert!(config.validate().is_err());
}

#[test]
fn test_config_validation_max_tokens_too_low() {
    let mut config = LocalLLMConfig::default();
    config.max_tokens = 100;
    assert!(config.validate().is_err());
}

#[test]
fn test_config_validation_max_tokens_too_high() {
    let mut config = LocalLLMConfig::default();
    config.max_tokens = 50000;
    assert!(config.validate().is_err());
}

#[test]
fn test_lightweight_config() {
    let config = LocalLLMConfig::ollama_lightweight();
    assert_eq!(config.model, "qwen2.5-coder:1.5b");
    assert_eq!(config.max_tokens, 2048);
    assert_eq!(temperature(&config), 0.3);
    assert!(config.auto_pull_model);
    assert!(config.validate().is_ok());
}

#[test]
fn test_detailed_config() {
    let config = LocalLLMConfig::ollama_detailed();
    assert_eq!(config.model, "mistral");
    assert_eq!(config.max_tokens, 4096);
    assert_eq!(temperature(&config), 0.4);
    assert!(config.auto_pull_model);
    assert!(config.validate().is_ok());
}

#[test]
fn test_edge_config() {
    let config = ProductionConfig::edge();
    assert_eq!(config.model, "qwen2.5-coder:1.5b");
    assert_eq!(config.max_tokens, 1024);
    assert!(config.validate().is_ok());
}

#[test]
fn test_standard_config() {
    let config = ProductionConfig::standard();
    assert_eq!(config.model, "mistral");
    assert_eq!(config.max_tokens, 2048);
    assert!(config.validate().is_ok());
}

#[test]
fn test_enterprise_config() {
    let config = ProductionConfig::enterprise();
    assert_eq!(config.max_tokens, 4096);
    assert!(config.validate().is_ok());
}

#[test]
fn test_realtime_config() {
    let config = ProductionConfig::realtime();
    assert_eq!(config.timeout_seconds, 15);
    assert!(config.validate().is_ok());
}

#[test]
fn test_batch_config() {
    let config = ProductionConfig::batch();
    assert_eq!(config.max_tokens, 8192);
    assert!(config.validate().is_ok());
}

#[test]
fn presets_carry_their_settings() {
    let e = ProductionConfig::enterprise();
    assert_eq!((e.temperature_hundredths, e.timeout_seconds, e.cache_ttl_hours, e.min_ram_mb), (20, 120, 72, Some(8192)));
    let b = ProductionConfig::batch();
    assert_eq!((b.model.as_str(), b.cache_ttl_hours, b.min_ram_mb), ("mistral", 168, Some(16384)));
    let c = LocalLLMConfig::new("https://llm.internal", "neural-chat");
    assert_eq!((c.endpoint.as_str(), c.model.as_str(), c.max_tokens), ("https://llm.internal", "neural-chat", 4096));
    assert!(!c.auto_pull_model);
    let mut bad = LocalLLMConfig::default();
    bad.temperature_hundredths = 201;
    match bad.validate() {
        Err(LLMError::Configuration(m)) => assert_eq!(m, "Temperature must be between 0.0 and 2.0"),
        _ => panic!("expected a configuration error"),
    }
}

#[test]
fn config_errors_carry_their_messages() {
    match validate_settings("ftp://x", "m", true, 1024) {
        Err(LLMError::Configuration(m)) => assert_eq!(m, "Endpoint must be valid HTTP/HTTPS URL"),
        _ => panic!("expected a configuration error"),
    }
    let e = validate_settings("https://x", "m", true, 255).err().unwrap();
    assert_eq!(e.message(), "Configuration error: Max tokens must be between 256 and 32768");
}

#[test]
fn test_cache_storage_retrieval() {
    let mut cache = ResponseCache::new(1);
    cache.put("model", "prompt", 0.7f32.to_bits(), 1024, response("test"));
    let retrieved = cache.get("model", "prompt", 0.7f32.to_bits(), 1024);
    assert!(retrieved.is_some());
    assert_eq!(retrieved.unwrap().content, "test");
}

#[test]
fn test_cache_miss_different_params() {
    let mut cache = ResponseCache::new(1);
    cache.put("model", "prompt", 0.7f32.to_bits(), 1024, response("test"));
    let retrieved = cache.get("model", "different_prompt", 0.7f32.to_bits(), 1024);
    assert!(retrieved.is_none());
}

#[test]
fn test_cache_stats() {
    let mut cache = ResponseCache::new(1);
    cache.put("model", "prompt1", 0.7f32.to_bits(), 1024, response("test"));
    cache.put("model", "prompt2", 0.7f32.to_bits(), 1024, response("test"));
    let stats = cache.stats();
    assert_eq!(stats.total, 2);
    assert_eq!(stats.valid, 2);
    assert_eq!(stats.expired, 0);
}

#[test]
fn test_cache_clear() {
    let mut cache = ResponseCache::new(1);
    cache.put("model", "prompt", 0.7f32.to_bits(), 1024, response("test"));
    cache.clear();
    let stats = cache.stats();
    assert_eq!(stats.total, 0);
}

#[test]
fn cache_entries_expire_after_their_ttl() {
    let hour: u128 = 3_600_000_000_000;
    let mut cache = ResponseCache::new(1);
    cache.put_at("k", response("first"), 1_000);
    cache.put_at("k", response("second"), 2_000);
    cache.put_at("other", response("x"), 2_000);
    assert_eq!(cache.get_at("k", 2_000 + hour).unwrap().content, "second");
    assert!(cache.get_at("k", 2_001 + hour).is_none());
    assert!(cache.get_at("k", 1_999).is_none());
    let stats = cache.stats_at(2_001 + hour);
    assert_eq!((stats.total, stats.valid, stats.expired), (2, 0, 2));
    cache.put_at("fresh", response("y"), 10 * hour);
    cache.cleanup_expired_at(10 * hour);
    assert_eq!(cache.stats_at(10 * hour).total, 1);
    assert_eq!(cache.get_at("fresh", 10 * hour).unwrap().content, "y");
}

#[test]
fn engine_decides_model_availability() {
    let models = vec!["qwen".to_string(), "mistral".to_string()];
    assert!(matches!(model_action(true, &models, "mistral", "u", false), Ok(ModelAction::Ready)));
    assert!(matches!(model_action(true, &models, "llama", "u", true), Ok(ModelAction::Pull)));
    match model_action(false, &models, "mistral", "http://h", true) {
        Err(LLMError::ModelNotFound(m)) => assert_eq!(m, "Ollama not running at http://h"),
        _ => panic!("expected a missing server"),
    }
    match model_action(true, &models, "llama", "u", false) {
        Err(LLMError::ModelNotFound(m)) => assert_eq!(
            m,
            "Model 'llama' not found locally. Use auto_pull_model=true or run: ollama pull llama"
        ),
        _ => panic!("expected a missing model"),
    }
}

#[test]
fn engine_prompts_append_the_data() {
    let p = entity_prompt("alice@example.com");
    assert!(p.starts_with(AnalysisPrompts::entity_analysis()));
    assert!(p.ends_with("\n\nEntity data: alice@example.com"));
    let v = validation_prompt("d", "t");
    assert!(v.ends_with("\n\nType: t\n\nData: d"));
}

#[test]
fn json_span_is_cut_from_the_answer() {
    assert_eq!(extract_json_span("Sure! {\"a\": {\"b\": 1}} hope that helps").unwrap(), "{\"a\": {\"b\": 1}}");
    assert_eq!(extract_json_span("no json").unwrap_err(), "No JSON found in response");
    assert_eq!(extract_json_span("{ open").unwrap_err(), "No JSON found in response");
}

#[test]
fn stand_in_answers_follow_the_prompt() {
    assert!(stand_in_completion(AnalysisPrompts::entity_analysis()).contains("Analyzed entity"));
    assert!(stand_in_completion("relationship please").contains("associated_with"));
    assert!(stand_in_completion("threat?").contains("\"threat_level\": \"medium\""));
    assert_eq!(stand_in_completion("hello"), "Generated response from local LLM");
    assert_eq!(estimate_tokens("abcdefgh"), 3);
    assert_eq!(estimate_tokens(""), 1);
}

#[test]
fn batch_results_start_empty() {
    let r: BatchResult<u32> = BatchResult::new();
    assert!(r.successful.is_empty());
    assert!(r.failed.is_empty());
}

#[test]
fn every_listed_profile_resolves_upper_cased() {
    for name in DeploymentProfile::all_profiles() {
        let p = DeploymentProfile::get_profile(name).unwrap();
        assert_eq!(p.name, name);
        let q = DeploymentProfile::get_profile(&name.to_uppercase()).unwrap();
        assert_eq!(q.name, name);
        assert_eq!((q.pool_size, q.batch_size, q.timeout_seconds), (p.pool_size, p.batch_size, p.timeout_seconds));
    }
}

#[test]
fn profile_selection_picks_the_matching_preset() {
    let c = huntsman::llm::production::config_for_profile("Enterprise").unwrap();
    assert_eq!((c.model.as_str(), c.max_tokens, c.timeout_seconds), ("mistral", 4096, 120));
    assert!(c.validate().is_ok());
    let r = huntsman::llm::production::config_for_profile("realtime").unwrap();
    assert_eq!((r.model.as_str(), r.max_tokens, r.temperature_hundredths), ("qwen2.5-coder:1.5b", 512, 20));
    assert!(huntsman::llm::production::config_for_profile("turbo").is_none());
}
