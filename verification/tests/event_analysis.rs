use huntsman::event_analysis::OllamaClient;

#[test]
fn ollama_test_ollama_client_creation() {
    let client = OllamaClient::new();
    assert_eq!(client.model_name, "qwen2.5-coder:1.5b");
    assert_eq!(client.endpoint, "http://127.0.0.1:11434");
}

#[test]
fn test_custom_endpoint() {
    let client = OllamaClient::with_endpoint("http://localhost:8000".to_string(), "custom-model".to_string());
    assert_eq!(client.endpoint, "http://localhost:8000");
    assert_eq!(client.model_name, "custom-model");
}

#[test]
fn prompts_and_addresses() {
    let client = OllamaClient::default();
    let prompt = client.analysis_prompt("4625 burst", "domain controller");
    assert!(prompt.starts_with("Analyze this security event for threats."));
    assert!(prompt.ends_with("\n\nEvent: 4625 burst\nContext: domain controller\n\nReturn JSON:"));
    assert_eq!(
        client.rule_prompt("beaconing"),
        "Generate a Rust detection function for this threat. Return ONLY the Rust code without markdown or explanation.\n\nThreat Pattern: beaconing"
    );
    assert_eq!(client.generate_url(), "http://127.0.0.1:11434/api/generate");
    assert_eq!(client.tags_url(), "http://127.0.0.1:11434/api/tags");
}
