use zeropi::pi_config::{llama_base_url, pi_config_files};

#[test]
fn base_url() {
    assert_eq!(llama_base_url("127.0.0.1", 8080), "http://127.0.0.1:8080/v1");
    assert_eq!(llama_base_url("localhost", 0), "http://localhost:0/v1");
}

#[test]
fn six_thousand_token_context_keeps_three_thousand() {
    let f = pi_config_files("127.0.0.1", 8080, 6000, false);
    assert_eq!(f.models.provider, "local-llama");
    assert_eq!(f.models.base_url, "http://127.0.0.1:8080/v1");
    assert_eq!(f.models.api_key, "llama.cpp");
    assert_eq!(f.models.api, "openai-completions");
    assert_eq!(f.models.models.len(), 1);
    let m = &f.models.models[0];
    assert_eq!(m.id, "local-model");
    assert_eq!(m.name, "Local Llama Model");
    assert!(!m.reasoning);
    assert_eq!(m.input, vec!["text".to_string()]);
    assert_eq!(m.context_window, 6000);
    assert_eq!(m.max_tokens, 3000);
    assert_eq!(f.settings.default_model, "local-llama/local-model");
    assert_eq!(f.settings.enabled_models, vec!["local-llama/*".to_string()]);
    assert!(f.settings.skills_enabled);
    assert!(f.settings.compaction_enabled);
    assert_eq!(f.settings.keep_recent_tokens, 3000);
    assert_eq!(
        f.launcher,
        "@echo off\r\n\"%~dp0node\\node.exe\" \"%~dp0node_modules\\@earendil-works\\pi-coding-agent\\dist\\cli.js\"\r\n"
    );
}

#[test]
fn thinking_models_are_marked_reasoning() {
    let f = pi_config_files("0.0.0.0", 9000, 7, true);
    assert!(f.models.models[0].reasoning);
    assert_eq!(f.models.models[0].max_tokens, 3);
    assert_eq!(f.settings.keep_recent_tokens, 3);
    assert_eq!(f.models.base_url, "http://0.0.0.0:9000/v1");
}
