use zeropi::config::default_model_config;
use zeropi::launch::llama_server_launch;
use zeropi::pi_config::pi_config_files;

#[test]
fn default_context_of_six_thousand_reaches_server_and_agent() {
    let model = default_model_config("nvidia-nemotron-3-nano-4b", &vec![], &vec![]);
    assert_eq!(model.ctx_size, 6000);
    let server = llama_server_launch("vulkan", true, "m.gguf", "127.0.0.1", 8080, model.ctx_size, model.n_gpu_layers, true)
        .ok()
        .unwrap();
    let c = server.args.iter().position(|a| a == "-c").unwrap();
    assert_eq!(server.args[c + 1], "6000");
    let files = pi_config_files("127.0.0.1", 8080, model.ctx_size, model.thinking);
    assert_eq!(files.models.models[0].context_window, 6000);
    assert_eq!(files.models.models[0].max_tokens, 3000);
    assert_eq!(files.settings.keep_recent_tokens, 3000);
}

#[test]
fn generated_config_is_not_reasoning_but_a_known_thinking_model_is() {
    let fresh = default_model_config("Qwen3-4B-Thinking-2507", &vec![], &vec![]);
    assert!(!fresh.thinking);
    assert!(!pi_config_files("127.0.0.1", 8080, fresh.ctx_size, fresh.thinking).models.models[0].reasoning);

    let mut known = fresh;
    known.thinking = true;
    let model = default_model_config("Qwen3-4B-Thinking-2507", &vec![], &vec![known]);
    assert!(model.thinking);
    assert!(pi_config_files("127.0.0.1", 8080, model.ctx_size, model.thinking).models.models[0].reasoning);
}
