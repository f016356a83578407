use zeropi::config::{
    default_model_config, find_model_defaults, first_gguf_file, is_gguf_file,
    model_config_from, ModelConfig, ModelDirEntry, ZeroPiConfig,
};

fn entry(is_file: bool, name: &str) -> ModelDirEntry {
    ModelDirEntry { is_file, file_name: Some(name.to_string()) }
}

fn known(name: &str, filename: &str, thinking: bool) -> ModelConfig {
    ModelConfig {
        name: name.to_string(),
        filename: filename.to_string(),
        download_url: format!("https://example.org/{}", filename),
        ctx_size: 8192,
        n_gpu_layers: 40,
        temperature_bits: 0.6f32.to_bits(),
        thinking,
    }
}

#[test]
fn default_suite_configuration() {
    let c = ZeroPiConfig::default();
    assert_eq!(c.default_model, "qwen3-1.7b");
    assert_eq!(c.llama_port, 8080);
    assert_eq!(c.llama_host, "127.0.0.1");
    assert_eq!(c.backend, "vulkan");
    assert!(c.hide_second_terminal);
}

#[test]
fn gguf_detection_follows_path_extension() {
    assert!(is_gguf_file(&entry(true, "model.gguf")));
    assert!(is_gguf_file(&entry(true, "a.b.gguf")));
    assert!(!is_gguf_file(&entry(true, ".gguf")));
    assert!(!is_gguf_file(&entry(true, "model.GGUF")));
    assert!(!is_gguf_file(&entry(false, "dir.gguf")));
    assert!(!is_gguf_file(&entry(true, "model.gguf.part")));
    assert!(!is_gguf_file(&ModelDirEntry { is_file: true, file_name: None }));
}

#[test]
fn first_gguf_in_listing_order() {
    let entries = vec![
        entry(true, "config.json"),
        entry(false, "sub.gguf"),
        entry(true, "first.gguf"),
        entry(true, "second.gguf"),
    ];
    assert_eq!(first_gguf_file(&entries), Some("first.gguf".to_string()));
    assert_eq!(first_gguf_file(&vec![entry(true, "readme.md")]), None);
    assert_eq!(first_gguf_file(&vec![]), None);
}

#[test]
fn known_defaults_are_found_by_exact_name() {
    let defaults = vec![known("a", "a.gguf", false), known("b", "b1.gguf", false), known("b", "b2.gguf", true)];
    let found = find_model_defaults(&defaults, "b").unwrap();
    assert_eq!(found.filename, "b1.gguf");
    assert!(find_model_defaults(&defaults, "B").is_none());
    assert!(find_model_defaults(&defaults, "c").is_none());
}

#[test]
fn fresh_config_for_unknown_model() {
    let c = default_model_config("My-Thinking-Model", &vec![], &vec![]);
    assert_eq!(c.name, "My-Thinking-Model");
    assert_eq!(c.filename, "My-Thinking-Model.gguf");
    assert_eq!(c.download_url, "");
    assert_eq!(c.ctx_size, 6000);
    assert_eq!(c.n_gpu_layers, 99);
    assert_eq!(c.temperature_bits, 0.0f32.to_bits());
    assert!(!c.thinking);

    let plain = default_model_config("tiny", &vec![entry(true, "tiny-q4.gguf")], &vec![]);
    assert_eq!(plain.filename, "tiny-q4.gguf");
    assert!(!plain.thinking);
}

#[test]
fn known_model_keeps_its_defaults_but_takes_the_found_file() {
    let defaults = vec![known("nemotron", "Nemotron-Q4.gguf", false)];
    let c = default_model_config("nemotron", &vec![entry(true, "local.gguf")], &defaults);
    assert_eq!(c.filename, "local.gguf");
    assert_eq!(c.download_url, "https://example.org/Nemotron-Q4.gguf");
    assert_eq!(c.ctx_size, 8192);
    assert_eq!(c.n_gpu_layers, 40);
    assert_eq!(c.temperature_bits, 0.6f32.to_bits());

    let same = default_model_config("nemotron", &vec![], &defaults);
    assert_eq!(same.filename, "Nemotron-Q4.gguf");
}

#[test]
fn thinking_is_off_unless_known() {
    let c = model_config_from("qwen3-4b-thinking", None, None);
    assert!(!c.thinking);
    assert_eq!(c.filename, "qwen3-4b-thinking.gguf");
    let k = model_config_from("k", Some("f.gguf".to_string()), Some(known("k", "g.gguf", true)));
    assert_eq!(k.filename, "f.gguf");
    assert!(k.thinking);
}
