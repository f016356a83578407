use zeropi::config::ModelConfig;
use zeropi::layout::{relative_path, Location};
use zeropi::setup::{auto_setup_step, needs_model_config, setup_target, SetupAction, SetupError, SetupStage};

fn model(url: &str) -> ModelConfig {
    ModelConfig {
        name: "m".to_string(),
        filename: "m.gguf".to_string(),
        download_url: url.to_string(),
        ctx_size: 6000,
        n_gpu_layers: 99,
        temperature_bits: 0,
        thinking: false,
    }
}

#[test]
fn fresh_install_runs_every_stage() {
    let cfg = model("https://example.org/m.gguf");
    let mut stage = SetupStage::Directories;
    let mut seen = Vec::new();
    for _ in 0..8 {
        let c = if needs_model_config(&stage) { Some(&cfg) } else { None };
        let (next, action) = auto_setup_step(&stage, "cpu", "m", false, c).ok().unwrap();
        seen.push(action);
        stage = next;
    }
    assert_eq!(stage, SetupStage::Complete);
    assert!(matches!(&seen[0], SetupAction::CreateDirectories(d) if d.len() == 3));
    assert!(matches!(&seen[1], SetupAction::InstallNode(u) if u == "https://nodejs.org/dist/v22.23.1/node-v22.23.1-win-x64.zip"));
    assert!(matches!(&seen[2], SetupAction::InstallPiAgent));
    assert!(matches!(&seen[3], SetupAction::InstallBackend(b) if b == "cpu"));
    assert!(matches!(&seen[4], SetupAction::GenerateModelConfig(m) if m == "m"));
    match &seen[5] {
        SetupAction::DownloadModel(u, loc) => {
            assert_eq!(u, "https://example.org/m.gguf");
            assert_eq!(relative_path(loc), vec!["gguf".to_string(), "m".to_string(), "m.gguf".to_string()]);
        }
        _ => panic!("expected a download"),
    }
    match &seen[6] {
        SetupAction::WriteSuiteConfig(c) => {
            assert_eq!(c.llama_port, 8080);
            assert_eq!(c.backend, "vulkan");
        }
        _ => panic!("expected the suite configuration"),
    }
    assert!(matches!(&seen[7], SetupAction::Finish));
}

#[test]
fn complete_install_keeps_everything() {
    let cfg = model("");
    let mut stage = SetupStage::Node;
    while stage != SetupStage::Complete {
        let c = if needs_model_config(&stage) { Some(&cfg) } else { None };
        let (next, action) = auto_setup_step(&stage, "vulkan", "m", true, c).ok().unwrap();
        assert!(matches!(
            action,
            SetupAction::KeepNode
                | SetupAction::KeepPiAgent
                | SetupAction::KeepBackend(_)
                | SetupAction::KeepModelConfig
                | SetupAction::KeepModelFile
                | SetupAction::KeepSuiteConfig
        ));
        stage = next;
    }
}

#[test]
fn missing_weights_without_url_stop_the_setup() {
    let cfg = model("");
    match auto_setup_step(&SetupStage::ModelFile, "cpu", "m", false, Some(&cfg)) {
        Err(SetupError::ModelFileMissing(f)) => assert_eq!(f, "m.gguf"),
        _ => panic!("expected the setup to stop"),
    }
}

#[test]
fn targets_of_the_stages() {
    let cfg = model("");
    let t = |s: SetupStage| setup_target(&s, "vulkan", "m", Some(&cfg)).map(|l| relative_path(&l));
    assert_eq!(t(SetupStage::Directories), None);
    assert_eq!(t(SetupStage::Complete), None);
    assert_eq!(t(SetupStage::LlamaBackend), Some(relative_path(&Location::ServerExe("vulkan".to_string()))));
    assert_eq!(t(SetupStage::ModelFile), Some(vec!["gguf".to_string(), "m".to_string(), "m.gguf".to_string()]));
    assert_eq!(t(SetupStage::SuiteConfig), Some(vec!["zeropi_config.json".to_string()]));
    assert!(needs_model_config(&SetupStage::ModelFile));
    assert!(!needs_model_config(&SetupStage::ModelConfig));
}
