use zeropi::startup::{should_generate_model_config, startup_decision, structure_missing, InstallProbe, StartupDecision};

fn probe(all: bool) -> InstallProbe {
    InstallProbe { workspace: all, llama: all, gguf: all, server_exe: all, node_exe: all, pi_agent: all }
}

#[test]
fn launch_only_when_everything_is_there() {
    assert_eq!(startup_decision(&probe(true), true, true), StartupDecision::Launch);
    assert_eq!(startup_decision(&probe(true), true, false), StartupDecision::AutoSetup);
    assert_eq!(startup_decision(&probe(true), false, true), StartupDecision::AutoSetup);
    let mut p = probe(true);
    p.pi_agent = false;
    assert!(structure_missing(&p));
    assert_eq!(startup_decision(&p, true, true), StartupDecision::AutoSetup);
    assert!(!structure_missing(&probe(true)));
    assert!(structure_missing(&probe(false)));
}

#[test]
fn model_config_is_generated_only_inside_an_existing_models_folder() {
    assert!(should_generate_model_config(false, true));
    assert!(!should_generate_model_config(false, false));
    assert!(!should_generate_model_config(true, true));
}
