use zeropi::layout::{relative_path, Location};

fn parts(v: &[&str]) -> Vec<String> {
    v.iter().map(|s| s.to_string()).collect()
}

#[test]
fn layout_of_the_suite() {
    assert_eq!(relative_path(&Location::SuiteConfig), parts(&["zeropi_config.json"]));
    assert_eq!(
        relative_path(&Location::ServerExe("vulkan".to_string())),
        parts(&["llama", "vulkan", "llama-server.exe"])
    );
    assert_eq!(relative_path(&Location::NodeExe), parts(&["workspace", "node", "node.exe"]));
    assert_eq!(
        relative_path(&Location::PiAgentPackage),
        parts(&["workspace", "node_modules", "@earendil-works", "pi-coding-agent"])
    );
    assert_eq!(
        relative_path(&Location::PiSettingsFile),
        parts(&["workspace", "home", ".pi", "agent", "settings.json"])
    );
    assert_eq!(
        relative_path(&Location::ModelFile("m".to_string(), "m.gguf".to_string())),
        parts(&["gguf", "m", "m.gguf"])
    );
    assert_eq!(relative_path(&Location::ModelConfigFile("m".to_string())), parts(&["gguf", "m", "config.json"]));
    assert_eq!(relative_path(&Location::LauncherScript), parts(&["workspace", "run_pi.bat"]));
    assert_eq!(relative_path(&Location::NodeExtractDir), parts(&["workspace", "temp_node_extract"]));
}
