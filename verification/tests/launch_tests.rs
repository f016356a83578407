use zeropi::launch::{
    llama_server_launch, pi_agent_install, pi_agent_launch, strip_verbatim_prefix, LaunchError,
    CREATE_NEW_CONSOLE, CREATE_NO_WINDOW,
};
use zeropi::layout::{relative_path, Location};

fn strs(v: &[&str]) -> Vec<String> {
    v.iter().map(|s| s.to_string()).collect()
}

#[test]
fn server_command_line() {
    let l = llama_server_launch("cpu", true, "C:\\z\\gguf\\m\\m.gguf", "127.0.0.1", 8080, 6000, 99, true).unwrap();
    assert_eq!(relative_path(&l.exe), strs(&["llama", "cpu", "llama-server.exe"]));
    assert_eq!(
        l.args,
        strs(&["-m", "C:\\z\\gguf\\m\\m.gguf", "--host", "127.0.0.1", "--port", "8080", "-c", "6000", "-ngl", "99"])
    );
    assert_eq!(l.creation_flags, CREATE_NO_WINDOW);
    assert_eq!(CREATE_NO_WINDOW, 0x08000000);
    let shown = llama_server_launch("vulkan", true, "m", "h", 1, 2, 0, false).unwrap();
    assert_eq!(shown.creation_flags, CREATE_NEW_CONSOLE);
    assert_eq!(CREATE_NEW_CONSOLE, 0x10);
}

#[test]
fn missing_server_is_refused() {
    assert!(matches!(
        llama_server_launch("cpu", false, "m", "h", 1, 2, 3, true),
        Err(LaunchError::ServerMissing)
    ));
}

#[test]
fn agent_command_line() {
    let c = pi_agent_launch("C:\\z\\workspace\\home", "C:\\z\\workspace\\node", "C:\\Windows");
    assert_eq!(c.program, "cmd");
    assert_eq!(c.args, strs(&["/C", "..\\run_pi.bat"]));
    assert_eq!(
        c.env,
        vec![
            ("USERPROFILE".to_string(), "C:\\z\\workspace\\home".to_string()),
            ("HOME".to_string(), "C:\\z\\workspace\\home".to_string()),
            ("PATH".to_string(), "C:\\z\\workspace\\node;C:\\Windows".to_string()),
        ]
    );
    assert!(matches!(c.working_dir, Location::ProjectDir));
}

#[test]
fn npm_install_command_line() {
    let c = pi_agent_install("C:\\z\\workspace\\node\\npm.cmd");
    assert_eq!(c.program, "cmd");
    assert_eq!(
        c.args,
        strs(&["/C", "C:\\z\\workspace\\node\\npm.cmd", "install", "--ignore-scripts", "@earendil-works/pi-coding-agent"])
    );
    assert!(c.env.is_empty());
    assert!(matches!(c.working_dir, Location::Workspace));
}

#[test]
fn verbatim_prefix_is_stripped() {
    assert_eq!(strip_verbatim_prefix("\\\\?\\C:\\z\\home"), Some("C:\\z\\home".to_string()));
    assert_eq!(strip_verbatim_prefix("C:\\z\\home"), None);
    assert_eq!(strip_verbatim_prefix("\\\\?"), None);
    assert_eq!(strip_verbatim_prefix("\\\\?\\"), Some(String::new()));
}
