//! Where each part of the suite lives, relative to the folder of the executable.

use vstd::prelude::*;
use vstd::string::*;

verus! {

/// A place in the suite's folder.
pub enum Location {
    /// `zeropi_config.json`, the suite configuration.
    SuiteConfig,
    /// `workspace`, the agent's home.
    Workspace,
    /// `llama`, the inference backends.
    Llama,
    /// `gguf`, the models.
    Gguf,
    /// `llama/<backend>`.
    BackendDir(String),
    /// `llama/<backend>/llama-server.exe`.
    ServerExe(String),
    /// `llama/<backend>/llama.zip`, the backend archive while it is set up.
    BackendZip(String),
    /// `workspace/node`, the portable Node.js runtime.
    NodeDir,
    /// `workspace/node/node.exe`.
    NodeExe,
    /// `workspace/node/npm.cmd`.
    NpmCmd,
    /// `workspace/node.zip`, the Node.js archive while it is set up.
    NodeZip,
    /// `workspace/temp_node_extract`, where the Node.js archive is unpacked first.
    NodeExtractDir,
    /// `workspace/node_modules/@earendil-works/pi-coding-agent`, the installed agent.
    PiAgentPackage,
    /// `workspace/home`, the agent's user profile.
    AgentHome,
    /// `workspace/home/.pi/agent`, the agent's settings folder.
    PiAgentDir,
    /// `workspace/home/.pi/agent/models.json`.
    PiModelsFile,
    /// `workspace/home/.pi/agent/settings.json`.
    PiSettingsFile,
    /// `workspace/run_pi.bat`, the agent launcher.
    LauncherScript,
    /// `workspace/project`, the agent's working folder.
    ProjectDir,
    /// `gguf/<model>`.
    ModelDir(String),
    /// `gguf/<model>/config.json`.
    ModelConfigFile(String),
    /// `gguf/<model>/<file>`, the model's weights.
    ModelFile(String, String),
}

/// The components of the path of `loc`, relative to the suite's folder.
pub open spec fn path_of(loc: Location) -> Seq<Seq<char>> {
    match loc {
        Location::SuiteConfig => seq!["zeropi_config.json"@],
        Location::Workspace => seq!["workspace"@],
        Location::Llama => seq!["llama"@],
        Location::Gguf => seq!["gguf"@],
        Location::BackendDir(b) => seq!["llama"@, b@],
        Location::ServerExe(b) => seq!["llama"@, b@, "llama-server.exe"@],
        Location::BackendZip(b) => seq!["llama"@, b@, "llama.zip"@],
        Location::NodeDir => seq!["workspace"@, "node"@],
        Location::NodeExe => seq!["workspace"@, "node"@, "node.exe"@],
        Location::NpmCmd => seq!["workspace"@, "node"@, "npm.cmd"@],
        Location::NodeZip => seq!["workspace"@, "node.zip"@],
        Location::NodeExtractDir => seq!["workspace"@, "temp_node_extract"@],
        Location::PiAgentPackage => seq![
            "workspace"@,
            "node_modules"@,
            "@earendil-works"@,
            "pi-coding-agent"@,
        ],
        Location::AgentHome => seq!["workspace"@, "home"@],
        Location::PiAgentDir => seq!["workspace"@, "home"@, ".pi"@, "agent"@],
        Location::PiModelsFile => seq!["workspace"@, "home"@, ".pi"@, "agent"@, "models.json"@],
        Location::PiSettingsFile => seq!["workspace"@, "home"@, ".pi"@, "agent"@, "settings.json"@],
        Location::LauncherScript => seq!["workspace"@, "run_pi.bat"@],
        Location::ProjectDir => seq!["workspace"@, "project"@],
        Location::ModelDir(m) => seq!["gguf"@, m@],
        Location::ModelConfigFile(m) => seq!["gguf"@, m@, "config.json"@],
        Location::ModelFile(m, f) => seq!["gguf"@, m@, f@],
    }
}

fn text(s: &str) -> (res: String)
    ensures
        res@ == s@,
{
    String::from_str(s)
}

/// The components of the path of `loc`, relative to the suite's folder.
pub fn relative_path(loc: &Location) -> (res: Vec<String>)
    ensures
        res.deep_view() == path_of(*loc),
{
    let res = match loc {
        Location::SuiteConfig => vec![text("zeropi_config.json")],
        Location::Workspace => vec![text("workspace")],
        Location::Llama => vec![text("llama")],
        Location::Gguf => vec![text("gguf")],
        Location::BackendDir(b) => vec![text("llama"), b.clone()],
        Location::ServerExe(b) => vec![text("llama"), b.clone(), text("llama-server.exe")],
        Location::BackendZip(b) => vec![text("llama"), b.clone(), text("llama.zip")],
        Location::NodeDir => vec![text("workspace"), text("node")],
        Location::NodeExe => vec![text("workspace"), text("node"), text("node.exe")],
        Location::NpmCmd => vec![text("workspace"), text("node"), text("npm.cmd")],
        Location::NodeZip => vec![text("workspace"), text("node.zip")],
        Location::NodeExtractDir => vec![text("workspace"), text("temp_node_extract")],
        Location::PiAgentPackage => vec![
            text("workspace"),
            text("node_modules"),
            text("@earendil-works"),
            text("pi-coding-agent"),
        ],
        Location::AgentHome => vec![text("workspace"), text("home")],
        Location::PiAgentDir => vec![text("workspace"), text("home"), text(".pi"), text("agent")],
        Location::PiModelsFile => vec![
            text("workspace"),
            text("home"),
            text(".pi"),
            text("agent"),
            text("models.json"),
        ],
        Location::PiSettingsFile => vec![
            text("workspace"),
            text("home"),
            text(".pi"),
            text("agent"),
            text("settings.json"),
        ],
        Location::LauncherScript => vec![text("workspace"), text("run_pi.bat")],
        Location::ProjectDir => vec![text("workspace"), text("project")],
        Location::ModelDir(m) => vec![text("gguf"), m.clone()],
        Location::ModelConfigFile(m) => vec![text("gguf"), m.clone(), text("config.json")],
        Location::ModelFile(m, f) => vec![text("gguf"), m.clone(), f.clone()],
    };
    assert(res.deep_view() =~= path_of(*loc));
    res
}

} // verus!
