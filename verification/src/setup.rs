//! The auto-setup of the suite as a state machine: each stage looks at
//! whether its target is already present and either keeps it or says what to
//! install. The caller performs the actions and reports what it finds.

use vstd::prelude::*;
use vstd::string::*;
use crate::config::{ModelConfig, ZeroPiConfig, default_suite_config};
use crate::layout::{Location, path_of};

verus! {

/// The stages of the auto-setup, in the order they run.
#[derive(Debug, PartialEq, Eq, Structural, Clone, Copy)]
pub enum SetupStage {
    /// Create the workspace, llama and gguf folders.
    Directories,
    /// Install the portable Node.js runtime.
    Node,
    /// Install the Pi agent with npm.
    PiAgent,
    /// Install the llama.cpp server for the chosen backend.
    LlamaBackend,
    /// Write the default model's configuration.
    ModelConfig,
    /// Download the default model's weights.
    ModelFile,
    /// Write the suite configuration.
    SuiteConfig,
    /// Nothing is left to do.
    Complete,
}

/// The position of a stage in the run.
pub open spec fn stage_index(s: SetupStage) -> nat {
    match s {
        SetupStage::Directories => 0,
        SetupStage::Node => 1,
        SetupStage::PiAgent => 2,
        SetupStage::LlamaBackend => 3,
        SetupStage::ModelConfig => 4,
        SetupStage::ModelFile => 5,
        SetupStage::SuiteConfig => 6,
        SetupStage::Complete => 7,
    }
}

/// The stage that follows `s`; `Complete` stays `Complete`.
pub open spec fn stage_after(s: SetupStage) -> SetupStage {
    match s {
        SetupStage::Directories => SetupStage::Node,
        SetupStage::Node => SetupStage::PiAgent,
        SetupStage::PiAgent => SetupStage::LlamaBackend,
        SetupStage::LlamaBackend => SetupStage::ModelConfig,
        SetupStage::ModelConfig => SetupStage::ModelFile,
        SetupStage::ModelFile => SetupStage::SuiteConfig,
        SetupStage::SuiteConfig => SetupStage::Complete,
        SetupStage::Complete => SetupStage::Complete,
    }
}

/// The stage reached from `s` after `n` steps.
pub open spec fn advance(s: SetupStage, n: nat) -> SetupStage
    decreases n,
{
    if n == 0 {
        s
    } else {
        advance(stage_after(s), (n - 1) as nat)
    }
}

/// What a stage asks the caller to do.
pub enum SetupAction {
    /// Create these folders (and their parents) if missing.
    CreateDirectories(Vec<Location>),
    /// Download the Node.js archive from the URL into `workspace/node.zip`,
    /// unpack it flattened into `workspace/node`, and delete the archive.
    InstallNode(String),
    /// Node.js is already present.
    KeepNode,
    /// Install the Pi agent with npm.
    InstallPiAgent,
    /// The Pi agent is already installed.
    KeepPiAgent,
    /// Download and unpack the llama.cpp server for the backend.
    InstallBackend(String),
    /// The backend's server is already present.
    KeepBackend(String),
    /// Generate and save the configuration of the model.
    GenerateModelConfig(String),
    /// The model's configuration already exists.
    KeepModelConfig,
    /// Download the model's weights from the URL to the location.
    DownloadModel(String, Location),
    /// The model's weights are already present.
    KeepModelFile,
    /// Write this suite configuration.
    WriteSuiteConfig(ZeroPiConfig),
    /// The suite configuration already exists.
    KeepSuiteConfig,
    /// The setup is complete.
    Finish,
}

/// Why the auto-setup stops.
pub enum SetupError {
    /// The model's weights are missing and its configuration gives no URL to
    /// download them from; the user must place the file under this name.
    ModelFileMissing(String),
}

/// The Node.js release that is installed.
pub open spec fn node_archive_url() -> Seq<char> {
    "https://nodejs.org/dist/v22.23.1/node-v22.23.1-win-x64.zip"@
}

/// The folders created first.
pub open spec fn setup_directories() -> Seq<Location> {
    seq![Location::Workspace, Location::Llama, Location::Gguf]
}

/// What a stage checks for, as path components: `None` for the stages that
/// check nothing. The weights' file name comes from the model configuration.
pub open spec fn target_path(stage: SetupStage, backend: Seq<char>, model: Seq<char>, filename: Seq<char>) -> Option<Seq<Seq<char>>> {
    match stage {
        SetupStage::Node => Some(seq!["workspace"@, "node"@, "node.exe"@]),
        SetupStage::PiAgent => Some(seq!["workspace"@, "node_modules"@, "@earendil-works"@, "pi-coding-agent"@]),
        SetupStage::LlamaBackend => Some(seq!["llama"@, backend, "llama-server.exe"@]),
        SetupStage::ModelConfig => Some(seq!["gguf"@, model, "config.json"@]),
        SetupStage::ModelFile => Some(seq!["gguf"@, model, filename]),
        SetupStage::SuiteConfig => Some(seq!["zeropi_config.json"@]),
        _ => None,
    }
}

/// The action a stage takes, given whether its target exists and, for the
/// weights, the model configuration's file name and URL.
pub open spec fn action_fits(
    stage: SetupStage,
    action: SetupAction,
    backend: Seq<char>,
    model: Seq<char>,
    exists: bool,
    filename: Seq<char>,
    url: Seq<char>,
) -> bool {
    match stage {
        SetupStage::Directories => action matches SetupAction::CreateDirectories(v) && v@ == setup_directories(),
        SetupStage::Node => if exists {
            action is KeepNode
        } else {
            action matches SetupAction::InstallNode(u) && u@ == node_archive_url()
        },
        SetupStage::PiAgent => if exists {
            action is KeepPiAgent
        } else {
            action is InstallPiAgent
        },
        SetupStage::LlamaBackend => if exists {
            action matches SetupAction::KeepBackend(b) && b@ == backend
        } else {
            action matches SetupAction::InstallBackend(b) && b@ == backend
        },
        SetupStage::ModelConfig => if exists {
            action is KeepModelConfig
        } else {
            action matches SetupAction::GenerateModelConfig(m) && m@ == model
        },
        SetupStage::ModelFile => if exists {
            action is KeepModelFile
        } else {
            action matches SetupAction::DownloadModel(u, loc) && u@ == url && path_of(loc) == seq!["gguf"@, model, filename]
        },
        SetupStage::SuiteConfig => if exists {
            action is KeepSuiteConfig
        } else {
            action matches SetupAction::WriteSuiteConfig(c) && c@ == default_suite_config()
        },
        SetupStage::Complete => action is Finish,
    }
}

/// The action installs, downloads or writes something.
pub open spec fn performs_work(action: SetupAction) -> bool {
    match action {
        SetupAction::CreateDirectories(_) => true,
        SetupAction::InstallNode(_) => true,
        SetupAction::InstallPiAgent => true,
        SetupAction::InstallBackend(_) => true,
        SetupAction::GenerateModelConfig(_) => true,
        SetupAction::DownloadModel(_, _) => true,
        SetupAction::WriteSuiteConfig(_) => true,
        _ => false,
    }
}

/// The stage needs the model configuration (it looks for the weights).
pub fn needs_model_config(stage: &SetupStage) -> (res: bool)
    ensures
        res == (*stage == SetupStage::ModelFile),
{
    match stage {
        SetupStage::ModelFile => true,
        _ => false,
    }
}

/// What a stage checks for; the weights' location needs the model configuration.
pub fn setup_target(stage: &SetupStage, backend: &str, model: &str, config: Option<&ModelConfig>) -> (res: Option<Location>)
    requires
        *stage == SetupStage::ModelFile ==> config is Some,
    ensures
        match res {
            Some(loc) => target_path(*stage, backend@, model@, match config {
                Some(c) => c.filename@,
                None => Seq::empty(),
            }) == Some(path_of(loc)),
            None => target_path(*stage, backend@, model@, Seq::empty()) is None,
        },
{
    match stage {
        SetupStage::Node => Some(Location::NodeExe),
        SetupStage::PiAgent => Some(Location::PiAgentPackage),
        SetupStage::LlamaBackend => Some(Location::ServerExe(String::from_str(backend))),
        SetupStage::ModelConfig => Some(Location::ModelConfigFile(String::from_str(model))),
        SetupStage::ModelFile => match config {
            Some(c) => Some(Location::ModelFile(String::from_str(model), c.filename.clone())),
            None => None,
        },
        SetupStage::SuiteConfig => Some(Location::SuiteConfig),
        _ => None,
    }
}

/// One step of the auto-setup: from `stage`, knowing whether its target
/// exists (and, at the weights, the model configuration), the next stage and
/// the action to perform, or why the setup stops.
pub fn auto_setup_step(
    stage: &SetupStage,
    backend: &str,
    model: &str,
    target_exists: bool,
    config: Option<&ModelConfig>,
) -> (res: Result<(SetupStage, SetupAction), SetupError>)
    requires
        *stage == SetupStage::ModelFile ==> config is Some,
    ensures
        ({
            let filename = match config {
                Some(c) => c.filename@,
                None => Seq::empty(),
            };
            let url = match config {
                Some(c) => c.download_url@,
                None => Seq::empty(),
            };
            let stops = *stage == SetupStage::ModelFile && !target_exists && url.len() == 0;
            &&& stops ==> (res matches Err(SetupError::ModelFileMissing(f)) && f@ == filename)
            &&& !stops ==> (res matches Ok((next, action)) && next == stage_after(*stage) && action_fits(
                *stage,
                action,
                backend@,
                model@,
                target_exists,
                filename,
                url,
            ))
        }),
        *stage == SetupStage::ModelFile && !target_exists ==> match config {
            Some(c) => c.download_url@.len() != 0 ==> (res matches Ok((next, SetupAction::DownloadModel(u, loc)))
                && next == SetupStage::SuiteConfig && u@ == c.download_url@
                && path_of(loc) == seq!["gguf"@, model@, c.filename@]
                && target_path(SetupStage::ModelFile, backend@, model@, c.filename@) == Some(path_of(loc))),
            None => true,
        },
        *stage == SetupStage::ModelFile && target_exists ==> (res matches Ok((_, a)) && a is KeepModelFile),
        *stage != SetupStage::ModelFile ==> res is Ok,
        res matches Ok((next, action)) ==> {
            &&& *stage == SetupStage::Directories ==> next == SetupStage::Node
                && (action matches SetupAction::CreateDirectories(v)
                && v@ == seq![Location::Workspace, Location::Llama, Location::Gguf])
            &&& *stage == SetupStage::Node ==> next == SetupStage::PiAgent
                && (target_exists ==> action is KeepNode)
                && (!target_exists ==> (action matches SetupAction::InstallNode(u)
                && u@ == "https://nodejs.org/dist/v22.23.1/node-v22.23.1-win-x64.zip"@))
            &&& *stage == SetupStage::PiAgent ==> next == SetupStage::LlamaBackend
                && (target_exists ==> action is KeepPiAgent)
                && (!target_exists ==> action is InstallPiAgent)
            &&& *stage == SetupStage::LlamaBackend ==> next == SetupStage::ModelConfig
                && (target_exists ==> (action matches SetupAction::KeepBackend(b) && b@ == backend@))
                && (!target_exists ==> (action matches SetupAction::InstallBackend(b) && b@ == backend@))
            &&& *stage == SetupStage::ModelConfig ==> next == SetupStage::ModelFile
                && (target_exists ==> action is KeepModelConfig)
                && (!target_exists ==> (action matches SetupAction::GenerateModelConfig(m) && m@ == model@))
            &&& *stage == SetupStage::ModelFile ==> next == SetupStage::SuiteConfig
            &&& *stage == SetupStage::SuiteConfig ==> next == SetupStage::Complete
                && (target_exists ==> action is KeepSuiteConfig)
                && (!target_exists ==> (action matches SetupAction::WriteSuiteConfig(c)
                && c.default_model@ == "qwen3-1.7b"@ && c.llama_port == 8080 && c.llama_host@ == "127.0.0.1"@
                && c.backend@ == "vulkan"@ && c.hide_second_terminal))
            &&& *stage == SetupStage::Complete ==> next == SetupStage::Complete && action is Finish
        },
{
    match stage {
        SetupStage::Directories => {
            let dirs = vec![Location::Workspace, Location::Llama, Location::Gguf];
            assert(dirs@ =~= setup_directories());
            Ok((SetupStage::Node, SetupAction::CreateDirectories(dirs)))
        },
        SetupStage::Node => {
            let action = if target_exists {
                SetupAction::KeepNode
            } else {
                SetupAction::InstallNode(String::from_str("https://nodejs.org/dist/v22.23.1/node-v22.23.1-win-x64.zip"))
            };
            Ok((SetupStage::PiAgent, action))
        },
        SetupStage::PiAgent => {
            let action = if target_exists {
                SetupAction::KeepPiAgent
            } else {
                SetupAction::InstallPiAgent
            };
            Ok((SetupStage::LlamaBackend, action))
        },
        SetupStage::LlamaBackend => {
            let b = String::from_str(backend);
            let action = if target_exists {
                SetupAction::KeepBackend(b)
            } else {
                SetupAction::InstallBackend(b)
            };
            Ok((SetupStage::ModelConfig, action))
        },
        SetupStage::ModelConfig => {
            let action = if target_exists {
                SetupAction::KeepModelConfig
            } else {
                SetupAction::GenerateModelConfig(String::from_str(model))
            };
            Ok((SetupStage::ModelFile, action))
        },
        SetupStage::ModelFile => {
            let c = match config {
                Some(c) => c,
                None => {
                    proof {
                        assert(false);
                    }
                    return Ok((SetupStage::SuiteConfig, SetupAction::KeepModelFile));
                },
            };
            if target_exists {
                Ok((SetupStage::SuiteConfig, SetupAction::KeepModelFile))
            } else if c.download_url.as_str().unicode_len() == 0 {
                Err(SetupError::ModelFileMissing(c.filename.clone()))
            } else {
                let loc = Location::ModelFile(String::from_str(model), c.filename.clone());
                assert(path_of(loc) =~= seq!["gguf"@, model@, c.filename@]);
                Ok((SetupStage::SuiteConfig, SetupAction::DownloadModel(c.download_url.clone(), loc)))
            }
        },
        SetupStage::SuiteConfig => {
            let action = if target_exists {
                SetupAction::KeepSuiteConfig
            } else {
                SetupAction::WriteSuiteConfig(ZeroPiConfig::default())
            };
            Ok((SetupStage::Complete, action))
        },
        SetupStage::Complete => Ok((SetupStage::Complete, SetupAction::Finish)),
    }
}

/// Every stage but the last moves the setup one stage on, so from any stage
/// the setup reaches `Complete` after at most seven steps and stays there.
pub proof fn setup_reaches_completion(s: SetupStage)
    ensures
        s != SetupStage::Complete ==> stage_index(stage_after(s)) == stage_index(s) + 1,
        advance(s, (7 - stage_index(s)) as nat) == SetupStage::Complete,
        advance(SetupStage::Complete, 1) == SetupStage::Complete,
{
    reveal_with_fuel(advance, 8);
}

/// A stage that checks a target installs, downloads or writes something
/// exactly when that target is missing: nothing that exists is set up again.
pub proof fn setup_works_only_where_missing(
    stage: SetupStage,
    action: SetupAction,
    backend: Seq<char>,
    model: Seq<char>,
    exists: bool,
    filename: Seq<char>,
    url: Seq<char>,
)
    requires
        target_path(stage, backend, model, filename) is Some,
        action_fits(stage, action, backend, model, exists, filename, url),
    ensures
        performs_work(action) == !exists,
{
}

/// The weights are downloaded to exactly the file that the weights stage
/// checks: the model's folder, under the file name its configuration gives.
pub proof fn model_download_goes_where_checked(
    action: SetupAction,
    backend: Seq<char>,
    model: Seq<char>,
    filename: Seq<char>,
    url: Seq<char>,
)
    requires
        action_fits(SetupStage::ModelFile, action, backend, model, false, filename, url),
    ensures
        action matches SetupAction::DownloadModel(u, loc) && u@ == url
            && path_of(loc) == seq!["gguf"@, model, filename]
            && target_path(SetupStage::ModelFile, backend, model, filename) == Some(path_of(loc)),
{
}

} // verus!
