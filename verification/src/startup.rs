//! What the launcher decides when it starts: whether the suite is installed
//! well enough to launch, or whether the auto-setup has to run first.

use vstd::prelude::*;
use crate::layout::{Location, path_of};
use crate::setup::{SetupStage, setup_directories, target_path};

verus! {

/// Which parts of the installation exist.
pub struct InstallProbe {
    /// `workspace`
    pub workspace: bool,
    /// `llama`
    pub llama: bool,
    /// `gguf`
    pub gguf: bool,
    /// `llama/<backend>/llama-server.exe`
    pub server_exe: bool,
    /// `workspace/node/node.exe`
    pub node_exe: bool,
    /// `workspace/node_modules/@earendil-works/pi-coding-agent`
    pub pi_agent: bool,
}

/// The paths the probe looks at for `backend`, in the order of its fields.
pub open spec fn probed_paths(backend: Seq<char>) -> Seq<Seq<Seq<char>>> {
    seq![
        seq!["workspace"@],
        seq!["llama"@],
        seq!["gguf"@],
        seq!["llama"@, backend, "llama-server.exe"@],
        seq!["workspace"@, "node"@, "node.exe"@],
        seq!["workspace"@, "node_modules"@, "@earendil-works"@, "pi-coding-agent"@],
    ]
}

/// Every part of the installation exists.
pub open spec fn structure_complete(p: InstallProbe) -> bool {
    p.workspace && p.llama && p.gguf && p.server_exe && p.node_exe && p.pi_agent
}

/// What the launcher does next.
#[derive(Debug, PartialEq, Eq, Structural, Clone, Copy)]
pub enum StartupDecision {
    /// Run the auto-setup, then stop.
    AutoSetup,
    /// Start the llama server and the agent.
    Launch,
}

/// Whether some part of the installation is missing.
pub fn structure_missing(probe: &InstallProbe) -> (res: bool)
    ensures
        res == !structure_complete(*probe),
        res == !(probe.workspace && probe.llama && probe.gguf && probe.server_exe && probe.node_exe
            && probe.pi_agent),
{
    !probe.workspace || !probe.llama || !probe.gguf || !probe.server_exe || !probe.node_exe
        || !probe.pi_agent
}

/// A model folder without a configuration gets a generated one, when the
/// models folder exists.
pub fn should_generate_model_config(model_config_exists: bool, gguf_exists: bool) -> (res: bool)
    ensures
        res == (!model_config_exists && gguf_exists),
{
    !model_config_exists && gguf_exists
}

/// Launch only when the installation is complete, the model configuration
/// loads and the model's weights exist; otherwise run the auto-setup.
pub fn startup_decision(probe: &InstallProbe, model_config_loaded: bool, model_file_exists: bool) -> (res: StartupDecision)
    ensures
        res == StartupDecision::Launch <==> (structure_complete(*probe) && model_config_loaded
            && model_file_exists),
        res == StartupDecision::Launch <==> (probe.workspace && probe.llama && probe.gguf && probe.server_exe
            && probe.node_exe && probe.pi_agent && model_config_loaded && model_file_exists),
{
    if structure_missing(probe) || !(model_config_loaded && model_file_exists) {
        StartupDecision::AutoSetup
    } else {
        StartupDecision::Launch
    }
}

/// Everything the launcher checks before it launches is made by the
/// auto-setup: a top folder is created by its first stage, and every other
/// checked path is the target of one of its stages.
pub proof fn setup_provides_what_startup_checks(backend: Seq<char>, model: Seq<char>, filename: Seq<char>, i: int)
    requires
        0 <= i < 6,
    ensures
        (exists|j: int| 0 <= j < 3 && path_of(#[trigger] setup_directories()[j]) == probed_paths(backend)[i])
            || (exists|s: SetupStage| #[trigger] target_path(s, backend, model, filename) == Some(probed_paths(backend)[i])),
{
    let p = probed_paths(backend);
    if i < 3 {
        assert(path_of(setup_directories()[i]) == p[i]);
    } else if i == 3 {
        assert(target_path(SetupStage::LlamaBackend, backend, model, filename) == Some(p[i]));
    } else if i == 4 {
        assert(target_path(SetupStage::Node, backend, model, filename) == Some(p[i]));
    } else {
        assert(target_path(SetupStage::PiAgent, backend, model, filename) == Some(p[i]));
    }
}

/// The installation counts as complete only when each probed part exists:
/// the three top folders, the backend's server, Node.js and the Pi agent.
pub proof fn complete_means_every_part_present(p: InstallProbe)
    ensures
        structure_complete(p) <==> (p.workspace && p.llama && p.gguf && p.server_exe && p.node_exe
            && p.pi_agent),
        !p.server_exe ==> !structure_complete(p),
{
}

} // verus!
