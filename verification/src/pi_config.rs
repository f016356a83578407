//! The Pi agent's configuration: its model provider, its settings, and the
//! script that launches it from the portable Node.js runtime.

use vstd::prelude::*;
use vstd::string::*;
use crate::text::{decimal, decimal_string};

verus! {

/// One model of the provider in `models.json`.
pub struct PiModelEntry {
    pub id: String,
    pub name: String,
    /// The model emits reasoning output.
    pub reasoning: bool,
    /// The kinds of input the model takes.
    pub input: Vec<String>,
    /// Context window, in tokens.
    pub context_window: usize,
    /// Most tokens the agent asks for in one reply.
    pub max_tokens: usize,
}

/// The content of `models.json`: one OpenAI-compatible provider served by llama.cpp.
pub struct PiModelsConfig {
    /// The key of the provider under `providers`.
    pub provider: String,
    pub base_url: String,
    pub api_key: String,
    pub api: String,
    pub models: Vec<PiModelEntry>,
}

/// The content of `settings.json`.
pub struct PiSettings {
    pub default_model: String,
    pub enabled_models: Vec<String>,
    pub skills_enabled: bool,
    pub compaction_enabled: bool,
    /// Tokens kept unsummarized when the agent compacts its history.
    pub keep_recent_tokens: usize,
}

/// The three files that set up the agent.
pub struct PiConfigFiles {
    pub models: PiModelsConfig,
    pub settings: PiSettings,
    /// The text of `run_pi.bat`.
    pub launcher: String,
}

/// The OpenAI-compatible endpoint of the llama server at `host`:`port`.
pub open spec fn server_base_url(host: Seq<char>, port: u16) -> Seq<char> {
    "http://"@ + host + ":"@ + decimal(port as nat) + "/v1"@
}

/// The text of `run_pi.bat`: run the agent's CLI with the portable Node.js,
/// both found relative to the script's own folder.
pub open spec fn launcher_text() -> Seq<char> {
    "@echo off\r\n\"%~dp0node\\node.exe\" \"%~dp0node_modules\\@earendil-works\\pi-coding-agent\\dist\\cli.js\"\r\n"@
}

/// The agent's files for a llama server at `host`:`port` running a model with
/// a context window of `ctx_size` tokens.
pub open spec fn pi_files_fit(files: PiConfigFiles, host: Seq<char>, port: u16, ctx_size: usize, thinking: bool) -> bool {
    let m = files.models;
    let s = files.settings;
    &&& m.provider@ == "local-llama"@
    &&& m.base_url@ == server_base_url(host, port)
    &&& m.api_key@ == "llama.cpp"@
    &&& m.api@ == "openai-completions"@
    &&& m.models@.len() == 1
    &&& m.models@[0].id@ == "local-model"@
    &&& m.models@[0].name@ == "Local Llama Model"@
    &&& m.models@[0].reasoning == thinking
    &&& m.models@[0].input.deep_view() == seq!["text"@]
    &&& m.models@[0].context_window == ctx_size
    &&& m.models@[0].max_tokens == ctx_size / 2
    &&& s.default_model@ == m.provider@ + "/"@ + m.models@[0].id@
    &&& s.enabled_models.deep_view() == seq![m.provider@ + "/*"@]
    &&& s.skills_enabled
    &&& s.compaction_enabled
    &&& s.keep_recent_tokens == ctx_size / 2
    &&& files.launcher@ == launcher_text()
}

/// The endpoint URL of the llama server at `host`:`port`.
pub fn llama_base_url(host: &str, port: u16) -> (res: String)
    ensures
        res@ == server_base_url(host@, port),
        res@ == "http://"@ + host@ + ":"@ + decimal(port as nat) + "/v1"@,
{
    let port_text = decimal_string(port as u64);
    let res = String::from_str("http://").concat(host).concat(":").concat(port_text.as_str()).concat("/v1");
    res
}

/// The agent's `models.json`, `settings.json` and `run_pi.bat` for a llama
/// server at `host`:`port` with a context window of `ctx_size` tokens; the
/// model is marked as reasoning when `thinking` is set.
pub fn pi_config_files(host: &str, port: u16, ctx_size: usize, thinking: bool) -> (res: PiConfigFiles)
    ensures
        pi_files_fit(res, host@, port, ctx_size, thinking),
        res.models.base_url@ == "http://"@ + host@ + ":"@ + decimal(port as nat) + "/v1"@,
        res.models.models@.len() == 1,
        res.models.models@[0].reasoning == thinking,
        res.models.models@[0].context_window == ctx_size,
        res.models.models@[0].max_tokens == ctx_size / 2,
        res.settings.keep_recent_tokens == ctx_size / 2,
        res.settings.default_model@ == res.models.provider@ + "/"@ + res.models.models@[0].id@,
        res.settings.skills_enabled && res.settings.compaction_enabled,
{
    let provider = String::from_str("local-llama");
    let model_id = String::from_str("local-model");
    let half = ctx_size / 2;
    let default_model = provider.clone().concat("/").concat(model_id.as_str());
    let enabled = provider.clone().concat("/*");
    let entry = PiModelEntry {
        id: model_id,
        name: String::from_str("Local Llama Model"),
        reasoning: thinking,
        input: vec![String::from_str("text")],
        context_window: ctx_size,
        max_tokens: half,
    };
    let models = PiModelsConfig {
        provider,
        base_url: llama_base_url(host, port),
        api_key: String::from_str("llama.cpp"),
        api: String::from_str("openai-completions"),
        models: vec![entry],
    };
    let settings = PiSettings {
        default_model,
        enabled_models: vec![enabled],
        skills_enabled: true,
        compaction_enabled: true,
        keep_recent_tokens: half,
    };
    let launcher = String::from_str(
        "@echo off\r\n\"%~dp0node\\node.exe\" \"%~dp0node_modules\\@earendil-works\\pi-coding-agent\\dist\\cli.js\"\r\n",
    );
    let res = PiConfigFiles { models, settings, launcher };
    assert(res.models.models@[0].input.deep_view() =~= seq!["text"@]);
    assert(res.settings.enabled_models.deep_view() =~= seq![res.models.provider@ + "/*"@]);
    res
}

} // verus!
