//! The suite configuration and the per-model configuration, and how a model
//! configuration is generated for a model folder that has none.

use vstd::prelude::*;
use vstd::string::*;
use crate::text::{ends_with_text, has_suffix, same_text};

verus! {

/// The suite configuration kept in `zeropi_config.json`.
pub struct ZeroPiConfig {
    /// Folder name under `gguf/` of the model to run.
    pub default_model: String,
    /// Port the llama server listens on.
    pub llama_port: u16,
    /// Host the llama server binds to.
    pub llama_host: String,
    /// Inference backend: `vulkan` or `cpu`.
    pub backend: String,
    /// Run the llama server without a console window of its own.
    pub hide_second_terminal: bool,
}

/// The suite configuration as a mathematical value.
pub struct ZeroPiConfigView {
    pub default_model: Seq<char>,
    pub llama_port: u16,
    pub llama_host: Seq<char>,
    pub backend: Seq<char>,
    pub hide_second_terminal: bool,
}

impl View for ZeroPiConfig {
    type V = ZeroPiConfigView;

    open spec fn view(&self) -> ZeroPiConfigView {
        ZeroPiConfigView {
            default_model: self.default_model@,
            llama_port: self.llama_port,
            llama_host: self.llama_host@,
            backend: self.backend@,
            hide_second_terminal: self.hide_second_terminal,
        }
    }
}

/// The configuration written when none exists yet.
pub open spec fn default_suite_config() -> ZeroPiConfigView {
    ZeroPiConfigView {
        default_model: "qwen3-1.7b"@,
        llama_port: 8080,
        llama_host: "127.0.0.1"@,
        backend: "vulkan"@,
        hide_second_terminal: true,
    }
}

impl Default for ZeroPiConfig {
    fn default() -> (res: Self)
        ensures
            res@ == default_suite_config(),
            res.default_model@ == "qwen3-1.7b"@,
            res.llama_port == 8080,
            res.llama_host@ == "127.0.0.1"@,
            res.backend@ == "vulkan"@,
            res.hide_second_terminal,
    {
        ZeroPiConfig {
            default_model: String::from_str("qwen3-1.7b"),
            llama_port: 8080,
            llama_host: String::from_str("127.0.0.1"),
            backend: String::from_str("vulkan"),
            hide_second_terminal: true,
        }
    }
}

impl Clone for ZeroPiConfig {
    fn clone(&self) -> (res: Self)
        ensures
            res == *self,
    {
        ZeroPiConfig {
            default_model: self.default_model.clone(),
            llama_port: self.llama_port,
            llama_host: self.llama_host.clone(),
            backend: self.backend.clone(),
            hide_second_terminal: self.hide_second_terminal,
        }
    }
}

/// The configuration of one model, kept in `gguf/<model>/config.json`.
pub struct ModelConfig {
    /// The model's name (its folder under `gguf/`).
    pub name: String,
    /// File name of the GGUF weights inside the model folder.
    pub filename: String,
    /// Where the weights can be downloaded; empty when unknown.
    pub download_url: String,
    /// Context window handed to the server and the agent.
    pub ctx_size: usize,
    /// Number of layers offloaded to the GPU.
    pub n_gpu_layers: usize,
    /// The sampling temperature, as the IEEE-754 bits of an `f32`.
    pub temperature_bits: u32,
    /// Whether the model emits reasoning ("thinking") output.
    pub thinking: bool,
}

/// A model configuration as a mathematical value.
pub struct ModelConfigView {
    pub name: Seq<char>,
    pub filename: Seq<char>,
    pub download_url: Seq<char>,
    pub ctx_size: usize,
    pub n_gpu_layers: usize,
    pub temperature_bits: u32,
    pub thinking: bool,
}

impl View for ModelConfig {
    type V = ModelConfigView;

    open spec fn view(&self) -> ModelConfigView {
        ModelConfigView {
            name: self.name@,
            filename: self.filename@,
            download_url: self.download_url@,
            ctx_size: self.ctx_size,
            n_gpu_layers: self.n_gpu_layers,
            temperature_bits: self.temperature_bits,
            thinking: self.thinking,
        }
    }
}

impl Clone for ModelConfig {
    fn clone(&self) -> (res: Self)
        ensures
            res == *self,
    {
        ModelConfig {
            name: self.name.clone(),
            filename: self.filename.clone(),
            download_url: self.download_url.clone(),
            ctx_size: self.ctx_size,
            n_gpu_layers: self.n_gpu_layers,
            temperature_bits: self.temperature_bits,
            thinking: self.thinking,
        }
    }
}

/// One entry of a model folder, as listed from disk.
pub struct ModelDirEntry {
    /// The entry is a regular file.
    pub is_file: bool,
    /// The entry's file name, when it is valid UTF-8.
    pub file_name: Option<String>,
}

/// `name` has the extension `ext` in the sense of `Path::extension`: the part
/// after the final `.`, where the part before it is not empty.
pub open spec fn has_extension(name: Seq<char>, ext: Seq<char>) -> bool {
    &&& !ext.contains('.')
    &&& name.len() > ext.len() + 1
    &&& has_suffix(name, seq!['.'] + ext)
}

/// The entry is a regular file with a UTF-8 name whose extension is `gguf`.
pub open spec fn is_gguf_entry(e: ModelDirEntry) -> bool {
    e.is_file && e.file_name is Some && has_extension(e.file_name->0@, "gguf"@)
}

/// The name of the first GGUF file among `entries`, in listing order.
pub open spec fn first_gguf(entries: Seq<ModelDirEntry>) -> Option<Seq<char>>
    decreases entries.len(),
{
    if entries.len() == 0 {
        None
    } else if is_gguf_entry(entries[0]) {
        Some(entries[0].file_name->0@)
    } else {
        first_gguf(entries.drop_first())
    }
}

/// The first configuration in `defaults` named `name`.
pub open spec fn first_named(defaults: Seq<ModelConfigView>, name: Seq<char>) -> Option<ModelConfigView>
    decreases defaults.len(),
{
    if defaults.len() == 0 {
        None
    } else if defaults[0].name == name {
        Some(defaults[0])
    } else {
        first_named(defaults.drop_first(), name)
    }
}

/// The views of a list of model configurations.
pub open spec fn config_views(defaults: Seq<ModelConfig>) -> Seq<ModelConfigView> {
    defaults.map_values(|m: ModelConfig| m@)
}

/// The configuration generated for model `name`: the known defaults for it,
/// with the GGUF file found in its folder, if any; otherwise a fresh entry
/// with a 6000-token context, 99 GPU layers, temperature 0, no download URL
/// and `thinking` off.
pub open spec fn generated_config(
    name: Seq<char>,
    gguf: Option<Seq<char>>,
    known: Option<ModelConfigView>,
) -> ModelConfigView {
    match known {
        Some(m) => ModelConfigView {
            filename: match gguf {
                Some(f) => f,
                None => m.filename,
            },
            ..m
        },
        None => ModelConfigView {
            name: name,
            filename: match gguf {
                Some(f) => f,
                None => name + ".gguf"@,
            },
            download_url: Seq::empty(),
            ctx_size: 6000,
            n_gpu_layers: 99,
            temperature_bits: 0,
            thinking: false,
        },
    }
}

/// Whether a folder entry is a GGUF weights file.
pub fn is_gguf_file(entry: &ModelDirEntry) -> (res: bool)
    ensures
        res == is_gguf_entry(*entry),
        res == (entry.is_file && entry.file_name is Some && has_suffix(entry.file_name->0@, ".gguf"@)
            && entry.file_name->0@.len() > 5),
{
    match &entry.file_name {
        Some(name) => {
            let ext = ".gguf";
            proof {
                reveal_strlit(".gguf");
                reveal_strlit("gguf");
                assert(seq!['.'] + "gguf"@ =~= ".gguf"@);
                assert(!"gguf"@.contains('.')) by {
                    assert forall|i: int| 0 <= i < 4 implies "gguf"@[i] != '.' by {}
                }
            }
            entry.is_file && ends_with_text(name.as_str(), ext) && name.as_str().unicode_len() > 5
        },
        None => false,
    }
}

/// The first GGUF file among the entries of a model folder, in listing order.
pub fn first_gguf_file(entries: &Vec<ModelDirEntry>) -> (res: Option<String>)
    ensures
        match res {
            Some(f) => first_gguf(entries@) == Some(f@),
            None => first_gguf(entries@) is None,
        },
        res matches Some(f) ==> exists|i: int|
            0 <= i < entries@.len() && is_gguf_entry(#[trigger] entries@[i]) && entries@[i].file_name->0@ == f@
                && forall|j: int| 0 <= j < i ==> !is_gguf_entry(#[trigger] entries@[j]),
        res is None ==> forall|j: int| 0 <= j < entries@.len() ==> !is_gguf_entry(#[trigger] entries@[j]),
{
    let mut i: usize = 0;
    assert(entries@.skip(0) =~= entries@);
    while i < entries.len()
        invariant
            i <= entries@.len(),
            first_gguf(entries@) == first_gguf(entries@.skip(i as int)),
        decreases entries@.len() - i,
    {
        assert(entries@.skip(i as int)[0] == entries@[i as int]);
        assert(entries@.skip(i as int).drop_first() =~= entries@.skip(i + 1));
        if is_gguf_file(&entries[i]) {
            match &entries[i].file_name {
                Some(name) => {
                    proof {
                        first_gguf_is_the_first_gguf_entry(entries@);
                    }
                    return Some(name.clone());
                },
                None => {},
            }
        }
        i = i + 1;
    }
    assert(entries@.skip(i as int) =~= Seq::<ModelDirEntry>::empty());
    proof {
        first_gguf_is_the_first_gguf_entry(entries@);
    }
    None
}

/// The first configuration in `defaults` whose name is `name`.
pub fn find_model_defaults(defaults: &Vec<ModelConfig>, name: &str) -> (res: Option<ModelConfig>)
    ensures
        match res {
            Some(m) => first_named(config_views(defaults@), name@) == Some(m@),
            None => first_named(config_views(defaults@), name@) is None,
        },
        res matches Some(m) ==> m.name@ == name@ && exists|i: int|
            0 <= i < defaults@.len() && (#[trigger] defaults@[i])@ == m@
                && forall|j: int| 0 <= j < i ==> (#[trigger] defaults@[j]).name@ != name@,
        res is None ==> forall|j: int| 0 <= j < defaults@.len() ==> (#[trigger] defaults@[j]).name@ != name@,
{
    let ghost views = config_views(defaults@);
    let mut i: usize = 0;
    assert(views.skip(0) =~= views);
    while i < defaults.len()
        invariant
            i <= defaults@.len(),
            views == config_views(defaults@),
            first_named(views, name@) == first_named(views.skip(i as int), name@),
        decreases defaults@.len() - i,
    {
        assert(views.skip(i as int)[0] == defaults@[i as int]@);
        assert(views.skip(i as int).drop_first() =~= views.skip(i + 1));
        if same_text(defaults[i].name.as_str(), name) {
            proof {
                first_named_is_the_first_match(views, name@);
                assert(views.len() == defaults@.len());
                let m = first_named(views, name@)->0;
                let k = choose|k: int|
                    0 <= k < views.len() && #[trigger] views[k] == m
                        && forall|j: int| 0 <= j < k ==> (#[trigger] views[j]).name != name@;
                assert(views[k] == defaults@[k]@);
                assert forall|j: int| 0 <= j < k implies (#[trigger] defaults@[j]).name@ != name@ by {
                    assert(views[j] == defaults@[j]@);
                }
            }
            return Some(defaults[i].clone());
        }
        i = i + 1;
    }
    assert(views.skip(i as int) =~= Seq::<ModelConfigView>::empty());
    proof {
        first_named_is_the_first_match(views, name@);
        assert forall|j: int| 0 <= j < defaults@.len() implies (#[trigger] defaults@[j]).name@ != name@ by {
            assert(views[j] == defaults@[j]@);
        }
    }
    None
}

/// Builds the configuration of model `name` from what was found: the GGUF
/// file in its folder and its known defaults.
pub fn model_config_from(
    name: &str,
    gguf: Option<String>,
    known: Option<ModelConfig>,
) -> (res: ModelConfig)
    ensures
        res@ == generated_config(
            name@,
            match gguf {
                Some(f) => Some(f@),
                None => None,
            },
            match known {
                Some(m) => Some(m@),
                None => None,
            },
        ),
        known matches Some(m) ==> {
            &&& res.name@ == m.name@
            &&& res.download_url@ == m.download_url@
            &&& res.ctx_size == m.ctx_size
            &&& res.n_gpu_layers == m.n_gpu_layers
            &&& res.temperature_bits == m.temperature_bits
            &&& res.thinking == m.thinking
            &&& res.filename@ == match gguf {
                Some(f) => f@,
                None => m.filename@,
            }
        },
        known is None ==> {
            &&& res.name@ == name@
            &&& res.download_url@.len() == 0
            &&& res.ctx_size == 6000
            &&& res.n_gpu_layers == 99
            &&& res.temperature_bits == 0
            &&& !res.thinking
            &&& res.filename@ == match gguf {
                Some(f) => f@,
                None => name@ + ".gguf"@,
            }
        },
{
    match known {
        Some(m) => {
            let mut m = m;
            match gguf {
                Some(f) => {
                    m.filename = f;
                },
                None => {},
            }
            m
        },
        None => {
            let filename = match gguf {
                Some(f) => f,
                None => String::from_str(name).concat(".gguf"),
            };
            ModelConfig {
                name: String::from_str(name),
                filename,
                download_url: String::new(),
                ctx_size: 6000,
                n_gpu_layers: 99,
                temperature_bits: 0,
                thinking: false,
            }
        },
    }
}

/// The configuration generated for model `name`, given the entries of its
/// folder and the list of known model defaults.
pub fn default_model_config(name: &str, entries: &Vec<ModelDirEntry>, defaults: &Vec<ModelConfig>) -> (res: ModelConfig)
    ensures
        res@ == generated_config(
            name@,
            first_gguf(entries@),
            first_named(config_views(defaults@), name@),
        ),
        first_named(config_views(defaults@), name@) matches Some(m) ==> {
            &&& m.name == name@
            &&& res.name@ == m.name
            &&& res.download_url@ == m.download_url
            &&& res.ctx_size == m.ctx_size
            &&& res.n_gpu_layers == m.n_gpu_layers
            &&& res.temperature_bits == m.temperature_bits
            &&& res.thinking == m.thinking
            &&& res.filename@ == match first_gguf(entries@) {
                Some(f) => f,
                None => m.filename,
            }
        },
        first_named(config_views(defaults@), name@) is None ==> {
            &&& res.name@ == name@
            &&& res.download_url@.len() == 0
            &&& res.ctx_size == 6000
            &&& res.n_gpu_layers == 99
            &&& res.temperature_bits == 0
            &&& !res.thinking
            &&& res.filename@ == match first_gguf(entries@) {
                Some(f) => f,
                None => name@ + ".gguf"@,
            }
        },
{
    let gguf = first_gguf_file(entries);
    proof {
        first_gguf_is_the_first_gguf_entry(entries@);
    }
    let known = find_model_defaults(defaults, name);
    proof {
        found_default_has_the_name(config_views(defaults@), name@);
    }
    model_config_from(name, gguf, known)
}

/// The defaults found for a name carry that name.
pub proof fn found_default_has_the_name(defaults: Seq<ModelConfigView>, name: Seq<char>)
    ensures
        first_named(defaults, name) matches Some(m) ==> m.name == name,
    decreases defaults.len(),
{
    if defaults.len() > 0 && defaults[0].name != name {
        found_default_has_the_name(defaults.drop_first(), name);
    }
}

/// A generated configuration for a model with known defaults is those
/// defaults, with only the file name replaced by the GGUF file found, if any;
/// for a model without defaults it is a fresh entry named after the model.
pub proof fn generated_config_keeps_known_defaults(name: Seq<char>, gguf: Option<Seq<char>>, known: Option<ModelConfigView>)
    ensures
        known matches Some(m) ==> {
            let g = generated_config(name, gguf, known);
            &&& g.name == m.name
            &&& g.download_url == m.download_url
            &&& g.ctx_size == m.ctx_size
            &&& g.n_gpu_layers == m.n_gpu_layers
            &&& g.temperature_bits == m.temperature_bits
            &&& g.thinking == m.thinking
            &&& g.filename == match gguf {
                Some(f) => f,
                None => m.filename,
            }
        },
        known is None ==> {
            let g = generated_config(name, gguf, known);
            &&& g.name == name
            &&& g.download_url.len() == 0
            &&& g.ctx_size == 6000
            &&& g.n_gpu_layers == 99
            &&& g.temperature_bits == 0
            &&& !g.thinking
            &&& g.filename == match gguf {
                Some(f) => f,
                None => name + ".gguf"@,
            }
        },
{
}

/// The GGUF file chosen in a folder is the first GGUF entry in listing
/// order; none is chosen only when no entry is a GGUF file.
pub proof fn first_gguf_is_the_first_gguf_entry(entries: Seq<ModelDirEntry>)
    ensures
        first_gguf(entries) matches Some(f) ==> exists|i: int|
            0 <= i < entries.len() && is_gguf_entry(#[trigger] entries[i]) && entries[i].file_name->0@ == f
                && forall|j: int| 0 <= j < i ==> !is_gguf_entry(#[trigger] entries[j]),
        first_gguf(entries) is None ==> forall|j: int| 0 <= j < entries.len() ==> !is_gguf_entry(#[trigger] entries[j]),
    decreases entries.len(),
{
    if entries.len() > 0 {
        let rest = entries.drop_first();
        first_gguf_is_the_first_gguf_entry(rest);
        if is_gguf_entry(entries[0]) {
            assert(is_gguf_entry(entries[0]) && entries[0].file_name->0@ == first_gguf(entries)->0);
        } else {
            if let Some(f) = first_gguf(entries) {
                let i = choose|i: int|
                    0 <= i < rest.len() && is_gguf_entry(#[trigger] rest[i]) && rest[i].file_name->0@ == f
                        && forall|j: int| 0 <= j < i ==> !is_gguf_entry(#[trigger] rest[j]);
                assert(entries[i + 1] == rest[i]);
                assert forall|j: int| 0 <= j < i + 1 implies !is_gguf_entry(#[trigger] entries[j]) by {
                    if j > 0 {
                        assert(entries[j] == rest[j - 1]);
                    }
                }
                assert(is_gguf_entry(entries[i + 1]));
            } else {
                assert forall|j: int| 0 <= j < entries.len() implies !is_gguf_entry(#[trigger] entries[j]) by {
                    if j > 0 {
                        assert(entries[j] == rest[j - 1]);
                    }
                }
            }
        }
    }
}

/// The defaults found for a name belong to the first listed model of that
/// name; none are found only when no listed model has it.
pub proof fn first_named_is_the_first_match(defaults: Seq<ModelConfigView>, name: Seq<char>)
    ensures
        first_named(defaults, name) matches Some(m) ==> m.name == name && exists|i: int|
            0 <= i < defaults.len() && #[trigger] defaults[i] == m
                && forall|j: int| 0 <= j < i ==> (#[trigger] defaults[j]).name != name,
        first_named(defaults, name) is None ==> forall|j: int| 0 <= j < defaults.len() ==> (#[trigger] defaults[j]).name != name,
    decreases defaults.len(),
{
    if defaults.len() > 0 {
        let rest = defaults.drop_first();
        first_named_is_the_first_match(rest, name);
        if defaults[0].name == name {
            assert(defaults[0] == first_named(defaults, name)->0);
        } else {
            if let Some(m) = first_named(defaults, name) {
                let i = choose|i: int|
                    0 <= i < rest.len() && #[trigger] rest[i] == m
                        && forall|j: int| 0 <= j < i ==> (#[trigger] rest[j]).name != name;
                assert(defaults[i + 1] == rest[i]);
                assert forall|j: int| 0 <= j < i + 1 implies (#[trigger] defaults[j]).name != name by {
                    if j > 0 {
                        assert(defaults[j] == rest[j - 1]);
                    }
                }
            } else {
                assert forall|j: int| 0 <= j < defaults.len() implies (#[trigger] defaults[j]).name != name by {
                    if j > 0 {
                        assert(defaults[j] == rest[j - 1]);
                    }
                }
            }
        }
    }
}

} // verus!
