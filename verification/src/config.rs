//! Node configuration, its defaults, and the check that the selected
//! inference backend has its configuration section.

use vstd::prelude::*;
use crate::text::{
    concat3, is_path_part, last_slash_part, normal_component, path_file_name, plain_path, str_eq,
};

verus! {

/// The whole node configuration.
#[derive(Debug)]
pub struct Config {
    pub relay: RelayConfig,
    /// Inference backend: "llama" (default), "mnn", "litert", or "mesh".
    pub backend: String,
    /// llama-server config (required when backend = "llama").
    pub llama: Option<LlamaConfig>,
    /// MNN-LLM config (required when backend = "mnn").
    pub mnn: Option<MnnConfig>,
    /// LiteRT-LM config (required when backend = "litert").
    pub litert: Option<LiteRtConfig>,
    /// Mesh-LLM config (required when backend = "mesh").
    pub mesh: Option<MeshConfig>,
    pub node: NodeConfig,
}

/// Where the relay server is.
#[derive(Debug)]
pub struct RelayConfig {
    pub url: String,
}

/// llama-server settings.
#[derive(Debug)]
pub struct LlamaConfig {
    pub binary: String,
    pub model: String,
    pub gpu_layers: i32,
    pub context_size: u32,
    pub port: u16,
    pub extra_args: Vec<String>,
}

/// MNN-LLM settings.
#[derive(Debug)]
pub struct MnnConfig {
    pub binary: String,
    /// Path to the MNN model directory (converted model, not GGUF).
    pub model_dir: String,
    /// Model identifier reported to the network (defaults to the model_dir basename).
    pub model_id: Option<String>,
    /// GPU backend: "opencl", "vulkan", "metal", "cpu" (auto-detected if omitted).
    pub backend_type: Option<String>,
    pub context_size: u32,
    pub port: u16,
    pub extra_args: Vec<String>,
}

/// LiteRT-LM settings.
#[derive(Debug)]
pub struct LiteRtConfig {
    /// Path to the litert_lm_main binary (defaults to searching PATH).
    pub binary: Option<String>,
    /// Path to the .litertlm model file.
    pub model: String,
    /// Model identifier reported to the network (defaults to the model file stem).
    pub model_id: Option<String>,
    /// Compute backend: "cpu", "gpu", "npu" (default "cpu").
    pub backend_type: Option<String>,
    /// Maximum context size in tokens.
    pub context_size: u32,
    /// Cache directory for compiled model artifacts.
    pub cache_dir: Option<String>,
}

/// Mesh-LLM settings.
#[derive(Debug)]
pub struct MeshConfig {
    /// Path to the `mesh-llm` binary; omitted to attach to an external instance.
    pub binary: Option<String>,
    /// Full base URL of the mesh-llm OpenAI-compatible server; overrides `port`.
    pub endpoint: Option<String>,
    /// Port of the mesh-llm OpenAI API.
    pub port: u16,
    /// Model identifier reported to the network.
    pub model_id: Option<String>,
    /// Extra arguments appended to `mesh-llm serve`.
    pub serve_args: Vec<String>,
}

/// Node settings. The optional GPU memory size, a floating-point number,
/// is kept by the program around the library.
#[derive(Debug)]
pub struct NodeConfig {
    pub display_name: String,
    pub gpu_backend: Option<String>,
}

/// The four inference backends.
#[derive(Debug, Clone, Copy, PartialEq, Eq, Structural)]
pub enum BackendKind {
    Llama,
    Mnn,
    LiteRt,
    Mesh,
}

/// Why a configuration is refused.
#[derive(Debug)]
pub enum ConfigError {
    /// The selected backend has no configuration section.
    MissingSection(BackendKind),
    /// The backend name is not one of the four.
    UnknownBackend(String),
}

/// The default inference backend.
pub fn default_backend() -> (r: String)
    ensures
        r@ == "llama"@,
{
    "llama".to_owned()
}

/// The default relay server URL.
pub fn default_relay_url() -> (r: String)
    ensures
        r@ == "wss://relay.teale.com/ws"@,
{
    "wss://relay.teale.com/ws".to_owned()
}

/// The default number of model layers offloaded to the GPU by llama-server.
pub fn default_gpu_layers() -> (r: i32)
    ensures
        r == 999,
{
    999
}

/// The default llama-server context size.
pub fn default_context_size() -> (r: u32)
    ensures
        r == 8192,
{
    8192
}

/// The default mnn_llm context size.
pub fn default_mnn_context_size() -> (r: u32)
    ensures
        r == 2048,
{
    2048
}

/// The default llama-server port.
pub fn default_llama_port() -> (r: u16)
    ensures
        r == 11436,
{
    11436
}

/// The default mnn_llm port.
pub fn default_mnn_port() -> (r: u16)
    ensures
        r == 11437,
{
    11437
}

/// The default LiteRT-LM context size.
pub fn default_litert_context_size() -> (r: u32)
    ensures
        r == 4096,
{
    4096
}

/// The default mesh-llm API port (its upstream default).
pub fn default_mesh_port() -> (r: u16)
    ensures
        r == 9337,
{
    9337
}

/// The name of a backend in the configuration file.
pub open spec fn backend_name(k: BackendKind) -> Seq<char> {
    match k {
        BackendKind::Llama => "llama"@,
        BackendKind::Mnn => "mnn"@,
        BackendKind::LiteRt => "litert"@,
        BackendKind::Mesh => "mesh"@,
    }
}

impl Config {
    /// Whether the configuration has the section of the given backend.
    pub open spec fn has_section(&self, k: BackendKind) -> bool {
        match k {
            BackendKind::Llama => self.llama is Some,
            BackendKind::Mnn => self.mnn is Some,
            BackendKind::LiteRt => self.litert is Some,
            BackendKind::Mesh => self.mesh is Some,
        }
    }

    /// Checks that the selected backend is known and has its section; on
    /// success returns the selected backend.
    pub fn validate(&self) -> (r: Result<BackendKind, ConfigError>)
        ensures
            forall|k: BackendKind|
                #![trigger backend_name(k)]
                self.backend@ == backend_name(k) ==> (if self.has_section(k) {
                    r == Ok::<BackendKind, ConfigError>(k)
                } else {
                    r matches Err(ConfigError::MissingSection(m)) && m == k
                }),
            (forall|k: BackendKind| #![trigger backend_name(k)] self.backend@ != backend_name(k)) ==> (
            r matches Err(ConfigError::UnknownBackend(b)) && b@ == self.backend@),
    {
        let b = self.backend.as_str();
        proof {
            reveal_strlit("llama");
            reveal_strlit("mnn");
            reveal_strlit("litert");
            reveal_strlit("mesh");
            assert(backend_name(BackendKind::Llama) == "llama"@);
            assert(backend_name(BackendKind::Mnn) == "mnn"@);
            assert(backend_name(BackendKind::LiteRt) == "litert"@);
            assert(backend_name(BackendKind::Mesh) == "mesh"@);
        }
        if str_eq(b, "llama") {
            if self.llama.is_none() {
                return Err(ConfigError::MissingSection(BackendKind::Llama));
            }
            Ok(BackendKind::Llama)
        } else if str_eq(b, "mnn") {
            if self.mnn.is_none() {
                return Err(ConfigError::MissingSection(BackendKind::Mnn));
            }
            Ok(BackendKind::Mnn)
        } else if str_eq(b, "litert") {
            if self.litert.is_none() {
                return Err(ConfigError::MissingSection(BackendKind::LiteRt));
            }
            Ok(BackendKind::LiteRt)
        } else if str_eq(b, "mesh") {
            if self.mesh.is_none() {
                return Err(ConfigError::MissingSection(BackendKind::Mesh));
            }
            Ok(BackendKind::Mesh)
        } else {
            Err(ConfigError::UnknownBackend(self.backend.clone()))
        }
    }
}

impl Config {
    /// Whether the HTTP backend that the node starts has its section: the
    /// "mnn" backend needs `[mnn]`, every other name is served by llama-server
    /// and needs `[llama]`.
    pub open spec fn has_http_section(&self) -> bool {
        if self.backend@ == "mnn"@ {
            self.mnn is Some
        } else {
            self.llama is Some
        }
    }

    /// The port and reported model of the HTTP backend, given the last
    /// component of the MNN model directory: for "mnn" the configured model
    /// ID, else that component, else the directory; otherwise the llama
    /// port and model path.
    pub fn http_target_from(&self, mnn_dir_name: Option<String>) -> (r: (u16, String))
        requires
            self.has_http_section(),
        ensures
            self.backend@ == "mnn"@ ==> (self.mnn matches Some(m) && r.0 == m.port && r.1@ == (
            match m.model_id {
                Some(id) => id@,
                None => match mnn_dir_name {
                    Some(n) => n@,
                    None => m.model_dir@,
                },
            })),
            self.backend@ != "mnn"@ ==> (self.llama matches Some(l) && r.0 == l.port && r.1@ == l.model@),
    {
        if str_eq(self.backend.as_str(), "mnn") {
            match &self.mnn {
                Some(m) => {
                    let id = match &m.model_id {
                        Some(id) => id.clone(),
                        None => match mnn_dir_name {
                            Some(n) => n,
                            None => m.model_dir.clone(),
                        },
                    };
                    (m.port, id)
                },
                None => {
                    proof {
                        assert(false);
                    }
                    (0, String::new())
                },
            }
        } else {
            match &self.llama {
                Some(l) => (l.port, l.model.clone()),
                None => {
                    proof {
                        assert(false);
                    }
                    (0, String::new())
                },
            }
        }
    }

    /// The port and reported model of the HTTP backend; the MNN model ID
    /// defaults to the base name of the model directory: on a plain path
    /// whose last part names a directory, that part; on other paths a part
    /// of the path, or the whole path where it names none.
    pub fn http_target(&self) -> (r: (u16, String))
        requires
            self.has_http_section(),
        ensures
            self.backend@ == "mnn"@ ==> (self.mnn matches Some(m) && r.0 == m.port && (match m.model_id {
                Some(id) => r.1@ == id@,
                None => if plain_path(m.model_dir@) && normal_component(last_slash_part(m.model_dir@)) {
                    r.1@ == last_slash_part(m.model_dir@)
                } else {
                    r.1@ == m.model_dir@ || is_path_part(m.model_dir@, r.1@)
                },
            })),
            self.backend@ != "mnn"@ ==> (self.llama matches Some(l) && r.0 == l.port && r.1@ == l.model@),
    {
        let name = match &self.mnn {
            Some(m) => if m.model_id.is_none() {
                path_file_name(m.model_dir.as_str())
            } else {
                None
            },
            None => None,
        };
        self.http_target_from(name)
    }
}

impl ConfigError {
    /// The error's message.
    pub fn message(&self) -> (r: String)
        ensures
            match self {
                ConfigError::MissingSection(k) => r@ == "["@ + backend_name(*k)
                    + "] config section is required when backend = \""@ + backend_name(*k) + "\""@,
                ConfigError::UnknownBackend(b) => r@ == "Unknown backend '"@ + b@
                    + "'. Supported: \"llama\", \"mnn\", \"litert\", \"mesh\""@,
            },
    {
        match self {
            ConfigError::MissingSection(k) => {
                let name = match k {
                    BackendKind::Llama => "llama",
                    BackendKind::Mnn => "mnn",
                    BackendKind::LiteRt => "litert",
                    BackendKind::Mesh => "mesh",
                };
                let a = concat3("[", name, "] config section is required when backend = \"");
                concat3(a.as_str(), name, "\"")
            },
            ConfigError::UnknownBackend(b) => concat3(
                "Unknown backend '",
                b.as_str(),
                "'. Supported: \"llama\", \"mnn\", \"litert\", \"mesh\"",
            ),
        }
    }
}

} // verus!
