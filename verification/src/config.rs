//! Build-time configuration: required models, executable locations,
//! endpoints and timing budgets.

use vstd::prelude::*;
use vstd::string::*;

verus! {

/// Health probes against the backend: one-second spacing, thirty attempts.
pub const HEALTH_ATTEMPTS: u32 = 30;

/// Readiness polls after spawning the auxiliary service: ten attempts.
pub const AUX_READY_ATTEMPTS: u32 = 10;

/// Spacing of both polling loops, in seconds.
pub const POLL_INTERVAL_SECS: u64 = 1;

/// Timeout of one backend health probe, in seconds.
pub const HEALTH_PROBE_TIMEOUT_SECS: u64 = 2;

/// Timeout of the auxiliary-service reachability probe, in seconds.
pub const SERVICE_PROBE_TIMEOUT_SECS: u64 = 2;

/// Timeout of one model-presence query, in seconds.
pub const MODEL_PROBE_TIMEOUT_SECS: u64 = 5;

/// Timeout of one model download, in seconds.
pub const FETCH_TIMEOUT_SECS: u64 = 600;

/// Pause after terminating a prior backend instance, in milliseconds,
/// so the operating system can release the bound port.
pub const PORT_RELEASE_PAUSE_MILLIS: u64 = 500;

/// A model artifact the application needs, with a human-readable
/// description for progress messages.
pub struct ModelRequirement {
    pub identifier: String,
    pub description: String,
}

/// Mathematical view of a model requirement.
pub struct ModelView {
    pub identifier: Seq<char>,
    pub description: Seq<char>,
}

impl View for ModelRequirement {
    type V = ModelView;

    open spec fn view(&self) -> ModelView {
        ModelView { identifier: self.identifier@, description: self.description@ }
    }
}

/// Deep view of a list of model requirements.
pub open spec fn models_view(ms: Seq<ModelRequirement>) -> Seq<ModelView> {
    ms.map_values(|m: ModelRequirement| m@)
}

/// One location where the backend executable may live: a directory and
/// the executable's file name inside it.
pub struct CandidatePath {
    pub dir: String,
    pub exe: String,
}

/// Everything needed to spawn the backend from one candidate location.
pub struct SpawnRequest {
    pub program: String,
    pub working_dir: String,
}

/// File name of the backend executable.
pub fn backend_executable_name() -> (r: &'static str)
    ensures
        r@ == "localbook-backend"@,
{
    "localbook-backend"
}

/// Bare name of the auxiliary service, resolved via the search path
/// when no known installation location works.
pub fn aux_executable_name() -> (r: &'static str)
    ensures
        r@ == "ollama"@,
{
    "ollama"
}

/// Argument that asks the auxiliary service to run as a server.
pub fn aux_serve_argument() -> (r: &'static str)
    ensures
        r@ == "serve"@,
{
    "serve"
}

/// Backend liveness endpoint.
pub fn health_endpoint() -> (r: &'static str)
    ensures
        r@ == "http://localhost:8000/health"@,
{
    "http://localhost:8000/health"
}

/// Auxiliary-service listing endpoint, used both as a reachability probe
/// and as the model-presence query.
pub fn tags_endpoint() -> (r: &'static str)
    ensures
        r@ == "http://localhost:11434/api/tags"@,
{
    "http://localhost:11434/api/tags"
}

/// Auxiliary-service download endpoint.
pub fn pull_endpoint() -> (r: &'static str)
    ensures
        r@ == "http://localhost:11434/api/pull"@,
{
    "http://localhost:11434/api/pull"
}

/// Body of the download request for one model identifier.
pub fn pull_request_body(identifier: &str) -> (r: String)
    ensures
        r@ == "{\"name\":\""@ + identifier@ + "\",\"stream\":false}"@,
{
    String::from_str("{\"name\":\"").concat(identifier).concat("\",\"stream\":false}")
}

/// The fixed ordered list of models the application requires.
pub fn required_models() -> (r: Vec<ModelRequirement>)
    ensures
        r@.len() == 3,
        r@[0]@.identifier == "llama3.2"@,
        r@[0]@.description == "Llama 3.2 language model"@,
        r@[1]@.identifier == "nomic-embed-text"@,
        r@[1]@.description == "Nomic text embedding model"@,
        r@[2]@.identifier == "llava"@,
        r@[2]@.description == "LLaVA vision model"@,
{
    let mut v: Vec<ModelRequirement> = Vec::new();
    v.push(ModelRequirement {
        identifier: String::from_str("llama3.2"),
        description: String::from_str("Llama 3.2 language model"),
    });
    v.push(ModelRequirement {
        identifier: String::from_str("nomic-embed-text"),
        description: String::from_str("Nomic text embedding model"),
    });
    v.push(ModelRequirement {
        identifier: String::from_str("llava"),
        description: String::from_str("LLaVA vision model"),
    });
    v
}

/// Known installation locations of the auxiliary service, tried in order
/// before falling back to the bare name.
pub fn aux_install_paths() -> (r: Vec<String>)
    ensures
        r@.len() == 3,
        r@[0]@ == "/usr/local/bin/ollama"@,
        r@[1]@ == "/usr/bin/ollama"@,
        r@[2]@ == "/opt/homebrew/bin/ollama"@,
{
    let mut v: Vec<String> = Vec::new();
    v.push(String::from_str("/usr/local/bin/ollama"));
    v.push(String::from_str("/usr/bin/ollama"));
    v.push(String::from_str("/opt/homebrew/bin/ollama"));
    v
}

/// The ordered candidate locations of the backend executable under the
/// application's resource directory. Bundled layouts may place resources
/// one level deeper, so both the plain directory and its `resources`
/// subdirectory are tried, in that order.
pub fn backend_candidates(resource_dir: &str) -> (r: Vec<CandidatePath>)
    ensures
        r@.len() == 2,
        r@[0].dir@ == resource_dir@,
        r@[0].exe@ == "localbook-backend"@,
        r@[1].dir@ == resource_dir@ + "/resources"@,
        r@[1].exe@ == "localbook-backend"@,
{
    let mut v: Vec<CandidatePath> = Vec::new();
    v.push(CandidatePath {
        dir: String::from_str(resource_dir),
        exe: String::from_str(backend_executable_name()),
    });
    v.push(CandidatePath {
        dir: String::from_str(resource_dir).concat("/resources"),
        exe: String::from_str(backend_executable_name()),
    });
    v
}

/// Spawn parameters for one candidate: the program is the executable
/// inside the candidate directory, and the working directory is that
/// same directory, because the backend expects its sibling data files
/// beside it.
pub fn spawn_request(c: &CandidatePath) -> (r: SpawnRequest)
    ensures
        r.program@ == c.dir@ + "/"@ + c.exe@,
        r.working_dir@ == c.dir@,
{
    SpawnRequest {
        program: c.dir.clone().concat("/").concat(c.exe.as_str()),
        working_dir: c.dir.clone(),
    }
}

} // verus!
