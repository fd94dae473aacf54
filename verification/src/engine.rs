//! Launch parameters of the worker process and the errors of its supervision.

use crate::text::{decimal, decimal_string, prefixed};
use vstd::prelude::*;

verus! {

/// The port on which the worker listens.
pub const ENGINE_PORT: u16 = 8081;

/// The number of layers handed to the accelerator when offload is asked for:
/// large enough to mean all of them.
pub const GPU_ALL_LAYERS: u32 = 99;

/// The host on which the worker listens.
pub open spec fn engine_host() -> Seq<char> {
    "127.0.0.1"@
}

/// The name under which the bundled worker executable is looked up.
pub open spec fn sidecar_name() -> Seq<char> {
    "binaries/llama-server"@
}

/// The name of the notification that reports a failure of the worker.
pub open spec fn engine_error_event() -> Seq<char> {
    "engine-error"@
}

/// The address of the worker's health endpoint.
pub open spec fn health_url() -> Seq<char> {
    "http://"@ + engine_host() + ":"@ + decimal(ENGINE_PORT as nat) + "/health"@
}

/// What a caller chooses for one launch of the worker. Nothing is defaulted.
#[derive(Debug, PartialEq, Eq)]
pub struct EngineConfig {
    /// Path of the model file that the worker serves.
    pub model_path: String,
    /// Whether layers are offloaded to an accelerator.
    pub use_gpu: bool,
    /// Number of worker threads.
    pub threads: u32,
    /// Size of the context window.
    pub context_size: u32,
}

/// The layer count that the worker is told to offload.
pub open spec fn gpu_layers(use_gpu: bool) -> nat {
    if use_gpu {
        GPU_ALL_LAYERS as nat
    } else {
        0
    }
}

/// The worker's argument list for `config`: model, port, host, context size,
/// thread count, the two flags that keep the model in physical memory, and
/// the layer count for the accelerator.
pub open spec fn launch_args(config: EngineConfig) -> Seq<Seq<char>> {
    seq![
        "--model"@,
        config.model_path@,
        "--port"@,
        decimal(ENGINE_PORT as nat),
        "--host"@,
        engine_host(),
        "-c"@,
        decimal(config.context_size as nat),
        "--threads"@,
        decimal(config.threads as nat),
        "--no-mmap"@,
        "--mlock"@,
        "--n-gpu-layers"@,
        decimal(gpu_layers(config.use_gpu)),
    ]
}

impl EngineConfig {
    /// A copy of this configuration.
    pub fn duplicate(&self) -> (copy: EngineConfig)
        ensures
            copy == *self,
    {
        EngineConfig {
            model_path: self.model_path.clone(),
            use_gpu: self.use_gpu,
            threads: self.threads,
            context_size: self.context_size,
        }
    }
}

/// The host on which the worker listens.
pub fn host() -> (s: &'static str)
    ensures
        s@ == engine_host(),
{
    "127.0.0.1"
}

/// The name under which the bundled worker executable is looked up.
pub fn sidecar() -> (s: &'static str)
    ensures
        s@ == sidecar_name(),
{
    "binaries/llama-server"
}

/// The name of the notification that reports a failure of the worker.
pub fn error_event() -> (s: &'static str)
    ensures
        s@ == engine_error_event(),
{
    "engine-error"
}

/// The address of the worker's health endpoint, built from host and port.
pub fn health_endpoint() -> (url: String)
    ensures
        url@ == health_url(),
{
    let mut url = String::from_str("http://");
    url.append(host());
    url.append(":");
    let port = decimal_string(ENGINE_PORT as u64);
    url.append(port.as_str());
    url.append("/health");
    url
}

/// The health endpoint is `http://127.0.0.1:8081/health`.
pub proof fn lemma_health_url_is_fixed()
    ensures
        health_url() == "http://127.0.0.1:8081/health"@,
{
    reveal_strlit("http://");
    reveal_strlit("127.0.0.1");
    reveal_strlit(":");
    reveal_strlit("/health");
    reveal_strlit("http://127.0.0.1:8081/health");
    reveal_with_fuel(decimal, 4);
    assert(decimal(8081) =~= seq!['8', '0', '8', '1']);
    assert(health_url() =~= "http://127.0.0.1:8081/health"@);
}

/// The fixed part of every argument list: port 8081 on host 127.0.0.1, and
/// 99 layers for the accelerator with offload, 0 without.
pub proof fn lemma_fixed_arguments(config: EngineConfig)
    ensures
        launch_args(config).len() == 14,
        launch_args(config)[3] == "8081"@,
        launch_args(config)[5] == "127.0.0.1"@,
        launch_args(config)[13] == (if config.use_gpu {
            "99"@
        } else {
            "0"@
        }),
{
    reveal_strlit("8081");
    reveal_strlit("99");
    reveal_strlit("0");
    reveal_with_fuel(decimal, 4);
    assert(decimal(8081) =~= "8081"@);
    assert(decimal(99) =~= "99"@);
    assert(decimal(0) =~= "0"@);
}

/// Builds the worker's argument list from `config`.
pub fn build_args(config: &EngineConfig) -> (args: Vec<String>)
    ensures
        args.deep_view() == launch_args(*config),
{
    let mut args: Vec<String> = Vec::new();
    args.push(String::from_str("--model"));
    args.push(config.model_path.clone());
    args.push(String::from_str("--port"));
    args.push(decimal_string(ENGINE_PORT as u64));
    args.push(String::from_str("--host"));
    args.push(String::from_str(host()));
    args.push(String::from_str("-c"));
    args.push(decimal_string(config.context_size as u64));
    args.push(String::from_str("--threads"));
    args.push(decimal_string(config.threads as u64));
    args.push(String::from_str("--no-mmap"));
    args.push(String::from_str("--mlock"));
    args.push(String::from_str("--n-gpu-layers"));
    let layers: u32 = if config.use_gpu {
        GPU_ALL_LAYERS
    } else {
        0
    };
    args.push(decimal_string(layers as u64));
    assert(args.deep_view() =~= launch_args(*config));
    args
}

/// Why an operation on the worker failed.
#[derive(Debug, PartialEq, Eq)]
pub enum EngineError {
    /// The bundled worker executable could not be found.
    BinaryNotFound(String),
    /// The operating system refused to create the process.
    SpawnError(String),
    /// The health endpoint did not answer.
    EngineUnreachable(String),
}

/// An [`EngineError`] with its message as a sequence of characters.
pub enum EngineErrorView {
    BinaryNotFound(Seq<char>),
    SpawnError(Seq<char>),
    EngineUnreachable(Seq<char>),
}

impl View for EngineError {
    type V = EngineErrorView;

    open spec fn view(&self) -> EngineErrorView {
        match self {
            EngineError::BinaryNotFound(m) => EngineErrorView::BinaryNotFound(m@),
            EngineError::SpawnError(m) => EngineErrorView::SpawnError(m@),
            EngineError::EngineUnreachable(m) => EngineErrorView::EngineUnreachable(m@),
        }
    }
}

impl EngineErrorView {
    /// The text that the caller is shown.
    pub open spec fn message(self) -> Seq<char> {
        match self {
            EngineErrorView::BinaryNotFound(m) => m,
            EngineErrorView::SpawnError(m) => m,
            EngineErrorView::EngineUnreachable(m) => m,
        }
    }
}

/// The error for a worker executable that was not found, `detail` being
/// what the lookup reported.
pub open spec fn binary_not_found(detail: Seq<char>) -> EngineErrorView {
    EngineErrorView::BinaryNotFound("Binary not found: "@ + detail)
}

/// The error for a refused process creation.
pub open spec fn spawn_failed(detail: Seq<char>) -> EngineErrorView {
    EngineErrorView::SpawnError("Spawn failed: "@ + detail)
}

/// The error for a health endpoint that could not be reached.
pub open spec fn engine_not_responding(detail: Seq<char>) -> EngineErrorView {
    EngineErrorView::EngineUnreachable("Engine not responding: "@ + detail)
}

/// The error for a health answer whose body could not be read.
pub open spec fn health_unreadable(detail: Seq<char>) -> EngineErrorView {
    EngineErrorView::EngineUnreachable("Failed to read health response: "@ + detail)
}

impl EngineError {
    /// The text that the caller is shown.
    pub fn message(&self) -> (text: String)
        ensures
            text@ == self@.message(),
    {
        match self {
            EngineError::BinaryNotFound(m) => m.clone(),
            EngineError::SpawnError(m) => m.clone(),
            EngineError::EngineUnreachable(m) => m.clone(),
        }
    }

    /// The error for a worker executable that was not found.
    pub fn missing_binary(detail: &str) -> (e: EngineError)
        ensures
            e@ == binary_not_found(detail@),
    {
        EngineError::BinaryNotFound(prefixed("Binary not found: ", detail))
    }

    /// The error for a refused process creation.
    pub fn refused_spawn(detail: &str) -> (e: EngineError)
        ensures
            e@ == spawn_failed(detail@),
    {
        EngineError::SpawnError(prefixed("Spawn failed: ", detail))
    }

    /// The error for a health endpoint that could not be reached.
    pub fn not_responding(detail: &str) -> (e: EngineError)
        ensures
            e@ == engine_not_responding(detail@),
    {
        EngineError::EngineUnreachable(prefixed("Engine not responding: ", detail))
    }

    /// The error for a health answer whose body could not be read.
    pub fn unreadable_health(detail: &str) -> (e: EngineError)
        ensures
            e@ == health_unreadable(detail@),
    {
        EngineError::EngineUnreachable(prefixed("Failed to read health response: ", detail))
    }
}

} // verus!
