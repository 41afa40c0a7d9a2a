//! The data the command surface reports to the user interface, and the pure
//! decisions behind the status commands.  The probes these decisions read
//! (runtime liveness, HTTP reachability, key presence) are performed by the
//! caller; each function here fixes exactly what is reported for every
//! combination of probe results.

use vstd::prelude::*;

use crate::config::{LLMBackend, TranscriptionBackend};
use crate::textutil::{spec_decimal, spec_remove_all, str_remove_all, u32_to_decimal};

verus! {

/// What one completed session produced: the raw transcript and the rewritten
/// text that was injected.
#[derive(Debug)]
pub struct ProcessedResult {
    pub transcription: String,
    pub cleaned_text: String,
}

/// The reported readiness of one backend.
#[derive(Debug)]
pub struct BackendStatus {
    pub name: String,
    pub available: bool,
    pub message: String,
}

/// The reported state of the container runtime.
#[derive(Debug)]
pub struct DockerStatus {
    pub available: bool,
    pub container_running: bool,
    pub has_nvidia_gpu: bool,
    pub message: String,
}

/// One offered transcription model.
#[derive(Debug)]
pub struct ModelInfo {
    pub name: String,
    pub size: String,
    pub description: String,
    pub recommended: bool,
}

/// The reported state of the local rewrite server.
#[derive(Debug)]
pub struct OllamaStatus {
    pub available: bool,
    pub base_url: String,
    pub message: String,
}

/// One rewrite model, installed or recommended.
#[derive(Debug)]
pub struct OllamaModelInfo {
    pub name: String,
    pub size: String,
    pub modified_at: String,
    pub recommended: bool,
}

/// The fixed catalogue of transcription model sizes.
pub fn get_available_models() -> (r: Vec<ModelInfo>)
    ensures
        r@.len() == 5,
        r@[0].name@ == "tiny"@ && r@[0].size@ == "39 MB"@
            && r@[0].description@ == "Fastest, lowest accuracy"@ && !r@[0].recommended,
        r@[1].name@ == "base"@ && r@[1].size@ == "74 MB"@
            && r@[1].description@ == "Fast, good for testing"@ && !r@[1].recommended,
        r@[2].name@ == "small"@ && r@[2].size@ == "244 MB"@
            && r@[2].description@ == "Balanced speed and accuracy"@ && r@[2].recommended,
        r@[3].name@ == "medium"@ && r@[3].size@ == "769 MB"@
            && r@[3].description@ == "Higher accuracy, slower"@ && !r@[3].recommended,
        r@[4].name@ == "large"@ && r@[4].size@ == "1.5 GB"@
            && r@[4].description@ == "Best accuracy, slowest"@ && !r@[4].recommended,
{
    let mut models: Vec<ModelInfo> = Vec::new();
    models.push(ModelInfo {
        name: "tiny".to_owned(),
        size: "39 MB".to_owned(),
        description: "Fastest, lowest accuracy".to_owned(),
        recommended: false,
    });
    models.push(ModelInfo {
        name: "base".to_owned(),
        size: "74 MB".to_owned(),
        description: "Fast, good for testing".to_owned(),
        recommended: false,
    });
    models.push(ModelInfo {
        name: "small".to_owned(),
        size: "244 MB".to_owned(),
        description: "Balanced speed and accuracy".to_owned(),
        recommended: true,
    });
    models.push(ModelInfo {
        name: "medium".to_owned(),
        size: "769 MB".to_owned(),
        description: "Higher accuracy, slower".to_owned(),
        recommended: false,
    });
    models.push(ModelInfo {
        name: "large".to_owned(),
        size: "1.5 GB".to_owned(),
        description: "Best accuracy, slowest".to_owned(),
        recommended: false,
    });
    models
}

/// The fixed catalogue of rewrite models worth suggesting.
pub fn get_recommended_ollama_models() -> (r: Vec<OllamaModelInfo>)
    ensures
        r@.len() == 5,
        r@[0].name@ == "llama3.2:3b"@ && r@[0].size@ == "2 GB"@
            && r@[0].modified_at@ == Seq::<char>::empty() && r@[0].recommended,
        r@[1].name@ == "llama3:8b"@ && r@[1].size@ == "4.7 GB"@
            && r@[1].modified_at@ == Seq::<char>::empty() && r@[1].recommended,
        r@[2].name@ == "mistral:7b"@ && r@[2].size@ == "4.1 GB"@
            && r@[2].modified_at@ == Seq::<char>::empty() && r@[2].recommended,
        r@[3].name@ == "phi3:3.8b"@ && r@[3].size@ == "2.3 GB"@
            && r@[3].modified_at@ == Seq::<char>::empty() && !r@[3].recommended,
        r@[4].name@ == "gemma2:9b"@ && r@[4].size@ == "5.5 GB"@
            && r@[4].modified_at@ == Seq::<char>::empty() && !r@[4].recommended,
{
    let mut models: Vec<OllamaModelInfo> = Vec::new();
    models.push(OllamaModelInfo {
        name: "llama3.2:3b".to_owned(),
        size: "2 GB".to_owned(),
        modified_at: String::new(),
        recommended: true,
    });
    models.push(OllamaModelInfo {
        name: "llama3:8b".to_owned(),
        size: "4.7 GB".to_owned(),
        modified_at: String::new(),
        recommended: true,
    });
    models.push(OllamaModelInfo {
        name: "mistral:7b".to_owned(),
        size: "4.1 GB".to_owned(),
        modified_at: String::new(),
        recommended: true,
    });
    models.push(OllamaModelInfo {
        name: "phi3:3.8b".to_owned(),
        size: "2.3 GB".to_owned(),
        modified_at: String::new(),
        recommended: false,
    });
    models.push(OllamaModelInfo {
        name: "gemma2:9b".to_owned(),
        size: "5.5 GB".to_owned(),
        modified_at: String::new(),
        recommended: false,
    });
    models
}

/// The runtime status report: what the three probes said, and a message for
/// the connection outcome.
pub fn check_docker_status(
    client_init: Result<(), String>,
    available: bool,
    has_nvidia: bool,
    container_running: bool,
) -> (r: DockerStatus)
    ensures
        client_init is Ok ==> ({
            &&& r.available == available
            &&& r.container_running == container_running
            &&& r.has_nvidia_gpu == has_nvidia
            &&& (available ==> r.message@ == "Docker is running"@)
            &&& (!available ==> r.message@ == "Docker is not running"@)
        }),
        client_init matches Err(m) ==> ({
            &&& !r.available
            &&& !r.container_running
            &&& !r.has_nvidia_gpu
            &&& r.message@ == "Docker error: "@ + m@
        }),
{
    match client_init {
        Ok(()) => DockerStatus {
            available,
            container_running,
            has_nvidia_gpu: has_nvidia,
            message: if available {
                "Docker is running".to_owned()
            } else {
                "Docker is not running".to_owned()
            },
        },
        Err(m) => {
            let mut message = "Docker error: ".to_owned();
            message.append(m.as_str());
            DockerStatus {
                available: false,
                container_running: false,
                has_nvidia_gpu: false,
                message,
            }
        },
    }
}

/// The rewrite-backend status report: a cloud backend is available when its
/// key is configured, the local one when its server answered, and a disabled
/// backend never.
pub fn check_llm_backend(
    backend: LLMBackend,
    api_key_set: bool,
    ollama_probe_ok: bool,
) -> (r: BackendStatus)
    ensures
        r.name@ == "LLM"@,
        backend is OpenAI ==> r.available == api_key_set,
        backend is Ollama ==> r.available == ollama_probe_ok,
        backend is Disabled ==> !r.available,
        r.available ==> r.message@ == "Ready"@,
        !r.available ==> r.message@ == "Not configured or not running"@,
{
    let available = match backend {
        LLMBackend::OpenAI => api_key_set,
        LLMBackend::Ollama => ollama_probe_ok,
        LLMBackend::Disabled => false,
    };
    BackendStatus {
        name: "LLM".to_owned(),
        available,
        message: if available {
            "Ready".to_owned()
        } else {
            "Not configured or not running".to_owned()
        },
    }
}

/// The transcription-backend status report: a failed service construction is
/// reported as such; otherwise availability is the probe's success or a
/// configured key, and the message names what the chosen backend still needs.
pub fn check_transcription_backend(
    service_init: Result<(), String>,
    backend: TranscriptionBackend,
    api_key_set: bool,
    probe_ok: bool,
) -> (r: BackendStatus)
    ensures
        r.name@ == "Transcription"@,
        service_init matches Err(m) ==> (!r.available && r.message@ == "Error: "@ + m@),
        service_init is Ok ==> ({
            &&& r.available == (probe_ok || api_key_set)
            &&& (backend is OpenAI && api_key_set ==> r.message@ == "Ready"@)
            &&& (backend is OpenAI && !api_key_set ==> r.message@ == "API key not configured"@)
            &&& (backend is FasterWhisper ==> r.message@ == "Docker container ready"@)
        }),
{
    match service_init {
        Err(m) => {
            let mut message = "Error: ".to_owned();
            message.append(m.as_str());
            BackendStatus { name: "Transcription".to_owned(), available: false, message }
        },
        Ok(()) => {
            let message = match backend {
                TranscriptionBackend::OpenAI => if api_key_set {
                    "Ready".to_owned()
                } else {
                    "API key not configured".to_owned()
                },
                TranscriptionBackend::FasterWhisper => "Docker container ready".to_owned(),
            };
            BackendStatus {
                name: "Transcription".to_owned(),
                available: probe_ok || api_key_set,
                message,
            }
        },
    }
}

/// The system information report, from the probed facts: operating system
/// name and version, processor brand, and total memory in whole gigabytes.
pub fn get_system_info(
    os_name: &str,
    os_version: &str,
    cpu_brand: &str,
    total_ram_gb: u32,
) -> (r: String)
    ensures
        r@ == "OS: "@ + os_name@ + " "@ + os_version@ + "\nCPU: "@ + cpu_brand@
            + "\nTotal RAM: "@ + spec_decimal(total_ram_gb as nat) + " GB"@,
{
    let mut r = "OS: ".to_owned();
    r.append(os_name);
    r.append(" ");
    r.append(os_version);
    r.append("\nCPU: ");
    r.append(cpu_brand);
    r.append("\nTotal RAM: ");
    r.append(u32_to_decimal(total_ram_gb).as_str());
    r.append(" GB");
    r
}

/// The rewrite server's root URL: the configured chat base URL with its API
/// version suffix removed wherever it occurs.
pub fn ollama_root_url(base_url: &str) -> (r: String)
    ensures
        r@ == spec_remove_all(base_url@, "/v1"@),
{
    proof {
        reveal_strlit("/v1");
    }
    str_remove_all(base_url, "/v1")
}

/// The rewrite-server status report for the given base URL.
pub fn check_ollama_status(base_url: String, probe_ok: bool) -> (r: OllamaStatus)
    ensures
        r.available == probe_ok,
        r.base_url == base_url,
        probe_ok ==> r.message@ == "Ollama is running"@,
        !probe_ok ==> r.message@ == "Ollama is not running or not installed"@,
{
    OllamaStatus {
        available: probe_ok,
        base_url,
        message: if probe_ok {
            "Ollama is running".to_owned()
        } else {
            "Ollama is not running or not installed".to_owned()
        },
    }
}

} // verus!
