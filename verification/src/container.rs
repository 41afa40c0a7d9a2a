//! Lifecycle policy for the containerised inference backend.
//!
//! The container runtime itself is reached over its local socket outside the
//! library.  [`DockerClient`] is the decision core: every method takes what
//! the runtime reported as plain values and returns the exact action to
//! perform, so the caller's loop holds no policy of its own.

use vstd::prelude::*;

use crate::error::AppError;
use crate::textutil::{spec_decimal, u32_to_decimal};

verus! {

/// The client-observed state of the inference container.  `Starting` is a
/// transient label used while the start sequence runs; the runtime never
/// reports it.  `Unreachable` is the label for a runtime that does not answer.
#[derive(Debug, Clone, Copy, PartialEq, Eq, Structural)]
pub enum ContainerState {
    Absent,
    Stopped,
    Starting,
    Running,
    Unreachable,
}

/// What a start call decides to do, as a spec-level kind.
#[derive(Debug, Clone, Copy, PartialEq, Eq, Structural)]
pub enum StartActionKind {
    NoOp,
    StartExisting,
    CreateAndStart,
}

/// The start decision for a container observed to exist and/or run.
pub open spec fn spec_start_action(exists: bool, running: bool) -> StartActionKind {
    if exists && running {
        StartActionKind::NoOp
    } else if exists {
        StartActionKind::StartExisting
    } else {
        StartActionKind::CreateAndStart
    }
}

/// Whether the container exists after a successful start call.
pub open spec fn spec_exists_after_start(exists: bool, running: bool) -> bool {
    true
}

/// Whether the container runs after a successful start call.
pub open spec fn spec_running_after_start(exists: bool, running: bool) -> bool {
    true
}

/// Accelerator support: the runtime reports an accelerator-capable profile,
/// or the platform capability probe succeeds.
pub open spec fn spec_accelerator_support(runtime_reports: bool, probe_ok: bool) -> bool {
    runtime_reports || probe_ok
}

/// The image a detection outcome selects.
pub open spec fn spec_image_name(has_gpu: bool) -> Seq<char> {
    if has_gpu {
        "fedirz/faster-whisper-server:latest-cuda"@
    } else {
        "fedirz/faster-whisper-server:latest-cpu"@
    }
}

/// Everything a creation of the absent container fixes: the image, the fixed
/// name, the loopback port binding, the model environment, and whether all
/// accelerator devices are granted.
pub struct ContainerRequest {
    pub name: String,
    pub image: String,
    pub container_port: u16,
    pub host_ip: String,
    pub host_port: u16,
    pub gpu_all_devices: bool,
    pub env_model: String,
    pub env_device: String,
}

/// The start plan: nothing, start the existing container, or pull the image
/// and create the container before starting it.
pub enum StartPlan {
    AlreadyRunning,
    StartExisting { name: String },
    CreateAndStart { request: ContainerRequest },
}

/// The stop plan: nothing, or a stop bounded by a grace period.
pub enum StopPlan {
    NothingToStop,
    StopWithGrace { name: String, grace_seconds: u32 },
}

/// The removal plan: nothing, a stop bounded by the grace period followed by
/// a forced removal, or a forced removal alone.
pub enum RemovePlan {
    NothingToRemove,
    StopThenRemove { name: String, grace_seconds: u32 },
    RemoveForce { name: String },
}

/// One item of the image pull progress stream, reduced to what the policy
/// reads: progress, or the stream error's message.
pub enum PullEvent {
    Progress,
    Failure(String),
}

/// One poll of the readiness loop: the container stopped, the health
/// endpoint answered with success, or it did not answer with success yet.
#[derive(Debug, Clone, Copy, PartialEq, Eq, Structural)]
pub enum ReadyProbe {
    StoppedUnexpectedly,
    Healthy,
    NotReady,
}

/// What a readiness wait came to: its outcome, how many polls it used, and
/// how long it took at two time units per poll.
pub struct WaitReport {
    pub outcome: Result<(), AppError>,
    pub attempts_used: u32,
    pub elapsed_seconds: u64,
}

/// The full contract of [`DockerClient::wait_for_ready`] over the observed
/// probes: bounded attempts, two time units per attempt, every earlier poll
/// not ready, success exactly on a healthy poll, early failure exactly on a
/// stopped container, and the exact error messages.
pub open spec fn spec_wait_contract(probes: Seq<ReadyProbe>, max_attempts: u32, r: WaitReport) -> bool {
    &&& r.attempts_used <= max_attempts
    &&& r.elapsed_seconds == 2 * r.attempts_used
    &&& (max_attempts > 0 ==> r.attempts_used >= 1)
    &&& forall|j: int| 0 <= j < r.attempts_used - 1 ==> probes[j] is NotReady
    &&& (r.outcome is Ok <==> (r.attempts_used >= 1 && probes[r.attempts_used - 1] is Healthy))
    &&& ((r.outcome is Err && r.attempts_used < max_attempts)
        ==> probes[r.attempts_used - 1] is StoppedUnexpectedly)
    &&& (r.outcome matches Err(e) ==> e matches AppError::Docker(m) && (
        if r.attempts_used >= 1 && probes[r.attempts_used - 1] is StoppedUnexpectedly {
            m@ == "Container stopped unexpectedly"@
        } else {
            m@ == "Container did not become ready after "@ + spec_decimal(max_attempts as nat)
                + " attempts"@ && r.attempts_used == max_attempts
        }
    ))
}

/// The decision core of the container lifecycle.  The connection to the
/// runtime lives with the caller; each method here turns one set of observed
/// facts into the next action.
pub struct DockerClient {}

impl DockerClient {
    /// A decision core.  Connecting to the runtime is the caller's step.
    pub fn new() -> (r: Self) {
        DockerClient {}
    }

    /// The fixed name of the inference container.
    pub fn container_name(&self) -> (r: &str)
        ensures
            r@ == "open-whisperflow-whisper"@,
    {
        "open-whisperflow-whisper"
    }

    /// The base URL of the container's API on the fixed loopback port.
    pub fn get_api_url(&self) -> (r: String)
        ensures
            r@ == "http://127.0.0.1:8000"@,
    {
        "http://127.0.0.1:8000".to_owned()
    }

    /// The URL of the container's health endpoint.
    pub fn health_url(&self) -> (r: String)
        ensures
            r@ == "http://127.0.0.1:8000/health"@,
    {
        "http://127.0.0.1:8000/health".to_owned()
    }

    /// Accelerator support from the two detection sources: the runtime's
    /// reported profiles and the platform capability probe.
    pub fn has_nvidia_gpu(&self, runtime_reports_nvidia: bool, probe_command_ok: bool) -> (r: bool)
        ensures
            r == spec_accelerator_support(runtime_reports_nvidia, probe_command_ok),
    {
        runtime_reports_nvidia || probe_command_ok
    }

    /// The image to run: accelerator-enabled when support was detected, the
    /// CPU-only image otherwise.
    pub fn get_image_name(&self, has_gpu: bool) -> (r: String)
        ensures
            r@ == spec_image_name(has_gpu),
    {
        if has_gpu {
            "fedirz/faster-whisper-server:latest-cuda".to_owned()
        } else {
            "fedirz/faster-whisper-server:latest-cpu".to_owned()
        }
    }

    /// A container that does not exist cannot be running; otherwise the
    /// inspected status decides.
    pub fn is_container_running(&self, exists: bool, inspected_running: bool) -> (r: bool)
        ensures
            r == (exists && inspected_running),
    {
        exists && inspected_running
    }

    /// The observed state from the two queries: existence, then status.
    pub fn container_state(&self, exists: bool, inspected_running: bool) -> (r: ContainerState)
        ensures
            !exists ==> r is Absent,
            exists && inspected_running ==> r is Running,
            exists && !inspected_running ==> r is Stopped,
    {
        if !exists {
            ContainerState::Absent
        } else if inspected_running {
            ContainerState::Running
        } else {
            ContainerState::Stopped
        }
    }

    /// Drains the image pull progress stream: success only when every item
    /// was progress; the first stream error fails the pull with its message.
    pub fn pull_image(&self, events: &Vec<PullEvent>) -> (r: Result<(), AppError>)
        ensures
            (r is Ok <==> (forall|k: int| #![trigger events@[k]]
                0 <= k < events@.len() ==> !(events@[k] is Failure))),
            r matches Err(e) ==> exists|k: int| #![trigger events@[k]]
                0 <= k < events@.len()
                && (forall|j: int| #![trigger events@[j]] 0 <= j < k ==> !(events@[j] is Failure))
                && (events@[k] matches PullEvent::Failure(msg)
                    && e matches AppError::Docker(m)
                    && m@ == "Failed to pull image: "@ + msg@),
    {
        let mut i: usize = 0;
        while i < events.len()
            invariant
                0 <= i <= events@.len(),
                forall|j: int| #![trigger events@[j]] 0 <= j < i ==> !(events@[j] is Failure),
            decreases events@.len() - i,
        {
            match &events[i] {
                PullEvent::Progress => {},
                PullEvent::Failure(msg) => {
                    let mut m = "Failed to pull image: ".to_owned();
                    m.append(msg.as_str());
                    return Err(AppError::Docker(m));
                },
            }
            i += 1;
        }
        Ok(())
    }

    /// The idempotent start decision: no action when the container already
    /// runs, a plain start when it exists but is stopped, and otherwise the
    /// full creation request with the selected image, the fixed loopback
    /// port binding, and an all-devices accelerator grant when support was
    /// detected.
    pub fn start_container(&self, exists: bool, running: bool, has_gpu: bool) -> (p: StartPlan)
        ensures
            (p is AlreadyRunning <==> spec_start_action(exists, running) is NoOp),
            (p is StartExisting <==> spec_start_action(exists, running) is StartExisting),
            (p is CreateAndStart <==> spec_start_action(exists, running) is CreateAndStart),
            p matches StartPlan::StartExisting { name } ==> name@ == "open-whisperflow-whisper"@,
            p matches StartPlan::CreateAndStart { request } ==> ({
                &&& request.name@ == "open-whisperflow-whisper"@
                &&& request.image@ == spec_image_name(has_gpu)
                &&& request.container_port == 8000
                &&& request.host_ip@ == "127.0.0.1"@
                &&& request.host_port == 8000
                &&& request.gpu_all_devices == has_gpu
                &&& request.env_model@ == "WHISPER__MODEL=base"@
                &&& (has_gpu ==> request.env_device@ == "WHISPER__DEVICE=cuda"@)
                &&& (!has_gpu ==> request.env_device@ == "WHISPER__DEVICE=cpu"@)
            }),
    {
        if exists && running {
            StartPlan::AlreadyRunning
        } else if exists {
            StartPlan::StartExisting { name: "open-whisperflow-whisper".to_owned() }
        } else {
            let request = ContainerRequest {
                name: "open-whisperflow-whisper".to_owned(),
                image: self.get_image_name(has_gpu),
                container_port: 8000,
                host_ip: "127.0.0.1".to_owned(),
                host_port: 8000,
                gpu_all_devices: has_gpu,
                env_model: "WHISPER__MODEL=base".to_owned(),
                env_device: if has_gpu {
                    "WHISPER__DEVICE=cuda".to_owned()
                } else {
                    "WHISPER__DEVICE=cpu".to_owned()
                },
            };
            StartPlan::CreateAndStart { request }
        }
    }

    /// The stop decision: nothing when the container is absent or already
    /// stopped; otherwise a stop bounded by a ten-unit grace period.
    pub fn stop_container(&self, exists: bool, running: bool) -> (p: StopPlan)
        ensures
            !(exists && running) ==> p is NothingToStop,
            exists && running ==> (p matches StopPlan::StopWithGrace { name, grace_seconds }
                && name@ == "open-whisperflow-whisper"@ && grace_seconds == 10),
    {
        if exists && running {
            StopPlan::StopWithGrace {
                name: "open-whisperflow-whisper".to_owned(),
                grace_seconds: 10,
            }
        } else {
            StopPlan::NothingToStop
        }
    }

    /// The removal decision: nothing when the container is absent; a running
    /// container is stopped with the grace period first; removal is forced.
    pub fn remove_container(&self, exists: bool, running: bool) -> (p: RemovePlan)
        ensures
            !exists ==> p is NothingToRemove,
            exists && running ==> (p matches RemovePlan::StopThenRemove { name, grace_seconds }
                && name@ == "open-whisperflow-whisper"@ && grace_seconds == 10),
            exists && !running ==> (p matches RemovePlan::RemoveForce { name }
                && name@ == "open-whisperflow-whisper"@),
    {
        if !exists {
            RemovePlan::NothingToRemove
        } else if running {
            RemovePlan::StopThenRemove {
                name: "open-whisperflow-whisper".to_owned(),
                grace_seconds: 10,
            }
        } else {
            RemovePlan::RemoveForce { name: "open-whisperflow-whisper".to_owned() }
        }
    }

    /// Replays the readiness poll loop over the observed probes: each attempt
    /// waits two time units, fails at once when the container stopped, ends
    /// with success on a healthy answer, and gives up after `max_attempts`.
    pub fn wait_for_ready(&self, probes: &Vec<ReadyProbe>, max_attempts: u32) -> (r: WaitReport)
        requires
            probes@.len() >= max_attempts,
        ensures
            spec_wait_contract(probes@, max_attempts, r),
    {
        let mut i: u32 = 0;
        while i < max_attempts
            invariant
                0 <= i <= max_attempts,
                probes@.len() >= max_attempts,
                forall|j: int| 0 <= j < i ==> probes@[j] is NotReady,
            decreases max_attempts - i,
        {
            let probe = probes[i as usize];
            match probe {
                ReadyProbe::StoppedUnexpectedly => {
                    return WaitReport {
                        outcome: Err(AppError::Docker("Container stopped unexpectedly".to_owned())),
                        attempts_used: i + 1,
                        elapsed_seconds: 2 * ((i + 1) as u64),
                    };
                },
                ReadyProbe::Healthy => {
                    return WaitReport {
                        outcome: Ok(()),
                        attempts_used: i + 1,
                        elapsed_seconds: 2 * ((i + 1) as u64),
                    };
                },
                ReadyProbe::NotReady => {},
            }
            i += 1;
        }
        let mut m = "Container did not become ready after ".to_owned();
        m.append(u32_to_decimal(max_attempts).as_str());
        m.append(" attempts");
        WaitReport {
            outcome: Err(AppError::Docker(m)),
            attempts_used: max_attempts,
            elapsed_seconds: 2 * (max_attempts as u64),
        }
    }
}

/// Law: starting an already running container is a no-op that succeeds, and a
/// second start right after decides the same no-op; no creation is planned by
/// either call, so no duplicate container can arise.
pub proof fn lemma_start_container_idempotent()
    ensures
        spec_start_action(true, true) is NoOp,
        spec_start_action(
            spec_exists_after_start(true, true),
            spec_running_after_start(true, true),
        ) is NoOp,
        !(spec_start_action(true, true) is CreateAndStart),
{
}

/// Law: when the health endpoint never answers healthy, the wait ends in
/// failure after at most `max_attempts` polls, within `2 * max_attempts`
/// time units.
pub proof fn lemma_wait_never_healthy_fails_within_bound(
    probes: Seq<ReadyProbe>,
    max_attempts: u32,
    r: WaitReport,
)
    requires
        spec_wait_contract(probes, max_attempts, r),
        forall|j: int| 0 <= j < probes.len() ==> !(probes[j] is Healthy),
        probes.len() >= max_attempts,
    ensures
        r.outcome is Err,
        r.elapsed_seconds <= 2 * max_attempts,
{
}

/// Law: when the container stops between attempts, the wait fails at that
/// very attempt instead of polling on.
pub proof fn lemma_wait_fails_immediately_on_stop(
    probes: Seq<ReadyProbe>,
    max_attempts: u32,
    r: WaitReport,
    k: int,
)
    requires
        spec_wait_contract(probes, max_attempts, r),
        probes.len() >= max_attempts,
        0 <= k < max_attempts,
        probes[k] is StoppedUnexpectedly,
        forall|j: int| 0 <= j < k ==> probes[j] is NotReady,
    ensures
        r.attempts_used == k + 1,
        r.outcome is Err,
{
    assert(r.attempts_used >= 1);
    if r.attempts_used - 1 < k {
        // The deciding probe would be an earlier, not-ready one: it neither
        // succeeds nor stops the wait early, yet the wait would have ended
        // before reaching attempt k + 1 <= max_attempts.
        assert(probes[r.attempts_used - 1] is NotReady);
        assert(!(r.outcome is Ok));
        assert(r.attempts_used < max_attempts ==> probes[r.attempts_used - 1] is StoppedUnexpectedly);
        assert(r.attempts_used == max_attempts ==> k <= r.attempts_used - 1);
        assert(false);
    }
    if r.attempts_used - 1 > k {
        assert(probes[k] is NotReady);
        assert(false);
    }
    assert(probes[r.attempts_used - 1] is StoppedUnexpectedly);
    assert(!(r.outcome is Ok));
}

/// Law: when neither detection source reports accelerator support, the
/// CPU-only image is the selected one.
pub proof fn lemma_cpu_image_when_both_probes_fail()
    ensures
        !spec_accelerator_support(false, false),
        spec_image_name(spec_accelerator_support(false, false))
            == "fedirz/faster-whisper-server:latest-cpu"@,
{
}

} // verus!
