use whisperflow::container::{
    ContainerState, DockerClient, PullEvent, ReadyProbe, RemovePlan, StartPlan, StopPlan,
};
use whisperflow::error::AppError;

#[test]
fn test_start_container_idempotent() {
    let docker = DockerClient::new();
    // The container already exists and runs: both calls are successful no-ops
    // and neither plans a creation, so no duplicate container can appear.
    let first = docker.start_container(true, true, false);
    assert!(matches!(first, StartPlan::AlreadyRunning));
    let second = docker.start_container(true, true, false);
    assert!(matches!(second, StartPlan::AlreadyRunning));
}

#[test]
fn test_start_container_starts_stopped_container() {
    let docker = DockerClient::new();
    match docker.start_container(true, false, true) {
        StartPlan::StartExisting { name } => assert_eq!(name, "open-whisperflow-whisper"),
        _ => panic!("a stopped container is started, not recreated"),
    }
}

#[test]
fn test_start_container_creates_absent_container() {
    let docker = DockerClient::new();
    match docker.start_container(false, false, true) {
        StartPlan::CreateAndStart { request } => {
            assert_eq!(request.name, "open-whisperflow-whisper");
            assert_eq!(request.image, "fedirz/faster-whisper-server:latest-cuda");
            assert_eq!(request.container_port, 8000);
            assert_eq!(request.host_ip, "127.0.0.1");
            assert_eq!(request.host_port, 8000);
            assert!(request.gpu_all_devices);
            assert_eq!(request.env_model, "WHISPER__MODEL=base");
            assert_eq!(request.env_device, "WHISPER__DEVICE=cuda");
        }
        _ => panic!("an absent container is created"),
    }
    match docker.start_container(false, false, false) {
        StartPlan::CreateAndStart { request } => {
            assert_eq!(request.image, "fedirz/faster-whisper-server:latest-cpu");
            assert!(!request.gpu_all_devices);
            assert_eq!(request.env_device, "WHISPER__DEVICE=cpu");
        }
        _ => panic!("an absent container is created"),
    }
}

#[test]
fn test_cpu_image_when_both_probes_fail() {
    let docker = DockerClient::new();
    // Accelerator probe and capability command both fail.
    let has_gpu = docker.has_nvidia_gpu(false, false);
    assert!(!has_gpu);
    assert_eq!(
        docker.get_image_name(has_gpu),
        "fedirz/faster-whisper-server:latest-cpu"
    );
}

#[test]
fn test_gpu_detection_from_either_source() {
    let docker = DockerClient::new();
    assert!(docker.has_nvidia_gpu(true, false));
    assert!(docker.has_nvidia_gpu(false, true));
    assert_eq!(
        docker.get_image_name(true),
        "fedirz/faster-whisper-server:latest-cuda"
    );
}

#[test]
fn test_running_needs_existence() {
    let docker = DockerClient::new();
    assert!(!docker.is_container_running(false, true));
    assert!(!docker.is_container_running(true, false));
    assert!(docker.is_container_running(true, true));
}

#[test]
fn test_stop_container_plans() {
    let docker = DockerClient::new();
    assert!(matches!(docker.stop_container(false, false), StopPlan::NothingToStop));
    assert!(matches!(docker.stop_container(true, false), StopPlan::NothingToStop));
    match docker.stop_container(true, true) {
        StopPlan::StopWithGrace { name, grace_seconds } => {
            assert_eq!(name, "open-whisperflow-whisper");
            assert_eq!(grace_seconds, 10);
        }
        _ => panic!("a running container is stopped with the grace period"),
    }
}

#[test]
fn test_remove_container_plans() {
    let docker = DockerClient::new();
    assert!(matches!(docker.remove_container(false, false), RemovePlan::NothingToRemove));
    assert!(matches!(docker.remove_container(true, true), RemovePlan::StopThenRemove { .. }));
    assert!(matches!(docker.remove_container(true, false), RemovePlan::RemoveForce { .. }));
}

#[test]
fn test_wait_for_ready_gives_up_after_max_attempts() {
    let docker = DockerClient::new();
    let probes = vec![ReadyProbe::NotReady, ReadyProbe::NotReady, ReadyProbe::NotReady];
    let report = docker.wait_for_ready(&probes, 3);
    assert_eq!(report.attempts_used, 3);
    assert_eq!(report.elapsed_seconds, 6);
    match report.outcome {
        Err(AppError::Docker(m)) => {
            assert_eq!(m, "Container did not become ready after 3 attempts")
        }
        _ => panic!("a never-healthy endpoint fails the wait"),
    }
}

#[test]
fn test_wait_for_ready_fails_immediately_when_container_stops() {
    let docker = DockerClient::new();
    let probes = vec![
        ReadyProbe::NotReady,
        ReadyProbe::StoppedUnexpectedly,
        ReadyProbe::Healthy,
    ];
    let report = docker.wait_for_ready(&probes, 3);
    assert_eq!(report.attempts_used, 2);
    assert_eq!(report.elapsed_seconds, 4);
    match report.outcome {
        Err(AppError::Docker(m)) => assert_eq!(m, "Container stopped unexpectedly"),
        _ => panic!("a stopped container fails the wait at once"),
    }
}

#[test]
fn test_wait_for_ready_succeeds_on_healthy_probe() {
    let docker = DockerClient::new();
    let probes = vec![ReadyProbe::NotReady, ReadyProbe::Healthy, ReadyProbe::NotReady];
    let report = docker.wait_for_ready(&probes, 3);
    assert!(report.outcome.is_ok());
    assert_eq!(report.attempts_used, 2);
    assert_eq!(report.elapsed_seconds, 4);
}

#[test]
fn test_pull_image_drains_progress() {
    let docker = DockerClient::new();
    assert!(docker.pull_image(&vec![]).is_ok());
    assert!(docker
        .pull_image(&vec![PullEvent::Progress, PullEvent::Progress])
        .is_ok());
    let events = vec![
        PullEvent::Progress,
        PullEvent::Failure("layer missing".to_string()),
        PullEvent::Progress,
    ];
    match docker.pull_image(&events) {
        Err(AppError::Docker(m)) => assert_eq!(m, "Failed to pull image: layer missing"),
        _ => panic!("a stream error fails the pull"),
    }
}

#[test]
fn test_api_and_health_urls() {
    let docker = DockerClient::new();
    assert_eq!(docker.get_api_url(), "http://127.0.0.1:8000");
    assert_eq!(docker.health_url(), "http://127.0.0.1:8000/health");
    assert_eq!(docker.container_name(), "open-whisperflow-whisper");
}

#[test]
fn test_container_state_classification() {
    let docker = DockerClient::new();
    assert!(matches!(docker.container_state(false, false), ContainerState::Absent));
    assert!(matches!(docker.container_state(true, false), ContainerState::Stopped));
    assert!(matches!(docker.container_state(true, true), ContainerState::Running));
}
