use nyon::advisory::{
    AdvisoryBackend, AdvisoryController, AdvisoryTrigger, CompletionDisposition,
    GpuAdvisoryError, MODEL_VERSION, SnapshotScores,
};
use nyon::game::Tick;

type Controller = AdvisoryController<u32, [u8; 2]>;

#[test]
fn due_requests_publish_cpu_scores_and_go_to_an_idle_gpu() {
    let mut controller = Controller::new(1, true);
    assert!(controller.gpu_enabled());
    let outcome = controller
        .request_if_due(Tick(0), 77, AdvisoryTrigger::Initialization, 10)
        .unwrap();
    assert_eq!(outcome.snapshot.backend, AdvisoryBackend::Cpu);
    assert_eq!(outcome.snapshot.scores, SnapshotScores::Cpu(10));
    assert_eq!(outcome.snapshot.metadata.request_id, 0);
    assert_eq!(outcome.snapshot.metadata.model_version, MODEL_VERSION);
    assert_eq!(outcome.snapshot.metadata.source_fingerprint, 77);
    let sent = outcome.gpu_request.unwrap();
    assert_eq!(sent.payload, 10);
    assert!(controller.has_in_flight_request());

    let second = controller
        .request_if_due(Tick(30), 78, AdvisoryTrigger::Tick, 11)
        .unwrap();
    assert_eq!(second.snapshot.metadata.request_id, 1);
    assert!(second.gpu_request.is_none());
    assert!(controller.has_queued_request());
    assert_eq!(controller.published(), Some(second.snapshot));
}

#[test]
fn the_cadence_requests_once_per_multiple() {
    let mut controller = Controller::new(1, false);
    assert!(controller
        .request_if_due(Tick(31), 1, AdvisoryTrigger::Tick, 1)
        .is_none());
    assert!(controller
        .request_if_due(Tick(60), 1, AdvisoryTrigger::Tick, 1)
        .is_some());
    assert!(controller
        .request_if_due(Tick(60), 1, AdvisoryTrigger::Tick, 1)
        .is_none());
    assert!(controller
        .request_if_due(Tick(60), 1, AdvisoryTrigger::MaterialEvent, 2)
        .is_some());
}

#[test]
fn accepted_gpu_scores_are_published_and_the_queue_moves_up() {
    let mut controller = Controller::new(1, true);
    let first = controller
        .request_if_due(Tick(0), 1, AdvisoryTrigger::Initialization, 10)
        .unwrap();
    let metadata = first.snapshot.metadata;
    let stale = controller.complete_gpu(metadata, Some([1, 2]));
    assert_eq!(stale.disposition, CompletionDisposition::Accepted);
    assert_eq!(stale.snapshot.unwrap().scores, SnapshotScores::Gpu([1, 2]));
    assert_eq!(stale.snapshot.unwrap().backend, AdvisoryBackend::WebGpu);
    assert!(!controller.has_in_flight_request());

    let older = controller
        .request_if_due(Tick(0), 2, AdvisoryTrigger::Restart, 20)
        .unwrap();
    let newer = controller
        .request_if_due(Tick(0), 3, AdvisoryTrigger::Restart, 30)
        .unwrap();
    assert!(newer.gpu_request.is_none());
    let outcome = controller.complete_gpu(older.snapshot.metadata, Some([3, 4]));
    assert_eq!(outcome.disposition, CompletionDisposition::Stale);
    assert!(outcome.snapshot.is_none());
    assert_eq!(outcome.gpu_request.unwrap().payload, 30);
    assert_eq!(controller.published().unwrap().scores, SnapshotScores::Cpu(30));
}

#[test]
fn an_answer_for_another_request_changes_nothing() {
    let mut controller = Controller::new(1, true);
    let first = controller
        .request_if_due(Tick(0), 1, AdvisoryTrigger::Initialization, 10)
        .unwrap();
    let mut other = first.snapshot.metadata;
    other.request_id = 9;
    let outcome = controller.complete_gpu(other, Some([1, 1]));
    assert_eq!(outcome.disposition, CompletionDisposition::Stale);
    assert!(outcome.snapshot.is_none());
    assert!(controller.has_in_flight_request());
}

#[test]
fn a_gpu_failure_falls_back_until_a_new_device_epoch() {
    let mut controller = Controller::new(1, true);
    let first = controller
        .request_if_due(Tick(0), 1, AdvisoryTrigger::Initialization, 10)
        .unwrap();
    let outcome = controller.complete_gpu(first.snapshot.metadata, None);
    assert_eq!(outcome.disposition, CompletionDisposition::Fallback);
    let shown = outcome.snapshot.unwrap();
    assert_eq!(shown.backend, AdvisoryBackend::CpuFallback);
    assert_eq!(shown.scores, SnapshotScores::Cpu(10));
    assert!(!controller.gpu_enabled());

    controller.set_device_epoch(1, true);
    assert!(!controller.gpu_enabled());
    let next = controller
        .request_if_due(Tick(0), 2, AdvisoryTrigger::Restart, 11)
        .unwrap();
    assert_eq!(next.snapshot.backend, AdvisoryBackend::CpuFallback);
    assert!(next.gpu_request.is_none());

    controller.set_device_epoch(2, true);
    assert!(controller.gpu_enabled());
    let again = controller
        .request_if_due(Tick(0), 3, AdvisoryTrigger::Restart, 12)
        .unwrap();
    assert_eq!(again.snapshot.backend, AdvisoryBackend::Cpu);
    assert!(again.gpu_request.is_some());
}

#[test]
fn a_device_failure_republishes_the_newest_cpu_scores() {
    let mut controller = Controller::new(4, true);
    let outcome = controller.fail_device_epoch(GpuAdvisoryError::Busy);
    assert_eq!(outcome.disposition, CompletionDisposition::Fallback);
    assert!(outcome.snapshot.is_none());
    assert!(!controller.gpu_enabled());

    let mut controller = Controller::new(4, true);
    controller
        .request_if_due(Tick(0), 1, AdvisoryTrigger::Initialization, 10)
        .unwrap();
    let outcome = controller.fail_device_epoch(GpuAdvisoryError::Device(String::from("lost")));
    assert_eq!(outcome.snapshot.unwrap().scores, SnapshotScores::Cpu(10));
    assert_eq!(
        controller.published().unwrap().backend,
        AdvisoryBackend::CpuFallback
    );
    assert!(!controller.has_in_flight_request());
}
