use smelter_vulkan::shutdown::{next_shutdown_action, shutdown_plan, ShutdownAction, ShutdownState};

fn all_running() -> ShutdownState {
    ShutdownState {
        producer_running: true,
        pending_frame: true,
        submission_outstanding: true,
        importer_alive: true,
        exporter_alive: true,
    }
}

#[test]
fn end_of_stream_with_frame_in_flight() {
    let s = all_running();
    assert_eq!(
        shutdown_plan(s),
        vec![
            ShutdownAction::StopProducer,
            ShutdownAction::ReleasePendingFrame,
            ShutdownAction::WaitForSubmission,
            ShutdownAction::DestroyImporter,
            ShutdownAction::DestroyExporter,
        ]
    );
}

#[test]
fn nothing_to_do_when_quiescent() {
    let s = ShutdownState {
        producer_running: false,
        pending_frame: false,
        submission_outstanding: false,
        importer_alive: false,
        exporter_alive: false,
    };
    assert_eq!(next_shutdown_action(s), None);
    assert!(shutdown_plan(s).is_empty());
}

#[test]
fn producer_already_stopped_without_pending_frame() {
    let s = ShutdownState { producer_running: false, pending_frame: false, ..all_running() };
    assert_eq!(next_shutdown_action(s), Some(ShutdownAction::WaitForSubmission));
    assert_eq!(
        shutdown_plan(s),
        vec![ShutdownAction::WaitForSubmission, ShutdownAction::DestroyImporter, ShutdownAction::DestroyExporter]
    );
}

#[test]
fn exporter_outlives_importer() {
    let s = ShutdownState {
        producer_running: false,
        pending_frame: false,
        submission_outstanding: false,
        importer_alive: true,
        exporter_alive: true,
    };
    assert_eq!(next_shutdown_action(s), Some(ShutdownAction::DestroyImporter));
}
