use ostt::controller::{ControllerAction, ControllerEvent, ControllerState, RecordingController};

#[test]
fn cancel_in_idle_is_a_no_op() {
    let mut c = RecordingController::new();
    assert_eq!(c.handle(ControllerEvent::CancelPressed), ControllerAction::Nothing);
    assert_eq!(c.state(), ControllerState::Idle);
    assert_eq!(c.handle(ControllerEvent::CancelPressed), ControllerAction::Nothing);
    assert_eq!(c.state(), ControllerState::Idle);
}

#[test]
fn cancel_while_recording_returns_to_idle() {
    let mut c = RecordingController::new();
    c.handle(ControllerEvent::StartCompleted(true));
    assert_eq!(c.handle(ControllerEvent::CancelPressed), ControllerAction::CancelRecorder);
    assert_eq!(c.state(), ControllerState::Cancelling);
    c.handle(ControllerEvent::CancelCompleted);
    assert_eq!(c.state(), ControllerState::Idle);
}

#[test]
fn stop_cannot_skip_recording() {
    let mut c = RecordingController::new();
    assert_eq!(c.handle(ControllerEvent::StopPressed), ControllerAction::Nothing);
    assert_eq!(c.state(), ControllerState::Idle);
    c.handle(ControllerEvent::StopCompleted(true));
    assert_eq!(c.state(), ControllerState::Idle);
}

#[test]
fn failures_return_to_idle_after_dismissal() {
    let mut c = RecordingController::new();
    c.handle(ControllerEvent::StartCompleted(true));
    c.handle(ControllerEvent::StopPressed);
    c.handle(ControllerEvent::StopCompleted(true));
    assert_eq!(c.handle(ControllerEvent::TranscriptionCompleted(false)), ControllerAction::ShowError);
    assert_eq!(c.state(), ControllerState::Failed);
    c.handle(ControllerEvent::Dismissed);
    assert_eq!(c.state(), ControllerState::Idle);
}

#[test]
fn success_saves_history() {
    let mut c = RecordingController::new();
    c.handle(ControllerEvent::StartCompleted(true));
    c.handle(ControllerEvent::StopPressed);
    c.handle(ControllerEvent::StopCompleted(true));
    assert_eq!(c.handle(ControllerEvent::TranscriptionCompleted(true)), ControllerAction::SaveHistory);
    assert_eq!(c.state(), ControllerState::Succeeded);
    c.handle(ControllerEvent::Dismissed);
    assert_eq!(c.state(), ControllerState::Idle);
}

#[test]
fn backend_failure_while_recording_fails() {
    let mut c = RecordingController::new();
    c.handle(ControllerEvent::StartCompleted(true));
    assert_eq!(c.handle(ControllerEvent::BackendFailed), ControllerAction::ShowError);
    assert_eq!(c.state(), ControllerState::Failed);
}
