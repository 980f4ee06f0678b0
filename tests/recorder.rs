use ostt::recorder::{finalize_step, FinalizeStep, STOP_TIMEOUT_MS};
use ostt::controller::{ControllerAction, ControllerEvent, ControllerState, RecordingController};
use ostt::recorder::{
    AudioRecorder, FailReason, FinalizeOutcome, SessionStatus, SpawnOutcome, StartError, StopError,
};

fn capturing() -> AudioRecorder {
    let mut r = AudioRecorder::new(64, 16000);
    assert_eq!(r.start("take.wav".to_string(), SpawnOutcome::Spawned), Ok(()));
    r
}

#[test]
fn silence_then_stop_finishes_and_transcribes() {
    let mut c = RecordingController::new();
    assert_eq!(c.handle(ControllerEvent::StartPressed), ControllerAction::StartRecorder);
    let mut r = AudioRecorder::new(64, 16000);
    let ok = r.start("take.wav".to_string(), SpawnOutcome::Spawned).is_ok();
    c.handle(ControllerEvent::StartCompleted(ok));
    assert_eq!(c.state(), ControllerState::Recording);
    for _ in 0..3 {
        r.record_frame(&vec![0i16; 16000]);
    }
    assert_eq!(r.duration_ms(), 3000);
    assert_eq!(c.handle(ControllerEvent::StopPressed), ControllerAction::StopRecorder);
    assert_eq!(r.begin_stop(), Ok(()));
    assert_eq!(r.status(), SessionStatus::Finalizing);
    let done = r.finish_stop(FinalizeOutcome::Exited, 48044).unwrap();
    assert_eq!(done.path, "take.wav");
    assert_eq!(done.duration_ms, 3000);
    assert_eq!(r.status(), SessionStatus::Finished);
    assert_eq!(c.handle(ControllerEvent::StopCompleted(true)), ControllerAction::Dispatch);
    assert_eq!(c.state(), ControllerState::Transcribing);
}

#[test]
fn backend_not_found_keeps_idle() {
    let mut r = AudioRecorder::new(8, 16000);
    assert_eq!(r.start("a.wav".to_string(), SpawnOutcome::NotFound), Err(StartError::NotFound));
    assert_eq!(r.status(), SessionStatus::Idle);
    let mut c = RecordingController::new();
    c.handle(ControllerEvent::StartPressed);
    assert_eq!(c.handle(ControllerEvent::StartCompleted(false)), ControllerAction::ShowError);
    assert_eq!(c.state(), ControllerState::Idle);
}

#[test]
fn spawn_failure_keeps_idle() {
    let mut r = AudioRecorder::new(8, 16000);
    assert_eq!(r.start("a.wav".to_string(), SpawnOutcome::Failed), Err(StartError::SpawnFailed));
    assert_eq!(r.status(), SessionStatus::Idle);
}

#[test]
fn second_start_is_refused() {
    let mut r = capturing();
    assert_eq!(r.start("b.wav".to_string(), SpawnOutcome::Spawned), Err(StartError::AlreadyRecording));
    assert_eq!(r.output_path(), Some("take.wav".to_string()));
}

#[test]
fn unresponsive_backend_truncates_and_keeps_partial_file() {
    let mut r = capturing();
    r.record_frame(&vec![1000i16; 1600]);
    r.begin_stop().unwrap();
    assert_eq!(
        r.finish_stop(FinalizeOutcome::TimedOut, 3200),
        Err(StopError::Truncated { partial: Some("take.wav".to_string()) })
    );
    assert_eq!(r.status(), SessionStatus::Failed(FailReason::Truncated));
}

#[test]
fn timeout_with_empty_file_offers_nothing() {
    let mut r = capturing();
    r.begin_stop().unwrap();
    assert_eq!(r.finish_stop(FinalizeOutcome::TimedOut, 0), Err(StopError::Truncated { partial: None }));
}

#[test]
fn graceful_stop_with_empty_file_fails() {
    let mut r = capturing();
    r.begin_stop().unwrap();
    assert_eq!(r.finish_stop(FinalizeOutcome::Exited, 0), Err(StopError::Empty));
    assert_eq!(r.status(), SessionStatus::Failed(FailReason::Empty));
}

#[test]
fn stop_without_session_is_refused() {
    let mut r = AudioRecorder::new(8, 16000);
    assert_eq!(r.begin_stop(), Err(StopError::NotRecording));
    assert_eq!(r.finish_stop(FinalizeOutcome::Exited, 10), Err(StopError::NotRecording));
    assert_eq!(r.status(), SessionStatus::Idle);
}

#[test]
fn cancel_is_idempotent() {
    let mut r = capturing();
    r.record_frame(&vec![5000i16; 160]);
    assert_eq!(r.cancel(), Some("take.wav".to_string()));
    assert_eq!(r.status(), SessionStatus::Idle);
    assert_eq!(r.cancel(), None);
    assert_eq!(r.status(), SessionStatus::Idle);
    assert_eq!(r.sample(), None);
    assert_eq!(r.output_path(), None);
    let mut idle = AudioRecorder::new(8, 16000);
    assert_eq!(idle.cancel(), None);
    assert_eq!(idle.status(), SessionStatus::Idle);
}

#[test]
fn samples_come_out_in_arrival_order() {
    let mut r = capturing();
    r.record_frame(&vec![16384i16]);
    r.record_frame(&vec![0i16]);
    r.record_frame(&vec![-32768i16]);
    assert_eq!(r.sample(), Some(500));
    assert_eq!(r.sample(), Some(20));
    assert_eq!(r.sample(), Some(1000));
    assert_eq!(r.sample(), None);
}

#[test]
fn frames_outside_capture_are_ignored() {
    let mut r = AudioRecorder::new(8, 16000);
    r.record_frame(&vec![1000i16; 100]);
    assert_eq!(r.sample(), None);
    assert_eq!(r.duration_ms(), 0);
}

#[test]
fn backend_exit_fails_the_session() {
    let mut r = capturing();
    r.backend_exited();
    assert_eq!(r.status(), SessionStatus::Failed(FailReason::BackendExited));
    assert_eq!(r.output_path(), Some("take.wav".to_string()));
    assert!(!r.is_recording());
}

#[test]
fn finalize_waits_then_terminates() {
    assert_eq!(finalize_step(100, false, STOP_TIMEOUT_MS), FinalizeStep::Wait);
    assert_eq!(finalize_step(5000, false, STOP_TIMEOUT_MS), FinalizeStep::Terminate);
    assert_eq!(finalize_step(9000, true, STOP_TIMEOUT_MS), FinalizeStep::Exited);
    assert_eq!(finalize_step(0, true, STOP_TIMEOUT_MS), FinalizeStep::Exited);
}
