use ostt::dispatch::{
    classify_status, AttemptClass, Decision, Dispatcher, FailureKind, RequestError, RetryPolicy,
    TranscriptionRequest, DEFAULT_MAX_ATTEMPTS,
};
use ostt::model::TranscriptionModel;
use ostt::provider::TranscriptionProvider;

#[test]
fn three_transient_failures_then_success() {
    let mut d = Dispatcher::new(RetryPolicy::default_policy());
    for k in 1..=3u32 {
        assert_eq!(d.record(AttemptClass::Transient), Decision::Retry { delay_ms: 500 * k as u64 });
        assert!(!d.is_finished());
    }
    assert_eq!(d.record(AttemptClass::Success), Decision::Succeeded);
    assert_eq!(d.retries(), 3);
    assert_eq!(d.attempts(), 4);
    assert!(d.is_finished());
}

#[test]
fn transient_failures_stop_at_the_cap() {
    let mut d = Dispatcher::new(RetryPolicy::default_policy());
    let mut last = Decision::Succeeded;
    while !d.is_finished() {
        last = d.record(AttemptClass::Transient);
    }
    assert_eq!(last, Decision::Failed(FailureKind::Transient));
    assert_eq!(d.attempts(), DEFAULT_MAX_ATTEMPTS);
}

#[test]
fn rejection_is_never_retried() {
    let mut d = Dispatcher::new(RetryPolicy::default_policy());
    assert_eq!(d.record(AttemptClass::Rejected), Decision::Failed(FailureKind::Rejected));
    assert!(d.is_finished());
    assert_eq!(d.retries(), 0);
}

#[test]
fn statuses_are_classified() {
    assert_eq!(classify_status(Some(200)), AttemptClass::Success);
    assert_eq!(classify_status(Some(401)), AttemptClass::Rejected);
    assert_eq!(classify_status(Some(400)), AttemptClass::Rejected);
    assert_eq!(classify_status(Some(503)), AttemptClass::Transient);
    assert_eq!(classify_status(None), AttemptClass::Transient);
}

#[test]
fn backoff_grows_and_saturates() {
    let p = RetryPolicy { max_attempts: 5, base_delay_ms: 250 };
    assert_eq!(p.delay_before_retry(1), 250);
    assert_eq!(p.delay_before_retry(2), 500);
    assert_eq!(p.delay_before_retry(0), 0);
    let big = RetryPolicy { max_attempts: 5, base_delay_ms: u64::MAX / 2 + 1 };
    assert_eq!(big.delay_before_retry(2), u64::MAX);
}

#[test]
fn request_needs_a_credential() {
    let m = TranscriptionModel::DeepgramNova3;
    assert_eq!(
        TranscriptionRequest::new("a.wav".to_string(), m, vec![], None),
        Err(RequestError::MissingCredential)
    );
    assert_eq!(
        TranscriptionRequest::new("a.wav".to_string(), m, vec![], Some(String::new())),
        Err(RequestError::MissingCredential)
    );
    let q = TranscriptionRequest::new("a.wav".to_string(), m, vec!["Verus".to_string()], Some("k".to_string()))
        .unwrap();
    assert_eq!(q.provider(), TranscriptionProvider::Deepgram);
    assert_eq!(q.endpoint(), "https://api.deepgram.com/v1/listen");
}

#[test]
fn conclude_shapes_the_result() {
    let q = TranscriptionRequest::new("a.wav".to_string(), TranscriptionModel::Whisper, vec![], Some("k".to_string()))
        .unwrap();
    assert_eq!(q.conclude(Decision::Retry { delay_ms: 1 }, String::new(), 0, String::new()), None);
    let ok = q.conclude(Decision::Succeeded, "  hello world\n".to_string(), 1500, String::new()).unwrap().unwrap();
    assert_eq!(ok.text, "hello world");
    assert_eq!(ok.duration_ms, 1500);
    assert_eq!(ok.model_used, TranscriptionModel::Whisper);
    let err = q
        .conclude(Decision::Failed(FailureKind::Rejected), String::new(), 0, "bad key".to_string())
        .unwrap()
        .unwrap_err();
    assert_eq!(err.kind, FailureKind::Rejected);
    assert!(!err.retryable);
    assert_eq!(err.message, "bad key");
}
