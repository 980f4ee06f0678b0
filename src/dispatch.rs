//! Transcription dispatch: classifying the outcome of each network attempt,
//! deciding whether to retry and after how long, and shaping the final result.

use vstd::prelude::*;

use crate::model::{TranscriptionModel, provider_of, provider_endpoint};
use crate::provider::TranscriptionProvider;
use crate::text::{trim_text, trimmed};

verus! {

/// Attempts made for one request unless configured otherwise.
pub const DEFAULT_MAX_ATTEMPTS: u32 = 4;

/// The wait before the first retry unless configured otherwise; the k-th
/// retry waits k times as long.
pub const DEFAULT_BASE_DELAY_MS: u64 = 500;

/// The two kinds of failed transcription.
#[derive(Debug, Clone, Copy, PartialEq, Eq, Structural)]
pub enum FailureKind {
    /// The provider refused the request or its credential; retrying cannot help.
    Rejected,
    /// A network failure, a timeout or a server error; a retry may succeed.
    Transient,
}

/// The class of one attempt's outcome.
#[derive(Debug, Clone, Copy, PartialEq, Eq, Structural)]
pub enum AttemptClass {
    Success,
    Rejected,
    Transient,
}

/// The class of an attempt that got HTTP status `status`, or no response at
/// all (`None`: a network failure or a timeout).
pub open spec fn class_of(status: Option<u16>) -> AttemptClass {
    match status {
        None => AttemptClass::Transient,
        Some(c) => if 200 <= c <= 299 {
            AttemptClass::Success
        } else if 400 <= c <= 499 {
            AttemptClass::Rejected
        } else {
            AttemptClass::Transient
        },
    }
}

/// Classifies an attempt: a 2xx status succeeded, a 4xx one was rejected,
/// and anything else (no response, a timeout, a 5xx) is transient.
pub fn classify_status(status: Option<u16>) -> (r: AttemptClass)
    ensures
        r == class_of(status),
{
    match status {
        None => AttemptClass::Transient,
        Some(c) => if 200 <= c && c <= 299 {
            AttemptClass::Success
        } else if 400 <= c && c <= 499 {
            AttemptClass::Rejected
        } else {
            AttemptClass::Transient
        },
    }
}

/// How many attempts a request gets and how long to wait between them.
#[derive(Debug, Clone, Copy, PartialEq, Eq, Structural)]
pub struct RetryPolicy {
    pub max_attempts: u32,
    pub base_delay_ms: u64,
}

/// The wait before retry number `k` (from 1): `k` times the base delay,
/// saturating at the largest `u64`.
pub open spec fn backoff(base: u64, k: u32) -> u64 {
    if base as int * k as int > u64::MAX as int { u64::MAX } else { (base as int * k as int) as u64 }
}

impl RetryPolicy {
    /// The default policy: `DEFAULT_MAX_ATTEMPTS` attempts, linear backoff
    /// from `DEFAULT_BASE_DELAY_MS`.
    pub fn default_policy() -> (r: Self)
        ensures
            r.max_attempts == DEFAULT_MAX_ATTEMPTS,
            r.base_delay_ms == DEFAULT_BASE_DELAY_MS,
    {
        RetryPolicy { max_attempts: DEFAULT_MAX_ATTEMPTS, base_delay_ms: DEFAULT_BASE_DELAY_MS }
    }

    /// The wait before retry number `k`.
    pub fn delay_before_retry(&self, k: u32) -> (r: u64)
        ensures
            r == backoff(self.base_delay_ms, k),
    {
        if k == 0 {
            return 0;
        }
        if self.base_delay_ms > u64::MAX / (k as u64) {
            assert(self.base_delay_ms as int * k as int > u64::MAX as int) by (nonlinear_arith)
                requires
                    self.base_delay_ms > u64::MAX / (k as u64),
                    k > 0,
            ;
            u64::MAX
        } else {
            assert(self.base_delay_ms as int * k as int <= u64::MAX as int) by (nonlinear_arith)
                requires
                    self.base_delay_ms <= u64::MAX / (k as u64),
                    k > 0,
            ;
            self.base_delay_ms * (k as u64)
        }
    }
}

/// What to do after an attempt.
#[derive(Debug, Clone, Copy, PartialEq, Eq, Structural)]
pub enum Decision {
    /// Wait this long, then make another attempt.
    Retry { delay_ms: u64 },
    /// The transcript came back.
    Succeeded,
    /// Give up with this failure.
    Failed(FailureKind),
}

/// The decision after attempt number `n` (from 1) ended in `c` under
/// `policy`: success ends the request, a rejection ends it at once, and a
/// transient failure is retried, after the backoff for retry `n`, while the
/// policy's attempts are not used up.
pub open spec fn decide(policy: RetryPolicy, n: u32, c: AttemptClass) -> Decision {
    match c {
        AttemptClass::Success => Decision::Succeeded,
        AttemptClass::Rejected => Decision::Failed(FailureKind::Rejected),
        AttemptClass::Transient => if n < policy.max_attempts {
            Decision::Retry { delay_ms: backoff(policy.base_delay_ms, n) }
        } else {
            Decision::Failed(FailureKind::Transient)
        },
    }
}

/// The number of attempts made on a request whose attempts end in `outs`, in
/// order, when `left` attempts remain.
pub open spec fn attempts_made(left: nat, outs: Seq<AttemptClass>) -> nat
    decreases outs.len(),
{
    if outs.len() == 0 || left == 0 {
        0
    } else if outs[0] != AttemptClass::Transient || left == 1 {
        1
    } else {
        1 + attempts_made((left - 1) as nat, outs.drop_first())
    }
}

/// The retry bookkeeping of one request.
pub struct Dispatcher {
    policy: RetryPolicy,
    attempts: u32,
    finished: bool,
}

impl Dispatcher {
    pub closed spec fn spec_policy(&self) -> RetryPolicy {
        self.policy
    }

    pub closed spec fn spec_attempts(&self) -> nat {
        self.attempts as nat
    }

    pub closed spec fn spec_finished(&self) -> bool {
        self.finished
    }

    /// A request is over once its attempts are used up.
    pub closed spec fn wf(&self) -> bool {
        &&& self.attempts <= self.policy.max_attempts
        &&& self.attempts == self.policy.max_attempts ==> self.finished
    }

    /// Bookkeeping for a new request under `policy`, which must allow at least
    /// one attempt.
    pub fn new(policy: RetryPolicy) -> (r: Self)
        requires
            policy.max_attempts > 0,
        ensures
            r.wf(),
            r.spec_policy() == policy,
            r.spec_attempts() == 0,
            !r.spec_finished(),
    {
        Dispatcher { policy, attempts: 0, finished: false }
    }

    /// Attempts made so far.
    pub fn attempts(&self) -> (r: u32)
        ensures
            r == self.spec_attempts(),
    {
        self.attempts
    }

    /// Retries made so far: every attempt after the first.
    pub fn retries(&self) -> (r: u32)
        ensures
            r == if self.spec_attempts() == 0 { 0 } else { self.spec_attempts() - 1 },
    {
        if self.attempts == 0 { 0 } else { self.attempts - 1 }
    }

    /// Whether the request is over, so that no further attempt is made.
    pub fn is_finished(&self) -> (r: bool)
        ensures
            r == self.spec_finished(),
    {
        self.finished
    }

    /// Records the outcome of the attempt just made and says what comes next.
    pub fn record(&mut self, c: AttemptClass) -> (r: Decision)
        requires
            old(self).wf(),
            !old(self).spec_finished(),
        ensures
            final(self).wf(),
            final(self).spec_policy() == old(self).spec_policy(),
            final(self).spec_attempts() == old(self).spec_attempts() + 1,
            r == decide(old(self).spec_policy(), (old(self).spec_attempts() + 1) as u32, c),
            final(self).spec_finished() <==> !(r is Retry),
    {
        self.attempts = self.attempts + 1;
        match c {
            AttemptClass::Success => {
                self.finished = true;
                Decision::Succeeded
            },
            AttemptClass::Rejected => {
                self.finished = true;
                Decision::Failed(FailureKind::Rejected)
            },
            AttemptClass::Transient => {
                if self.attempts < self.policy.max_attempts {
                    Decision::Retry { delay_ms: self.policy.delay_before_retry(self.attempts) }
                } else {
                    self.finished = true;
                    Decision::Failed(FailureKind::Transient)
                }
            },
        }
    }
}

/// A request makes at most `max_attempts` attempts, so a transient failure is
/// retried at most `max_attempts - 1` times before it is surfaced; a request
/// stops at its first rejection, which is never retried; and it stops exactly
/// at the first attempt that is not transient, or when attempts run out.
pub proof fn lemma_retry_bound(policy: RetryPolicy, outs: Seq<AttemptClass>)
    requires
        policy.max_attempts > 0,
        outs.len() >= policy.max_attempts,
    ensures
        1 <= attempts_made(policy.max_attempts as nat, outs) <= policy.max_attempts,
        outs[0] == AttemptClass::Rejected ==> attempts_made(policy.max_attempts as nat, outs) == 1,
        forall|i: int| 0 <= i < attempts_made(policy.max_attempts as nat, outs) - 1
            ==> #[trigger] outs[i] == AttemptClass::Transient,
    decreases policy.max_attempts,
{
    let n = attempts_made(policy.max_attempts as nat, outs);
    if outs[0] != AttemptClass::Transient || policy.max_attempts == 1 {
    } else {
        let p = RetryPolicy { max_attempts: (policy.max_attempts - 1) as u32, base_delay_ms: policy.base_delay_ms };
        lemma_retry_bound(p, outs.drop_first());
        assert forall|i: int| 0 <= i < n - 1 implies #[trigger] outs[i] == AttemptClass::Transient by {
            if i > 0 {
                assert(outs[i] == outs.drop_first()[i - 1]);
            }
        }
    }
}

/// The record of a transcription: its text, the audio's length and the model.
#[derive(Debug, Clone, PartialEq, Eq)]
pub struct Transcript {
    pub text: String,
    pub duration_ms: u64,
    pub model_used: TranscriptionModel,
}

/// A classified transcription failure.
#[derive(Debug, Clone, PartialEq, Eq)]
pub struct TranscriptionError {
    pub kind: FailureKind,
    pub message: String,
    pub retryable: bool,
}

impl TranscriptionError {
    /// A failure of `kind`; it is retryable exactly when it is transient.
    pub fn new(kind: FailureKind, message: String) -> (r: Self)
        ensures
            r.kind == kind,
            r.message@ == message@,
            r.retryable == (kind == FailureKind::Transient),
    {
        let retryable = match kind {
            FailureKind::Transient => true,
            FailureKind::Rejected => false,
        };
        TranscriptionError { kind, message, retryable }
    }
}

/// The outcome of a dispatch.
pub type TranscriptionResult = Result<Transcript, TranscriptionError>;

/// Why a request could not be built.
#[derive(Debug, Clone, Copy, PartialEq, Eq, Structural)]
pub enum RequestError {
    /// No credential is stored for the model's provider.
    MissingCredential,
}

/// Everything one transcription call needs; built once per finished session.
#[derive(Debug, Clone, PartialEq, Eq)]
pub struct TranscriptionRequest {
    pub audio_path: String,
    pub model: TranscriptionModel,
    pub keywords: Vec<String>,
    pub api_key: String,
}

impl TranscriptionRequest {
    /// Builds the request for `model`, with the credential looked up for its
    /// provider. A missing or empty credential is refused.
    pub fn new(audio_path: String, model: TranscriptionModel, keywords: Vec<String>, api_key: Option<String>) -> (r: Result<Self, RequestError>)
        ensures
            r is Err <==> (api_key is None || api_key->0@.len() == 0),
            r is Err ==> r == Err::<Self, RequestError>(RequestError::MissingCredential),
            r matches Ok(q) ==> {
                &&& q.audio_path@ == audio_path@
                &&& q.model == model
                &&& q.keywords@ == keywords@
                &&& q.api_key@ == api_key->0@
            },
    {
        match api_key {
            None => Err(RequestError::MissingCredential),
            Some(k) => {
                if k.as_str().unicode_len() == 0 {
                    Err(RequestError::MissingCredential)
                } else {
                    Ok(TranscriptionRequest { audio_path, model, keywords, api_key: k })
                }
            },
        }
    }

    /// The provider the request goes to.
    pub fn provider(&self) -> (r: TranscriptionProvider)
        ensures
            r == provider_of(self.model),
    {
        self.model.provider()
    }

    /// The endpoint the request is sent to.
    pub fn endpoint(&self) -> (r: &'static str)
        ensures
            r@ == provider_endpoint(provider_of(self.model)),
    {
        self.model.endpoint()
    }

    /// The result of a request whose dispatch ended in `d`: on success the
    /// transcript `text`, normalized by trimming surrounding whitespace, with
    /// the duration and model echoed back; on failure
    /// the classified error carrying `message`. `None` while retries remain.
    pub fn conclude(&self, d: Decision, text: String, duration_ms: u64, message: String) -> (r: Option<TranscriptionResult>)
        ensures
            d is Retry ==> r is None,
            d is Succeeded ==> (r matches Some(Ok(t)) && t.text@ == trimmed(text@) && t.duration_ms == duration_ms
                && t.model_used == self.model),
            d matches Decision::Failed(k) ==> (r matches Some(Err(e)) && e.kind == k && e.message@ == message@
                && e.retryable == (k == FailureKind::Transient)),
    {
        match d {
            Decision::Retry { .. } => None,
            Decision::Succeeded => Some(Ok(Transcript { text: trim_text(text.as_str()), duration_ms, model_used: self.model })),
            Decision::Failed(k) => Some(Err(TranscriptionError::new(k, message))),
        }
    }
}

} // verus!
