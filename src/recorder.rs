//! The audio recorder's session state machine. The capture backend runs as a
//! child process driven by the caller; the recorder decides what each control
//! command and each backend outcome does to the session.

use vstd::prelude::*;

use crate::amplitude::{frame_level, frame_level_spec, bounded_push, AmplitudeRing};

verus! {

/// The most raw samples a session counts; longer sessions report this length.
pub const MAX_SAMPLES: u64 = 9007199254740992;

/// Why a session ended in failure.
#[derive(Debug, Clone, Copy, PartialEq, Eq, Structural)]
pub enum FailReason {
    /// The backend did not finalize within the timeout and was terminated.
    Truncated,
    /// The backend finalized but the output file is empty.
    Empty,
    /// The backend exited while the session was still capturing.
    BackendExited,
}

/// Where a recording session stands.
#[derive(Debug, Clone, Copy, PartialEq, Eq, Structural)]
pub enum SessionStatus {
    Idle,
    Capturing,
    Finalizing,
    Finished,
    Failed(FailReason),
}

/// What came of trying to launch the capture backend.
#[derive(Debug, Clone, Copy, PartialEq, Eq, Structural)]
pub enum SpawnOutcome {
    /// The backend process is running.
    Spawned,
    /// No capture backend was found on the host.
    NotFound,
    /// The backend was found but could not be launched.
    Failed,
}

/// How the backend ended after it was asked to finalize.
#[derive(Debug, Clone, Copy, PartialEq, Eq, Structural)]
pub enum FinalizeOutcome {
    /// It closed the output file and exited within the timeout.
    Exited,
    /// It did not exit within the timeout and was force-terminated.
    TimedOut,
}

/// How long a graceful stop may take before the backend is terminated.
pub const STOP_TIMEOUT_MS: u64 = 5000;

/// What to do while waiting for the backend to finalize.
#[derive(Debug, Clone, Copy, PartialEq, Eq, Structural)]
pub enum FinalizeStep {
    /// The backend is still finalizing and time remains: wait and look again.
    Wait,
    /// The backend exited: settle the session as `FinalizeOutcome::Exited`.
    Exited,
    /// The timeout passed: force-terminate the backend and settle the session
    /// as `FinalizeOutcome::TimedOut`.
    Terminate,
}

/// The step after `elapsed_ms` of waiting, given whether the backend has exited.
pub open spec fn finalize_step_spec(elapsed_ms: u64, exited: bool, timeout_ms: u64) -> FinalizeStep {
    if exited {
        FinalizeStep::Exited
    } else if elapsed_ms >= timeout_ms {
        FinalizeStep::Terminate
    } else {
        FinalizeStep::Wait
    }
}

/// Decides the next step of a graceful stop: an exit settles it, whenever it
/// is seen; otherwise the wait goes on until `timeout_ms` have passed.
pub fn finalize_step(elapsed_ms: u64, exited: bool, timeout_ms: u64) -> (r: FinalizeStep)
    ensures
        r == finalize_step_spec(elapsed_ms, exited, timeout_ms),
{
    if exited {
        FinalizeStep::Exited
    } else if elapsed_ms >= timeout_ms {
        FinalizeStep::Terminate
    } else {
        FinalizeStep::Wait
    }
}

/// Why `start` refused.
#[derive(Debug, Clone, Copy, PartialEq, Eq, Structural)]
pub enum StartError {
    /// A session is already capturing or finalizing.
    AlreadyRecording,
    /// No capture backend is installed.
    NotFound,
    /// The backend could not be launched.
    SpawnFailed,
}

/// Why a stop did not yield a finished session.
#[derive(Debug, Clone, PartialEq, Eq)]
pub enum StopError {
    /// No session was capturing (or finalizing, for the second step of a stop).
    NotRecording,
    /// The backend timed out; the partial file, when it is non-empty, is kept.
    Truncated { partial: Option<String> },
    /// The backend finalized an empty file.
    Empty,
}

/// A session whose audio file is complete and ready for transcription.
#[derive(Debug, Clone, PartialEq, Eq)]
pub struct FinishedSession {
    pub path: String,
    pub duration_ms: u64,
}

/// Whether a session is live: its backend process is still running.
pub open spec fn is_active(s: SessionStatus) -> bool {
    s == SessionStatus::Capturing || s == SessionStatus::Finalizing
}

/// The steps a session's status may take in one operation; staying put is
/// always allowed, and so is a reset to `Idle` (cancel).
pub open spec fn status_step(a: SessionStatus, b: SessionStatus) -> bool {
    ||| a == b
    ||| b == SessionStatus::Idle
    ||| !is_active(a) && b == SessionStatus::Capturing
    ||| a == SessionStatus::Capturing && b == SessionStatus::Finalizing
    ||| a == SessionStatus::Capturing && b == SessionStatus::Failed(FailReason::BackendExited)
    ||| a == SessionStatus::Finalizing && b == SessionStatus::Finished
    ||| a == SessionStatus::Finalizing && b is Failed
}

/// Milliseconds of audio in `samples` raw samples at `rate` samples per second.
pub open spec fn duration_of(samples: nat, rate: nat) -> nat {
    samples * 1000 / rate
}

/// The sample count after a frame of `n` samples, saturating at `MAX_SAMPLES`.
pub open spec fn add_samples(samples: nat, n: nat) -> nat {
    if samples + n > MAX_SAMPLES as nat { MAX_SAMPLES as nat } else { samples + n }
}

/// The observable state of a recorder.
pub ghost struct RecorderView {
    pub status: SessionStatus,
    pub path: Option<Seq<char>>,
    pub levels: Seq<u16>,
    pub samples: nat,
    pub capacity: nat,
    pub rate: nat,
}

/// One recording session: its status, its output file, the levels not yet
/// shown and the amount of audio captured.
pub struct AudioRecorder {
    status: SessionStatus,
    output_path: Option<String>,
    levels: AmplitudeRing,
    captured_samples: u64,
    sample_rate: u32,
}

impl View for AudioRecorder {
    type V = RecorderView;

    open spec fn view(&self) -> RecorderView {
        RecorderView {
            status: self.spec_status(),
            path: self.spec_path(),
            levels: self.spec_levels(),
            samples: self.spec_samples(),
            capacity: self.spec_capacity(),
            rate: self.spec_rate(),
        }
    }
}

impl AudioRecorder {
    pub closed spec fn spec_status(&self) -> SessionStatus {
        self.status
    }

    pub closed spec fn spec_path(&self) -> Option<Seq<char>> {
        match self.output_path {
            Some(p) => Some(p@),
            None => None,
        }
    }

    /// The levels waiting to be shown, oldest first.
    pub closed spec fn spec_levels(&self) -> Seq<u16> {
        self.levels@
    }

    pub closed spec fn spec_capacity(&self) -> nat {
        self.levels.cap()
    }

    pub closed spec fn spec_samples(&self) -> nat {
        self.captured_samples as nat
    }

    pub closed spec fn spec_rate(&self) -> nat {
        self.sample_rate as nat
    }

    /// The level buffer is sound, the rate positive, the count in range, and a
    /// live session has an output file.
    pub closed spec fn wf(&self) -> bool {
        &&& self.levels.wf()
        &&& self.sample_rate > 0
        &&& self.captured_samples <= MAX_SAMPLES
        &&& is_active(self.status) ==> self.output_path is Some
    }

    /// An idle recorder that keeps up to `capacity` pending levels and counts
    /// time at `sample_rate` samples per second.
    pub fn new(capacity: usize, sample_rate: u32) -> (r: Self)
        requires
            capacity > 0,
            sample_rate > 0,
        ensures
            r.wf(),
            r.spec_status() == SessionStatus::Idle,
            r.spec_path() is None,
            r.spec_levels() == Seq::<u16>::empty(),
            r.spec_capacity() == capacity,
            r.spec_samples() == 0,
            r.spec_rate() == sample_rate,
    {
        AudioRecorder {
            status: SessionStatus::Idle,
            output_path: None,
            levels: AmplitudeRing::new(capacity),
            captured_samples: 0,
            sample_rate,
        }
    }

    /// The session's current status.
    pub fn status(&self) -> (r: SessionStatus)
        ensures
            r == self.spec_status(),
    {
        self.status
    }

    /// Whether a session is capturing or finalizing.
    pub fn is_recording(&self) -> (r: bool)
        ensures
            r == is_active(self.spec_status()),
    {
        match self.status {
            SessionStatus::Capturing | SessionStatus::Finalizing => true,
            _ => false,
        }
    }

    /// The current session's output file, if there is one.
    pub fn output_path(&self) -> (r: Option<String>)
        ensures
            r is Some <==> self.spec_path() is Some,
            r is Some ==> Some(r->0@) == self.spec_path(),
    {
        match &self.output_path {
            Some(p) => Some(p.clone()),
            None => None,
        }
    }

    /// Milliseconds of audio captured in the current session.
    pub fn duration_ms(&self) -> (r: u64)
        requires
            self.wf(),
        ensures
            r == duration_of(self.spec_samples(), self.spec_rate()),
    {
        assert(self.captured_samples * 1000 <= MAX_SAMPLES * 1000) by (nonlinear_arith)
            requires
                self.captured_samples <= MAX_SAMPLES,
        ;
        assert(self.captured_samples * 1000 / (self.sample_rate as int)
            <= self.captured_samples * 1000) by (nonlinear_arith)
            requires
                self.sample_rate > 0,
        ;
        self.captured_samples * 1000 / (self.sample_rate as u64)
    }

    /// Opens a session writing to `output_path`, given what came of launching
    /// the backend. A live session refuses with `AlreadyRecording` before any
    /// launch is looked at; a failed launch leaves the recorder as it was.
    pub fn start(&mut self, output_path: String, backend: SpawnOutcome) -> (r: Result<(), StartError>)
        requires
            old(self).wf(),
        ensures
            final(self).wf(),
            final(self).spec_capacity() == old(self).spec_capacity(),
            final(self).spec_rate() == old(self).spec_rate(),
            status_step(old(self).spec_status(), final(self).spec_status()),
            is_active(old(self).spec_status()) ==> r == Err::<(), StartError>(StartError::AlreadyRecording),
            !is_active(old(self).spec_status()) && backend == SpawnOutcome::NotFound
                ==> r == Err::<(), StartError>(StartError::NotFound),
            !is_active(old(self).spec_status()) && backend == SpawnOutcome::Failed
                ==> r == Err::<(), StartError>(StartError::SpawnFailed),
            r is Err ==> *final(self) == *old(self),
            r is Ok <==> !is_active(old(self).spec_status()) && backend == SpawnOutcome::Spawned,
            r is Ok ==> {
                &&& final(self).spec_status() == SessionStatus::Capturing
                &&& final(self).spec_path() == Some(output_path@)
                &&& final(self).spec_levels() == Seq::<u16>::empty()
                &&& final(self).spec_samples() == 0
            },
    {
        if self.is_recording() {
            return Err(StartError::AlreadyRecording);
        }
        match backend {
            SpawnOutcome::NotFound => Err(StartError::NotFound),
            SpawnOutcome::Failed => Err(StartError::SpawnFailed),
            SpawnOutcome::Spawned => {
                self.levels.clear();
                self.status = SessionStatus::Capturing;
                self.output_path = Some(output_path);
                self.captured_samples = 0;
                Ok(())
            },
        }
    }

    /// Takes in one raw frame from the backend while capturing: its level goes
    /// into the pending levels and its length into the captured time. Outside
    /// capture the frame is ignored.
    pub fn record_frame(&mut self, frame: &Vec<i16>)
        requires
            old(self).wf(),
        ensures
            final(self).wf(),
            final(self).spec_status() == old(self).spec_status(),
            final(self).spec_path() == old(self).spec_path(),
            final(self).spec_capacity() == old(self).spec_capacity(),
            final(self).spec_rate() == old(self).spec_rate(),
            old(self).spec_status() == SessionStatus::Capturing ==> {
                &&& final(self).spec_levels() == bounded_push(
                    old(self).spec_levels(),
                    frame_level_spec(frame@),
                    old(self).spec_capacity(),
                )
                &&& final(self).spec_samples() == add_samples(old(self).spec_samples(), frame@.len())
            },
            old(self).spec_status() != SessionStatus::Capturing ==> *final(self) == *old(self),
    {
        if self.status != SessionStatus::Capturing {
            return;
        }
        let level = frame_level(frame);
        self.levels.push(level);
        let n = frame.len() as u64;
        if n > MAX_SAMPLES - self.captured_samples {
            self.captured_samples = MAX_SAMPLES;
        } else {
            self.captured_samples = self.captured_samples + n;
        }
    }

    /// Takes the oldest level not yet shown, or `None` when none is pending.
    pub fn sample(&mut self) -> (r: Option<u16>)
        requires
            old(self).wf(),
        ensures
            final(self).wf(),
            final(self).spec_status() == old(self).spec_status(),
            final(self).spec_path() == old(self).spec_path(),
            final(self).spec_capacity() == old(self).spec_capacity(),
            final(self).spec_samples() == old(self).spec_samples(),
            final(self).spec_rate() == old(self).spec_rate(),
            old(self).spec_levels().len() == 0 ==> r is None && final(self).spec_levels() == old(self).spec_levels(),
            old(self).spec_levels().len() > 0 ==> r == Some(old(self).spec_levels()[0])
                && final(self).spec_levels() == old(self).spec_levels().drop_first(),
    {
        self.levels.pop_oldest()
    }

    /// Asks a capturing session to finalize. The caller then signals the
    /// backend and reports how it ended with `finish_stop`.
    pub fn begin_stop(&mut self) -> (r: Result<(), StopError>)
        requires
            old(self).wf(),
        ensures
            final(self).wf(),
            status_step(old(self).spec_status(), final(self).spec_status()),
            final(self).spec_path() == old(self).spec_path(),
            final(self).spec_levels() == old(self).spec_levels(),
            final(self).spec_capacity() == old(self).spec_capacity(),
            final(self).spec_samples() == old(self).spec_samples(),
            final(self).spec_rate() == old(self).spec_rate(),
            r is Ok <==> old(self).spec_status() == SessionStatus::Capturing,
            r is Ok ==> final(self).spec_status() == SessionStatus::Finalizing,
            r is Err ==> r == Err::<(), StopError>(StopError::NotRecording) && *final(self) == *old(self),
    {
        if self.status != SessionStatus::Capturing {
            return Err(StopError::NotRecording);
        }
        self.status = SessionStatus::Finalizing;
        Ok(())
    }

    /// Settles a finalizing session from how the backend ended and how many
    /// bytes the output file holds. A graceful exit with a non-empty file
    /// finishes the session: any non-empty recording is offered for
    /// transcription. A timeout fails it as `Truncated` and hands back the
    /// partial file when it is non-empty; an empty file fails it as `Empty`.
    pub fn finish_stop(&mut self, outcome: FinalizeOutcome, file_len: u64) -> (r: Result<FinishedSession, StopError>)
        requires
            old(self).wf(),
        ensures
            final(self).wf(),
            status_step(old(self).spec_status(), final(self).spec_status()),
            final(self).spec_path() == old(self).spec_path(),
            final(self).spec_levels() == old(self).spec_levels(),
            final(self).spec_capacity() == old(self).spec_capacity(),
            final(self).spec_samples() == old(self).spec_samples(),
            final(self).spec_rate() == old(self).spec_rate(),
            old(self).spec_status() != SessionStatus::Finalizing ==> {
                &&& r == Err::<FinishedSession, StopError>(StopError::NotRecording)
                &&& *final(self) == *old(self)
            },
            old(self).spec_status() == SessionStatus::Finalizing ==> match outcome {
                FinalizeOutcome::TimedOut => {
                    &&& final(self).spec_status() == SessionStatus::Failed(FailReason::Truncated)
                    &&& r matches Err(StopError::Truncated { partial })
                    &&& (file_len > 0 ==> partial is Some && Some(partial->0@) == old(self).spec_path())
                    &&& (file_len == 0 ==> partial is None)
                },
                FinalizeOutcome::Exited => if file_len == 0 {
                    &&& final(self).spec_status() == SessionStatus::Failed(FailReason::Empty)
                    &&& r == Err::<FinishedSession, StopError>(StopError::Empty)
                } else {
                    &&& final(self).spec_status() == SessionStatus::Finished
                    &&& r matches Ok(s)
                    &&& Some(s.path@) == old(self).spec_path()
                    &&& s.duration_ms == duration_of(old(self).spec_samples(), old(self).spec_rate())
                },
            },
    {
        if self.status != SessionStatus::Finalizing {
            return Err(StopError::NotRecording);
        }
        let path = match &self.output_path {
            Some(p) => p.clone(),
            None => String::new(),
        };
        match outcome {
            FinalizeOutcome::TimedOut => {
                self.status = SessionStatus::Failed(FailReason::Truncated);
                let partial = if file_len > 0 { Some(path) } else { None };
                Err(StopError::Truncated { partial })
            },
            FinalizeOutcome::Exited => {
                if file_len == 0 {
                    self.status = SessionStatus::Failed(FailReason::Empty);
                    Err(StopError::Empty)
                } else {
                    let duration_ms = self.duration_ms();
                    self.status = SessionStatus::Finished;
                    Ok(FinishedSession { path, duration_ms })
                }
            },
        }
    }

    /// Records that the backend exited on its own while capturing: the session
    /// fails and its partial output, if any, stays where it is.
    pub fn backend_exited(&mut self)
        requires
            old(self).wf(),
        ensures
            final(self).wf(),
            status_step(old(self).spec_status(), final(self).spec_status()),
            final(self).spec_path() == old(self).spec_path(),
            final(self).spec_levels() == old(self).spec_levels(),
            final(self).spec_capacity() == old(self).spec_capacity(),
            final(self).spec_samples() == old(self).spec_samples(),
            final(self).spec_rate() == old(self).spec_rate(),
            old(self).spec_status() == SessionStatus::Capturing
                ==> final(self).spec_status() == SessionStatus::Failed(FailReason::BackendExited),
            old(self).spec_status() == SessionStatus::Finalizing
                ==> final(self).spec_status() == SessionStatus::Failed(FailReason::Truncated),
            !is_active(old(self).spec_status()) ==> *final(self) == *old(self),
    {
        match self.status {
            SessionStatus::Capturing => {
                self.status = SessionStatus::Failed(FailReason::BackendExited);
            },
            SessionStatus::Finalizing => {
                self.status = SessionStatus::Failed(FailReason::Truncated);
            },
            _ => {},
        }
    }

    /// Abandons the session from any state: the recorder returns to `Idle`
    /// with nothing pending. When a session was live, its output file is
    /// handed back so that the caller terminates the backend and deletes the
    /// partial file; otherwise `None`, and nothing on disk is touched.
    pub fn cancel(&mut self) -> (r: Option<String>)
        requires
            old(self).wf(),
        ensures
            final(self).wf(),
            status_step(old(self).spec_status(), final(self).spec_status()),
            final(self)@ == after_cancel(old(self)@),
            r is Some <==> cancel_discards(old(self)@) is Some,
            r is Some ==> Some(r->0@) == cancel_discards(old(self)@),
    {
        let live = self.is_recording();
        let path = self.output_path.take();
        self.status = SessionStatus::Idle;
        self.levels.clear();
        self.captured_samples = 0;
        if live { path } else { None }
    }
}

/// What a cancel leaves of a recorder in state `v`: an idle recorder with no
/// session, nothing pending and nothing captured, of the same capacity and rate.
pub open spec fn after_cancel(v: RecorderView) -> RecorderView {
    RecorderView {
        status: SessionStatus::Idle,
        path: None,
        levels: Seq::empty(),
        samples: 0,
        capacity: v.capacity,
        rate: v.rate,
    }
}

/// The file a cancel hands back for deletion: the live session's, if any.
pub open spec fn cancel_discards(v: RecorderView) -> Option<Seq<char>> {
    if is_active(v.status) { v.path } else { None }
}

/// Cancel always ends in `Idle`, and is idempotent: a second cancel changes
/// nothing and has no file left to discard.
pub proof fn lemma_cancel_idempotent(v: RecorderView)
    ensures
        after_cancel(v).status == SessionStatus::Idle,
        after_cancel(after_cancel(v)) == after_cancel(v),
        cancel_discards(after_cancel(v)) is None,
{
}

} // verus!
