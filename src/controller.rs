//! The recording controller: the interactive state machine that turns user
//! commands and the outcomes of recorder and dispatcher work into the next
//! state and the work to do next. The caller performs each action and feeds
//! its outcome back as an event.

use vstd::prelude::*;

verus! {

/// Where the interactive session stands.
#[derive(Debug, Clone, Copy, PartialEq, Eq, Structural)]
pub enum ControllerState {
    Idle,
    Recording,
    Cancelling,
    Stopping,
    Transcribing,
    Succeeded,
    Failed,
}

/// What happened: a user command, or the outcome of work the caller did.
#[derive(Debug, Clone, Copy, PartialEq, Eq, Structural)]
pub enum ControllerEvent {
    /// The user asked to start recording.
    StartPressed,
    /// The user asked to stop and transcribe.
    StopPressed,
    /// The user asked to abandon the recording.
    CancelPressed,
    /// The recorder's start returned; `true` when it succeeded.
    StartCompleted(bool),
    /// The recorder's cancel returned.
    CancelCompleted,
    /// The recorder's stop returned; `true` when a finished session came out.
    StopCompleted(bool),
    /// The transcription dispatch returned; `true` on a transcript.
    TranscriptionCompleted(bool),
    /// The capture backend exited unexpectedly.
    BackendFailed,
    /// The user dismissed the result or error shown.
    Dismissed,
}

/// The work the caller performs next.
#[derive(Debug, Clone, Copy, PartialEq, Eq, Structural)]
pub enum ControllerAction {
    Nothing,
    StartRecorder,
    CancelRecorder,
    StopRecorder,
    Dispatch,
    SaveHistory,
    ShowError,
}

/// The state and action that follow `s` on event `e`. Events that mean
/// nothing in a state leave it as it is and ask for nothing.
pub open spec fn next(s: ControllerState, e: ControllerEvent) -> (ControllerState, ControllerAction) {
    match (s, e) {
        (ControllerState::Idle, ControllerEvent::StartPressed) => (ControllerState::Idle, ControllerAction::StartRecorder),
        (ControllerState::Idle, ControllerEvent::StartCompleted(ok)) => if ok {
            (ControllerState::Recording, ControllerAction::Nothing)
        } else {
            (ControllerState::Idle, ControllerAction::ShowError)
        },
        (ControllerState::Recording, ControllerEvent::CancelPressed) => (ControllerState::Cancelling, ControllerAction::CancelRecorder),
        (ControllerState::Cancelling, ControllerEvent::CancelCompleted) => (ControllerState::Idle, ControllerAction::Nothing),
        (ControllerState::Recording, ControllerEvent::StopPressed) => (ControllerState::Stopping, ControllerAction::StopRecorder),
        (ControllerState::Stopping, ControllerEvent::StopCompleted(ok)) => if ok {
            (ControllerState::Transcribing, ControllerAction::Dispatch)
        } else {
            (ControllerState::Failed, ControllerAction::ShowError)
        },
        (ControllerState::Transcribing, ControllerEvent::TranscriptionCompleted(ok)) => if ok {
            (ControllerState::Succeeded, ControllerAction::SaveHistory)
        } else {
            (ControllerState::Failed, ControllerAction::ShowError)
        },
        (ControllerState::Recording, ControllerEvent::BackendFailed) => (ControllerState::Failed, ControllerAction::ShowError),
        (ControllerState::Stopping, ControllerEvent::BackendFailed) => (ControllerState::Failed, ControllerAction::ShowError),
        (ControllerState::Cancelling, ControllerEvent::BackendFailed) => (ControllerState::Failed, ControllerAction::ShowError),
        (ControllerState::Succeeded, ControllerEvent::Dismissed) => (ControllerState::Idle, ControllerAction::Nothing),
        (ControllerState::Failed, ControllerEvent::Dismissed) => (ControllerState::Idle, ControllerAction::Nothing),
        _ => (s, ControllerAction::Nothing),
    }
}

/// The transition table: each state may stay where it is or move along one
/// of these edges, and no other.
pub open spec fn edge(a: ControllerState, b: ControllerState) -> bool {
    ||| a == b
    ||| a == ControllerState::Idle && b == ControllerState::Recording
    ||| a == ControllerState::Recording && b == ControllerState::Cancelling
    ||| a == ControllerState::Cancelling && b == ControllerState::Idle
    ||| a == ControllerState::Recording && b == ControllerState::Stopping
    ||| a == ControllerState::Stopping && b == ControllerState::Transcribing
    ||| a == ControllerState::Transcribing && b == ControllerState::Succeeded
    ||| a == ControllerState::Succeeded && b == ControllerState::Idle
    ||| a == ControllerState::Failed && b == ControllerState::Idle
    ||| (a == ControllerState::Recording || a == ControllerState::Stopping
        || a == ControllerState::Cancelling || a == ControllerState::Transcribing)
        && b == ControllerState::Failed
}

/// The states visited from `s` on the events `es`, `s` first.
pub open spec fn trace(s: ControllerState, es: Seq<ControllerEvent>) -> Seq<ControllerState>
    decreases es.len(),
{
    if es.len() == 0 {
        seq![s]
    } else {
        trace(s, es.drop_last()).push(next(trace(s, es.drop_last()).last(), es.last()).0)
    }
}

/// The controller, holding the state of the interactive session.
pub struct RecordingController {
    state: ControllerState,
}

impl RecordingController {
    pub closed spec fn spec_state(&self) -> ControllerState {
        self.state
    }

    /// A controller in `Idle`.
    pub fn new() -> (r: Self)
        ensures
            r.spec_state() == ControllerState::Idle,
    {
        RecordingController { state: ControllerState::Idle }
    }

    /// The current state.
    pub fn state(&self) -> (r: ControllerState)
        ensures
            r == self.spec_state(),
    {
        self.state
    }

    /// Takes one event: moves to the next state and says what to do.
    pub fn handle(&mut self, e: ControllerEvent) -> (r: ControllerAction)
        ensures
            (final(self).spec_state(), r) == next(old(self).spec_state(), e),
            edge(old(self).spec_state(), final(self).spec_state()),
    {
        let (s, a) = match (self.state, e) {
            (ControllerState::Idle, ControllerEvent::StartPressed) => (ControllerState::Idle, ControllerAction::StartRecorder),
            (ControllerState::Idle, ControllerEvent::StartCompleted(ok)) => if ok {
                (ControllerState::Recording, ControllerAction::Nothing)
            } else {
                (ControllerState::Idle, ControllerAction::ShowError)
            },
            (ControllerState::Recording, ControllerEvent::CancelPressed) => (ControllerState::Cancelling, ControllerAction::CancelRecorder),
            (ControllerState::Cancelling, ControllerEvent::CancelCompleted) => (ControllerState::Idle, ControllerAction::Nothing),
            (ControllerState::Recording, ControllerEvent::StopPressed) => (ControllerState::Stopping, ControllerAction::StopRecorder),
            (ControllerState::Stopping, ControllerEvent::StopCompleted(ok)) => if ok {
                (ControllerState::Transcribing, ControllerAction::Dispatch)
            } else {
                (ControllerState::Failed, ControllerAction::ShowError)
            },
            (ControllerState::Transcribing, ControllerEvent::TranscriptionCompleted(ok)) => if ok {
                (ControllerState::Succeeded, ControllerAction::SaveHistory)
            } else {
                (ControllerState::Failed, ControllerAction::ShowError)
            },
            (ControllerState::Recording, ControllerEvent::BackendFailed) => (ControllerState::Failed, ControllerAction::ShowError),
            (ControllerState::Stopping, ControllerEvent::BackendFailed) => (ControllerState::Failed, ControllerAction::ShowError),
            (ControllerState::Cancelling, ControllerEvent::BackendFailed) => (ControllerState::Failed, ControllerAction::ShowError),
            (ControllerState::Succeeded, ControllerEvent::Dismissed) => (ControllerState::Idle, ControllerAction::Nothing),
            (ControllerState::Failed, ControllerEvent::Dismissed) => (ControllerState::Idle, ControllerAction::Nothing),
            _ => (self.state, ControllerAction::Nothing),
        };
        self.state = s;
        a
    }
}

/// One step never leaves the transition table.
pub proof fn lemma_next_follows_table(s: ControllerState, e: ControllerEvent)
    ensures
        edge(s, next(s, e).0),
{
}

/// For every sequence of events, each consecutive pair of visited states is
/// an edge of the transition table: no state is ever skipped.
pub proof fn lemma_trace_follows_table(s: ControllerState, es: Seq<ControllerEvent>)
    ensures
        trace(s, es).len() == es.len() + 1,
        trace(s, es)[0] == s,
        forall|i: int| 0 <= i < es.len() ==> #[trigger] edge(trace(s, es)[i], trace(s, es)[i + 1]),
    decreases es.len(),
{
    if es.len() > 0 {
        let prev = es.drop_last();
        lemma_trace_follows_table(s, prev);
        let t = trace(s, prev);
        lemma_next_follows_table(t.last(), es.last());
        assert forall|i: int| 0 <= i < es.len() implies #[trigger] edge(trace(s, es)[i], trace(s, es)[i + 1]) by {
            if i < prev.len() {
                assert(edge(t[i], t[i + 1]));
            }
        }
    }
}

/// A cancel in `Idle` changes nothing, and one while recording comes back to
/// `Idle` once the recorder has cancelled; cancelling again there is a no-op.
pub proof fn lemma_cancel_returns_to_idle()
    ensures
        next(ControllerState::Idle, ControllerEvent::CancelPressed) == (ControllerState::Idle, ControllerAction::Nothing),
        next(next(ControllerState::Recording, ControllerEvent::CancelPressed).0, ControllerEvent::CancelCompleted).0
            == ControllerState::Idle,
{
}

} // verus!
