//! Transcription providers: the services that host the models.

use vstd::prelude::*;

verus! {

/// A transcription service. Each model of the catalog belongs to exactly one.
#[derive(Debug, Clone, Copy, PartialEq, Eq, Hash, Structural)]
pub enum TranscriptionProvider {
    OpenAI,
    Deepgram,
}

/// The identifier under which a provider's credential is stored.
pub open spec fn provider_id(p: TranscriptionProvider) -> Seq<char> {
    match p {
        TranscriptionProvider::OpenAI => "openai"@,
        TranscriptionProvider::Deepgram => "deepgram"@,
    }
}

impl TranscriptionProvider {
    /// Returns the identifier under which this provider's credential is stored.
    pub fn id(&self) -> (r: &'static str)
        ensures
            r@ == provider_id(*self),
    {
        match self {
            TranscriptionProvider::OpenAI => "openai",
            TranscriptionProvider::Deepgram => "deepgram",
        }
    }
}

} // verus!
