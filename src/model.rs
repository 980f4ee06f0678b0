//! The closed catalog of transcription models and their per-model metadata.

use vstd::prelude::*;

use crate::provider::TranscriptionProvider;

verus! {

/// A supported transcription model.
#[derive(Debug, Clone, Copy, PartialEq, Eq, Hash, Structural)]
pub enum TranscriptionModel {
    /// OpenAI GPT-4o Transcribe (latest, best accuracy)
    Gpt4oTranscribe,
    /// OpenAI GPT-4o Mini Transcribe (faster, lighter)
    Gpt4oMiniTranscribe,
    /// OpenAI Whisper (legacy)
    Whisper,
    /// Deepgram Nova 3 (latest, fastest)
    DeepgramNova3,
    /// Deepgram Nova 2 (previous generation)
    DeepgramNova2,
}

/// The provider that hosts a model.
pub open spec fn provider_of(m: TranscriptionModel) -> TranscriptionProvider {
    match m {
        TranscriptionModel::Gpt4oTranscribe
        | TranscriptionModel::Gpt4oMiniTranscribe
        | TranscriptionModel::Whisper => TranscriptionProvider::OpenAI,
        TranscriptionModel::DeepgramNova3
        | TranscriptionModel::DeepgramNova2 => TranscriptionProvider::Deepgram,
    }
}

/// The public identifier of a model, as stored in the configuration.
pub open spec fn model_id(m: TranscriptionModel) -> Seq<char> {
    match m {
        TranscriptionModel::Gpt4oTranscribe => "gpt-4o-transcribe"@,
        TranscriptionModel::Gpt4oMiniTranscribe => "gpt-4o-mini-transcribe"@,
        TranscriptionModel::Whisper => "whisper"@,
        TranscriptionModel::DeepgramNova3 => "nova-3"@,
        TranscriptionModel::DeepgramNova2 => "nova-2"@,
    }
}

/// A human-readable description of a model.
pub open spec fn model_description(m: TranscriptionModel) -> Seq<char> {
    match m {
        TranscriptionModel::Gpt4oTranscribe => "GPT-4o Transcribe (latest, best accuracy)"@,
        TranscriptionModel::Gpt4oMiniTranscribe => "GPT-4o Mini Transcribe (faster, lighter)"@,
        TranscriptionModel::Whisper => "Whisper (legacy)"@,
        TranscriptionModel::DeepgramNova3 => "Nova 3 (latest, fastest)"@,
        TranscriptionModel::DeepgramNova2 => "Nova 2 (previous generation)"@,
    }
}

/// The network endpoint a model's requests are sent to: one per provider.
pub open spec fn provider_endpoint(p: TranscriptionProvider) -> Seq<char> {
    match p {
        TranscriptionProvider::OpenAI => "https://api.openai.com/v1/audio/transcriptions"@,
        TranscriptionProvider::Deepgram => "https://api.deepgram.com/v1/listen"@,
    }
}

/// The wire-format model name sent to the provider.
pub open spec fn wire_name(m: TranscriptionModel) -> Seq<char> {
    match m {
        TranscriptionModel::Gpt4oTranscribe => "gpt-4o-transcribe"@,
        TranscriptionModel::Gpt4oMiniTranscribe => "gpt-4o-mini-transcribe"@,
        TranscriptionModel::Whisper => "whisper-1"@,
        TranscriptionModel::DeepgramNova3 => "nova-3"@,
        TranscriptionModel::DeepgramNova2 => "nova-2"@,
    }
}

/// The model whose identifier is `s`, if any.
pub open spec fn model_of_id(s: Seq<char>) -> Option<TranscriptionModel> {
    if s == "gpt-4o-transcribe"@ {
        Some(TranscriptionModel::Gpt4oTranscribe)
    } else if s == "gpt-4o-mini-transcribe"@ {
        Some(TranscriptionModel::Gpt4oMiniTranscribe)
    } else if s == "whisper"@ {
        Some(TranscriptionModel::Whisper)
    } else if s == "nova-3"@ {
        Some(TranscriptionModel::DeepgramNova3)
    } else if s == "nova-2"@ {
        Some(TranscriptionModel::DeepgramNova2)
    } else {
        None
    }
}

/// The whole catalog, in its display order.
pub open spec fn catalog() -> Seq<TranscriptionModel> {
    seq![
        TranscriptionModel::Gpt4oTranscribe,
        TranscriptionModel::Gpt4oMiniTranscribe,
        TranscriptionModel::Whisper,
        TranscriptionModel::DeepgramNova3,
        TranscriptionModel::DeepgramNova2,
    ]
}

/// The models of one provider, in catalog order.
pub open spec fn models_of(p: TranscriptionProvider) -> Seq<TranscriptionModel> {
    catalog().filter(|m: TranscriptionModel| provider_of(m) == p)
}

/// Whether two strings hold the same characters.
fn same_text(a: &str, b: &str) -> (r: bool)
    ensures
        r == (a@ == b@),
{
    let n = a.unicode_len();
    if n != b.unicode_len() {
        return false;
    }
    let mut i: usize = 0;
    while i < n
        invariant
            n == a@.len(),
            n == b@.len(),
            i <= n,
            forall|j: int| 0 <= j < i ==> a@[j] == b@[j],
        decreases n - i,
    {
        if a.get_char(i) != b.get_char(i) {
            return false;
        }
        i = i + 1;
    }
    assert(a@ =~= b@);
    true
}

impl TranscriptionModel {
    /// Returns the provider that hosts this model.
    pub fn provider(&self) -> (r: TranscriptionProvider)
        ensures
            r == provider_of(*self),
    {
        match self {
            TranscriptionModel::Gpt4oTranscribe
            | TranscriptionModel::Gpt4oMiniTranscribe
            | TranscriptionModel::Whisper => TranscriptionProvider::OpenAI,
            TranscriptionModel::DeepgramNova3
            | TranscriptionModel::DeepgramNova2 => TranscriptionProvider::Deepgram,
        }
    }

    /// Returns the model's public identifier.
    pub fn id(&self) -> (r: &'static str)
        ensures
            r@ == model_id(*self),
    {
        match self {
            TranscriptionModel::Gpt4oTranscribe => "gpt-4o-transcribe",
            TranscriptionModel::Gpt4oMiniTranscribe => "gpt-4o-mini-transcribe",
            TranscriptionModel::Whisper => "whisper",
            TranscriptionModel::DeepgramNova3 => "nova-3",
            TranscriptionModel::DeepgramNova2 => "nova-2",
        }
    }

    /// Returns a human-readable description of the model.
    pub fn description(&self) -> (r: &'static str)
        ensures
            r@ == model_description(*self),
    {
        match self {
            TranscriptionModel::Gpt4oTranscribe => "GPT-4o Transcribe (latest, best accuracy)",
            TranscriptionModel::Gpt4oMiniTranscribe => "GPT-4o Mini Transcribe (faster, lighter)",
            TranscriptionModel::Whisper => "Whisper (legacy)",
            TranscriptionModel::DeepgramNova3 => "Nova 3 (latest, fastest)",
            TranscriptionModel::DeepgramNova2 => "Nova 2 (previous generation)",
        }
    }

    /// Returns the endpoint that requests for this model go to.
    pub fn endpoint(&self) -> (r: &'static str)
        ensures
            r@ == provider_endpoint(provider_of(*self)),
    {
        match self {
            TranscriptionModel::Gpt4oTranscribe
            | TranscriptionModel::Gpt4oMiniTranscribe
            | TranscriptionModel::Whisper => "https://api.openai.com/v1/audio/transcriptions",
            TranscriptionModel::DeepgramNova3
            | TranscriptionModel::DeepgramNova2 => "https://api.deepgram.com/v1/listen",
        }
    }

    /// Returns the model name sent to the provider's API.
    pub fn api_model_name(&self) -> (r: &'static str)
        ensures
            r@ == wire_name(*self),
    {
        match self {
            TranscriptionModel::Gpt4oTranscribe => "gpt-4o-transcribe",
            TranscriptionModel::Gpt4oMiniTranscribe => "gpt-4o-mini-transcribe",
            TranscriptionModel::Whisper => "whisper-1",
            TranscriptionModel::DeepgramNova3 => "nova-3",
            TranscriptionModel::DeepgramNova2 => "nova-2",
        }
    }

    /// Parses a model identifier; `None` for an identifier outside the catalog.
    pub fn from_id(id: &str) -> (r: Option<Self>)
        ensures
            r == model_of_id(id@),
    {
        if same_text(id, "gpt-4o-transcribe") {
            Some(TranscriptionModel::Gpt4oTranscribe)
        } else if same_text(id, "gpt-4o-mini-transcribe") {
            Some(TranscriptionModel::Gpt4oMiniTranscribe)
        } else if same_text(id, "whisper") {
            Some(TranscriptionModel::Whisper)
        } else if same_text(id, "nova-3") {
            Some(TranscriptionModel::DeepgramNova3)
        } else if same_text(id, "nova-2") {
            Some(TranscriptionModel::DeepgramNova2)
        } else {
            None
        }
    }

    /// Returns every model of the catalog, in display order.
    pub fn all() -> (r: Vec<Self>)
        ensures
            r@ == catalog(),
    {
        let r = vec![
            TranscriptionModel::Gpt4oTranscribe,
            TranscriptionModel::Gpt4oMiniTranscribe,
            TranscriptionModel::Whisper,
            TranscriptionModel::DeepgramNova3,
            TranscriptionModel::DeepgramNova2,
        ];
        assert(r@ =~= catalog());
        r
    }

    /// Returns the identifiers of every model, in display order.
    pub fn available_ids() -> (r: Vec<&'static str>)
        ensures
            r@.len() == catalog().len(),
            forall|i: int| 0 <= i < r@.len() ==> (#[trigger] r@[i])@ == model_id(catalog()[i]),
    {
        let all = Self::all();
        let mut r: Vec<&'static str> = Vec::new();
        let mut i: usize = 0;
        while i < all.len()
            invariant
                all@ == catalog(),
                i <= all@.len(),
                r@.len() == i,
                forall|j: int| 0 <= j < i ==> (#[trigger] r@[j])@ == model_id(catalog()[j]),
            decreases all@.len() - i,
        {
            r.push(all[i].id());
            i = i + 1;
        }
        r
    }

    /// Returns the models of `provider`, in catalog order.
    pub fn models_for_provider(provider: &TranscriptionProvider) -> (r: Vec<TranscriptionModel>)
        ensures
            r@ == models_of(*provider),
    {
        let all = Self::all();
        let mut r: Vec<TranscriptionModel> = Vec::new();
        let mut i: usize = 0;
        while i < all.len()
            invariant
                all@ == catalog(),
                i <= all@.len(),
                r@ == catalog().subrange(0, i as int).filter(
                    |m: TranscriptionModel| provider_of(m) == *provider,
                ),
            decreases all@.len() - i,
        {
            let m = all[i];
            proof {
                reveal(Seq::filter);
                assert(catalog().subrange(0, i + 1).drop_last() =~= catalog().subrange(0, i as int));
            }
            if m.provider() == *provider {
                r.push(m);
            }
            i = i + 1;
        }
        assert(catalog().subrange(0, all@.len() as int) =~= catalog());
        r
    }
}

/// Each identifier in the catalog parses back to the model it came from.
pub proof fn lemma_from_id_round_trip(m: TranscriptionModel)
    ensures
        model_of_id(model_id(m)) == Some(m),
{
    reveal_strlit("gpt-4o-transcribe");
    reveal_strlit("gpt-4o-mini-transcribe");
    reveal_strlit("whisper");
    reveal_strlit("nova-3");
    reveal_strlit("nova-2");
    assert("nova-3"@[5] != "nova-2"@[5]);
    assert("gpt-4o-transcribe"@.len() != "gpt-4o-mini-transcribe"@.len());
}

/// Every model is listed under its own provider and under no other.
pub proof fn lemma_models_of_provider(m: TranscriptionModel, p: TranscriptionProvider)
    ensures
        models_of(p).contains(m) <==> provider_of(m) == p,
{
    let f = |x: TranscriptionModel| provider_of(x) == p;
    assert(catalog().contains(m)) by {
        match m {
            TranscriptionModel::Gpt4oTranscribe => assert(catalog()[0] == m),
            TranscriptionModel::Gpt4oMiniTranscribe => assert(catalog()[1] == m),
            TranscriptionModel::Whisper => assert(catalog()[2] == m),
            TranscriptionModel::DeepgramNova3 => assert(catalog()[3] == m),
            TranscriptionModel::DeepgramNova2 => assert(catalog()[4] == m),
        }
    }
    broadcast use vstd::seq_lib::group_filter_ensures;

    assert(models_of(p) == catalog().filter(f));
}

} // verus!
