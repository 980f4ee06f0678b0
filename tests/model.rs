use ostt::model::TranscriptionModel;
use ostt::provider::TranscriptionProvider;

#[test]
fn from_id_round_trips_every_model() {
    for m in TranscriptionModel::all() {
        assert_eq!(TranscriptionModel::from_id(m.id()), Some(m));
    }
}

#[test]
fn from_id_rejects_unknown_ids() {
    assert_eq!(TranscriptionModel::from_id("whisper-1"), None);
    assert_eq!(TranscriptionModel::from_id(""), None);
    assert_eq!(TranscriptionModel::from_id("nova-4"), None);
}

#[test]
fn wire_name_differs_from_id_for_whisper() {
    assert_eq!(TranscriptionModel::Whisper.id(), "whisper");
    assert_eq!(TranscriptionModel::Whisper.api_model_name(), "whisper-1");
    assert_eq!(TranscriptionModel::DeepgramNova3.api_model_name(), "nova-3");
}

#[test]
fn endpoints_follow_providers() {
    assert_eq!(
        TranscriptionModel::Gpt4oMiniTranscribe.endpoint(),
        "https://api.openai.com/v1/audio/transcriptions"
    );
    assert_eq!(TranscriptionModel::DeepgramNova2.endpoint(), "https://api.deepgram.com/v1/listen");
    assert_eq!(TranscriptionModel::DeepgramNova2.provider(), TranscriptionProvider::Deepgram);
    assert_eq!(TranscriptionModel::Whisper.provider(), TranscriptionProvider::OpenAI);
}

#[test]
fn available_ids_in_catalog_order() {
    assert_eq!(
        TranscriptionModel::available_ids(),
        vec!["gpt-4o-transcribe", "gpt-4o-mini-transcribe", "whisper", "nova-3", "nova-2"]
    );
}

#[test]
fn models_for_each_provider() {
    assert_eq!(
        TranscriptionModel::models_for_provider(&TranscriptionProvider::OpenAI),
        vec![
            TranscriptionModel::Gpt4oTranscribe,
            TranscriptionModel::Gpt4oMiniTranscribe,
            TranscriptionModel::Whisper
        ]
    );
    assert_eq!(
        TranscriptionModel::models_for_provider(&TranscriptionProvider::Deepgram),
        vec![TranscriptionModel::DeepgramNova3, TranscriptionModel::DeepgramNova2]
    );
}

#[test]
fn descriptions_and_provider_ids() {
    assert_eq!(TranscriptionModel::Whisper.description(), "Whisper (legacy)");
    assert_eq!(TranscriptionProvider::OpenAI.id(), "openai");
    assert_eq!(TranscriptionProvider::Deepgram.id(), "deepgram");
}
