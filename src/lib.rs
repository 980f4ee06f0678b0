//! Recording-and-transcription pipeline: the model catalog, the amplitude
//! meter, the recorder's session state machine, the interactive controller
//! and the transcription dispatch policy, each with a verified contract.

pub mod provider;
pub mod model;
pub mod amplitude;
pub mod recorder;
pub mod controller;
pub mod dispatch;
pub mod locator;
pub mod keywords;
pub mod text;

pub use model::TranscriptionModel;
pub use provider::TranscriptionProvider;
pub use keywords::KeywordsManager;
