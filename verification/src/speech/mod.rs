//! Speech input: voice activity detection and the decisions of the local
//! speech-to-text capture loop.

pub mod vad;
pub mod local_stt;

pub use self::local_stt::{LocalSttError, SpeechSegmenter};
pub use self::vad::{VadConfig, VadState};
