//! Configuration of the browser and text-to-speech features.

pub mod browser;
pub mod tts;

pub use self::browser::{BrowserConfig, BrowserEnvironment, BrowserSessionConfig};
pub use self::tts::{TtsBackend, TtsConfig, TtsEnvironment};
