//! TTS pipeline configuration.

use vstd::prelude::*;

use crate::secret::{api_key_text, ApiKey};
use crate::text::{str_eq, strip_trailing_slashes};
use crate::tts::elevenlabs::{elevenlabs_request, ElevenLabsView, ELEVENLABS_MAX_TEXT_LENGTH};
use crate::tts::openai::{openai_request, OpenAiView, OPENAI_MAX_TEXT_LENGTH};
use crate::tts::{
    text_refusal, AudioOutputFormat, ElevenLabsProvider, OpenAiTtsProvider, SpeechRequest,
    TtsError, TtsProvider,
};

verus! {

/// TTS pipeline configuration.
#[derive(Debug, Clone)]
pub struct TtsConfig {
    /// Whether TTS is enabled.
    pub enabled: bool,
    /// Provider: "openai" or "elevenlabs".
    pub provider: String,
    /// API key (falls back to OPENAI_API_KEY for OpenAI provider).
    pub api_key: Option<ApiKey>,
    /// Model to use (default: "tts-1" for OpenAI).
    pub model: String,
    /// Voice to use (default: "alloy" for OpenAI).
    pub voice: String,
    /// Base URL override for the TTS API.
    pub base_url: Option<String>,
}

impl Default for TtsConfig {
    fn default() -> (r: Self)
        ensures
            !r.enabled,
            r.provider@ == "openai"@,
            r.api_key is None,
            r.model@ == "tts-1"@,
            r.voice@ == "alloy"@,
            r.base_url is None,
    {
        TtsConfig {
            enabled: false,
            provider: String::from_str("openai"),
            api_key: None,
            model: String::from_str("tts-1"),
            voice: String::from_str("alloy"),
            base_url: None,
        }
    }
}

/// The values the environment sets; `None` where a variable is unset
/// (`TTS_ENABLED`, `TTS_PROVIDER`, `TTS_API_KEY`, `OPENAI_API_KEY`,
/// `TTS_MODEL`, `TTS_VOICE`, `TTS_BASE_URL`).
#[derive(Debug, Clone, Default)]
pub struct TtsEnvironment {
    pub enabled: Option<bool>,
    pub provider: Option<String>,
    pub tts_api_key: Option<String>,
    pub openai_api_key: Option<String>,
    pub model: Option<String>,
    pub voice: Option<String>,
    pub base_url: Option<String>,
}

pub open spec fn text_or(o: Option<String>, d: Seq<char>) -> Seq<char> {
    match o {
        Some(s) => s@,
        None => d,
    }
}

/// The configured provider, one variant per supported backend.
#[derive(Debug)]
pub enum TtsBackend {
    OpenAi(OpenAiTtsProvider),
    ElevenLabs(ElevenLabsProvider),
}

impl TtsProvider for TtsBackend {
    fn name(&self) -> (r: &str)
        ensures
            self is OpenAi ==> r@ == "openai"@,
            self is ElevenLabs ==> r@ == "elevenlabs"@,
    {
        match self {
            TtsBackend::OpenAi(p) => p.name(),
            TtsBackend::ElevenLabs(p) => p.name(),
        }
    }

    fn speech_request(&self, text: &str, format: AudioOutputFormat) -> (r: Result<
        SpeechRequest,
        TtsError,
    >)
        ensures
            self matches TtsBackend::OpenAi(p) ==> {
                &&& text_refusal(text, OPENAI_MAX_TEXT_LENGTH) matches Some(e) ==> (r matches Err(
                    f,
                ) && f == e)
                &&& text_refusal(text, OPENAI_MAX_TEXT_LENGTH) is None ==> (r matches Ok(req)
                    && req@ == openai_request(p@, text@, format))
            },
            self matches TtsBackend::ElevenLabs(p) ==> {
                &&& text_refusal(text, ELEVENLABS_MAX_TEXT_LENGTH) matches Some(e) ==> (r matches Err(
                    f,
                ) && f == e)
                &&& text_refusal(text, ELEVENLABS_MAX_TEXT_LENGTH) is None ==> (r matches Ok(req)
                    && req@ == elevenlabs_request(p@, text@, format))
            },
    {
        match self {
            TtsBackend::OpenAi(p) => p.speech_request(text, format),
            TtsBackend::ElevenLabs(p) => p.speech_request(text, format),
        }
    }
}

/// The base URL a provider ends up with: the override without its trailing
/// '/' characters, or the provider's default.
pub open spec fn resolved_base_url(base_url: Option<String>, default: Seq<char>) -> Seq<char> {
    match base_url {
        Some(b) => strip_trailing_slashes(b@),
        None => default,
    }
}

impl TtsConfig {
    /// Resolve the configuration from the settings file's flag and the
    /// environment: `TTS_API_KEY` wins; `OPENAI_API_KEY` is the fallback,
    /// and only for the "openai" provider.
    pub fn resolve(settings_enabled: bool, env: TtsEnvironment) -> (r: Self)
        ensures
            r.enabled == match env.enabled {
                Some(v) => v,
                None => settings_enabled,
            },
            r.provider@ == text_or(env.provider, "openai"@),
            r.model@ == text_or(env.model, "tts-1"@),
            r.voice@ == text_or(env.voice, "alloy"@),
            r.base_url == env.base_url,
            env.tts_api_key matches Some(k) ==> (r.api_key matches Some(a) && api_key_text(a)
                == k@),
            env.tts_api_key is None && r.provider@ == "openai"@ ==> match env.openai_api_key {
                Some(k) => r.api_key matches Some(a) && api_key_text(a) == k@,
                None => r.api_key is None,
            },
            env.tts_api_key is None && r.provider@ != "openai"@ ==> r.api_key is None,
    {
        let enabled = match env.enabled {
            Some(v) => v,
            None => settings_enabled,
        };
        let provider = match env.provider {
            Some(p) => p,
            None => String::from_str("openai"),
        };
        let key_text = match env.tts_api_key {
            Some(k) => Some(k),
            None => if str_eq(provider.as_str(), "openai") {
                env.openai_api_key
            } else {
                None
            },
        };
        let api_key = match key_text {
            Some(k) => Some(ApiKey::new(k)),
            None => None,
        };
        let model = match env.model {
            Some(m) => m,
            None => String::from_str("tts-1"),
        };
        let voice = match env.voice {
            Some(v) => v,
            None => String::from_str("alloy"),
        };
        TtsConfig { enabled, provider, api_key, model, voice, base_url: env.base_url }
    }

    /// Create the TTS provider if enabled and configured.
    pub fn create_provider(&self) -> (r: Option<TtsBackend>)
        ensures
            !self.enabled ==> r is None,
            self.api_key is None ==> r is None,
            self.enabled && self.api_key is Some && self.provider@ == "openai"@ ==> (r matches Some(
                TtsBackend::OpenAi(p),
            ) && p@ == (OpenAiView {
                api_key: api_key_text(self.api_key->0),
                model: self.model@,
                voice: self.voice@,
                base_url: resolved_base_url(self.base_url, "https://api.openai.com"@),
            })),
            self.enabled && self.api_key is Some && self.provider@ == "elevenlabs"@ ==> (r matches Some(
                TtsBackend::ElevenLabs(p),
            ) && p@ == (ElevenLabsView {
                api_key: api_key_text(self.api_key->0),
                voice_id: self.voice@,
                model_id: "eleven_monolingual_v1"@,
                base_url: resolved_base_url(self.base_url, "https://api.elevenlabs.io"@),
            })),
            self.provider@ != "openai"@ && self.provider@ != "elevenlabs"@ ==> r is None,
    {
        proof {
            reveal_strlit("openai");
            reveal_strlit("elevenlabs");
            assert("elevenlabs"@.len() != "openai"@.len());
        }
        if !self.enabled {
            return None;
        }
        let api_key = match &self.api_key {
            Some(k) => k,
            None => return None,
        };
        if str_eq(self.provider.as_str(), "openai") {
            let mut provider = OpenAiTtsProvider::new(api_key.clone()).with_model(
                self.model.as_str(),
            ).with_voice(self.voice.as_str());
            if let Some(base_url) = &self.base_url {
                provider = provider.with_base_url(base_url.as_str());
            }
            Some(TtsBackend::OpenAi(provider))
        } else if str_eq(self.provider.as_str(), "elevenlabs") {
            let mut provider = ElevenLabsProvider::new(api_key.clone()).with_voice_id(
                self.voice.as_str(),
            );
            if let Some(base_url) = &self.base_url {
                provider = provider.with_base_url(base_url.as_str());
            }
            Some(TtsBackend::ElevenLabs(provider))
        } else {
            None
        }
    }
}

} // verus!
