//! OpenAI TTS provider (`/v1/audio/speech`).

use vstd::prelude::*;

use crate::secret::{api_key_text, ApiKey};
use crate::text::{ascii_lower, strip_trailing_slashes, trim_trailing_slashes};
use crate::tts::{
    format_from_name, lemma_format_name_roundtrip,
    check_text, text_refusal, AudioOutputFormat, SpeechBody, SpeechBodyView, SpeechRequest,
    SpeechRequestView, TtsError, TtsProvider,
};

verus! {

/// Maximum text length (bytes) for the OpenAI TTS API.
pub const OPENAI_MAX_TEXT_LENGTH: usize = 4096;

/// OpenAI text-to-speech provider settings.
#[derive(Debug)]
pub struct OpenAiTtsProvider {
    api_key: ApiKey,
    model: String,
    voice: String,
    base_url: String,
}

pub struct OpenAiView {
    pub api_key: Seq<char>,
    pub model: Seq<char>,
    pub voice: Seq<char>,
    pub base_url: Seq<char>,
}

impl View for OpenAiTtsProvider {
    type V = OpenAiView;

    closed spec fn view(&self) -> OpenAiView {
        OpenAiView {
            api_key: api_key_text(self.api_key),
            model: self.model@,
            voice: self.voice@,
            base_url: self.base_url@,
        }
    }
}

/// The `response_format` OpenAI is asked for.
pub open spec fn openai_response_format(format: AudioOutputFormat) -> Seq<char> {
    format.spec_extension()
}

/// The request OpenAI is sent for `text` in `format`.
pub open spec fn openai_request(p: OpenAiView, text: Seq<char>, format: AudioOutputFormat) -> SpeechRequestView {
    SpeechRequestView {
        url: p.base_url + "/v1/audio/speech"@,
        auth_header: "Authorization"@,
        auth_value: "Bearer "@ + p.api_key,
        body: SpeechBodyView::OpenAi {
            model: p.model,
            input: text,
            voice: p.voice,
            response_format: openai_response_format(format),
        },
        output_format: format,
    }
}

/// The OpenAI request asks for the very audio format it reports: its
/// `response_format` parses back to its `output_format`, which is the format
/// that was requested.
pub proof fn lemma_openai_asks_for_reported_format(
    p: OpenAiView,
    text: Seq<char>,
    format: AudioOutputFormat,
)
    ensures
        openai_request(p, text, format).output_format == format,
        openai_request(p, text, format).body matches SpeechBodyView::OpenAi { response_format, .. }
            && format_from_name(response_format) == Some(format),
{
    lemma_format_name_roundtrip(format);
    reveal_strlit("mp3");
    reveal_strlit("opus");
    reveal_strlit("wav");
    reveal_strlit("pcm");
    assert(ascii_lower(format.spec_extension()) =~= format.spec_extension());
}

impl OpenAiTtsProvider {
    /// Create a new OpenAI TTS provider with the given API key.
    pub fn new(api_key: ApiKey) -> (r: Self)
        ensures
            r@ == (OpenAiView {
                api_key: api_key_text(api_key),
                model: "tts-1"@,
                voice: "alloy"@,
                base_url: "https://api.openai.com"@,
            }),
    {
        OpenAiTtsProvider {
            api_key,
            model: String::from_str("tts-1"),
            voice: String::from_str("alloy"),
            base_url: String::from_str("https://api.openai.com"),
        }
    }

    /// Override the base URL (for proxied or compatible endpoints); trailing
    /// '/' characters are dropped.
    pub fn with_base_url(self, base_url: &str) -> (r: Self)
        ensures
            r@ == (OpenAiView { base_url: strip_trailing_slashes(base_url@), ..self@ }),
    {
        OpenAiTtsProvider { base_url: trim_trailing_slashes(base_url), ..self }
    }

    /// Override the model name (e.g. "tts-1-hd").
    pub fn with_model(self, model: &str) -> (r: Self)
        ensures
            r@ == (OpenAiView { model: model@, ..self@ }),
    {
        OpenAiTtsProvider { model: String::from_str(model), ..self }
    }

    /// Override the voice (e.g. "nova", "shimmer", "echo", "fable", "onyx").
    pub fn with_voice(self, voice: &str) -> (r: Self)
        ensures
            r@ == (OpenAiView { voice: voice@, ..self@ }),
    {
        OpenAiTtsProvider { voice: String::from_str(voice), ..self }
    }
}

impl TtsProvider for OpenAiTtsProvider {
    fn name(&self) -> (r: &str)
        ensures
            r@ == "openai"@,
    {
        "openai"
    }

    fn speech_request(&self, text: &str, format: AudioOutputFormat) -> (r: Result<
        SpeechRequest,
        TtsError,
    >)
        ensures
            text_refusal(text, OPENAI_MAX_TEXT_LENGTH) matches Some(e) ==> (r matches Err(f) && f
                == e),
            text_refusal(text, OPENAI_MAX_TEXT_LENGTH) is None ==> (r matches Ok(req) && req@
                == openai_request(self@, text@, format)),
    {
        check_text(text, OPENAI_MAX_TEXT_LENGTH)?;
        let url = self.base_url.clone().concat("/v1/audio/speech");
        let auth_value = String::from_str("Bearer ").concat(self.api_key.expose());
        let body = SpeechBody::OpenAi {
            model: self.model.clone(),
            input: String::from_str(text),
            voice: self.voice.clone(),
            response_format: String::from_str(format.extension()),
        };
        Ok(
            SpeechRequest {
                url,
                auth_header: String::from_str("Authorization"),
                auth_value,
                body,
                output_format: format,
            },
        )
    }
}

} // verus!
