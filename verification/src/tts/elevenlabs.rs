//! ElevenLabs TTS provider (`/v1/text-to-speech/{voice_id}`).

use vstd::prelude::*;

use crate::secret::{api_key_text, ApiKey};
use crate::text::{strip_trailing_slashes, trim_trailing_slashes};
use crate::tts::{
    check_text, text_refusal, AudioOutputFormat, SpeechBody, SpeechBodyView, SpeechRequest,
    SpeechRequestView, TtsError, TtsProvider,
};

verus! {

/// Maximum text length (bytes) for the ElevenLabs TTS API.
pub const ELEVENLABS_MAX_TEXT_LENGTH: usize = 5000;

/// ElevenLabs text-to-speech provider settings.
#[derive(Debug)]
pub struct ElevenLabsProvider {
    api_key: ApiKey,
    voice_id: String,
    model_id: String,
    base_url: String,
}

pub struct ElevenLabsView {
    pub api_key: Seq<char>,
    pub voice_id: Seq<char>,
    pub model_id: Seq<char>,
    pub base_url: Seq<char>,
}

impl View for ElevenLabsProvider {
    type V = ElevenLabsView;

    closed spec fn view(&self) -> ElevenLabsView {
        ElevenLabsView {
            api_key: api_key_text(self.api_key),
            voice_id: self.voice_id@,
            model_id: self.model_id@,
            base_url: self.base_url@,
        }
    }
}

/// The audio ElevenLabs returns for a requested format: it has no native WAV
/// or Opus output, so those fall back to MP3.
pub open spec fn elevenlabs_actual_format(format: AudioOutputFormat) -> AudioOutputFormat {
    match format {
        AudioOutputFormat::Wav | AudioOutputFormat::Opus => AudioOutputFormat::Mp3,
        other => other,
    }
}

/// The `output_format` ElevenLabs is asked for.
pub open spec fn elevenlabs_output_format(format: AudioOutputFormat) -> Seq<char> {
    match format {
        AudioOutputFormat::Pcm => "pcm_16000"@,
        _ => "mp3_44100_128"@,
    }
}

/// The request ElevenLabs is sent for `text` in `format`.
pub open spec fn elevenlabs_request(p: ElevenLabsView, text: Seq<char>, format: AudioOutputFormat) -> SpeechRequestView {
    SpeechRequestView {
        url: p.base_url + "/v1/text-to-speech/"@ + p.voice_id,
        auth_header: "xi-api-key"@,
        auth_value: p.api_key,
        body: SpeechBodyView::ElevenLabs {
            text,
            model_id: p.model_id,
            output_format: elevenlabs_output_format(format),
        },
        output_format: elevenlabs_actual_format(format),
    }
}

/// ElevenLabs only ever returns MP3 or PCM, and returns the requested format
/// whenever it is one of those two.
pub proof fn lemma_elevenlabs_format(format: AudioOutputFormat)
    ensures
        elevenlabs_actual_format(format) == AudioOutputFormat::Mp3 || elevenlabs_actual_format(
            format,
        ) == AudioOutputFormat::Pcm,
        (format == AudioOutputFormat::Mp3 || format == AudioOutputFormat::Pcm)
            ==> elevenlabs_actual_format(format) == format,
{
}

/// The ElevenLabs body asks for the codec of the format the request reports:
/// `pcm_16000` exactly when it reports PCM, an `mp3_` codec exactly when it
/// reports MP3, and it reports one of those two: PCM exactly when PCM was
/// requested, MP3 otherwise.
pub proof fn lemma_elevenlabs_asks_for_reported_format(
    p: ElevenLabsView,
    text: Seq<char>,
    format: AudioOutputFormat,
)
    ensures
        ({
            let req = elevenlabs_request(p, text, format);
            req.body matches SpeechBodyView::ElevenLabs { output_format: codec, .. } && {
                &&& (req.output_format == AudioOutputFormat::Pcm <==> codec == "pcm_16000"@)
                &&& (req.output_format == AudioOutputFormat::Mp3 <==> (codec.len() >= 4
                    && codec.subrange(0, 4) == "mp3_"@))
                &&& (req.output_format == AudioOutputFormat::Mp3 || req.output_format
                    == AudioOutputFormat::Pcm)
                &&& (format == AudioOutputFormat::Mp3 || format == AudioOutputFormat::Pcm)
                    ==> req.output_format == format
                &&& (req.output_format == AudioOutputFormat::Pcm <==> format
                    == AudioOutputFormat::Pcm)
            }
        }),
{
    reveal_strlit("pcm_16000");
    reveal_strlit("mp3_44100_128");
    reveal_strlit("mp3_");
    assert("mp3_44100_128"@ != "pcm_16000"@) by { assert("mp3_44100_128"@[0] != "pcm_16000"@[0]); }
    assert("mp3_44100_128"@.subrange(0, 4) =~= "mp3_"@);
    assert("pcm_16000"@.subrange(0, 4) != "mp3_"@) by {
        assert("pcm_16000"@.subrange(0, 4)[0] != "mp3_"@[0]);
    }
}

impl ElevenLabsProvider {
    /// Create a new ElevenLabs TTS provider with the given API key.
    pub fn new(api_key: ApiKey) -> (r: Self)
        ensures
            r@ == (ElevenLabsView {
                api_key: api_key_text(api_key),
                voice_id: "21m00Tcm4TlvDq8ikWAM"@,
                model_id: "eleven_monolingual_v1"@,
                base_url: "https://api.elevenlabs.io"@,
            }),
    {
        ElevenLabsProvider {
            api_key,
            voice_id: String::from_str("21m00Tcm4TlvDq8ikWAM"),
            model_id: String::from_str("eleven_monolingual_v1"),
            base_url: String::from_str("https://api.elevenlabs.io"),
        }
    }

    /// Override the voice ID.
    pub fn with_voice_id(self, voice_id: &str) -> (r: Self)
        ensures
            r@ == (ElevenLabsView { voice_id: voice_id@, ..self@ }),
    {
        ElevenLabsProvider { voice_id: String::from_str(voice_id), ..self }
    }

    /// Override the model ID (e.g. "eleven_multilingual_v2").
    pub fn with_model_id(self, model_id: &str) -> (r: Self)
        ensures
            r@ == (ElevenLabsView { model_id: model_id@, ..self@ }),
    {
        ElevenLabsProvider { model_id: String::from_str(model_id), ..self }
    }

    /// Override the base URL; trailing '/' characters are dropped.
    pub fn with_base_url(self, base_url: &str) -> (r: Self)
        ensures
            r@ == (ElevenLabsView { base_url: strip_trailing_slashes(base_url@), ..self@ }),
    {
        ElevenLabsProvider { base_url: trim_trailing_slashes(base_url), ..self }
    }
}

impl TtsProvider for ElevenLabsProvider {
    fn name(&self) -> (r: &str)
        ensures
            r@ == "elevenlabs"@,
    {
        "elevenlabs"
    }

    fn speech_request(&self, text: &str, format: AudioOutputFormat) -> (r: Result<
        SpeechRequest,
        TtsError,
    >)
        ensures
            text_refusal(text, ELEVENLABS_MAX_TEXT_LENGTH) matches Some(e) ==> (r matches Err(f)
                && f == e),
            text_refusal(text, ELEVENLABS_MAX_TEXT_LENGTH) is None ==> (r matches Ok(req)
                && req@ == elevenlabs_request(self@, text@, format)),
    {
        check_text(text, ELEVENLABS_MAX_TEXT_LENGTH)?;
        let output_format = match format {
            AudioOutputFormat::Pcm => "pcm_16000",
            _ => "mp3_44100_128",
        };
        let actual_format = match format {
            AudioOutputFormat::Wav | AudioOutputFormat::Opus => AudioOutputFormat::Mp3,
            other => other,
        };
        let url = self.base_url.clone().concat("/v1/text-to-speech/").concat(
            self.voice_id.as_str(),
        );
        let body = SpeechBody::ElevenLabs {
            text: String::from_str(text),
            model_id: self.model_id.clone(),
            output_format: String::from_str(output_format),
        };
        Ok(
            SpeechRequest {
                url,
                auth_header: String::from_str("xi-api-key"),
                auth_value: String::from_str(self.api_key.expose()),
                body,
                output_format: actual_format,
            },
        )
    }
}

} // verus!
