//! Text-to-speech: audio formats, errors, and the requests that the OpenAI and
//! ElevenLabs providers send.

pub mod elevenlabs;
pub mod openai;

pub use self::elevenlabs::ElevenLabsProvider;
pub use self::openai::OpenAiTtsProvider;

use vstd::prelude::*;

use crate::text::{ascii_lower, decimal, eq_lower, usize_to_decimal};

verus! {

/// Supported audio output formats for TTS.
#[derive(Debug, Clone, Copy, PartialEq, Eq, Structural)]
pub enum AudioOutputFormat {
    Mp3,
    Opus,
    Wav,
    Pcm,
}

/// The format's name as `from_str_name` accepts it (lower case).
pub open spec fn format_from_name(name: Seq<char>) -> Option<AudioOutputFormat> {
    if name == "mp3"@ {
        Some(AudioOutputFormat::Mp3)
    } else if name == "opus"@ {
        Some(AudioOutputFormat::Opus)
    } else if name == "wav"@ {
        Some(AudioOutputFormat::Wav)
    } else if name == "pcm"@ {
        Some(AudioOutputFormat::Pcm)
    } else {
        None
    }
}

impl AudioOutputFormat {
    pub open spec fn spec_extension(self) -> Seq<char> {
        match self {
            AudioOutputFormat::Mp3 => "mp3"@,
            AudioOutputFormat::Opus => "opus"@,
            AudioOutputFormat::Wav => "wav"@,
            AudioOutputFormat::Pcm => "pcm"@,
        }
    }

    pub open spec fn spec_mime_type(self) -> Seq<char> {
        match self {
            AudioOutputFormat::Mp3 => "audio/mpeg"@,
            AudioOutputFormat::Opus => "audio/opus"@,
            AudioOutputFormat::Wav => "audio/wav"@,
            AudioOutputFormat::Pcm => "audio/pcm"@,
        }
    }

    /// File extension for this format.
    pub fn extension(&self) -> (r: &'static str)
        ensures
            r@ == self.spec_extension(),
    {
        match self {
            AudioOutputFormat::Mp3 => "mp3",
            AudioOutputFormat::Opus => "opus",
            AudioOutputFormat::Wav => "wav",
            AudioOutputFormat::Pcm => "pcm",
        }
    }

    /// MIME type for this format.
    pub fn mime_type(&self) -> (r: &'static str)
        ensures
            r@ == self.spec_mime_type(),
    {
        match self {
            AudioOutputFormat::Mp3 => "audio/mpeg",
            AudioOutputFormat::Opus => "audio/opus",
            AudioOutputFormat::Wav => "audio/wav",
            AudioOutputFormat::Pcm => "audio/pcm",
        }
    }

    /// Parse from a string, ignoring ASCII case, returning `None` for
    /// unrecognized formats.
    pub fn from_str_name(s: &str) -> (r: Option<Self>)
        ensures
            r == format_from_name(ascii_lower(s@)),
    {
        if eq_lower(s, "mp3") {
            Some(AudioOutputFormat::Mp3)
        } else if eq_lower(s, "opus") {
            Some(AudioOutputFormat::Opus)
        } else if eq_lower(s, "wav") {
            Some(AudioOutputFormat::Wav)
        } else if eq_lower(s, "pcm") {
            Some(AudioOutputFormat::Pcm)
        } else {
            None
        }
    }
}

/// Every format is parsed back from its own extension, in any ASCII case of it.
pub proof fn lemma_format_name_roundtrip(f: AudioOutputFormat)
    ensures
        format_from_name(ascii_lower(f.spec_extension())) == Some(f),
{
    reveal_strlit("mp3");
    reveal_strlit("opus");
    reveal_strlit("wav");
    reveal_strlit("pcm");
    assert(ascii_lower("mp3"@) =~= "mp3"@);
    assert(ascii_lower("opus"@) =~= "opus"@);
    assert(ascii_lower("wav"@) =~= "wav"@);
    assert(ascii_lower("pcm"@) =~= "pcm"@);
    assert("mp3"@ != "wav"@) by { assert("mp3"@[0] != "wav"@[0]); }
    assert("mp3"@ != "pcm"@) by { assert("mp3"@[0] != "pcm"@[0]); }
    assert("wav"@ != "pcm"@) by { assert("wav"@[0] != "pcm"@[0]); }
}

/// Parsing a format name ignores ASCII case.
pub proof fn lemma_format_name_ignores_case(s1: Seq<char>, s2: Seq<char>)
    requires
        ascii_lower(s1) == ascii_lower(s2),
    ensures
        format_from_name(ascii_lower(s1)) == format_from_name(ascii_lower(s2)),
{
}

/// Distinct formats have distinct extensions.
pub proof fn lemma_extension_injective(f: AudioOutputFormat, g: AudioOutputFormat)
    ensures
        f.spec_extension() == g.spec_extension() ==> f == g,
{
    lemma_format_name_roundtrip(f);
    lemma_format_name_roundtrip(g);
}

/// Errors from the TTS pipeline.
#[derive(Debug)]
pub enum TtsError {
    RequestFailed(String),
    UnsupportedProvider(String),
    EmptyText,
    TextTooLong { len: usize, max: usize },
}

impl TtsError {
    pub open spec fn spec_message(&self) -> Seq<char> {
        match self {
            TtsError::RequestFailed(s) => "TTS request failed: "@ + s@,
            TtsError::UnsupportedProvider(s) => "Unsupported provider: "@ + s@,
            TtsError::EmptyText => "Text is empty"@,
            TtsError::TextTooLong { len, max } => "Text too long: "@ + decimal(*len as nat)
                + " chars (max "@ + decimal(*max as nat) + ")"@,
        }
    }

    /// The error's message text.
    pub fn message(&self) -> (r: String)
        ensures
            r@ == self.spec_message(),
    {
        match self {
            TtsError::RequestFailed(s) => String::from_str("TTS request failed: ").concat(
                s.as_str(),
            ),
            TtsError::UnsupportedProvider(s) => String::from_str("Unsupported provider: ").concat(
                s.as_str(),
            ),
            TtsError::EmptyText => String::from_str("Text is empty"),
            TtsError::TextTooLong { len, max } => String::from_str("Text too long: ").concat(
                usize_to_decimal(*len).as_str(),
            ).concat(" chars (max ").concat(usize_to_decimal(*max).as_str()).concat(")"),
        }
    }
}

/// Output from a TTS synthesis request.
#[derive(Debug, Clone)]
pub struct TtsOutput {
    /// Raw audio bytes.
    pub audio_data: Vec<u8>,
    /// Format of the audio data.
    pub format: AudioOutputFormat,
}

/// The JSON body of a speech request, field for field.
#[derive(Debug)]
pub enum SpeechBody {
    /// `{"model", "input", "voice", "response_format"}`
    OpenAi { model: String, input: String, voice: String, response_format: String },
    /// `{"text", "model_id", "output_format"}`
    ElevenLabs { text: String, model_id: String, output_format: String },
}

pub enum SpeechBodyView {
    OpenAi { model: Seq<char>, input: Seq<char>, voice: Seq<char>, response_format: Seq<char> },
    ElevenLabs { text: Seq<char>, model_id: Seq<char>, output_format: Seq<char> },
}

impl View for SpeechBody {
    type V = SpeechBodyView;

    open spec fn view(&self) -> SpeechBodyView {
        match self {
            SpeechBody::OpenAi { model, input, voice, response_format } => SpeechBodyView::OpenAi {
                model: model@,
                input: input@,
                voice: voice@,
                response_format: response_format@,
            },
            SpeechBody::ElevenLabs { text, model_id, output_format } =>
                SpeechBodyView::ElevenLabs {
                text: text@,
                model_id: model_id@,
                output_format: output_format@,
            },
        }
    }
}

/// An HTTP POST that synthesizes speech: where it goes, the one header that
/// carries the API key, the JSON body, and the format of the audio it returns.
/// It has no `Debug`, so the key cannot end up in a log.
pub struct SpeechRequest {
    pub url: String,
    pub auth_header: String,
    pub auth_value: String,
    pub body: SpeechBody,
    pub output_format: AudioOutputFormat,
}

pub struct SpeechRequestView {
    pub url: Seq<char>,
    pub auth_header: Seq<char>,
    pub auth_value: Seq<char>,
    pub body: SpeechBodyView,
    pub output_format: AudioOutputFormat,
}

impl View for SpeechRequest {
    type V = SpeechRequestView;

    open spec fn view(&self) -> SpeechRequestView {
        SpeechRequestView {
            url: self.url@,
            auth_header: self.auth_header@,
            auth_value: self.auth_value@,
            body: self.body@,
            output_format: self.output_format,
        }
    }
}

impl SpeechRequest {
    /// The synthesis result once the response body has been read.
    pub fn output(&self, audio_data: Vec<u8>) -> (r: TtsOutput)
        ensures
            r.audio_data == audio_data,
            r.format == self.output_format,
    {
        TtsOutput { audio_data, format: self.output_format }
    }
}

/// How a request that the provider answered with a non-success status fails:
/// `HTTP {status}: {body}`, with "unknown error" when the body could not be read.
pub fn http_failure(status: &str, body: Option<&str>) -> (r: TtsError)
    ensures
        r matches TtsError::RequestFailed(m) && m@ == "HTTP "@ + status@ + ": "@ + match body {
            Some(b) => b@,
            None => "unknown error"@,
        },
{
    let detail = match body {
        Some(b) => b,
        None => "unknown error",
    };
    TtsError::RequestFailed(
        String::from_str("HTTP ").concat(status).concat(": ").concat(detail),
    )
}

/// How the request checks the text before anything is sent: empty text, or
/// more than `max` bytes of UTF-8, are refused.
pub open spec fn text_refusal(text: &str, max: usize) -> Option<TtsError> {
    if text@.len() == 0 {
        Some(TtsError::EmptyText)
    } else if text.len() > max {
        Some(TtsError::TextTooLong { len: text.len(), max })
    } else {
        None
    }
}

/// Checks the text of a synthesis request.
pub fn check_text(text: &str, max: usize) -> (r: Result<(), TtsError>)
    ensures
        text_refusal(text, max) is None ==> r is Ok,
        text_refusal(text, max) matches Some(e) ==> (r matches Err(f) && f == e),
{
    if text.is_empty() {
        return Err(TtsError::EmptyText);
    }
    let len: usize = text.len();
    if len > max {
        return Err(TtsError::TextTooLong { len, max });
    }
    Ok(())
}

/// A text-to-speech provider: its name, and the request that synthesizes a
/// text in a format (the HTTP exchange itself is done by the caller).
pub trait TtsProvider {
    /// Provider name (e.g. "openai", "elevenlabs").
    fn name(&self) -> &str;

    /// The request that synthesizes `text` into `format`, or why none is sent.
    fn speech_request(&self, text: &str, format: AudioOutputFormat) -> Result<
        SpeechRequest,
        TtsError,
    >;
}

} // verus!
