//! Text-to-speech tool: which format it asks for and what it returns.

use vstd::prelude::*;

use crate::encoding::{base64_standard, encode_base64};
use crate::text::ascii_lower;
use crate::tools::{ApprovalRequirement, ToolDomain, ToolRateLimitConfig};
use crate::tts::{format_from_name, lemma_format_name_roundtrip, AudioOutputFormat, TtsOutput};

verus! {

/// Built-in tool for text-to-speech synthesis with the provider `P`.
///
/// Synthesizes text into audio using the configured TTS provider and returns
/// base64-encoded audio data.
pub struct SpeakTool<P> {
    provider: P,
}

/// What the tool returns for synthesized audio.
#[derive(Debug, Clone)]
pub struct SpeakResult {
    pub audio_base64: String,
    pub format: String,
    pub mime_type: String,
    pub size_bytes: usize,
}

/// The format the tool asks for: the `format` parameter when it names a
/// format (in any ASCII case), else MP3.
pub open spec fn requested_format(param: Option<Seq<char>>) -> AudioOutputFormat {
    match param {
        Some(p) => match format_from_name(ascii_lower(p)) {
            Some(f) => f,
            None => AudioOutputFormat::Mp3,
        },
        None => AudioOutputFormat::Mp3,
    }
}

/// The tool asks for the format its `format` parameter names, in any ASCII
/// case, and for MP3 when the parameter is absent or names no format; in
/// particular each format's own name asks for that format.
pub proof fn lemma_requested_format_honours_name(param: Seq<char>, f: AudioOutputFormat)
    ensures
        format_from_name(ascii_lower(param)) == Some(f) ==> requested_format(Some(param)) == f,
        format_from_name(ascii_lower(param)) is None ==> requested_format(Some(param))
            == AudioOutputFormat::Mp3,
        requested_format(None) == AudioOutputFormat::Mp3,
        requested_format(Some(f.spec_extension())) == f,
{
    lemma_format_name_roundtrip(f);
}

impl<P> SpeakTool<P> {
    pub closed spec fn spec_provider(&self) -> P {
        self.provider
    }

    /// Create a new speak tool with the given TTS provider.
    pub fn new(provider: P) -> (r: Self)
        ensures
            r.spec_provider() == provider,
    {
        SpeakTool { provider }
    }

    /// The tool's provider.
    pub fn provider(&self) -> (r: &P)
        ensures
            *r == self.spec_provider(),
    {
        &self.provider
    }

    /// Tool name.
    pub fn name(&self) -> (r: &'static str)
        ensures
            r@ == "speak"@,
    {
        "speak"
    }

    /// Tool description.
    pub fn description(&self) -> (r: &'static str)
        ensures
            r@
                == "Synthesize text into audio using text-to-speech. Returns base64-encoded audio data."@,
    {
        "Synthesize text into audio using text-to-speech. Returns base64-encoded audio data."
    }

    /// Output is audio data, not untrusted text.
    pub fn requires_sanitization(&self) -> (r: bool)
        ensures
            !r,
    {
        false
    }

    /// Synthesis needs approval unless calls are auto-approved.
    pub fn requires_approval(&self, _params: &serde_json::Value) -> (r: ApprovalRequirement)
        ensures
            r == ApprovalRequirement::UnlessAutoApproved,
    {
        ApprovalRequirement::UnlessAutoApproved
    }

    /// The tool runs in the orchestrator.
    pub fn domain(&self) -> (r: ToolDomain)
        ensures
            r == ToolDomain::Orchestrator,
    {
        ToolDomain::Orchestrator
    }

    /// At most 10 calls a minute and 100 an hour.
    pub fn rate_limit_config(&self) -> (r: Option<ToolRateLimitConfig>)
        ensures
            r == Some(ToolRateLimitConfig { requests_per_minute: 10, requests_per_hour: 100 }),
    {
        Some(ToolRateLimitConfig::new(10, 100))
    }

    /// Calls time out after this many seconds.
    pub fn execution_timeout_secs(&self) -> (r: u64)
        ensures
            r == 60,
    {
        60
    }

    /// The format to synthesize, from the optional `format` parameter.
    pub fn requested_format(format: Option<&str>) -> (r: AudioOutputFormat)
        ensures
            r == requested_format(match format {
                Some(f) => Some(f@),
                None => None,
            }),
    {
        match format {
            Some(f) => match AudioOutputFormat::from_str_name(f) {
                Some(fmt) => fmt,
                None => AudioOutputFormat::Mp3,
            },
            None => AudioOutputFormat::Mp3,
        }
    }

    /// The tool's result for synthesized audio.
    pub fn result(output: &TtsOutput) -> (r: SpeakResult)
        ensures
            r.audio_base64@ == base64_standard(output.audio_data@),
            r.format@ == output.format.spec_extension(),
            r.mime_type@ == output.format.spec_mime_type(),
            r.size_bytes == output.audio_data@.len(),
    {
        SpeakResult {
            audio_base64: encode_base64(output.audio_data.as_slice()),
            format: String::from_str(output.format.extension()),
            mime_type: String::from_str(output.format.mime_type()),
            size_bytes: output.audio_data.len(),
        }
    }
}

} // verus!
