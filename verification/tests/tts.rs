use ironclaw::tools::require_str;
use ironclaw::config::{TtsBackend, TtsConfig, TtsEnvironment};
use ironclaw::secret::ApiKey;
use ironclaw::tools::{ApprovalRequirement, SpeakTool, ToolDomain};
use ironclaw::tts::{
    http_failure, AudioOutputFormat, ElevenLabsProvider, OpenAiTtsProvider, SpeechBody, TtsError,
    TtsOutput, TtsProvider,
};

fn key(text: &str) -> ApiKey {
    ApiKey::new(text.to_string())
}

#[test]
fn audio_output_format_roundtrip() {
    assert_eq!(AudioOutputFormat::from_str_name("mp3"), Some(AudioOutputFormat::Mp3));
    assert_eq!(AudioOutputFormat::from_str_name("MP3"), Some(AudioOutputFormat::Mp3));
    assert_eq!(AudioOutputFormat::from_str_name("opus"), Some(AudioOutputFormat::Opus));
    assert_eq!(AudioOutputFormat::from_str_name("wav"), Some(AudioOutputFormat::Wav));
    assert_eq!(AudioOutputFormat::from_str_name("pcm"), Some(AudioOutputFormat::Pcm));
    assert_eq!(AudioOutputFormat::from_str_name("unknown"), None);
}

#[test]
fn audio_output_format_extension() {
    assert_eq!(AudioOutputFormat::Mp3.extension(), "mp3");
    assert_eq!(AudioOutputFormat::Opus.extension(), "opus");
    assert_eq!(AudioOutputFormat::Wav.extension(), "wav");
    assert_eq!(AudioOutputFormat::Pcm.extension(), "pcm");
}

#[test]
fn audio_output_format_mime_type() {
    assert_eq!(AudioOutputFormat::Mp3.mime_type(), "audio/mpeg");
    assert_eq!(AudioOutputFormat::Opus.mime_type(), "audio/opus");
    assert_eq!(AudioOutputFormat::Wav.mime_type(), "audio/wav");
    assert_eq!(AudioOutputFormat::Pcm.mime_type(), "audio/pcm");
}

#[test]
fn audio_output_format_extension_roundtrip_any_case() {
    for f in [
        AudioOutputFormat::Mp3,
        AudioOutputFormat::Opus,
        AudioOutputFormat::Wav,
        AudioOutputFormat::Pcm,
    ] {
        assert_eq!(AudioOutputFormat::from_str_name(f.extension()), Some(f));
        assert_eq!(AudioOutputFormat::from_str_name(&f.extension().to_uppercase()), Some(f));
    }
    assert_eq!(AudioOutputFormat::from_str_name("Opus"), Some(AudioOutputFormat::Opus));
    assert_eq!(AudioOutputFormat::from_str_name(" mp3"), None);
    assert_eq!(AudioOutputFormat::from_str_name(""), None);
}

#[test]
fn tts_default_config_is_disabled() {
    let config = TtsConfig::default();
    assert!(!config.enabled);
    assert_eq!(config.provider, "openai");
    assert_eq!(config.model, "tts-1");
    assert_eq!(config.voice, "alloy");
    assert!(config.api_key.is_none());
    assert!(config.base_url.is_none());
}

#[test]
fn create_provider_returns_none_when_disabled() {
    let config = TtsConfig::default();
    assert!(config.create_provider().is_none());
}

#[test]
fn create_provider_returns_none_without_api_key() {
    let config = TtsConfig { enabled: true, ..TtsConfig::default() };
    assert!(config.create_provider().is_none());
}

#[test]
fn create_provider_returns_openai_provider() {
    let config = TtsConfig {
        enabled: true,
        api_key: Some(key("test-key")),
        ..TtsConfig::default()
    };
    let provider = config.create_provider();
    assert!(provider.is_some());
    assert_eq!(provider.as_ref().map(|p| p.name()), Some("openai"));
}

#[test]
fn create_provider_returns_elevenlabs_provider() {
    let config = TtsConfig {
        enabled: true,
        provider: "elevenlabs".to_string(),
        api_key: Some(key("test-key")),
        ..TtsConfig::default()
    };
    let provider = config.create_provider();
    assert!(provider.is_some());
    assert_eq!(provider.as_ref().map(|p| p.name()), Some("elevenlabs"));
}

#[test]
fn create_provider_returns_none_for_unknown_provider() {
    let config = TtsConfig {
        enabled: true,
        provider: "unknown".to_string(),
        api_key: Some(key("test-key")),
        ..TtsConfig::default()
    };
    assert!(config.create_provider().is_none());
}

#[test]
fn tts_resolve_defaults_without_env_vars() {
    let config = TtsConfig::resolve(false, TtsEnvironment::default());
    assert!(!config.enabled);
    assert_eq!(config.provider, "openai");
    assert_eq!(config.model, "tts-1");
    assert_eq!(config.voice, "alloy");
}

#[test]
fn tts_resolve_api_key_fallback() {
    let env = TtsEnvironment {
        openai_api_key: Some("sk-openai".into()),
        ..TtsEnvironment::default()
    };
    let config = TtsConfig::resolve(false, env.clone());
    assert_eq!(config.api_key.as_ref().map(|k| k.expose()), Some("sk-openai"));

    // The OpenAI fallback does not apply to other providers.
    let other = TtsEnvironment { provider: Some("elevenlabs".into()), ..env.clone() };
    assert!(TtsConfig::resolve(false, other).api_key.is_none());

    // TTS_API_KEY wins.
    let both = TtsEnvironment { tts_api_key: Some("sk-tts".into()), ..env };
    assert_eq!(
        TtsConfig::resolve(true, both).api_key.as_ref().map(|k| k.expose()),
        Some("sk-tts")
    );
}

#[test]
fn create_provider_applies_settings() {
    let config = TtsConfig {
        enabled: true,
        api_key: Some(key("k1")),
        model: "tts-1-hd".into(),
        voice: "nova".into(),
        base_url: Some("https://proxy.test//".into()),
        ..TtsConfig::default()
    };
    let provider = config.create_provider().unwrap();
    assert!(matches!(provider, TtsBackend::OpenAi(_)));
    let req = provider.speech_request("hi", AudioOutputFormat::Wav).unwrap();
    assert_eq!(req.url, "https://proxy.test/v1/audio/speech");
    assert_eq!(req.auth_header, "Authorization");
    assert_eq!(req.auth_value, "Bearer k1");
    match req.body {
        SpeechBody::OpenAi { model, input, voice, response_format } => {
            assert_eq!(model, "tts-1-hd");
            assert_eq!(input, "hi");
            assert_eq!(voice, "nova");
            assert_eq!(response_format, "wav");
        }
        _ => panic!("expected an OpenAI body"),
    }
    assert_eq!(req.output_format, AudioOutputFormat::Wav);
}

#[test]
fn openai_request_checks_text() {
    let p = OpenAiTtsProvider::new(key("k"));
    assert!(matches!(p.speech_request("", AudioOutputFormat::Mp3), Err(TtsError::EmptyText)));
    let long = "x".repeat(4097);
    match p.speech_request(&long, AudioOutputFormat::Mp3) {
        Err(TtsError::TextTooLong { len, max }) => {
            assert_eq!(len, 4097);
            assert_eq!(max, 4096);
        }
        _ => panic!("expected TextTooLong"),
    }
    // The limit counts bytes: 2000 two-byte characters are 4000 bytes.
    assert!(p.speech_request(&"é".repeat(2000), AudioOutputFormat::Mp3).is_ok());
    assert!(p.speech_request(&"é".repeat(2049), AudioOutputFormat::Mp3).is_err());
    assert!(p.speech_request(&"x".repeat(4096), AudioOutputFormat::Mp3).is_ok());
}

#[test]
fn elevenlabs_request_formats() {
    let p = ElevenLabsProvider::new(key("xi"))
        .with_voice_id("v1")
        .with_model_id("eleven_multilingual_v2")
        .with_base_url("http://local/");
    let req = p.speech_request("hello", AudioOutputFormat::Opus).unwrap();
    assert_eq!(req.url, "http://local/v1/text-to-speech/v1");
    assert_eq!(req.auth_header, "xi-api-key");
    assert_eq!(req.auth_value, "xi");
    assert_eq!(req.output_format, AudioOutputFormat::Mp3);
    match req.body {
        SpeechBody::ElevenLabs { text, model_id, output_format } => {
            assert_eq!(text, "hello");
            assert_eq!(model_id, "eleven_multilingual_v2");
            assert_eq!(output_format, "mp3_44100_128");
        }
        _ => panic!("expected an ElevenLabs body"),
    }
    let pcm = p.speech_request("hello", AudioOutputFormat::Pcm).unwrap();
    assert_eq!(pcm.output_format, AudioOutputFormat::Pcm);
    match pcm.body {
        SpeechBody::ElevenLabs { output_format, .. } => assert_eq!(output_format, "pcm_16000"),
        _ => panic!("expected an ElevenLabs body"),
    }
    assert!(p.speech_request(&"x".repeat(5000), AudioOutputFormat::Mp3).is_ok());
    assert!(p.speech_request(&"x".repeat(5001), AudioOutputFormat::Mp3).is_err());
}

#[test]
fn elevenlabs_defaults() {
    let p = ElevenLabsProvider::new(key("xi"));
    let req = p.speech_request("a", AudioOutputFormat::Mp3).unwrap();
    assert_eq!(req.url, "https://api.elevenlabs.io/v1/text-to-speech/21m00Tcm4TlvDq8ikWAM");
    match req.body {
        SpeechBody::ElevenLabs { model_id, .. } => assert_eq!(model_id, "eleven_monolingual_v1"),
        _ => panic!("expected an ElevenLabs body"),
    }
}

#[test]
fn openai_defaults_and_base_url() {
    let url = |p: &OpenAiTtsProvider| p.speech_request("a", AudioOutputFormat::Mp3).unwrap().url;
    let p = OpenAiTtsProvider::new(key("k"));
    assert_eq!(url(&p), "https://api.openai.com/v1/audio/speech");
    let p = p.with_base_url("https://x.test///");
    assert_eq!(url(&p), "https://x.test/v1/audio/speech");
    let p = p.with_base_url("/");
    assert_eq!(url(&p), "/v1/audio/speech");
    let req = OpenAiTtsProvider::new(key("k"))
        .speech_request("a", AudioOutputFormat::Pcm)
        .unwrap();
    match req.body {
        SpeechBody::OpenAi { model, voice, response_format, .. } => {
            assert_eq!(model, "tts-1");
            assert_eq!(voice, "alloy");
            assert_eq!(response_format, "pcm");
        }
        _ => panic!("expected an OpenAI body"),
    }
}

#[test]
fn tts_error_messages() {
    assert_eq!(TtsError::RequestFailed("x".into()).message(), "TTS request failed: x");
    assert_eq!(TtsError::UnsupportedProvider("y".into()).message(), "Unsupported provider: y");
    assert_eq!(TtsError::EmptyText.message(), "Text is empty");
    assert_eq!(
        TtsError::TextTooLong { len: 4097, max: 4096 }.message(),
        "Text too long: 4097 chars (max 4096)"
    );
    assert_eq!(
        TtsError::TextTooLong { len: 0, max: 10 }.message(),
        "Text too long: 0 chars (max 10)"
    );
}

#[test]
fn http_failure_message() {
    assert_eq!(
        http_failure("401 Unauthorized", Some("bad key")).message(),
        "TTS request failed: HTTP 401 Unauthorized: bad key"
    );
    assert_eq!(
        http_failure("500 Internal Server Error", None).message(),
        "TTS request failed: HTTP 500 Internal Server Error: unknown error"
    );
}

#[test]
fn speech_request_output_keeps_audio() {
    let req = ElevenLabsProvider::new(key("xi")).speech_request("a", AudioOutputFormat::Wav).unwrap();
    let out = req.output(vec![1, 2, 3]);
    assert_eq!(out.audio_data, vec![1, 2, 3]);
    assert_eq!(out.format, AudioOutputFormat::Mp3);
}

#[test]
fn api_key_debug_is_redacted() {
    let k = key("super-secret");
    assert!(!format!("{:?}", k).contains("super-secret"));
    assert_eq!(k.clone().expose(), "super-secret");
}

#[test]
fn speak_tool_format_and_result() {
    let tool = SpeakTool::new(42u8);
    assert_eq!(*tool.provider(), 42);
    assert_eq!(tool.name(), "speak");
    assert!(!tool.description().is_empty());
    assert!(!tool.requires_sanitization());
    assert_eq!(SpeakTool::<u8>::requested_format(None), AudioOutputFormat::Mp3);
    assert_eq!(SpeakTool::<u8>::requested_format(Some("opus")), AudioOutputFormat::Opus);
    assert_eq!(SpeakTool::<u8>::requested_format(Some("flac")), AudioOutputFormat::Mp3);

    let out = TtsOutput { audio_data: vec![0xFF, 0xFB, 0x90], format: AudioOutputFormat::Mp3 };
    let r = SpeakTool::<u8>::result(&out);
    assert_eq!(r.audio_base64, "//uQ");
    assert_eq!(r.format, "mp3");
    assert_eq!(r.mime_type, "audio/mpeg");
    assert_eq!(r.size_bytes, 3);

    let out = TtsOutput { audio_data: vec![1, 2, 3], format: AudioOutputFormat::Opus };
    let r = SpeakTool::<u8>::result(&out);
    assert_eq!(r.format, "opus");
    assert_eq!(r.mime_type, "audio/opus");
}

#[test]
fn speak_tool_metadata() {
    let tool = SpeakTool::new(0u8);
    assert_eq!(tool.name(), "speak");
    assert!(!tool.description().is_empty());
    assert_eq!(
        tool.requires_approval(&serde_json::Value::Object(serde_json::Map::new())),
        ApprovalRequirement::UnlessAutoApproved
    );
    assert!(!tool.requires_sanitization());
    assert_eq!(tool.domain(), ToolDomain::Orchestrator);
    assert!(tool.rate_limit_config().is_some());
}

#[test]
fn speak_tool_limits() {
    let tool = SpeakTool::new(0u8);
    let limits = tool.rate_limit_config().unwrap();
    assert_eq!(limits.requests_per_minute, 10);
    assert_eq!(limits.requests_per_hour, 100);
    assert_eq!(tool.execution_timeout_secs(), 60);
}

#[test]
fn require_str_names_missing_parameter() {
    assert_eq!(require_str(Some("Hello"), "text"), Ok("Hello"));
    let err = require_str(None, "text").unwrap_err();
    assert_eq!(err, "missing 'text' parameter");
    assert!(err.contains("missing 'text'"));
    assert!(require_str(None, "url").unwrap_err().contains("missing 'url'"));
}
