use ironclaw::speech::local_stt::assemble_transcript;
use ironclaw::speech::{LocalSttError, SpeechSegmenter, VadConfig, VadState};

/// Frame classification as the capture loop does it: RMS amplitude above the
/// silence threshold.
fn loud(samples: &[f32], threshold: f32) -> bool {
    if samples.is_empty() {
        return false;
    }
    let sum_sq: f32 = samples.iter().map(|s| s * s).sum();
    (sum_sq / samples.len() as f32).sqrt() > threshold
}

fn feed(vad: &mut VadState, samples: &[f32]) -> bool {
    vad.process_frame(loud(samples, 0.01))
}

#[test]
fn vad_detects_speech_then_silence() {
    let config = VadConfig { min_speech_frames: 2, trailing_silence_frames: 3 };
    let mut vad = VadState::new(config);

    // Feed speech frames
    let speech = vec![0.1f32; 160];
    assert!(!vad.is_in_speech());
    feed(&mut vad, &speech); // 1st speech frame
    assert!(!vad.is_in_speech());
    feed(&mut vad, &speech); // 2nd — triggers speech
    assert!(vad.is_in_speech());
    assert!(!vad.is_speech_complete());

    // Feed silence frames
    let silence = vec![0.0f32; 160];
    feed(&mut vad, &silence); // 1st silence after speech
    assert!(vad.is_in_speech());
    assert!(!vad.is_speech_complete());

    feed(&mut vad, &silence); // 2nd silence
    assert!(!vad.is_speech_complete());

    feed(&mut vad, &silence); // 3rd — speech complete
    assert!(vad.is_speech_complete());
    assert!(!vad.is_in_speech());
}

#[test]
fn vad_does_not_trigger_on_pure_silence() {
    let config = VadConfig::default();
    let mut vad = VadState::new(config);

    let silence = vec![0.0f32; 160];
    for _ in 0..100 {
        feed(&mut vad, &silence);
    }
    assert!(!vad.is_in_speech());
    assert!(!vad.is_speech_complete());
}

#[test]
fn vad_does_not_trigger_on_brief_noise() {
    let config = VadConfig { min_speech_frames: 5, trailing_silence_frames: 3 };
    let mut vad = VadState::new(config);

    // Only 2 speech frames (below min_speech_frames=5)
    let speech = vec![0.1f32; 160];
    let silence = vec![0.0f32; 160];

    feed(&mut vad, &speech);
    feed(&mut vad, &speech);
    assert!(!vad.is_in_speech());

    // Return to silence
    for _ in 0..10 {
        feed(&mut vad, &silence);
    }
    assert!(!vad.is_in_speech());
    assert!(!vad.is_speech_complete());
}

#[test]
fn vad_reset_clears_state() {
    let config = VadConfig { min_speech_frames: 1, trailing_silence_frames: 1 };
    let mut vad = VadState::new(config);

    let speech = vec![0.1f32; 160];
    feed(&mut vad, &speech);
    assert!(vad.is_in_speech());

    vad.reset();
    assert!(!vad.is_in_speech());
    assert!(!vad.is_speech_complete());
}

#[test]
fn vad_speech_followed_by_more_speech() {
    let config = VadConfig { min_speech_frames: 2, trailing_silence_frames: 5 };
    let mut vad = VadState::new(config);

    let speech = vec![0.1f32; 160];
    let silence = vec![0.0f32; 160];

    // Start speech
    feed(&mut vad, &speech);
    feed(&mut vad, &speech);
    assert!(vad.is_in_speech());

    // Brief silence (not enough to end)
    feed(&mut vad, &silence);
    feed(&mut vad, &silence);
    assert!(vad.is_in_speech());
    assert!(!vad.is_speech_complete());

    // More speech — resets silence counter
    feed(&mut vad, &speech);
    assert!(vad.is_in_speech());
    assert!(!vad.is_speech_complete());
}

#[test]
fn vad_default_config() {
    let c = VadConfig::default();
    assert_eq!(c.min_speech_frames, 3);
    assert_eq!(c.trailing_silence_frames, 30);
}

#[test]
fn vad_process_frame_returns_classification() {
    let mut vad = VadState::new(VadConfig::default());
    assert!(vad.process_frame(true));
    assert!(!vad.process_frame(false));
    assert_eq!(vad.speech_frame_count(), 0);
    vad.process_frame(true);
    vad.process_frame(true);
    assert_eq!(vad.speech_frame_count(), 2);
}

#[test]
fn vad_completion_persists_until_speech() {
    let mut vad = VadState::new(VadConfig { min_speech_frames: 1, trailing_silence_frames: 2 });
    vad.process_frame(true);
    vad.process_frame(false);
    vad.process_frame(false);
    assert!(vad.is_speech_complete());
    for _ in 0..5 {
        vad.process_frame(false);
        assert!(vad.is_speech_complete());
        assert!(!vad.is_in_speech());
    }
    vad.process_frame(true);
    assert!(!vad.is_speech_complete());
    assert!(vad.is_in_speech());
}

#[test]
fn vad_zero_trailing_silence_completes_on_first_silence() {
    let mut vad = VadState::new(VadConfig { min_speech_frames: 1, trailing_silence_frames: 0 });
    vad.process_frame(true);
    assert!(vad.is_in_speech());
    vad.process_frame(false);
    assert!(vad.is_speech_complete());
}

#[test]
fn segmenter_hands_out_complete_segment() {
    let mut seg: SpeechSegmenter<i16> =
        SpeechSegmenter::new(VadConfig { min_speech_frames: 2, trailing_silence_frames: 2 });
    // Silence before speech is not kept.
    assert_eq!(seg.push_frame(&[0, 0], false), None);
    // The first speech frame is kept even before the detector triggers.
    assert_eq!(seg.push_frame(&[5, 6], true), None);
    assert_eq!(seg.push_frame(&[7], true), None);
    assert!(seg.vad().is_in_speech());
    // Trailing silence is kept while in speech; the frame that completes the
    // segment leaves speech, so it is not kept.
    assert_eq!(seg.push_frame(&[0], false), None);
    assert_eq!(seg.push_frame(&[1], false), Some(vec![5, 6, 7, 0]));
    // The detector starts over.
    assert!(!seg.vad().is_in_speech());
    assert!(!seg.vad().is_speech_complete());
    assert_eq!(seg.push_frame(&[0], false), None);
}

#[test]
fn segmenter_brief_noise_is_kept_but_not_emitted() {
    let mut seg: SpeechSegmenter<i16> =
        SpeechSegmenter::new(VadConfig { min_speech_frames: 3, trailing_silence_frames: 1 });
    assert_eq!(seg.push_frame(&[9], true), None);
    assert_eq!(seg.push_frame(&[0], false), None);
    assert_eq!(seg.push_frame(&[0], false), None);
    assert!(!seg.vad().is_in_speech());
}

#[test]
fn transcript_joins_trimmed_segments() {
    let segs = vec![Some(" Hello ".to_string()), None, Some("world.\n".to_string())];
    assert_eq!(assemble_transcript(&segs), "Hello world.");
    assert_eq!(assemble_transcript(&vec![]), "");
    assert_eq!(assemble_transcript(&vec![Some("   ".to_string())]), "");
    assert_eq!(
        assemble_transcript(&vec![Some("\u{3000}a\u{00A0}".to_string()), Some("b".to_string())]),
        "a b"
    );
}

#[test]
fn local_stt_error_messages() {
    assert_eq!(
        LocalSttError::ModelLoad { path: "/m.bin".into(), reason: "missing".into() }.message(),
        "Failed to load whisper model from /m.bin: missing"
    );
    assert_eq!(LocalSttError::AudioDevice("none".into()).message(), "Audio device error: none");
    assert_eq!(
        LocalSttError::TranscriptionFailed("oops".into()).message(),
        "Transcription failed: oops"
    );
}
