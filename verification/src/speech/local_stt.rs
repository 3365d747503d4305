//! The decisions of the local speech-to-text engine: which audio makes up a
//! speech segment, and how whisper's segment texts become one transcript.
//! (Audio capture and the whisper model itself are driven by the caller.)

use vstd::prelude::*;

use crate::speech::vad::{vad_fresh, vad_step, VadConfig, VadState, VadView};
use crate::text::{lemma_trimmed_idempotent, opt_view, trim, trimmed};

verus! {

/// Errors from the local STT engine.
#[derive(Debug)]
pub enum LocalSttError {
    ModelLoad { path: String, reason: String },
    AudioDevice(String),
    TranscriptionFailed(String),
}

impl LocalSttError {
    pub open spec fn spec_message(&self) -> Seq<char> {
        match self {
            LocalSttError::ModelLoad { path, reason } => "Failed to load whisper model from "@
                + path@ + ": "@ + reason@,
            LocalSttError::AudioDevice(s) => "Audio device error: "@ + s@,
            LocalSttError::TranscriptionFailed(s) => "Transcription failed: "@ + s@,
        }
    }

    /// The error's message text.
    pub fn message(&self) -> (r: String)
        ensures
            r@ == self.spec_message(),
    {
        match self {
            LocalSttError::ModelLoad { path, reason } => String::from_str(
                "Failed to load whisper model from ",
            ).concat(path.as_str()).concat(": ").concat(reason.as_str()),
            LocalSttError::AudioDevice(s) => String::from_str("Audio device error: ").concat(
                s.as_str(),
            ),
            LocalSttError::TranscriptionFailed(s) => String::from_str(
                "Transcription failed: ",
            ).concat(s.as_str()),
        }
    }
}

/// Each segment text that could be read, trimmed and followed by a space.
pub open spec fn joined_segments(segments: Seq<Option<Seq<char>>>) -> Seq<char>
    decreases segments.len(),
{
    if segments.len() == 0 {
        seq![]
    } else {
        joined_segments(segments.drop_last()) + match segments.last() {
            Some(t) => trimmed(t) + seq![' '],
            None => seq![],
        }
    }
}

/// The transcript of whisper's segments; segments whose text could not be
/// read are skipped.
pub open spec fn transcript(segments: Seq<Option<Seq<char>>>) -> Seq<char> {
    trimmed(joined_segments(segments))
}

pub open spec fn segment_views(segments: Seq<Option<String>>) -> Seq<Option<Seq<char>>> {
    segments.map_values(
        |s: Option<String>|
            match s {
                Some(t) => Some(t@),
                None => None,
            },
    )
}

/// Join whisper's segment texts into one transcript.
pub fn assemble_transcript(segments: &Vec<Option<String>>) -> (r: String)
    ensures
        r@ == transcript(segment_views(segments@)),
{
    let mut text = String::new();
    let n: usize = segments.len();
    let mut i: usize = 0;
    while i < n
        invariant
            n == segments@.len(),
            i <= n,
            text@ == joined_segments(segment_views(segments@).take(i as int)),
        decreases n - i,
    {
        proof {
            assert(segment_views(segments@).take(i + 1).drop_last() =~= segment_views(
                segments@,
            ).take(i as int));
        }
        match &segments[i] {
            Some(t) => {
                let piece = trim(t.as_str());
                proof {
                    reveal_strlit(" ");
                }
                text = text.concat(piece.as_str()).concat(" ");
                proof {
                    assert(text@ =~= joined_segments(segment_views(segments@).take(i as int))
                        + (trimmed(t@) + seq![' ']));
                }
            },
            None => {
                proof {
                    assert(text@ =~= joined_segments(segment_views(segments@).take(i as int))
                        + Seq::<char>::empty());
                }
            },
        }
        i = i + 1;
    }
    proof {
        assert(segment_views(segments@).take(n as int) =~= segment_views(segments@));
    }
    trim(text.as_str())
}

/// The text an utterance produces: its transcript, or `None` when that is
/// empty (nothing is sent for it).
pub open spec fn utterance_text(segments: Seq<Option<Seq<char>>>) -> Option<Seq<char>> {
    if transcript(segments).len() == 0 {
        None
    } else {
        Some(transcript(segments))
    }
}

/// The text to send for an utterance with whisper's segments.
pub fn text_to_send(segments: &Vec<Option<String>>) -> (r: Option<String>)
    ensures
        opt_view(r) == utterance_text(segment_views(segments@)),
{
    let text = assemble_transcript(segments);
    if text.as_str().is_empty() {
        None
    } else {
        Some(text)
    }
}

/// Text that is sent is never empty and has no surrounding white space.
pub proof fn lemma_sent_text_is_trimmed(segments: Seq<Option<Seq<char>>>)
    ensures
        utterance_text(segments) matches Some(t) ==> t.len() > 0 && trimmed(t) == t,
{
    lemma_trimmed_idempotent(joined_segments(segments));
}

/// Splits a stream of audio frames into speech segments: frames are kept
/// while the detector is in speech (or the frame itself is speech), and the
/// kept audio is handed out when the detector reports a complete segment.
pub struct SpeechSegmenter<T> {
    vad: VadState,
    speech_buffer: Vec<T>,
}

/// What the kept audio becomes after a frame: the frame is appended when the
/// detector is in speech afterwards or the frame is speech.
pub open spec fn buffered_after<T>(buffer: Seq<T>, v1: VadView, chunk: Seq<T>, is_speech: bool) -> Seq<T> {
    if v1.in_speech || is_speech {
        buffer + chunk
    } else {
        buffer
    }
}

impl<T: Copy> SpeechSegmenter<T> {
    pub closed spec fn spec_vad(&self) -> VadView {
        self.vad@
    }

    pub closed spec fn spec_buffer(&self) -> Seq<T> {
        self.speech_buffer@
    }

    /// A segmenter with a fresh detector and no audio kept.
    pub fn new(config: VadConfig) -> (r: Self)
        ensures
            r.spec_vad() == vad_fresh(
                config.min_speech_frames as nat,
                config.trailing_silence_frames as nat,
            ),
            r.spec_buffer() == Seq::<T>::empty(),
    {
        SpeechSegmenter { vad: VadState::new(config), speech_buffer: Vec::new() }
    }

    /// The detector's state.
    pub fn vad(&self) -> (r: &VadState)
        ensures
            r@ == self.spec_vad(),
    {
        &self.vad
    }

    /// Feed one frame of audio with its classification. Returns the audio of a
    /// speech segment when this frame completes one (and starts over with a
    /// reset detector), else `None`.
    pub fn push_frame(&mut self, chunk: &[T], is_speech: bool) -> (r: Option<Vec<T>>)
        requires
            is_speech ==> old(self).spec_vad().speech_frames < usize::MAX,
        ensures
            ({
                let v1 = vad_step(old(self).spec_vad(), is_speech);
                let buf1 = buffered_after(old(self).spec_buffer(), v1, chunk@, is_speech);
                if v1.speech_complete && buf1.len() > 0 {
                    &&& r matches Some(audio) && audio@ == buf1
                    &&& final(self).spec_buffer() == Seq::<T>::empty()
                    &&& final(self).spec_vad() == vad_fresh(v1.min_speech_frames, v1.trailing_silence_frames)
                } else {
                    &&& r is None
                    &&& final(self).spec_buffer() == buf1
                    &&& final(self).spec_vad() == v1
                }
            }),
    {
        let frame_is_speech = self.vad.process_frame(is_speech);
        let ghost v1 = self.vad@;
        if self.vad.is_in_speech() || frame_is_speech {
            let n: usize = chunk.len();
            let mut i: usize = 0;
            let ghost before = self.speech_buffer@;
            while i < n
                invariant
                    n == chunk@.len(),
                    i <= n,
                    self.speech_buffer@ == before + chunk@.take(i as int),
                    self.vad@ == v1,
                decreases n - i,
            {
                self.speech_buffer.push(chunk[i]);
                proof {
                    assert(chunk@.take(i + 1) =~= chunk@.take(i as int).push(chunk@[i as int]));
                }
                i = i + 1;
            }
            proof {
                assert(chunk@.take(n as int) =~= chunk@);
            }
        }
        if self.vad.is_speech_complete() && self.speech_buffer.len() > 0 {
            let mut audio: Vec<T> = Vec::new();
            std::mem::swap(&mut audio, &mut self.speech_buffer);
            self.vad.reset();
            Some(audio)
        } else {
            None
        }
    }
}

} // verus!
