//! Voice activity detection (VAD) state machine.
//!
//! Each audio frame is first classified as speech or silence by its RMS
//! amplitude against a threshold (floating point, done by the caller); this
//! module holds the frame-counting state machine that turns that stream of
//! classifications into "speech started" and "speech segment complete".

use vstd::prelude::*;

verus! {

/// VAD frame-count configuration.
#[derive(Clone, Copy, Debug)]
pub struct VadConfig {
    /// Minimum consecutive speech frames before triggering.
    pub min_speech_frames: usize,
    /// Number of silence frames after speech before finalizing.
    pub trailing_silence_frames: usize,
}

impl Default for VadConfig {
    fn default() -> (r: Self)
        ensures
            r.min_speech_frames == 3,
            r.trailing_silence_frames == 30,
    {
        VadConfig { min_speech_frames: 3, trailing_silence_frames: 30 }
    }
}

/// Abstract state of the detector.
pub struct VadView {
    pub min_speech_frames: nat,
    pub trailing_silence_frames: nat,
    pub speech_frames: nat,
    pub silence_frames_after_speech: nat,
    pub in_speech: bool,
    pub speech_complete: bool,
}

/// The state a detector starts in (and returns to on `reset`).
pub open spec fn vad_fresh(min_speech_frames: nat, trailing_silence_frames: nat) -> VadView {
    VadView {
        min_speech_frames,
        trailing_silence_frames,
        speech_frames: 0,
        silence_frames_after_speech: 0,
        in_speech: false,
        speech_complete: false,
    }
}

/// One frame of input: `is_speech` is the frame's classification.
pub open spec fn vad_step(v: VadView, is_speech: bool) -> VadView {
    if is_speech {
        let sf: nat = v.speech_frames + 1;
        VadView {
            speech_frames: sf,
            silence_frames_after_speech: 0,
            speech_complete: false,
            in_speech: if sf >= v.min_speech_frames {
                true
            } else {
                v.in_speech
            },
            ..v
        }
    } else if v.in_speech {
        let s: nat = v.silence_frames_after_speech + 1;
        if s >= v.trailing_silence_frames {
            VadView {
                speech_complete: true,
                in_speech: false,
                speech_frames: 0,
                silence_frames_after_speech: 0,
                ..v
            }
        } else {
            VadView { silence_frames_after_speech: s, ..v }
        }
    } else {
        VadView { speech_frames: 0, ..v }
    }
}

/// A sequence of frames fed one after another.
pub open spec fn vad_run(v: VadView, frames: Seq<bool>) -> VadView
    decreases frames.len(),
{
    if frames.len() == 0 {
        v
    } else {
        vad_run(vad_step(v, frames[0]), frames.drop_first())
    }
}

/// What every reachable detector state satisfies.
pub open spec fn vad_wf(v: VadView) -> bool {
    &&& !(v.in_speech && v.speech_complete)
    &&& v.silence_frames_after_speech == 0 || (v.in_speech && v.silence_frames_after_speech
        < v.trailing_silence_frames)
    &&& v.in_speech ==> v.speech_frames >= v.min_speech_frames
}

/// VAD state machine.
///
/// Feed frame classifications via `process_frame` and check
/// `is_speech_complete` to know when a speech segment has ended.
pub struct VadState {
    config: VadConfig,
    speech_frames: usize,
    silence_frames_after_speech: usize,
    in_speech: bool,
    speech_complete: bool,
    /// The frame classifications fed since creation or the last reset.
    history: Ghost<Seq<bool>>,
}

impl View for VadState {
    type V = VadView;

    closed spec fn view(&self) -> VadView {
        VadView {
            min_speech_frames: self.config.min_speech_frames as nat,
            trailing_silence_frames: self.config.trailing_silence_frames as nat,
            speech_frames: self.speech_frames as nat,
            silence_frames_after_speech: self.silence_frames_after_speech as nat,
            in_speech: self.in_speech,
            speech_complete: self.speech_complete,
        }
    }
}

/// The detector that `fs` leads to from a fresh one with the given counts.
pub open spec fn vad_after(min_speech_frames: nat, trailing_silence_frames: nat, fs: Seq<bool>) -> VadView {
    vad_run(vad_fresh(min_speech_frames, trailing_silence_frames), fs)
}

impl VadState {
    #[verifier::type_invariant]
    closed spec fn inv(self) -> bool {
        &&& vad_wf(self@)
        &&& self@ == vad_after(
            self.config.min_speech_frames as nat,
            self.config.trailing_silence_frames as nat,
            self.history@,
        )
    }

    /// The frame classifications fed since the detector was created or last
    /// reset.
    pub closed spec fn history(&self) -> Seq<bool> {
        self.history@
    }

    /// Create a new VAD state with the given config.
    pub fn new(config: VadConfig) -> (r: Self)
        ensures
            r@ == vad_fresh(config.min_speech_frames as nat, config.trailing_silence_frames as nat),
            r.history() == Seq::<bool>::empty(),
            r@ == vad_after(r@.min_speech_frames, r@.trailing_silence_frames, r.history()),
    {
        VadState {
            config,
            speech_frames: 0,
            silence_frames_after_speech: 0,
            in_speech: false,
            speech_complete: false,
            history: Ghost(Seq::empty()),
        }
    }

    /// Process one frame, given whether its amplitude classifies it as speech,
    /// updating the internal state. Returns that classification.
    pub fn process_frame(&mut self, is_speech: bool) -> (r: bool)
        requires
            is_speech ==> old(self)@.speech_frames < usize::MAX,
        ensures
            r == is_speech,
            vad_wf(old(self)@),
            final(self)@ == vad_step(old(self)@, is_speech),
            final(self).history() == old(self).history().push(is_speech),
            final(self)@ == vad_after(
                final(self)@.min_speech_frames,
                final(self)@.trailing_silence_frames,
                final(self).history(),
            ),
    {
        proof {
            use_type_invariant(&*self);
            lemma_run_push(
                vad_fresh(
                    self.config.min_speech_frames as nat,
                    self.config.trailing_silence_frames as nat,
                ),
                self.history@,
                is_speech,
            );
            lemma_step_preserves_wf(self@, is_speech);
        }
        let history: Ghost<Seq<bool>> = Ghost(self.history@.push(is_speech));
        let config = self.config;
        if is_speech {
            let sf: usize = self.speech_frames + 1;
            let in_speech = if sf >= config.min_speech_frames {
                true
            } else {
                self.in_speech
            };
            *self = VadState {
                config,
                speech_frames: sf,
                silence_frames_after_speech: 0,
                in_speech,
                speech_complete: false,
                history,
            };
        } else if self.in_speech {
            let s: usize = self.silence_frames_after_speech + 1;
            if s >= config.trailing_silence_frames {
                *self = VadState {
                    config,
                    speech_frames: 0,
                    silence_frames_after_speech: 0,
                    in_speech: false,
                    speech_complete: true,
                    history,
                };
            } else {
                *self = VadState {
                    config,
                    speech_frames: self.speech_frames,
                    silence_frames_after_speech: s,
                    in_speech: true,
                    speech_complete: self.speech_complete,
                    history,
                };
            }
        } else {
            *self = VadState {
                config,
                speech_frames: 0,
                silence_frames_after_speech: self.silence_frames_after_speech,
                in_speech: false,
                speech_complete: self.speech_complete,
                history,
            };
        }
        is_speech
    }

    /// Whether a complete speech segment has been detected
    /// (speech followed by sufficient trailing silence).
    pub fn is_speech_complete(&self) -> (r: bool)
        ensures
            r == self@.speech_complete,
    {
        self.speech_complete
    }

    /// Whether we are currently in a speech segment.
    pub fn is_in_speech(&self) -> (r: bool)
        ensures
            r == self@.in_speech,
    {
        self.in_speech
    }

    /// Number of consecutive speech frames counted so far.
    pub fn speech_frame_count(&self) -> (r: usize)
        ensures
            r == self@.speech_frames,
    {
        self.speech_frames
    }

    /// Reset the state machine for a new utterance.
    pub fn reset(&mut self)
        ensures
            final(self)@ == vad_fresh(
                old(self)@.min_speech_frames,
                old(self)@.trailing_silence_frames,
            ),
            final(self).history() == Seq::<bool>::empty(),
            final(self)@ == vad_after(
                final(self)@.min_speech_frames,
                final(self)@.trailing_silence_frames,
                final(self).history(),
            ),
    {
        let config = self.config;
        *self = VadState {
            config,
            speech_frames: 0,
            silence_frames_after_speech: 0,
            in_speech: false,
            speech_complete: false,
            history: Ghost(Seq::empty()),
        };
    }
}


/// `n` frames all classified the same way.
pub open spec fn frames(n: nat, is_speech: bool) -> Seq<bool> {
    Seq::new(n, |i: int| is_speech)
}

proof fn lemma_frames_drop_first(n: nat, is_speech: bool)
    requires
        n > 0,
    ensures
        frames(n, is_speech).drop_first() == frames((n - 1) as nat, is_speech),
        frames(n, is_speech)[0] == is_speech,
{
    assert(frames(n, is_speech).drop_first() =~= frames((n - 1) as nat, is_speech));
}

proof fn lemma_run_single(v: VadView, is_speech: bool)
    ensures
        vad_run(v, seq![is_speech]) == vad_step(v, is_speech),
{
    assert(seq![is_speech].drop_first() =~= Seq::<bool>::empty());
    reveal_with_fuel(vad_run, 2);
}

/// A fresh detector is well formed.
pub proof fn lemma_fresh_wf(min_speech_frames: nat, trailing_silence_frames: nat)
    ensures
        vad_wf(vad_fresh(min_speech_frames, trailing_silence_frames)),
{
}

/// Every frame keeps a well-formed detector well formed; in particular
/// "in speech" and "speech complete" never hold together.
pub proof fn lemma_step_preserves_wf(v: VadView, is_speech: bool)
    requires
        vad_wf(v),
    ensures
        vad_wf(vad_step(v, is_speech)),
{
}

/// Feeding two sequences of frames is feeding their concatenation.
pub proof fn lemma_run_concat(v: VadView, a: Seq<bool>, b: Seq<bool>)
    ensures
        vad_run(v, a + b) == vad_run(vad_run(v, a), b),
    decreases a.len(),
{
    if a.len() == 0 {
        assert(a + b =~= b);
    } else {
        assert((a + b).drop_first() =~= a.drop_first() + b);
        assert((a + b)[0] == a[0]);
        lemma_run_concat(vad_step(v, a[0]), a.drop_first(), b);
    }
}

/// Well-formedness holds after any sequence of frames.
pub proof fn lemma_run_preserves_wf(v: VadView, fs: Seq<bool>)
    requires
        vad_wf(v),
    ensures
        vad_wf(vad_run(v, fs)),
    decreases fs.len(),
{
    if fs.len() > 0 {
        lemma_step_preserves_wf(v, fs[0]);
        lemma_run_preserves_wf(vad_step(v, fs[0]), fs.drop_first());
    }
}

/// A speech frame always clears "speech complete" and the trailing-silence
/// count, and never ends a segment that is in progress.
pub proof fn lemma_speech_frame_continues(v: VadView)
    ensures
        !vad_step(v, true).speech_complete,
        vad_step(v, true).silence_frames_after_speech == 0,
        v.in_speech ==> vad_step(v, true).in_speech,
        vad_step(v, true).speech_frames == v.speech_frames + 1,
{
}

/// Pure silence never triggers: a fresh detector fed only silence frames
/// stays exactly as it was.
pub proof fn lemma_silence_keeps_fresh(min_speech_frames: nat, trailing_silence_frames: nat, n: nat)
    ensures
        vad_run(vad_fresh(min_speech_frames, trailing_silence_frames), frames(n, false))
            == vad_fresh(min_speech_frames, trailing_silence_frames),
    decreases n,
{
    if n > 0 {
        lemma_frames_drop_first(n, false);
        lemma_silence_keeps_fresh(min_speech_frames, trailing_silence_frames, (n - 1) as nat);
    }
}

/// Speech onset: from a fresh detector, `k` speech frames give a speech count
/// of `k`, and the detector is in speech exactly when `k` is positive and at
/// least `min_speech_frames`.
pub proof fn lemma_speech_onset(min_speech_frames: nat, trailing_silence_frames: nat, k: nat)
    ensures
        vad_run(vad_fresh(min_speech_frames, trailing_silence_frames), frames(k, true))
            == (VadView {
            speech_frames: k,
            in_speech: k > 0 && k >= min_speech_frames,
            ..vad_fresh(min_speech_frames, trailing_silence_frames)
        }),
    decreases k,
{
    if k > 0 {
        let v0 = vad_fresh(min_speech_frames, trailing_silence_frames);
        let prefix = frames((k - 1) as nat, true);
        lemma_speech_onset(min_speech_frames, trailing_silence_frames, (k - 1) as nat);
        assert(frames(k, true) =~= prefix + seq![true]);
        lemma_run_concat(v0, prefix, seq![true]);
        let mid = vad_run(v0, prefix);
        lemma_run_single(mid, true);
    }
}

/// Brief noise is ignored: fewer than `min_speech_frames` speech frames from a
/// fresh detector, followed by at least one silence frame, return it to fresh.
pub proof fn lemma_brief_noise_ignored(
    min_speech_frames: nat,
    trailing_silence_frames: nat,
    k: nat,
    n: nat,
)
    requires
        k < min_speech_frames,
        n > 0,
    ensures
        vad_run(
            vad_fresh(min_speech_frames, trailing_silence_frames),
            frames(k, true) + frames(n, false),
        ) == vad_fresh(min_speech_frames, trailing_silence_frames),
{
    let v0 = vad_fresh(min_speech_frames, trailing_silence_frames);
    lemma_run_concat(v0, frames(k, true), frames(n, false));
    lemma_speech_onset(min_speech_frames, trailing_silence_frames, k);
    let mid = vad_run(v0, frames(k, true));
    lemma_frames_drop_first(n, false);
    assert(vad_step(mid, false) == v0);
    lemma_silence_keeps_fresh(min_speech_frames, trailing_silence_frames, (n - 1) as nat);
}

/// Trailing silence: from a well-formed state in speech with no silence
/// counted yet, `j` silence frames with `0 < j < trailing_silence_frames`
/// keep it in speech with `j` silence frames counted; exactly
/// `trailing_silence_frames` of them (at least one) complete the segment.
pub proof fn lemma_trailing_silence(v: VadView, j: nat)
    requires
        vad_wf(v),
        v.in_speech,
        v.silence_frames_after_speech == 0,
        0 < j,
        j <= v.trailing_silence_frames || j == 1,
    ensures
        j < v.trailing_silence_frames ==> vad_run(v, frames(j, false)) == (VadView {
            silence_frames_after_speech: j,
            ..v
        }),
        j >= v.trailing_silence_frames ==> vad_run(v, frames(j, false)) == (VadView {
            speech_complete: true,
            in_speech: false,
            speech_frames: 0,
            silence_frames_after_speech: 0,
            ..v
        }),
    decreases j,
{
    let prefix = frames((j - 1) as nat, false);
    assert(frames(j, false) =~= prefix + seq![false]);
    lemma_run_concat(v, prefix, seq![false]);
    let mid = vad_run(v, prefix);
    if j > 1 {
        lemma_trailing_silence(v, (j - 1) as nat);
    } else {
        assert(prefix =~= Seq::<bool>::empty());
    }
    lemma_run_single(mid, false);
}

/// After a segment completes, further silence keeps it complete.
pub proof fn lemma_complete_persists_through_silence(v: VadView, n: nat)
    requires
        vad_wf(v),
        v.speech_complete,
    ensures
        vad_run(v, frames(n, false)).speech_complete,
        !vad_run(v, frames(n, false)).in_speech,
    decreases n,
{
    if n > 0 {
        lemma_frames_drop_first(n, false);
        lemma_complete_persists_through_silence(vad_step(v, false), (n - 1) as nat);
    }
}


/// How many of the last frames of `fs` are `b`.
pub open spec fn trailing_run(fs: Seq<bool>, b: bool) -> nat
    decreases fs.len(),
{
    if fs.len() > 0 && fs.last() == b {
        trailing_run(fs.drop_last(), b) + 1
    } else {
        0
    }
}

/// `n`, but at least one.
pub open spec fn at_least_one(n: nat) -> nat {
    if n == 0 {
        1
    } else {
        n
    }
}

/// Speech started at frame `i`: frames `i .. i + m` (`m` the minimum speech
/// run, at least one) are all speech, and the detector has been in speech
/// after every frame from the end of that run on.
pub open spec fn speech_onset_at(
    min_speech_frames: nat,
    trailing_silence_frames: nat,
    fs: Seq<bool>,
    i: int,
) -> bool {
    let m = at_least_one(min_speech_frames);
    &&& 0 <= i
    &&& i + m <= fs.len()
    &&& forall|j: int| i <= j < i + m ==> #[trigger] fs[j]
    &&& forall|k: int|
        i + m <= k <= fs.len() ==> #[trigger] vad_run(
            vad_fresh(min_speech_frames, trailing_silence_frames),
            fs.take(k),
        ).in_speech
}

proof fn lemma_run_push(v: VadView, fs: Seq<bool>, b: bool)
    ensures
        vad_run(v, fs.push(b)) == vad_step(vad_run(v, fs), b),
{
    assert(fs + seq![b] =~= fs.push(b));
    lemma_run_concat(v, fs, seq![b]);
    lemma_run_single(vad_run(v, fs), b);
}

proof fn lemma_run_keeps_config(v: VadView, fs: Seq<bool>)
    ensures
        vad_run(v, fs).min_speech_frames == v.min_speech_frames,
        vad_run(v, fs).trailing_silence_frames == v.trailing_silence_frames,
    decreases fs.len(),
{
    if fs.len() > 0 {
        lemma_run_keeps_config(vad_step(v, fs[0]), fs.drop_first());
    }
}

proof fn lemma_trailing_run_len(fs: Seq<bool>, b: bool)
    ensures
        trailing_run(fs, b) <= fs.len(),
    decreases fs.len(),
{
    if fs.len() > 0 {
        lemma_trailing_run_len(fs.drop_last(), b);
    }
}

proof fn lemma_trailing_run_elems(fs: Seq<bool>, b: bool, j: int)
    requires
        0 <= j < trailing_run(fs, b),
    ensures
        0 <= fs.len() - 1 - j < fs.len(),
        fs[fs.len() - 1 - j] == b,
    decreases fs.len(),
{
    lemma_trailing_run_len(fs, b);
    assert(fs.len() > 0 && fs.last() == b);
    if j > 0 {
        assert(trailing_run(fs, b) == trailing_run(fs.drop_last(), b) + 1);
        lemma_trailing_run_elems(fs.drop_last(), b, j - 1);
        assert(fs.drop_last()[fs.len() - 1 - j] == fs[fs.len() - 1 - j]);
    }
}

/// What a detector's state says of the frames it was fed since it was created
/// (or last reset, which makes it fresh again); `VadState` keeps these frames
/// as its `history()`, and its state is always `vad_after` them:
/// - it is never both in speech and complete;
/// - out of speech, its speech count is the number of speech frames at the end;
/// - in speech, its silence count is the number of silence frames at the end;
/// - a complete segment is preceded by at least `trailing_silence_frames`
///   (and at least one) silence frames at the end;
/// - in speech, speech started with a run of at least `min_speech_frames` (and
///   at least one) consecutive speech frames, and has not ended since.
pub proof fn lemma_vad_history(min_speech_frames: nat, trailing_silence_frames: nat, fs: Seq<bool>)
    ensures
        ({
            let v = vad_after(min_speech_frames, trailing_silence_frames, fs);
            &&& vad_wf(v)
            &&& !v.in_speech ==> v.speech_frames == trailing_run(fs, true)
            &&& v.in_speech ==> v.silence_frames_after_speech == trailing_run(fs, false)
            &&& v.speech_complete ==> trailing_run(fs, false) >= at_least_one(
                trailing_silence_frames,
            )
            &&& v.in_speech ==> exists|i: int|
                speech_onset_at(min_speech_frames, trailing_silence_frames, fs, i)
        }),
    decreases fs.len(),
{
    let v0 = vad_fresh(min_speech_frames, trailing_silence_frames);
    let m = at_least_one(min_speech_frames);
    if fs.len() == 0 {
        assert(vad_run(v0, fs) == v0);
    } else {
        let prev = fs.drop_last();
        let b = fs.last();
        assert(prev.push(b) =~= fs);
        assert(trailing_run(fs, b) == trailing_run(prev, b) + 1);
        assert(trailing_run(fs, !b) == 0);
        lemma_vad_history(min_speech_frames, trailing_silence_frames, prev);
        lemma_run_push(v0, prev, b);
        lemma_fresh_wf(min_speech_frames, trailing_silence_frames);
        lemma_run_preserves_wf(v0, prev);
        lemma_run_keeps_config(v0, prev);
        let p = vad_run(v0, prev);
        let v = vad_run(v0, fs);
        assert(v == vad_step(p, b));
        assert(fs.take(fs.len() as int) =~= fs);
        assert forall|k: int| 0 <= k <= prev.len() implies #[trigger] fs.take(k) == prev.take(k) by {
            assert(fs.take(k) =~= prev.take(k));
        }
        if v.in_speech {
            if p.in_speech {
                let i = choose|i: int|
                    speech_onset_at(min_speech_frames, trailing_silence_frames, prev, i);
                assert forall|j: int| i <= j < i + m implies #[trigger] fs[j] by {
                    assert(prev[j]);
                }
                assert forall|k: int| i + m <= k <= fs.len() implies #[trigger] vad_run(
                    v0,
                    fs.take(k),
                ).in_speech by {
                    if k < fs.len() {
                        assert(fs.take(k) == prev.take(k));
                    }
                }
                assert(speech_onset_at(min_speech_frames, trailing_silence_frames, fs, i));
            } else {
                assert(b);
                assert(trailing_run(fs, true) >= m);
                lemma_trailing_run_len(fs, true);
                let i = fs.len() - m;
                assert forall|j: int| i <= j < i + m implies #[trigger] fs[j] by {
                    lemma_trailing_run_elems(fs, true, fs.len() - 1 - j);
                }
                assert(speech_onset_at(min_speech_frames, trailing_silence_frames, fs, i));
            }
        }
    }
}

} // verus!
