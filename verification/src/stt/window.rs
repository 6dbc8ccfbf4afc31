//! Rolling audio window with speech and silence gates.
//!
//! The window holds 16 kHz mono samples (as `f32` bit patterns) of the
//! current utterance. Whether a pushed block contains speech is decided by
//! its caller from the block's energy; the window decides what to keep and
//! when to ask for a partial or final inference pass.

use vstd::prelude::*;

verus! {

/// Which inference pass the window asks for.
#[derive(Clone, Copy, Debug, PartialEq, Eq, Structural)]
pub enum InferenceKind {
    /// A replaceable hypothesis over the current window.
    Partial,
    /// The last pass of an utterance.
    Final,
}

/// Window limits in samples.
#[derive(Clone, Copy, Debug, PartialEq, Eq, Structural)]
pub struct WindowLimits {
    /// Rolling audio context retained for each inference pass.
    pub max_samples: usize,
    /// New speech required between partial inference passes.
    pub step_samples: usize,
    /// Minimum buffered speech before the first inference pass.
    pub minimum_samples: usize,
    /// Consecutive low-energy audio that finalizes the current utterance.
    pub final_silence_samples: usize,
}

/// Abstract window state.
pub struct WindowModel {
    pub samples: Seq<u32>,
    pub limits: WindowLimits,
    pub speech_samples: usize,
    pub speech_samples_since_inference: usize,
    pub silence_samples: usize,
    pub heard_speech: bool,
    pub rolled_since_inference: bool,
}

/// `a + b`, saturating at `usize::MAX` (`usize::saturating_add`).
pub open spec fn sat_add(a: usize, b: usize) -> usize {
    if a + b > usize::MAX {
        usize::MAX
    } else {
        (a + b) as usize
    }
}

/// `a - b`, saturating at zero (`usize::saturating_sub`).
pub open spec fn sat_sub(a: usize, b: usize) -> usize {
    if a >= b {
        (a - b) as usize
    } else {
        0
    }
}

/// The window with the current utterance forgotten.
pub open spec fn reset_model(m: WindowModel) -> WindowModel {
    WindowModel {
        samples: seq![],
        speech_samples: 0,
        speech_samples_since_inference: 0,
        silence_samples: 0,
        heard_speech: false,
        rolled_since_inference: false,
        ..m
    }
}

/// Window after pushing `input`, and the inference pass it asks for.
///
/// Blocks before the first speech are ignored. Speech starts an utterance.
/// The window keeps at most `max_samples` of the newest audio. Enough
/// trailing silence ends the utterance: with enough speech it asks for a
/// final pass, otherwise the utterance is discarded. Otherwise a partial pass
/// is due once enough speech was heard in total and since the last pass.
pub open spec fn window_push(m: WindowModel, input: Seq<u32>, contains_speech: bool) -> (
    WindowModel,
    Option<InferenceKind>,
) {
    if input.len() == 0 || (!m.heard_speech && !contains_speech) {
        (m, None)
    } else {
        let n = input.len() as usize;
        let max = m.limits.max_samples;
        let m1 = if contains_speech && !m.heard_speech {
            WindowModel {
                heard_speech: true,
                speech_samples: 0,
                speech_samples_since_inference: 0,
                silence_samples: 0,
                rolled_since_inference: false,
                ..m
            }
        } else {
            m
        };
        let m2 = if n >= max {
            WindowModel {
                samples: input.skip(n - max),
                rolled_since_inference: true,
                ..m1
            }
        } else {
            let overflow = sat_sub(sat_add(m1.samples.len() as usize, n), max);
            WindowModel {
                samples: m1.samples.skip(overflow as int) + input,
                rolled_since_inference: m1.rolled_since_inference || overflow > 0,
                ..m1
            }
        };
        let m3 = if contains_speech {
            WindowModel {
                speech_samples: sat_add(m2.speech_samples, n),
                speech_samples_since_inference: sat_add(m2.speech_samples_since_inference, n),
                silence_samples: 0,
                ..m2
            }
        } else {
            WindowModel { silence_samples: sat_add(m2.silence_samples, n), ..m2 }
        };
        if m3.silence_samples >= m3.limits.final_silence_samples {
            if m3.speech_samples >= m3.limits.minimum_samples {
                (m3, Some(InferenceKind::Final))
            } else {
                (reset_model(m3), None)
            }
        } else if m3.speech_samples >= m3.limits.minimum_samples
            && m3.speech_samples_since_inference >= m3.limits.step_samples {
            (m3, Some(InferenceKind::Partial))
        } else {
            (m3, None)
        }
    }
}

/// Rolling window state for one utterance.
pub struct StreamingWindow {
    samples: Vec<u32>,
    limits: WindowLimits,
    speech_samples: usize,
    speech_samples_since_inference: usize,
    silence_samples: usize,
    heard_speech: bool,
    rolled_since_inference: bool,
}

impl StreamingWindow {
    /// The abstract window.
    pub closed spec fn model(&self) -> WindowModel {
        WindowModel {
            samples: self.samples@,
            limits: self.limits,
            speech_samples: self.speech_samples,
            speech_samples_since_inference: self.speech_samples_since_inference,
            silence_samples: self.silence_samples,
            heard_speech: self.heard_speech,
            rolled_since_inference: self.rolled_since_inference,
        }
    }

    /// The retained audio never exceeds the window.
    pub open spec fn wf(&self) -> bool {
        self.model().samples.len() <= self.model().limits.max_samples
    }

    /// An empty window with the given limits.
    pub fn new(limits: WindowLimits) -> (w: Self)
        ensures
            w.model() == reset_model(w.model()),
            w.model().limits == limits,
            w.wf(),
    {
        Self {
            samples: Vec::new(),
            limits,
            speech_samples: 0,
            speech_samples_since_inference: 0,
            silence_samples: 0,
            heard_speech: false,
            rolled_since_inference: false,
        }
    }

    /// Appends a block of samples; see [`window_push`].
    pub fn push(&mut self, samples: &[u32], contains_speech: bool) -> (r: Option<InferenceKind>)
        requires
            old(self).wf(),
            old(self).model().samples.len() + samples@.len() <= usize::MAX,
        ensures
            (final(self).model(), r) == window_push(old(self).model(), samples@, contains_speech),
            final(self).wf(),
    {
        if samples.len() == 0 {
            return None;
        }
        if !self.heard_speech && !contains_speech {
            return None;
        }
        if contains_speech && !self.heard_speech {
            self.heard_speech = true;
            self.speech_samples = 0;
            self.speech_samples_since_inference = 0;
            self.silence_samples = 0;
            self.rolled_since_inference = false;
        }
        let n = samples.len();
        let max = self.limits.max_samples;
        if n >= max {
            let newest = samples.split_at(n - max).1;
            self.samples.clear();
            self.samples.extend_from_slice(newest);
            assert(self.samples@ =~= samples@.skip(n - max));
            self.rolled_since_inference = true;
        } else {
            let ghost previous = self.samples@;
            let total = self.samples.len() + n;
            let overflow = if total > max {
                total - max
            } else {
                0
            };
            assert(overflow == sat_sub(sat_add(previous.len() as usize, n), max));
            if overflow > 0 {
                let kept = self.samples.split_off(overflow);
                self.samples = kept;
                self.rolled_since_inference = true;
            }
            assert(self.samples@ =~= previous.skip(overflow as int));
            self.samples.extend_from_slice(samples);
            assert(self.samples@ =~= previous.skip(overflow as int) + samples@);
        }
        if contains_speech {
            self.speech_samples = self.speech_samples.saturating_add(n);
            self.speech_samples_since_inference = self.speech_samples_since_inference.saturating_add(n);
            self.silence_samples = 0;
        } else {
            self.silence_samples = self.silence_samples.saturating_add(n);
        }
        if self.silence_samples >= self.limits.final_silence_samples {
            if self.speech_samples >= self.limits.minimum_samples {
                return Some(InferenceKind::Final);
            }
            self.reset_utterance();
            return None;
        }
        if self.speech_samples >= self.limits.minimum_samples && self.speech_samples_since_inference
            >= self.limits.step_samples {
            Some(InferenceKind::Partial)
        } else {
            None
        }
    }

    /// The pass due when the stream ends: final if an utterance with enough
    /// speech is under way.
    pub fn finish_kind(&self) -> (r: Option<InferenceKind>)
        ensures
            r == (if self.model().heard_speech && self.model().speech_samples
                >= self.model().limits.minimum_samples {
                Some(InferenceKind::Final)
            } else {
                None
            }),
    {
        if self.heard_speech && self.speech_samples >= self.limits.minimum_samples {
            Some(InferenceKind::Final)
        } else {
            None
        }
    }

    /// The retained audio.
    pub fn samples(&self) -> (s: &[u32])
        ensures
            s@ == self.model().samples,
    {
        self.samples.as_slice()
    }

    /// Whether audio left the front of the window since the last pass.
    pub fn rolled_since_inference(&self) -> (b: bool)
        ensures
            b == self.model().rolled_since_inference,
    {
        self.rolled_since_inference
    }

    /// Whether the window holds as much audio as it can.
    pub fn is_at_capacity(&self) -> (b: bool)
        ensures
            b == (self.model().samples.len() >= self.model().limits.max_samples),
    {
        self.samples.len() >= self.limits.max_samples
    }

    /// Records that a pass of `kind` ran; a final pass ends the utterance.
    pub fn mark_inferred(&mut self, kind: InferenceKind)
        requires
            old(self).wf(),
        ensures
            kind == InferenceKind::Final ==> final(self).model() == reset_model(old(self).model()),
            kind == InferenceKind::Partial ==> final(self).model() == (WindowModel {
                speech_samples_since_inference: 0,
                rolled_since_inference: false,
                ..old(self).model()
            }),
            final(self).wf(),
    {
        self.speech_samples_since_inference = 0;
        self.rolled_since_inference = false;
        match kind {
            InferenceKind::Final => self.reset_utterance(),
            InferenceKind::Partial => {},
        }
    }

    fn reset_utterance(&mut self)
        ensures
            final(self).model() == reset_model(old(self).model()),
            final(self).wf(),
    {
        self.samples.clear();
        self.speech_samples = 0;
        self.speech_samples_since_inference = 0;
        self.silence_samples = 0;
        self.heard_speech = false;
        self.rolled_since_inference = false;
    }
}

/// Whether the pending inference must run before more queued audio is
/// drained: a final pass always, a partial pass once the window is full
/// (draining further would push unheard audio out of it).
pub fn inference_due_before_drain(pending_kind: Option<InferenceKind>, window: &StreamingWindow) -> (r: bool)
    ensures
        r == (pending_kind == Some(InferenceKind::Final) || (pending_kind == Some(
            InferenceKind::Partial,
        ) && window.model().samples.len() >= window.model().limits.max_samples)),
{
    match pending_kind {
        Some(InferenceKind::Final) => true,
        Some(InferenceKind::Partial) => window.is_at_capacity(),
        None => false,
    }
}

/// The window never holds more than its limit, whatever is pushed.
pub proof fn law_window_stays_bounded(m: WindowModel, input: Seq<u32>, contains_speech: bool)
    requires
        m.samples.len() <= m.limits.max_samples,
        m.samples.len() + input.len() <= usize::MAX,
    ensures
        window_push(m, input, contains_speech).0.samples.len() <= m.limits.max_samples,
{
}

/// Silence before any speech is neither kept nor counted.
pub proof fn law_leading_silence_ignored(m: WindowModel, input: Seq<u32>)
    requires
        !m.heard_speech,
    ensures
        window_push(m, input, false) == (m, None::<InferenceKind>),
{
}

/// A pass is only requested once the utterance holds enough speech: a
/// partial also needs enough new speech since the last pass, a final enough
/// trailing silence; too little speech before the silence discards the
/// utterance.
pub proof fn law_inference_gates(m: WindowModel, input: Seq<u32>, contains_speech: bool)
    ensures
        ({
            let (after, kind) = window_push(m, input, contains_speech);
            &&& kind == Some(InferenceKind::Partial) ==> after.speech_samples
                >= m.limits.minimum_samples && after.speech_samples_since_inference
                >= m.limits.step_samples && after.silence_samples < m.limits.final_silence_samples
            &&& kind == Some(InferenceKind::Final) ==> after.speech_samples
                >= m.limits.minimum_samples && after.silence_samples
                >= m.limits.final_silence_samples
            &&& (kind is None && after.heard_speech == false && m.heard_speech)
                ==> after.samples.len() == 0
        }),
{
}

/// Once an utterance has begun, a pushed block is never lost: the window
/// keeps the newest `min(max_samples, old + new)` samples of its old audio
/// followed by the block, so it always ends with the block (or the block's
/// newest `max_samples`). The only exception is an utterance that ends
/// without enough speech, which is forgotten whole.
pub proof fn law_window_keeps_newest(m: WindowModel, input: Seq<u32>, contains_speech: bool)
    requires
        m.samples.len() <= m.limits.max_samples,
        m.samples.len() + input.len() <= usize::MAX,
        input.len() > 0,
        m.heard_speech || contains_speech,
    ensures
        ({
            let (after, pass) = window_push(m, input, contains_speech);
            let all = m.samples + input;
            let keep = if all.len() <= m.limits.max_samples {
                all.len()
            } else {
                m.limits.max_samples as nat
            };
            &&& after.heard_speech ==> after.samples == all.skip(all.len() - keep)
            &&& !after.heard_speech ==> after.samples.len() == 0 && pass is None
        }),
{
    let all = m.samples + input;
    let n = input.len();
    let max = m.limits.max_samples;
    if n >= max {
        assert(input.skip(n - max) =~= all.skip(all.len() - max));
    } else if m.samples.len() + n > max {
        let overflow = m.samples.len() + n - max;
        assert(m.samples.skip(overflow) + input =~= all.skip(overflow));
    } else {
        assert(m.samples.skip(0) + input =~= all.skip(0));
    }
}

} // verus!
