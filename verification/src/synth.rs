//! The sample schedule of a synthesised tone: which sample comes next, and
//! the fade-in and fade-out gains that shape it (a 15 ms ramp at each end).
//! The caller computes the sine wave itself and multiplies it by the gains.
use vstd::prelude::*;

verus! {

/// Samples per second of synthesised tones.
pub const SAMPLE_RATE: u32 = 44_100;

/// Length of the fade-in and fade-out ramps, in milliseconds.
pub const FADE_MS: u32 = 15;

/// Length of the ramps, in samples: 15 ms at 44.1 kHz, rounded down.
pub open spec fn fade_samples_spec() -> nat {
    (SAMPLE_RATE * FADE_MS / 1000) as nat
}

/// A gain of `num / den`.
#[derive(Clone, Copy, Debug, PartialEq, Eq, Structural)]
pub struct Gain {
    pub num: usize,
    pub den: usize,
}

/// One sample to synthesise: its index (its time is `index / sample_rate`
/// seconds), and the ramp gains that apply to it.
#[derive(Clone, Copy, Debug, PartialEq, Eq, Structural)]
pub struct EnvelopeSample {
    pub index: usize,
    pub fade_in: Option<Gain>,
    pub fade_out: Option<Gain>,
}

/// The position of a tone's synthesis: samples `0 .. num_samples` are
/// produced in order, the first and last `fade_samples` ramped.
#[derive(Clone, Copy, Debug, PartialEq, Eq, Structural)]
pub struct SampleEnvelope {
    pub sample_rate: u32,
    pub num_samples: usize,
    pub current: usize,
    pub fade_samples: usize,
}

/// The sample at position `current` of a tone of `num_samples` samples with
/// ramps of `fade_samples`.
pub open spec fn sample_at(current: usize, num_samples: usize, fade_samples: usize) -> EnvelopeSample {
    EnvelopeSample {
        index: current,
        fade_in: if current < fade_samples { Some(Gain { num: current, den: fade_samples }) } else { None },
        fade_out: if num_samples - current < fade_samples {
            Some(Gain { num: (num_samples - current - 1) as usize, den: fade_samples })
        } else {
            None
        },
    }
}

/// The schedule of a tone of `num_samples` samples, at 44.1 kHz with 15 ms
/// ramps, before its first sample.
pub fn decoder(num_samples: usize) -> (e: SampleEnvelope)
    ensures
        e.sample_rate == SAMPLE_RATE,
        e.num_samples == num_samples,
        e.current == 0,
        e.fade_samples == fade_samples_spec(),
        e.fade_samples == 661,
{
    let sample_rate: u32 = SAMPLE_RATE;
    let fade: u32 = sample_rate * FADE_MS / 1000;
    SampleEnvelope { sample_rate, num_samples, current: 0, fade_samples: fade as usize }
}

impl SampleEnvelope {
    /// The next sample, or `None` once all samples have been produced.
    pub fn next(&mut self) -> (r: Option<EnvelopeSample>)
        ensures
            old(self).current >= old(self).num_samples ==> r is None && *final(self) == *old(self),
            old(self).current < old(self).num_samples ==> {
                &&& r == Some(sample_at(old(self).current, old(self).num_samples, old(self).fade_samples))
                &&& *final(self) == (SampleEnvelope { current: (old(self).current + 1) as usize, ..*old(self) })
            },
            r matches Some(smp) ==> {
                &&& smp.index == old(self).current
                &&& (old(self).current < old(self).fade_samples ==> smp.fade_in == Some(Gain { num: old(self).current, den: old(self).fade_samples }))
                &&& (old(self).current >= old(self).fade_samples ==> smp.fade_in is None)
                &&& (old(self).num_samples - old(self).current < old(self).fade_samples ==> smp.fade_out == Some(Gain {
                    num: (old(self).num_samples - old(self).current - 1) as usize,
                    den: old(self).fade_samples,
                }))
                &&& (old(self).num_samples - old(self).current >= old(self).fade_samples ==> smp.fade_out is None)
            },
    {
        if self.current >= self.num_samples {
            return None;
        }
        let fade_in = if self.current < self.fade_samples {
            Some(Gain { num: self.current, den: self.fade_samples })
        } else {
            None
        };
        let remaining = self.num_samples - self.current;
        let fade_out = if remaining < self.fade_samples {
            Some(Gain { num: remaining - 1, den: self.fade_samples })
        } else {
            None
        };
        let sample = EnvelopeSample { index: self.current, fade_in, fade_out };
        self.current = self.current + 1;
        Some(sample)
    }

    /// Whether every sample has been produced.
    pub open spec fn finished(self) -> bool {
        self.current >= self.num_samples
    }
}

/// The schedule after `k` calls of `next`, starting from `e`.
pub open spec fn after_calls(e: SampleEnvelope, k: nat) -> SampleEnvelope
    decreases k,
{
    if k == 0 || e.current >= e.num_samples {
        e
    } else {
        after_calls(SampleEnvelope { current: (e.current + 1) as usize, ..e }, (k - 1) as nat)
    }
}

/// A tone of `n` samples yields exactly `n` samples, numbered `0 .. n` in
/// order, and nothing after them: after `k` calls of `next` from the
/// decoder's start, the next sample is number `k` when `k < n`, and there is
/// none when `k >= n`.
pub proof fn lemma_yields_every_sample_once(e: SampleEnvelope, k: nat)
    requires
        e.current <= e.num_samples,
    ensures
        after_calls(e, k).current == if e.current + k <= e.num_samples { e.current + k } else { e.num_samples as int },
        after_calls(e, k).num_samples == e.num_samples,
        after_calls(e, k).fade_samples == e.fade_samples,
    decreases k,
{
    if k > 0 && e.current < e.num_samples {
        lemma_yields_every_sample_once(SampleEnvelope { current: (e.current + 1) as usize, ..e }, (k - 1) as nat);
    }
}

/// The ramps cover only the ends of a tone: the fade-in gain is
/// `current / fade_samples` on the first `fade_samples` samples and absent on
/// every later one; the fade-out gain is `(remaining - 1) / fade_samples` on
/// the last `fade_samples` samples and absent before them. Between the ramps a
/// sample plays at full gain.
pub proof fn lemma_ramps_only_at_the_ends(current: usize, num_samples: usize, fade_samples: usize)
    requires
        current < num_samples,
    ensures
        current < fade_samples ==> sample_at(current, num_samples, fade_samples).fade_in
            == Some(Gain { num: current, den: fade_samples }),
        current >= fade_samples ==> sample_at(current, num_samples, fade_samples).fade_in is None,
        num_samples - current < fade_samples ==> sample_at(current, num_samples, fade_samples).fade_out
            == Some(Gain { num: (num_samples - current - 1) as usize, den: fade_samples }),
        num_samples - current >= fade_samples ==> sample_at(current, num_samples, fade_samples).fade_out is None,
        fade_samples <= current && current + fade_samples <= num_samples ==> {
            &&& sample_at(current, num_samples, fade_samples).fade_in is None
            &&& sample_at(current, num_samples, fade_samples).fade_out is None
        },
        sample_at(current, num_samples, fade_samples).index == current,
{
}

/// The ramps never amplify: every gain is below one. A tone of at least one
/// sample starts at silence (the first sample's fade-in gain is zero), and
/// its last sample is silent too when the tone is shorter than the ramp or
/// ends on it (fade-out gain zero).
pub proof fn lemma_ramps_start_and_end_silent(current: usize, num_samples: usize, fade_samples: usize)
    requires
        current < num_samples,
        fade_samples > 0,
    ensures
        sample_at(current, num_samples, fade_samples).fade_in matches Some(g) ==> g.num < g.den,
        sample_at(current, num_samples, fade_samples).fade_out matches Some(g) ==> g.num < g.den,
        current == 0 ==> sample_at(current, num_samples, fade_samples).fade_in == Some(Gain { num: 0, den: fade_samples }),
        current == num_samples - 1 && fade_samples > 1 ==>
            sample_at(current, num_samples, fade_samples).fade_out == Some(Gain { num: 0, den: fade_samples }),
{
}

} // verus!
