//! Voice activity detection: decides when a capture stops.
//!
//! Energies and the speech threshold are `f32` values held as their IEEE-754
//! bit patterns; they are compared as `f32` values are.
use vstd::prelude::*;

verus! {

/// Why the detector asks the capture to stop.
#[derive(Debug, Clone, Copy, PartialEq, Eq, Structural)]
pub enum StopReason {
    NoSpeech,
    Silence,
    Timeout,
}

/// Detector settings.
#[derive(Debug, Clone, Copy)]
pub struct VadConfig {
    pub no_speech_ms: u64,
    pub silence_after_speech_ms: u64,
    pub max_duration_ms: u64,
    /// The speech energy threshold as the bit pattern of an `f32`.
    pub speech_threshold: u32,
}

/// The bit pattern of the `f32` value `0.02`.
pub const DEFAULT_SPEECH_THRESHOLD_BITS: u32 = 0x3ca3_d70a;

impl Default for VadConfig {
    fn default() -> (r: Self)
        ensures
            r.no_speech_ms == 8000,
            r.silence_after_speech_ms == 1500,
            r.max_duration_ms == 30000,
            r.speech_threshold == DEFAULT_SPEECH_THRESHOLD_BITS,
    {
        VadConfig {
            no_speech_ms: 8_000,
            silence_after_speech_ms: 1_500,
            max_duration_ms: 30_000,
            speech_threshold: DEFAULT_SPEECH_THRESHOLD_BITS,
        }
    }
}

/// Whether the `f32` with bit pattern `b` is a NaN.
pub open spec fn f32_is_nan(b: u32) -> bool {
    b % 0x8000_0000 > 0x7f80_0000
}

/// The position of a non-NaN `f32` on the number line: magnitudes of
/// floats of one sign order as their bit patterns, and both zeros meet at 0.
pub open spec fn f32_key(b: u32) -> int {
    if b >= 0x8000_0000 {
        -((b - 0x8000_0000) as int)
    } else {
        b as int
    }
}

/// `a >= b` for the `f32` values with bit patterns `a` and `b` (false when
/// either is a NaN).
pub open spec fn f32_ge(a: u32, b: u32) -> bool {
    !f32_is_nan(a) && !f32_is_nan(b) && f32_key(a) >= f32_key(b)
}

/// `a >= b` on `f32` bit patterns.
pub fn f32_bits_ge(a: u32, b: u32) -> (r: bool)
    ensures
        r == f32_ge(a, b),
{
    if a % 0x8000_0000 > 0x7f80_0000 || b % 0x8000_0000 > 0x7f80_0000 {
        return false;
    }
    let ka: i64 = if a >= 0x8000_0000 {
        -((a - 0x8000_0000) as i64)
    } else {
        a as i64
    };
    let kb: i64 = if b >= 0x8000_0000 {
        -((b - 0x8000_0000) as i64)
    } else {
        b as i64
    };
    ka >= kb
}

/// The detector's state.
#[derive(Debug)]
pub struct VadState {
    config: VadConfig,
    speech_seen: bool,
    elapsed_ms: u64,
    silence_since_speech_ms: u64,
}

impl VadState {
    /// The settings.
    pub closed spec fn config(self) -> VadConfig {
        self.config
    }

    /// Whether speech has been heard.
    pub closed spec fn speech_seen(self) -> bool {
        self.speech_seen
    }

    /// The capture time so far.
    pub closed spec fn elapsed(self) -> nat {
        self.elapsed_ms as nat
    }

    /// The silence since the last speech.
    pub closed spec fn silence(self) -> nat {
        self.silence_since_speech_ms as nat
    }

    /// A fresh detector.
    pub fn new(config: VadConfig) -> (s: Self)
        ensures
            s.config() == config,
            !s.speech_seen(),
            s.elapsed() == 0,
            s.silence() == 0,
    {
        VadState { config, speech_seen: false, elapsed_ms: 0, silence_since_speech_ms: 0 }
    }

    /// Push an energy reading (an `f32` bit pattern) covering `duration_ms`.
    /// Returns the reason to stop, if the capture should stop.
    pub fn push_energy(&mut self, energy: u32, duration_ms: u64) -> (r: Option<StopReason>)
        requires
            old(self).elapsed() + duration_ms <= u64::MAX,
            old(self).silence() + duration_ms <= u64::MAX,
        ensures
            energy_step(*old(self), *final(self), energy, duration_ms, r),
    {
        self.elapsed_ms = self.elapsed_ms + duration_ms;

        if self.elapsed_ms >= self.config.max_duration_ms {
            return Some(StopReason::Timeout);
        }
        if f32_bits_ge(energy, self.config.speech_threshold) {
            self.speech_seen = true;
            self.silence_since_speech_ms = 0;
            None
        } else if self.speech_seen {
            self.silence_since_speech_ms = self.silence_since_speech_ms + duration_ms;
            if self.silence_since_speech_ms >= self.config.silence_after_speech_ms {
                Some(StopReason::Silence)
            } else {
                None
            }
        } else {
            // No speech yet: check the grace period.
            if self.elapsed_ms >= self.config.no_speech_ms {
                Some(StopReason::NoSpeech)
            } else {
                None
            }
        }
    }

    /// Push only the total elapsed time (no energy data), for timeout checks.
    pub fn push_elapsed(&mut self, total_elapsed_ms: u64) -> (r: Option<StopReason>)
        ensures
            final(self).config() == old(self).config(),
            final(self).speech_seen() == old(self).speech_seen(),
            final(self).silence() == old(self).silence(),
            final(self).elapsed() == total_elapsed_ms,
            r == if total_elapsed_ms >= old(self).config().max_duration_ms {
                Some(StopReason::Timeout)
            } else {
                None
            },
    {
        self.elapsed_ms = total_elapsed_ms;
        if self.elapsed_ms >= self.config.max_duration_ms {
            Some(StopReason::Timeout)
        } else {
            None
        }
    }

    /// Whether speech has been detected.
    pub fn speech_detected(&self) -> (r: bool)
        ensures
            r == self.speech_seen(),
    {
        self.speech_seen
    }
}

/// One step of the detector: `before` becomes `after` and answers `r` when
/// an energy reading covering `duration_ms` is pushed.
pub open spec fn energy_step(
    before: VadState,
    after: VadState,
    energy: u32,
    duration_ms: u64,
    r: Option<StopReason>,
) -> bool {
    let cfg = before.config();
    let elapsed = before.elapsed() + duration_ms;
    &&& after.config() == cfg
    &&& after.elapsed() == elapsed
    &&& if elapsed >= cfg.max_duration_ms {
        &&& r == Some(StopReason::Timeout)
        &&& after.speech_seen() == before.speech_seen()
        &&& after.silence() == before.silence()
    } else if f32_ge(energy, cfg.speech_threshold) {
        &&& r is None
        &&& after.speech_seen()
        &&& after.silence() == 0
    } else if before.speech_seen() {
        let silence = before.silence() + duration_ms;
        &&& after.speech_seen()
        &&& after.silence() == silence
        &&& r == if silence >= cfg.silence_after_speech_ms {
            Some(StopReason::Silence)
        } else {
            None
        }
    } else {
        &&& !after.speech_seen()
        &&& after.silence() == before.silence()
        &&& r == if elapsed >= cfg.no_speech_ms {
            Some(StopReason::NoSpeech)
        } else {
            None
        }
    }
}

/// A speech reading resets the silence: after it, a quiet reading stops
/// the capture for silence exactly when that reading alone lasts the
/// configured silence, whatever silence was counted before the speech.
pub proof fn lemma_speech_resets_silence(
    s0: VadState,
    s1: VadState,
    s2: VadState,
    speech: u32,
    d1: u64,
    r1: Option<StopReason>,
    quiet: u32,
    d2: u64,
    r2: Option<StopReason>,
)
    requires
        energy_step(s0, s1, speech, d1, r1),
        energy_step(s1, s2, quiet, d2, r2),
        f32_ge(speech, s0.config().speech_threshold),
        !f32_ge(quiet, s0.config().speech_threshold),
        s0.elapsed() + d1 + d2 < s0.config().max_duration_ms,
    ensures
        r1 is None,
        s1.speech_seen(),
        s1.silence() == 0,
        s2.silence() == d2,
        r2 == if d2 >= s0.config().silence_after_speech_ms {
            Some(StopReason::Silence)
        } else {
            None
        },
{
}

/// Once speech has been heard the detector never reports `NoSpeech`, and it
/// reports `Silence` only after speech.
pub proof fn lemma_stop_reasons_follow_speech(
    before: VadState,
    after: VadState,
    energy: u32,
    duration_ms: u64,
    r: Option<StopReason>,
)
    requires
        energy_step(before, after, energy, duration_ms, r),
    ensures
        before.speech_seen() ==> after.speech_seen(),
        before.speech_seen() ==> r != Some(StopReason::NoSpeech),
        r == Some(StopReason::Silence) ==> before.speech_seen(),
        before.elapsed() + duration_ms >= before.config().max_duration_ms ==> r == Some(
            StopReason::Timeout,
        ),
{
}

} // verus!
