//! The live path's decision logic: the waveform dispatch rule, the
//! per-callback parameter snapshot, the lock-failure fallback timbre, and
//! the running/stopped state machine of the output stream.
//!
//! The device callback itself lives outside the library; each time it runs
//! it asks for a [`SampleParams`] snapshot and feeds every output frame from
//! the same composition: oscillator level times waveform, through the
//! resonant one-pole filter, soft-clipped after scaling by master times
//! `scale`.

use vstd::prelude::*;

use crate::automation::str_eq;
use crate::synth::{StateModel, SynthState};

verus! {

/// Bit pattern of 0.35: the fixed final-stage scale of the live path. The
/// offline path uses the model's `clip_amount` instead.
pub const LIVE_SCALE_BITS: u32 = 0x3EB3_3333;

/// Bit pattern of 0.2, the oscillator level of the fallback timbre.
pub const FALLBACK_LEVEL_BITS: u32 = 0x3E4C_CCCD;

/// Bit pattern of 20.0, the lower clamp of the filter cutoff in Hz.
pub const CUTOFF_MIN_BITS: u32 = 0x41A0_0000;

/// Bit pattern of 20000.0, the upper clamp of the filter cutoff in Hz.
pub const CUTOFF_MAX_BITS: u32 = 0x469C_4000;

/// Bit pattern of 0.0, the lower clamp of levels and resonance.
pub const UNIT_MIN_BITS: u32 = 0x0000_0000;

/// Bit pattern of 1.0, the upper clamp of levels, resonance and clip
/// amount.
pub const UNIT_MAX_BITS: u32 = 0x3F80_0000;

/// Bit pattern of 0.05, the lower clamp of the clip amount.
pub const CLIP_AMOUNT_MIN_BITS: u32 = 0x3D4C_CCCD;

/// The closed set of waveforms the oscillator can produce.
#[derive(Clone, Copy, Debug, PartialEq, Eq, Structural)]
pub enum WaveKind {
    Sine,
    Square,
    Saw,
    Triangle,
}

/// The waveform dispatch rule: the three named non-sine tags select their
/// waveform; every other tag, `"sine"` included, selects sine.
pub open spec fn spec_wave_kind(tag: Seq<char>) -> WaveKind {
    if tag == "square"@ {
        WaveKind::Square
    } else if tag == "saw"@ {
        WaveKind::Saw
    } else if tag == "triangle"@ {
        WaveKind::Triangle
    } else {
        WaveKind::Sine
    }
}

/// Resolves a free-text waveform tag to the waveform it selects.
pub fn wave_kind(tag: &str) -> (k: WaveKind)
    ensures
        k == spec_wave_kind(tag@),
{
    if str_eq(tag, "square") {
        WaveKind::Square
    } else if str_eq(tag, "saw") {
        WaveKind::Saw
    } else if str_eq(tag, "triangle") {
        WaveKind::Triangle
    } else {
        WaveKind::Sine
    }
}

/// Everything one invocation of the per-sample composition reads, as one
/// plain value: the resolved waveform and the bit patterns of tune, level,
/// cutoff, resonance, master and the final-stage scale. Consumers clamp at
/// read time; the snapshot itself is unclamped.
#[derive(Clone, Copy, Debug, PartialEq, Eq, Structural)]
pub struct SampleParams {
    pub wave: WaveKind,
    pub tune: u32,
    pub level: u32,
    pub cutoff: u32,
    pub resonance: u32,
    pub master: u32,
    pub scale: u32,
}

/// The snapshot a model yields when the final-stage scale is `scale`.
pub open spec fn params_of(m: StateModel, scale: u32) -> SampleParams {
    SampleParams {
        wave: spec_wave_kind(m.oscillator.waveform),
        tune: m.oscillator.tune,
        level: m.oscillator.level,
        cutoff: m.filter.cutoff,
        resonance: m.filter.resonance,
        master: m.mixer.master,
        scale,
    }
}

/// The snapshot the live callback takes from the model: current oscillator,
/// filter and master settings with the fixed live scale.
pub fn live_snapshot(state: &SynthState) -> (p: SampleParams)
    ensures
        p == params_of(state@, LIVE_SCALE_BITS),
{
    SampleParams {
        wave: wave_kind(state.oscillator.waveform.as_str()),
        tune: state.oscillator.tune,
        level: state.oscillator.level,
        cutoff: state.filter.cutoff,
        resonance: state.filter.resonance,
        master: state.mixer.master,
        scale: LIVE_SCALE_BITS,
    }
}

/// The fixed default timbre the callback falls back to when the model's
/// lock cannot be acquired: a 220 Hz sine at level 0.2, with the default
/// filter and master settings. The callback must never block or fail; it
/// degrades to this instead.
pub fn fallback_params() -> (p: SampleParams)
    ensures
        p == (SampleParams {
            wave: WaveKind::Sine,
            tune: crate::synth::DEFAULT_TUNE_BITS,
            level: FALLBACK_LEVEL_BITS,
            cutoff: crate::synth::DEFAULT_CUTOFF_BITS,
            resonance: crate::synth::DEFAULT_RESONANCE_BITS,
            master: crate::synth::DEFAULT_MASTER_BITS,
            scale: LIVE_SCALE_BITS,
        }),
{
    SampleParams {
        wave: WaveKind::Sine,
        tune: crate::synth::DEFAULT_TUNE_BITS,
        level: FALLBACK_LEVEL_BITS,
        cutoff: crate::synth::DEFAULT_CUTOFF_BITS,
        resonance: crate::synth::DEFAULT_RESONANCE_BITS,
        master: crate::synth::DEFAULT_MASTER_BITS,
        scale: LIVE_SCALE_BITS,
    }
}

/// The output stream's state machine: `Stopped` (no active stream) or
/// `Running` (device callback active). The stream resource itself is owned
/// outside the library, which keeps this state in step with it.
pub struct AudioEngine {
    running: bool,
}

impl AudioEngine {
    /// Whether the engine currently counts as running.
    pub closed spec fn running(&self) -> bool {
        self.running
    }

    /// Records that the output stream is active. Returns whether this call
    /// started it: `false` means it was already running and nothing
    /// changed, which is a no-change signal, not an error.
    pub fn start(&mut self) -> (started: bool)
        ensures
            final(self).running(),
            started == !old(self).running(),
    {
        let was_running = self.running;
        self.running = true;
        !was_running
    }

    /// Records that the output stream is released. Returns whether it had
    /// been running.
    pub fn stop(&mut self) -> (was_running: bool)
        ensures
            !final(self).running(),
            was_running == old(self).running(),
    {
        let was_running = self.running;
        self.running = false;
        was_running
    }

    /// Non-mutating query of the current state.
    pub fn is_running(&self) -> (r: bool)
        ensures
            r == self.running(),
    {
        self.running
    }
}

impl Default for AudioEngine {
    /// A stopped engine.
    fn default() -> (r: AudioEngine)
        ensures
            !r.running(),
    {
        AudioEngine { running: false }
    }
}

} // verus!
