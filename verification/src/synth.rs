//! The parameter model: the synthesizer's entire adjustable state, plus the
//! engine that owns the one shared instance of it.
//!
//! Fields of type `u32` hold the bit pattern of an IEEE 754 single-precision
//! value. The model is never clamped in storage; every consumer clamps its
//! own inputs at read time.

use vstd::prelude::*;

verus! {

/// Bit pattern of 0.02, the default envelope attack.
pub const DEFAULT_ATTACK_BITS: u32 = 0x3CA3_D70A;

/// Bit pattern of 0.25, the default envelope decay.
pub const DEFAULT_DECAY_BITS: u32 = 0x3E80_0000;

/// Bit pattern of 0.7, the default envelope sustain and oscillator level.
pub const DEFAULT_SUSTAIN_BITS: u32 = 0x3F33_3333;

/// Bit pattern of 0.4, the default envelope release.
pub const DEFAULT_RELEASE_BITS: u32 = 0x3ECC_CCCD;

/// Bit pattern of 0.0, the default oscillator tune (semitones).
pub const DEFAULT_TUNE_BITS: u32 = 0x0000_0000;

/// Bit pattern of 0.7, the default oscillator level.
pub const DEFAULT_LEVEL_BITS: u32 = 0x3F33_3333;

/// Bit pattern of 1400.0, the default filter cutoff in Hz.
pub const DEFAULT_CUTOFF_BITS: u32 = 0x44AF_0000;

/// Bit pattern of 0.35, the default filter resonance.
pub const DEFAULT_RESONANCE_BITS: u32 = 0x3EB3_3333;

/// Bit pattern of 0.55, the default filter envelope amount.
pub const DEFAULT_ENV_AMOUNT_BITS: u32 = 0x3F0C_CCCD;

/// Bit pattern of 0.2, the default filter drive.
pub const DEFAULT_DRIVE_BITS: u32 = 0x3E4C_CCCD;

/// Bit pattern of 0.12, the default mixer noise level.
pub const DEFAULT_NOISE_BITS: u32 = 0x3DF5_C28F;

/// Bit pattern of 0.3, the default mixer sub level.
pub const DEFAULT_SUB_BITS: u32 = 0x3E99_999A;

/// Bit pattern of 0.72, the default mixer master level.
pub const DEFAULT_MASTER_BITS: u32 = 0x3F38_51EC;

/// Bit pattern of 0.05, the default global glide.
pub const DEFAULT_GLIDE_BITS: u32 = 0x3D4C_CCCD;

/// Bit pattern of 0.35, the default global clip amount.
pub const DEFAULT_CLIP_AMOUNT_BITS: u32 = 0x3EB3_3333;

/// Envelope parameters. Held and persisted, but not read by the current
/// signal path.
#[derive(Clone, Copy, Debug, PartialEq, Eq, Structural)]
pub struct Envelope {
    pub attack: u32,
    pub decay: u32,
    pub sustain: u32,
    pub release: u32,
}

/// The primary oscillator. `waveform` stores free text; unrecognized tags
/// fall back to sine at read time. `sync` is persisted but unused.
#[derive(Clone, Debug, PartialEq)]
pub struct Oscillator {
    pub waveform: String,
    pub tune: u32,
    pub level: u32,
    pub sync: bool,
}

/// The resonant low-pass filter. `env_amount` and `drive` are persisted but
/// unused by the current signal path.
#[derive(Clone, Copy, Debug, PartialEq, Eq, Structural)]
pub struct Filter {
    pub cutoff: u32,
    pub resonance: u32,
    pub env_amount: u32,
    pub drive: u32,
}

/// Mix levels. `noise` and `sub` are persisted but unused by the current
/// signal path.
#[derive(Clone, Copy, Debug, PartialEq, Eq, Structural)]
pub struct Mixer {
    pub noise: u32,
    pub sub: u32,
    pub master: u32,
}

/// Global settings. Only `clip_amount` is read, and only by the offline
/// render path.
#[derive(Clone, Copy, Debug, PartialEq, Eq, Structural)]
pub struct Global {
    pub mono: bool,
    pub glide: u32,
    pub clip_amount: u32,
}

/// The full parameter model. Always fully populated: no partial state is
/// ever observable.
#[derive(Clone, Debug, PartialEq)]
pub struct SynthState {
    pub envelope: Envelope,
    pub oscillator: Oscillator,
    pub filter: Filter,
    pub mixer: Mixer,
    pub global: Global,
}

/// Mathematical image of [`Oscillator`]: the waveform tag as a character
/// sequence.
pub ghost struct OscillatorModel {
    pub waveform: Seq<char>,
    pub tune: u32,
    pub level: u32,
    pub sync: bool,
}

/// Mathematical image of [`SynthState`]. All groups but the oscillator are
/// plain data and stand for themselves.
pub ghost struct StateModel {
    pub envelope: Envelope,
    pub oscillator: OscillatorModel,
    pub filter: Filter,
    pub mixer: Mixer,
    pub global: Global,
}

impl View for Oscillator {
    type V = OscillatorModel;

    open spec fn view(&self) -> OscillatorModel {
        OscillatorModel {
            waveform: self.waveform@,
            tune: self.tune,
            level: self.level,
            sync: self.sync,
        }
    }
}

impl View for SynthState {
    type V = StateModel;

    open spec fn view(&self) -> StateModel {
        StateModel {
            envelope: self.envelope,
            oscillator: self.oscillator@,
            filter: self.filter,
            mixer: self.mixer,
            global: self.global,
        }
    }
}

/// The compile-time default model: saw wave, level 0.7, cutoff 1400 Hz,
/// resonance 0.35, master 0.72.
pub open spec fn default_model() -> StateModel {
    StateModel {
        envelope: Envelope {
            attack: DEFAULT_ATTACK_BITS,
            decay: DEFAULT_DECAY_BITS,
            sustain: DEFAULT_SUSTAIN_BITS,
            release: DEFAULT_RELEASE_BITS,
        },
        oscillator: OscillatorModel {
            waveform: "saw"@,
            tune: DEFAULT_TUNE_BITS,
            level: DEFAULT_LEVEL_BITS,
            sync: true,
        },
        filter: Filter {
            cutoff: DEFAULT_CUTOFF_BITS,
            resonance: DEFAULT_RESONANCE_BITS,
            env_amount: DEFAULT_ENV_AMOUNT_BITS,
            drive: DEFAULT_DRIVE_BITS,
        },
        mixer: Mixer {
            noise: DEFAULT_NOISE_BITS,
            sub: DEFAULT_SUB_BITS,
            master: DEFAULT_MASTER_BITS,
        },
        global: Global {
            mono: false,
            glide: DEFAULT_GLIDE_BITS,
            clip_amount: DEFAULT_CLIP_AMOUNT_BITS,
        },
    }
}

impl SynthState {
    /// An independent copy of the model, equal to the original.
    pub fn snapshot(&self) -> (r: SynthState)
        ensures
            r == *self,
    {
        SynthState {
            envelope: self.envelope,
            oscillator: Oscillator {
                waveform: self.oscillator.waveform.clone(),
                tune: self.oscillator.tune,
                level: self.oscillator.level,
                sync: self.oscillator.sync,
            },
            filter: self.filter,
            mixer: self.mixer,
            global: self.global,
        }
    }
}

impl Default for SynthState {
    /// The compile-time default state.
    fn default() -> (r: SynthState)
        ensures
            r@ == default_model(),
    {
        SynthState {
            envelope: Envelope {
                attack: DEFAULT_ATTACK_BITS,
                decay: DEFAULT_DECAY_BITS,
                sustain: DEFAULT_SUSTAIN_BITS,
                release: DEFAULT_RELEASE_BITS,
            },
            oscillator: Oscillator {
                waveform: "saw".to_owned(),
                tune: DEFAULT_TUNE_BITS,
                level: DEFAULT_LEVEL_BITS,
                sync: true,
            },
            filter: Filter {
                cutoff: DEFAULT_CUTOFF_BITS,
                resonance: DEFAULT_RESONANCE_BITS,
                env_amount: DEFAULT_ENV_AMOUNT_BITS,
                drive: DEFAULT_DRIVE_BITS,
            },
            mixer: Mixer {
                noise: DEFAULT_NOISE_BITS,
                sub: DEFAULT_SUB_BITS,
                master: DEFAULT_MASTER_BITS,
            },
            global: Global {
                mono: false,
                glide: DEFAULT_GLIDE_BITS,
                clip_amount: DEFAULT_CLIP_AMOUNT_BITS,
            },
        }
    }
}

/// Owner of the one shared parameter model. Callers serialize access to it;
/// every operation here works on the whole model at once.
pub struct SynthEngine {
    state: SynthState,
}

impl SynthEngine {
    /// The model currently held by the engine.
    pub closed spec fn model(&self) -> StateModel {
        self.state@
    }

    /// A full copy of the current state.
    pub fn get_state(&self) -> (r: SynthState)
        ensures
            r@ == self.model(),
    {
        self.state.snapshot()
    }

    /// Replaces the entire state with `next`.
    pub fn set_state(&mut self, next: SynthState)
        ensures
            final(self).model() == next@,
    {
        self.state = next;
    }

    /// Restores the compile-time default model and returns a copy of it,
    /// regardless of the prior state.
    pub fn reset(&mut self) -> (r: SynthState)
        ensures
            final(self).model() == default_model(),
            r@ == default_model(),
    {
        self.state = SynthState::default();
        self.state.snapshot()
    }
}

impl Default for SynthEngine {
    /// An engine holding the compile-time default model.
    fn default() -> (r: SynthEngine)
        ensures
            r.model() == default_model(),
    {
        SynthEngine { state: SynthState::default() }
    }
}

} // verus!
