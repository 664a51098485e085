use andromeda::synth::{
    SynthEngine, SynthState, DEFAULT_ATTACK_BITS, DEFAULT_CLIP_AMOUNT_BITS, DEFAULT_CUTOFF_BITS,
    DEFAULT_DECAY_BITS, DEFAULT_DRIVE_BITS, DEFAULT_ENV_AMOUNT_BITS, DEFAULT_GLIDE_BITS,
    DEFAULT_LEVEL_BITS, DEFAULT_MASTER_BITS, DEFAULT_NOISE_BITS, DEFAULT_RELEASE_BITS,
    DEFAULT_RESONANCE_BITS, DEFAULT_SUB_BITS, DEFAULT_SUSTAIN_BITS, DEFAULT_TUNE_BITS,
};

#[test]
fn default_bit_patterns_are_the_intended_values() {
    assert_eq!(DEFAULT_ATTACK_BITS, 0.02f32.to_bits());
    assert_eq!(DEFAULT_DECAY_BITS, 0.25f32.to_bits());
    assert_eq!(DEFAULT_SUSTAIN_BITS, 0.7f32.to_bits());
    assert_eq!(DEFAULT_RELEASE_BITS, 0.4f32.to_bits());
    assert_eq!(DEFAULT_TUNE_BITS, 0.0f32.to_bits());
    assert_eq!(DEFAULT_LEVEL_BITS, 0.7f32.to_bits());
    assert_eq!(DEFAULT_CUTOFF_BITS, 1400.0f32.to_bits());
    assert_eq!(DEFAULT_RESONANCE_BITS, 0.35f32.to_bits());
    assert_eq!(DEFAULT_ENV_AMOUNT_BITS, 0.55f32.to_bits());
    assert_eq!(DEFAULT_DRIVE_BITS, 0.2f32.to_bits());
    assert_eq!(DEFAULT_NOISE_BITS, 0.12f32.to_bits());
    assert_eq!(DEFAULT_SUB_BITS, 0.3f32.to_bits());
    assert_eq!(DEFAULT_MASTER_BITS, 0.72f32.to_bits());
    assert_eq!(DEFAULT_GLIDE_BITS, 0.05f32.to_bits());
    assert_eq!(DEFAULT_CLIP_AMOUNT_BITS, 0.35f32.to_bits());
}

#[test]
fn default_state_is_fully_populated() {
    let s = SynthState::default();
    assert_eq!(s.oscillator.waveform, "saw");
    assert_eq!(s.oscillator.tune, DEFAULT_TUNE_BITS);
    assert_eq!(s.oscillator.level, DEFAULT_LEVEL_BITS);
    assert!(s.oscillator.sync);
    assert_eq!(s.filter.cutoff, DEFAULT_CUTOFF_BITS);
    assert_eq!(s.filter.resonance, DEFAULT_RESONANCE_BITS);
    assert_eq!(s.filter.env_amount, DEFAULT_ENV_AMOUNT_BITS);
    assert_eq!(s.filter.drive, DEFAULT_DRIVE_BITS);
    assert_eq!(s.mixer.noise, DEFAULT_NOISE_BITS);
    assert_eq!(s.mixer.sub, DEFAULT_SUB_BITS);
    assert_eq!(s.mixer.master, DEFAULT_MASTER_BITS);
    assert_eq!(s.envelope.attack, DEFAULT_ATTACK_BITS);
    assert_eq!(s.envelope.decay, DEFAULT_DECAY_BITS);
    assert_eq!(s.envelope.sustain, DEFAULT_SUSTAIN_BITS);
    assert_eq!(s.envelope.release, DEFAULT_RELEASE_BITS);
    assert!(!s.global.mono);
    assert_eq!(s.global.glide, DEFAULT_GLIDE_BITS);
    assert_eq!(s.global.clip_amount, DEFAULT_CLIP_AMOUNT_BITS);
}

#[test]
fn snapshot_is_an_equal_independent_copy() {
    let mut s = SynthState::default();
    s.oscillator.waveform = "triangle".to_string();
    s.mixer.master = 0.5f32.to_bits();
    let copy = s.snapshot();
    assert_eq!(copy, s);
    s.mixer.master = 0.9f32.to_bits();
    assert_eq!(copy.mixer.master, 0.5f32.to_bits());
}

#[test]
fn engine_get_returns_what_set_installed() {
    let mut engine = SynthEngine::default();
    assert_eq!(engine.get_state(), SynthState::default());
    let mut next = SynthState::default();
    next.oscillator.waveform = "square".to_string();
    next.filter.cutoff = 99.0f32.to_bits();
    engine.set_state(next.snapshot());
    assert_eq!(engine.get_state(), next);
}

#[test]
fn reset_installs_and_returns_the_default_regardless_of_prior_state() {
    let mut engine = SynthEngine::default();
    let mut odd = SynthState::default();
    odd.oscillator.waveform = "noise?!".to_string();
    odd.oscillator.level = (-3.5f32).to_bits();
    odd.global.clip_amount = 7.25f32.to_bits();
    engine.set_state(odd);
    let returned = engine.reset();
    assert_eq!(returned, SynthState::default());
    assert_eq!(engine.get_state(), SynthState::default());
}
