use andromeda::audio::SampleParams;
use andromeda::automation::{AutomationEvent, EventValue};
use andromeda::render::{render_schedule, sort_events, RenderPlan};
use andromeda::synth::{SynthState, DEFAULT_CLIP_AMOUNT_BITS, DEFAULT_LEVEL_BITS};

fn level_event(time_ms: u64, level: f32) -> AutomationEvent {
    AutomationEvent {
        time_ms,
        path: "oscillator.level".to_string(),
        value: EventValue::Number(level.to_bits()),
        curve: None,
    }
}

fn drain(mut plan: RenderPlan) -> Vec<SampleParams> {
    let mut out = Vec::new();
    while let Some(p) = plan.next() {
        out.push(p);
    }
    out
}

#[test]
fn sort_orders_by_time_and_keeps_ties_in_input_order() {
    let input = vec![
        level_event(100, 0.1),
        level_event(0, 0.2),
        level_event(50, 0.3),
        level_event(0, 0.4),
        level_event(100, 0.5),
    ];
    let sorted = sort_events(input.clone());
    let expected = vec![
        level_event(0, 0.2),
        level_event(0, 0.4),
        level_event(50, 0.3),
        level_event(100, 0.1),
        level_event(100, 0.5),
    ];
    assert_eq!(sorted, expected);
}

#[test]
fn total_sample_counts_follow_the_formula() {
    let cases: Vec<(u64, u32, u64)> = vec![
        (1000, 8000, 8000),
        (1000, 44100, 44100),
        (999, 1000, 999),
        (1, 8000, 8),
        (1, 999, 0),
        (0, 48000, 0),
        (125, 8000, 1000),
    ];
    for (duration_ms, sample_rate, expected) in cases {
        let plan = RenderPlan::new(SynthState::default(), Vec::new(), duration_ms, sample_rate);
        assert_eq!(plan.total_samples(), expected);
    }
}

#[test]
fn early_event_applies_before_late_event_regardless_of_input_order() {
    let input = vec![level_event(100, 0.9), level_event(0, 0.3)];
    let plan = RenderPlan::new(SynthState::default(), input, 200, 1000);
    let samples = drain(plan);
    assert_eq!(samples.len(), 200);
    // From the first sample on, the time-0 event is in force.
    assert_eq!(samples[0].level, 0.3f32.to_bits());
    assert_eq!(samples[99].level, 0.3f32.to_bits());
    // At 100 ms the later event takes over.
    assert_eq!(samples[100].level, 0.9f32.to_bits());
    assert_eq!(samples[199].level, 0.9f32.to_bits());
}

#[test]
fn simultaneous_events_apply_in_input_order() {
    let forward = RenderPlan::new(
        SynthState::default(),
        vec![level_event(0, 0.1), level_event(0, 0.8)],
        10,
        1000,
    );
    assert_eq!(drain(forward)[0].level, 0.8f32.to_bits());
    let backward = RenderPlan::new(
        SynthState::default(),
        vec![level_event(0, 0.8), level_event(0, 0.1)],
        10,
        1000,
    );
    assert_eq!(drain(backward)[0].level, 0.1f32.to_bits());
}

#[test]
fn event_timing_is_sample_accurate() {
    // At 1000 samples per second one sample is exactly one millisecond.
    let plan = RenderPlan::new(SynthState::default(), vec![level_event(3, 0.5)], 6, 1000);
    let samples = drain(plan);
    assert_eq!(samples.len(), 6);
    assert_eq!(samples[0].level, DEFAULT_LEVEL_BITS);
    assert_eq!(samples[2].level, DEFAULT_LEVEL_BITS);
    assert_eq!(samples[3].level, 0.5f32.to_bits());
    assert_eq!(samples[5].level, 0.5f32.to_bits());
}

#[test]
fn renders_with_identical_inputs_yield_identical_snapshots() {
    let events = vec![
        level_event(40, 0.6),
        level_event(0, 0.2),
        AutomationEvent {
            time_ms: 20,
            path: "oscillator.waveform".to_string(),
            value: EventValue::Text("triangle".to_string()),
            curve: Some("step".to_string()),
        },
    ];
    let first = drain(RenderPlan::new(SynthState::default(), events.clone(), 80, 2000));
    let second = drain(RenderPlan::new(SynthState::default(), events, 80, 2000));
    assert_eq!(first, second);
    assert_eq!(first.len(), 160);
}

#[test]
fn concurrent_model_edits_cannot_reach_a_started_render() {
    let mut live = SynthState::default();
    let plan = RenderPlan::new(live.snapshot(), Vec::new(), 5, 1000);
    live.oscillator.level = 0.01f32.to_bits();
    let samples = drain(plan);
    assert_eq!(samples[4].level, DEFAULT_LEVEL_BITS);
}

#[test]
fn default_render_snapshot_carries_the_clip_amount_as_scale() {
    let plan = RenderPlan::new(SynthState::default(), Vec::new(), 1000, 8000);
    assert_eq!(plan.total_samples(), 8000);
    let samples = drain(plan);
    assert_eq!(samples.len(), 8000);
    assert_eq!(samples[0].scale, DEFAULT_CLIP_AMOUNT_BITS);
    assert_eq!(samples[0], samples[7999]);
}

#[test]
fn schedule_equals_the_drained_plan_and_repeats_exactly() {
    let events = vec![level_event(2, 0.6), level_event(0, 0.2)];
    let drained = drain(RenderPlan::new(SynthState::default(), events.clone(), 5, 1000));
    let once = render_schedule(SynthState::default(), events.clone(), 5, 1000);
    let again = render_schedule(SynthState::default(), events, 5, 1000);
    assert_eq!(once, drained);
    assert_eq!(once, again);
    assert_eq!(once.len(), 5);
    assert_eq!(once[0].level, 0.2f32.to_bits());
    assert_eq!(once[2].level, 0.6f32.to_bits());
}

#[test]
fn next_returns_none_after_the_last_sample() {
    let mut plan = RenderPlan::new(SynthState::default(), Vec::new(), 2, 1000);
    assert!(plan.next().is_some());
    assert!(plan.next().is_some());
    assert!(plan.next().is_none());
    assert!(plan.next().is_none());
}
