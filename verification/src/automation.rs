//! Automation events and the rules that map one event onto one field of the
//! parameter model.
//!
//! An event carries a dotted path, a value and an optional curve tag. The
//! applier mutates exactly the addressed field, coercing by the path's
//! expected kind; a wrong-kind value or an unrecognized path is a silent
//! no-op, so malformed automation never aborts a render.

use vstd::prelude::*;

use crate::synth::{StateModel, SynthState};

verus! {

/// An automation value: the tagged union of the kinds an event may carry.
/// `Number` holds the bit pattern of the IEEE 754 single-precision value the
/// event's numeric payload converts to; `Other` stands for any payload of a
/// kind no path accepts (it never changes a field).
#[derive(Clone, Debug, PartialEq)]
pub enum EventValue {
    Number(u32),
    Text(String),
    Flag(bool),
    Other,
}

/// A timed instruction to change exactly one model field. `curve` is
/// accepted but not interpreted: every event is a step change at `time_ms`.
#[derive(Clone, Debug, PartialEq)]
pub struct AutomationEvent {
    pub time_ms: u64,
    pub path: String,
    pub value: EventValue,
    pub curve: Option<String>,
}

/// The numeric coercion rule: a `Number` payload replaces the field, any
/// other kind leaves it unchanged.
pub open spec fn coerced_num(value: EventValue, current: u32) -> u32 {
    match value {
        EventValue::Number(bits) => bits,
        _ => current,
    }
}

/// The boolean coercion rule: a `Flag` payload replaces the field, any
/// other kind leaves it unchanged.
pub open spec fn coerced_flag(value: EventValue, current: bool) -> bool {
    match value {
        EventValue::Flag(b) => b,
        _ => current,
    }
}

/// The waveform coercion rule: a `Text` payload replaces the tag, any other
/// kind leaves it unchanged.
pub open spec fn coerced_text(value: EventValue, current: Seq<char>) -> Seq<char> {
    match value {
        EventValue::Text(s) => s@,
        _ => current,
    }
}

/// What applying one event to a model yields: exactly one field changes when
/// the path is recognized and the value has that path's expected kind;
/// otherwise the model is returned unchanged.
pub open spec fn spec_apply(m: StateModel, event: AutomationEvent) -> StateModel {
    let path = event.path@;
    let v = event.value;
    if path == "oscillator.waveform"@ {
        StateModel {
            oscillator: crate::synth::OscillatorModel {
                waveform: coerced_text(v, m.oscillator.waveform),
                ..m.oscillator
            },
            ..m
        }
    } else if path == "oscillator.tune"@ {
        StateModel {
            oscillator: crate::synth::OscillatorModel {
                tune: coerced_num(v, m.oscillator.tune),
                ..m.oscillator
            },
            ..m
        }
    } else if path == "oscillator.level"@ {
        StateModel {
            oscillator: crate::synth::OscillatorModel {
                level: coerced_num(v, m.oscillator.level),
                ..m.oscillator
            },
            ..m
        }
    } else if path == "oscillator.sync"@ {
        StateModel {
            oscillator: crate::synth::OscillatorModel {
                sync: coerced_flag(v, m.oscillator.sync),
                ..m.oscillator
            },
            ..m
        }
    } else if path == "filter.cutoff"@ {
        StateModel {
            filter: crate::synth::Filter { cutoff: coerced_num(v, m.filter.cutoff), ..m.filter },
            ..m
        }
    } else if path == "filter.resonance"@ {
        StateModel {
            filter: crate::synth::Filter {
                resonance: coerced_num(v, m.filter.resonance),
                ..m.filter
            },
            ..m
        }
    } else if path == "filter.env_amount"@ {
        StateModel {
            filter: crate::synth::Filter {
                env_amount: coerced_num(v, m.filter.env_amount),
                ..m.filter
            },
            ..m
        }
    } else if path == "filter.drive"@ {
        StateModel {
            filter: crate::synth::Filter { drive: coerced_num(v, m.filter.drive), ..m.filter },
            ..m
        }
    } else if path == "mixer.noise"@ {
        StateModel {
            mixer: crate::synth::Mixer { noise: coerced_num(v, m.mixer.noise), ..m.mixer },
            ..m
        }
    } else if path == "mixer.sub"@ {
        StateModel {
            mixer: crate::synth::Mixer { sub: coerced_num(v, m.mixer.sub), ..m.mixer },
            ..m
        }
    } else if path == "mixer.master"@ {
        StateModel {
            mixer: crate::synth::Mixer { master: coerced_num(v, m.mixer.master), ..m.mixer },
            ..m
        }
    } else if path == "global.mono"@ {
        StateModel {
            global: crate::synth::Global { mono: coerced_flag(v, m.global.mono), ..m.global },
            ..m
        }
    } else if path == "global.glide"@ {
        StateModel {
            global: crate::synth::Global { glide: coerced_num(v, m.global.glide), ..m.global },
            ..m
        }
    } else if path == "global.clip_amount"@ {
        StateModel {
            global: crate::synth::Global {
                clip_amount: coerced_num(v, m.global.clip_amount),
                ..m.global
            },
            ..m
        }
    } else {
        m
    }
}

/// Whether two string slices hold the same characters.
pub fn str_eq(a: &str, b: &str) -> (r: bool)
    ensures
        r == (a@ == b@),
{
    let owned_a: String = a.to_owned();
    let owned_b: String = b.to_owned();
    owned_a == owned_b
}

/// Stores a numeric payload into a numeric field; leaves the field alone
/// for any other payload kind.
fn apply_num(value: &EventValue, target: &mut u32)
    ensures
        *final(target) == coerced_num(*value, *old(target)),
{
    match value {
        EventValue::Number(bits) => {
            *target = *bits;
        },
        _ => {},
    }
}

/// Stores a boolean payload into a boolean field; leaves the field alone
/// for any other payload kind.
fn apply_flag(value: &EventValue, target: &mut bool)
    ensures
        *final(target) == coerced_flag(*value, *old(target)),
{
    match value {
        EventValue::Flag(b) => {
            *target = *b;
        },
        _ => {},
    }
}

/// Applies one automation event to the model: mutates exactly the field the
/// path names, or does nothing for an unrecognized path or a wrong-kind
/// value.
pub fn apply_event(state: &mut SynthState, event: &AutomationEvent)
    ensures
        final(state)@ == spec_apply(old(state)@, *event),
{
    let path = event.path.as_str();
    if str_eq(path, "oscillator.waveform") {
        match &event.value {
            EventValue::Text(s) => {
                state.oscillator.waveform = s.clone();
            },
            _ => {},
        }
    } else if str_eq(path, "oscillator.tune") {
        apply_num(&event.value, &mut state.oscillator.tune);
    } else if str_eq(path, "oscillator.level") {
        apply_num(&event.value, &mut state.oscillator.level);
    } else if str_eq(path, "oscillator.sync") {
        apply_flag(&event.value, &mut state.oscillator.sync);
    } else if str_eq(path, "filter.cutoff") {
        apply_num(&event.value, &mut state.filter.cutoff);
    } else if str_eq(path, "filter.resonance") {
        apply_num(&event.value, &mut state.filter.resonance);
    } else if str_eq(path, "filter.env_amount") {
        apply_num(&event.value, &mut state.filter.env_amount);
    } else if str_eq(path, "filter.drive") {
        apply_num(&event.value, &mut state.filter.drive);
    } else if str_eq(path, "mixer.noise") {
        apply_num(&event.value, &mut state.mixer.noise);
    } else if str_eq(path, "mixer.sub") {
        apply_num(&event.value, &mut state.mixer.sub);
    } else if str_eq(path, "mixer.master") {
        apply_num(&event.value, &mut state.mixer.master);
    } else if str_eq(path, "global.mono") {
        apply_flag(&event.value, &mut state.global.mono);
    } else if str_eq(path, "global.glide") {
        apply_num(&event.value, &mut state.global.glide);
    } else if str_eq(path, "global.clip_amount") {
        apply_num(&event.value, &mut state.global.clip_amount);
    }
}

} // verus!
