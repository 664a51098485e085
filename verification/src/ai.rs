//! The automation-generation boundary: a caller may ask an external text
//! service to propose an automation timeline for a prompt. The core places
//! no trust in what comes back: the list is ordinary events, and the
//! applier's no-op rules absorb unknown paths and wrong-kind values.

use vstd::prelude::*;

verus! {

/// A request to generate an automation timeline: a free-text prompt and
/// the length of the render it is meant for.
#[derive(Clone, Debug, PartialEq)]
pub struct AiGenerateRequest {
    pub prompt: String,
    pub duration_ms: u64,
}

} // verus!
