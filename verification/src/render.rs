//! The offline renderer's decision core: the stable event ordering, the
//! sample clock, and the per-sample replay of automation against a private
//! copy of the model.
//!
//! A render of `duration_ms` at `sample_rate` produces
//! `duration_ms * sample_rate / 1000` samples. Before sample `i` is
//! computed, every not-yet-applied event whose `time_ms` is at most
//! `i * 1000 / sample_rate` is applied, in sorted order; the sample is then
//! generated from the freshly updated model. The caller drives the signal
//! stages from the snapshots this module hands out, one per sample, and
//! writes the result; identical inputs always yield the identical snapshot
//! sequence.

use vstd::arithmetic::div_mod::lemma_div_is_ordered;
use vstd::prelude::*;
use vstd::seq_lib::to_multiset_build;

use crate::audio::{params_of, wave_kind, SampleParams};
use crate::automation::{apply_event, spec_apply, AutomationEvent};
use crate::synth::{StateModel, SynthState};

verus! {

/// A request for one offline render: length, output rate, and the
/// automation timeline to bake in (in any order).
#[derive(Clone, Debug, PartialEq)]
pub struct RenderRequest {
    pub duration_ms: u64,
    pub sample_rate: u32,
    pub events: Vec<AutomationEvent>,
}

/// Whether the events stand in non-decreasing `time_ms` order.
pub open spec fn sorted_by_time(s: Seq<AutomationEvent>) -> bool {
    forall|i: int, j: int| 0 <= i <= j < s.len() ==> s[i].time_ms <= s[j].time_ms
}

/// Insertion of `e` after every event whose `time_ms` is at most
/// `e.time_ms`: the stable insertion position.
pub open spec fn insert_by_time(s: Seq<AutomationEvent>, e: AutomationEvent) -> Seq<
    AutomationEvent,
>
    decreases s.len(),
{
    if s.len() == 0 {
        seq![e]
    } else if s.last().time_ms <= e.time_ms {
        s.push(e)
    } else {
        insert_by_time(s.drop_last(), e).push(s.last())
    }
}

/// The stable sort of events by `time_ms`: each event in turn is inserted
/// after all earlier-or-equal ones, so ties keep their input order.
pub open spec fn sort_by_time(s: Seq<AutomationEvent>) -> Seq<AutomationEvent>
    decreases s.len(),
{
    if s.len() == 0 {
        s
    } else {
        insert_by_time(sort_by_time(s.drop_last()), s.last())
    }
}

/// The subsequence of events whose `time_ms` equals `t`, in order.
pub open spec fn events_at(s: Seq<AutomationEvent>, t: u64) -> Seq<AutomationEvent>
    decreases s.len(),
{
    if s.len() == 0 {
        Seq::empty()
    } else if s.last().time_ms == t {
        events_at(s.drop_last(), t).push(s.last())
    } else {
        events_at(s.drop_last(), t)
    }
}

proof fn lemma_insert_len(s: Seq<AutomationEvent>, e: AutomationEvent)
    ensures
        insert_by_time(s, e).len() == s.len() + 1,
    decreases s.len(),
{
    if s.len() == 0 {
    } else if s.last().time_ms <= e.time_ms {
    } else {
        lemma_insert_len(s.drop_last(), e);
    }
}

proof fn lemma_insert_bound(s: Seq<AutomationEvent>, e: AutomationEvent, b: u64)
    requires
        forall|i: int| 0 <= i < s.len() ==> (#[trigger] s[i]).time_ms <= b,
        e.time_ms <= b,
    ensures
        forall|i: int|
            0 <= i < insert_by_time(s, e).len() ==> (#[trigger] insert_by_time(s, e)[i]).time_ms
                <= b,
    decreases s.len(),
{
    if s.len() == 0 {
    } else if s.last().time_ms <= e.time_ms {
    } else {
        assert(forall|i: int|
            0 <= i < s.drop_last().len() ==> (#[trigger] s.drop_last()[i]).time_ms <= b);
        lemma_insert_bound(s.drop_last(), e, b);
    }
}

proof fn lemma_insert_sorted(s: Seq<AutomationEvent>, e: AutomationEvent)
    requires
        sorted_by_time(s),
    ensures
        sorted_by_time(insert_by_time(s, e)),
    decreases s.len(),
{
    lemma_insert_len(s, e);
    if s.len() == 0 {
    } else if s.last().time_ms <= e.time_ms {
    } else {
        assert(sorted_by_time(s.drop_last()));
        lemma_insert_sorted(s.drop_last(), e);
        assert(forall|i: int|
            0 <= i < s.drop_last().len() ==> (#[trigger] s.drop_last()[i]).time_ms
                <= s.last().time_ms);
        lemma_insert_bound(s.drop_last(), e, s.last().time_ms);
        lemma_insert_len(s.drop_last(), e);
    }
}

/// Law: the sorted timeline is in non-decreasing `time_ms` order.
pub proof fn lemma_sort_by_time_sorted(s: Seq<AutomationEvent>)
    ensures
        sorted_by_time(sort_by_time(s)),
    decreases s.len(),
{
    if s.len() > 0 {
        lemma_sort_by_time_sorted(s.drop_last());
        lemma_insert_sorted(sort_by_time(s.drop_last()), s.last());
    }
}

/// Law: sorting keeps the number of events.
pub proof fn lemma_sort_by_time_len(s: Seq<AutomationEvent>)
    ensures
        sort_by_time(s).len() == s.len(),
    decreases s.len(),
{
    if s.len() > 0 {
        lemma_sort_by_time_len(s.drop_last());
        lemma_insert_len(sort_by_time(s.drop_last()), s.last());
    }
}

proof fn lemma_insert_multiset(s: Seq<AutomationEvent>, e: AutomationEvent)
    ensures
        insert_by_time(s, e).to_multiset() == s.to_multiset().insert(e),
    decreases s.len(),
{
    broadcast use to_multiset_build;
    broadcast use vstd::multiset::group_multiset_axioms;

    if s.len() == 0 {
        assert(seq![e] =~= s.push(e));
        assert(s.push(e).to_multiset() =~= s.to_multiset().insert(e));
    } else if s.last().time_ms <= e.time_ms {
        assert(insert_by_time(s, e) == s.push(e));
        assert(s.push(e).to_multiset() =~= s.to_multiset().insert(e));
    } else {
        lemma_insert_multiset(s.drop_last(), e);
        let inner = insert_by_time(s.drop_last(), e);
        assert(insert_by_time(s, e) == inner.push(s.last()));
        assert(inner.push(s.last()).to_multiset() =~= inner.to_multiset().insert(s.last()));
        assert(s =~= s.drop_last().push(s.last()));
        assert(s.drop_last().push(s.last()).to_multiset() =~= s.drop_last().to_multiset().insert(
            s.last(),
        ));
        assert(s.drop_last().to_multiset().insert(e).insert(s.last())
            =~= s.drop_last().to_multiset().insert(s.last()).insert(e));
    }
}

/// Law: the sorted timeline is a permutation of the input: exactly the
/// same events, with multiplicity.
pub proof fn lemma_sort_by_time_permutes(s: Seq<AutomationEvent>)
    ensures
        sort_by_time(s).to_multiset() == s.to_multiset(),
    decreases s.len(),
{
    broadcast use to_multiset_build;

    if s.len() > 0 {
        lemma_sort_by_time_permutes(s.drop_last());
        lemma_insert_multiset(sort_by_time(s.drop_last()), s.last());
        assert(s =~= s.drop_last().push(s.last()));
    }
}

proof fn lemma_insert_events_at(s: Seq<AutomationEvent>, e: AutomationEvent, t: u64)
    ensures
        events_at(insert_by_time(s, e), t) == if e.time_ms == t {
            events_at(s, t).push(e)
        } else {
            events_at(s, t)
        },
    decreases s.len(),
{
    if s.len() == 0 {
        let r = insert_by_time(s, e);
        assert(r == seq![e]);
        assert(r.drop_last() =~= s);
        assert(r.last() == e);
    } else if s.last().time_ms <= e.time_ms {
        let r = s.push(e);
        assert(insert_by_time(s, e) == r);
        assert(r.drop_last() =~= s);
        assert(r.last() == e);
    } else {
        lemma_insert_events_at(s.drop_last(), e, t);
        let inner = insert_by_time(s.drop_last(), e);
        let r = inner.push(s.last());
        assert(insert_by_time(s, e) == r);
        assert(r.drop_last() =~= inner);
        assert(r.last() == s.last());
        if s.last().time_ms == t {
            assert(e.time_ms != t);
        }
    }
}

/// Law: sorting is stable. For every instant `t`, the events stamped `t`
/// appear in the sorted timeline exactly as they appeared in the input:
/// ties keep their original relative order.
pub proof fn lemma_sort_by_time_stable(s: Seq<AutomationEvent>, t: u64)
    ensures
        events_at(sort_by_time(s), t) == events_at(s, t),
    decreases s.len(),
{
    if s.len() > 0 {
        lemma_sort_by_time_stable(s.drop_last(), t);
        lemma_insert_events_at(sort_by_time(s.drop_last()), s.last(), t);
    }
}

proof fn lemma_insert_position(s: Seq<AutomationEvent>, e: AutomationEvent, j: int)
    requires
        0 <= j <= s.len(),
        forall|k: int| j <= k < s.len() ==> (#[trigger] s[k]).time_ms > e.time_ms,
        j > 0 ==> s[j - 1].time_ms <= e.time_ms,
    ensures
        insert_by_time(s, e) == s.insert(j, e),
    decreases s.len(),
{
    if s.len() == 0 {
        assert(insert_by_time(s, e) =~= s.insert(0, e));
    } else if j == s.len() {
        assert(s.last().time_ms <= e.time_ms);
        assert(s.push(e) =~= s.insert(j, e));
    } else {
        assert(s[s.len() - 1].time_ms > e.time_ms);
        assert(forall|k: int|
            j <= k < s.drop_last().len() ==> (#[trigger] s.drop_last()[k]).time_ms > e.time_ms);
        lemma_insert_position(s.drop_last(), e, j);
        assert(s.drop_last().insert(j, e).push(s.last()) =~= s.insert(j, e));
    }
}

/// Sorts an automation timeline by `time_ms`, stably: events with equal
/// stamps keep their input order.
pub fn sort_events(events: Vec<AutomationEvent>) -> (r: Vec<AutomationEvent>)
    ensures
        r@ == sort_by_time(events@),
{
    let ghost orig: Seq<AutomationEvent> = events@;
    let mut rest = events;
    let mut out: Vec<AutomationEvent> = Vec::new();
    proof {
        assert(rest@ =~= orig.skip(0));
        assert(orig.take(0) =~= Seq::<AutomationEvent>::empty());
    }
    while rest.len() > 0
        invariant
            rest@.len() <= orig.len(),
            rest@ == orig.skip(orig.len() - rest@.len()),
            out@ == sort_by_time(orig.take(orig.len() - rest@.len())),
        decreases rest@.len(),
    {
        let ghost done: int = orig.len() - rest@.len();
        let e = rest.remove(0);
        proof {
            assert(0 <= done < orig.len());
            assert(orig.skip(done).remove(0) =~= orig.skip(done + 1));
            assert(e == orig[done]);
        }
        let mut j: usize = out.len();
        while j > 0 && out[j - 1].time_ms > e.time_ms
            invariant
                j <= out@.len(),
                forall|k: int| j <= k < out@.len() ==> (#[trigger] out@[k]).time_ms > e.time_ms,
            decreases j,
        {
            j = j - 1;
        }
        proof {
            lemma_insert_position(out@, e, j as int);
            assert(orig.take(done + 1).drop_last() =~= orig.take(done));
            assert(orig.take(done + 1).last() == orig[done]);
        }
        out.insert(j, e);
    }
    proof {
        assert(orig.take(orig.len() as int) =~= orig);
    }
    out
}

/// The state after applying every event of `evs` in order, front to back.
pub open spec fn apply_all(m: StateModel, evs: Seq<AutomationEvent>) -> StateModel
    decreases evs.len(),
{
    if evs.len() == 0 {
        m
    } else {
        apply_all(spec_apply(m, evs[0]), evs.drop_first())
    }
}

proof fn lemma_apply_all_push(m: StateModel, evs: Seq<AutomationEvent>, e: AutomationEvent)
    ensures
        apply_all(m, evs.push(e)) == spec_apply(apply_all(m, evs), e),
    decreases evs.len(),
{
    if evs.len() == 0 {
        assert(evs.push(e)[0] == e);
        assert(evs.push(e).drop_first() =~= evs);
        assert(apply_all(m, evs.push(e)) == apply_all(spec_apply(m, e), evs));
        assert(apply_all(spec_apply(m, e), evs) == spec_apply(m, e));
        assert(apply_all(m, evs) == m);
    } else {
        assert(evs.push(e)[0] == evs[0]);
        assert(evs.push(e).drop_first() =~= evs.drop_first().push(e));
        assert(apply_all(m, evs.push(e)) == apply_all(
            spec_apply(m, evs[0]),
            evs.drop_first().push(e),
        ));
        lemma_apply_all_push(spec_apply(m, evs[0]), evs.drop_first(), e);
        assert(apply_all(m, evs) == apply_all(spec_apply(m, evs[0]), evs.drop_first()));
    }
}

/// The sample clock: the whole millisecond reached at sample `i`.
pub open spec fn tick_of(i: int, rate: int) -> int {
    i * 1000 / rate
}

/// How many leading events of `s` are due at or before instant `t`.
pub open spec fn due_count(s: Seq<AutomationEvent>, t: int) -> int
    decreases s.len(),
{
    if s.len() > 0 && s[0].time_ms <= t {
        1 + due_count(s.drop_first(), t)
    } else {
        0
    }
}

proof fn lemma_due_count_is(s: Seq<AutomationEvent>, t: int, n: int)
    requires
        0 <= n <= s.len(),
        forall|k: int| 0 <= k < n ==> (#[trigger] s[k]).time_ms <= t,
        n == s.len() || s[n].time_ms > t,
    ensures
        due_count(s, t) == n,
    decreases s.len(),
{
    if n == 0 {
    } else {
        assert(s[0].time_ms <= t);
        assert(forall|k: int|
            0 <= k < n - 1 ==> (#[trigger] s.drop_first()[k]).time_ms == s[k + 1].time_ms);
        lemma_due_count_is(s.drop_first(), t, n - 1);
    }
}

/// The model in force while sample `i` is generated: the initial model
/// with every event due at or before sample `i`'s instant applied, in
/// timeline order.
pub open spec fn state_for_sample(
    init: StateModel,
    timeline: Seq<AutomationEvent>,
    i: int,
    rate: int,
) -> StateModel {
    apply_all(init, timeline.take(due_count(timeline, tick_of(i, rate))))
}

/// The total sample count of a render: `duration_ms * sample_rate / 1000`,
/// rounded down.
pub open spec fn spec_total_samples(duration_ms: int, sample_rate: int) -> int {
    duration_ms * sample_rate / 1000
}

/// The snapshot the offline path takes for one sample: like the live
/// snapshot, but the final-stage scale is the model's own clip amount.
pub open spec fn offline_params(m: StateModel) -> SampleParams {
    params_of(m, m.global.clip_amount)
}

/// Reads one offline per-sample snapshot from the model.
pub fn offline_snapshot(state: &SynthState) -> (p: SampleParams)
    ensures
        p == offline_params(state@),
{
    SampleParams {
        wave: wave_kind(state.oscillator.waveform.as_str()),
        tune: state.oscillator.tune,
        level: state.oscillator.level,
        cutoff: state.filter.cutoff,
        resonance: state.filter.resonance,
        master: state.mixer.master,
        scale: state.global.clip_amount,
    }
}

/// Every snapshot a render of these inputs consists of, in order: sample
/// `i` sees the sorted timeline's due prefix applied to the initial model.
pub open spec fn snapshot_schedule(
    init: StateModel,
    events: Seq<AutomationEvent>,
    duration_ms: int,
    rate: int,
) -> Seq<SampleParams> {
    Seq::new(
        spec_total_samples(duration_ms, rate) as nat,
        |i: int| offline_params(state_for_sample(init, sort_by_time(events), i, rate)),
    )
}

/// Law: offline rendering is deterministic. The full snapshot sequence a
/// render consumes is returned here as one value, and it equals
/// [`snapshot_schedule`], a pure function of the model, the events, the
/// duration and the rate alone — so two renders of equal inputs consume
/// identical snapshots and write identical samples.
pub fn render_schedule(
    state: SynthState,
    events: Vec<AutomationEvent>,
    duration_ms: u64,
    sample_rate: u32,
) -> (r: Vec<SampleParams>)
    requires
        duration_ms as int * sample_rate as int <= u64::MAX as int,
    ensures
        r@ == snapshot_schedule(state@, events@, duration_ms as int, sample_rate as int),
{
    let ghost init_m: StateModel = state@;
    let ghost evs: Seq<AutomationEvent> = events@;
    let mut plan = RenderPlan::new(state, events, duration_ms, sample_rate);
    let n = plan.total_samples();
    let mut out: Vec<SampleParams> = Vec::new();
    let mut k: u64 = 0;
    while k < n
        invariant
            plan.wf(),
            plan.initial() == init_m,
            plan.timeline() == sort_by_time(evs),
            plan.rate() == sample_rate as int,
            plan.planned() == n as int,
            n as int == spec_total_samples(duration_ms as int, sample_rate as int),
            plan.produced() == k as int,
            out@.len() == k as int,
            forall|i: int|
                0 <= i < k as int ==> out@[i] == offline_params(
                    state_for_sample(init_m, sort_by_time(evs), i, sample_rate as int),
                ),
        decreases n - k,
    {
        let p = plan.next().unwrap();
        out.push(p);
        k = k + 1;
    }
    proof {
        assert(out@ =~= snapshot_schedule(init_m, evs, duration_ms as int, sample_rate as int));
    }
    out
}

/// One offline render in progress: a private copy of the model, the sorted
/// timeline, and the sample clock. Drive it with [`RenderPlan::next`] once
/// per sample; concurrent edits to the live model cannot reach it, so the
/// snapshot sequence is a pure function of the four construction inputs.
pub struct RenderPlan {
    state: SynthState,
    events: Vec<AutomationEvent>,
    next_event: usize,
    sample_index: u64,
    total: u64,
    sample_rate: u32,
    init: Ghost<StateModel>,
}

impl RenderPlan {
    /// The model the render started from.
    pub closed spec fn initial(&self) -> StateModel {
        self.init@
    }

    /// The sorted timeline the render replays.
    pub closed spec fn timeline(&self) -> Seq<AutomationEvent> {
        self.events@
    }

    /// How many samples have been handed out.
    pub closed spec fn produced(&self) -> int {
        self.sample_index as int
    }

    /// How many samples the render consists of.
    pub closed spec fn planned(&self) -> int {
        self.total as int
    }

    /// The output sample rate.
    pub closed spec fn rate(&self) -> int {
        self.sample_rate as int
    }

    /// The plan's internal consistency: the timeline is sorted, the clock
    /// has not passed the end, and the private model equals the initial
    /// model with exactly the already-due prefix of the timeline applied.
    pub closed spec fn wf(&self) -> bool {
        &&& sorted_by_time(self.events@)
        &&& self.next_event <= self.events@.len()
        &&& self.sample_index <= self.total
        &&& (self.total as int) * 1000 <= u64::MAX as int
        &&& (self.total > 0 ==> self.sample_rate > 0)
        &&& self.state@ == apply_all(self.init@, self.events@.take(self.next_event as int))
        &&& (self.sample_index == 0 ==> self.next_event == 0)
        &&& (forall|k: int|
            0 <= k < self.next_event ==> self.sample_index > 0 && (#[trigger] self.events@[k]).time_ms
                <= tick_of(self.sample_index - 1, self.sample_rate as int))
    }

    /// Starts a render: takes a private copy of the model, sorts the
    /// timeline stably by `time_ms`, and fixes the sample count to
    /// `duration_ms * sample_rate / 1000`.
    pub fn new(
        state: SynthState,
        events: Vec<AutomationEvent>,
        duration_ms: u64,
        sample_rate: u32,
    ) -> (plan: RenderPlan)
        requires
            duration_ms as int * sample_rate as int <= u64::MAX as int,
        ensures
            plan.wf(),
            plan.initial() == state@,
            plan.timeline() == sort_by_time(events@),
            plan.produced() == 0,
            plan.planned() == spec_total_samples(duration_ms as int, sample_rate as int),
            plan.rate() == sample_rate as int,
    {
        let ghost m: StateModel = state@;
        let total: u64 = (duration_ms * (sample_rate as u64)) / 1000;
        let sorted = sort_events(events);
        proof {
            lemma_sort_by_time_sorted(events@);
            assert((duration_ms as int * sample_rate as int) / 1000 * 1000 <= duration_ms as int
                * sample_rate as int) by (nonlinear_arith);
            assert(total > 0 ==> sample_rate > 0) by (nonlinear_arith)
                requires
                    total as int == duration_ms as int * sample_rate as int / 1000,
            ;
            assert(sort_by_time(events@).take(0) =~= Seq::<AutomationEvent>::empty());
        }
        RenderPlan {
            state,
            events: sorted,
            next_event: 0,
            sample_index: 0,
            total,
            sample_rate,
            init: Ghost(m),
        }
    }

    /// The render's total sample count.
    pub fn total_samples(&self) -> (r: u64)
        ensures
            r as int == self.planned(),
    {
        self.total
    }

    /// Hands out the parameter snapshot for the next sample, after applying
    /// every newly due event to the private model; `None` once all samples
    /// have been produced. The snapshot equals [`offline_params`] of
    /// [`state_for_sample`] at the sample's index: a pure function of the
    /// construction inputs, which is what makes renders reproducible.
    pub fn next(&mut self) -> (r: Option<SampleParams>)
        requires
            old(self).wf(),
        ensures
            final(self).wf(),
            final(self).initial() == old(self).initial(),
            final(self).timeline() == old(self).timeline(),
            final(self).planned() == old(self).planned(),
            final(self).rate() == old(self).rate(),
            old(self).produced() < old(self).planned() ==> {
                &&& final(self).produced() == old(self).produced() + 1
                &&& r matches Some(p) && p == offline_params(
                    state_for_sample(
                        old(self).initial(),
                        old(self).timeline(),
                        old(self).produced(),
                        old(self).rate(),
                    ),
                )
            },
            old(self).produced() >= old(self).planned() ==> r is None && *final(self) == *old(
                self,
            ),
    {
        if self.sample_index >= self.total {
            return None;
        }
        let i = self.sample_index;
        let t: u64 = (i * 1000) / (self.sample_rate as u64);
        let ghost evs = self.events@;
        let ghost init_m = self.init@;
        let ghost total0 = self.total;
        let ghost rate0 = self.sample_rate;
        proof {
            assert(t as int == tick_of(i as int, rate0 as int));
            if i > 0 {
                lemma_div_is_ordered((i - 1) as int * 1000, i as int * 1000, rate0 as int);
            }
        }
        while self.next_event < self.events.len() && self.events[self.next_event].time_ms <= t
            invariant
                self.events@ == evs,
                self.init@ == init_m,
                self.total == total0,
                self.sample_rate == rate0,
                self.sample_index == i,
                sorted_by_time(evs),
                self.next_event <= evs.len(),
                self.state@ == apply_all(init_m, evs.take(self.next_event as int)),
                forall|k: int| 0 <= k < self.next_event ==> (#[trigger] evs[k]).time_ms <= t,
            decreases evs.len() - self.next_event,
        {
            let idx = self.next_event;
            apply_event(&mut self.state, &self.events[idx]);
            self.next_event = idx + 1;
            proof {
                assert(evs.take(idx + 1) =~= evs.take(idx as int).push(evs[idx as int]));
                lemma_apply_all_push(init_m, evs.take(idx as int), evs[idx as int]);
            }
        }
        proof {
            lemma_due_count_is(evs, t as int, self.next_event as int);
            assert(evs.take(due_count(evs, tick_of(i as int, rate0 as int))) == evs.take(
                self.next_event as int,
            ));
        }
        let p = offline_snapshot(&self.state);
        self.sample_index = i + 1;
        Some(p)
    }
}

} // verus!
