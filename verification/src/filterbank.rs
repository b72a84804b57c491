//! The filter bank: one stage per note of the piano range, in ascending note
//! order, and the twelve pitch-class weights that colour its output.

use vstd::prelude::*;
use crate::notes::{
    in_bank_range, pitch_class, pitch_class_of, HIGHEST_NOTE, LOWEST_NOTE, NOTE_COUNT,
    PITCH_CLASSES,
};
use crate::rate::SampleRate;

verus! {

/// The MIDI note that the stage at position `i` of a bank is tuned to.
pub open spec fn note_at(i: int) -> int {
    LOWEST_NOTE + i
}

/// Whether `make` may be asked for the stage of every note of a bank running
/// at `rate`.
pub open spec fn makes_every_stage<S, F: Fn(u8, SampleRate) -> S>(
    make: &F,
    rate: SampleRate,
) -> bool {
    forall|midi: u8| in_bank_range(midi as int) ==> #[trigger] make.requires((midi, rate))
}

/// Whether `step` gives one result for each argument: the same running
/// value, stage, weight and input always lead to the same next running value
/// and the same advanced stage.
pub open spec fn step_is_deterministic<S, W, X, A, F: Fn(A, S, W, X) -> (A, S)>(
    step: &F,
) -> bool {
    forall|a: A, s: S, w: W, x: X, one: (A, S), other: (A, S)|
        #[trigger] step.ensures((a, s, w, x), one) && #[trigger] step.ensures((a, s, w, x), other)
            ==> one == other
}

/// Whether the stage that `step` gives back depends on nothing but the stage
/// and the input it was handed: not on the running value, not on the weight.
pub open spec fn advance_ignores_weight<S, W, X, A, F: Fn(A, S, W, X) -> (A, S)>(
    step: &F,
) -> bool {
    forall|a: A, b: A, s: S, v: W, w: W, x: X, one: (A, S), other: (A, S)|
        #[trigger] step.ensures((a, s, v, x), one) && #[trigger] step.ensures((b, s, w, x), other)
            ==> one.1 == other.1
}

/// A bank of resonant stages with a weight for each pitch class.
///
/// `S` is the state of one stage and `W` one weight; the bank never looks
/// inside either. It keeps the stages in ascending note order, remembers the
/// pitch class of each, and pairs every stage with the weight of its class.
pub struct FilterBank<S, W> {
    filters: Vec<(u8, S)>,
    gains: [W; 12],
}

impl<S: Copy, W: Copy> FilterBank<S, W> {
    /// The stages, in ascending note order.
    pub closed spec fn stages(&self) -> Seq<S> {
        Seq::new(self.filters@.len(), |i: int| self.filters@[i].1)
    }

    /// The pitch-class weights, index 0 = C .. 11 = B.
    pub closed spec fn weights(&self) -> Seq<W> {
        self.gains@
    }

    /// Every stage carries the pitch class of its note.
    pub closed spec fn tagged(&self) -> bool {
        forall|i: int|
            0 <= i < self.filters@.len() ==> (#[trigger] self.filters@[i]).0 as int
                == pitch_class_of(note_at(i))
    }

    /// A bank holds exactly one stage per note from C0 to B8 and twelve
    /// weights.
    pub open spec fn wf(&self) -> bool {
        &&& self.tagged()
        &&& self.stages().len() == NOTE_COUNT
        &&& self.weights().len() == PITCH_CLASSES
    }

    /// The weight that applies to the stage at position `i`: that of the
    /// pitch class of its note.
    pub open spec fn weight_of(&self, i: int) -> W {
        self.weights()[pitch_class_of(note_at(i))]
    }

    /// Whether the bank is as `new` leaves it: every stage is one that `make`
    /// gives for its note at `rate`, and the weights are `gains`.
    pub open spec fn built_by<F: Fn(u8, SampleRate) -> S>(
        &self,
        rate: SampleRate,
        gains: Seq<W>,
        make: &F,
    ) -> bool {
        &&& self.wf()
        &&& self.weights() == gains
        &&& forall|i: int|
            0 <= i < NOTE_COUNT ==> make.ensures(
                (note_at(i) as u8, rate),
                #[trigger] self.stages()[i],
            )
    }

    /// Builds the bank for `rate`: one stage per MIDI note from 12 to 119, each
    /// made by `make` from its note, with `gains` as the initial weights.
    ///
    /// The bank has the same 108 stages at every rate. A note whose frequency
    /// lies at or above half the sample rate gets a stage all the same; to
    /// keep the rate high enough for the notes that matter is up to the
    /// caller.
    pub fn new<F: Fn(u8, SampleRate) -> S>(
        rate: SampleRate,
        gains: [W; 12],
        make: &F,
    ) -> (bank: Self)
        requires
            makes_every_stage(make, rate),
        ensures
            bank.built_by(rate, gains@, make),
            bank.stages().len() == NOTE_COUNT,
    {
        let mut filters: Vec<(u8, S)> = Vec::with_capacity(NOTE_COUNT);
        let mut midi: u8 = LOWEST_NOTE;
        while midi <= HIGHEST_NOTE
            invariant
                LOWEST_NOTE <= midi <= HIGHEST_NOTE + 1,
                filters@.len() == midi - LOWEST_NOTE,
                makes_every_stage(make, rate),
                forall|i: int|
                    0 <= i < filters@.len() ==> (#[trigger] filters@[i]).0 as int
                        == pitch_class_of(note_at(i)),
                forall|i: int|
                    0 <= i < filters@.len() ==> make.ensures(
                        (note_at(i) as u8, rate),
                        (#[trigger] filters@[i]).1,
                    ),
            decreases HIGHEST_NOTE + 1 - midi,
        {
            let stage = make(midi, rate);
            filters.push((pitch_class(midi), stage));
            midi = midi + 1;
        }
        FilterBank { filters, gains }
    }

    /// Replaces the whole weight vector at once. No stage is touched.
    pub fn set_gains(&mut self, gains: [W; 12])
        requires
            old(self).wf(),
        ensures
            final(self).wf(),
            final(self).weights() == gains@,
            final(self).stages() == old(self).stages(),
    {
        self.gains = gains;
    }

    /// The current weight vector.
    pub fn gains(&self) -> (gains: [W; 12])
        ensures
            gains@ == self.weights(),
    {
        self.gains
    }

    /// The number of stages in the bank.
    pub fn len(&self) -> (count: usize)
        requires
            self.wf(),
        ensures
            count == NOTE_COUNT,
            count == self.stages().len(),
    {
        self.filters.len()
    }

    /// The pitch class of the stage at position `i`, if the bank has one there.
    pub fn pitch_class_at(&self, i: usize) -> (class: Option<u8>)
        requires
            self.wf(),
        ensures
            class is Some <==> i < NOTE_COUNT,
            class matches Some(c) ==> c as int == pitch_class_of(note_at(i as int)) && c < 12,
    {
        if i < self.filters.len() {
            Some(self.filters[i].0)
        } else {
            None
        }
    }

    /// The stage at position `i`, if the bank has one there.
    pub fn stage_at(&self, i: usize) -> (stage: Option<S>)
        requires
            self.wf(),
        ensures
            stage is Some <==> i < NOTE_COUNT,
            stage matches Some(s) ==> s == self.stages()[i as int],
    {
        if i < self.filters.len() {
            Some(self.filters[i].1)
        } else {
            None
        }
    }

    /// Whether `step` may be called on every stage of the bank with the weight
    /// of its pitch class and the sample `input`, whatever the running value.
    pub open spec fn steps_with<X, A, F: Fn(A, S, W, X) -> (A, S)>(
        &self,
        step: &F,
        input: X,
    ) -> bool {
        forall|a: A, i: int|
            0 <= i < NOTE_COUNT ==> #[trigger] step.requires(
                (a, self.stages()[i], self.weight_of(i), input),
            )
    }

    /// Whether `trace` records the processing of the sample `input` that took
    /// the bank from `self` to `after`: step `i` turned the running value
    /// `trace[i]`, the stage at position `i`, the weight of its pitch class and
    /// the input into `trace[i + 1]` and the stage that `after` holds at that
    /// position.
    pub open spec fn stepped_to<X, A, F: Fn(A, S, W, X) -> (A, S)>(
        &self,
        after: &Self,
        step: &F,
        input: X,
        trace: Seq<A>,
    ) -> bool {
        &&& trace.len() == NOTE_COUNT + 1
        &&& forall|i: int|
            0 <= i < NOTE_COUNT ==> step.ensures(
                (trace[i], self.stages()[i], self.weight_of(i), input),
                (trace[i + 1], #[trigger] after.stages()[i]),
            )
    }

    /// Whether processing the sample `input` can take the bank from `self` to
    /// `after` and turn the running value `init` into `result`: some record of
    /// one step per stage, in ascending note order, leads from the one to the
    /// other.
    pub open spec fn processed<X, A, F: Fn(A, S, W, X) -> (A, S)>(
        &self,
        after: &Self,
        step: &F,
        input: X,
        init: A,
        result: A,
    ) -> bool {
        exists|trace: Seq<A>|
            trace[0] == init && trace[NOTE_COUNT as int] == result && #[trigger] self.stepped_to(
                after,
                step,
                input,
                trace,
            )
    }

    /// Processes one sample: runs every stage of the bank once on `input`, in
    /// ascending note order, threading a running value through. `step` is
    /// handed the running value, the stage, the weight of the stage's pitch
    /// class and the input, and gives back the next running value and the
    /// advanced stage, which replaces the old one. The result is the running
    /// value after the last stage.
    ///
    /// No stage is ever skipped, whatever its weight, so the memory of every
    /// stage follows the whole input. The weights are those in force when the
    /// call begins and are left as they are.
    pub fn process_sample<X: Copy, A, F: Fn(A, S, W, X) -> (A, S)>(
        &mut self,
        input: X,
        init: A,
        step: &F,
    ) -> (acc: A)
        requires
            old(self).wf(),
            old(self).steps_with(step, input),
        ensures
            final(self).wf(),
            final(self).weights() == old(self).weights(),
            old(self).processed(final(self), step, input, init, acc),
    {
        let ghost before = *self;
        let ghost mut trace: Seq<A> = seq![init];
        let mut acc = init;
        let mut i: usize = 0;
        while i < NOTE_COUNT
            invariant
                i <= NOTE_COUNT,
                before.wf(),
                self.filters@.len() == NOTE_COUNT,
                self.tagged(),
                self.gains == before.gains,
                before.steps_with(step, input),
                trace.len() == i + 1,
                trace[0] == init,
                trace[i as int] == acc,
                forall|j: int| i <= j < NOTE_COUNT ==> self.filters@[j] == before.filters@[j],
                forall|j: int|
                    0 <= j < i ==> step.ensures(
                        (trace[j], before.stages()[j], before.weight_of(j), input),
                        (trace[j + 1], (#[trigger] self.filters@[j]).1),
                    ),
            decreases NOTE_COUNT - i,
        {
            let (class, stage) = self.filters[i];
            let weight = self.gains[class as usize];
            let (next, advanced) = step(acc, stage, weight, input);
            self.filters.set(i, (class, advanced));
            acc = next;
            proof {
                trace = trace.push(acc);
            }
            i = i + 1;
        }
        proof {
            assert(before.stepped_to(self, step, input, trace));
        }
        acc
    }

    /// The first `k` steps of a record pass the running value on unchanged,
    /// if `step` passes it on under every weight of the bank.
    proof fn passed_on_up_to<X, A, F: Fn(A, S, W, X) -> (A, S)>(
        before: Self,
        after: Self,
        step: &F,
        input: X,
        trace: Seq<A>,
        is_null: spec_fn(W) -> bool,
        k: int,
    )
        requires
            before.wf(),
            before.stepped_to(&after, step, input, trace),
            forall|class: int| 0 <= class < PITCH_CLASSES ==> is_null(before.weights()[class]),
            forall|a: A, s: S, w: W, r: (A, S)|
                is_null(w) && #[trigger] step.ensures((a, s, w, input), r) ==> r.0 == a,
            0 <= k <= NOTE_COUNT,
        ensures
            trace[k] == trace[0],
        decreases k,
    {
        if k > 0 {
            let i = k - 1;
            Self::passed_on_up_to(before, after, step, input, trace, is_null, i);
            assert(step.ensures(
                (trace[i], before.stages()[i], before.weight_of(i), input),
                (trace[i + 1], after.stages()[i]),
            ));
        }
    }

    /// With every weight null, nothing is added. Call a weight null if `step`
    /// passes the running value on unchanged under it. If every weight of the
    /// bank is null, the result of a sample is the initial running value,
    /// whatever the input and whatever the stages hold.
    pub proof fn null_weights_add_nothing<X, A, F: Fn(A, S, W, X) -> (A, S)>(
        before: Self,
        after: Self,
        step: &F,
        input: X,
        init: A,
        result: A,
        is_null: spec_fn(W) -> bool,
    )
        requires
            before.wf(),
            before.processed(&after, step, input, init, result),
            forall|class: int| 0 <= class < PITCH_CLASSES ==> is_null(before.weights()[class]),
            forall|a: A, s: S, w: W, r: (A, S)|
                is_null(w) && #[trigger] step.ensures((a, s, w, input), r) ==> r.0 == a,
        ensures
            result == init,
    {
        let trace = choose|trace: Seq<A>|
            trace[0] == init && trace[NOTE_COUNT as int] == result && #[trigger] before.stepped_to(
                &after,
                step,
                input,
                trace,
            );
        Self::passed_on_up_to(before, after, step, input, trace, is_null, NOTE_COUNT as int);
    }

    /// The first `k` steps of a record of a silent sample on a bank at rest
    /// pass the running value on unchanged and leave their stages at rest.
    proof fn at_rest_up_to<X, A, F: Fn(A, S, W, X) -> (A, S)>(
        before: Self,
        after: Self,
        step: &F,
        silence: X,
        trace: Seq<A>,
        at_rest: spec_fn(S) -> bool,
        k: int,
    )
        requires
            before.stepped_to(&after, step, silence, trace),
            forall|i: int| 0 <= i < NOTE_COUNT ==> at_rest(#[trigger] before.stages()[i]),
            forall|a: A, s: S, w: W, r: (A, S)|
                at_rest(s) && #[trigger] step.ensures((a, s, w, silence), r) ==> r.0 == a
                    && at_rest(r.1),
            0 <= k <= NOTE_COUNT,
        ensures
            trace[k] == trace[0],
            forall|i: int| 0 <= i < k ==> at_rest(#[trigger] after.stages()[i]),
        decreases k,
    {
        if k > 0 {
            let i = k - 1;
            Self::at_rest_up_to(before, after, step, silence, trace, at_rest, i);
            assert(step.ensures(
                (trace[i], before.stages()[i], before.weight_of(i), silence),
                (trace[i + 1], after.stages()[i]),
            ));
        }
    }

    /// Silence in, silence out. Call a stage at rest, and an input silent, if
    /// `step` on such a stage and such an input passes the running value on
    /// unchanged and leaves the stage at rest. A bank whose stages are all at
    /// rest answers a silent sample with the initial running value and stays
    /// at rest, whatever its weights.
    pub proof fn silence_leaves_a_resting_bank_at_rest<X, A, F: Fn(A, S, W, X) -> (A, S)>(
        before: Self,
        after: Self,
        step: &F,
        silence: X,
        init: A,
        result: A,
        at_rest: spec_fn(S) -> bool,
    )
        requires
            before.processed(&after, step, silence, init, result),
            forall|i: int| 0 <= i < NOTE_COUNT ==> at_rest(#[trigger] before.stages()[i]),
            forall|a: A, s: S, w: W, r: (A, S)|
                at_rest(s) && #[trigger] step.ensures((a, s, w, silence), r) ==> r.0 == a
                    && at_rest(r.1),
        ensures
            result == init,
            forall|i: int| 0 <= i < NOTE_COUNT ==> at_rest(#[trigger] after.stages()[i]),
    {
        let trace = choose|trace: Seq<A>|
            trace[0] == init && trace[NOTE_COUNT as int] == result && #[trigger] before.stepped_to(
                &after,
                step,
                silence,
                trace,
            );
        Self::at_rest_up_to(before, after, step, silence, trace, at_rest, NOTE_COUNT as int);
    }

    /// A change of weights does not reach back. If a sample took the bank
    /// from `before` to `after`, and `changed` is `after` with nothing but its
    /// weights replaced, then what was said of the sample still holds: the
    /// stages stand where it left them, and every step was weighted with the
    /// weights in force before the change.
    pub proof fn weights_changed_later_keep_the_record<X, A, F: Fn(A, S, W, X) -> (A, S)>(
        before: Self,
        after: Self,
        changed: Self,
        step: &F,
        input: X,
        init: A,
        result: A,
    )
        requires
            before.processed(&after, step, input, init, result),
            changed.stages() == after.stages(),
        ensures
            before.processed(&changed, step, input, init, result),
    {
        let trace = choose|trace: Seq<A>|
            trace[0] == init && trace[NOTE_COUNT as int] == result && #[trigger] before.stepped_to(
                &after,
                step,
                input,
                trace,
            );
        assert(before.stepped_to(&changed, step, input, trace));
    }

    /// Weights never reach the memory of a stage. If the next state of a stage
    /// under `step` depends on nothing but the stage and the input, two banks
    /// with the same stages are left with the same stages by the same sample,
    /// whatever their weights and whatever the running values: a stage whose
    /// weight is raised later has followed the input all along.
    pub proof fn stage_memory_ignores_weights<X, A, F: Fn(A, S, W, X) -> (A, S)>(
        one: Self,
        other: Self,
        one_after: Self,
        other_after: Self,
        step: &F,
        input: X,
        one_init: A,
        other_init: A,
        one_result: A,
        other_result: A,
    )
        requires
            advance_ignores_weight(step),
            one.stages() == other.stages(),
            one.processed(&one_after, step, input, one_init, one_result),
            other.processed(&other_after, step, input, other_init, other_result),
            one_after.wf(),
            other_after.wf(),
        ensures
            one_after.stages() == other_after.stages(),
    {
        let one_trace = choose|trace: Seq<A>|
            trace[0] == one_init && trace[NOTE_COUNT as int] == one_result
                && #[trigger] one.stepped_to(&one_after, step, input, trace);
        let other_trace = choose|trace: Seq<A>|
            trace[0] == other_init && trace[NOTE_COUNT as int] == other_result
                && #[trigger] other.stepped_to(&other_after, step, input, trace);
        assert forall|i: int| 0 <= i < NOTE_COUNT implies one_after.stages()[i]
            == other_after.stages()[i] by {
            assert(step.ensures(
                (one_trace[i], one.stages()[i], one.weight_of(i), input),
                (one_trace[i + 1], one_after.stages()[i]),
            ));
            assert(step.ensures(
                (other_trace[i], other.stages()[i], other.weight_of(i), input),
                (other_trace[i + 1], other_after.stages()[i]),
            ));
        }
    }

    /// Two records of the same sample agree up to step `k`, if `step` gives one
    /// result for each argument.
    proof fn records_agree_up_to<X, A, F: Fn(A, S, W, X) -> (A, S)>(
        before: Self,
        one_after: Self,
        other_after: Self,
        step: &F,
        input: X,
        one_trace: Seq<A>,
        other_trace: Seq<A>,
        k: int,
    )
        requires
            step_is_deterministic(step),
            before.stepped_to(&one_after, step, input, one_trace),
            before.stepped_to(&other_after, step, input, other_trace),
            one_trace[0] == other_trace[0],
            0 <= k <= NOTE_COUNT,
        ensures
            one_trace[k] == other_trace[k],
            forall|i: int| 0 <= i < k ==> one_after.stages()[i] == other_after.stages()[i],
        decreases k,
    {
        if k > 0 {
            let i = k - 1;
            Self::records_agree_up_to(
                before,
                one_after,
                other_after,
                step,
                input,
                one_trace,
                other_trace,
                i,
            );
            assert(step.ensures(
                (one_trace[i], before.stages()[i], before.weight_of(i), input),
                (one_trace[i + 1], one_after.stages()[i]),
            ));
            assert(step.ensures(
                (other_trace[i], before.stages()[i], before.weight_of(i), input),
                (other_trace[i + 1], other_after.stages()[i]),
            ));
        }
    }

    /// Processing is reproducible. If `step` gives one result for each
    /// argument, then the stages, the weights, the input and the initial
    /// running value determine the result and every stage that the sample
    /// leaves behind.
    pub proof fn process_sample_is_reproducible<X, A, F: Fn(A, S, W, X) -> (A, S)>(
        before: Self,
        one_after: Self,
        other_after: Self,
        step: &F,
        input: X,
        init: A,
        one_result: A,
        other_result: A,
    )
        requires
            step_is_deterministic(step),
            before.processed(&one_after, step, input, init, one_result),
            before.processed(&other_after, step, input, init, other_result),
            one_after.wf(),
            other_after.wf(),
        ensures
            one_result == other_result,
            one_after.stages() == other_after.stages(),
    {
        let one_trace = choose|trace: Seq<A>|
            trace[0] == init && trace[NOTE_COUNT as int] == one_result
                && #[trigger] before.stepped_to(&one_after, step, input, trace);
        let other_trace = choose|trace: Seq<A>|
            trace[0] == init && trace[NOTE_COUNT as int] == other_result
                && #[trigger] before.stepped_to(&other_after, step, input, trace);
        Self::records_agree_up_to(
            before,
            one_after,
            other_after,
            step,
            input,
            one_trace,
            other_trace,
            NOTE_COUNT as int,
        );
    }
}

} // verus!
