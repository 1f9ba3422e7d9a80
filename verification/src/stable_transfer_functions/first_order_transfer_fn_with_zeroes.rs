//! The part of a first-order transfer function that its zero adds:
//! `Kp [1 - 1 / (tau s + 1)]`.
use crate::errors::{
    ChemEngProcessControlSimulatorError,
    in_range,
    out_of_range,
    SimulatorResult,
    unstable,
};
use crate::fixed_point::{checked_difference, fits, lemma_round_div_odd, NANO, scaled_product, unit};
use crate::kernel::{answers, callable, KernelReading, KernelRelation, relation_of, Transcendental};
use crate::quantities::{Ratio, Time};
use crate::stable_transfer_functions::first_order_transfer_fn::FirstOrderResponse;
use crate::stable_transfer_functions::step_fn::StepFunction;
use crate::superposition::{
    all_wf,
    ElementaryResponse,
    SuperpositionAccumulator,
    SuperpositionModel,
};
use vstd::prelude::*;

verus! {

/// The transfer function `Kp tau s / (tau s + 1) = Kp [1 - 1 / (tau s + 1)]`:
/// to every change of its input it answers with a step of height `Kp` and a
/// first-order rise of gain `-Kp`, so that the answer jumps and then decays.
#[derive(Debug, PartialEq, PartialOrd, Clone)]
pub struct FirstOrderStableTransferFnForZeroes {
    pub process_gain: Ratio,
    pub process_time: Time,
    /// Last input, offset, dead time and the steps and rises that are still
    /// moving.
    pub accumulator: SuperpositionAccumulator,
}

impl FirstOrderStableTransferFnForZeroes {
    /// The time constant is positive, the gain can be negated and the
    /// accumulator is well formed.
    pub open spec fn wf(&self) -> bool {
        &&& self.process_time@ > 0
        &&& fits(-self.process_gain@)
        &&& self.accumulator.wf()
    }

    /// The rise of gain `-Kp` that answers a change of the input to `input` at `t`.
    pub open spec fn rise(&self, t: Time, input: Ratio) -> FirstOrderResponse {
        FirstOrderResponse {
            process_gain: Ratio { nano: (-self.process_gain@) as i64 },
            process_time: self.process_time,
            start_time: Time { nano: self.accumulator@.start(t) as i64 },
            user_input: Ratio { nano: self.accumulator@.increment(input) as i64 },
            current_time: t,
        }
    }

    /// The step of height `Kp` that answers a change of the input to `input` at `t`.
    pub open spec fn jump(&self, t: Time, input: Ratio) -> StepFunction {
        StepFunction {
            process_gain: self.process_gain,
            start_time: Time { nano: self.accumulator@.start(t) as i64 },
            user_input: Ratio { nano: self.accumulator@.increment(input) as i64 },
            current_time: t,
        }
    }

    /// The responses that an input `input` at `t` spawns: the rise and the
    /// step where the input has changed, none where it has not.
    pub open spec fn spawned(&self, t: Time, input: Ratio) -> Seq<ElementaryResponse> {
        if self.accumulator.changed(input) {
            seq![
                ElementaryResponse::FirstOrder(self.rise(t, input)),
                ElementaryResponse::Step(self.jump(t, input)),
            ]
        } else {
            Seq::empty()
        }
    }

    /// The increment, the start time and the final values of the spawned
    /// responses can be stored.
    pub open spec fn spawn_defined(&self, t: Time, input: Ratio) -> bool {
        self.accumulator.changed(input) ==> {
            &&& fits(self.accumulator@.increment(input))
            &&& fits(self.accumulator@.start(t))
            &&& self.rise(t, input).wf()
            &&& self.jump(t, input).wf()
        }
    }

    /// `Kp [1 - 1 / (tau s + 1)]` with dead time `delay`.  Fails with the
    /// stability error where `process_time <= 0`, else with the range error
    /// where `-process_gain` cannot be stored.
    pub fn new(
        process_gain: Ratio,
        process_time: Time,
        initial_input: Ratio,
        initial_value: Ratio,
        delay: Time,
    ) -> (r: SimulatorResult<Self>)
        ensures
            r is Ok <==> process_time@ > 0 && fits(-process_gain@),
            r matches Ok(tf) ==> {
                &&& tf.wf()
                &&& tf.process_gain == process_gain
                &&& tf.process_time == process_time
                &&& tf.accumulator.previous_timestep_input == initial_input
                &&& tf.accumulator.offset == initial_value
                &&& tf.accumulator.delay == delay
                &&& tf.accumulator.responses@.len() == 0
            },
            process_time@ <= 0 ==> r == unstable::<Self>(),
            process_time@ > 0 && r is Err ==> r == out_of_range::<Self>(),
    {
        if process_time.nano <= 0 {
            return Err(
                ChemEngProcessControlSimulatorError::UnstableDampingFactorForStableTransferFunction,
            );
        }
        let _negated: i64 = in_range(checked_difference(0, process_gain.nano))?;
        Ok(
            FirstOrderStableTransferFnForZeroes {
                process_gain,
                process_time,
                accumulator: SuperpositionAccumulator::new(initial_input, initial_value, delay),
            },
        )
    }

    /// Whether the value is well formed: what every other function asks
    /// of it.
    pub fn is_well_formed(&self) -> (b: bool)
        ensures
            b == self.wf(),
    {
        self.process_time.nano > 0 && checked_difference(0, self.process_gain.nano).is_some()
            && self.accumulator.is_well_formed()
    }

    /// The responses that an input `current_input` at `current_time` spawns.
    pub fn spawn(
        &self,
        current_time: Time,
        current_input: Ratio,
    ) -> (r: SimulatorResult<Vec<ElementaryResponse>>)
        requires
            self.wf(),
        ensures
            r is Ok <==> self.spawn_defined(current_time, current_input),
            r matches Ok(v) ==> v@ == self.spawned(current_time, current_input) && all_wf(v@),
            r is Err ==> r == out_of_range::<Vec<ElementaryResponse>>(),
    {
        let mut spawned: Vec<ElementaryResponse> = Vec::new();
        if self.accumulator.input_changed(current_input) {
            let user_input = self.accumulator.input_increment(current_input)?;
            let start_time = self.accumulator.start_time(current_time)?;
            let rise = FirstOrderResponse::new(
                Ratio { nano: 0 - self.process_gain.nano },
                self.process_time,
                start_time,
                user_input,
                current_time,
            )?;
            let jump = StepFunction::new(self.process_gain, start_time, user_input, current_time)?;
            spawned.push(ElementaryResponse::FirstOrder(rise));
            spawned.push(ElementaryResponse::Step(jump));
        }
        Ok(spawned)
    }

    /// `after` is this transfer function with its accumulator replaced by
    /// one that holds `accumulator`.
    pub open spec fn moved_to(&self, after: &Self, accumulator: SuperpositionModel) -> bool {
        &&& after.process_gain == self.process_gain
        &&& after.process_time == self.process_time
        &&& after.accumulator@ == accumulator
    }

    /// This transfer function with `accumulator` in place of its own.
    pub fn with_accumulator(&self, accumulator: SuperpositionAccumulator) -> (after: Self)
        requires
            self.wf(),
            accumulator.wf(),
        ensures
            after.wf(),
            self.moved_to(&after, accumulator@),
            after.accumulator == accumulator,
    {
        FirstOrderStableTransferFnForZeroes {
            process_gain: self.process_gain,
            process_time: self.process_time,
            accumulator,
        }
    }

    /// `after` and `result` are what the accumulator may hold and what may be
    /// returned after the input `input` at `t`, the kernel being `kernel`:
    /// the result of a step of the accumulator with the spawned responses,
    /// or a failure that changes nothing where these cannot be built.
    pub open spec fn step_result(
        &self,
        t: Time,
        input: Ratio,
        kernel: KernelRelation,
        after: SuperpositionModel,
        result: SimulatorResult<Ratio>,
    ) -> bool {
        if self.spawn_defined(t, input) {
            self.accumulator@.step_result(t, input, self.spawned(t, input), kernel, after, result)
        } else {
            result == out_of_range::<Ratio>() && after == self.accumulator@
        }
    }

    /// The accumulator and the output after the input `current_input` at
    /// `current_time`, with the transfer function itself left as it is.
    pub fn respond<K: Fn(Transcendental, i128) -> i64>(
        &self,
        current_time: Time,
        current_input: Ratio,
        kernel: &K,
    ) -> (r: SimulatorResult<(SuperpositionAccumulator, Ratio)>)
        requires
            self.wf(),
            callable(kernel),
        ensures
            self.step_result(
                current_time,
                current_input,
                relation_of(kernel),
                match r {
                    Ok((next, out)) => next@,
                    Err(_) => self.accumulator@,
                },
                match r {
                    Ok((next, out)) => Ok(out),
                    Err(e) => Err(e),
                },
            ),
            r matches Ok((next, out)) ==> next.wf(),
            r is Err ==> r == out_of_range::<(SuperpositionAccumulator, Ratio)>(),
    {
        let spawned = self.spawn(current_time, current_input)?;
        self.accumulator.advance(current_time, current_input, &spawned, kernel)
    }

    /// Takes the input `current_input` at `current_time` and returns the
    /// output there.  A changed input spawns a step and a negative rise,
    /// both scaled by the increment, which switch on after the dead time;
    /// responses that had settled at their last evaluation are folded into
    /// the offset; the output is the offset plus the active responses, with
    /// the exponentials as `kernel` computes them.  On failure nothing
    /// changes.
    pub fn set_user_input_and_calc_output<K: Fn(Transcendental, i128) -> i64>(
        &mut self,
        current_time: Time,
        current_input: Ratio,
        kernel: &K,
    ) -> (r: SimulatorResult<Ratio>)
        requires
            old(self).wf(),
            callable(kernel),
        ensures
            final(self).wf(),
            final(self).process_gain == old(self).process_gain,
            final(self).process_time == old(self).process_time,
            old(self).step_result(
                current_time,
                current_input,
                relation_of(kernel),
                final(self).accumulator@,
                r,
            ),
            r is Err ==> *final(self) == *old(self),
    {
        let (next, output) = self.respond(current_time, current_input, kernel)?;
        self.accumulator = next;
        Ok(output)
    }
}

impl Default for FirstOrderStableTransferFnForZeroes {
    /// `s / (s + 1)` at rest, without dead time.
    fn default() -> (tf: Self)
        ensures
            tf.wf(),
            tf.process_gain@ == NANO,
            tf.process_time@ == NANO,
            tf.accumulator.previous_timestep_input@ == 0,
            tf.accumulator.offset@ == 0,
            tf.accumulator.delay@ == 0,
            tf.accumulator.responses@.len() == 0,
    {
        FirstOrderStableTransferFnForZeroes {
            process_gain: Ratio::one(),
            process_time: Time::second(),
            accumulator: SuperpositionAccumulator::new(Ratio::zero(), Ratio::zero(), Time::zero()),
        }
    }
}

/// What the zero adds settles to nothing: the step and the negative rise
/// that answer one change of the input have final values that cancel.
pub proof fn lemma_zero_part_settles_to_nothing(
    tf: FirstOrderStableTransferFnForZeroes,
    t: Time,
    input: Ratio,
)
    requires
        fits(-tf.process_gain@),
    ensures
        tf.rise(t, input).steady_value() + tf.jump(t, input).steady_value() == 0,
{
    let increment = tf.rise(t, input).user_input@;
    assert(increment * (-tf.process_gain@) == -(increment * tf.process_gain@))
        by (nonlinear_arith);
    lemma_round_div_odd(increment * tf.process_gain@, NANO as int);
}

/// What the zero adds, once it is on: the step less the rise, which is the
/// height of the step times the exponential as the kernel read it, taken
/// into `[0, 1]`.
pub proof fn lemma_zero_part_jumps_and_decays(
    tf: FirstOrderStableTransferFnForZeroes,
    t: Time,
    input: Ratio,
    later: Time,
    reading: KernelReading,
)
    requires
        fits(-tf.process_gain@),
        later@ >= tf.rise(t, input).start_time@,
    ensures
        tf.jump(t, input).response(later) + tf.rise(t, input).response(later, reading)
            == tf.jump(t, input).steady_value() - scaled_product(
            tf.jump(t, input).steady_value(),
            NANO - unit(reading.decay as int),
        ),
{
    lemma_zero_part_settles_to_nothing(tf, t, input);
    let height = tf.jump(t, input).steady_value();
    let present = NANO - unit(reading.decay as int);
    assert((-height) * present == -(height * present)) by (nonlinear_arith);
    lemma_round_div_odd(height * present, NANO as int);
}

} // verus!
