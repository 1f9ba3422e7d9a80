//! The first-order rise `u(t - t1) * Kp * [1 - exp(-(t - t1) / tau)]`.
use crate::errors::{
    ChemEngProcessControlSimulatorError,
    in_range,
    out_of_range,
    SimulatorResult,
    unstable,
};
use crate::fixed_point::{
    checked_difference,
    checked_scaled_product,
    clamp,
    fits,
    lemma_scaled_between,
    NANO,
    round_div,
    rounded_product,
    scaled_product,
    unit,
};
use crate::kernel::{
    answers,
    callable,
    consult,
    KernelQuery,
    KernelReading,
    KernelRelation,
    relation_of,
    Transcendental,
};
use crate::quantities::{Ratio, Time};
use crate::superposition::{
    all_wf,
    ElementaryResponse,
    SuperpositionAccumulator,
    SuperpositionModel,
};
use vstd::prelude::*;

verus! {

/// The transfer function `Kp / (tau s + 1)`: to every change of its input
/// it answers with one first-order rise.
#[derive(Debug, PartialEq, PartialOrd, Clone)]
pub struct FirstOrderStableTransferFnNoZeroes {
    pub process_gain: Ratio,
    pub process_time: Time,
    /// Last input, offset, dead time and the rises that are still moving.
    pub accumulator: SuperpositionAccumulator,
}

impl FirstOrderStableTransferFnNoZeroes {
    /// The time constant is positive and the accumulator is well formed.
    pub open spec fn wf(&self) -> bool {
        &&& self.process_time@ > 0
        &&& self.accumulator.wf()
    }

    /// The rise that answers a change of the input to `input` at `t`.
    pub open spec fn rise(&self, t: Time, input: Ratio) -> FirstOrderResponse {
        FirstOrderResponse {
            process_gain: self.process_gain,
            process_time: self.process_time,
            start_time: Time { nano: self.accumulator@.start(t) as i64 },
            user_input: Ratio { nano: self.accumulator@.increment(input) as i64 },
            current_time: t,
        }
    }

    /// The responses that an input `input` at `t` spawns: one rise where the
    /// input has changed, none where it has not.
    pub open spec fn spawned(&self, t: Time, input: Ratio) -> Seq<ElementaryResponse> {
        if self.accumulator.changed(input) {
            seq![ElementaryResponse::FirstOrder(self.rise(t, input))]
        } else {
            Seq::empty()
        }
    }

    /// The increment, the start time and the final value of the spawned rise
    /// can be stored.
    pub open spec fn spawn_defined(&self, t: Time, input: Ratio) -> bool {
        self.accumulator.changed(input) ==> {
            &&& fits(self.accumulator@.increment(input))
            &&& fits(self.accumulator@.start(t))
            &&& self.rise(t, input).wf()
        }
    }

    /// `Kp / (tau s + 1)` with dead time `delay`; fails where `process_time <= 0`.
    pub fn new(
        process_gain: Ratio,
        process_time: Time,
        initial_input: Ratio,
        initial_value: Ratio,
        delay: Time,
    ) -> (r: SimulatorResult<Self>)
        ensures
            r is Ok <==> process_time@ > 0,
            r matches Ok(tf) ==> {
                &&& tf.wf()
                &&& tf.process_gain == process_gain
                &&& tf.process_time == process_time
                &&& tf.accumulator.previous_timestep_input == initial_input
                &&& tf.accumulator.offset == initial_value
                &&& tf.accumulator.delay == delay
                &&& tf.accumulator.responses@.len() == 0
            },
            r is Err ==> r == unstable::<Self>(),
    {
        if process_time.nano <= 0 {
            return Err(
                ChemEngProcessControlSimulatorError::UnstableDampingFactorForStableTransferFunction,
            );
        }
        Ok(
            FirstOrderStableTransferFnNoZeroes {
                process_gain,
                process_time,
                accumulator: SuperpositionAccumulator::new(initial_input, initial_value, delay),
            },
        )
    }

    /// The first-order filter `1 / (tau s + 1)` without dead time; fails
    /// where `process_time <= 0`.
    pub fn new_filter(
        process_time: Time,
        initial_input: Ratio,
        initial_value: Ratio,
    ) -> (r: SimulatorResult<Self>)
        ensures
            r is Ok <==> process_time@ > 0,
            r matches Ok(tf) ==> {
                &&& tf.wf()
                &&& tf.process_gain@ == NANO
                &&& tf.process_time == process_time
                &&& tf.accumulator.previous_timestep_input == initial_input
                &&& tf.accumulator.offset == initial_value
                &&& tf.accumulator.delay@ == 0
                &&& tf.accumulator.responses@.len() == 0
            },
            r is Err ==> r == unstable::<Self>(),
    {
        Self::new(Ratio::one(), process_time, initial_input, initial_value, Time::zero())
    }

    /// Whether the value is well formed: what every other function asks
    /// of it.
    pub fn is_well_formed(&self) -> (b: bool)
        ensures
            b == self.wf(),
    {
        self.process_time.nano > 0 && self.accumulator.is_well_formed()
    }

    /// The responses that an input `current_input` at `current_time` spawns.
    pub fn spawn(
        &self,
        current_time: Time,
        current_input: Ratio,
    ) -> (r: SimulatorResult<Vec<ElementaryResponse>>)
        requires
            self.wf(),
        ensures
            r is Ok <==> self.spawn_defined(current_time, current_input),
            r matches Ok(v) ==> v@ == self.spawned(current_time, current_input) && all_wf(v@),
            r is Err ==> r == out_of_range::<Vec<ElementaryResponse>>(),
    {
        let mut spawned: Vec<ElementaryResponse> = Vec::new();
        if self.accumulator.input_changed(current_input) {
            let user_input = self.accumulator.input_increment(current_input)?;
            let start_time = self.accumulator.start_time(current_time)?;
            let rise = FirstOrderResponse::new(
                self.process_gain,
                self.process_time,
                start_time,
                user_input,
                current_time,
            )?;
            spawned.push(ElementaryResponse::FirstOrder(rise));
        }
        Ok(spawned)
    }

    /// `after` is this transfer function with its accumulator replaced by
    /// one that holds `accumulator`.
    pub open spec fn moved_to(&self, after: &Self, accumulator: SuperpositionModel) -> bool {
        &&& after.process_gain == self.process_gain
        &&& after.process_time == self.process_time
        &&& after.accumulator@ == accumulator
    }

    /// This transfer function with `accumulator` in place of its own.
    pub fn with_accumulator(&self, accumulator: SuperpositionAccumulator) -> (after: Self)
        requires
            self.wf(),
            accumulator.wf(),
        ensures
            after.wf(),
            self.moved_to(&after, accumulator@),
            after.accumulator == accumulator,
    {
        FirstOrderStableTransferFnNoZeroes {
            process_gain: self.process_gain,
            process_time: self.process_time,
            accumulator,
        }
    }

    /// `after` and `result` are what the accumulator may hold and what may be
    /// returned after the input `input` at `t`, the kernel being `kernel`:
    /// the result of a step of the accumulator with the spawned responses,
    /// or a failure that changes nothing where these cannot be built.
    pub open spec fn step_result(
        &self,
        t: Time,
        input: Ratio,
        kernel: KernelRelation,
        after: SuperpositionModel,
        result: SimulatorResult<Ratio>,
    ) -> bool {
        if self.spawn_defined(t, input) {
            self.accumulator@.step_result(t, input, self.spawned(t, input), kernel, after, result)
        } else {
            result == out_of_range::<Ratio>() && after == self.accumulator@
        }
    }

    /// The accumulator and the output after the input `current_input` at
    /// `current_time`, with the transfer function itself left as it is.
    pub fn respond<K: Fn(Transcendental, i128) -> i64>(
        &self,
        current_time: Time,
        current_input: Ratio,
        kernel: &K,
    ) -> (r: SimulatorResult<(SuperpositionAccumulator, Ratio)>)
        requires
            self.wf(),
            callable(kernel),
        ensures
            self.step_result(
                current_time,
                current_input,
                relation_of(kernel),
                match r {
                    Ok((next, out)) => next@,
                    Err(_) => self.accumulator@,
                },
                match r {
                    Ok((next, out)) => Ok(out),
                    Err(e) => Err(e),
                },
            ),
            r matches Ok((next, out)) ==> next.wf(),
            r is Err ==> r == out_of_range::<(SuperpositionAccumulator, Ratio)>(),
    {
        let spawned = self.spawn(current_time, current_input)?;
        self.accumulator.advance(current_time, current_input, &spawned, kernel)
    }

    /// Takes the input `current_input` at `current_time` and returns the
    /// output there.  A changed input spawns a rise scaled by the increment,
    /// which switches on after the dead time; rises that had settled at
    /// their last evaluation are folded into the offset; the output is the
    /// offset plus the active rises, with the exponentials as `kernel`
    /// computes them.  On failure nothing changes.
    pub fn set_user_input_and_calc_output<K: Fn(Transcendental, i128) -> i64>(
        &mut self,
        current_time: Time,
        current_input: Ratio,
        kernel: &K,
    ) -> (r: SimulatorResult<Ratio>)
        requires
            old(self).wf(),
            callable(kernel),
        ensures
            final(self).wf(),
            final(self).process_gain == old(self).process_gain,
            final(self).process_time == old(self).process_time,
            old(self).step_result(
                current_time,
                current_input,
                relation_of(kernel),
                final(self).accumulator@,
                r,
            ),
            r is Err ==> *final(self) == *old(self),
    {
        let (next, output) = self.respond(current_time, current_input, kernel)?;
        self.accumulator = next;
        Ok(output)
    }
}

/// One first-order rise towards `process_gain * user_input`, with time
/// constant `process_time`, that switches on at `start_time`.
#[derive(Debug, PartialEq, PartialOrd, Clone, Copy)]
pub struct FirstOrderResponse {
    pub process_gain: Ratio,
    pub process_time: Time,
    pub start_time: Time,
    pub user_input: Ratio,
    pub current_time: Time,
}

impl FirstOrderResponse {
    /// The time constant is positive; the final value and the time since the
    /// start can be stored.
    pub open spec fn wf(&self) -> bool {
        &&& self.process_time@ > 0
        &&& fits(self.steady_value())
        &&& fits(self.current_time@ - self.start_time@)
    }

    /// More than 20 time constants have passed by the last evaluation.
    pub open spec fn steady(&self) -> bool {
        self.current_time@ - self.start_time@ > 20 * self.process_time@
    }

    /// The value that the rise tends to.
    pub open spec fn steady_value(&self) -> int {
        scaled_product(self.user_input@, self.process_gain@)
    }

    /// `(t - start_time) / process_time`.
    pub open spec fn exponent(&self, t: Time) -> int {
        round_div((t@ - self.start_time@) * NANO, self.process_time@)
    }

    /// The rise can be evaluated at `t`: the time since its start can be
    /// stored.
    pub open spec fn query_defined(&self, t: Time) -> bool {
        fits(t@ - self.start_time@)
    }

    /// What the rise asks of the kernel at `t`: `exp(-(t - start_time) / process_time)`
    /// once it is on.
    pub open spec fn query(&self, t: Time) -> KernelQuery {
        KernelQuery {
            decay: if t@ >= self.start_time@ {
                Some(self.exponent(t) as i128)
            } else {
                None
            },
            second_decay: None,
            sine: None,
            cosine: None,
        }
    }

    /// The value at `t`, given the kernel's reading `e` of the exponential,
    /// taken into `[0, 1]`: 0 before the start, `steady_value * (1 - e)` from
    /// then on.
    pub open spec fn response(&self, t: Time, reading: KernelReading) -> int {
        if t@ >= self.start_time@ {
            scaled_product(self.steady_value(), NANO - unit(reading.decay as int))
        } else {
            0
        }
    }

    /// The rise after an evaluation at `t`.
    pub open spec fn stamped(&self, t: Time) -> Self {
        FirstOrderResponse { current_time: t, ..*self }
    }

    /// A first-order rise.  Fails with the stability error where
    /// `process_time <= 0`, else with the range error where the final value
    /// or the time since the start cannot be stored.
    pub fn new(
        process_gain: Ratio,
        process_time: Time,
        start_time: Time,
        user_input: Ratio,
        current_time: Time,
    ) -> (r: SimulatorResult<Self>)
        ensures
            r is Ok <==> (FirstOrderResponse {
                process_gain,
                process_time,
                start_time,
                user_input,
                current_time,
            }).wf(),
            r matches Ok(rise) ==> rise == (FirstOrderResponse {
                process_gain,
                process_time,
                start_time,
                user_input,
                current_time,
            }),
            process_time@ <= 0 ==> r == unstable::<Self>(),
            process_time@ > 0 && r is Err ==> r == out_of_range::<Self>(),
    {
        if process_time.nano <= 0 {
            return Err(
                ChemEngProcessControlSimulatorError::UnstableDampingFactorForStableTransferFunction,
            );
        }
        let _final_value: i64 = in_range(
            checked_scaled_product(user_input.nano, process_gain.nano),
        )?;
        let _elapsed: i64 = in_range(checked_difference(current_time.nano, start_time.nano))?;
        Ok(FirstOrderResponse { process_gain, process_time, start_time, user_input, current_time })
    }

    /// Whether the value is well formed: what every other function asks
    /// of it.
    pub fn is_well_formed(&self) -> (b: bool)
        ensures
            b == self.wf(),
    {
        self.process_time.nano > 0 && checked_scaled_product(
            self.user_input.nano,
            self.process_gain.nano,
        ).is_some() && checked_difference(self.current_time.nano, self.start_time.nano).is_some()
    }

    /// Whether more than 20 time constants have passed by the last
    /// evaluation, so that less than `exp(-20)` of the rise is missing.
    pub fn is_steady_state(&self) -> (b: bool)
        ensures
            b == self.steady(),
    {
        let elapsed: i128 = self.current_time.nano as i128 - self.start_time.nano as i128;
        elapsed > 20 * (self.process_time.nano as i128)
    }

    /// The final value, `user_input * process_gain`.
    pub fn steady_state_value(&self) -> (v: Ratio)
        requires
            self.wf(),
        ensures
            v@ == self.steady_value(),
    {
        match checked_scaled_product(self.user_input.nano, self.process_gain.nano) {
            Some(nano) => Ratio { nano },
            None => Ratio { nano: 0 },
        }
    }

    /// The arguments for the kernel at `t`.
    pub fn kernel_query(&self, t: Time) -> (r: SimulatorResult<KernelQuery>)
        requires
            self.wf(),
        ensures
            r is Ok <==> self.query_defined(t),
            r matches Ok(q) ==> q == self.query(t),
            r is Err ==> r == out_of_range::<KernelQuery>(),
    {
        let elapsed: i64 = in_range(checked_difference(t.nano, self.start_time.nano))?;
        if elapsed < 0 {
            return Ok(KernelQuery::nothing());
        }
        let exponent: i128 = rounded_product(elapsed, NANO, self.process_time.nano);
        Ok(KernelQuery { decay: Some(exponent), second_decay: None, sine: None, cosine: None })
    }

    /// The value at `t` for a given reading of the kernel: it lies between
    /// 0 and the final value, and can always be stored.
    pub fn response_with(&self, t: Time, reading: &KernelReading) -> (v: Ratio)
        requires
            self.wf(),
        ensures
            v@ == self.response(t, *reading),
    {
        if t.nano < self.start_time.nano {
            return Ratio { nano: 0 };
        }
        let final_value = self.steady_state_value();
        let missing: i64 = NANO - clamp(reading.decay as i128, 0, NANO);
        proof {
            lemma_scaled_between(final_value@, missing as int, 1);
        }
        Ratio { nano: rounded_product(final_value.nano, missing, NANO) as i64 }
    }

    /// Moves the rise to `simulation_time` and returns its value there, for
    /// the exponential as `kernel` computes it.  Fails only where the time
    /// since the start cannot be stored, and then the rise is unchanged.
    pub fn calculate_response<K: Fn(Transcendental, i128) -> i64>(
        &mut self,
        simulation_time: Time,
        kernel: &K,
    ) -> (r: SimulatorResult<Ratio>)
        requires
            old(self).wf(),
            callable(kernel),
        ensures
            final(self).wf(),
            r is Ok <==> old(self).query_defined(simulation_time),
            r is Ok ==> exists|reading: KernelReading|
                {
                    &&& #[trigger] answers(
                        relation_of(kernel),
                        old(self).query(simulation_time),
                        reading,
                    )
                    &&& r matches Ok(v) && v@ == old(self).response(simulation_time, reading)
                },
            r is Ok ==> *final(self) == old(self).stamped(simulation_time),
            r is Err ==> r == out_of_range::<Ratio>() && *final(self) == *old(self),
    {
        let query = self.kernel_query(simulation_time)?;
        let reading = consult(kernel, &query);
        let value = self.response_with(simulation_time, &reading);
        self.current_time = simulation_time;
        Ok(value)
    }
}

impl Default for FirstOrderResponse {
    /// The response of `1 / (s + 1)` to a unit step at time 0.
    fn default() -> (rise: Self)
        ensures
            rise.wf(),
            rise.process_gain@ == NANO,
            rise.process_time@ == NANO,
            rise.start_time@ == 0,
            rise.user_input@ == NANO,
            rise.current_time@ == 0,
    {
        FirstOrderResponse {
            process_gain: Ratio::one(),
            process_time: Time::second(),
            start_time: Time::zero(),
            user_input: Ratio::one(),
            current_time: Time::zero(),
        }
    }
}

impl Default for FirstOrderStableTransferFnNoZeroes {
    /// `1 / (s + 1)` at rest, without dead time.
    fn default() -> (tf: Self)
        ensures
            tf.wf(),
            tf.process_gain@ == NANO,
            tf.process_time@ == NANO,
            tf.accumulator.previous_timestep_input@ == 0,
            tf.accumulator.offset@ == 0,
            tf.accumulator.delay@ == 0,
            tf.accumulator.responses@.len() == 0,
    {
        FirstOrderStableTransferFnNoZeroes {
            process_gain: Ratio::one(),
            process_time: Time::second(),
            accumulator: SuperpositionAccumulator::new(Ratio::zero(), Ratio::zero(), Time::zero()),
        }
    }
}

} // verus!
