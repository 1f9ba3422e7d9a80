//! The step response of `Kp / (tau^2 s^2 + 2 tau zeta s + 1)`.
use crate::errors::{
    ChemEngProcessControlSimulatorError,
    in_range,
    out_of_range,
    SimulatorResult,
    unstable,
};
use crate::fixed_point::{
    checked_difference,
    checked_scaled_product,
    checked_scaled_root,
    checked_sum,
    clamp,
    fits,
    floor_root,
    is_floor_root,
    lemma_floor_root,
    lemma_round_div_sign,
    lemma_round_div_within,
    lemma_scaled_between,
    lemma_scaled_within,
    NANO,
    round_div,
    rounded_product,
    rounded_quotient,
    scaled_product,
    scaled_root,
    signed_unit,
    unit,
    wide_product,
};
use crate::kernel::{
    answers,
    callable,
    consult,
    KernelQuery,
    KernelReading,
    KernelRelation,
    relation_of,
    Transcendental,
};
use crate::quantities::{Ratio, Time};
use crate::superposition::{
    all_wf,
    ElementaryResponse,
    SuperpositionAccumulator,
    SuperpositionModel,
};
use vstd::prelude::*;

verus! {

/// The transfer function `Kp / (tau^2 s^2 + 2 tau zeta s + 1)`: to every
/// change of its input it answers with one second-order step response.
#[derive(Debug, PartialEq, PartialOrd, Clone)]
pub struct SecondOrderStableTransferFnNoZeroes {
    pub process_gain: Ratio,
    pub process_time: Time,
    pub damping_factor: Ratio,
    /// Last input, offset, dead time and the responses that are still moving.
    pub accumulator: SuperpositionAccumulator,
}

impl SecondOrderStableTransferFnNoZeroes {
    /// Time constant and damping factor are positive, what a response
    /// stores of them can be stored, and the accumulator is well formed.
    pub open spec fn wf(&self) -> bool {
        &&& self.process_time@ > 0
        &&& self.damping_factor@ > 0
        &&& Self::probe(self.process_gain, self.process_time, self.damping_factor).wf()
        &&& self.accumulator.wf()
    }

    /// The response to no change at all: it is well formed exactly where
    /// the parameters can stand in a response, whatever the increment.
    pub open spec fn probe(
        process_gain: Ratio,
        process_time: Time,
        damping_factor: Ratio,
    ) -> SecondOrderStableStepResponse {
        SecondOrderStableStepResponse {
            process_gain,
            process_time,
            start_time: Time { nano: 0 },
            user_input: Ratio { nano: 0 },
            current_time: Time { nano: 0 },
            damping_factor,
        }
    }

    /// The response that answers a change of the input to `input` at `t`.
    pub open spec fn answer(&self, t: Time, input: Ratio) -> SecondOrderStableStepResponse {
        SecondOrderStableStepResponse {
            process_gain: self.process_gain,
            process_time: self.process_time,
            start_time: Time { nano: self.accumulator@.start(t) as i64 },
            user_input: Ratio { nano: self.accumulator@.increment(input) as i64 },
            current_time: t,
            damping_factor: self.damping_factor,
        }
    }

    /// The responses that an input `input` at `t` spawns: one where the
    /// input has changed, none where it has not.
    pub open spec fn spawned(&self, t: Time, input: Ratio) -> Seq<ElementaryResponse> {
        if self.accumulator.changed(input) {
            seq![ElementaryResponse::SecondOrder(self.answer(t, input))]
        } else {
            Seq::empty()
        }
    }

    /// The increment, the start time and the final value of the spawned
    /// response can be stored.
    pub open spec fn spawn_defined(&self, t: Time, input: Ratio) -> bool {
        self.accumulator.changed(input) ==> {
            &&& fits(self.accumulator@.increment(input))
            &&& fits(self.accumulator@.start(t))
            &&& self.answer(t, input).wf()
        }
    }

    /// `Kp / (tau^2 s^2 + 2 tau zeta s + 1)` with dead time `delay`.  Fails
    /// with the stability error where `damping_factor <= 0` or
    /// `process_time <= 0`, else with the range error where `zeta^2` or, when
    /// overdamped, the faster relative rate cannot be stored.
    pub fn new(
        process_gain: Ratio,
        process_time: Time,
        damping_factor: Ratio,
        initial_input: Ratio,
        initial_value: Ratio,
        delay: Time,
    ) -> (r: SimulatorResult<Self>)
        ensures
            r is Ok <==> damping_factor@ > 0 && process_time@ > 0 && Self::probe(
                process_gain,
                process_time,
                damping_factor,
            ).wf(),
            r matches Ok(tf) ==> {
                &&& tf.wf()
                &&& tf.process_gain == process_gain
                &&& tf.process_time == process_time
                &&& tf.damping_factor == damping_factor
                &&& tf.accumulator.previous_timestep_input == initial_input
                &&& tf.accumulator.offset == initial_value
                &&& tf.accumulator.delay == delay
                &&& tf.accumulator.responses@.len() == 0
            },
            damping_factor@ <= 0 || process_time@ <= 0 ==> r == unstable::<Self>(),
            damping_factor@ > 0 && process_time@ > 0 && r is Err ==> r == out_of_range::<Self>(),
    {
        if damping_factor.nano <= 0 || process_time.nano <= 0 {
            return Err(
                ChemEngProcessControlSimulatorError::UnstableDampingFactorForStableTransferFunction,
            );
        }
        let _probe = SecondOrderStableStepResponse::new(
            process_gain,
            process_time,
            damping_factor,
            Time::zero(),
            Ratio::zero(),
            Time::zero(),
        )?;
        Ok(
            SecondOrderStableTransferFnNoZeroes {
                process_gain,
                process_time,
                damping_factor,
                accumulator: SuperpositionAccumulator::new(initial_input, initial_value, delay),
            },
        )
    }

    /// Whether the value is well formed: what every other function asks
    /// of it.
    pub fn is_well_formed(&self) -> (b: bool)
        ensures
            b == self.wf(),
    {
        self.process_time.nano > 0 && self.damping_factor.nano > 0
            && (SecondOrderStableStepResponse {
            process_gain: self.process_gain,
            process_time: self.process_time,
            start_time: Time { nano: 0 },
            user_input: Ratio { nano: 0 },
            current_time: Time { nano: 0 },
            damping_factor: self.damping_factor,
        }).is_well_formed() && self.accumulator.is_well_formed()
    }

    /// The responses that an input `current_input` at `current_time` spawns.
    pub fn spawn(
        &self,
        current_time: Time,
        current_input: Ratio,
    ) -> (r: SimulatorResult<Vec<ElementaryResponse>>)
        requires
            self.wf(),
        ensures
            r is Ok <==> self.spawn_defined(current_time, current_input),
            r matches Ok(v) ==> v@ == self.spawned(current_time, current_input) && all_wf(v@),
            r is Err ==> r == out_of_range::<Vec<ElementaryResponse>>(),
    {
        let mut spawned: Vec<ElementaryResponse> = Vec::new();
        if self.accumulator.input_changed(current_input) {
            let user_input = self.accumulator.input_increment(current_input)?;
            let start_time = self.accumulator.start_time(current_time)?;
            let answer = SecondOrderStableStepResponse::new(
                self.process_gain,
                self.process_time,
                self.damping_factor,
                start_time,
                user_input,
                current_time,
            )?;
            spawned.push(ElementaryResponse::SecondOrder(answer));
        }
        Ok(spawned)
    }

    /// `after` is this transfer function with its accumulator replaced by
    /// one that holds `accumulator`.
    pub open spec fn moved_to(&self, after: &Self, accumulator: SuperpositionModel) -> bool {
        &&& after.process_gain == self.process_gain
        &&& after.process_time == self.process_time
        &&& after.damping_factor == self.damping_factor
        &&& after.accumulator@ == accumulator
    }

    /// This transfer function with `accumulator` in place of its own.
    pub fn with_accumulator(&self, accumulator: SuperpositionAccumulator) -> (after: Self)
        requires
            self.wf(),
            accumulator.wf(),
        ensures
            after.wf(),
            self.moved_to(&after, accumulator@),
            after.accumulator == accumulator,
    {
        SecondOrderStableTransferFnNoZeroes {
            process_gain: self.process_gain,
            process_time: self.process_time,
            damping_factor: self.damping_factor,
            accumulator,
        }
    }

    /// `after` and `result` are what the accumulator may hold and what may be
    /// returned after the input `input` at `t`, the kernel being `kernel`:
    /// the result of a step of the accumulator with the spawned responses,
    /// or a failure that changes nothing where these cannot be built.
    pub open spec fn step_result(
        &self,
        t: Time,
        input: Ratio,
        kernel: KernelRelation,
        after: SuperpositionModel,
        result: SimulatorResult<Ratio>,
    ) -> bool {
        if self.spawn_defined(t, input) {
            self.accumulator@.step_result(t, input, self.spawned(t, input), kernel, after, result)
        } else {
            result == out_of_range::<Ratio>() && after == self.accumulator@
        }
    }

    /// The accumulator and the output after the input `current_input` at
    /// `current_time`, with the transfer function itself left as it is.
    pub fn respond<K: Fn(Transcendental, i128) -> i64>(
        &self,
        current_time: Time,
        current_input: Ratio,
        kernel: &K,
    ) -> (r: SimulatorResult<(SuperpositionAccumulator, Ratio)>)
        requires
            self.wf(),
            callable(kernel),
        ensures
            self.step_result(
                current_time,
                current_input,
                relation_of(kernel),
                match r {
                    Ok((next, out)) => next@,
                    Err(_) => self.accumulator@,
                },
                match r {
                    Ok((next, out)) => Ok(out),
                    Err(e) => Err(e),
                },
            ),
            r matches Ok((next, out)) ==> next.wf(),
            r is Err ==> r == out_of_range::<(SuperpositionAccumulator, Ratio)>(),
    {
        let spawned = self.spawn(current_time, current_input)?;
        self.accumulator.advance(current_time, current_input, &spawned, kernel)
    }

    /// Takes the input `current_input` at `current_time` and returns the
    /// output there.  A changed input spawns a step response scaled by the
    /// increment, which switches on after the dead time; responses that had
    /// settled at their last evaluation are folded into the offset; the
    /// output is the offset plus the active responses, with the
    /// exponentials, sines and cosines as `kernel` computes them.  On
    /// failure nothing changes.
    pub fn set_user_input_and_calc_output<K: Fn(Transcendental, i128) -> i64>(
        &mut self,
        current_time: Time,
        current_input: Ratio,
        kernel: &K,
    ) -> (r: SimulatorResult<Ratio>)
        requires
            old(self).wf(),
            callable(kernel),
        ensures
            final(self).wf(),
            final(self).process_gain == old(self).process_gain,
            final(self).process_time == old(self).process_time,
            final(self).damping_factor == old(self).damping_factor,
            old(self).step_result(
                current_time,
                current_input,
                relation_of(kernel),
                final(self).accumulator@,
                r,
            ),
            r is Err ==> *final(self) == *old(self),
    {
        let (next, output) = self.respond(current_time, current_input, kernel)?;
        self.accumulator = next;
        Ok(output)
    }
}

/// One step response of a second-order system without zeroes, with gain
/// `process_gain`, time constant `process_time` and damping factor
/// `damping_factor`, that switches on at `start_time`.
#[derive(Debug, PartialEq, PartialOrd, Clone, Copy)]
pub struct SecondOrderStableStepResponse {
    pub process_gain: Ratio,
    pub process_time: Time,
    pub start_time: Time,
    pub user_input: Ratio,
    pub current_time: Time,
    pub damping_factor: Ratio,
}

impl SecondOrderStableStepResponse {
    /// Time constant and damping factor are positive.  The final value,
    /// twice the final value (which an oscillation may reach) and the time
    /// since the start can be stored; so can `zeta^2` away from critical
    /// damping and the faster relative rate when overdamped.
    pub open spec fn wf(&self) -> bool {
        &&& self.process_time@ > 0
        &&& self.damping_factor@ > 0
        &&& fits(self.steady_value())
        &&& fits(2 * self.steady_value())
        &&& fits(self.current_time@ - self.start_time@)
        &&& self.damping_factor@ != NANO ==> fits(self.damping_squared())
        &&& self.damping_factor@ > NANO ==> fits(self.fast_rate())
    }

    /// The value that the response tends to.
    pub open spec fn steady_value(&self) -> int {
        scaled_product(self.user_input@, self.process_gain@)
    }

    /// `zeta^2`.
    pub open spec fn damping_squared(&self) -> int {
        scaled_product(self.damping_factor@, self.damping_factor@)
    }

    /// `sqrt(|1 - zeta^2|)`: the relative frequency of an underdamped
    /// response, the relative spread of the two rates of an overdamped one.
    pub open spec fn root_term(&self) -> int {
        if self.damping_factor@ < NANO {
            scaled_root(NANO - self.damping_squared())
        } else {
            scaled_root(self.damping_squared() - NANO)
        }
    }

    /// The root term can be computed and divided by; away from critical
    /// damping this holds wherever `zeta^2` can be stored
    /// (`lemma_root_term_is_defined`).
    pub open spec fn root_defined(&self) -> bool {
        &&& fits(self.damping_squared())
        &&& self.damping_factor@ < NANO ==> NANO - self.damping_squared() >= 0
        &&& self.damping_factor@ > NANO ==> self.damping_squared() - NANO >= 0
        &&& self.root_term() != 0
    }

    /// `zeta - sqrt(zeta^2 - 1)`, the slower relative rate of an overdamped response.
    pub open spec fn slow_rate(&self) -> int {
        self.damping_factor@ - self.root_term()
    }

    /// `zeta + sqrt(zeta^2 - 1)`, the faster relative rate of an overdamped response.
    pub open spec fn fast_rate(&self) -> int {
        self.damping_factor@ + self.root_term()
    }

    /// The envelope has decayed by the last evaluation: `zeta * t / tau > 20`
    /// when underdamped, `t / tau > 23` when critically damped, and both
    /// relative rates times `t / tau` above 20 when overdamped.
    pub open spec fn steady(&self) -> bool {
        let elapsed = self.current_time@ - self.start_time@;
        if self.damping_factor@ < NANO {
            self.damping_factor@ * elapsed > 20 * NANO * self.process_time@
        } else if self.damping_factor@ == NANO {
            elapsed > 23 * self.process_time@
        } else {
            &&& self.slow_rate() * elapsed > 20 * NANO * self.process_time@
            &&& self.fast_rate() * elapsed > 20 * NANO * self.process_time@
        }
    }

    /// Argument of the (slower) exponential at `t`: `zeta (t - start) / tau`
    /// when underdamped, `(t - start) / tau` when critically damped, the
    /// slower relative rate times `(t - start) / tau` when overdamped.
    pub open spec fn decay_argument(&self, t: Time) -> int {
        let elapsed = t@ - self.start_time@;
        if self.damping_factor@ < NANO {
            round_div(self.damping_factor@ * elapsed, self.process_time@)
        } else if self.damping_factor@ == NANO {
            round_div(elapsed * NANO, self.process_time@)
        } else {
            round_div(self.slow_rate() * elapsed, self.process_time@)
        }
    }

    /// Argument of the sine and cosine (underdamped) or of the faster
    /// exponential (overdamped) at `t`.
    pub open spec fn second_argument(&self, t: Time) -> int {
        let elapsed = t@ - self.start_time@;
        if self.damping_factor@ < NANO {
            round_div(self.root_term() * elapsed, self.process_time@)
        } else {
            round_div(self.fast_rate() * elapsed, self.process_time@)
        }
    }

    /// The response can be evaluated at `t`: the time since its start can
    /// be stored.
    pub open spec fn query_defined(&self, t: Time) -> bool {
        fits(t@ - self.start_time@)
    }

    /// What the response asks of the kernel at `t`.
    pub open spec fn query(&self, t: Time) -> KernelQuery {
        if t@ < self.start_time@ {
            KernelQuery { decay: None, second_decay: None, sine: None, cosine: None }
        } else if self.damping_factor@ < NANO {
            KernelQuery {
                decay: Some(self.decay_argument(t) as i128),
                second_decay: None,
                sine: Some(self.second_argument(t) as i128),
                cosine: Some(self.second_argument(t) as i128),
            }
        } else if self.damping_factor@ == NANO {
            KernelQuery {
                decay: Some(self.decay_argument(t) as i128),
                second_decay: None,
                sine: None,
                cosine: None,
            }
        } else {
            KernelQuery {
                decay: Some(self.decay_argument(t) as i128),
                second_decay: Some(self.second_argument(t) as i128),
                sine: None,
                cosine: None,
            }
        }
    }

    /// `zeta / sqrt(|1 - zeta^2|)`.
    pub open spec fn damping_over_root(&self) -> int {
        round_div(self.damping_factor@ * NANO, self.root_term())
    }

    /// Underdamped: `cos(w t) + zeta / sqrt(1 - zeta^2) * sin(w t)`.
    pub open spec fn oscillation(&self, reading: KernelReading) -> int {
        signed_unit(reading.cosine as int) + scaled_product(
            self.damping_over_root(),
            signed_unit(reading.sine as int),
        )
    }

    /// The part of the final value still missing at `t`, as a fraction, for
    /// the kernel's readings, each taken into its range:
    /// `exp(-zeta r) [cos + zeta / w sin]` when underdamped,
    /// `(1 + r) exp(-r)` when critically damped,
    /// `[(1 + zeta / s) e1 + (1 - zeta / s) e2] / 2` when overdamped,
    /// with `r = (t - start_time) / process_time`.
    pub open spec fn missing(&self, t: Time, reading: KernelReading) -> int {
        if self.damping_factor@ < NANO {
            scaled_product(self.oscillation(reading), unit(reading.decay as int))
        } else if self.damping_factor@ == NANO {
            scaled_product(NANO + self.decay_argument(t), unit(reading.decay as int))
        } else {
            round_div(
                scaled_product(NANO + self.damping_over_root(), unit(reading.decay as int))
                    + scaled_product(
                    NANO - self.damping_over_root(),
                    unit(reading.second_decay as int),
                ),
                2,
            )
        }
    }

    /// The value at `t` for the kernel's readings: 0 before the start,
    /// `steady_value * (1 - missing)` from then on, the missing fraction
    /// taken into `[-1, 1]`, where it lies: the value lies between 0 and
    /// twice the final value.
    pub open spec fn response(&self, t: Time, reading: KernelReading) -> int {
        if t@ >= self.start_time@ {
            scaled_product(self.steady_value(), NANO - signed_unit(self.missing(t, reading)))
        } else {
            0
        }
    }

    /// The response after an evaluation at `t`.
    pub open spec fn stamped(&self, t: Time) -> Self {
        SecondOrderStableStepResponse { current_time: t, ..*self }
    }

    /// A second-order step response.  Fails with the stability error where
    /// `damping_factor <= 0` or `process_time <= 0`, else with the range error
    /// where the response is not well formed: twice the final value, the
    /// time since the start, `zeta^2` or the faster rate cannot be stored.
    pub fn new(
        process_gain: Ratio,
        process_time: Time,
        damping_factor: Ratio,
        start_time: Time,
        user_input: Ratio,
        current_time: Time,
    ) -> (r: SimulatorResult<Self>)
        ensures
            r is Ok <==> (SecondOrderStableStepResponse {
                process_gain,
                process_time,
                start_time,
                user_input,
                current_time,
                damping_factor,
            }).wf(),
            r matches Ok(response) ==> response == (SecondOrderStableStepResponse {
                process_gain,
                process_time,
                start_time,
                user_input,
                current_time,
                damping_factor,
            }),
            damping_factor@ <= 0 || process_time@ <= 0 ==> r == unstable::<Self>(),
            damping_factor@ > 0 && process_time@ > 0 && r is Err ==> r == out_of_range::<Self>(),
    {
        if damping_factor.nano <= 0 || process_time.nano <= 0 {
            return Err(
                ChemEngProcessControlSimulatorError::UnstableDampingFactorForStableTransferFunction,
            );
        }
        let response = SecondOrderStableStepResponse {
            process_gain,
            process_time,
            start_time,
            user_input,
            current_time,
            damping_factor,
        };
        if response.is_well_formed() {
            Ok(response)
        } else {
            Err(ChemEngProcessControlSimulatorError::ValueOutOfRange)
        }
    }

    /// Whether the value is well formed: what every other function asks
    /// of it.
    pub fn is_well_formed(&self) -> (b: bool)
        ensures
            b == self.wf(),
    {
        if self.process_time.nano <= 0 || self.damping_factor.nano <= 0 {
            return false;
        }
        let final_value: i64 = match checked_scaled_product(
            self.user_input.nano,
            self.process_gain.nano,
        ) {
            Some(v) => v,
            None => { return false; },
        };
        if checked_sum(final_value, final_value).is_none() || checked_difference(
            self.current_time.nano,
            self.start_time.nano,
        ).is_none() {
            return false;
        }
        if self.damping_factor.nano == NANO {
            return true;
        }
        if checked_scaled_product(self.damping_factor.nano, self.damping_factor.nano).is_none() {
            return false;
        }
        if self.damping_factor.nano < NANO {
            return true;
        }
        proof {
            lemma_root_term_is_defined(*self);
        }
        match self.natural_root() {
            Some(root) => checked_sum(self.damping_factor.nano, root).is_some(),
            None => false,
        }
    }

    /// `sqrt(|1 - zeta^2|)`, where it can be computed and is not 0.
    pub fn natural_root(&self) -> (r: Option<i64>)
        requires
            self.damping_factor@ != NANO,
        ensures
            r is Some <==> self.root_defined(),
            r matches Some(root) ==> root == self.root_term() && root > 0,
    {
        let squared: i64 = match checked_scaled_product(
            self.damping_factor.nano,
            self.damping_factor.nano,
        ) {
            Some(v) => v,
            None => { return None; },
        };
        proof {
            assert(self.damping_factor@ * self.damping_factor@ >= 0) by (nonlinear_arith);
            lemma_round_div_sign(self.damping_factor@ * self.damping_factor@, NANO as int);
        }
        let radicand: i128 = if self.damping_factor.nano < NANO {
            NANO as i128 - squared as i128
        } else {
            squared as i128 - NANO as i128
        };
        if radicand < 0 || radicand > 0x7fff_ffff_ffff_ffff {
            return None;
        }
        match checked_scaled_root(radicand as i64) {
            Some(root) => if root == 0 {
                None
            } else {
                Some(root)
            },
            None => None,
        }
    }

    /// The root term of a well-formed response away from critical damping.
    fn root(&self) -> (root: i64)
        requires
            self.wf(),
            self.damping_factor@ != NANO,
        ensures
            root == self.root_term(),
            root > 0,
    {
        proof {
            lemma_root_term_is_defined(*self);
        }
        match self.natural_root() {
            Some(root) => root,
            None => 1,
        }
    }

    /// Whether the response has reached its final value by the last evaluation.
    pub fn is_steady_state(&self) -> (b: bool)
        requires
            self.wf(),
        ensures
            b == self.steady(),
    {
        let elapsed: i64 = self.current_time.nano - self.start_time.nano;
        let zeta: i64 = self.damping_factor.nano;
        let threshold: i128 = 20_000_000_000 * (self.process_time.nano as i128);
        assert(threshold == 20 * NANO * self.process_time@);
        if zeta < NANO {
            wide_product(zeta, elapsed) > threshold
        } else if zeta == NANO {
            (elapsed as i128) > 23 * (self.process_time.nano as i128)
        } else {
            let root: i64 = self.root();
            let slow: i64 = zeta - root;
            let fast: i64 = zeta + root;
            wide_product(slow, elapsed) > threshold && wide_product(fast, elapsed) > threshold
        }
    }

    /// The final value, `user_input * process_gain`.
    pub fn steady_state_value(&self) -> (v: Ratio)
        requires
            self.wf(),
        ensures
            v@ == self.steady_value(),
    {
        match checked_scaled_product(self.user_input.nano, self.process_gain.nano) {
            Some(nano) => Ratio { nano },
            None => Ratio { nano: 0 },
        }
    }

    /// The arguments for the kernel at `t`.
    pub fn kernel_query(&self, t: Time) -> (r: SimulatorResult<KernelQuery>)
        requires
            self.wf(),
        ensures
            r is Ok <==> self.query_defined(t),
            r matches Ok(q) ==> q == self.query(t),
            r is Err ==> r == out_of_range::<KernelQuery>(),
    {
        let elapsed: i64 = in_range(checked_difference(t.nano, self.start_time.nano))?;
        if elapsed < 0 {
            return Ok(KernelQuery::nothing());
        }
        let zeta: i64 = self.damping_factor.nano;
        let tau: i64 = self.process_time.nano;
        if zeta < NANO {
            let root: i64 = self.root();
            let decay: i128 = rounded_product(zeta, elapsed, tau);
            let angle: i128 = rounded_product(root, elapsed, tau);
            Ok(
                KernelQuery {
                    decay: Some(decay),
                    second_decay: None,
                    sine: Some(angle),
                    cosine: Some(angle),
                },
            )
        } else if zeta == NANO {
            let ratio: i128 = rounded_product(elapsed, NANO, tau);
            Ok(KernelQuery { decay: Some(ratio), second_decay: None, sine: None, cosine: None })
        } else {
            let root: i64 = self.root();
            let decay: i128 = rounded_product(zeta - root, elapsed, tau);
            let second: i128 = rounded_product(zeta + root, elapsed, tau);
            Ok(
                KernelQuery {
                    decay: Some(decay),
                    second_decay: Some(second),
                    sine: None,
                    cosine: None,
                },
            )
        }
    }

    /// The fraction of the final value still missing at `t >= start_time`,
    /// taken into `[-1, 1]`.
    fn missing_fraction(&self, t: Time, reading: &KernelReading) -> (m: i64)
        requires
            self.wf(),
            self.query_defined(t),
            t@ >= self.start_time@,
        ensures
            m == signed_unit(self.missing(t, *reading)),
    {
        let zeta: i64 = self.damping_factor.nano;
        let decay: i64 = clamp(reading.decay as i128, 0, NANO);
        if zeta < NANO {
            let root: i64 = self.root();
            let quotient: i128 = rounded_product(zeta, NANO, root);
            proof {
                assert(-(1_000_000_000_000_000_000 * root) <= zeta * NANO
                    <= 1_000_000_000_000_000_000 * root) by (nonlinear_arith)
                    requires
                        0 < zeta < 1_000_000_000,
                        NANO == 1_000_000_000,
                        root >= 1,
                ;
                lemma_round_div_within(zeta * NANO, root as int, 1_000_000_000_000_000_000);
            }
            let sine: i64 = clamp(reading.sine as i128, -NANO, NANO);
            let cosine: i64 = clamp(reading.cosine as i128, -NANO, NANO);
            proof {
                lemma_scaled_within(quotient as int, sine as int);
            }
            let sine_part: i128 = rounded_product(quotient as i64, sine, NANO);
            let oscillation: i64 = (cosine as i128 + sine_part) as i64;
            proof {
                lemma_scaled_between(oscillation as int, decay as int, 1);
            }
            clamp(rounded_product(oscillation, decay, NANO), -NANO, NANO)
        } else if zeta == NANO {
            let elapsed: i64 = t.nano - self.start_time.nano;
            let ratio: i128 = rounded_product(elapsed, NANO, self.process_time.nano);
            proof {
                let bound = 0x8000_0000_0000_0000 * 1_000_000_000int;
                assert(-(bound * self.process_time@) <= elapsed * NANO <= bound
                    * self.process_time@) by (nonlinear_arith)
                    requires
                        0 <= elapsed <= 0x8000_0000_0000_0000,
                        NANO == 1_000_000_000,
                        self.process_time@ >= 1,
                        bound == 0x8000_0000_0000_0000 * 1_000_000_000int,
                ;
                lemma_round_div_within(elapsed * NANO, self.process_time@, bound);
            }
            let grown: i128 = NANO as i128 + ratio;
            assert(-0x7000_0000_0000_0000_0000_0000_0000_0000 <= grown * decay
                <= 0x7000_0000_0000_0000_0000_0000_0000_0000) by (nonlinear_arith)
                requires
                    -0x8000_0000_0000_0000 * 1_000_000_001 <= grown <= 0x8000_0000_0000_0000
                        * 1_000_000_001,
                    0 <= decay <= 1_000_000_000,
            ;
            clamp(rounded_quotient(grown * (decay as i128), NANO as i128), -NANO, NANO)
        } else {
            let root: i64 = self.root();
            let quotient: i128 = rounded_product(zeta, NANO, root);
            proof {
                let bound = 0x8000_0000_0000_0000 * 1_000_000_000int;
                assert(-(bound * root) <= zeta * NANO <= bound * root) by (nonlinear_arith)
                    requires
                        0 < zeta <= 0x8000_0000_0000_0000,
                        NANO == 1_000_000_000,
                        root >= 1,
                        bound == 0x8000_0000_0000_0000 * 1_000_000_000int,
                ;
                lemma_round_div_within(zeta * NANO, root as int, bound);
            }
            let second: i64 = clamp(reading.second_decay as i128, 0, NANO);
            let above: i128 = NANO as i128 + quotient;
            let below: i128 = NANO as i128 - quotient;
            assert(-0x2000_0000_0000_0000_0000_0000_0000_0000 <= above * decay
                <= 0x2000_0000_0000_0000_0000_0000_0000_0000
                && -0x2000_0000_0000_0000_0000_0000_0000_0000 <= below * second
                <= 0x2000_0000_0000_0000_0000_0000_0000_0000) by (nonlinear_arith)
                requires
                    -0x8000_0000_0000_0000 * 1_000_000_001 <= above <= 0x8000_0000_0000_0000
                        * 1_000_000_001,
                    -0x8000_0000_0000_0000 * 1_000_000_001 <= below <= 0x8000_0000_0000_0000
                        * 1_000_000_001,
                    0 <= decay <= 1_000_000_000,
                    0 <= second <= 1_000_000_000,
            ;
            let slow_part: i128 = rounded_quotient(above * (decay as i128), NANO as i128);
            let fast_part: i128 = rounded_quotient(below * (second as i128), NANO as i128);
            proof {
                let limit = 0x2000_0000_0000_0000_0000_0000_0000_0000int;
                assert(limit * NANO >= limit) by (nonlinear_arith)
                    requires
                        limit >= 0,
                        NANO == 1_000_000_000,
                ;
                lemma_round_div_within(above * decay, NANO as int, limit);
                lemma_round_div_within(below * second, NANO as int, limit);
            }
            clamp(rounded_quotient(slow_part + fast_part, 2), -NANO, NANO)
        }
    }

    /// The value at `t` for a given reading of the kernel: it lies between
    /// 0 and twice the final value, and can always be stored.
    pub fn response_with(&self, t: Time, reading: &KernelReading) -> (v: Ratio)
        requires
            self.wf(),
            self.query_defined(t),
        ensures
            v@ == self.response(t, *reading),
    {
        if t.nano < self.start_time.nano {
            return Ratio { nano: 0 };
        }
        let final_value = self.steady_state_value();
        let missing: i64 = self.missing_fraction(t, reading);
        let present: i64 = NANO - missing;
        proof {
            lemma_scaled_between(final_value@, present as int, 2);
        }
        Ratio { nano: rounded_product(final_value.nano, present, NANO) as i64 }
    }

    /// Moves the response to `simulation_time` and returns its value there,
    /// for the exponentials, sine and cosine as `kernel` computes them.
    /// Fails only where the time since the start cannot be stored, and then
    /// the response is unchanged.
    pub fn calculate_response<K: Fn(Transcendental, i128) -> i64>(
        &mut self,
        simulation_time: Time,
        kernel: &K,
    ) -> (r: SimulatorResult<Ratio>)
        requires
            old(self).wf(),
            callable(kernel),
        ensures
            final(self).wf(),
            r is Ok <==> old(self).query_defined(simulation_time),
            r is Ok ==> exists|reading: KernelReading|
                {
                    &&& #[trigger] answers(
                        relation_of(kernel),
                        old(self).query(simulation_time),
                        reading,
                    )
                    &&& r matches Ok(v) && v@ == old(self).response(simulation_time, reading)
                },
            r is Ok ==> *final(self) == old(self).stamped(simulation_time),
            r is Err ==> r == out_of_range::<Ratio>() && *final(self) == *old(self),
    {
        let query = self.kernel_query(simulation_time)?;
        let reading = consult(kernel, &query);
        let value = self.response_with(simulation_time, &reading);
        self.current_time = simulation_time;
        Ok(value)
    }
}

impl Default for SecondOrderStableStepResponse {
    /// The response of the critically damped `1 / (s^2 + 2 s + 1)` to a
    /// unit step at time 0.
    fn default() -> (response: Self)
        ensures
            response.wf(),
            response.process_gain@ == NANO,
            response.process_time@ == NANO,
            response.start_time@ == 0,
            response.user_input@ == NANO,
            response.current_time@ == 0,
            response.damping_factor@ == NANO,
    {
        SecondOrderStableStepResponse {
            process_gain: Ratio::one(),
            process_time: Time::second(),
            start_time: Time::zero(),
            user_input: Ratio::one(),
            current_time: Time::zero(),
            damping_factor: Ratio::one(),
        }
    }
}

impl Default for SecondOrderStableTransferFnNoZeroes {
    /// The critically damped `1 / (s^2 + 2 s + 1)` at rest, without dead time.
    fn default() -> (tf: Self)
        ensures
            tf.wf(),
            tf.process_gain@ == NANO,
            tf.process_time@ == NANO,
            tf.damping_factor@ == NANO,
            tf.accumulator.previous_timestep_input@ == 0,
            tf.accumulator.offset@ == 0,
            tf.accumulator.delay@ == 0,
            tf.accumulator.responses@.len() == 0,
    {
        SecondOrderStableTransferFnNoZeroes {
            process_gain: Ratio::one(),
            process_time: Time::second(),
            damping_factor: Ratio::one(),
            accumulator: SuperpositionAccumulator::new(Ratio::zero(), Ratio::zero(), Time::zero()),
        }
    }
}

/// Away from critical damping the root term is there to divide by: where
/// `zeta^2` can be stored, `|1 - zeta^2|` is at least two billionths and its
/// square root is above 0.
pub proof fn lemma_root_term_is_defined(response: SecondOrderStableStepResponse)
    requires
        response.damping_factor@ > 0,
        response.damping_factor@ != NANO,
        fits(response.damping_squared()),
    ensures
        response.root_defined(),
        response.root_term() > 0,
{
    let zeta = response.damping_factor@;
    let square = zeta * zeta;
    if zeta < NANO {
        assert(0 <= square <= (NANO - 1) * (NANO - 1)) by (nonlinear_arith)
            requires
                square == zeta * zeta,
                0 < zeta <= NANO - 1,
        ;
        assert((NANO - 1) * (NANO - 1) == 999_999_998_000_000_001) by (nonlinear_arith)
            requires
                NANO == 1_000_000_000,
        ;
        assert(response.damping_squared() <= NANO - 2);
        let radicand = (NANO - response.damping_squared()) * NANO;
        assert(radicand >= 1) by (nonlinear_arith)
            requires
                radicand == (NANO - response.damping_squared()) * NANO,
                NANO - response.damping_squared() >= 2,
                NANO == 1_000_000_000,
        ;
        lemma_floor_root(radicand);
        assert(response.root_term() == floor_root(radicand));
        assert(response.root_term() != 0) by (nonlinear_arith)
            requires
                is_floor_root(response.root_term(), radicand),
                radicand >= 1,
        ;
    } else {
        assert(square >= (NANO + 1) * (NANO + 1)) by (nonlinear_arith)
            requires
                square == zeta * zeta,
                zeta >= NANO + 1,
                NANO == 1_000_000_000,
        ;
        assert((NANO + 1) * (NANO + 1) == 1_000_000_002_000_000_001) by (nonlinear_arith)
            requires
                NANO == 1_000_000_000,
        ;
        assert(response.damping_squared() >= NANO + 2);
        let radicand = (response.damping_squared() - NANO) * NANO;
        assert(radicand >= 1) by (nonlinear_arith)
            requires
                radicand == (response.damping_squared() - NANO) * NANO,
                response.damping_squared() - NANO >= 2,
                NANO == 1_000_000_000,
        ;
        lemma_floor_root(radicand);
        assert(response.root_term() == floor_root(radicand));
        assert(response.root_term() != 0) by (nonlinear_arith)
            requires
                is_floor_root(response.root_term(), radicand),
                radicand >= 1,
        ;
    }
}

/// Up to critical damping every gain and time constant can stand in a
/// response.
pub proof fn lemma_probe_is_well_formed(
    process_gain: Ratio,
    process_time: Time,
    damping_factor: Ratio,
)
    requires
        process_time@ > 0,
        0 < damping_factor@ <= NANO,
    ensures
        SecondOrderStableTransferFnNoZeroes::probe(process_gain, process_time, damping_factor).wf(),
{
    let zeta = damping_factor@;
    assert(0 * process_gain@ == 0) by (nonlinear_arith);
    assert(-(NANO * NANO) <= zeta * zeta <= NANO * NANO) by (nonlinear_arith)
        requires
            0 < zeta <= NANO,
    ;
    lemma_round_div_within(zeta * zeta, NANO as int, NANO as int);
}

} // verus!
