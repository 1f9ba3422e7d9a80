//! Decaying exponentials: the step responses that zeroes add to a
//! second-order system with real poles.
use crate::errors::{
    ChemEngProcessControlSimulatorError,
    in_range,
    out_of_range,
    SimulatorResult,
    unstable,
};
use crate::fixed_point::{
    checked_difference,
    checked_scaled_product,
    clamp,
    clamped,
    fits,
    lemma_round_div_within,
    lemma_scaled_between,
    magnitude,
    NANO,
    round_div,
    rounded_product,
    scaled_product,
    unit,
    wide_product,
};
use crate::kernel::{
    answers,
    answers_one,
    callable,
    consult,
    consult_one,
    KernelQuery,
    KernelReading,
    KernelRelation,
    relation_of,
    Transcendental,
};
use crate::quantities::{Frequency, Ratio, Time};
use crate::superposition::{
    all_wf,
    ElementaryResponse,
    SuperpositionAccumulator,
    SuperpositionModel,
};
use vstd::prelude::*;

verus! {

/// The number of real poles and whether they coincide.
#[derive(Debug, PartialEq, Eq, Structural, PartialOrd, Clone, Copy)]
pub enum DecayingExponentialType {
    /// Two distinct real poles.
    Overdamped,
    /// Two equal real poles.
    CriticallyDamped,
    /// One pole only.
    Single,
}

/// A transfer function whose step response is a sum of decaying
/// exponentials: to every change of its input it answers with one decaying
/// term.
#[derive(Debug, PartialEq, PartialOrd, Clone)]
pub struct DecayingExponential {
    pub magnitude_alpha: Ratio,
    pub magnitude_beta: Ratio,
    /// Decay rate of the first pole.
    pub alpha: Frequency,
    /// Decay rate of the second pole; equal to the first for a single pole
    /// and for critical damping.
    pub beta: Frequency,
    pub exponent_type: DecayingExponentialType,
    /// Last input, offset, dead time and the terms that are still moving.
    pub accumulator: SuperpositionAccumulator,
}

impl DecayingExponential {
    /// Both rates are positive and the accumulator is well formed.
    pub open spec fn wf(&self) -> bool {
        &&& self.alpha@ > 0
        &&& self.beta@ > 0
        &&& self.accumulator.wf()
    }

    /// The first magnitude times the increment of the input to `input`.
    pub open spec fn scaled_alpha(&self, input: Ratio) -> int {
        scaled_product(self.magnitude_alpha@, self.accumulator@.increment(input))
    }

    /// The second magnitude times the increment of the input to `input`.
    pub open spec fn scaled_beta(&self, input: Ratio) -> int {
        scaled_product(self.magnitude_beta@, self.accumulator@.increment(input))
    }

    /// The term that answers a change of the input to `input` at `t`.
    pub open spec fn answer(&self, t: Time, input: Ratio) -> DecayExponentialResponse {
        DecayExponentialResponse::fresh(
            Ratio { nano: self.scaled_alpha(input) as i64 },
            Ratio { nano: self.scaled_beta(input) as i64 },
            self.alpha,
            self.beta,
            Time { nano: self.accumulator@.start(t) as i64 },
            Ratio { nano: self.accumulator@.increment(input) as i64 },
            t,
            self.exponent_type,
        )
    }

    /// The responses that an input `input` at `t` spawns: one where the
    /// input has changed, none where it has not.
    pub open spec fn spawned(&self, t: Time, input: Ratio) -> Seq<ElementaryResponse> {
        if self.accumulator.changed(input) {
            seq![ElementaryResponse::DecayingExponential(self.answer(t, input))]
        } else {
            Seq::empty()
        }
    }

    /// The increment, the start time and the scaled magnitudes of the
    /// spawned term can be stored.
    pub open spec fn spawn_defined(&self, t: Time, input: Ratio) -> bool {
        self.accumulator.changed(input) ==> {
            &&& fits(self.accumulator@.increment(input))
            &&& fits(self.accumulator@.start(t))
            &&& fits(self.scaled_alpha(input))
            &&& fits(self.scaled_beta(input))
            &&& self.answer(t, input).wf()
        }
    }

    /// Checks the rates and builds the transfer function.
    fn build(
        magnitude_alpha: Ratio,
        magnitude_beta: Ratio,
        alpha: Frequency,
        beta: Frequency,
        initial_input: Ratio,
        initial_value: Ratio,
        delay: Time,
        exponent_type: DecayingExponentialType,
    ) -> (r: SimulatorResult<Self>)
        ensures
            r is Ok <==> alpha@ > 0 && beta@ > 0,
            r matches Ok(tf) ==> {
                &&& tf.wf()
                &&& tf.magnitude_alpha == magnitude_alpha
                &&& tf.magnitude_beta == magnitude_beta
                &&& tf.alpha == alpha
                &&& tf.beta == beta
                &&& tf.exponent_type == exponent_type
                &&& tf.accumulator.previous_timestep_input == initial_input
                &&& tf.accumulator.offset == initial_value
                &&& tf.accumulator.delay == delay
                &&& tf.accumulator.responses@.len() == 0
            },
            r is Err ==> r == unstable::<Self>(),
    {
        if alpha.nano <= 0 || beta.nano <= 0 {
            return Err(
                ChemEngProcessControlSimulatorError::UnstableDampingFactorForStableTransferFunction,
            );
        }
        Ok(
            DecayingExponential {
                magnitude_alpha,
                magnitude_beta,
                alpha,
                beta,
                exponent_type,
                accumulator: SuperpositionAccumulator::new(initial_input, initial_value, delay),
            },
        )
    }

    /// Step response `magnitude * exp(-a t)`; fails where `decay_constant <= 0`.
    pub fn new_single_root(
        magnitude: Ratio,
        decay_constant: Frequency,
        initial_input: Ratio,
        initial_value: Ratio,
        delay: Time,
    ) -> (r: SimulatorResult<Self>)
        ensures
            r is Ok <==> decay_constant@ > 0,
            r matches Ok(tf) ==> {
                &&& tf.wf()
                &&& tf.magnitude_alpha == magnitude
                &&& tf.magnitude_beta == magnitude
                &&& tf.alpha == decay_constant
                &&& tf.beta == decay_constant
                &&& tf.exponent_type == DecayingExponentialType::Single
                &&& tf.accumulator.previous_timestep_input == initial_input
                &&& tf.accumulator.offset == initial_value
                &&& tf.accumulator.delay == delay
                &&& tf.accumulator.responses@.len() == 0
            },
            r is Err ==> r == unstable::<Self>(),
    {
        Self::build(
            magnitude,
            magnitude,
            decay_constant,
            decay_constant,
            initial_input,
            initial_value,
            delay,
            DecayingExponentialType::Single,
        )
    }

    /// Step response `Ma exp(-alpha t) + Mb exp(-beta t)`; fails where a
    /// rate is not positive.
    pub fn new_overdamped(
        magnitude_alpha: Ratio,
        magnitude_beta: Ratio,
        alpha: Frequency,
        beta: Frequency,
        initial_input: Ratio,
        initial_value: Ratio,
        delay: Time,
    ) -> (r: SimulatorResult<Self>)
        ensures
            r is Ok <==> alpha@ > 0 && beta@ > 0,
            r matches Ok(tf) ==> {
                &&& tf.wf()
                &&& tf.magnitude_alpha == magnitude_alpha
                &&& tf.magnitude_beta == magnitude_beta
                &&& tf.alpha == alpha
                &&& tf.beta == beta
                &&& tf.exponent_type == DecayingExponentialType::Overdamped
                &&& tf.accumulator.previous_timestep_input == initial_input
                &&& tf.accumulator.offset == initial_value
                &&& tf.accumulator.delay == delay
                &&& tf.accumulator.responses@.len() == 0
            },
            r is Err ==> r == unstable::<Self>(),
    {
        Self::build(
            magnitude_alpha,
            magnitude_beta,
            alpha,
            beta,
            initial_input,
            initial_value,
            delay,
            DecayingExponentialType::Overdamped,
        )
    }

    /// Step response `Ma t exp(-lambda t) + Mb exp(-lambda t)`; the first
    /// magnitude is a frequency, kept as its number of hertz.  Fails where
    /// `lambda <= 0`.
    pub fn new_critical(
        magnitude_alpha: Frequency,
        magnitude_beta: Ratio,
        lambda: Frequency,
        initial_input: Ratio,
        initial_value: Ratio,
        delay: Time,
    ) -> (r: SimulatorResult<Self>)
        ensures
            r is Ok <==> lambda@ > 0,
            r matches Ok(tf) ==> {
                &&& tf.wf()
                &&& tf.magnitude_alpha@ == magnitude_alpha@
                &&& tf.magnitude_beta == magnitude_beta
                &&& tf.alpha == lambda
                &&& tf.beta == lambda
                &&& tf.exponent_type == DecayingExponentialType::CriticallyDamped
                &&& tf.accumulator.previous_timestep_input == initial_input
                &&& tf.accumulator.offset == initial_value
                &&& tf.accumulator.delay == delay
                &&& tf.accumulator.responses@.len() == 0
            },
            r is Err ==> r == unstable::<Self>(),
    {
        Self::build(
            Ratio { nano: magnitude_alpha.nano },
            magnitude_beta,
            lambda,
            lambda,
            initial_input,
            initial_value,
            delay,
            DecayingExponentialType::CriticallyDamped,
        )
    }

    /// Whether the value is well formed: what every other function asks
    /// of it.
    pub fn is_well_formed(&self) -> (b: bool)
        ensures
            b == self.wf(),
    {
        self.alpha.nano > 0 && self.beta.nano > 0 && self.accumulator.is_well_formed()
    }

    /// The responses that an input `current_input` at `current_time` spawns.
    pub fn spawn(
        &self,
        current_time: Time,
        current_input: Ratio,
    ) -> (r: SimulatorResult<Vec<ElementaryResponse>>)
        requires
            self.wf(),
        ensures
            r is Ok <==> self.spawn_defined(current_time, current_input),
            r matches Ok(v) ==> v@ == self.spawned(current_time, current_input) && all_wf(v@),
            r is Err ==> r == out_of_range::<Vec<ElementaryResponse>>(),
    {
        let mut spawned: Vec<ElementaryResponse> = Vec::new();
        if self.accumulator.input_changed(current_input) {
            let user_input = self.accumulator.input_increment(current_input)?;
            let start_time = self.accumulator.start_time(current_time)?;
            let scaled_alpha: i64 = in_range(
                checked_scaled_product(self.magnitude_alpha.nano, user_input.nano),
            )?;
            let scaled_beta: i64 = in_range(
                checked_scaled_product(self.magnitude_beta.nano, user_input.nano),
            )?;
            let answer = DecayExponentialResponse::build(
                Ratio { nano: scaled_alpha },
                Ratio { nano: scaled_beta },
                self.alpha,
                self.beta,
                start_time,
                user_input,
                current_time,
                self.exponent_type,
            )?;
            spawned.push(ElementaryResponse::DecayingExponential(answer));
        }
        Ok(spawned)
    }

    /// `after` is this transfer function with its accumulator replaced by
    /// one that holds `accumulator`.
    pub open spec fn moved_to(&self, after: &Self, accumulator: SuperpositionModel) -> bool {
        &&& after.magnitude_alpha == self.magnitude_alpha
        &&& after.magnitude_beta == self.magnitude_beta
        &&& after.alpha == self.alpha
        &&& after.beta == self.beta
        &&& after.exponent_type == self.exponent_type
        &&& after.accumulator@ == accumulator
    }

    /// This transfer function with `accumulator` in place of its own.
    pub fn with_accumulator(&self, accumulator: SuperpositionAccumulator) -> (after: Self)
        requires
            self.wf(),
            accumulator.wf(),
        ensures
            after.wf(),
            self.moved_to(&after, accumulator@),
            after.accumulator == accumulator,
    {
        DecayingExponential {
            magnitude_alpha: self.magnitude_alpha,
            magnitude_beta: self.magnitude_beta,
            alpha: self.alpha,
            beta: self.beta,
            exponent_type: self.exponent_type,
            accumulator,
        }
    }

    /// `after` and `result` are what the accumulator may hold and what may be
    /// returned after the input `input` at `t`, the kernel being `kernel`:
    /// the result of a step of the accumulator with the spawned responses,
    /// or a failure that changes nothing where these cannot be built.
    pub open spec fn step_result(
        &self,
        t: Time,
        input: Ratio,
        kernel: KernelRelation,
        after: SuperpositionModel,
        result: SimulatorResult<Ratio>,
    ) -> bool {
        if self.spawn_defined(t, input) {
            self.accumulator@.step_result(t, input, self.spawned(t, input), kernel, after, result)
        } else {
            result == out_of_range::<Ratio>() && after == self.accumulator@
        }
    }

    /// The accumulator and the output after the input `current_input` at
    /// `current_time`, with the transfer function itself left as it is.
    pub fn respond<K: Fn(Transcendental, i128) -> i64>(
        &self,
        current_time: Time,
        current_input: Ratio,
        kernel: &K,
    ) -> (r: SimulatorResult<(SuperpositionAccumulator, Ratio)>)
        requires
            self.wf(),
            callable(kernel),
        ensures
            self.step_result(
                current_time,
                current_input,
                relation_of(kernel),
                match r {
                    Ok((next, out)) => next@,
                    Err(_) => self.accumulator@,
                },
                match r {
                    Ok((next, out)) => Ok(out),
                    Err(e) => Err(e),
                },
            ),
            r matches Ok((next, out)) ==> next.wf(),
            r is Err ==> r == out_of_range::<(SuperpositionAccumulator, Ratio)>(),
    {
        let spawned = self.spawn(current_time, current_input)?;
        self.accumulator.advance(current_time, current_input, &spawned, kernel)
    }

    /// Takes the input `current_input` at `current_time` and returns the
    /// output there.  A changed input spawns a decaying term scaled by the
    /// increment, which switches on after the dead time; terms that had
    /// decayed at their last evaluation leave; the output is the offset plus
    /// the active terms, with the exponentials as `kernel` computes them.
    /// On failure nothing changes.
    pub fn set_user_input_and_calc_output<K: Fn(Transcendental, i128) -> i64>(
        &mut self,
        current_time: Time,
        current_input: Ratio,
        kernel: &K,
    ) -> (r: SimulatorResult<Ratio>)
        requires
            old(self).wf(),
            callable(kernel),
        ensures
            final(self).wf(),
            final(self).magnitude_alpha == old(self).magnitude_alpha,
            final(self).magnitude_beta == old(self).magnitude_beta,
            final(self).alpha == old(self).alpha,
            final(self).beta == old(self).beta,
            final(self).exponent_type == old(self).exponent_type,
            old(self).step_result(
                current_time,
                current_input,
                relation_of(kernel),
                final(self).accumulator@,
                r,
            ),
            r is Err ==> *final(self) == *old(self),
    {
        let (next, output) = self.respond(current_time, current_input, kernel)?;
        self.accumulator = next;
        Ok(output)
    }
}

/// One decaying term that switches on at `start_time`:
/// `Ma exp(-alpha t)` for a single pole,
/// `Ma exp(-alpha t) + Mb exp(-beta t)` when overdamped,
/// `Ma t exp(-alpha t) + Mb exp(-beta t)` when critically damped,
/// where `Ma`, `Mb` are the magnitudes already multiplied by the input increment.
#[derive(Debug, PartialEq, PartialOrd, Clone, Copy)]
pub struct DecayExponentialResponse {
    pub magnitude_alpha_times_user_input: Ratio,
    pub magnitude_beta_times_user_input: Ratio,
    pub alpha: Frequency,
    pub beta: Frequency,
    pub start_time: Time,
    pub user_input: Ratio,
    pub current_time: Time,
    pub exponential_type: DecayingExponentialType,
}

impl DecayExponentialResponse {
    /// Both rates are positive; the time since the start and the largest
    /// value that the term can take can be stored.
    pub open spec fn wf(&self) -> bool {
        &&& self.alpha@ > 0
        &&& self.beta@ > 0
        &&& fits(self.current_time@ - self.start_time@)
        &&& fits(self.first_cap() + self.second_cap())
    }

    /// `1 / alpha`, the time that bounds `t exp(-alpha t)`.
    pub open spec fn horizon(&self) -> int {
        round_div(NANO * NANO, self.alpha@)
    }

    /// What bounds the first term: the magnitude, times `1 / alpha` when
    /// critically damped, where `t exp(-alpha t)` never exceeds `1 / alpha`.
    pub open spec fn first_cap(&self) -> int {
        if self.exponential_type == DecayingExponentialType::CriticallyDamped {
            magnitude(scaled_product(self.magnitude_alpha_times_user_input@, self.horizon()))
        } else {
            magnitude(self.magnitude_alpha_times_user_input@)
        }
    }

    /// What bounds the second term: its magnitude; there is none for a
    /// single pole.
    pub open spec fn second_cap(&self) -> int {
        if self.exponential_type == DecayingExponentialType::Single {
            0
        } else {
            magnitude(self.magnitude_beta_times_user_input@)
        }
    }

    /// The time since the start at the last evaluation.
    pub open spec fn elapsed(&self) -> int {
        self.current_time@ - self.start_time@
    }

    /// By time alone the term has decayed at the last evaluation: `alpha t`
    /// and `beta t` above 20, above 23 when critically damped.
    pub open spec fn decayed_by_time(&self) -> bool {
        if self.exponential_type == DecayingExponentialType::CriticallyDamped {
            &&& self.alpha@ * self.elapsed() > 23 * NANO * NANO
            &&& self.beta@ * self.elapsed() > 23 * NANO * NANO
        } else {
            &&& self.alpha@ * self.elapsed() > 20 * NANO * NANO
            &&& self.beta@ * self.elapsed() > 20 * NANO * NANO
        }
    }

    /// What settling asks of the kernel: for a critically damped term that
    /// has decayed by time, `exp(-alpha t)` at the last evaluation, in
    /// billionths of a billionth; else nothing.
    pub open spec fn steady_query(&self) -> Option<i128> {
        if self.exponential_type == DecayingExponentialType::CriticallyDamped
            && self.decayed_by_time() {
            Some(scaled_product(self.alpha@, self.elapsed()) as i128)
        } else {
            None
        }
    }

    /// The term had decayed at its last evaluation, `gauge` being the
    /// kernel's answer to `steady_query`: `alpha t > 20` and `beta t > 20`;
    /// when critically damped, `alpha t > 23`, `beta t > 23` and
    /// `t exp(-alpha t)` below `1e-10` seconds.
    pub open spec fn steady(&self, gauge: i64) -> bool {
        if self.exponential_type == DecayingExponentialType::CriticallyDamped {
            &&& self.decayed_by_time()
            &&& self.elapsed() * clamped(gauge as int, 0, NANO * NANO)
                < 100_000_000_000_000_000
        } else {
            self.decayed_by_time()
        }
    }

    /// A decaying term tends to 0.
    pub open spec fn steady_value(&self) -> int {
        0
    }

    /// `alpha (t - start_time)`.
    pub open spec fn alpha_argument(&self, t: Time) -> int {
        scaled_product(self.alpha@, t@ - self.start_time@)
    }

    /// `beta (t - start_time)`.
    pub open spec fn beta_argument(&self, t: Time) -> int {
        scaled_product(self.beta@, t@ - self.start_time@)
    }

    /// The term can be evaluated at `t`: the time since its start can be
    /// stored.
    pub open spec fn query_defined(&self, t: Time) -> bool {
        fits(t@ - self.start_time@)
    }

    /// What the term asks of the kernel at `t`: `exp(-alpha t)`, and
    /// `exp(-beta t)` unless there is a single pole.
    pub open spec fn query(&self, t: Time) -> KernelQuery {
        if t@ < self.start_time@ {
            KernelQuery { decay: None, second_decay: None, sine: None, cosine: None }
        } else if self.exponential_type == DecayingExponentialType::Single {
            KernelQuery {
                decay: Some(self.alpha_argument(t) as i128),
                second_decay: None,
                sine: None,
                cosine: None,
            }
        } else {
            KernelQuery {
                decay: Some(self.alpha_argument(t) as i128),
                second_decay: Some(self.beta_argument(t) as i128),
                sine: None,
                cosine: None,
            }
        }
    }

    /// The first term at `t`, the reading taken into `[0, 1]`; when
    /// critically damped, `Ma` times `t exp(-alpha t)`, taken within its
    /// bound.
    pub open spec fn alpha_term(&self, t: Time, reading: KernelReading) -> int {
        if self.exponential_type == DecayingExponentialType::CriticallyDamped {
            clamped(
                scaled_product(
                    self.magnitude_alpha_times_user_input@,
                    scaled_product(t@ - self.start_time@, unit(reading.decay as int)),
                ),
                -self.first_cap(),
                self.first_cap(),
            )
        } else {
            scaled_product(self.magnitude_alpha_times_user_input@, unit(reading.decay as int))
        }
    }

    /// The second term at `t`; none for a single pole.
    pub open spec fn beta_term(&self, reading: KernelReading) -> int {
        if self.exponential_type == DecayingExponentialType::Single {
            0
        } else {
            scaled_product(
                self.magnitude_beta_times_user_input@,
                unit(reading.second_decay as int),
            )
        }
    }

    /// The value at `t` for the kernel's reading: 0 before the start, the
    /// sum of the terms from then on.
    pub open spec fn response(&self, t: Time, reading: KernelReading) -> int {
        if t@ >= self.start_time@ {
            self.alpha_term(t, reading) + self.beta_term(reading)
        } else {
            0
        }
    }

    /// The term after an evaluation at `t`.
    pub open spec fn stamped(&self, t: Time) -> Self {
        DecayExponentialResponse { current_time: t, ..*self }
    }

    /// A term of the given kind.
    pub open spec fn fresh(
        magnitude_alpha_times_user_input: Ratio,
        magnitude_beta_times_user_input: Ratio,
        alpha: Frequency,
        beta: Frequency,
        start_time: Time,
        user_input: Ratio,
        current_time: Time,
        exponential_type: DecayingExponentialType,
    ) -> Self {
        DecayExponentialResponse {
            magnitude_alpha_times_user_input,
            magnitude_beta_times_user_input,
            alpha,
            beta,
            start_time,
            user_input,
            current_time,
            exponential_type,
        }
    }

    /// Checks the term and builds it.
    fn build(
        magnitude_alpha_times_user_input: Ratio,
        magnitude_beta_times_user_input: Ratio,
        alpha: Frequency,
        beta: Frequency,
        start_time: Time,
        user_input: Ratio,
        current_time: Time,
        exponential_type: DecayingExponentialType,
    ) -> (r: SimulatorResult<Self>)
        ensures
            r is Ok <==> Self::fresh(
                magnitude_alpha_times_user_input,
                magnitude_beta_times_user_input,
                alpha,
                beta,
                start_time,
                user_input,
                current_time,
                exponential_type,
            ).wf(),
            r matches Ok(term) ==> term == Self::fresh(
                magnitude_alpha_times_user_input,
                magnitude_beta_times_user_input,
                alpha,
                beta,
                start_time,
                user_input,
                current_time,
                exponential_type,
            ),
            alpha@ <= 0 || beta@ <= 0 ==> r == unstable::<Self>(),
            alpha@ > 0 && beta@ > 0 && r is Err ==> r == out_of_range::<Self>(),
    {
        if alpha.nano <= 0 || beta.nano <= 0 {
            return Err(
                ChemEngProcessControlSimulatorError::UnstableDampingFactorForStableTransferFunction,
            );
        }
        let term = DecayExponentialResponse {
            magnitude_alpha_times_user_input,
            magnitude_beta_times_user_input,
            alpha,
            beta,
            start_time,
            user_input,
            current_time,
            exponential_type,
        };
        if term.is_well_formed() {
            Ok(term)
        } else {
            Err(ChemEngProcessControlSimulatorError::ValueOutOfRange)
        }
    }

    /// `M exp(-a t)`.  Fails with the stability error where
    /// `decay_constant <= 0`, else with the range error where the term is
    /// not well formed.
    pub fn new_single_root(
        magnitude_times_user_input: Ratio,
        decay_constant: Frequency,
        start_time: Time,
        user_input: Ratio,
        current_time: Time,
    ) -> (r: SimulatorResult<Self>)
        ensures
            r is Ok <==> Self::fresh(
                magnitude_times_user_input,
                magnitude_times_user_input,
                decay_constant,
                decay_constant,
                start_time,
                user_input,
                current_time,
                DecayingExponentialType::Single,
            ).wf(),
            r matches Ok(term) ==> term == Self::fresh(
                magnitude_times_user_input,
                magnitude_times_user_input,
                decay_constant,
                decay_constant,
                start_time,
                user_input,
                current_time,
                DecayingExponentialType::Single,
            ),
            decay_constant@ <= 0 ==> r == unstable::<Self>(),
            decay_constant@ > 0 && r is Err ==> r == out_of_range::<Self>(),
    {
        Self::build(
            magnitude_times_user_input,
            magnitude_times_user_input,
            decay_constant,
            decay_constant,
            start_time,
            user_input,
            current_time,
            DecayingExponentialType::Single,
        )
    }

    /// `Ma exp(-alpha t) + Mb exp(-beta t)`.  Fails with the stability error
    /// where a rate is not positive, else with the range error where the
    /// term is not well formed.
    pub fn new_overdamped(
        magnitude_alpha_times_user_input: Ratio,
        magnitude_beta_times_user_input: Ratio,
        alpha: Frequency,
        beta: Frequency,
        start_time: Time,
        user_input: Ratio,
        current_time: Time,
    ) -> (r: SimulatorResult<Self>)
        ensures
            r is Ok <==> Self::fresh(
                magnitude_alpha_times_user_input,
                magnitude_beta_times_user_input,
                alpha,
                beta,
                start_time,
                user_input,
                current_time,
                DecayingExponentialType::Overdamped,
            ).wf(),
            r matches Ok(term) ==> term == Self::fresh(
                magnitude_alpha_times_user_input,
                magnitude_beta_times_user_input,
                alpha,
                beta,
                start_time,
                user_input,
                current_time,
                DecayingExponentialType::Overdamped,
            ),
            alpha@ <= 0 || beta@ <= 0 ==> r == unstable::<Self>(),
            alpha@ > 0 && beta@ > 0 && r is Err ==> r == out_of_range::<Self>(),
    {
        Self::build(
            magnitude_alpha_times_user_input,
            magnitude_beta_times_user_input,
            alpha,
            beta,
            start_time,
            user_input,
            current_time,
            DecayingExponentialType::Overdamped,
        )
    }

    /// `Ma t exp(-alpha t) + Mb exp(-beta t)`; the first magnitude is a
    /// frequency, kept as its number of hertz.  Fails with the stability
    /// error where a rate is not positive, else with the range error where
    /// the term is not well formed.
    pub fn new_critical(
        magnitude_alpha_times_user_input: Frequency,
        magnitude_beta_times_user_input: Ratio,
        alpha: Frequency,
        beta: Frequency,
        start_time: Time,
        user_input: Ratio,
        current_time: Time,
    ) -> (r: SimulatorResult<Self>)
        ensures
            r is Ok <==> Self::fresh(
                Ratio { nano: magnitude_alpha_times_user_input.nano },
                magnitude_beta_times_user_input,
                alpha,
                beta,
                start_time,
                user_input,
                current_time,
                DecayingExponentialType::CriticallyDamped,
            ).wf(),
            r matches Ok(term) ==> term == Self::fresh(
                Ratio { nano: magnitude_alpha_times_user_input.nano },
                magnitude_beta_times_user_input,
                alpha,
                beta,
                start_time,
                user_input,
                current_time,
                DecayingExponentialType::CriticallyDamped,
            ),
            alpha@ <= 0 || beta@ <= 0 ==> r == unstable::<Self>(),
            alpha@ > 0 && beta@ > 0 && r is Err ==> r == out_of_range::<Self>(),
    {
        Self::build(
            Ratio { nano: magnitude_alpha_times_user_input.nano },
            magnitude_beta_times_user_input,
            alpha,
            beta,
            start_time,
            user_input,
            current_time,
            DecayingExponentialType::CriticallyDamped,
        )
    }

    /// What bounds the first term, where both rates are positive.
    fn alpha_cap(&self) -> (cap: i128)
        requires
            self.alpha@ > 0,
        ensures
            cap == self.first_cap(),
            0 <= cap <= 0x4000_0000_0000_0000_0000_0000_0000_0000,
    {
        let first: i64 = self.magnitude_alpha_times_user_input.nano;
        let raw: i128 = match self.exponential_type {
            DecayingExponentialType::CriticallyDamped => {
                let horizon: i128 = rounded_product(NANO, NANO, self.alpha.nano);
                proof {
                    assert(-(1_000_000_000_000_000_000 * self.alpha@) <= NANO * NANO
                        <= 1_000_000_000_000_000_000 * self.alpha@) by (nonlinear_arith)
                        requires
                            NANO == 1_000_000_000,
                            self.alpha@ >= 1,
                    ;
                    lemma_round_div_within(NANO * NANO, self.alpha@, 1_000_000_000_000_000_000);
                    let bound = 0x8000_0000_0000_0000 * 1_000_000_000int;
                    assert(-(bound * NANO) <= first * horizon <= bound * NANO) by (nonlinear_arith)
                        requires
                            -0x8000_0000_0000_0000 <= first <= 0x8000_0000_0000_0000,
                            -1_000_000_000_000_000_000 <= horizon <= 1_000_000_000_000_000_000,
                            NANO == 1_000_000_000,
                            bound == 0x8000_0000_0000_0000 * 1_000_000_000int,
                    ;
                    lemma_round_div_within(first * horizon, NANO as int, bound);
                }
                rounded_product(first, horizon as i64, NANO)
            },
            _ => first as i128,
        };
        if raw < 0 {
            -raw
        } else {
            raw
        }
    }

    /// Whether the value is well formed: what every other function asks
    /// of it.
    pub fn is_well_formed(&self) -> (b: bool)
        ensures
            b == self.wf(),
    {
        if self.alpha.nano <= 0 || self.beta.nano <= 0 || checked_difference(
            self.current_time.nano,
            self.start_time.nano,
        ).is_none() {
            return false;
        }
        let first: i128 = self.alpha_cap();
        let second: i128 = match self.exponential_type {
            DecayingExponentialType::Single => 0,
            _ => {
                let m: i128 = self.magnitude_beta_times_user_input.nano as i128;
                if m < 0 {
                    -m
                } else {
                    m
                }
            },
        };
        first + second <= 0x7fff_ffff_ffff_ffff
    }

    /// `exp(-alpha t)` at the last evaluation, which settling asks of the
    /// kernel; nothing unless the term is critically damped and has decayed
    /// by time.
    pub fn steady_state_query(&self) -> (q: Option<i128>)
        requires
            self.wf(),
        ensures
            q == self.steady_query(),
    {
        match self.exponential_type {
            DecayingExponentialType::CriticallyDamped => {
                if self.has_decayed_by_time() {
                    let elapsed: i64 = self.current_time.nano - self.start_time.nano;
                    Some(rounded_product(self.alpha.nano, elapsed, NANO))
                } else {
                    None
                }
            },
            _ => None,
        }
    }

    /// Whether by time alone the term has decayed at the last evaluation.
    pub fn has_decayed_by_time(&self) -> (b: bool)
        requires
            self.wf(),
        ensures
            b == self.decayed_by_time(),
    {
        let elapsed: i64 = self.current_time.nano - self.start_time.nano;
        let at: i128 = wide_product(self.alpha.nano, elapsed);
        let bt: i128 = wide_product(self.beta.nano, elapsed);
        match self.exponential_type {
            DecayingExponentialType::CriticallyDamped => {
                assert(23 * NANO * NANO == 23_000_000_000_000_000_000int);
                at > 23_000_000_000_000_000_000 && bt > 23_000_000_000_000_000_000
            },
            _ => {
                assert(20 * NANO * NANO == 20_000_000_000_000_000_000int);
                at > 20_000_000_000_000_000_000 && bt > 20_000_000_000_000_000_000
            },
        }
    }

    /// Whether the term had decayed at its last evaluation, for the
    /// kernel's answer `gauge` to `steady_state_query`.
    pub fn is_steady_state_with(&self, gauge: i64) -> (b: bool)
        requires
            self.wf(),
        ensures
            b == self.steady(gauge),
    {
        if !self.has_decayed_by_time() {
            return false;
        }
        match self.exponential_type {
            DecayingExponentialType::CriticallyDamped => {
                let elapsed: i64 = self.current_time.nano - self.start_time.nano;
                assert(NANO * NANO == 1_000_000_000_000_000_000int);
                let fine: i64 = clamp(gauge as i128, 0, 1_000_000_000_000_000_000);
                wide_product(elapsed, fine) < 100_000_000_000_000_000
            },
            _ => true,
        }
    }

    /// Whether the term had decayed at its last evaluation, with
    /// `exp(-alpha t)` as `kernel` computes it; the term is unchanged.
    pub fn is_steady_state<K: Fn(Transcendental, i128) -> i64>(&self, kernel: &K) -> (b: bool)
        requires
            self.wf(),
            callable(kernel),
        ensures
            exists|gauge: i64|
                #[trigger] answers_one(
                    relation_of(kernel),
                    Transcendental::ExpNegFine,
                    self.steady_query(),
                    gauge,
                ) && b == self.steady(gauge),
    {
        let gauge = consult_one(kernel, Transcendental::ExpNegFine, self.steady_state_query());
        self.is_steady_state_with(gauge)
    }

    /// The final value of a decaying term: 0.
    pub fn steady_state_value(&self) -> (v: Ratio)
        ensures
            v@ == self.steady_value(),
    {
        Ratio { nano: 0 }
    }

    /// The arguments for the kernel at `t`.
    pub fn kernel_query(&self, t: Time) -> (r: SimulatorResult<KernelQuery>)
        requires
            self.wf(),
        ensures
            r is Ok <==> self.query_defined(t),
            r matches Ok(q) ==> q == self.query(t),
            r is Err ==> r == out_of_range::<KernelQuery>(),
    {
        let elapsed: i64 = in_range(checked_difference(t.nano, self.start_time.nano))?;
        if elapsed < 0 {
            return Ok(KernelQuery::nothing());
        }
        let at: i128 = rounded_product(self.alpha.nano, elapsed, NANO);
        match self.exponential_type {
            DecayingExponentialType::Single => Ok(
                KernelQuery { decay: Some(at), second_decay: None, sine: None, cosine: None },
            ),
            _ => {
                let bt: i128 = rounded_product(self.beta.nano, elapsed, NANO);
                Ok(
                    KernelQuery {
                        decay: Some(at),
                        second_decay: Some(bt),
                        sine: None,
                        cosine: None,
                    },
                )
            },
        }
    }

    /// The value at `t` for a given reading of the kernel; it can always be
    /// stored.
    pub fn response_with(&self, t: Time, reading: &KernelReading) -> (v: Ratio)
        requires
            self.wf(),
            self.query_defined(t),
        ensures
            v@ == self.response(t, *reading),
    {
        if t.nano < self.start_time.nano {
            return Ratio { nano: 0 };
        }
        let elapsed: i64 = t.nano - self.start_time.nano;
        let decay: i64 = clamp(reading.decay as i128, 0, NANO);
        let first_magnitude: i64 = self.magnitude_alpha_times_user_input.nano;
        let cap: i128 = self.alpha_cap();
        let first: i128 = match self.exponential_type {
            DecayingExponentialType::CriticallyDamped => {
                proof {
                    lemma_scaled_between(elapsed as int, decay as int, 1);
                }
                let weighted: i64 = rounded_product(elapsed, decay, NANO) as i64;
                let raw: i128 = rounded_product(first_magnitude, weighted, NANO);
                if raw < -cap {
                    -cap
                } else if raw > cap {
                    cap
                } else {
                    raw
                }
            },
            _ => {
                proof {
                    lemma_scaled_between(first_magnitude as int, decay as int, 1);
                }
                rounded_product(first_magnitude, decay, NANO)
            },
        };
        let second: i128 = match self.exponential_type {
            DecayingExponentialType::Single => 0,
            _ => {
                let second_decay: i64 = clamp(reading.second_decay as i128, 0, NANO);
                proof {
                    lemma_scaled_between(
                        self.magnitude_beta_times_user_input@,
                        second_decay as int,
                        1,
                    );
                }
                rounded_product(self.magnitude_beta_times_user_input.nano, second_decay, NANO)
            },
        };
        Ratio { nano: (first + second) as i64 }
    }

    /// Moves the term to `simulation_time` and returns its value there, for
    /// the exponentials as `kernel` computes them.  Fails only where the
    /// time since the start cannot be stored, and then the term is
    /// unchanged.
    pub fn calculate_response<K: Fn(Transcendental, i128) -> i64>(
        &mut self,
        simulation_time: Time,
        kernel: &K,
    ) -> (r: SimulatorResult<Ratio>)
        requires
            old(self).wf(),
            callable(kernel),
        ensures
            final(self).wf(),
            r is Ok <==> old(self).query_defined(simulation_time),
            r is Ok ==> exists|reading: KernelReading|
                {
                    &&& #[trigger] answers(
                        relation_of(kernel),
                        old(self).query(simulation_time),
                        reading,
                    )
                    &&& r matches Ok(v) && v@ == old(self).response(simulation_time, reading)
                },
            r is Ok ==> *final(self) == old(self).stamped(simulation_time),
            r is Err ==> r == out_of_range::<Ratio>() && *final(self) == *old(self),
    {
        let query = self.kernel_query(simulation_time)?;
        let reading = consult(kernel, &query);
        let value = self.response_with(simulation_time, &reading);
        self.current_time = simulation_time;
        Ok(value)
    }
}

impl Default for DecayExponentialResponse {
    /// The critically damped `t exp(-t) + exp(-t)` from time 0, for a unit step.
    fn default() -> (term: Self)
        ensures
            term.wf(),
            term == Self::fresh(
                Ratio { nano: NANO },
                Ratio { nano: NANO },
                Frequency { nano: NANO },
                Frequency { nano: NANO },
                Time { nano: 0 },
                Ratio { nano: NANO },
                Time { nano: 0 },
                DecayingExponentialType::CriticallyDamped,
            ),
    {
        DecayExponentialResponse {
            magnitude_alpha_times_user_input: Ratio::one(),
            magnitude_beta_times_user_input: Ratio::one(),
            alpha: Frequency { nano: NANO },
            beta: Frequency { nano: NANO },
            start_time: Time::zero(),
            user_input: Ratio::one(),
            current_time: Time::zero(),
            exponential_type: DecayingExponentialType::CriticallyDamped,
        }
    }
}

} // verus!
