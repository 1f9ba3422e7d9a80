//! Decaying sinusoids: the step responses that zeroes add to an underdamped
//! second-order system.
use crate::errors::{
    ChemEngProcessControlSimulatorError,
    in_range,
    out_of_range,
    SimulatorResult,
    unstable,
};
use crate::fixed_point::{
    checked_difference,
    checked_scaled_product,
    clamp,
    fits,
    lemma_scaled_between,
    lemma_scaled_within,
    magnitude,
    NANO,
    rounded_product,
    scaled_product,
    signed_unit,
    unit,
    wide_product,
};
use crate::kernel::{
    answers,
    callable,
    consult,
    KernelQuery,
    KernelReading,
    KernelRelation,
    relation_of,
    Transcendental,
};
use crate::quantities::{Frequency, Ratio, Time};
use crate::superposition::{
    all_wf,
    ElementaryResponse,
    SuperpositionAccumulator,
    SuperpositionModel,
};
use vstd::prelude::*;

verus! {

/// Which of the two waveforms a decaying sinusoid follows.
#[derive(Debug, PartialEq, Eq, Structural, PartialOrd, Clone, Copy)]
pub enum TransferFnSinusoidType {
    Sine,
    Cosine,
}

/// A transfer function whose step response is `magnitude * exp(-a t) *
/// sin(omega t)` (or `cos`): to every change of its input it answers with
/// one decaying sinusoid.
#[derive(Debug, PartialEq, PartialOrd, Clone)]
pub struct DecayingSinusoid {
    pub magnitude: Ratio,
    /// Decay rate of the envelope.
    pub a: Frequency,
    /// Oscillation frequency.
    pub omega: Frequency,
    pub sinusoid_type: TransferFnSinusoidType,
    /// Last input, offset, dead time and the sinusoids that are still moving.
    pub accumulator: SuperpositionAccumulator,
}

impl DecayingSinusoid {
    /// Decay rate and oscillation frequency are positive and the
    /// accumulator is well formed.
    pub open spec fn wf(&self) -> bool {
        &&& self.a@ > 0
        &&& self.omega@ > 0
        &&& self.accumulator.wf()
    }

    /// The sinusoid that answers a change of the input to `input` at `t`.
    pub open spec fn answer(&self, t: Time, input: Ratio) -> DecaySinusoidResponse {
        DecaySinusoidResponse {
            magnitude: self.magnitude,
            a: self.a,
            start_time: Time { nano: self.accumulator@.start(t) as i64 },
            user_input: Ratio { nano: self.accumulator@.increment(input) as i64 },
            current_time: t,
            omega: self.omega,
            sinusoid_type: self.sinusoid_type,
        }
    }

    /// The responses that an input `input` at `t` spawns: one where the
    /// input has changed, none where it has not.
    pub open spec fn spawned(&self, t: Time, input: Ratio) -> Seq<ElementaryResponse> {
        if self.accumulator.changed(input) {
            seq![ElementaryResponse::DecayingSinusoid(self.answer(t, input))]
        } else {
            Seq::empty()
        }
    }

    /// The increment, the start time and the amplitude of the spawned
    /// sinusoid can be stored.
    pub open spec fn spawn_defined(&self, t: Time, input: Ratio) -> bool {
        self.accumulator.changed(input) ==> {
            &&& fits(self.accumulator@.increment(input))
            &&& fits(self.accumulator@.start(t))
            &&& self.answer(t, input).wf()
        }
    }

    /// Checks the rates and builds the transfer function.
    fn build(
        magnitude: Ratio,
        decay_frequency: Frequency,
        initial_input: Ratio,
        initial_value: Ratio,
        delay: Time,
        omega: Frequency,
        sinusoid_type: TransferFnSinusoidType,
    ) -> (r: SimulatorResult<Self>)
        ensures
            r is Ok <==> decay_frequency@ > 0 && omega@ > 0,
            r matches Ok(tf) ==> {
                &&& tf.wf()
                &&& tf.magnitude == magnitude
                &&& tf.a == decay_frequency
                &&& tf.omega == omega
                &&& tf.sinusoid_type == sinusoid_type
                &&& tf.accumulator.previous_timestep_input == initial_input
                &&& tf.accumulator.offset == initial_value
                &&& tf.accumulator.delay == delay
                &&& tf.accumulator.responses@.len() == 0
            },
            r is Err ==> r == unstable::<Self>(),
    {
        if decay_frequency.nano <= 0 || omega.nano <= 0 {
            return Err(
                ChemEngProcessControlSimulatorError::UnstableDampingFactorForStableTransferFunction,
            );
        }
        Ok(
            DecayingSinusoid {
                magnitude,
                a: decay_frequency,
                omega,
                sinusoid_type,
                accumulator: SuperpositionAccumulator::new(initial_input, initial_value, delay),
            },
        )
    }

    /// Step response `magnitude * exp(-a t) * sin(omega t)`; fails where
    /// `decay_frequency <= 0` or `omega <= 0`.
    pub fn new_sine(
        magnitude: Ratio,
        decay_frequency: Frequency,
        initial_input: Ratio,
        initial_value: Ratio,
        delay: Time,
        omega: Frequency,
    ) -> (r: SimulatorResult<Self>)
        ensures
            r is Ok <==> decay_frequency@ > 0 && omega@ > 0,
            r matches Ok(tf) ==> {
                &&& tf.wf()
                &&& tf.magnitude == magnitude
                &&& tf.a == decay_frequency
                &&& tf.omega == omega
                &&& tf.sinusoid_type == TransferFnSinusoidType::Sine
                &&& tf.accumulator.previous_timestep_input == initial_input
                &&& tf.accumulator.offset == initial_value
                &&& tf.accumulator.delay == delay
                &&& tf.accumulator.responses@.len() == 0
            },
            r is Err ==> r == unstable::<Self>(),
    {
        Self::build(
            magnitude,
            decay_frequency,
            initial_input,
            initial_value,
            delay,
            omega,
            TransferFnSinusoidType::Sine,
        )
    }

    /// Step response `magnitude * exp(-a t) * cos(omega t)`; fails where
    /// `decay_frequency <= 0` or `omega <= 0`.
    pub fn new_cosine(
        magnitude: Ratio,
        decay_frequency: Frequency,
        initial_input: Ratio,
        initial_value: Ratio,
        delay: Time,
        omega: Frequency,
    ) -> (r: SimulatorResult<Self>)
        ensures
            r is Ok <==> decay_frequency@ > 0 && omega@ > 0,
            r matches Ok(tf) ==> {
                &&& tf.wf()
                &&& tf.magnitude == magnitude
                &&& tf.a == decay_frequency
                &&& tf.omega == omega
                &&& tf.sinusoid_type == TransferFnSinusoidType::Cosine
                &&& tf.accumulator.previous_timestep_input == initial_input
                &&& tf.accumulator.offset == initial_value
                &&& tf.accumulator.delay == delay
                &&& tf.accumulator.responses@.len() == 0
            },
            r is Err ==> r == unstable::<Self>(),
    {
        Self::build(
            magnitude,
            decay_frequency,
            initial_input,
            initial_value,
            delay,
            omega,
            TransferFnSinusoidType::Cosine,
        )
    }

    /// Whether the value is well formed: what every other function asks
    /// of it.
    pub fn is_well_formed(&self) -> (b: bool)
        ensures
            b == self.wf(),
    {
        self.a.nano > 0 && self.omega.nano > 0 && self.accumulator.is_well_formed()
    }

    /// The responses that an input `current_input` at `current_time` spawns.
    pub fn spawn(
        &self,
        current_time: Time,
        current_input: Ratio,
    ) -> (r: SimulatorResult<Vec<ElementaryResponse>>)
        requires
            self.wf(),
        ensures
            r is Ok <==> self.spawn_defined(current_time, current_input),
            r matches Ok(v) ==> v@ == self.spawned(current_time, current_input) && all_wf(v@),
            r is Err ==> r == out_of_range::<Vec<ElementaryResponse>>(),
    {
        let mut spawned: Vec<ElementaryResponse> = Vec::new();
        if self.accumulator.input_changed(current_input) {
            let user_input = self.accumulator.input_increment(current_input)?;
            let start_time = self.accumulator.start_time(current_time)?;
            let answer = DecaySinusoidResponse::new(
                self.magnitude,
                self.a,
                start_time,
                user_input,
                current_time,
                self.omega,
                self.sinusoid_type,
            )?;
            spawned.push(ElementaryResponse::DecayingSinusoid(answer));
        }
        Ok(spawned)
    }

    /// `after` is this transfer function with its accumulator replaced by
    /// one that holds `accumulator`.
    pub open spec fn moved_to(&self, after: &Self, accumulator: SuperpositionModel) -> bool {
        &&& after.magnitude == self.magnitude
        &&& after.a == self.a
        &&& after.omega == self.omega
        &&& after.sinusoid_type == self.sinusoid_type
        &&& after.accumulator@ == accumulator
    }

    /// This transfer function with `accumulator` in place of its own.
    pub fn with_accumulator(&self, accumulator: SuperpositionAccumulator) -> (after: Self)
        requires
            self.wf(),
            accumulator.wf(),
        ensures
            after.wf(),
            self.moved_to(&after, accumulator@),
            after.accumulator == accumulator,
    {
        DecayingSinusoid {
            magnitude: self.magnitude,
            a: self.a,
            omega: self.omega,
            sinusoid_type: self.sinusoid_type,
            accumulator,
        }
    }

    /// `after` and `result` are what the accumulator may hold and what may be
    /// returned after the input `input` at `t`, the kernel being `kernel`:
    /// the result of a step of the accumulator with the spawned responses,
    /// or a failure that changes nothing where these cannot be built.
    pub open spec fn step_result(
        &self,
        t: Time,
        input: Ratio,
        kernel: KernelRelation,
        after: SuperpositionModel,
        result: SimulatorResult<Ratio>,
    ) -> bool {
        if self.spawn_defined(t, input) {
            self.accumulator@.step_result(t, input, self.spawned(t, input), kernel, after, result)
        } else {
            result == out_of_range::<Ratio>() && after == self.accumulator@
        }
    }

    /// The accumulator and the output after the input `current_input` at
    /// `current_time`, with the transfer function itself left as it is.
    pub fn respond<K: Fn(Transcendental, i128) -> i64>(
        &self,
        current_time: Time,
        current_input: Ratio,
        kernel: &K,
    ) -> (r: SimulatorResult<(SuperpositionAccumulator, Ratio)>)
        requires
            self.wf(),
            callable(kernel),
        ensures
            self.step_result(
                current_time,
                current_input,
                relation_of(kernel),
                match r {
                    Ok((next, out)) => next@,
                    Err(_) => self.accumulator@,
                },
                match r {
                    Ok((next, out)) => Ok(out),
                    Err(e) => Err(e),
                },
            ),
            r matches Ok((next, out)) ==> next.wf(),
            r is Err ==> r == out_of_range::<(SuperpositionAccumulator, Ratio)>(),
    {
        let spawned = self.spawn(current_time, current_input)?;
        self.accumulator.advance(current_time, current_input, &spawned, kernel)
    }

    /// Takes the input `current_input` at `current_time` and returns the
    /// output there.  A changed input spawns a sinusoid scaled by the
    /// increment, which switches on after the dead time; sinusoids whose
    /// envelope had decayed at their last evaluation leave; the output is
    /// the offset plus the active sinusoids, with the exponentials, sines
    /// and cosines as `kernel` computes them.  On failure nothing changes.
    pub fn set_user_input_and_calc_output<K: Fn(Transcendental, i128) -> i64>(
        &mut self,
        current_time: Time,
        current_input: Ratio,
        kernel: &K,
    ) -> (r: SimulatorResult<Ratio>)
        requires
            old(self).wf(),
            callable(kernel),
        ensures
            final(self).wf(),
            final(self).magnitude == old(self).magnitude,
            final(self).a == old(self).a,
            final(self).omega == old(self).omega,
            final(self).sinusoid_type == old(self).sinusoid_type,
            old(self).step_result(
                current_time,
                current_input,
                relation_of(kernel),
                final(self).accumulator@,
                r,
            ),
            r is Err ==> *final(self) == *old(self),
    {
        let (next, output) = self.respond(current_time, current_input, kernel)?;
        self.accumulator = next;
        Ok(output)
    }
}

/// One term `user_input * magnitude * exp(-a t) * sin(omega t)` (or `cos`)
/// that switches on at `start_time`.
#[derive(Debug, PartialEq, PartialOrd, Clone, Copy)]
pub struct DecaySinusoidResponse {
    pub magnitude: Ratio,
    pub a: Frequency,
    pub start_time: Time,
    pub user_input: Ratio,
    pub current_time: Time,
    pub omega: Frequency,
    pub sinusoid_type: TransferFnSinusoidType,
}

impl DecaySinusoidResponse {
    /// Decay rate and oscillation frequency are positive; the amplitude, in
    /// either sign, and the time since the start can be stored.
    pub open spec fn wf(&self) -> bool {
        &&& self.a@ > 0
        &&& self.omega@ > 0
        &&& fits(self.amplitude())
        &&& fits(-self.amplitude())
        &&& fits(self.current_time@ - self.start_time@)
    }

    /// `user_input * magnitude`.
    pub open spec fn amplitude(&self) -> int {
        scaled_product(self.user_input@, self.magnitude@)
    }

    /// The envelope has decayed by the last evaluation: `a t > 20`.
    pub open spec fn steady(&self) -> bool {
        self.a@ * (self.current_time@ - self.start_time@) > 20 * NANO * NANO
    }

    /// A decaying sinusoid tends to 0.
    pub open spec fn steady_value(&self) -> int {
        0
    }

    /// `a (t - start_time)`.
    pub open spec fn decay_argument(&self, t: Time) -> int {
        scaled_product(self.a@, t@ - self.start_time@)
    }

    /// `omega (t - start_time)`.
    pub open spec fn angle(&self, t: Time) -> int {
        scaled_product(self.omega@, t@ - self.start_time@)
    }

    /// The term can be evaluated at `t`: the time since its start can be
    /// stored.
    pub open spec fn query_defined(&self, t: Time) -> bool {
        fits(t@ - self.start_time@)
    }

    /// What the term asks of the kernel at `t`: the envelope and its waveform.
    pub open spec fn query(&self, t: Time) -> KernelQuery {
        if t@ < self.start_time@ {
            KernelQuery { decay: None, second_decay: None, sine: None, cosine: None }
        } else if self.sinusoid_type == TransferFnSinusoidType::Sine {
            KernelQuery {
                decay: Some(self.decay_argument(t) as i128),
                second_decay: None,
                sine: Some(self.angle(t) as i128),
                cosine: None,
            }
        } else {
            KernelQuery {
                decay: Some(self.decay_argument(t) as i128),
                second_decay: None,
                sine: None,
                cosine: Some(self.angle(t) as i128),
            }
        }
    }

    /// `amplitude * exp(-a t)`, the reading taken into `[0, 1]`.
    pub open spec fn envelope(&self, reading: KernelReading) -> int {
        scaled_product(self.amplitude(), unit(reading.decay as int))
    }

    /// The kernel's reading of the waveform, taken into `[-1, 1]`.
    pub open spec fn wave(&self, reading: KernelReading) -> int {
        if self.sinusoid_type == TransferFnSinusoidType::Sine {
            signed_unit(reading.sine as int)
        } else {
            signed_unit(reading.cosine as int)
        }
    }

    /// The value at `t` for the kernel's reading: 0 before the start, the
    /// envelope times the waveform from then on; it is no larger than the
    /// amplitude.
    pub open spec fn response(&self, t: Time, reading: KernelReading) -> int {
        if t@ >= self.start_time@ {
            scaled_product(self.envelope(reading), self.wave(reading))
        } else {
            0
        }
    }

    /// The term after an evaluation at `t`.
    pub open spec fn stamped(&self, t: Time) -> Self {
        DecaySinusoidResponse { current_time: t, ..*self }
    }

    /// A decaying sinusoid.  Fails with the stability error where `a <= 0` or
    /// `omega <= 0`, else with the range error where the amplitude or the
    /// time since the start cannot be stored.
    pub fn new(
        magnitude: Ratio,
        a: Frequency,
        start_time: Time,
        user_input: Ratio,
        current_time: Time,
        omega: Frequency,
        sinusoid_type: TransferFnSinusoidType,
    ) -> (r: SimulatorResult<Self>)
        ensures
            r is Ok <==> (DecaySinusoidResponse {
                magnitude,
                a,
                start_time,
                user_input,
                current_time,
                omega,
                sinusoid_type,
            }).wf(),
            r matches Ok(term) ==> term == (DecaySinusoidResponse {
                magnitude,
                a,
                start_time,
                user_input,
                current_time,
                omega,
                sinusoid_type,
            }),
            a@ <= 0 || omega@ <= 0 ==> r == unstable::<Self>(),
            a@ > 0 && omega@ > 0 && r is Err ==> r == out_of_range::<Self>(),
    {
        if a.nano <= 0 || omega.nano <= 0 {
            return Err(
                ChemEngProcessControlSimulatorError::UnstableDampingFactorForStableTransferFunction,
            );
        }
        let term = DecaySinusoidResponse {
            magnitude,
            a,
            start_time,
            user_input,
            current_time,
            omega,
            sinusoid_type,
        };
        if term.is_well_formed() {
            Ok(term)
        } else {
            Err(ChemEngProcessControlSimulatorError::ValueOutOfRange)
        }
    }

    /// Whether the value is well formed: what every other function asks
    /// of it.
    pub fn is_well_formed(&self) -> (b: bool)
        ensures
            b == self.wf(),
    {
        if self.a.nano <= 0 || self.omega.nano <= 0 {
            return false;
        }
        match checked_scaled_product(self.user_input.nano, self.magnitude.nano) {
            Some(amplitude) => checked_difference(0, amplitude).is_some() && checked_difference(
                self.current_time.nano,
                self.start_time.nano,
            ).is_some(),
            None => false,
        }
    }

    /// Whether the envelope has decayed by the last evaluation; the
    /// oscillation plays no part.
    pub fn is_steady_state(&self) -> (b: bool)
        requires
            self.wf(),
        ensures
            b == self.steady(),
    {
        let elapsed: i64 = self.current_time.nano - self.start_time.nano;
        assert(20 * NANO * NANO == 20_000_000_000_000_000_000int);
        wide_product(self.a.nano, elapsed) > 20_000_000_000_000_000_000
    }

    /// The final value of a decaying sinusoid: 0.
    pub fn steady_state_value(&self) -> (v: Ratio)
        ensures
            v@ == self.steady_value(),
    {
        Ratio { nano: 0 }
    }

    /// The arguments for the kernel at `t`.
    pub fn kernel_query(&self, t: Time) -> (r: SimulatorResult<KernelQuery>)
        requires
            self.wf(),
        ensures
            r is Ok <==> self.query_defined(t),
            r matches Ok(q) ==> q == self.query(t),
            r is Err ==> r == out_of_range::<KernelQuery>(),
    {
        let elapsed: i64 = in_range(checked_difference(t.nano, self.start_time.nano))?;
        if elapsed < 0 {
            return Ok(KernelQuery::nothing());
        }
        let at: i128 = rounded_product(self.a.nano, elapsed, NANO);
        let angle: i128 = rounded_product(self.omega.nano, elapsed, NANO);
        match self.sinusoid_type {
            TransferFnSinusoidType::Sine => Ok(
                KernelQuery {
                    decay: Some(at),
                    second_decay: None,
                    sine: Some(angle),
                    cosine: None,
                },
            ),
            TransferFnSinusoidType::Cosine => Ok(
                KernelQuery {
                    decay: Some(at),
                    second_decay: None,
                    sine: None,
                    cosine: Some(angle),
                },
            ),
        }
    }

    /// The value at `t` for a given reading of the kernel; it can always be
    /// stored.
    pub fn response_with(&self, t: Time, reading: &KernelReading) -> (v: Ratio)
        requires
            self.wf(),
        ensures
            v@ == self.response(t, *reading),
    {
        if t.nano < self.start_time.nano {
            return Ratio { nano: 0 };
        }
        let amplitude: i64 = match checked_scaled_product(
            self.user_input.nano,
            self.magnitude.nano,
        ) {
            Some(v) => v,
            None => 0,
        };
        let decay: i64 = clamp(reading.decay as i128, 0, NANO);
        proof {
            lemma_scaled_between(amplitude as int, decay as int, 1);
        }
        let envelope: i64 = rounded_product(amplitude, decay, NANO) as i64;
        let wave: i64 = match self.sinusoid_type {
            TransferFnSinusoidType::Sine => clamp(reading.sine as i128, -NANO, NANO),
            TransferFnSinusoidType::Cosine => clamp(reading.cosine as i128, -NANO, NANO),
        };
        proof {
            lemma_scaled_within(envelope as int, wave as int);
        }
        Ratio { nano: rounded_product(envelope, wave, NANO) as i64 }
    }

    /// Moves the term to `simulation_time` and returns its value there, for
    /// the exponential and the waveform as `kernel` computes them.  Fails
    /// only where the time since the start cannot be stored, and then the
    /// term is unchanged.
    pub fn calculate_response<K: Fn(Transcendental, i128) -> i64>(
        &mut self,
        simulation_time: Time,
        kernel: &K,
    ) -> (r: SimulatorResult<Ratio>)
        requires
            old(self).wf(),
            callable(kernel),
        ensures
            final(self).wf(),
            r is Ok <==> old(self).query_defined(simulation_time),
            r is Ok ==> exists|reading: KernelReading|
                {
                    &&& #[trigger] answers(
                        relation_of(kernel),
                        old(self).query(simulation_time),
                        reading,
                    )
                    &&& r matches Ok(v) && v@ == old(self).response(simulation_time, reading)
                },
            r is Ok ==> *final(self) == old(self).stamped(simulation_time),
            r is Err ==> r == out_of_range::<Ratio>() && *final(self) == *old(self),
    {
        let query = self.kernel_query(simulation_time)?;
        let reading = consult(kernel, &query);
        let value = self.response_with(simulation_time, &reading);
        self.current_time = simulation_time;
        Ok(value)
    }
}

impl Default for DecaySinusoidResponse {
    /// `exp(-t) sin(t)` from time 0, for a unit step.
    fn default() -> (term: Self)
        ensures
            term.wf(),
            term.magnitude@ == NANO,
            term.a@ == NANO,
            term.start_time@ == 0,
            term.user_input@ == NANO,
            term.current_time@ == 0,
            term.omega@ == NANO,
            term.sinusoid_type == TransferFnSinusoidType::Sine,
    {
        DecaySinusoidResponse {
            magnitude: Ratio::one(),
            a: Frequency { nano: NANO },
            start_time: Time::zero(),
            user_input: Ratio::one(),
            current_time: Time::zero(),
            omega: Frequency { nano: NANO },
            sinusoid_type: TransferFnSinusoidType::Sine,
        }
    }
}

impl Default for DecayingSinusoid {
    /// Step response `exp(-t) sin(t)`, at rest, without dead time.
    fn default() -> (tf: Self)
        ensures
            tf.wf(),
            tf.magnitude@ == NANO,
            tf.a@ == NANO,
            tf.omega@ == NANO,
            tf.sinusoid_type == TransferFnSinusoidType::Sine,
            tf.accumulator.previous_timestep_input@ == 0,
            tf.accumulator.offset@ == 0,
            tf.accumulator.delay@ == 0,
            tf.accumulator.responses@.len() == 0,
    {
        DecayingSinusoid {
            magnitude: Ratio::one(),
            a: Frequency { nano: NANO },
            omega: Frequency { nano: NANO },
            sinusoid_type: TransferFnSinusoidType::Sine,
            accumulator: SuperpositionAccumulator::new(Ratio::zero(), Ratio::zero(), Time::zero()),
        }
    }
}

} // verus!
