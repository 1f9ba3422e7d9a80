//! The second-order transfer function
//! `(a1 s^2 + b1 s + c1) / (a2 s^2 + b2 s + c2)`.
//!
//! The denominator gives the time constant `tau = sqrt(a2 / c2)`, the damping
//! factor `zeta = b2 / (2 sqrt(a2 c2))`, the decay rate `lambda = b2 / (2 a2)`
//! and the oscillation frequency `omega = sqrt(c2 / a2 - lambda^2)`; `c1`
//! gives the gain `c1 / c2` of the part without zeroes, and `a1`, `b1` give
//! the decaying terms that the zeroes add.
use crate::errors::{
    ChemEngProcessControlSimulatorError,
    in_range,
    out_of_range,
    SimulatorResult,
    unimplemented_regime,
    unstable,
};
use crate::fixed_point::{
    checked_difference,
    checked_scaled_product,
    checked_scaled_quotient,
    checked_scaled_root,
    checked_sum,
    fits,
    NANO,
    scaled_product,
    scaled_quotient,
    scaled_root,
};
use crate::kernel::{callable, KernelRelation, relation_of, Transcendental};
use crate::quantities::{Frequency, Ratio, Time, TimeSquared};
use crate::stable_transfer_functions::decaying_exponentials::{
    DecayingExponential,
    DecayingExponentialType,
};
use crate::stable_transfer_functions::decaying_sinusoid::{DecayingSinusoid, TransferFnSinusoidType};
use crate::stable_transfer_functions::second_order_transfer_fn::{
    lemma_probe_is_well_formed,
    SecondOrderStableTransferFnNoZeroes,
};
use crate::superposition::{
    add_outputs,
    add_three_outputs,
    sum_of,
    sum_of_three,
    SuperpositionModel,
};
use vstd::string::StringExecFns;
use vstd::prelude::*;

verus! {

/// A second-order transfer function, by its damping regime.
#[derive(Debug, PartialEq, PartialOrd, Clone)]
pub enum TransferFnSecondOrder {
    /// `0 < zeta < 1`: the part without zeroes, the decaying cosine and the
    /// decaying sine.
    StableUnderdamped(SecondOrderStableTransferFnNoZeroes, DecayingSinusoid, DecayingSinusoid),
    /// `zeta = 1`: the part without zeroes and the decaying term.
    StableCriticallydamped(SecondOrderStableTransferFnNoZeroes, DecayingExponential),
    /// `zeta > 1`: the part without zeroes and the decaying term.
    StableOverdamped(SecondOrderStableTransferFnNoZeroes, DecayingExponential),
    /// Poles in the right half plane; no closed form is provided.
    Unstable,
    /// No damping; no closed form is provided.
    Undamped,
}

/// The physical parameters that the coefficients select.
pub struct SecondOrderDesign {
    /// `tau = sqrt(a2 / c2)`.
    pub process_time: int,
    /// `zeta = b2 / (2 sqrt(a2 c2))`.
    pub damping_factor: int,
    /// `Kp = c1 / c2`.
    pub process_gain: int,
    /// `lambda = b2 / (2 a2)`.
    pub decay: int,
    /// `omega = sqrt(c2 / a2 - lambda^2)` when underdamped, else 0.
    pub frequency: int,
    /// `a1 / a2`: the coefficient of the cosine, or of the plain exponential.
    pub first_coefficient: int,
    /// `(b1 / a2 - lambda a1 / a2) / omega`, the coefficient of the sine,
    /// when underdamped; `b1 / a2 - lambda a1 / a2`, the coefficient of the
    /// exponential times `t`, when critically damped.
    pub second_coefficient: int,
}

/// `a2 / c2`.
pub open spec fn time_squared(a2: TimeSquared, c2: Ratio) -> int {
    scaled_quotient(a2@, c2@)
}

/// `sqrt(a2 c2)`.
pub open spec fn root_of_product(a2: TimeSquared, c2: Ratio) -> int {
    scaled_root(scaled_product(a2@, c2@))
}

/// `zeta = b2 / (2 sqrt(a2 c2))`.
pub open spec fn damping_of(a2: TimeSquared, b2: Time, c2: Ratio) -> int {
    scaled_quotient(b2@, 2 * root_of_product(a2, c2))
}

/// `lambda = b2 / (2 a2)`.
pub open spec fn decay_of(a2: TimeSquared, b2: Time) -> int {
    scaled_quotient(b2@, 2 * a2@)
}

/// `c2 / a2 - lambda^2`.
pub open spec fn frequency_squared(a2: TimeSquared, b2: Time, c2: Ratio) -> int {
    scaled_quotient(c2@, a2@) - scaled_product(decay_of(a2, b2), decay_of(a2, b2))
}

/// `omega = sqrt(c2 / a2 - lambda^2)`; 0 where the radicand is negative.
pub open spec fn frequency_of(a2: TimeSquared, b2: Time, c2: Ratio) -> int {
    if frequency_squared(a2, b2, c2) >= 0 {
        scaled_root(frequency_squared(a2, b2, c2))
    } else {
        0
    }
}

/// `b1 / a2 - lambda a1 / a2`.
pub open spec fn zero_rate(a1: TimeSquared, b1: Time, a2: TimeSquared, b2: Time) -> int {
    scaled_quotient(b1@, a2@) - scaled_product(decay_of(a2, b2), scaled_quotient(a1@, a2@))
}

/// `(b1 / a2) / omega - (lambda a1 / a2) / omega`.
pub open spec fn sine_coefficient(
    a1: TimeSquared,
    b1: Time,
    a2: TimeSquared,
    b2: Time,
    c2: Ratio,
) -> int {
    scaled_quotient(scaled_quotient(b1@, a2@), frequency_of(a2, b2, c2)) - scaled_quotient(
        scaled_product(decay_of(a2, b2), scaled_quotient(a1@, a2@)),
        frequency_of(a2, b2, c2),
    )
}

/// The denominator has two coefficients that can be divided by, and the
/// quantities under the square roots can be stored.
pub open spec fn denominator_in_range(a2: TimeSquared, c2: Ratio) -> bool {
    &&& fits(scaled_product(a2@, c2@))
    &&& fits(time_squared(a2, c2))
}

/// What regime selection can store before it looks at the zeroes.
pub open spec fn poles_in_range(a2: TimeSquared, b2: Time, c1: Ratio, c2: Ratio) -> bool {
    &&& fits(scaled_quotient(c1@, c2@))
    &&& fits(2 * a2@)
    &&& fits(decay_of(a2, b2))
}

/// What an underdamped system stores of its frequency.
pub open spec fn frequency_in_range(a2: TimeSquared, b2: Time, c2: Ratio) -> bool {
    &&& fits(scaled_quotient(c2@, a2@))
    &&& fits(scaled_product(decay_of(a2, b2), decay_of(a2, b2)))
    &&& fits(frequency_squared(a2, b2, c2))
}

/// What a system stores of its zeroes before it divides by the frequency.
pub open spec fn zeroes_in_range(a1: TimeSquared, b1: Time, a2: TimeSquared, b2: Time) -> bool {
    &&& fits(scaled_quotient(a1@, a2@))
    &&& fits(scaled_quotient(b1@, a2@))
    &&& fits(scaled_product(decay_of(a2, b2), scaled_quotient(a1@, a2@)))
}

/// The coefficient of the sine and its intermediates can be stored.
pub open spec fn sine_in_range(
    a1: TimeSquared,
    b1: Time,
    a2: TimeSquared,
    b2: Time,
    c2: Ratio,
) -> bool {
    &&& fits(scaled_quotient(scaled_quotient(b1@, a2@), frequency_of(a2, b2, c2)))
    &&& fits(
        scaled_quotient(
            scaled_product(decay_of(a2, b2), scaled_quotient(a1@, a2@)),
            frequency_of(a2, b2, c2),
        ),
    )
    &&& fits(sine_coefficient(a1, b1, a2, b2, c2))
}

/// Regime selection: the parameters of the system that the coefficients
/// describe, or why there is none.
///
/// - Unimplemented: `a2 = 0`, `c2 = 0` or `a2 c2 <= 0` (no positive time
///   constant), `zeta < 0` (unstable), `zeta > 1` (overdamped).
/// - Unstable: `zeta = 0`, or a time constant, decay rate or frequency that
///   is not positive.
/// - Out of range: a parameter or an intermediate that cannot be stored.
pub open spec fn second_order_design(
    a1: TimeSquared,
    b1: Time,
    c1: Ratio,
    a2: TimeSquared,
    b2: Time,
    c2: Ratio,
) -> SimulatorResult<SecondOrderDesign> {
    let tau = scaled_root(time_squared(a2, c2));
    let zeta = damping_of(a2, b2, c2);
    let lambda = decay_of(a2, b2);
    let omega = frequency_of(a2, b2, c2);
    if a2@ == 0 || c2@ == 0 {
        unimplemented_regime()
    } else if !denominator_in_range(a2, c2) {
        out_of_range()
    } else if scaled_product(a2@, c2@) <= 0 || time_squared(a2, c2) < 0 {
        unimplemented_regime()
    } else if !fits(2 * root_of_product(a2, c2)) || !fits(zeta) {
        out_of_range()
    } else if zeta < 0 || zeta > NANO {
        unimplemented_regime()
    } else if !poles_in_range(a2, b2, c1, c2) || !zeroes_in_range(a1, b1, a2, b2) {
        out_of_range()
    } else if zeta < NANO {
        if !frequency_in_range(a2, b2, c2) {
            out_of_range()
        } else if zeta == 0 || tau <= 0 || lambda <= 0 || omega <= 0 {
            unstable()
        } else if !sine_in_range(a1, b1, a2, b2, c2) {
            out_of_range()
        } else {
            Ok(
                SecondOrderDesign {
                    process_time: tau,
                    damping_factor: zeta,
                    process_gain: scaled_quotient(c1@, c2@),
                    decay: lambda,
                    frequency: omega,
                    first_coefficient: scaled_quotient(a1@, a2@),
                    second_coefficient: sine_coefficient(a1, b1, a2, b2, c2),
                },
            )
        }
    } else {
        if !fits(zero_rate(a1, b1, a2, b2)) {
            out_of_range()
        } else if tau <= 0 || lambda <= 0 {
            unstable()
        } else {
            Ok(
                SecondOrderDesign {
                    process_time: tau,
                    damping_factor: zeta,
                    process_gain: scaled_quotient(c1@, c2@),
                    decay: lambda,
                    frequency: 0,
                    first_coefficient: scaled_quotient(a1@, a2@),
                    second_coefficient: zero_rate(a1, b1, a2, b2),
                },
            )
        }
    }
}

/// The accumulator of a part at rest without dead time.
pub open spec fn at_rest(accumulator: SuperpositionModel) -> bool {
    &&& accumulator.previous_timestep_input@ == 0
    &&& accumulator.offset@ == 0
    &&& accumulator.delay@ == 0
    &&& accumulator.responses.len() == 0
}

impl TransferFnSecondOrder {
    /// The parts are well formed.
    pub open spec fn wf(&self) -> bool {
        match *self {
            TransferFnSecondOrder::StableUnderdamped(no_zeroes, cosine, sine) => no_zeroes.wf()
                && cosine.wf() && sine.wf(),
            TransferFnSecondOrder::StableCriticallydamped(no_zeroes, decaying) => no_zeroes.wf()
                && decaying.wf(),
            TransferFnSecondOrder::StableOverdamped(no_zeroes, decaying) => no_zeroes.wf()
                && decaying.wf(),
            _ => true,
        }
    }

    /// The system that `design` describes, at rest.
    pub open spec fn built_from(&self, design: SecondOrderDesign) -> bool {
        if design.damping_factor < NANO {
            &&& *self matches TransferFnSecondOrder::StableUnderdamped(no_zeroes, cosine, sine)
            &&& no_zeroes.process_gain@ == design.process_gain
            &&& no_zeroes.process_time@ == design.process_time
            &&& no_zeroes.damping_factor@ == design.damping_factor
            &&& at_rest(no_zeroes.accumulator@)
            &&& cosine.magnitude@ == design.first_coefficient
            &&& cosine.a@ == design.decay
            &&& cosine.omega@ == design.frequency
            &&& cosine.sinusoid_type == TransferFnSinusoidType::Cosine
            &&& at_rest(cosine.accumulator@)
            &&& sine.magnitude@ == design.second_coefficient
            &&& sine.a@ == design.decay
            &&& sine.omega@ == design.frequency
            &&& sine.sinusoid_type == TransferFnSinusoidType::Sine
            &&& at_rest(sine.accumulator@)
        } else {
            &&& *self matches TransferFnSecondOrder::StableCriticallydamped(no_zeroes, decaying)
            &&& no_zeroes.process_gain@ == design.process_gain
            &&& no_zeroes.process_time@ == design.process_time
            &&& no_zeroes.damping_factor@ == design.damping_factor
            &&& at_rest(no_zeroes.accumulator@)
            &&& decaying.magnitude_alpha@ == design.second_coefficient
            &&& decaying.magnitude_beta@ == design.first_coefficient
            &&& decaying.alpha@ == design.decay
            &&& decaying.beta@ == design.decay
            &&& decaying.exponent_type == DecayingExponentialType::CriticallyDamped
            &&& at_rest(decaying.accumulator@)
        }
    }

    /// `after` is this transfer function with the dead time of every part
    /// set to `dead_time` and nothing else changed.
    pub open spec fn delayed_by(&self, after: &Self, dead_time: Time) -> bool {
        match *self {
            TransferFnSecondOrder::StableUnderdamped(no_zeroes, cosine, sine) => {
                &&& *after matches TransferFnSecondOrder::StableUnderdamped(n, c, s)
                &&& no_zeroes.moved_to(
                    &n,
                    SuperpositionModel { delay: dead_time, ..no_zeroes.accumulator@ },
                )
                &&& cosine.moved_to(
                    &c,
                    SuperpositionModel { delay: dead_time, ..cosine.accumulator@ },
                )
                &&& sine.moved_to(&s, SuperpositionModel { delay: dead_time, ..sine.accumulator@ })
            },
            TransferFnSecondOrder::StableCriticallydamped(no_zeroes, decaying) => {
                &&& *after matches TransferFnSecondOrder::StableCriticallydamped(n, d)
                &&& no_zeroes.moved_to(
                    &n,
                    SuperpositionModel { delay: dead_time, ..no_zeroes.accumulator@ },
                )
                &&& decaying.moved_to(
                    &d,
                    SuperpositionModel { delay: dead_time, ..decaying.accumulator@ },
                )
            },
            TransferFnSecondOrder::StableOverdamped(no_zeroes, decaying) => {
                &&& *after matches TransferFnSecondOrder::StableOverdamped(n, d)
                &&& no_zeroes.moved_to(
                    &n,
                    SuperpositionModel { delay: dead_time, ..no_zeroes.accumulator@ },
                )
                &&& decaying.moved_to(
                    &d,
                    SuperpositionModel { delay: dead_time, ..decaying.accumulator@ },
                )
            },
            _ => *after == *self,
        }
    }

    /// `after` and `result` are what the transfer function may become and
    /// return after the input `input` at `t`, the kernel being `kernel`.
    /// A stable one hands the input to each part in turn, the part without
    /// zeroes first, and returns the sum of their outputs, held wide and
    /// narrowed once; where a part fails or the sum cannot be stored,
    /// nothing changes.  The others fail as unimplemented.
    pub open spec fn step_result(
        &self,
        input: Ratio,
        t: Time,
        kernel: KernelRelation,
        after: Self,
        result: SimulatorResult<Ratio>,
    ) -> bool {
        match *self {
            TransferFnSecondOrder::StableUnderdamped(no_zeroes, cosine, sine) => exists|
                first: SuperpositionModel,
                first_output: SimulatorResult<Ratio>,
                second: SuperpositionModel,
                second_output: SimulatorResult<Ratio>,
                third: SuperpositionModel,
                third_output: SimulatorResult<Ratio>,
            |
                #![trigger no_zeroes.step_result(t, input, kernel, first, first_output), cosine.step_result(t, input, kernel, second, second_output), sine.step_result(t, input, kernel, third, third_output)]
                {
                    &&& no_zeroes.step_result(t, input, kernel, first, first_output)
                    &&& first_output is Ok ==> cosine.step_result(
                        t,
                        input,
                        kernel,
                        second,
                        second_output,
                    )
                    &&& first_output is Ok && second_output is Ok ==> sine.step_result(
                        t,
                        input,
                        kernel,
                        third,
                        third_output,
                    )
                    &&& result == sum_of_three(first_output, second_output, third_output)
                    &&& result is Ok ==> (after matches TransferFnSecondOrder::StableUnderdamped(
                        n,
                        c,
                        s,
                    ) && no_zeroes.moved_to(&n, first) && cosine.moved_to(&c, second)
                        && sine.moved_to(&s, third))
                    &&& result is Err ==> after == *self
                },
            TransferFnSecondOrder::StableCriticallydamped(no_zeroes, decaying) => exists|
                first: SuperpositionModel,
                first_output: SimulatorResult<Ratio>,
                second: SuperpositionModel,
                second_output: SimulatorResult<Ratio>,
            |
                #![trigger no_zeroes.step_result(t, input, kernel, first, first_output), decaying.step_result(t, input, kernel, second, second_output)]
                {
                    &&& no_zeroes.step_result(t, input, kernel, first, first_output)
                    &&& first_output is Ok ==> decaying.step_result(
                        t,
                        input,
                        kernel,
                        second,
                        second_output,
                    )
                    &&& result == sum_of(first_output, second_output)
                    &&& result is Ok ==> (after matches
                        TransferFnSecondOrder::StableCriticallydamped(n, d) && no_zeroes.moved_to(
                        &n,
                        first,
                    ) && decaying.moved_to(&d, second))
                    &&& result is Err ==> after == *self
                },
            TransferFnSecondOrder::StableOverdamped(no_zeroes, decaying) => exists|
                first: SuperpositionModel,
                first_output: SimulatorResult<Ratio>,
                second: SuperpositionModel,
                second_output: SimulatorResult<Ratio>,
            |
                #![trigger no_zeroes.step_result(t, input, kernel, first, first_output), decaying.step_result(t, input, kernel, second, second_output)]
                {
                    &&& no_zeroes.step_result(t, input, kernel, first, first_output)
                    &&& first_output is Ok ==> decaying.step_result(
                        t,
                        input,
                        kernel,
                        second,
                        second_output,
                    )
                    &&& result == sum_of(first_output, second_output)
                    &&& result is Ok ==> (after matches TransferFnSecondOrder::StableOverdamped(
                        n,
                        d,
                    )
                        && no_zeroes.moved_to(&n, first) && decaying.moved_to(&d, second))
                    &&& result is Err ==> after == *self
                },
            _ => result == unimplemented_regime::<Ratio>() && after == *self,
        }
    }

    /// The transfer function `(a1 s^2 + b1 s + c1) / (a2 s^2 + b2 s + c2)`
    /// at rest, without dead time: underdamped for `0 < zeta < 1`,
    /// critically damped for `zeta = 1`, and an error as
    /// `second_order_design` tells.
    pub fn new(
        a1: TimeSquared,
        b1: Time,
        c1: Ratio,
        a2: TimeSquared,
        b2: Time,
        c2: Ratio,
    ) -> (r: SimulatorResult<Self>)
        ensures
            match second_order_design(a1, b1, c1, a2, b2, c2) {
                Ok(design) => r matches Ok(tf) && tf.wf() && tf.built_from(design),
                Err(e) => r == Err::<Self, ChemEngProcessControlSimulatorError>(e),
            },
    {
        if a2.nano == 0 || c2.nano == 0 {
            return Err(ChemEngProcessControlSimulatorError::UnimplementedRegime);
        }
        let product: i64 = in_range(checked_scaled_product(a2.nano, c2.nano))?;
        let tau_squared: i64 = in_range(checked_scaled_quotient(a2.nano, c2.nano))?;
        if product <= 0 || tau_squared < 0 {
            return Err(ChemEngProcessControlSimulatorError::UnimplementedRegime);
        }
        let tau_p: i64 = in_range(checked_scaled_root(tau_squared))?;
        let root: i64 = in_range(checked_scaled_root(product))?;
        let twice_root: i64 = in_range(checked_sum(root, root))?;
        assert(twice_root != 0) by {
            assert(product * NANO >= 1);
        }
        let zeta: i64 = in_range(checked_scaled_quotient(b2.nano, twice_root))?;
        if zeta < 0 || zeta > NANO {
            return Err(ChemEngProcessControlSimulatorError::UnimplementedRegime);
        }
        let k_p: i64 = in_range(checked_scaled_quotient(c1.nano, c2.nano))?;
        let twice_a2: i64 = in_range(checked_sum(a2.nano, a2.nano))?;
        let lambda: i64 = in_range(checked_scaled_quotient(b2.nano, twice_a2))?;
        let first_coefficient: i64 = in_range(checked_scaled_quotient(a1.nano, a2.nano))?;
        let b1_over_a2: i64 = in_range(checked_scaled_quotient(b1.nano, a2.nano))?;
        let lambda_a1_over_a2: i64 = in_range(checked_scaled_product(lambda, first_coefficient))?;
        if zeta < NANO {
            Self::new_underdamped_stable_system(
                Time { nano: tau_p },
                Ratio { nano: zeta },
                Ratio { nano: k_p },
                Frequency { nano: lambda },
                first_coefficient,
                b1_over_a2,
                lambda_a1_over_a2,
                a1,
                b1,
                c1,
                a2,
                b2,
                c2,
            )
        } else {
            Self::new_critdamped_stable_system(
                Time { nano: tau_p },
                Ratio { nano: zeta },
                Ratio { nano: k_p },
                Frequency { nano: lambda },
                first_coefficient,
                b1_over_a2,
                lambda_a1_over_a2,
                a1,
                b1,
                c1,
                a2,
                b2,
                c2,
            )
        }
    }

    /// The critically damped system: the part without zeroes and
    /// `a1 / a2 exp(-lambda t) + (b1 / a2 - lambda a1 / a2) t exp(-lambda t)`.
    fn new_critdamped_stable_system(
        tau_p: Time,
        zeta: Ratio,
        k_p: Ratio,
        lambda: Frequency,
        first_coefficient: i64,
        b1_over_a2: i64,
        lambda_a1_over_a2: i64,
        a1: TimeSquared,
        b1: Time,
        c1: Ratio,
        a2: TimeSquared,
        b2: Time,
        c2: Ratio,
    ) -> (r: SimulatorResult<Self>)
        requires
            a2@ != 0 && c2@ != 0,
            denominator_in_range(a2, c2),
            scaled_product(a2@, c2@) > 0 && time_squared(a2, c2) >= 0,
            fits(2 * root_of_product(a2, c2)),
            poles_in_range(a2, b2, c1, c2),
            zeroes_in_range(a1, b1, a2, b2),
            tau_p@ == scaled_root(time_squared(a2, c2)),
            zeta@ == damping_of(a2, b2, c2),
            zeta@ == NANO,
            k_p@ == scaled_quotient(c1@, c2@),
            lambda@ == decay_of(a2, b2),
            first_coefficient == scaled_quotient(a1@, a2@),
            b1_over_a2 == scaled_quotient(b1@, a2@),
            lambda_a1_over_a2 == scaled_product(decay_of(a2, b2), scaled_quotient(a1@, a2@)),
        ensures
            match second_order_design(a1, b1, c1, a2, b2, c2) {
                Ok(design) => r matches Ok(tf) && tf.wf() && tf.built_from(design),
                Err(e) => r == Err::<Self, ChemEngProcessControlSimulatorError>(e),
            },
    {
        let t_exponential_coefficient: i64 = in_range(
            checked_difference(b1_over_a2, lambda_a1_over_a2),
        )?;
        if tau_p.nano <= 0 || lambda.nano <= 0 {
            return Err(
                ChemEngProcessControlSimulatorError::UnstableDampingFactorForStableTransferFunction,
            );
        }
        proof {
            lemma_probe_is_well_formed(k_p, tau_p, zeta);
        }
        let no_zeroes = SecondOrderStableTransferFnNoZeroes::new(
            k_p,
            tau_p,
            zeta,
            Ratio::zero(),
            Ratio::zero(),
            Time::zero(),
        )?;
        let decaying = DecayingExponential::new_critical(
            Frequency { nano: t_exponential_coefficient },
            Ratio { nano: first_coefficient },
            lambda,
            Ratio::zero(),
            Ratio::zero(),
            Time::zero(),
        )?;
        Ok(TransferFnSecondOrder::StableCriticallydamped(no_zeroes, decaying))
    }

    /// The underdamped system: the part without zeroes, the cosine with
    /// coefficient `a1 / a2` and the sine with coefficient
    /// `(b1 / a2) / omega - (lambda a1 / a2) / omega`.
    fn new_underdamped_stable_system(
        tau_p: Time,
        zeta: Ratio,
        k_p: Ratio,
        lambda: Frequency,
        first_coefficient: i64,
        b1_over_a2: i64,
        lambda_a1_over_a2: i64,
        a1: TimeSquared,
        b1: Time,
        c1: Ratio,
        a2: TimeSquared,
        b2: Time,
        c2: Ratio,
    ) -> (r: SimulatorResult<Self>)
        requires
            a2@ != 0 && c2@ != 0,
            denominator_in_range(a2, c2),
            scaled_product(a2@, c2@) > 0 && time_squared(a2, c2) >= 0,
            fits(2 * root_of_product(a2, c2)),
            poles_in_range(a2, b2, c1, c2),
            zeroes_in_range(a1, b1, a2, b2),
            tau_p@ == scaled_root(time_squared(a2, c2)),
            zeta@ == damping_of(a2, b2, c2),
            0 <= zeta@ < NANO,
            k_p@ == scaled_quotient(c1@, c2@),
            lambda@ == decay_of(a2, b2),
            first_coefficient == scaled_quotient(a1@, a2@),
            b1_over_a2 == scaled_quotient(b1@, a2@),
            lambda_a1_over_a2 == scaled_product(decay_of(a2, b2), scaled_quotient(a1@, a2@)),
        ensures
            match second_order_design(a1, b1, c1, a2, b2, c2) {
                Ok(design) => r matches Ok(tf) && tf.wf() && tf.built_from(design),
                Err(e) => r == Err::<Self, ChemEngProcessControlSimulatorError>(e),
            },
    {
        let c2_over_a2: i64 = in_range(checked_scaled_quotient(c2.nano, a2.nano))?;
        let lambda_squared: i64 = in_range(checked_scaled_product(lambda.nano, lambda.nano))?;
        let radicand: i64 = in_range(checked_difference(c2_over_a2, lambda_squared))?;
        let omega: i64 = if radicand >= 0 {
            in_range(checked_scaled_root(radicand))?
        } else {
            0
        };
        if zeta.nano == 0 || tau_p.nano <= 0 || lambda.nano <= 0 || omega <= 0 {
            return Err(
                ChemEngProcessControlSimulatorError::UnstableDampingFactorForStableTransferFunction,
            );
        }
        let rate_part: i64 = in_range(checked_scaled_quotient(b1_over_a2, omega))?;
        let cosine_part: i64 = in_range(checked_scaled_quotient(lambda_a1_over_a2, omega))?;
        let sine_coeff: i64 = in_range(checked_difference(rate_part, cosine_part))?;
        proof {
            lemma_probe_is_well_formed(k_p, tau_p, zeta);
        }
        let no_zeroes = SecondOrderStableTransferFnNoZeroes::new(
            k_p,
            tau_p,
            zeta,
            Ratio::zero(),
            Ratio::zero(),
            Time::zero(),
        )?;
        let cosine_term = DecayingSinusoid::new_cosine(
            Ratio { nano: first_coefficient },
            lambda,
            Ratio::zero(),
            Ratio::zero(),
            Time::zero(),
            Frequency { nano: omega },
        )?;
        let sine_term = DecayingSinusoid::new_sine(
            Ratio { nano: sine_coeff },
            lambda,
            Ratio::zero(),
            Ratio::zero(),
            Time::zero(),
            Frequency { nano: omega },
        )?;
        Ok(TransferFnSecondOrder::StableUnderdamped(no_zeroes, cosine_term, sine_term))
    }

    /// What the name of the log file ends in, by regime; none for a
    /// system that is not stable.
    pub open spec fn log_mark(&self) -> Option<Seq<char>> {
        match *self {
            TransferFnSecondOrder::StableUnderdamped(_, _, _) => Some(
                "2nd_ord_transfer_fn_stable_underdamped.csv"@,
            ),
            TransferFnSecondOrder::StableCriticallydamped(_, _) => Some(
                "2nd_ord_transfer_fn_stable_critdamped.csv"@,
            ),
            TransferFnSecondOrder::StableOverdamped(_, _) => Some(
                "2nd_ord_transfer_fn_stable_overdamped.csv"@,
            ),
            _ => None,
        }
    }

    /// The name of the log file of this transfer function: `name` followed
    /// by the mark of its regime; unimplemented for a system that is not
    /// stable.
    pub fn log_file_name(&self, name: String) -> (r: SimulatorResult<String>)
        ensures
            match self.log_mark() {
                Some(mark) => r matches Ok(title) && title@ == name@ + mark,
                None => r == unimplemented_regime::<String>(),
            },
    {
        match self {
            TransferFnSecondOrder::StableUnderdamped(_, _, _) => Ok(
                name.concat("2nd_ord_transfer_fn_stable_underdamped.csv"),
            ),
            TransferFnSecondOrder::StableCriticallydamped(_, _) => Ok(
                name.concat("2nd_ord_transfer_fn_stable_critdamped.csv"),
            ),
            TransferFnSecondOrder::StableOverdamped(_, _) => Ok(
                name.concat("2nd_ord_transfer_fn_stable_overdamped.csv"),
            ),
            _ => Err(ChemEngProcessControlSimulatorError::UnimplementedRegime),
        }
    }

    /// Whether the value is well formed: what every other function asks
    /// of it.
    pub fn is_well_formed(&self) -> (b: bool)
        ensures
            b == self.wf(),
    {
        match self {
            TransferFnSecondOrder::StableUnderdamped(no_zeroes, cosine, sine) => {
                no_zeroes.is_well_formed() && cosine.is_well_formed() && sine.is_well_formed()
            },
            TransferFnSecondOrder::StableCriticallydamped(no_zeroes, decaying) => {
                no_zeroes.is_well_formed() && decaying.is_well_formed()
            },
            TransferFnSecondOrder::StableOverdamped(no_zeroes, decaying) => {
                no_zeroes.is_well_formed() && decaying.is_well_formed()
            },
            _ => true,
        }
    }

    /// Sets the dead time of every part; responses already spawned keep
    /// their start times.  Without effect on a system that is not stable.
    pub fn set_dead_time(&mut self, dead_time: Time)
        requires
            old(self).wf(),
        ensures
            final(self).wf(),
            old(self).delayed_by(final(self), dead_time),
    {
        match self {
            TransferFnSecondOrder::StableUnderdamped(no_zeroes, cosine, sine) => {
                no_zeroes.accumulator.delay = dead_time;
                cosine.accumulator.delay = dead_time;
                sine.accumulator.delay = dead_time;
            },
            TransferFnSecondOrder::StableCriticallydamped(no_zeroes, decaying) => {
                no_zeroes.accumulator.delay = dead_time;
                decaying.accumulator.delay = dead_time;
            },
            TransferFnSecondOrder::StableOverdamped(no_zeroes, decaying) => {
                no_zeroes.accumulator.delay = dead_time;
                decaying.accumulator.delay = dead_time;
            },
            _ => {},
        }
    }

    /// The transfer function and its output after the input `user_input`
    /// at `time`, with the transfer function itself left as it is.
    pub fn respond<K: Fn(Transcendental, i128) -> i64>(
        &self,
        user_input: Ratio,
        time: Time,
        kernel: &K,
    ) -> (r: SimulatorResult<(Self, Ratio)>)
        requires
            self.wf(),
            callable(kernel),
        ensures
            self.step_result(
                user_input,
                time,
                relation_of(kernel),
                match r {
                    Ok((next, out)) => next,
                    Err(_) => *self,
                },
                match r {
                    Ok((next, out)) => Ok(out),
                    Err(e) => Err(e),
                },
            ),
            r matches Ok((next, out)) ==> next.wf(),
            r matches Err(e) ==> e == ChemEngProcessControlSimulatorError::ValueOutOfRange || e
                == ChemEngProcessControlSimulatorError::UnimplementedRegime,
    {
        match self {
            TransferFnSecondOrder::StableUnderdamped(no_zeroes, cosine, sine) => {
                // where an earlier part fails, a later part is not consulted: any result
                // may stand for it in `step_result`, and one is named here
                let ghost unasked_cosine = cosine.step_result(
                    time,
                    user_input,
                    relation_of(kernel),
                    cosine.accumulator@,
                    out_of_range::<Ratio>(),
                );
                let ghost unasked_sine = sine.step_result(
                    time,
                    user_input,
                    relation_of(kernel),
                    sine.accumulator@,
                    out_of_range::<Ratio>(),
                );
                let (first, first_output) = no_zeroes.respond(time, user_input, kernel)?;
                let (second, second_output) = cosine.respond(time, user_input, kernel)?;
                let (third, third_output) = sine.respond(time, user_input, kernel)?;
                let output = add_three_outputs(first_output, second_output, third_output)?;
                let next = TransferFnSecondOrder::StableUnderdamped(
                    no_zeroes.with_accumulator(first),
                    cosine.with_accumulator(second),
                    sine.with_accumulator(third),
                );
                Ok((next, output))
            },
            TransferFnSecondOrder::StableCriticallydamped(no_zeroes, decaying) => {
                // where an earlier part fails, a later part is not consulted: any result
                // may stand for it in `step_result`, and one is named here
                let ghost unasked = decaying.step_result(
                    time,
                    user_input,
                    relation_of(kernel),
                    decaying.accumulator@,
                    out_of_range::<Ratio>(),
                );
                let (first, first_output) = no_zeroes.respond(time, user_input, kernel)?;
                let (second, second_output) = decaying.respond(time, user_input, kernel)?;
                let output = add_outputs(first_output, second_output)?;
                let next = TransferFnSecondOrder::StableCriticallydamped(
                    no_zeroes.with_accumulator(first),
                    decaying.with_accumulator(second),
                );
                Ok((next, output))
            },
            TransferFnSecondOrder::StableOverdamped(no_zeroes, decaying) => {
                // where an earlier part fails, a later part is not consulted: any result
                // may stand for it in `step_result`, and one is named here
                let ghost unasked = decaying.step_result(
                    time,
                    user_input,
                    relation_of(kernel),
                    decaying.accumulator@,
                    out_of_range::<Ratio>(),
                );
                let (first, first_output) = no_zeroes.respond(time, user_input, kernel)?;
                let (second, second_output) = decaying.respond(time, user_input, kernel)?;
                let output = add_outputs(first_output, second_output)?;
                let next = TransferFnSecondOrder::StableOverdamped(
                    no_zeroes.with_accumulator(first),
                    decaying.with_accumulator(second),
                );
                Ok((next, output))
            },
            _ => Err(ChemEngProcessControlSimulatorError::UnimplementedRegime),
        }
    }

    /// Takes the input `user_input` at `time` and returns the output there:
    /// the sum of the outputs of the parts, with the exponentials, sines
    /// and cosines as `kernel` computes them.  On failure nothing changes.
    pub fn set_user_input_and_calc<K: Fn(Transcendental, i128) -> i64>(
        &mut self,
        user_input: Ratio,
        time: Time,
        kernel: &K,
    ) -> (r: SimulatorResult<Ratio>)
        requires
            old(self).wf(),
            callable(kernel),
        ensures
            final(self).wf(),
            old(self).step_result(user_input, time, relation_of(kernel), *final(self), r),
            r is Err ==> *final(self) == *old(self),
    {
        let (next, output) = self.respond(user_input, time, kernel)?;
        *self = next;
        Ok(output)
    }
}

} // verus!
