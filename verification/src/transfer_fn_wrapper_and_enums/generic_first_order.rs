//! The first-order transfer function `(a1 s + b1) / (a2 s + b2)`.
//!
//! With `Kp = b1 / b2` and `tau = a2 / b2` it is the sum
//! `Kp / (tau s + 1) + a1 / (b2 tau) [1 - 1 / (tau s + 1)]`: the first term is
//! a transfer function without zeroes, the second is what the zero adds.
use crate::errors::{
    ChemEngProcessControlSimulatorError,
    in_range,
    out_of_range,
    SimulatorResult,
    unimplemented_regime,
};
use crate::fixed_point::{checked_difference, checked_scaled_quotient, fits, scaled_quotient};
use crate::kernel::{callable, KernelRelation, relation_of, Transcendental};
use crate::quantities::{Ratio, Time};
use crate::stable_transfer_functions::first_order_transfer_fn::FirstOrderStableTransferFnNoZeroes;
use crate::stable_transfer_functions::first_order_transfer_fn_with_zeroes::FirstOrderStableTransferFnForZeroes;
use crate::superposition::{add_outputs, sum_of, SuperpositionModel};
use vstd::string::StringExecFns;
use vstd::prelude::*;

verus! {

/// A first-order transfer function, by the sign of its time constant.
#[derive(Debug, PartialEq, PartialOrd, Clone)]
pub enum TransferFnFirstOrder {
    /// Positive time constant: the part without zeroes, then the part that
    /// the zero adds.
    Stable(FirstOrderStableTransferFnNoZeroes, FirstOrderStableTransferFnForZeroes),
    /// Negative time constant; no closed form is provided.
    Unstable,
    /// No time constant; no closed form is provided.
    ConstantValueUndamped,
}

/// The time constant `a2 / b2`.
pub open spec fn first_order_process_time(a2: Time, b2: Ratio) -> int {
    scaled_quotient(a2@, b2@)
}

/// The gain `b1 / b2`.
pub open spec fn first_order_process_gain(b1: Ratio, b2: Ratio) -> int {
    scaled_quotient(b1@, b2@)
}

/// The gain of the zero as a time, `a1 / b2`.
pub open spec fn first_order_zero_time(a1: Time, b2: Ratio) -> int {
    scaled_quotient(a1@, b2@)
}

/// The height of the jump that the zero adds, `a1 / (b2 tau)`.
pub open spec fn first_order_zero_gain(a1: Time, a2: Time, b2: Ratio) -> int {
    scaled_quotient(first_order_zero_time(a1, b2), first_order_process_time(a2, b2))
}

/// Gain and zero gain of a stable system can be stored.
pub open spec fn first_order_gains_fit(a1: Time, b1: Ratio, a2: Time, b2: Ratio) -> bool {
    &&& fits(first_order_process_gain(b1, b2))
    &&& fits(first_order_zero_time(a1, b2))
    &&& fits(first_order_zero_gain(a1, a2, b2))
    &&& fits(-first_order_zero_gain(a1, a2, b2))
}

/// The physical parameters that the coefficients select.
pub struct FirstOrderDesign {
    /// `tau = a2 / b2`.
    pub process_time: int,
    /// `Kp = b1 / b2`.
    pub process_gain: int,
    /// `a1 / (b2 tau)`.
    pub zero_gain: int,
}

/// Regime selection: the parameters of the stable system that the
/// coefficients describe, or why there is none.  With `tau = a2 / b2`:
/// unimplemented where `b2 = 0` (no time constant), `tau < 0` (unstable) or
/// `tau = 0` (undamped); out of range where `tau`, the gain or the zero gain
/// cannot be stored.
pub open spec fn first_order_design(
    a1: Time,
    b1: Ratio,
    a2: Time,
    b2: Ratio,
) -> SimulatorResult<FirstOrderDesign> {
    if b2@ == 0 {
        unimplemented_regime()
    } else if !fits(first_order_process_time(a2, b2)) {
        out_of_range()
    } else if first_order_process_time(a2, b2) <= 0 {
        unimplemented_regime()
    } else if !first_order_gains_fit(a1, b1, a2, b2) {
        out_of_range()
    } else {
        Ok(
            FirstOrderDesign {
                process_time: first_order_process_time(a2, b2),
                process_gain: first_order_process_gain(b1, b2),
                zero_gain: first_order_zero_gain(a1, a2, b2),
            },
        )
    }
}

impl TransferFnFirstOrder {
    /// The stable system that `design` describes, at rest, with dead time
    /// `dead_time`.
    pub open spec fn built_from(&self, design: FirstOrderDesign, dead_time: Time) -> bool {
        &&& *self matches TransferFnFirstOrder::Stable(no_zeroes, for_zeroes)
        &&& no_zeroes.process_gain@ == design.process_gain
        &&& no_zeroes.process_time@ == design.process_time
        &&& for_zeroes.process_gain@ == design.zero_gain
        &&& for_zeroes.process_time@ == design.process_time
        &&& no_zeroes.accumulator.previous_timestep_input@ == 0
        &&& no_zeroes.accumulator.offset@ == 0
        &&& no_zeroes.accumulator.delay == dead_time
        &&& no_zeroes.accumulator.responses@.len() == 0
        &&& for_zeroes.accumulator.previous_timestep_input@ == 0
        &&& for_zeroes.accumulator.offset@ == 0
        &&& for_zeroes.accumulator.delay == dead_time
        &&& for_zeroes.accumulator.responses@.len() == 0
    }

    /// The parts are well formed.
    pub open spec fn wf(&self) -> bool {
        match *self {
            TransferFnFirstOrder::Stable(no_zeroes, for_zeroes) =>
                no_zeroes.wf() && for_zeroes.wf(),
            _ => true,
        }
    }

    /// `after` is this transfer function with the dead time of every part
    /// set to `dead_time` and nothing else changed.
    pub open spec fn delayed_by(&self, after: &Self, dead_time: Time) -> bool {
        match *self {
            TransferFnFirstOrder::Stable(no_zeroes, for_zeroes) => {
                &&& *after matches TransferFnFirstOrder::Stable(n, z)
                &&& no_zeroes.moved_to(
                    &n,
                    SuperpositionModel { delay: dead_time, ..no_zeroes.accumulator@ },
                )
                &&& for_zeroes.moved_to(
                    &z,
                    SuperpositionModel { delay: dead_time, ..for_zeroes.accumulator@ },
                )
            },
            _ => *after == *self,
        }
    }

    /// `after` and `result` are what the transfer function may become and
    /// return after the input `input` at `t`, the kernel being `kernel`.
    /// A stable one hands the input to both parts, the part without zeroes
    /// first, and returns the sum of their outputs; where a part or the sum
    /// fails, nothing changes.  The others fail as unimplemented.
    pub open spec fn step_result(
        &self,
        input: Ratio,
        t: Time,
        kernel: KernelRelation,
        after: Self,
        result: SimulatorResult<Ratio>,
    ) -> bool {
        match *self {
            TransferFnFirstOrder::Stable(no_zeroes, for_zeroes) => exists|
                first: SuperpositionModel,
                first_output: SimulatorResult<Ratio>,
                second: SuperpositionModel,
                second_output: SimulatorResult<Ratio>,
            |
                #![trigger no_zeroes.step_result(t, input, kernel, first, first_output), for_zeroes.step_result(t, input, kernel, second, second_output)]
                {
                    &&& no_zeroes.step_result(t, input, kernel, first, first_output)
                    &&& first_output is Ok ==> for_zeroes.step_result(
                        t,
                        input,
                        kernel,
                        second,
                        second_output,
                    )
                    &&& result == sum_of(first_output, second_output)
                    &&& result is Ok ==> (after matches TransferFnFirstOrder::Stable(n, z)
                        && no_zeroes.moved_to(&n, first) && for_zeroes.moved_to(&z, second))
                    &&& result is Err ==> after == *self
                },
            _ => result == unimplemented_regime::<Ratio>() && after == *self,
        }
    }

    /// The transfer function `(a1 s + b1) / (a2 s + b2)` with dead time
    /// `dead_time`, at rest: stable for `a2 / b2 > 0`, and an error as
    /// `first_order_design` tells.
    pub fn new(
        a1: Time,
        b1: Ratio,
        a2: Time,
        b2: Ratio,
        dead_time: Time,
    ) -> (r: SimulatorResult<Self>)
        ensures
            match first_order_design(a1, b1, a2, b2) {
                Ok(design) => r matches Ok(tf) && tf.wf() && tf.built_from(design, dead_time),
                Err(e) => r == Err::<Self, ChemEngProcessControlSimulatorError>(e),
            },
    {
        if b2.nano == 0 {
            return Err(ChemEngProcessControlSimulatorError::UnimplementedRegime);
        }
        let tau_p: i64 = in_range(checked_scaled_quotient(a2.nano, b2.nano))?;
        if tau_p <= 0 {
            return Err(ChemEngProcessControlSimulatorError::UnimplementedRegime);
        }
        let k_p: i64 = in_range(checked_scaled_quotient(b1.nano, b2.nano))?;
        let zero_time: i64 = in_range(checked_scaled_quotient(a1.nano, b2.nano))?;
        let k_p_for_zero: i64 = in_range(checked_scaled_quotient(zero_time, tau_p))?;
        let _negated: i64 = in_range(checked_difference(0, k_p_for_zero))?;
        let no_zeroes = FirstOrderStableTransferFnNoZeroes::new(
            Ratio { nano: k_p },
            Time { nano: tau_p },
            Ratio::zero(),
            Ratio::zero(),
            dead_time,
        )?;
        let for_zeroes = FirstOrderStableTransferFnForZeroes::new(
            Ratio { nano: k_p_for_zero },
            Time { nano: tau_p },
            Ratio::zero(),
            Ratio::zero(),
            dead_time,
        )?;
        Ok(TransferFnFirstOrder::Stable(no_zeroes, for_zeroes))
    }

    /// What the name of the log file ends in; none for a system that is
    /// not stable.
    pub open spec fn log_mark(&self) -> Option<Seq<char>> {
        match *self {
            TransferFnFirstOrder::Stable(_, _) => Some("1st_ord_transfer_fn_stable.csv"@),
            _ => None,
        }
    }

    /// The name of the log file of this transfer function: `name` followed
    /// by the mark of its kind; unimplemented for a system that is not
    /// stable.
    pub fn log_file_name(&self, name: String) -> (r: SimulatorResult<String>)
        ensures
            match self.log_mark() {
                Some(mark) => r matches Ok(title) && title@ == name@ + mark,
                None => r == unimplemented_regime::<String>(),
            },
    {
        match self {
            TransferFnFirstOrder::Stable(_, _) => Ok(name.concat("1st_ord_transfer_fn_stable.csv")),
            _ => Err(ChemEngProcessControlSimulatorError::UnimplementedRegime),
        }
    }

    /// Whether the value is well formed: what every other function asks
    /// of it.
    pub fn is_well_formed(&self) -> (b: bool)
        ensures
            b == self.wf(),
    {
        match self {
            TransferFnFirstOrder::Stable(no_zeroes, for_zeroes) => no_zeroes.is_well_formed()
                && for_zeroes.is_well_formed(),
            _ => true,
        }
    }

    /// Sets the dead time of both parts; responses already spawned keep
    /// their start times.  Without effect on a system that is not stable.
    pub fn set_dead_time(&mut self, dead_time: Time)
        requires
            old(self).wf(),
        ensures
            final(self).wf(),
            old(self).delayed_by(final(self), dead_time),
    {
        match self {
            TransferFnFirstOrder::Stable(no_zeroes, for_zeroes) => {
                no_zeroes.accumulator.delay = dead_time;
                for_zeroes.accumulator.delay = dead_time;
            },
            _ => {},
        }
    }

    /// The transfer function and its output after the input `user_input`
    /// at `time`, with the transfer function itself left as it is.
    pub fn respond<K: Fn(Transcendental, i128) -> i64>(
        &self,
        user_input: Ratio,
        time: Time,
        kernel: &K,
    ) -> (r: SimulatorResult<(Self, Ratio)>)
        requires
            self.wf(),
            callable(kernel),
        ensures
            self.step_result(
                user_input,
                time,
                relation_of(kernel),
                match r {
                    Ok((next, out)) => next,
                    Err(_) => *self,
                },
                match r {
                    Ok((next, out)) => Ok(out),
                    Err(e) => Err(e),
                },
            ),
            r matches Ok((next, out)) ==> next.wf(),
            r matches Err(e) ==> e == ChemEngProcessControlSimulatorError::ValueOutOfRange || e
                == ChemEngProcessControlSimulatorError::UnimplementedRegime,
    {
        match self {
            TransferFnFirstOrder::Stable(no_zeroes, for_zeroes) => {
                // where an earlier part fails, a later part is not consulted: any result
                // may stand for it in `step_result`, and one is named here
                let ghost unasked = for_zeroes.step_result(
                    time,
                    user_input,
                    relation_of(kernel),
                    for_zeroes.accumulator@,
                    out_of_range::<Ratio>(),
                );
                let (first, first_output) = no_zeroes.respond(time, user_input, kernel)?;
                let (second, second_output) = for_zeroes.respond(time, user_input, kernel)?;
                let output = add_outputs(first_output, second_output)?;
                let next = TransferFnFirstOrder::Stable(
                    no_zeroes.with_accumulator(first),
                    for_zeroes.with_accumulator(second),
                );
                Ok((next, output))
            },
            _ => Err(ChemEngProcessControlSimulatorError::UnimplementedRegime),
        }
    }

    /// Takes the input `user_input` at `time` and returns the output there:
    /// the sum of the outputs of both parts, with the exponentials as
    /// `kernel` computes them.  On failure nothing changes.
    pub fn set_user_input_and_calc<K: Fn(Transcendental, i128) -> i64>(
        &mut self,
        user_input: Ratio,
        time: Time,
        kernel: &K,
    ) -> (r: SimulatorResult<Ratio>)
        requires
            old(self).wf(),
            callable(kernel),
        ensures
            final(self).wf(),
            old(self).step_result(user_input, time, relation_of(kernel), *final(self), r),
            r is Err ==> *final(self) == *old(self),
    {
        let (next, output) = self.respond(user_input, time, kernel)?;
        *self = next;
        Ok(output)
    }
}

} // verus!
