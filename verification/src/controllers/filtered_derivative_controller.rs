//! The filtered derivative controller
//! `G(s) = Kc tau_d s / (alpha tau_d s + 1)`.
use crate::errors::{
    ChemEngProcessControlSimulatorError,
    in_range,
    out_of_range,
    SimulatorResult,
    unimplemented_regime,
};
use crate::fixed_point::{checked_scaled_product, fits, lemma_round_div_exact, NANO, scaled_product};
use crate::kernel::{callable, KernelRelation, relation_of, Transcendental};
use crate::quantities::{Ratio, Time};
use crate::transfer_fn_wrapper_and_enums::generic_first_order::{
    first_order_design,
    FirstOrderDesign,
    TransferFnFirstOrder,
};
use vstd::string::StringExecFns;
use vstd::prelude::*;

verus! {

/// A filtered derivative controller, held as the first-order transfer
/// function with `a1 = Kc tau_d`, `b1 = 0`, `a2 = alpha tau_d`, `b2 = 1`: a
/// first-order system whose only zero is at the origin.
#[derive(Debug, PartialEq, PartialOrd, Clone)]
pub struct FilteredDerivativeController {
    pub transfer_fn: TransferFnFirstOrder,
}

impl FilteredDerivativeController {
    /// The transfer function is well formed.
    pub open spec fn wf(&self) -> bool {
        self.transfer_fn.wf()
    }

    /// `a1 = Kc tau_d`.
    pub open spec fn numerator(controller_gain: Ratio, derivative_time: Time) -> int {
        scaled_product(derivative_time@, controller_gain@)
    }

    /// `a2 = alpha tau_d`.
    pub open spec fn denominator(derivative_time: Time, alpha: Ratio) -> int {
        scaled_product(derivative_time@, alpha@)
    }

    /// What construction gives: the design of the first-order transfer
    /// function with `a1 = Kc tau_d`, `b1 = 0`, `a2 = alpha tau_d`, `b2 = 1`,
    /// or the range error where `a1` or `a2` cannot be stored, or the error
    /// of that design: unimplemented where `alpha tau_d <= 0`.
    pub open spec fn creation(
        controller_gain: Ratio,
        derivative_time: Time,
        alpha: Ratio,
    ) -> SimulatorResult<FirstOrderDesign> {
        if !fits(Self::numerator(controller_gain, derivative_time)) || !fits(
            Self::denominator(derivative_time, alpha),
        ) {
            out_of_range()
        } else {
            first_order_design(
                Time { nano: Self::numerator(controller_gain, derivative_time) as i64 },
                Ratio { nano: 0 },
                Time { nano: Self::denominator(derivative_time, alpha) as i64 },
                Ratio { nano: 1_000_000_000 },
            )
        }
    }

    /// The controller that `design` describes, at rest, without dead time.
    pub open spec fn created_from(&self, design: FirstOrderDesign) -> bool {
        self.transfer_fn.built_from(design, Time { nano: 0 })
    }

    /// `after` is this controller with dead time `dead_time`.
    pub open spec fn delayed_by(&self, after: &Self, dead_time: Time) -> bool {
        self.transfer_fn.delayed_by(&after.transfer_fn, dead_time)
    }

    /// `after` and `result` are what the controller may become and return
    /// after the input `input` at `t`: those of its transfer function.
    pub open spec fn step_result(
        &self,
        input: Ratio,
        t: Time,
        kernel: KernelRelation,
        after: Self,
        result: SimulatorResult<Ratio>,
    ) -> bool {
        self.transfer_fn.step_result(input, t, kernel, after.transfer_fn, result)
    }

    /// The controller `G(s) = Kc tau_d s / (alpha tau_d s + 1)`, at rest,
    /// without dead time.  Fails with the range error where `Kc tau_d` or
    /// `alpha tau_d` cannot be stored, else as the first-order transfer
    /// function with these coefficients does: as unimplemented where
    /// `alpha tau_d <= 0`.
    pub fn new(
        controller_gain: Ratio,
        derivative_time: Time,
        alpha: Ratio,
    ) -> (r: SimulatorResult<Self>)
        ensures
            match Self::creation(controller_gain, derivative_time, alpha) {
                Ok(design) => r matches Ok(controller) && controller.wf()
                    && controller.created_from(design),
                Err(e) => r == Err::<Self, ChemEngProcessControlSimulatorError>(e),
            },
    {
        let b1 = Ratio::zero();
        let b2 = Ratio::one();
        let a1: i64 = in_range(checked_scaled_product(derivative_time.nano, controller_gain.nano))?;
        let a2: i64 = in_range(checked_scaled_product(derivative_time.nano, alpha.nano))?;
        let a1 = Time { nano: a1 };
        let a2 = Time { nano: a2 };
        match TransferFnFirstOrder::new(a1, b1, a2, b2, Time::zero()) {
            Ok(transfer_fn) => Ok(FilteredDerivativeController { transfer_fn }),
            Err(e) => Err(e),
        }
    }

    /// What the name of the log file ends in: the mark of the controller
    /// and the mark of its transfer function.
    pub open spec fn log_mark(&self) -> Option<Seq<char>> {
        match self.transfer_fn.log_mark() {
            Some(mark) => Some("_filtered_derivative_controller_"@ + mark),
            None => None,
        }
    }

    /// The name of the log file: `name`, the mark of the controller and
    /// the mark of its transfer function.
    pub fn log_file_name(&self, name: String) -> (r: SimulatorResult<String>)
        ensures
            match self.log_mark() {
                Some(mark) => r matches Ok(title) && title@ == name@ + mark,
                None => r == unimplemented_regime::<String>(),
            },
    {
        self.transfer_fn.log_file_name(name.concat("_filtered_derivative_controller_"))
    }

    /// Whether the value is well formed: what every other function asks
    /// of it.
    pub fn is_well_formed(&self) -> (b: bool)
        ensures
            b == self.wf(),
    {
        self.transfer_fn.is_well_formed()
    }

    /// Sets the dead time.
    pub fn set_dead_time(&mut self, dead_time: Time)
        requires
            old(self).wf(),
        ensures
            final(self).wf(),
            old(self).delayed_by(final(self), dead_time),
    {
        self.transfer_fn.set_dead_time(dead_time)
    }

    /// The controller and its output after the input `user_input` at
    /// `time_of_input`, with the controller itself left as it is.
    pub fn respond<K: Fn(Transcendental, i128) -> i64>(
        &self,
        user_input: Ratio,
        time_of_input: Time,
        kernel: &K,
    ) -> (r: SimulatorResult<(Self, Ratio)>)
        requires
            self.wf(),
            callable(kernel),
        ensures
            self.step_result(
                user_input,
                time_of_input,
                relation_of(kernel),
                match r {
                    Ok((next, out)) => next,
                    Err(_) => *self,
                },
                match r {
                    Ok((next, out)) => Ok(out),
                    Err(e) => Err(e),
                },
            ),
            r matches Ok((next, out)) ==> next.wf(),
            r matches Err(e) ==> e == ChemEngProcessControlSimulatorError::ValueOutOfRange || e
                == ChemEngProcessControlSimulatorError::UnimplementedRegime,
    {
        let (transfer_fn, output) = self.transfer_fn.respond(user_input, time_of_input, kernel)?;
        Ok((FilteredDerivativeController { transfer_fn }, output))
    }

    /// Takes the input `user_input` at `time_of_input` and returns the
    /// output there.  On failure nothing changes.
    pub fn set_user_input_and_calc<K: Fn(Transcendental, i128) -> i64>(
        &mut self,
        user_input: Ratio,
        time_of_input: Time,
        kernel: &K,
    ) -> (r: SimulatorResult<Ratio>)
        requires
            old(self).wf(),
            callable(kernel),
        ensures
            final(self).wf(),
            old(self).step_result(user_input, time_of_input, relation_of(kernel), *final(self), r),
            r is Err ==> *final(self) == *old(self),
    {
        self.transfer_fn.set_user_input_and_calc(user_input, time_of_input, kernel)
    }
}

impl Default for FilteredDerivativeController {
    /// `G(s) = s / (0.1 s + 1)`.
    fn default() -> (controller: Self)
        ensures
            controller.wf(),
            controller.created_from(
                FirstOrderDesign {
                    process_time: 100_000_000,
                    process_gain: 0,
                    zero_gain: 10_000_000_000,
                },
            ),
    {
        proof {
            lemma_round_div_exact(NANO as int, NANO as int);
        }
        match FilteredDerivativeController::new(
            Ratio::one(),
            Time::second(),
            Ratio { nano: 100_000_000 },
        ) {
            Ok(controller) => controller,
            Err(_) => vstd::pervasive::unreached(),
        }
    }
}

} // verus!
