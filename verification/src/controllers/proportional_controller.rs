//! The proportional controller `G(s) = Kc`.
use crate::errors::{
    ChemEngProcessControlSimulatorError,
    out_of_range,
    SimulatorResult,
    unimplemented_regime,
};
use crate::fixed_point::{fits, NANO, scaled_product};
use crate::kernel::{callable, KernelReading, KernelRelation, relation_of, Transcendental};
use crate::quantities::{Ratio, Time};
use crate::stable_transfer_functions::first_order_transfer_fn::FirstOrderStableTransferFnNoZeroes;
use crate::stable_transfer_functions::first_order_transfer_fn_with_zeroes::{
    FirstOrderStableTransferFnForZeroes,
    lemma_zero_part_jumps_and_decays,
};
use crate::transfer_fn_wrapper_and_enums::generic_first_order::{
    FirstOrderDesign,
    TransferFnFirstOrder,
};
use vstd::string::StringExecFns;
use vstd::prelude::*;

verus! {

/// A proportional controller, held as the first-order transfer function
/// `(Kc s + Kc) / (s + 1)`, which reduces to the constant `Kc`: the step and
/// the negative rise that the zero adds make up, at every time, what the rise
/// without zeroes still lacks.  The transfer-function machinery, dead time
/// included, is reused at the price of redundant computation.
#[derive(Debug, PartialEq, PartialOrd, Clone)]
pub struct ProportionalController {
    pub transfer_fn: TransferFnFirstOrder,
}

impl ProportionalController {
    /// The transfer function is well formed.
    pub open spec fn wf(&self) -> bool {
        self.transfer_fn.wf()
    }

    /// The parameters of `(Kc s + Kc) / (s + 1)`: time constant 1 second,
    /// gain and zero gain `Kc`.
    pub open spec fn design(controller_gain: Ratio) -> FirstOrderDesign {
        FirstOrderDesign {
            process_time: NANO as int,
            process_gain: controller_gain@,
            zero_gain: controller_gain@,
        }
    }

    /// What construction with gain `Kc` gives: the design, or the range
    /// error where `-Kc` cannot be stored.
    pub open spec fn creation(controller_gain: Ratio) -> SimulatorResult<FirstOrderDesign> {
        if fits(-controller_gain@) {
            Ok(Self::design(controller_gain))
        } else {
            out_of_range()
        }
    }

    /// The controller that `design` describes, at rest, without dead time.
    pub open spec fn created_from(&self, design: FirstOrderDesign) -> bool {
        self.transfer_fn.built_from(design, Time { nano: 0 })
    }

    /// `after` is this controller with dead time `dead_time`.
    pub open spec fn delayed_by(&self, after: &Self, dead_time: Time) -> bool {
        self.transfer_fn.delayed_by(&after.transfer_fn, dead_time)
    }

    /// `after` and `result` are what the controller may become and return
    /// after the input `input` at `t`: those of its transfer function.
    pub open spec fn step_result(
        &self,
        input: Ratio,
        t: Time,
        kernel: KernelRelation,
        after: Self,
        result: SimulatorResult<Ratio>,
    ) -> bool {
        self.transfer_fn.step_result(input, t, kernel, after.transfer_fn, result)
    }

    /// The controller `G(s) = Kc`, at rest, without dead time; fails with
    /// the range error where `-Kc` cannot be stored.
    pub fn new(controller_gain: Ratio) -> (r: SimulatorResult<Self>)
        ensures
            match Self::creation(controller_gain) {
                Ok(design) => r matches Ok(controller) && controller.wf()
                    && controller.created_from(design),
                Err(e) => r == Err::<Self, ChemEngProcessControlSimulatorError>(e),
            },
    {
        let a1 = Time { nano: controller_gain.nano };
        let b1 = controller_gain;
        let a2 = Time::second();
        let b2 = Ratio::one();
        match TransferFnFirstOrder::new(a1, b1, a2, b2, Time::zero()) {
            Ok(transfer_fn) => Ok(ProportionalController { transfer_fn }),
            Err(e) => Err(e),
        }
    }

    /// What the name of the log file ends in: the mark of the controller
    /// and the mark of its transfer function.
    pub open spec fn log_mark(&self) -> Option<Seq<char>> {
        match self.transfer_fn.log_mark() {
            Some(mark) => Some("_proportional_controller_"@ + mark),
            None => None,
        }
    }

    /// The name of the log file: `name`, the mark of the controller and
    /// the mark of its transfer function.
    pub fn log_file_name(&self, name: String) -> (r: SimulatorResult<String>)
        ensures
            match self.log_mark() {
                Some(mark) => r matches Ok(title) && title@ == name@ + mark,
                None => r == unimplemented_regime::<String>(),
            },
    {
        self.transfer_fn.log_file_name(name.concat("_proportional_controller_"))
    }

    /// Whether the value is well formed: what every other function asks
    /// of it.
    pub fn is_well_formed(&self) -> (b: bool)
        ensures
            b == self.wf(),
    {
        self.transfer_fn.is_well_formed()
    }

    /// Sets the dead time.
    pub fn set_dead_time(&mut self, dead_time: Time)
        requires
            old(self).wf(),
        ensures
            final(self).wf(),
            old(self).delayed_by(final(self), dead_time),
    {
        self.transfer_fn.set_dead_time(dead_time)
    }

    /// The controller and its output after the input `user_input` at
    /// `time_of_input`, with the controller itself left as it is.
    pub fn respond<K: Fn(Transcendental, i128) -> i64>(
        &self,
        user_input: Ratio,
        time_of_input: Time,
        kernel: &K,
    ) -> (r: SimulatorResult<(Self, Ratio)>)
        requires
            self.wf(),
            callable(kernel),
        ensures
            self.step_result(
                user_input,
                time_of_input,
                relation_of(kernel),
                match r {
                    Ok((next, out)) => next,
                    Err(_) => *self,
                },
                match r {
                    Ok((next, out)) => Ok(out),
                    Err(e) => Err(e),
                },
            ),
            r matches Ok((next, out)) ==> next.wf(),
            r matches Err(e) ==> e == ChemEngProcessControlSimulatorError::ValueOutOfRange || e
                == ChemEngProcessControlSimulatorError::UnimplementedRegime,
    {
        let (transfer_fn, output) = self.transfer_fn.respond(user_input, time_of_input, kernel)?;
        Ok((ProportionalController { transfer_fn }, output))
    }

    /// Takes the input `user_input` at `time_of_input` and returns the
    /// output there.  On failure nothing changes.
    pub fn set_user_input_and_calc<K: Fn(Transcendental, i128) -> i64>(
        &mut self,
        user_input: Ratio,
        time_of_input: Time,
        kernel: &K,
    ) -> (r: SimulatorResult<Ratio>)
        requires
            old(self).wf(),
            callable(kernel),
        ensures
            final(self).wf(),
            old(self).step_result(user_input, time_of_input, relation_of(kernel), *final(self), r),
            r is Err ==> *final(self) == *old(self),
    {
        self.transfer_fn.set_user_input_and_calc(user_input, time_of_input, kernel)
    }
}

impl Default for ProportionalController {
    /// `G(s) = 1`, held as `(s + 1) / (s + 1)`.
    fn default() -> (controller: Self)
        ensures
            controller.wf(),
            controller.created_from(Self::design(Ratio { nano: NANO })),
    {
        match ProportionalController::new(Ratio::one()) {
            Ok(controller) => controller,
            Err(_) => vstd::pervasive::unreached(),
        }
    }
}

/// The proportional controller is a constant gain.  Both parts of its
/// transfer function have the gain `Kc` and the time constant of one
/// second; where they have seen the same inputs, the three responses that
/// answer one change of the input add up, at every time from their start
/// and for every reading of the exponential, to `Kc` times the increment:
/// what the rise without zeroes still lacks is what the zero adds.
pub proof fn lemma_proportional_responses_add_up(
    no_zeroes: FirstOrderStableTransferFnNoZeroes,
    for_zeroes: FirstOrderStableTransferFnForZeroes,
    t: Time,
    input: Ratio,
    later: Time,
    reading: KernelReading,
)
    requires
        no_zeroes.process_gain == for_zeroes.process_gain,
        no_zeroes.process_time == for_zeroes.process_time,
        no_zeroes.accumulator.previous_timestep_input
            == for_zeroes.accumulator.previous_timestep_input,
        no_zeroes.accumulator.delay == for_zeroes.accumulator.delay,
        fits(-for_zeroes.process_gain@),
        later@ >= no_zeroes.rise(t, input).start_time@,
    ensures
        no_zeroes.rise(t, input).response(later, reading) + for_zeroes.rise(t, input).response(
            later,
            reading,
        ) + for_zeroes.jump(t, input).response(later) == scaled_product(
            no_zeroes.accumulator@.increment(input) as i64 as int,
            no_zeroes.process_gain@,
        ),
{
    lemma_zero_part_jumps_and_decays(for_zeroes, t, input, later, reading);
}

} // verus!
