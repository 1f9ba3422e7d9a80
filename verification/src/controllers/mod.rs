//! Continuous-time feedback controllers.
pub mod filtered_derivative_controller;
pub mod integral_controller;
pub mod proportional_controller;

use crate::controllers::filtered_derivative_controller::FilteredDerivativeController;
use crate::controllers::integral_controller::IntegralController;
use crate::controllers::proportional_controller::ProportionalController;
use crate::errors::{ChemEngProcessControlSimulatorError, SimulatorResult, unimplemented_regime};
use crate::kernel::{callable, KernelRelation, relation_of, Transcendental};
use crate::quantities::{Ratio, Time};
use crate::superposition::{add_outputs, add_three_outputs, sum_of, sum_of_three};
use vstd::string::StringExecFns;
use crate::transfer_fn_wrapper_and_enums::TransferFnTraits;
use vstd::prelude::*;

verus! {

/// A continuous-time controller: the parallel sum of the control actions
/// it holds, all driven by the same input.
#[derive(Debug, PartialEq, PartialOrd, Clone)]
pub enum AnalogController {
    PIDFiltered(ProportionalController, IntegralController, FilteredDerivativeController),
    PI(ProportionalController, IntegralController),
    P(ProportionalController),
    PDFiltered(ProportionalController, FilteredDerivativeController),
    IntegralStandalone(IntegralController),
    DerivativeFilteredStandalone(FilteredDerivativeController),
}

impl AnalogController {
    /// The control actions are well formed.
    pub open spec fn wf(&self) -> bool {
        match *self {
            AnalogController::PIDFiltered(p, i, d) => p.wf() && i.wf() && d.wf(),
            AnalogController::PI(p, i) => p.wf() && i.wf(),
            AnalogController::P(p) => p.wf(),
            AnalogController::PDFiltered(p, d) => p.wf() && d.wf(),
            AnalogController::IntegralStandalone(i) => i.wf(),
            AnalogController::DerivativeFilteredStandalone(d) => d.wf(),
        }
    }

    /// `after` is this controller with the dead time of every control
    /// action set to `dead_time` and nothing else changed.
    pub open spec fn delayed_by(&self, after: &Self, dead_time: Time) -> bool {
        match *self {
            AnalogController::PIDFiltered(p, i, d) => *after matches AnalogController::PIDFiltered(
                p2,
                i2,
                d2,
            ) && p.delayed_by(&p2, dead_time) && i.delayed_by(&i2, dead_time) && d.delayed_by(
                &d2,
                dead_time,
            ),
            AnalogController::PI(p, i) => *after matches AnalogController::PI(p2, i2)
                && p.delayed_by(&p2, dead_time) && i.delayed_by(&i2, dead_time),
            AnalogController::P(p) => *after matches AnalogController::P(p2) && p.delayed_by(
                &p2,
                dead_time,
            ),
            AnalogController::PDFiltered(p, d) =>
                *after matches AnalogController::PDFiltered(p2, d2)
                && p.delayed_by(&p2, dead_time) && d.delayed_by(&d2, dead_time),
            AnalogController::IntegralStandalone(i) =>
                *after matches AnalogController::IntegralStandalone(
                i2,
            ) && i.delayed_by(&i2, dead_time),
            AnalogController::DerivativeFilteredStandalone(d) =>
                *after matches AnalogController::DerivativeFilteredStandalone(
                d2,
            ) && d.delayed_by(&d2, dead_time),
        }
    }

    /// `after` and `result` are what the controller may become and return
    /// after the input `input` at `t`, the kernel being `kernel`.  Every
    /// control action takes the same input at the same time, the
    /// proportional one first, then the integral, then the derivative, each
    /// by itself; the result is the sum of their outputs, held wide and
    /// narrowed once.  Where an action fails, the actions after it are not
    /// consulted; where an action fails or the sum cannot be stored,
    /// nothing changes.
    pub open spec fn step_result(
        &self,
        input: Ratio,
        t: Time,
        kernel: KernelRelation,
        after: Self,
        result: SimulatorResult<Ratio>,
    ) -> bool {
        match *self {
            AnalogController::PIDFiltered(p, i, d) => exists|
                p_after: ProportionalController,
                p_output: SimulatorResult<Ratio>,
                i_after: IntegralController,
                i_output: SimulatorResult<Ratio>,
                d_after: FilteredDerivativeController,
                d_output: SimulatorResult<Ratio>,
            |
                #![trigger p.step_result(input, t, kernel, p_after, p_output), i.step_result(input, t, kernel, i_after, i_output), d.step_result(input, t, kernel, d_after, d_output)]
                {
                    &&& p.step_result(input, t, kernel, p_after, p_output)
                    &&& p_output is Ok ==> i.step_result(input, t, kernel, i_after, i_output)
                    &&& p_output is Ok && i_output is Ok ==> d.step_result(
                        input,
                        t,
                        kernel,
                        d_after,
                        d_output,
                    )
                    &&& result == sum_of_three(p_output, i_output, d_output)
                    &&& result is Ok ==> after == AnalogController::PIDFiltered(
                        p_after,
                        i_after,
                        d_after,
                    )
                    &&& result is Err ==> after == *self
                },
            AnalogController::PI(p, i) => exists|
                p_after: ProportionalController,
                p_output: SimulatorResult<Ratio>,
                i_after: IntegralController,
                i_output: SimulatorResult<Ratio>,
            |
                #![trigger p.step_result(input, t, kernel, p_after, p_output), i.step_result(input, t, kernel, i_after, i_output)]
                {
                    &&& p.step_result(input, t, kernel, p_after, p_output)
                    &&& p_output is Ok ==> i.step_result(input, t, kernel, i_after, i_output)
                    &&& result == sum_of(p_output, i_output)
                    &&& result is Ok ==> after == AnalogController::PI(p_after, i_after)
                    &&& result is Err ==> after == *self
                },
            AnalogController::P(p) => exists|p_after: ProportionalController|
                {
                    &&& #[trigger] p.step_result(input, t, kernel, p_after, result)
                    &&& result is Ok ==> after == AnalogController::P(p_after)
                    &&& result is Err ==> after == *self
                },
            AnalogController::PDFiltered(p, d) => exists|
                p_after: ProportionalController,
                p_output: SimulatorResult<Ratio>,
                d_after: FilteredDerivativeController,
                d_output: SimulatorResult<Ratio>,
            |
                #![trigger p.step_result(input, t, kernel, p_after, p_output), d.step_result(input, t, kernel, d_after, d_output)]
                {
                    &&& p.step_result(input, t, kernel, p_after, p_output)
                    &&& p_output is Ok ==> d.step_result(input, t, kernel, d_after, d_output)
                    &&& result == sum_of(p_output, d_output)
                    &&& result is Ok ==> after == AnalogController::PDFiltered(p_after, d_after)
                    &&& result is Err ==> after == *self
                },
            AnalogController::IntegralStandalone(i) => exists|i_after: IntegralController|
                {
                    &&& #[trigger] i.step_result(input, t, kernel, i_after, result)
                    &&& result is Ok ==> after == AnalogController::IntegralStandalone(i_after)
                    &&& result is Err ==> after == *self
                },
            AnalogController::DerivativeFilteredStandalone(d) => exists|
                d_after: FilteredDerivativeController,
            |
                {
                    &&& #[trigger] d.step_result(input, t, kernel, d_after, result)
                    &&& result is Ok ==> after == AnalogController::DerivativeFilteredStandalone(
                        d_after,
                    )
                    &&& result is Err ==> after == *self
                },
        }
    }

    /// The controller `Kc [1 + 1 / (tau_I s)]`, at rest: both actions share
    /// the gain.  Fails as the proportional controller does, else as the
    /// integral controller does.
    pub fn new_pi_controller(
        controller_gain: Ratio,
        integral_time: Time,
    ) -> (r: SimulatorResult<Self>)
        ensures
            match ProportionalController::creation(controller_gain) {
                Err(e) => r == Err::<Self, ChemEngProcessControlSimulatorError>(e),
                Ok(p_design) => match IntegralController::creation(controller_gain, integral_time) {
                    Err(e) => r == Err::<Self, ChemEngProcessControlSimulatorError>(e),
                    Ok(_) => {
                        &&& r matches Ok(controller)
                        &&& controller.wf()
                        &&& controller matches AnalogController::PI(p, i)
                        &&& p.created_from(p_design)
                        &&& i.created_from(controller_gain, integral_time)
                    },
                },
            },
    {
        let p_controller = ProportionalController::new(controller_gain)?;
        let i_controller = IntegralController::new(controller_gain, integral_time)?;
        Ok(AnalogController::PI(p_controller, i_controller))
    }

    /// The controller `Kc [1 + 1 / (tau_I s) + tau_d s / (alpha tau_d s + 1)]`,
    /// at rest: the three actions share the gain.  Fails as the
    /// proportional controller does, else as the integral controller does,
    /// else as the filtered derivative controller does.
    pub fn new_filtered_pid_controller(
        controller_gain: Ratio,
        integral_time: Time,
        derivative_time: Time,
        alpha: Ratio,
    ) -> (r: SimulatorResult<Self>)
        ensures
            match ProportionalController::creation(controller_gain) {
                Err(e) => r == Err::<Self, ChemEngProcessControlSimulatorError>(e),
                Ok(p_design) => match IntegralController::creation(controller_gain, integral_time) {
                    Err(e) => r == Err::<Self, ChemEngProcessControlSimulatorError>(e),
                    Ok(_) => match FilteredDerivativeController::creation(
                        controller_gain,
                        derivative_time,
                        alpha,
                    ) {
                        Err(e) => r == Err::<Self, ChemEngProcessControlSimulatorError>(e),
                        Ok(d_design) => {
                            &&& r matches Ok(controller)
                            &&& controller.wf()
                            &&& controller matches AnalogController::PIDFiltered(p, i, d)
                            &&& p.created_from(p_design)
                            &&& i.created_from(controller_gain, integral_time)
                            &&& d.created_from(d_design)
                        },
                    },
                },
            },
    {
        let p_controller = ProportionalController::new(controller_gain)?;
        let i_controller = IntegralController::new(controller_gain, integral_time)?;
        let d_controller = FilteredDerivativeController::new(
            controller_gain,
            derivative_time,
            alpha,
        )?;
        Ok(AnalogController::PIDFiltered(p_controller, i_controller, d_controller))
    }

    /// What the name of the log file ends in: for a composite controller
    /// the mark of its kind, for a single action the mark of the action.
    pub open spec fn log_mark(&self) -> Option<Seq<char>> {
        match *self {
            AnalogController::PIDFiltered(_, _, _) => Some("_PID_controller.csv"@),
            AnalogController::PI(_, _) => Some("_PI_controller.csv"@),
            AnalogController::PDFiltered(_, _) => Some("_PD_controller.csv"@),
            AnalogController::P(p) => p.log_mark(),
            AnalogController::IntegralStandalone(i) => i.log_mark(),
            AnalogController::DerivativeFilteredStandalone(d) => d.log_mark(),
        }
    }

    /// The name of the log file: `name` followed by the mark of the
    /// controller.
    pub fn log_file_name(&self, name: String) -> (r: SimulatorResult<String>)
        ensures
            match self.log_mark() {
                Some(mark) => r matches Ok(title) && title@ == name@ + mark,
                None => r == unimplemented_regime::<String>(),
            },
    {
        match self {
            AnalogController::PIDFiltered(_, _, _) => Ok(name.concat("_PID_controller.csv")),
            AnalogController::PI(_, _) => Ok(name.concat("_PI_controller.csv")),
            AnalogController::P(ctrl) => ctrl.log_file_name(name),
            AnalogController::IntegralStandalone(ctrl) => ctrl.log_file_name(name),
            AnalogController::DerivativeFilteredStandalone(ctrl) => ctrl.log_file_name(name),
            AnalogController::PDFiltered(_, _) => Ok(name.concat("_PD_controller.csv")),
        }
    }

    /// Whether the value is well formed: what every other function asks
    /// of it.
    pub fn is_well_formed(&self) -> (b: bool)
        ensures
            b == self.wf(),
    {
        match self {
            AnalogController::PIDFiltered(p, i, d) => p.is_well_formed() && i.is_well_formed()
                && d.is_well_formed(),
            AnalogController::PI(p, i) => p.is_well_formed() && i.is_well_formed(),
            AnalogController::P(p) => p.is_well_formed(),
            AnalogController::PDFiltered(p, d) => p.is_well_formed() && d.is_well_formed(),
            AnalogController::IntegralStandalone(i) => i.is_well_formed(),
            AnalogController::DerivativeFilteredStandalone(d) => d.is_well_formed(),
        }
    }

    /// Sets the dead time of every control action.
    pub fn set_dead_time(&mut self, dead_time: Time)
        requires
            old(self).wf(),
        ensures
            final(self).wf(),
            old(self).delayed_by(final(self), dead_time),
    {
        match self {
            AnalogController::PIDFiltered(p, i, d) => {
                p.set_dead_time(dead_time);
                i.set_dead_time(dead_time);
                d.set_dead_time(dead_time);
            },
            AnalogController::PI(p, i) => {
                p.set_dead_time(dead_time);
                i.set_dead_time(dead_time);
            },
            AnalogController::P(p) => {
                p.set_dead_time(dead_time);
            },
            AnalogController::PDFiltered(p, d) => {
                p.set_dead_time(dead_time);
                d.set_dead_time(dead_time);
            },
            AnalogController::IntegralStandalone(i) => {
                i.set_dead_time(dead_time);
            },
            AnalogController::DerivativeFilteredStandalone(d) => {
                d.set_dead_time(dead_time);
            },
        }
    }

    /// The controller and its output after the input `user_input` at
    /// `time_of_input`, with the controller itself left as it is.
    pub fn respond<K: Fn(Transcendental, i128) -> i64>(
        &self,
        user_input: Ratio,
        time_of_input: Time,
        kernel: &K,
    ) -> (r: SimulatorResult<(Self, Ratio)>)
        requires
            self.wf(),
            callable(kernel),
        ensures
            self.step_result(
                user_input,
                time_of_input,
                relation_of(kernel),
                match r {
                    Ok((next, out)) => next,
                    Err(_) => *self,
                },
                match r {
                    Ok((next, out)) => Ok(out),
                    Err(e) => Err(e),
                },
            ),
            r matches Ok((next, out)) ==> next.wf(),
            r matches Err(e) ==> e == ChemEngProcessControlSimulatorError::ValueOutOfRange || e
                == ChemEngProcessControlSimulatorError::UnimplementedRegime,
    {
        match self {
            AnalogController::PIDFiltered(p, i, d) => {
                // where an earlier part fails, a later part is not consulted: any result
                // may stand for it in `step_result`, and one is named here
                let ghost i_unasked = i.step_result(
                    user_input,
                    time_of_input,
                    relation_of(kernel),
                    *i,
                    Ok(user_input),
                );
                let ghost d_unasked = d.step_result(
                    user_input,
                    time_of_input,
                    relation_of(kernel),
                    *d,
                    Ok(user_input),
                );
                let (p_next, p_output) = p.respond(user_input, time_of_input, kernel)?;
                let (i_next, i_output) = i.respond(user_input, time_of_input, kernel)?;
                let (d_next, d_output) = d.respond(user_input, time_of_input, kernel)?;
                let output = add_three_outputs(p_output, i_output, d_output)?;
                Ok((AnalogController::PIDFiltered(p_next, i_next, d_next), output))
            },
            AnalogController::PI(p, i) => {
                // where an earlier part fails, a later part is not consulted: any result
                // may stand for it in `step_result`, and one is named here
                let ghost i_unasked = i.step_result(
                    user_input,
                    time_of_input,
                    relation_of(kernel),
                    *i,
                    Ok(user_input),
                );
                let (p_next, p_output) = p.respond(user_input, time_of_input, kernel)?;
                let (i_next, i_output) = i.respond(user_input, time_of_input, kernel)?;
                let output = add_outputs(p_output, i_output)?;
                Ok((AnalogController::PI(p_next, i_next), output))
            },
            AnalogController::P(p) => {
                let (p_next, output) = p.respond(user_input, time_of_input, kernel)?;
                Ok((AnalogController::P(p_next), output))
            },
            AnalogController::PDFiltered(p, d) => {
                // where an earlier part fails, a later part is not consulted: any result
                // may stand for it in `step_result`, and one is named here
                let ghost d_unasked = d.step_result(
                    user_input,
                    time_of_input,
                    relation_of(kernel),
                    *d,
                    Ok(user_input),
                );
                let (p_next, p_output) = p.respond(user_input, time_of_input, kernel)?;
                let (d_next, d_output) = d.respond(user_input, time_of_input, kernel)?;
                let output = add_outputs(p_output, d_output)?;
                Ok((AnalogController::PDFiltered(p_next, d_next), output))
            },
            AnalogController::IntegralStandalone(i) => {
                let (i_next, output) = i.respond(user_input, time_of_input, kernel)?;
                Ok((AnalogController::IntegralStandalone(i_next), output))
            },
            AnalogController::DerivativeFilteredStandalone(d) => {
                let (d_next, output) = d.respond(user_input, time_of_input, kernel)?;
                Ok((AnalogController::DerivativeFilteredStandalone(d_next), output))
            },
        }
    }

    /// Takes the input `user_input` at `time_of_input` and returns the
    /// output there: the sum of the outputs of the control actions.  On
    /// failure nothing changes.
    pub fn set_user_input_and_calc<K: Fn(Transcendental, i128) -> i64>(
        &mut self,
        user_input: Ratio,
        time_of_input: Time,
        kernel: &K,
    ) -> (r: SimulatorResult<Ratio>)
        requires
            old(self).wf(),
            callable(kernel),
        ensures
            final(self).wf(),
            old(self).step_result(user_input, time_of_input, relation_of(kernel), *final(self), r),
            r is Err ==> *final(self) == *old(self),
    {
        let (next, output) = self.respond(user_input, time_of_input, kernel)?;
        *self = next;
        Ok(output)
    }
}

/// The output of a PID controller is the sum of the outputs of its three
/// actions, each computed by itself from the same input at the same time:
/// whenever the controller returns an output, the proportional, the
/// integral and the derivative controller that it holds each return one for
/// that input and time, the controller holds afterwards exactly what they
/// became, and its output is the sum of theirs.
pub proof fn lemma_pid_output_is_sum_of_actions(
    p: ProportionalController,
    i: IntegralController,
    d: FilteredDerivativeController,
    input: Ratio,
    t: Time,
    kernel: KernelRelation,
    after: AnalogController,
    output: Ratio,
)
    requires
        AnalogController::PIDFiltered(p, i, d).step_result(input, t, kernel, after, Ok(output)),
    ensures
        exists|
            p_after: ProportionalController,
            p_output: Ratio,
            i_after: IntegralController,
            i_output: Ratio,
            d_after: FilteredDerivativeController,
            d_output: Ratio,
        |
            #![trigger p.step_result(input, t, kernel, p_after, Ok(p_output)), i.step_result(input, t, kernel, i_after, Ok(i_output)), d.step_result(input, t, kernel, d_after, Ok(d_output))]
            {
                &&& p.step_result(input, t, kernel, p_after, Ok(p_output))
                &&& i.step_result(input, t, kernel, i_after, Ok(i_output))
                &&& d.step_result(input, t, kernel, d_after, Ok(d_output))
                &&& after == AnalogController::PIDFiltered(p_after, i_after, d_after)
                &&& output@ == p_output@ + i_output@ + d_output@
            },
{
    let (p_after, p_result, i_after, i_result, d_after, d_result) = choose|
        p_after: ProportionalController,
        p_output: SimulatorResult<Ratio>,
        i_after: IntegralController,
        i_output: SimulatorResult<Ratio>,
        d_after: FilteredDerivativeController,
        d_output: SimulatorResult<Ratio>,
    |
        #![trigger p.step_result(input, t, kernel, p_after, p_output), i.step_result(input, t, kernel, i_after, i_output), d.step_result(input, t, kernel, d_after, d_output)]
        {
            &&& p.step_result(input, t, kernel, p_after, p_output)
            &&& p_output is Ok ==> i.step_result(input, t, kernel, i_after, i_output)
            &&& p_output is Ok && i_output is Ok ==> d.step_result(
                input,
                t,
                kernel,
                d_after,
                d_output,
            )
            &&& Ok::<Ratio, ChemEngProcessControlSimulatorError>(output) == sum_of_three(
                p_output,
                i_output,
                d_output,
            )
            &&& after == AnalogController::PIDFiltered(p_after, i_after, d_after)
        };
    let p_output = p_result->Ok_0;
    let i_output = i_result->Ok_0;
    let d_output = d_result->Ok_0;
    assert(p.step_result(input, t, kernel, p_after, Ok(p_output)));
    assert(i.step_result(input, t, kernel, i_after, Ok(i_output)));
    assert(d.step_result(input, t, kernel, d_after, Ok(d_output)));
}

/// The same for a PI controller: its output is the sum of the outputs of
/// its proportional and its integral action, each computed by itself.
pub proof fn lemma_pi_output_is_sum_of_actions(
    p: ProportionalController,
    i: IntegralController,
    input: Ratio,
    t: Time,
    kernel: KernelRelation,
    after: AnalogController,
    output: Ratio,
)
    requires
        AnalogController::PI(p, i).step_result(input, t, kernel, after, Ok(output)),
    ensures
        exists|
            p_after: ProportionalController,
            p_output: Ratio,
            i_after: IntegralController,
            i_output: Ratio,
        |
            #![trigger p.step_result(input, t, kernel, p_after, Ok(p_output)), i.step_result(input, t, kernel, i_after, Ok(i_output))]
            {
                &&& p.step_result(input, t, kernel, p_after, Ok(p_output))
                &&& i.step_result(input, t, kernel, i_after, Ok(i_output))
                &&& after == AnalogController::PI(p_after, i_after)
                &&& output@ == p_output@ + i_output@
            },
{
    let (p_after, p_result, i_after, i_result) = choose|
        p_after: ProportionalController,
        p_output: SimulatorResult<Ratio>,
        i_after: IntegralController,
        i_output: SimulatorResult<Ratio>,
    |
        #![trigger p.step_result(input, t, kernel, p_after, p_output), i.step_result(input, t, kernel, i_after, i_output)]
        {
            &&& p.step_result(input, t, kernel, p_after, p_output)
            &&& p_output is Ok ==> i.step_result(input, t, kernel, i_after, i_output)
            &&& Ok::<Ratio, ChemEngProcessControlSimulatorError>(output) == sum_of(
                p_output,
                i_output,
            )
            &&& after == AnalogController::PI(p_after, i_after)
        };
    let p_output = p_result->Ok_0;
    let i_output = i_result->Ok_0;
    assert(p.step_result(input, t, kernel, p_after, Ok(p_output)));
    assert(i.step_result(input, t, kernel, i_after, Ok(i_output)));
}

impl TransferFnTraits for AnalogController {
    open spec fn valid(&self) -> bool {
        self.wf()
    }

    open spec fn delayed_to(&self, after: &Self, dead_time: Time) -> bool {
        self.delayed_by(after, dead_time)
    }

    open spec fn mark(&self) -> Option<Seq<char>> {
        self.log_mark()
    }

    open spec fn outcome(
        &self,
        user_input: Ratio,
        time_of_input: Time,
        kernel: KernelRelation,
        after: Self,
        result: SimulatorResult<Ratio>,
    ) -> bool {
        self.step_result(user_input, time_of_input, kernel, after, result)
    }

    fn is_valid(&self) -> (b: bool) {
        AnalogController::is_well_formed(self)
    }

    fn set_dead_time(&mut self, dead_time: Time) {
        AnalogController::set_dead_time(self, dead_time)
    }

    fn set_user_input_and_calc<K: Fn(Transcendental, i128) -> i64>(
        &mut self,
        user_input: Ratio,
        time_of_input: Time,
        kernel: &K,
    ) -> (r: SimulatorResult<Ratio>) {
        AnalogController::set_user_input_and_calc(self, user_input, time_of_input, kernel)
    }

    fn log_file_name(&self, name: String) -> (r: SimulatorResult<String>) {
        AnalogController::log_file_name(self, name)
    }
}

impl TransferFnTraits for ProportionalController {
    open spec fn valid(&self) -> bool {
        self.wf()
    }

    open spec fn delayed_to(&self, after: &Self, dead_time: Time) -> bool {
        self.delayed_by(after, dead_time)
    }

    open spec fn mark(&self) -> Option<Seq<char>> {
        self.log_mark()
    }

    open spec fn outcome(
        &self,
        user_input: Ratio,
        time_of_input: Time,
        kernel: KernelRelation,
        after: Self,
        result: SimulatorResult<Ratio>,
    ) -> bool {
        self.step_result(user_input, time_of_input, kernel, after, result)
    }

    fn is_valid(&self) -> (b: bool) {
        ProportionalController::is_well_formed(self)
    }

    fn set_dead_time(&mut self, dead_time: Time) {
        ProportionalController::set_dead_time(self, dead_time)
    }

    fn set_user_input_and_calc<K: Fn(Transcendental, i128) -> i64>(
        &mut self,
        user_input: Ratio,
        time_of_input: Time,
        kernel: &K,
    ) -> (r: SimulatorResult<Ratio>) {
        ProportionalController::set_user_input_and_calc(self, user_input, time_of_input, kernel)
    }

    fn log_file_name(&self, name: String) -> (r: SimulatorResult<String>) {
        ProportionalController::log_file_name(self, name)
    }
}

impl TransferFnTraits for IntegralController {
    open spec fn valid(&self) -> bool {
        self.wf()
    }

    open spec fn delayed_to(&self, after: &Self, dead_time: Time) -> bool {
        self.delayed_by(after, dead_time)
    }

    open spec fn mark(&self) -> Option<Seq<char>> {
        self.log_mark()
    }

    open spec fn outcome(
        &self,
        user_input: Ratio,
        time_of_input: Time,
        kernel: KernelRelation,
        after: Self,
        result: SimulatorResult<Ratio>,
    ) -> bool {
        self.step_result(user_input, time_of_input, kernel, after, result)
    }

    fn is_valid(&self) -> (b: bool) {
        IntegralController::is_well_formed(self)
    }

    fn set_dead_time(&mut self, dead_time: Time) {
        IntegralController::set_dead_time(self, dead_time)
    }

    fn set_user_input_and_calc<K: Fn(Transcendental, i128) -> i64>(
        &mut self,
        user_input: Ratio,
        time_of_input: Time,
        kernel: &K,
    ) -> (r: SimulatorResult<Ratio>) {
        IntegralController::set_user_input_and_calc(self, user_input, time_of_input, kernel)
    }

    fn log_file_name(&self, name: String) -> (r: SimulatorResult<String>) {
        IntegralController::log_file_name(self, name)
    }
}

impl TransferFnTraits for FilteredDerivativeController {
    open spec fn valid(&self) -> bool {
        self.wf()
    }

    open spec fn delayed_to(&self, after: &Self, dead_time: Time) -> bool {
        self.delayed_by(after, dead_time)
    }

    open spec fn mark(&self) -> Option<Seq<char>> {
        self.log_mark()
    }

    open spec fn outcome(
        &self,
        user_input: Ratio,
        time_of_input: Time,
        kernel: KernelRelation,
        after: Self,
        result: SimulatorResult<Ratio>,
    ) -> bool {
        self.step_result(user_input, time_of_input, kernel, after, result)
    }

    fn is_valid(&self) -> (b: bool) {
        FilteredDerivativeController::is_well_formed(self)
    }

    fn set_dead_time(&mut self, dead_time: Time) {
        FilteredDerivativeController::set_dead_time(self, dead_time)
    }

    fn set_user_input_and_calc<K: Fn(Transcendental, i128) -> i64>(
        &mut self,
        user_input: Ratio,
        time_of_input: Time,
        kernel: &K,
    ) -> (r: SimulatorResult<Ratio>) {
        FilteredDerivativeController::set_user_input_and_calc(
            self,
            user_input,
            time_of_input,
            kernel,
        )
    }

    fn log_file_name(&self, name: String) -> (r: SimulatorResult<String>) {
        FilteredDerivativeController::log_file_name(self, name)
    }
}

impl From<ProportionalController> for AnalogController {
    fn from(controller: ProportionalController) -> (r: AnalogController) {
        AnalogController::P(controller)
    }
}

impl vstd::std_specs::convert::FromSpecImpl<ProportionalController> for AnalogController {
    open spec fn obeys_from_spec() -> bool {
        true
    }

    open spec fn from_spec(controller: ProportionalController) -> AnalogController {
        AnalogController::P(controller)
    }
}

impl From<IntegralController> for AnalogController {
    fn from(controller: IntegralController) -> (r: AnalogController) {
        AnalogController::IntegralStandalone(controller)
    }
}

impl vstd::std_specs::convert::FromSpecImpl<IntegralController> for AnalogController {
    open spec fn obeys_from_spec() -> bool {
        true
    }

    open spec fn from_spec(controller: IntegralController) -> AnalogController {
        AnalogController::IntegralStandalone(controller)
    }
}

impl From<FilteredDerivativeController> for AnalogController {
    fn from(controller: FilteredDerivativeController) -> (r: AnalogController) {
        AnalogController::DerivativeFilteredStandalone(controller)
    }
}

impl vstd::std_specs::convert::FromSpecImpl<FilteredDerivativeController> for AnalogController {
    open spec fn obeys_from_spec() -> bool {
        true
    }

    open spec fn from_spec(controller: FilteredDerivativeController) -> AnalogController {
        AnalogController::DerivativeFilteredStandalone(controller)
    }
}

} // verus!
