//! The step: `u(t - t1) * Kp * a0`.
use crate::errors::{in_range, out_of_range, SimulatorResult};
use crate::fixed_point::{
    checked_difference,
    checked_scaled_product,
    fits,
    NANO,
    scaled_product,
    unit,
};
use crate::kernel::KernelQuery;
use crate::quantities::{Ratio, Time};
use vstd::prelude::*;

verus! {

/// A step of height `process_gain * user_input` that switches on at `start_time`.
#[derive(Debug, PartialEq, PartialOrd, Clone, Copy)]
pub struct StepFunction {
    pub process_gain: Ratio,
    pub start_time: Time,
    pub user_input: Ratio,
    pub current_time: Time,
}

impl StepFunction {
    /// The height can be stored, and so can the time since the start.
    pub open spec fn wf(&self) -> bool {
        &&& fits(self.steady_value())
        &&& fits(self.current_time@ - self.start_time@)
    }

    /// The step has switched on by the last evaluation.
    pub open spec fn steady(&self) -> bool {
        self.current_time@ - self.start_time@ >= 0
    }

    /// The height of the step.
    pub open spec fn steady_value(&self) -> int {
        scaled_product(self.user_input@, self.process_gain@)
    }

    /// The step can be evaluated at `t`.
    pub open spec fn query_defined(&self, t: Time) -> bool {
        fits(t@ - self.start_time@)
    }

    /// A step asks nothing of the kernel.
    pub open spec fn query(&self, t: Time) -> KernelQuery {
        KernelQuery { decay: None, second_decay: None, sine: None, cosine: None }
    }

    /// The value at `t`: 0 before the start, the height from then on.
    pub open spec fn response(&self, t: Time) -> int {
        if t@ >= self.start_time@ {
            self.steady_value()
        } else {
            0
        }
    }

    /// The step after an evaluation at `t`.
    pub open spec fn stamped(&self, t: Time) -> Self {
        StepFunction { current_time: t, ..*self }
    }

    /// A step; fails where its height or the time since its start cannot be stored.
    pub fn new(
        process_gain: Ratio,
        start_time: Time,
        user_input: Ratio,
        current_time: Time,
    ) -> (r: SimulatorResult<Self>)
        ensures
            r is Ok <==> (StepFunction { process_gain, start_time, user_input, current_time }).wf(),
            r matches Ok(step) ==> step == (StepFunction {
                process_gain,
                start_time,
                user_input,
                current_time,
            }),
            r is Err ==> r == out_of_range::<Self>(),
    {
        let _height: i64 = in_range(checked_scaled_product(user_input.nano, process_gain.nano))?;
        let _elapsed: i64 = in_range(checked_difference(current_time.nano, start_time.nano))?;
        Ok(StepFunction { process_gain, start_time, user_input, current_time })
    }

    /// Whether the value is well formed: what every other function asks
    /// of it.
    pub fn is_well_formed(&self) -> (b: bool)
        ensures
            b == self.wf(),
    {
        checked_scaled_product(self.user_input.nano, self.process_gain.nano).is_some()
            && checked_difference(self.current_time.nano, self.start_time.nano).is_some()
    }

    /// Whether the step has reached its final value: as soon as it is on.
    pub fn is_steady_state(&self) -> (b: bool)
        ensures
            b == self.steady(),
    {
        self.current_time.nano >= self.start_time.nano
    }

    /// The final value, `user_input * process_gain`.
    pub fn steady_state_value(&self) -> (v: Ratio)
        requires
            self.wf(),
        ensures
            v@ == self.steady_value(),
    {
        match checked_scaled_product(self.user_input.nano, self.process_gain.nano) {
            Some(nano) => Ratio { nano },
            None => Ratio { nano: 0 },
        }
    }

    /// The arguments for the kernel at `t`: none.
    pub fn kernel_query(&self, t: Time) -> (r: SimulatorResult<KernelQuery>)
        requires
            self.wf(),
        ensures
            r is Ok <==> self.query_defined(t),
            r matches Ok(q) ==> q == self.query(t),
            r is Err ==> r == out_of_range::<KernelQuery>(),
    {
        let _elapsed: i64 = in_range(checked_difference(t.nano, self.start_time.nano))?;
        Ok(KernelQuery::nothing())
    }

    /// The value at `t`.
    pub fn response_at(&self, t: Time) -> (v: Ratio)
        requires
            self.wf(),
        ensures
            v@ == self.response(t),
    {
        if t.nano >= self.start_time.nano {
            self.steady_state_value()
        } else {
            Ratio { nano: 0 }
        }
    }

    /// Moves the step to `simulation_time` and returns its value there; on
    /// failure the step is unchanged.
    pub fn calculate_response(&mut self, simulation_time: Time) -> (r: SimulatorResult<Ratio>)
        requires
            old(self).wf(),
        ensures
            final(self).wf(),
            r is Ok <==> old(self).query_defined(simulation_time),
            r matches Ok(v) ==> v@ == old(self).response(simulation_time) && *final(self) == old(
                self,
            ).stamped(simulation_time),
            r is Err ==> r == out_of_range::<Ratio>() && *final(self) == *old(self),
    {
        let _elapsed: i64 = in_range(
            checked_difference(simulation_time.nano, self.start_time.nano),
        )?;
        let value = self.response_at(simulation_time);
        self.current_time = simulation_time;
        Ok(value)
    }
}

impl Default for StepFunction {
    /// The unit step at time 0.
    fn default() -> (step: Self)
        ensures
            step.wf(),
            step.process_gain@ == NANO,
            step.start_time@ == 0,
            step.user_input@ == NANO,
            step.current_time@ == 0,
    {
        StepFunction {
            process_gain: Ratio::one(),
            start_time: Time::zero(),
            user_input: Ratio::one(),
            current_time: Time::zero(),
        }
    }
}

} // verus!
