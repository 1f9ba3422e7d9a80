//! The integral controller `G(s) = Kc / (tau_I s)`.
//!
//! The integral of a step is a ramp, and a ramp never settles.  The
//! controller therefore keeps the area under its ramps exactly, in units of
//! a billionth of a billionth, and rounds once, when it returns its output.
//! A ramp that has run for a second is stabilised: the area it has swept
//! goes to the offset and its slope to the main ramp, which carries on
//! from there.  Since the areas are exact, stabilising changes no output.
//! Sums of slopes and of areas are exact whatever their parts: a step fails
//! only where something that it stores, or its output, is out of range.
use crate::errors::{
    ChemEngProcessControlSimulatorError,
    in_range,
    in_range_of,
    out_of_range,
    SimulatorResult,
    unimplemented_regime,
    unstable,
};
use crate::fixed_point::{
    checked_difference,
    checked_scaled_product,
    checked_scaled_quotient,
    checked_sum,
    fits,
    fits_wide,
    join_wide,
    joined,
    lemma_output_needs_total,
    NANO,
    narrow,
    round_div,
    rounded_output,
    rounded_product,
    scaled_product,
    scaled_quotient,
    split_wide,
    wide_product,
};
use crate::kernel::{KernelRelation, relation_of, Transcendental};
use crate::quantities::{Frequency, Ratio, Time};
use vstd::string::StringExecFns;
use vstd::prelude::*;

verus! {

/// The ramp `u(t - t_start) * a * K * (t - t_start)`, the integral of a
/// step of height `user_input` taken with gain `gradient_gain`.
#[derive(Debug, PartialEq, PartialOrd, Clone, Copy)]
pub struct RampResponse {
    pub gradient_gain: Frequency,
    pub start_time: Time,
    pub user_input: Ratio,
    pub current_time: Time,
}

impl RampResponse {
    /// The slope of the ramp, `user_input * gradient_gain`.
    pub open spec fn slope(&self) -> int {
        scaled_product(self.user_input@, self.gradient_gain@)
    }

    /// The slope and the time since the start can be stored.
    pub open spec fn wf(&self) -> bool {
        &&& fits(self.slope())
        &&& fits(self.current_time@ - self.start_time@)
    }

    /// The area that the ramp has swept by `t`, exactly: 0 before the
    /// start, the slope times the elapsed time from then on.
    pub open spec fn area(&self, t: Time) -> int {
        if t@ >= self.start_time@ {
            self.slope() * (t@ - self.start_time@)
        } else {
            0
        }
    }

    /// The value at `t`: the area in stored units.
    pub open spec fn response(&self, t: Time) -> int {
        round_div(self.area(t), NANO as int)
    }

    /// The ramp has been on for a second or more at its last evaluation.
    pub open spec fn started_for_1s(&self) -> bool {
        self.current_time@ - self.start_time@ >= NANO
    }

    /// The ramp has been on for a second or more at `t`.
    pub open spec fn stabilised(&self, t: Time) -> bool {
        t@ - self.start_time@ >= NANO
    }

    /// The ramp after an evaluation at `t`.
    pub open spec fn stamped(&self, t: Time) -> Self {
        RampResponse { current_time: t, ..*self }
    }

    /// A ramp; fails where its slope or the time since its start cannot be
    /// stored.
    pub fn new(
        gradient_gain: Frequency,
        start_time: Time,
        user_input: Ratio,
        current_time: Time,
    ) -> (r: SimulatorResult<Self>)
        ensures
            r is Ok <==> (RampResponse {
                gradient_gain,
                start_time,
                user_input,
                current_time,
            }).wf(),
            r matches Ok(ramp) ==> ramp == (RampResponse {
                gradient_gain,
                start_time,
                user_input,
                current_time,
            }),
            r is Err ==> r == out_of_range::<Self>(),
    {
        let _slope: i64 = in_range(checked_scaled_product(user_input.nano, gradient_gain.nano))?;
        let _elapsed: i64 = in_range(checked_difference(current_time.nano, start_time.nano))?;
        Ok(RampResponse { gradient_gain, start_time, user_input, current_time })
    }

    /// Whether the value is well formed: what every other function asks
    /// of it.
    pub fn is_well_formed(&self) -> (b: bool)
        ensures
            b == self.wf(),
    {
        checked_scaled_product(self.user_input.nano, self.gradient_gain.nano).is_some()
            && checked_difference(self.current_time.nano, self.start_time.nano).is_some()
    }

    /// The slope of the ramp.
    pub fn gradient(&self) -> (s: i64)
        requires
            self.wf(),
        ensures
            s == self.slope(),
    {
        match checked_scaled_product(self.user_input.nano, self.gradient_gain.nano) {
            Some(s) => s,
            None => 0,
        }
    }

    /// The area swept by `t`, exactly.
    pub fn exact_area(&self, t: Time) -> (a: i128)
        requires
            self.wf(),
            fits(t@ - self.start_time@),
        ensures
            a == self.area(t),
            -0x4000_0000_0000_0000_0000_0000_0000_0000 <= a
                <= 0x4000_0000_0000_0000_0000_0000_0000_0000,
    {
        if t.nano >= self.start_time.nano {
            wide_product(self.gradient(), t.nano - self.start_time.nano)
        } else {
            0
        }
    }

    /// Moves the ramp to `simulation_time` and returns its value there; on
    /// failure the ramp is unchanged.
    pub fn calculate_response(&mut self, simulation_time: Time) -> (r: SimulatorResult<Ratio>)
        requires
            old(self).wf(),
        ensures
            final(self).wf(),
            r is Ok <==> fits(simulation_time@ - old(self).start_time@) && fits(
                old(self).response(simulation_time),
            ),
            r matches Ok(v) ==> v@ == old(self).response(simulation_time) && *final(self) == old(
                self,
            ).stamped(simulation_time),
            r is Err ==> r == out_of_range::<Ratio>() && *final(self) == *old(self),
    {
        let _elapsed: i64 = in_range(
            checked_difference(simulation_time.nano, self.start_time.nano),
        )?;
        let nano: i64 = in_range(rounded_output(self.exact_area(simulation_time)))?;
        self.current_time = simulation_time;
        Ok(Ratio { nano })
    }

    /// Whether the ramp has been on for a second or more at its last evaluation.
    pub fn is_started_for_1s(&self) -> (b: bool)
        ensures
            b == self.started_for_1s(),
    {
        self.current_time.nano as i128 - self.start_time.nano as i128 >= NANO as i128
    }
}

impl Default for RampResponse {
    /// The unit ramp from time 0.
    fn default() -> (ramp: Self)
        ensures
            ramp.wf(),
            ramp.gradient_gain@ == NANO,
            ramp.start_time@ == 0,
            ramp.user_input@ == NANO,
            ramp.current_time@ == 0,
    {
        RampResponse {
            gradient_gain: Frequency { nano: NANO },
            start_time: Time::zero(),
            user_input: Ratio::one(),
            current_time: Time::zero(),
        }
    }
}

/// A single ramp in closed form, `output = gradient * t + offset`.  Every
/// change of the input moves the gradient by the increment times
/// `Kc / tau_I` and the offset by as much as keeps the output continuous at
/// the time of the change.  It bounds memory by one ramp, and takes no dead
/// time.
#[derive(Debug, PartialEq, PartialOrd, Clone, Copy)]
pub struct RampResponseRealTime {
    pub start_time: Time,
    pub current_time: Time,
    pub previous_timestep_input: Ratio,
    pub offset: Ratio,
    /// `Kc / tau_I`.
    pub gradient_gain: Frequency,
    /// The gradient of the ramp: `Kc / tau_I` times the input.
    pub gradient: Frequency,
}

impl Default for RampResponseRealTime {
    /// `G(s) = 1 / s`, at rest.
    fn default() -> (ramp: Self)
        ensures
            ramp == (RampResponseRealTime {
                start_time: Time { nano: 0 },
                current_time: Time { nano: 0 },
                previous_timestep_input: Ratio { nano: 0 },
                offset: Ratio { nano: 0 },
                gradient_gain: Frequency { nano: NANO },
                gradient: Frequency { nano: 0 },
            }),
    {
        RampResponseRealTime {
            start_time: Time::zero(),
            current_time: Time::zero(),
            previous_timestep_input: Ratio::zero(),
            offset: Ratio::zero(),
            gradient_gain: Frequency { nano: NANO },
            gradient: Frequency::zero(),
        }
    }
}

impl RampResponseRealTime {
    /// What a change of the input to `input` adds to the gradient: the
    /// increment times `gradient_gain`.
    pub open spec fn gradient_change(&self, input: Ratio) -> int {
        scaled_product(input@ - self.previous_timestep_input@, self.gradient_gain@)
    }

    /// What a change of the input to `input` at `t` adds to the offset:
    /// what the added gradient would have swept by `t`, taken away.
    pub open spec fn offset_change(&self, input: Ratio, t: Time) -> int {
        -scaled_product(self.gradient_change(input), t@)
    }

    /// The ramp after the input `input` at `t`.
    pub open spec fn moved(&self, input: Ratio, t: Time) -> Self {
        RampResponseRealTime {
            current_time: t,
            previous_timestep_input: input,
            offset: Ratio { nano: (self.offset@ + self.offset_change(input, t)) as i64 },
            gradient: Frequency { nano: (self.gradient@ + self.gradient_change(input)) as i64 },
            ..*self
        }
    }

    /// The value at `t`: `gradient * t + offset`.
    pub open spec fn value(&self, t: Time) -> int {
        scaled_product(self.gradient@, t@) + self.offset@
    }

    /// What a step with input `input` at `t` stores can be stored: the
    /// increment and what it adds to the gradient, the new offset, the new
    /// gradient, and the value.
    pub open spec fn step_defined(&self, input: Ratio, t: Time) -> bool {
        &&& fits(input@ - self.previous_timestep_input@)
        &&& fits(self.gradient_change(input))
        &&& fits(self.offset@ + self.offset_change(input, t))
        &&& fits(self.gradient@ + self.gradient_change(input))
        &&& fits(self.moved(input, t).value(t))
    }

    /// The ramp of `G(s) = Kc / (tau_I s)`, at rest.  Fails with the
    /// stability error where `integral_time <= 0`, else with the range error
    /// where `Kc / tau_I` cannot be stored.
    pub fn new(integral_time: Time, controller_gain: Ratio) -> (r: SimulatorResult<Self>)
        ensures
            integral_time@ <= 0 ==> r == unstable::<Self>(),
            integral_time@ > 0 && !fits(scaled_quotient(controller_gain@, integral_time@)) ==> r
                == out_of_range::<Self>(),
            integral_time@ > 0 && fits(scaled_quotient(controller_gain@, integral_time@)) ==> r
                == Ok::<Self, ChemEngProcessControlSimulatorError>(
                RampResponseRealTime {
                    start_time: Time { nano: 0 },
                    current_time: Time { nano: 0 },
                    previous_timestep_input: Ratio { nano: 0 },
                    offset: Ratio { nano: 0 },
                    gradient_gain: Frequency {
                        nano: scaled_quotient(controller_gain@, integral_time@) as i64,
                    },
                    gradient: Frequency { nano: 0 },
                },
            ),
    {
        if integral_time.nano <= 0 {
            return Err(
                ChemEngProcessControlSimulatorError::UnstableDampingFactorForStableTransferFunction,
            );
        }
        let gradient_gain: i64 = in_range(
            checked_scaled_quotient(controller_gain.nano, integral_time.nano),
        )?;
        Ok(
            RampResponseRealTime {
                start_time: Time::zero(),
                current_time: Time::zero(),
                previous_timestep_input: Ratio::zero(),
                offset: Ratio::zero(),
                gradient_gain: Frequency { nano: gradient_gain },
                gradient: Frequency::zero(),
            },
        )
    }

    /// Takes the input `user_input` at `time_of_input` and returns the
    /// value of the ramp there.  A change of the input adds the increment
    /// times `gradient_gain` to the gradient and takes what that would have
    /// swept by `time_of_input` from the offset; the input is recorded.
    /// Fails where a value of the step cannot be stored, and then nothing
    /// changes.
    pub fn set_user_input_and_calc(&mut self, user_input: Ratio, time_of_input: Time) -> (r:
        SimulatorResult<Ratio>)
        ensures
            r is Ok <==> old(self).step_defined(user_input, time_of_input),
            r matches Ok(v) ==> v@ == old(self).moved(user_input, time_of_input).value(
                time_of_input,
            ) && *final(self) == old(self).moved(user_input, time_of_input),
            r is Err ==> r == out_of_range::<Ratio>() && *final(self) == *old(self),
    {
        let increment: i64 = in_range(
            checked_difference(user_input.nano, self.previous_timestep_input.nano),
        )?;
        let gradient_change: i64 = in_range(
            checked_scaled_product(increment, self.gradient_gain.nano),
        )?;
        let swept: i128 = rounded_product(gradient_change, time_of_input.nano, NANO);
        let offset: i64 = in_range(narrow(self.offset.nano as i128 - swept))?;
        let gradient: i64 = in_range(checked_sum(self.gradient.nano, gradient_change))?;
        let slope_part: i128 = rounded_product(gradient, time_of_input.nano, NANO);
        let nano: i64 = in_range(narrow(slope_part + offset as i128))?;
        self.current_time = time_of_input;
        self.previous_timestep_input = user_input;
        self.offset = Ratio { nano: offset };
        self.gradient = Frequency { nano: gradient };
        Ok(Ratio { nano })
    }
}

/// Every ramp of the list is well formed.
pub open spec fn all_ramps_wf(list: Seq<RampResponse>) -> bool {
    forall|i: int| 0 <= i < list.len() ==> (#[trigger] list[i]).wf()
}

/// The time from the start of every ramp of the list to `t` can be stored.
pub open spec fn elapsed_fit(list: Seq<RampResponse>, t: Time) -> bool {
    forall|i: int| 0 <= i < list.len() ==> fits(t@ - (#[trigger] list[i]).start_time@)
}

/// Some ramp among the first `n` of `list` is stabilised at `t`.
pub open spec fn any_stabilised(list: Seq<RampResponse>, t: Time, n: nat) -> bool
    decreases n,
{
    if n == 0 {
        false
    } else {
        list[n - 1].stabilised(t) || any_stabilised(list, t, (n - 1) as nat)
    }
}

/// The ramps among the first `n` of `list` that are not stabilised at `t`,
/// in order, moved to `t`.
pub open spec fn kept_ramps(list: Seq<RampResponse>, t: Time, n: nat) -> Seq<RampResponse>
    decreases n,
{
    if n == 0 {
        Seq::empty()
    } else if list[n - 1].stabilised(t) {
        kept_ramps(list, t, (n - 1) as nat)
    } else {
        kept_ramps(list, t, (n - 1) as nat).push(list[n - 1].stamped(t))
    }
}

/// The sum of the slopes of the ramps among the first `n` of `list` that
/// are stabilised at `t`.
pub open spec fn folded_slope(list: Seq<RampResponse>, t: Time, n: nat) -> int
    decreases n,
{
    if n == 0 {
        0
    } else if list[n - 1].stabilised(t) {
        folded_slope(list, t, (n - 1) as nat) + list[n - 1].slope()
    } else {
        folded_slope(list, t, (n - 1) as nat)
    }
}

/// The sum of the areas swept by `t` by the ramps among the first `n` of
/// `list` that are stabilised at `t`.
pub open spec fn folded_area(list: Seq<RampResponse>, t: Time, n: nat) -> int
    decreases n,
{
    if n == 0 {
        0
    } else if list[n - 1].stabilised(t) {
        folded_area(list, t, (n - 1) as nat) + list[n - 1].area(t)
    } else {
        folded_area(list, t, (n - 1) as nat)
    }
}

/// Kept ramps are well formed, started at most a second before `t`, and
/// stand at `t`.
pub proof fn lemma_kept_ramps(list: Seq<RampResponse>, t: Time, n: nat)
    requires
        n <= list.len(),
        all_ramps_wf(list),
        elapsed_fit(list, t),
    ensures
        all_ramps_wf(kept_ramps(list, t, n)),
        elapsed_fit(kept_ramps(list, t, n), t),
        forall|i: int|
            0 <= i < kept_ramps(list, t, n).len() ==> !(#[trigger] kept_ramps(
                list,
                t,
                n,
            )[i]).stabilised(t),
    decreases n,
{
    if n > 0 {
        lemma_kept_ramps(list, t, (n - 1) as nat);
    }
}

/// What an integral controller holds, as mathematical values.
pub struct IntegralModel {
    pub controller_gain: Ratio,
    pub integral_time: Time,
    pub delay: Time,
    pub previous_timestep_input: Ratio,
    pub offset: int,
    pub main_ramp_fn: RampResponse,
    pub ramps: Seq<RampResponse>,
}

impl IntegralModel {
    /// The gradient gain `Kc / tau_I`.
    pub open spec fn gradient_gain(self) -> int {
        scaled_quotient(self.controller_gain@, self.integral_time@)
    }

    /// The input differs from the last one seen, to nine decimal places.
    pub open spec fn changed(self, input: Ratio) -> bool {
        input@ != self.previous_timestep_input@
    }

    /// The ramp that answers a change of the input to `input` at `t`: its
    /// height is the increment, and it switches on after the dead time.
    pub open spec fn spawned_ramp(self, t: Time, input: Ratio) -> RampResponse {
        RampResponse {
            gradient_gain: Frequency { nano: self.gradient_gain() as i64 },
            start_time: Time { nano: (t@ + self.delay@) as i64 },
            user_input: Ratio { nano: (input@ - self.previous_timestep_input@) as i64 },
            current_time: t,
        }
    }

    /// The increment, the start time and the slope of the spawned ramp can
    /// be stored.
    pub open spec fn spawn_defined(self, t: Time, input: Ratio) -> bool {
        self.changed(input) ==> {
            &&& fits(input@ - self.previous_timestep_input@)
            &&& fits(t@ + self.delay@)
            &&& self.spawned_ramp(t, input).wf()
        }
    }

    /// The ramps that take part in a step: those held, then the spawned one.
    pub open spec fn candidates(self, t: Time, input: Ratio) -> Seq<RampResponse> {
        if self.changed(input) {
            self.ramps.push(self.spawned_ramp(t, input))
        } else {
            self.ramps
        }
    }

    /// Some ramp is stabilised in a step at `t`, so that the main ramp
    /// starts anew from `t`.
    pub open spec fn rebased(self, t: Time, input: Ratio) -> bool {
        any_stabilised(self.candidates(t, input), t, self.candidates(t, input).len())
    }

    /// The slope of the main ramp after a step at `t`.
    pub open spec fn next_slope(self, t: Time, input: Ratio) -> int {
        self.main_ramp_fn.slope() + folded_slope(
            self.candidates(t, input),
            t,
            self.candidates(t, input).len(),
        )
    }

    /// The offset after a step at `t`: where a ramp is stabilised, what the
    /// main ramp and the stabilised ramps have swept by `t` is added.
    pub open spec fn next_offset(self, t: Time, input: Ratio) -> int {
        if self.rebased(t, input) {
            self.offset + self.main_ramp_fn.area(t) + folded_area(
                self.candidates(t, input),
                t,
                self.candidates(t, input).len(),
            )
        } else {
            self.offset
        }
    }

    /// The main ramp after a step at `t`: where a ramp is stabilised, it
    /// starts anew at `t` with the slopes of the stabilised ramps added.
    pub open spec fn next_main(self, t: Time, input: Ratio) -> RampResponse {
        if self.rebased(t, input) {
            RampResponse {
                gradient_gain: Frequency { nano: self.next_slope(t, input) as i64 },
                start_time: t,
                user_input: Ratio { nano: NANO },
                current_time: t,
            }
        } else {
            self.main_ramp_fn.stamped(t)
        }
    }

    /// The active ramps after a step at `t`.
    pub open spec fn next_ramps(self, t: Time, input: Ratio) -> Seq<RampResponse> {
        kept_ramps(self.candidates(t, input), t, self.candidates(t, input).len())
    }

    /// The integral at `t` after a step at `t`, exactly: the offset, the
    /// main ramp and the active ramps.
    pub open spec fn total(self, t: Time, input: Ratio) -> int {
        self.next_offset(t, input) + self.next_main(t, input).area(t) + ramp_areas(
            self.next_ramps(t, input),
            t,
            self.next_ramps(t, input).len(),
        )
    }

    /// The output of a step at `t`: the integral in stored units.
    pub open spec fn output(self, t: Time, input: Ratio) -> int {
        round_div(self.total(t, input), NANO as int)
    }

    /// Everything that a step at `t` stores is in range: the spawned ramp,
    /// the time since the start of every ramp, the slope of the main ramp
    /// and the offset where a ramp is stabilised, and the output.  The
    /// sums are exact, whatever their parts.
    pub open spec fn step_defined(self, t: Time, input: Ratio) -> bool {
        let candidates = self.candidates(t, input);
        &&& self.spawn_defined(t, input)
        &&& elapsed_fit(candidates, t)
        &&& fits(t@ - self.main_ramp_fn.start_time@)
        &&& self.rebased(t, input) ==> {
            &&& fits(self.next_slope(t, input))
            &&& fits_wide(self.next_offset(t, input))
        }
        &&& fits(self.output(t, input))
    }

    /// The controller after a step at `t` with input `input`.
    pub open spec fn advanced(self, t: Time, input: Ratio) -> Self {
        IntegralModel {
            controller_gain: self.controller_gain,
            integral_time: self.integral_time,
            delay: self.delay,
            previous_timestep_input: input,
            offset: self.next_offset(t, input),
            main_ramp_fn: self.next_main(t, input),
            ramps: self.next_ramps(t, input),
        }
    }

    /// The integral at `t`, exactly, of a controller that stands at or
    /// before `t`: the offset, the main ramp and the active ramps.
    pub open spec fn integral_at(self, t: Time) -> int {
        self.offset + self.main_ramp_fn.area(t) + ramp_areas(self.ramps, t, self.ramps.len())
    }
}

/// The sum of the areas swept by `t` by the first `n` ramps of `list`.
pub open spec fn ramp_areas(list: Seq<RampResponse>, t: Time, n: nat) -> int
    decreases n,
{
    if n == 0 {
        0
    } else {
        ramp_areas(list, t, (n - 1) as nat) + list[n - 1].area(t)
    }
}

/// An integral controller: to every change of its input it answers with a
/// ramp whose slope is the increment times `Kc / tau_I`.
#[derive(Debug, PartialEq, PartialOrd, Clone)]
pub struct IntegralController {
    pub controller_gain: Ratio,
    /// Also known as reset time.
    pub integral_time: Time,
    /// Also known as dead time.
    pub delay: Time,
    pub previous_timestep_input: Ratio,
    /// What the stabilised ramps had swept when they were stabilised, in
    /// units of a billionth of a billionth.
    pub offset: i128,
    /// The ramp that carries the slopes of the stabilised ramps, with input 1.
    pub main_ramp_fn: RampResponse,
    /// The ramps younger than a second, in the order in which they were spawned.
    pub delayed_ramp_fn_vectors: Vec<RampResponse>,
}

impl View for IntegralController {
    type V = IntegralModel;

    open spec fn view(&self) -> IntegralModel {
        IntegralModel {
            controller_gain: self.controller_gain,
            integral_time: self.integral_time,
            delay: self.delay,
            previous_timestep_input: self.previous_timestep_input,
            offset: self.offset as int,
            main_ramp_fn: self.main_ramp_fn,
            ramps: self.delayed_ramp_fn_vectors@,
        }
    }
}

impl IntegralController {
    /// The integral time is positive, the gradient gain can be stored and
    /// the ramps are well formed.
    pub open spec fn wf(&self) -> bool {
        &&& self.integral_time@ > 0
        &&& fits(self@.gradient_gain())
        &&& self.main_ramp_fn.wf()
        &&& all_ramps_wf(self.delayed_ramp_fn_vectors@)
    }

    /// What construction gives: the gradient gain `Kc / tau_I`, or the
    /// stability error where `integral_time <= 0`, or the range error where
    /// the gradient gain cannot be stored.
    pub open spec fn creation(controller_gain: Ratio, integral_time: Time) -> SimulatorResult<int> {
        if integral_time@ <= 0 {
            unstable()
        } else if !fits(scaled_quotient(controller_gain@, integral_time@)) {
            out_of_range()
        } else {
            Ok(scaled_quotient(controller_gain@, integral_time@))
        }
    }

    /// The controller with the given parameters, at rest, without dead time.
    pub open spec fn created_from(&self, controller_gain: Ratio, integral_time: Time) -> bool {
        &&& self.controller_gain == controller_gain
        &&& self.integral_time == integral_time
        &&& self.delay@ == 0
        &&& self.previous_timestep_input@ == 0
        &&& self.offset == 0
        &&& self.main_ramp_fn == (RampResponse {
            gradient_gain: Frequency { nano: 0 },
            start_time: Time { nano: 0 },
            user_input: Ratio { nano: 0 },
            current_time: Time { nano: 0 },
        })
        &&& self.delayed_ramp_fn_vectors@.len() == 0
    }

    /// `after` is this controller with dead time `dead_time`.
    pub open spec fn delayed_by(&self, after: &Self, dead_time: Time) -> bool {
        after@ == (IntegralModel { delay: dead_time, ..self@ })
    }

    /// `after` and `result` are what the controller holds and returns after
    /// the input `input` at `t`: the advanced controller and the integral
    /// in stored units where every value of the step is in range, else the
    /// range error and the controller as it was.  The kernel plays no part.
    pub open spec fn step_result(
        &self,
        input: Ratio,
        t: Time,
        kernel: KernelRelation,
        after: Self,
        result: SimulatorResult<Ratio>,
    ) -> bool {
        if self@.step_defined(t, input) {
            &&& result == Ok::<Ratio, ChemEngProcessControlSimulatorError>(
                Ratio { nano: self@.output(t, input) as i64 },
            )
            &&& after@ == self@.advanced(t, input)
        } else {
            result == out_of_range::<Ratio>() && after == *self
        }
    }

    /// The controller `G(s) = Kc / (tau_I s)`, at rest, without dead time.
    /// Fails with the stability error where `integral_time <= 0`, else with
    /// the range error where `Kc / tau_I` cannot be stored.
    pub fn new(controller_gain: Ratio, integral_time: Time) -> (r: SimulatorResult<Self>)
        ensures
            match Self::creation(controller_gain, integral_time) {
                Ok(gradient) => r matches Ok(controller) && controller.wf()
                    && controller.created_from(controller_gain, integral_time),
                Err(e) => r == Err::<Self, ChemEngProcessControlSimulatorError>(e),
            },
    {
        if integral_time.nano <= 0 {
            return Err(
                ChemEngProcessControlSimulatorError::UnstableDampingFactorForStableTransferFunction,
            );
        }
        let _gradient: i64 = in_range(
            checked_scaled_quotient(controller_gain.nano, integral_time.nano),
        )?;
        let main_ramp_fn = RampResponse::new(
            Frequency::zero(),
            Time::zero(),
            Ratio::zero(),
            Time::zero(),
        )?;
        Ok(
            IntegralController {
                controller_gain,
                integral_time,
                delay: Time::zero(),
                previous_timestep_input: Ratio::zero(),
                offset: 0,
                main_ramp_fn,
                delayed_ramp_fn_vectors: Vec::new(),
            },
        )
    }

    /// What the name of the log file ends in.
    pub open spec fn log_mark(&self) -> Option<Seq<char>> {
        Some("_integral_controller.csv"@)
    }

    /// The name of the log file: `name` and the mark of the integral
    /// controller.
    pub fn log_file_name(&self, name: String) -> (r: SimulatorResult<String>)
        ensures
            match self.log_mark() {
                Some(mark) => r matches Ok(title) && title@ == name@ + mark,
                None => r == unimplemented_regime::<String>(),
            },
    {
        Ok(name.concat("_integral_controller.csv"))
    }

    /// Whether the value is well formed: what every other function asks
    /// of it.
    pub fn is_well_formed(&self) -> (b: bool)
        ensures
            b == self.wf(),
    {
        if self.integral_time.nano <= 0 || checked_scaled_quotient(
            self.controller_gain.nano,
            self.integral_time.nano,
        ).is_none() || !self.main_ramp_fn.is_well_formed() {
            return false;
        }
        let mut i: usize = 0;
        while i < self.delayed_ramp_fn_vectors.len()
            invariant
                i <= self.delayed_ramp_fn_vectors.len(),
                forall|j: int| 0 <= j < i ==> (#[trigger] self.delayed_ramp_fn_vectors@[j]).wf(),
            decreases self.delayed_ramp_fn_vectors.len() - i,
        {
            if !self.delayed_ramp_fn_vectors[i].is_well_formed() {
                return false;
            }
            i = i + 1;
        }
        true
    }

    /// Sets the dead time; ramps already spawned keep their start times.
    pub fn set_dead_time(&mut self, dead_time: Time)
        requires
            old(self).wf(),
        ensures
            final(self).wf(),
            old(self).delayed_by(final(self), dead_time),
    {
        self.delay = dead_time;
    }

    /// The ramps held, followed by the ramp that the input spawns.
    fn gather(&self, time_of_input: Time, user_input: Ratio) -> (r: Option<Vec<RampResponse>>)
        requires
            self.wf(),
        ensures
            r is Some <==> self@.spawn_defined(time_of_input, user_input),
            r matches Some(all) ==> all@ == self@.candidates(time_of_input, user_input)
                && all_ramps_wf(all@),
    {
        let mut all: Vec<RampResponse> = Vec::new();
        let mut i: usize = 0;
        while i < self.delayed_ramp_fn_vectors.len()
            invariant
                i <= self.delayed_ramp_fn_vectors.len(),
                all@ == self.delayed_ramp_fn_vectors@.take(i as int),
            decreases self.delayed_ramp_fn_vectors.len() - i,
        {
            all.push(self.delayed_ramp_fn_vectors[i]);
            i = i + 1;
        }
        if user_input.nano != self.previous_timestep_input.nano {
            let increment: i64 = checked_difference(
                user_input.nano,
                self.previous_timestep_input.nano,
            )?;
            let start: i64 = checked_sum(time_of_input.nano, self.delay.nano)?;
            let gradient: i64 = checked_scaled_quotient(
                self.controller_gain.nano,
                self.integral_time.nano,
            )?;
            let ramp = match RampResponse::new(
                Frequency { nano: gradient },
                Time { nano: start },
                Ratio { nano: increment },
                time_of_input,
            ) {
                Ok(ramp) => ramp,
                Err(_) => { return None; },
            };
            all.push(ramp);
        }
        Some(all)
    }

    /// Splits the candidates at `t` into what is stabilised, summed
    /// exactly, and what is kept, moved to `t`.  The area comes in two
    /// parts.
    fn stabilise(all: &Vec<RampResponse>, t: Time) -> (r: (
        bool,
        i128,
        (i128, u128),
        Vec<RampResponse>,
    ))
        requires
            all_ramps_wf(all@),
            elapsed_fit(all@, t),
        ensures
            r.0 == any_stabilised(all@, t, all@.len()),
            r.1 == folded_slope(all@, t, all@.len()),
            -(all@.len() * 0x8000_0000_0000_0000) <= r.1 <= all@.len() * 0x7fff_ffff_ffff_ffff,
            joined(r.2.0 as int, r.2.1 as int) == folded_area(all@, t, all@.len()),
            -0x4000_0000_0000_0000_0000_0000_0000_0000 <= r.2.0
                <= 0x4000_0000_0000_0000_0000_0000_0000_0000,
            r.2.1 <= 0xFFFF_FFFF_FFFF_FFFE_0000_0000_0000_0001,
            r.3@ == kept_ramps(all@, t, all@.len()),
    {
        let mut any: bool = false;
        let mut slope: i128 = 0;
        let mut high: i128 = 0;
        let mut low: u128 = 0;
        let mut kept: Vec<RampResponse> = Vec::new();
        let mut i: usize = 0;
        while i < all.len()
            invariant
                i <= all.len(),
                all_ramps_wf(all@),
                elapsed_fit(all@, t),
                any == any_stabilised(all@, t, i as nat),
                slope == folded_slope(all@, t, i as nat),
                -(i * 0x8000_0000_0000_0000) <= slope <= i * 0x7fff_ffff_ffff_ffff,
                joined(high as int, low as int) == folded_area(all@, t, i as nat),
                -(i * 0x4000_0000_0000_0000) <= high <= i * 0x4000_0000_0000_0000,
                low <= i * 0xFFFF_FFFF_FFFF_FFFF,
                kept@ == kept_ramps(all@, t, i as nat),
            decreases all.len() - i,
        {
            let ramp = all[i];
            let elapsed: i64 = t.nano - ramp.start_time.nano;
            if elapsed >= NANO {
                let area = wide_product(ramp.gradient(), elapsed);
                let (upper, lower) = split_wide(area);
                slope = slope + ramp.gradient() as i128;
                high = high + upper;
                low = low + lower;
                any = true;
            } else {
                kept.push(
                    RampResponse {
                        gradient_gain: ramp.gradient_gain,
                        start_time: ramp.start_time,
                        user_input: ramp.user_input,
                        current_time: t,
                    },
                );
            }
            i = i + 1;
        }
        (any, slope, (high, low), kept)
    }

    /// The area that the ramps of `active` have swept by `t`, exactly, in
    /// two parts.
    fn sweep(active: &Vec<RampResponse>, t: Time) -> (r: (i128, u128))
        requires
            all_ramps_wf(active@),
            elapsed_fit(active@, t),
        ensures
            joined(r.0 as int, r.1 as int) == ramp_areas(active@, t, active@.len()),
            -0x4000_0000_0000_0000_0000_0000_0000_0000 <= r.0
                <= 0x4000_0000_0000_0000_0000_0000_0000_0000,
            r.1 <= 0xFFFF_FFFF_FFFF_FFFE_0000_0000_0000_0001,
    {
        let mut high: i128 = 0;
        let mut low: u128 = 0;
        let mut i: usize = 0;
        while i < active.len()
            invariant
                i <= active.len(),
                all_ramps_wf(active@),
                elapsed_fit(active@, t),
                joined(high as int, low as int) == ramp_areas(active@, t, i as nat),
                -(i * 0x4000_0000_0000_0000) <= high <= i * 0x4000_0000_0000_0000,
                low <= i * 0xFFFF_FFFF_FFFF_FFFF,
            decreases active.len() - i,
        {
            let (upper, lower) = split_wide(active[i].exact_area(t));
            high = high + upper;
            low = low + lower;
            i = i + 1;
        }
        (high, low)
    }

    /// The sum of two wide intermediates and an exact sum in two parts,
    /// where it can be held.
    fn gather_total(first: i128, second: i128, rest: (i128, u128)) -> (r: Option<i128>)
        requires
            -0x4000_0000_0000_0000_0000_0000_0000_0000 <= rest.0
                <= 0x4000_0000_0000_0000_0000_0000_0000_0000,
            rest.1 <= 0xFFFF_FFFF_FFFF_FFFE_0000_0000_0000_0001,
        ensures
            r is Some <==> fits_wide(first + second + joined(rest.0 as int, rest.1 as int)),
            r matches Some(sum) ==> sum == first + second + joined(rest.0 as int, rest.1 as int),
    {
        let (first_upper, first_lower) = split_wide(first);
        let (second_upper, second_lower) = split_wide(second);
        join_wide(rest.0 + first_upper + second_upper, rest.1 + first_lower + second_lower)
    }

    /// The controller and its output after the input `user_input` at
    /// `time_of_input`, with the controller itself left as it is.
    pub fn respond<K: Fn(Transcendental, i128) -> i64>(
        &self,
        user_input: Ratio,
        time_of_input: Time,
        kernel: &K,
    ) -> (r: SimulatorResult<(Self, Ratio)>)
        requires
            self.wf(),
        ensures
            self.step_result(
                user_input,
                time_of_input,
                relation_of(kernel),
                match r {
                    Ok((next, out)) => next,
                    Err(_) => *self,
                },
                match r {
                    Ok((next, out)) => Ok(out),
                    Err(e) => Err(e),
                },
            ),
            r is Ok <==> self@.step_defined(time_of_input, user_input),
            r matches Ok((next, out)) ==> {
                &&& next.wf()
                &&& next@ == self@.advanced(time_of_input, user_input)
                &&& out@ == self@.output(time_of_input, user_input)
            },
            r is Err ==> r == out_of_range::<(Self, Ratio)>(),
    {
        let t = time_of_input;
        let all = in_range_of(self.gather(t, user_input))?;
        let mut i: usize = 0;
        while i < all.len()
            invariant
                i <= all.len(),
                t == time_of_input,
                self@.spawn_defined(t, user_input),
                all@ == self@.candidates(t, user_input),
                forall|j: int| 0 <= j < i ==> fits(t@ - (#[trigger] all@[j]).start_time@),
            decreases all.len() - i,
        {
            if checked_difference(t.nano, all[i].start_time.nano).is_none() {
                return Err(ChemEngProcessControlSimulatorError::ValueOutOfRange);
            }
            i = i + 1;
        }
        let _main_elapsed: i64 = in_range(
            checked_difference(t.nano, self.main_ramp_fn.start_time.nano),
        )?;
        let (any, slope, area, kept) = Self::stabilise(&all, t);
        proof {
            lemma_kept_ramps(all@, t, all@.len());
        }
        let (offset, main_ramp_fn) = if any {
            let next_slope: i64 = in_range(narrow(self.main_ramp_fn.gradient() as i128 + slope))?;
            let offset: i128 = in_range_of(
                Self::gather_total(self.offset, self.main_ramp_fn.exact_area(t), area),
            )?;
            proof {
                assert(NANO * next_slope == next_slope * NANO) by (nonlinear_arith);
            }
            (
                offset,
                RampResponse {
                    gradient_gain: Frequency { nano: next_slope },
                    start_time: t,
                    user_input: Ratio { nano: NANO },
                    current_time: t,
                },
            )
        } else {
            (
                self.offset,
                RampResponse {
                    gradient_gain: self.main_ramp_fn.gradient_gain,
                    start_time: self.main_ramp_fn.start_time,
                    user_input: self.main_ramp_fn.user_input,
                    current_time: t,
                },
            )
        };
        let active = Self::sweep(&kept, t);
        let total: i128 = match Self::gather_total(offset, main_ramp_fn.exact_area(t), active) {
            Some(total) => total,
            None => {
                proof {
                    if fits(self@.output(t, user_input)) {
                        lemma_output_needs_total(self@.total(t, user_input));
                    }
                }
                return Err(ChemEngProcessControlSimulatorError::ValueOutOfRange);
            },
        };
        let nano: i64 = in_range(rounded_output(total))?;
        let next = IntegralController {
            controller_gain: self.controller_gain,
            integral_time: self.integral_time,
            delay: self.delay,
            previous_timestep_input: user_input,
            offset,
            main_ramp_fn,
            delayed_ramp_fn_vectors: kept,
        };
        Ok((next, Ratio { nano }))
    }

    /// Takes the input `user_input` at `time_of_input` and returns the
    /// integral there.  A changed input spawns a ramp whose slope is the
    /// increment times `Kc / tau_I` and which switches on after the dead
    /// time; ramps that have been on for a second are stabilised; the output
    /// is the offset plus the main ramp plus the active ramps.  The kernel
    /// is not consulted: a ramp needs no transcendental function.  On
    /// failure nothing changes.
    pub fn set_user_input_and_calc<K: Fn(Transcendental, i128) -> i64>(
        &mut self,
        user_input: Ratio,
        time_of_input: Time,
        kernel: &K,
    ) -> (r: SimulatorResult<Ratio>)
        requires
            old(self).wf(),
        ensures
            final(self).wf(),
            old(self).step_result(user_input, time_of_input, relation_of(kernel), *final(self), r),
            r is Err ==> *final(self) == *old(self),
    {
        let (next, output) = self.respond(user_input, time_of_input, kernel)?;
        *self = next;
        Ok(output)
    }
}

/// The areas of the first ramps of a list do not depend on what follows them.
pub proof fn lemma_ramp_areas_of_prefix(
    list: Seq<RampResponse>,
    last: RampResponse,
    t: Time,
    n: nat,
)
    requires
        n <= list.len(),
    ensures
        ramp_areas(list.push(last), t, n) == ramp_areas(list, t, n),
    decreases n,
{
    if n > 0 {
        lemma_ramp_areas_of_prefix(list, last, t, (n - 1) as nat);
    }
}

/// What the first `n` ramps of `list` have swept by `later` is what the
/// kept ones have swept by `later`, plus what the stabilised ones had swept
/// by `t`, plus what a ramp with the slopes of the stabilised ones sweeps
/// from `t` to `later`.
pub proof fn lemma_stabilised_ramps_carry_on(list: Seq<RampResponse>, t: Time, later: Time, n: nat)
    requires
        n <= list.len(),
        t@ <= later@,
    ensures
        ramp_areas(list, later, n) == ramp_areas(
            kept_ramps(list, t, n),
            later,
            kept_ramps(list, t, n).len(),
        ) + folded_area(list, t, n) + folded_slope(list, t, n) * (later@ - t@),
        !any_stabilised(list, t, n) ==> folded_area(list, t, n) == 0 && folded_slope(list, t, n)
            == 0,
    decreases n,
{
    if n > 0 {
        lemma_stabilised_ramps_carry_on(list, t, later, (n - 1) as nat);
        let ramp = list[n - 1];
        let rest = kept_ramps(list, t, (n - 1) as nat);
        let slopes = folded_slope(list, t, (n - 1) as nat);
        if ramp.stabilised(t) {
            assert(ramp.slope() * (later@ - ramp.start_time@) == ramp.slope() * (t@
                - ramp.start_time@) + ramp.slope() * (later@ - t@)) by (nonlinear_arith);
            assert((slopes + ramp.slope()) * (later@ - t@) == slopes * (later@ - t@) + ramp.slope()
                * (later@ - t@)) by (nonlinear_arith);
        } else {
            lemma_ramp_areas_of_prefix(rest, ramp.stamped(t), later, rest.len());
        }
    } else {
        assert(0 * (later@ - t@) == 0) by (nonlinear_arith);
    }
}

/// Stabilising changes no output.  After a step at `t`, at or after the
/// start of the main ramp, the integral at every later time is what it
/// would be had every ramp, the spawned one included, been kept as it was:
/// folding a ramp into the offset and the main ramp preserves the total
/// integral exactly.
pub proof fn lemma_stabilising_preserves_integral(
    before: IntegralModel,
    t: Time,
    input: Ratio,
    later: Time,
)
    requires
        before.step_defined(t, input),
        before.main_ramp_fn.start_time@ <= t@ <= later@,
    ensures
        before.advanced(t, input).integral_at(later) == before.offset + before.main_ramp_fn.area(
            later,
        ) + ramp_areas(before.candidates(t, input), later, before.candidates(t, input).len()),
{
    let all = before.candidates(t, input);
    lemma_stabilised_ramps_carry_on(all, t, later, all.len());
    let main = before.main_ramp_fn;
    if before.rebased(t, input) {
        let folded = folded_slope(all, t, all.len());
        assert(main.slope() * (later@ - main.start_time@) == main.slope() * (t@ - main.start_time@)
            + main.slope() * (later@ - t@)) by (nonlinear_arith);
        assert((main.slope() + folded) * (later@ - t@) == main.slope() * (later@ - t@) + folded * (
        later@ - t@)) by (nonlinear_arith);
    }
}

} // verus!
