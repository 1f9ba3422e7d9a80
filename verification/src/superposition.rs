//! The superposition accumulator.
//!
//! A linear system answers a staircase input with the sum of its answers to
//! the single steps.  The accumulator keeps one elementary response per
//! input change that is still moving, and a scalar offset that holds the
//! final values of those that have settled.
use crate::errors::{
    ChemEngProcessControlSimulatorError,
    in_range,
    in_range_of,
    out_of_range,
    SimulatorResult,
};
use crate::fixed_point::{checked_difference, checked_sum, fits, magnitude, narrow};
use crate::kernel::{
    answers,
    answers_all,
    answers_fine,
    callable,
    consult_all,
    consult_fine,
    KernelQuery,
    KernelReading,
    KernelRelation,
    relation_of,
    Transcendental,
};
use crate::quantities::{Ratio, Time};
use crate::stable_transfer_functions::decaying_exponentials::DecayExponentialResponse;
use crate::stable_transfer_functions::decaying_sinusoid::DecaySinusoidResponse;
use crate::stable_transfer_functions::first_order_transfer_fn::FirstOrderResponse;
use crate::stable_transfer_functions::second_order_transfer_fn::SecondOrderStableStepResponse;
use crate::stable_transfer_functions::step_fn::StepFunction;
use vstd::prelude::*;

verus! {

/// One closed-form response to one input change.
#[derive(Debug, PartialEq, PartialOrd, Clone, Copy)]
pub enum ElementaryResponse {
    Step(StepFunction),
    FirstOrder(FirstOrderResponse),
    SecondOrder(SecondOrderStableStepResponse),
    DecayingExponential(DecayExponentialResponse),
    DecayingSinusoid(DecaySinusoidResponse),
}

impl ElementaryResponse {
    /// The response is well formed.
    pub open spec fn wf(&self) -> bool {
        match *self {
            ElementaryResponse::Step(p) => p.wf(),
            ElementaryResponse::FirstOrder(p) => p.wf(),
            ElementaryResponse::SecondOrder(p) => p.wf(),
            ElementaryResponse::DecayingExponential(p) => p.wf(),
            ElementaryResponse::DecayingSinusoid(p) => p.wf(),
        }
    }

    /// What settling asks of the kernel: only a critically damped
    /// exponential asks anything.
    pub open spec fn steady_query(&self) -> Option<i128> {
        match *self {
            ElementaryResponse::DecayingExponential(p) => p.steady_query(),
            _ => None,
        }
    }

    /// The response had reached its final value at its last evaluation,
    /// `gauge` being the kernel's answer to `steady_query`.
    pub open spec fn steady(&self, gauge: i64) -> bool {
        match *self {
            ElementaryResponse::Step(p) => p.steady(),
            ElementaryResponse::FirstOrder(p) => p.steady(),
            ElementaryResponse::SecondOrder(p) => p.steady(),
            ElementaryResponse::DecayingExponential(p) => p.steady(gauge),
            ElementaryResponse::DecayingSinusoid(p) => p.steady(),
        }
    }

    /// The final value of the response.
    pub open spec fn steady_value(&self) -> int {
        match *self {
            ElementaryResponse::Step(p) => p.steady_value(),
            ElementaryResponse::FirstOrder(p) => p.steady_value(),
            ElementaryResponse::SecondOrder(p) => p.steady_value(),
            ElementaryResponse::DecayingExponential(p) => p.steady_value(),
            ElementaryResponse::DecayingSinusoid(p) => p.steady_value(),
        }
    }

    /// When the response switches on.
    pub open spec fn start(&self) -> Time {
        match *self {
            ElementaryResponse::Step(p) => p.start_time,
            ElementaryResponse::FirstOrder(p) => p.start_time,
            ElementaryResponse::SecondOrder(p) => p.start_time,
            ElementaryResponse::DecayingExponential(p) => p.start_time,
            ElementaryResponse::DecayingSinusoid(p) => p.start_time,
        }
    }

    /// The response can be evaluated at `t`: the time since its start can
    /// be stored.
    pub open spec fn query_defined(&self, t: Time) -> bool {
        fits(t@ - self.start()@)
    }

    /// What the response asks of the kernel at `t`.
    pub open spec fn query(&self, t: Time) -> KernelQuery {
        match *self {
            ElementaryResponse::Step(p) => p.query(t),
            ElementaryResponse::FirstOrder(p) => p.query(t),
            ElementaryResponse::SecondOrder(p) => p.query(t),
            ElementaryResponse::DecayingExponential(p) => p.query(t),
            ElementaryResponse::DecayingSinusoid(p) => p.query(t),
        }
    }

    /// The value at `t` for the kernel's reading.
    pub open spec fn response(&self, t: Time, reading: KernelReading) -> int {
        match *self {
            ElementaryResponse::Step(p) => p.response(t),
            ElementaryResponse::FirstOrder(p) => p.response(t, reading),
            ElementaryResponse::SecondOrder(p) => p.response(t, reading),
            ElementaryResponse::DecayingExponential(p) => p.response(t, reading),
            ElementaryResponse::DecayingSinusoid(p) => p.response(t, reading),
        }
    }

    /// The response after an evaluation at `t`.
    pub open spec fn stamped(&self, t: Time) -> Self {
        match *self {
            ElementaryResponse::Step(p) => ElementaryResponse::Step(p.stamped(t)),
            ElementaryResponse::FirstOrder(p) => ElementaryResponse::FirstOrder(p.stamped(t)),
            ElementaryResponse::SecondOrder(p) => ElementaryResponse::SecondOrder(p.stamped(t)),
            ElementaryResponse::DecayingExponential(p) => ElementaryResponse::DecayingExponential(
                p.stamped(t),
            ),
            ElementaryResponse::DecayingSinusoid(p) => ElementaryResponse::DecayingSinusoid(
                p.stamped(t),
            ),
        }
    }

    /// Whether the value is well formed: what every other function asks
    /// of it.
    pub fn is_well_formed(&self) -> (b: bool)
        ensures
            b == self.wf(),
    {
        match self {
            ElementaryResponse::Step(p) => p.is_well_formed(),
            ElementaryResponse::FirstOrder(p) => p.is_well_formed(),
            ElementaryResponse::SecondOrder(p) => p.is_well_formed(),
            ElementaryResponse::DecayingExponential(p) => p.is_well_formed(),
            ElementaryResponse::DecayingSinusoid(p) => p.is_well_formed(),
        }
    }

    /// What settling asks of the kernel.
    pub fn steady_state_query(&self) -> (q: Option<i128>)
        requires
            self.wf(),
        ensures
            q == self.steady_query(),
    {
        match self {
            ElementaryResponse::DecayingExponential(p) => p.steady_state_query(),
            _ => None,
        }
    }

    /// Whether the response had reached its final value at its last
    /// evaluation, for the kernel's answer `gauge` to `steady_state_query`.
    pub fn is_steady_state_with(&self, gauge: i64) -> (b: bool)
        requires
            self.wf(),
        ensures
            b == self.steady(gauge),
    {
        match self {
            ElementaryResponse::Step(p) => p.is_steady_state(),
            ElementaryResponse::FirstOrder(p) => p.is_steady_state(),
            ElementaryResponse::SecondOrder(p) => p.is_steady_state(),
            ElementaryResponse::DecayingExponential(p) => p.is_steady_state_with(gauge),
            ElementaryResponse::DecayingSinusoid(p) => p.is_steady_state(),
        }
    }

    /// The final value of the response.
    pub fn steady_state_value(&self) -> (v: Ratio)
        requires
            self.wf(),
        ensures
            v@ == self.steady_value(),
    {
        match self {
            ElementaryResponse::Step(p) => p.steady_state_value(),
            ElementaryResponse::FirstOrder(p) => p.steady_state_value(),
            ElementaryResponse::SecondOrder(p) => p.steady_state_value(),
            ElementaryResponse::DecayingExponential(p) => p.steady_state_value(),
            ElementaryResponse::DecayingSinusoid(p) => p.steady_state_value(),
        }
    }

    /// The arguments for the kernel at `t`; fails where the time since the
    /// start cannot be stored.
    pub fn kernel_query(&self, t: Time) -> (r: SimulatorResult<KernelQuery>)
        requires
            self.wf(),
        ensures
            r is Ok <==> self.query_defined(t),
            r matches Ok(q) ==> q == self.query(t),
            r is Err ==> r == out_of_range::<KernelQuery>(),
    {
        match self {
            ElementaryResponse::Step(p) => p.kernel_query(t),
            ElementaryResponse::FirstOrder(p) => p.kernel_query(t),
            ElementaryResponse::SecondOrder(p) => p.kernel_query(t),
            ElementaryResponse::DecayingExponential(p) => p.kernel_query(t),
            ElementaryResponse::DecayingSinusoid(p) => p.kernel_query(t),
        }
    }

    /// The value at `t` for a given reading of the kernel; it can always be
    /// stored.
    pub fn response_with(&self, t: Time, reading: &KernelReading) -> (v: Ratio)
        requires
            self.wf(),
            self.query_defined(t),
        ensures
            v@ == self.response(t, *reading),
    {
        match self {
            ElementaryResponse::Step(p) => p.response_at(t),
            ElementaryResponse::FirstOrder(p) => p.response_with(t, reading),
            ElementaryResponse::SecondOrder(p) => p.response_with(t, reading),
            ElementaryResponse::DecayingExponential(p) => p.response_with(t, reading),
            ElementaryResponse::DecayingSinusoid(p) => p.response_with(t, reading),
        }
    }

    /// The response after an evaluation at `t`.
    pub fn stamp(&self, t: Time) -> (moved: Self)
        requires
            self.wf(),
            self.query_defined(t),
        ensures
            moved == self.stamped(t),
            moved.wf(),
    {
        match self {
            ElementaryResponse::Step(p) => ElementaryResponse::Step(
                StepFunction {
                    process_gain: p.process_gain,
                    start_time: p.start_time,
                    user_input: p.user_input,
                    current_time: t,
                },
            ),
            ElementaryResponse::FirstOrder(p) => ElementaryResponse::FirstOrder(
                FirstOrderResponse {
                    process_gain: p.process_gain,
                    process_time: p.process_time,
                    start_time: p.start_time,
                    user_input: p.user_input,
                    current_time: t,
                },
            ),
            ElementaryResponse::SecondOrder(p) => ElementaryResponse::SecondOrder(
                SecondOrderStableStepResponse {
                    process_gain: p.process_gain,
                    process_time: p.process_time,
                    start_time: p.start_time,
                    user_input: p.user_input,
                    current_time: t,
                    damping_factor: p.damping_factor,
                },
            ),
            ElementaryResponse::DecayingExponential(p) => ElementaryResponse::DecayingExponential(
                DecayExponentialResponse {
                    magnitude_alpha_times_user_input: p.magnitude_alpha_times_user_input,
                    magnitude_beta_times_user_input: p.magnitude_beta_times_user_input,
                    alpha: p.alpha,
                    beta: p.beta,
                    start_time: p.start_time,
                    user_input: p.user_input,
                    current_time: t,
                    exponential_type: p.exponential_type,
                },
            ),
            ElementaryResponse::DecayingSinusoid(p) => ElementaryResponse::DecayingSinusoid(
                DecaySinusoidResponse {
                    magnitude: p.magnitude,
                    a: p.a,
                    start_time: p.start_time,
                    user_input: p.user_input,
                    current_time: t,
                    omega: p.omega,
                    sinusoid_type: p.sinusoid_type,
                },
            ),
        }
    }
}

/// The sum of two outputs: the first failure, if any; else the sum, where
/// it can be stored.
pub open spec fn sum_of(
    first: SimulatorResult<Ratio>,
    second: SimulatorResult<Ratio>,
) -> SimulatorResult<Ratio> {
    match first {
        Err(e) => Err(e),
        Ok(a) => match second {
            Err(e) => Err(e),
            Ok(b) => if fits(a@ + b@) {
                Ok(Ratio { nano: (a@ + b@) as i64 })
            } else {
                out_of_range::<Ratio>()
            },
        },
    }
}

/// Adds two outputs.
pub fn add_outputs(a: Ratio, b: Ratio) -> (r: SimulatorResult<Ratio>)
    ensures
        r == sum_of(Ok(a), Ok(b)),
{
    let nano: i64 = in_range(checked_sum(a.nano, b.nano))?;
    Ok(Ratio { nano })
}

/// The sum of three outputs: the first failure, if any; else the sum, held
/// wide and narrowed once, where it can be stored.
pub open spec fn sum_of_three(
    first: SimulatorResult<Ratio>,
    second: SimulatorResult<Ratio>,
    third: SimulatorResult<Ratio>,
) -> SimulatorResult<Ratio> {
    match first {
        Err(e) => Err(e),
        Ok(a) => match second {
            Err(e) => Err(e),
            Ok(b) => match third {
                Err(e) => Err(e),
                Ok(c) => if fits(a@ + b@ + c@) {
                    Ok(Ratio { nano: (a@ + b@ + c@) as i64 })
                } else {
                    out_of_range::<Ratio>()
                },
            },
        },
    }
}

/// Adds three outputs.
pub fn add_three_outputs(a: Ratio, b: Ratio, c: Ratio) -> (r: SimulatorResult<Ratio>)
    ensures
        r == sum_of_three(Ok(a), Ok(b), Ok(c)),
{
    let nano: i64 = in_range(narrow(a.nano as i128 + b.nano as i128 + c.nano as i128))?;
    Ok(Ratio { nano })
}

/// Every response of the list is well formed.
pub open spec fn all_wf(list: Seq<ElementaryResponse>) -> bool {
    forall|i: int| 0 <= i < list.len() ==> (#[trigger] list[i]).wf()
}

/// What settling the responses of `list` asks of the kernel, in order.
pub open spec fn gauge_queries(list: Seq<ElementaryResponse>) -> Seq<Option<i128>> {
    Seq::new(list.len(), |i: int| list[i].steady_query())
}

/// The first `n` responses of `list` that had not settled, in order,
/// `gauges` being the kernel's answers to `gauge_queries`.
pub open spec fn survivors(
    list: Seq<ElementaryResponse>,
    gauges: Seq<i64>,
    n: nat,
) -> Seq<ElementaryResponse>
    decreases n,
{
    if n == 0 {
        Seq::empty()
    } else if list[n - 1].steady(gauges[n - 1]) {
        survivors(list, gauges, (n - 1) as nat)
    } else {
        survivors(list, gauges, (n - 1) as nat).push(list[n - 1])
    }
}

/// The sum of the final values of those among the first `n` responses of
/// `list` that had settled.
pub open spec fn settled_values(list: Seq<ElementaryResponse>, gauges: Seq<i64>, n: nat) -> int
    decreases n,
{
    if n == 0 {
        0
    } else if list[n - 1].steady(gauges[n - 1]) {
        settled_values(list, gauges, (n - 1) as nat) + list[n - 1].steady_value()
    } else {
        settled_values(list, gauges, (n - 1) as nat)
    }
}

/// Every response of `list` can be evaluated at `t`.
pub open spec fn queries_defined(list: Seq<ElementaryResponse>, t: Time) -> bool {
    forall|i: int| 0 <= i < list.len() ==> (#[trigger] list[i]).query_defined(t)
}

/// What the responses of `list` ask of the kernel at `t`, in order.
pub open spec fn queries(list: Seq<ElementaryResponse>, t: Time) -> Seq<KernelQuery> {
    Seq::new(list.len(), |i: int| list[i].query(t))
}

/// The sum of the values at `t` of the first `n` responses of `list`.
pub open spec fn total_response(
    list: Seq<ElementaryResponse>,
    t: Time,
    readings: Seq<KernelReading>,
    n: nat,
) -> int
    decreases n,
{
    if n == 0 {
        0
    } else {
        total_response(list, t, readings, (n - 1) as nat) + list[n - 1].response(t, readings[n - 1])
    }
}

/// The responses of `list` after an evaluation at `t`.
pub open spec fn stamped_all(list: Seq<ElementaryResponse>, t: Time) -> Seq<ElementaryResponse> {
    Seq::new(list.len(), |i: int| list[i].stamped(t))
}

/// What an accumulator holds, as mathematical values.
pub struct SuperpositionModel {
    pub previous_timestep_input: Ratio,
    pub offset: Ratio,
    pub delay: Time,
    pub responses: Seq<ElementaryResponse>,
}

impl SuperpositionModel {
    /// The responses that take part in a step: those held, then those that
    /// the input change spawned.
    pub open spec fn candidates(self, spawned: Seq<ElementaryResponse>) -> Seq<ElementaryResponse> {
        self.responses + spawned
    }

    /// What settling asks of the kernel in a step.
    pub open spec fn gauge_plan(self, spawned: Seq<ElementaryResponse>) -> Seq<Option<i128>> {
        gauge_queries(self.candidates(spawned))
    }

    /// The responses that stay active in a step.
    pub open spec fn active(
        self,
        spawned: Seq<ElementaryResponse>,
        gauges: Seq<i64>,
    ) -> Seq<ElementaryResponse> {
        survivors(self.candidates(spawned), gauges, self.candidates(spawned).len())
    }

    /// The offset after a step: the offset and the final values of the
    /// responses that had settled.
    pub open spec fn settled_offset(
        self,
        spawned: Seq<ElementaryResponse>,
        gauges: Seq<i64>,
    ) -> int {
        self.offset@ + settled_values(
            self.candidates(spawned),
            gauges,
            self.candidates(spawned).len(),
        )
    }

    /// A step at `t` gets as far as asking the kernel for values: the new
    /// offset can be stored, and so can the time since the start of every
    /// active response.
    pub open spec fn plan_defined(
        self,
        t: Time,
        spawned: Seq<ElementaryResponse>,
        gauges: Seq<i64>,
    ) -> bool {
        &&& fits(self.settled_offset(spawned, gauges))
        &&& queries_defined(self.active(spawned, gauges), t)
    }

    /// What a step at `t` asks of the kernel for the values.
    pub open spec fn plan_queries(
        self,
        t: Time,
        spawned: Seq<ElementaryResponse>,
        gauges: Seq<i64>,
    ) -> Seq<KernelQuery> {
        queries(self.active(spawned, gauges), t)
    }

    /// The output of a step at `t` for the kernel's readings: the new offset
    /// plus the values of the active responses, exactly.
    pub open spec fn output(
        self,
        t: Time,
        spawned: Seq<ElementaryResponse>,
        gauges: Seq<i64>,
        readings: Seq<KernelReading>,
    ) -> int {
        self.settled_offset(spawned, gauges) + total_response(
            self.active(spawned, gauges),
            t,
            readings,
            self.active(spawned, gauges).len(),
        )
    }

    /// The increment of `input` over the last input seen.
    pub open spec fn increment(self, input: Ratio) -> int {
        input@ - self.previous_timestep_input@
    }

    /// When a response to a change at `t` switches on: after the dead time.
    pub open spec fn start(self, t: Time) -> int {
        t@ + self.delay@
    }

    /// The accumulator after a step at `t` with input `input`.
    pub open spec fn advanced(
        self,
        t: Time,
        input: Ratio,
        spawned: Seq<ElementaryResponse>,
        gauges: Seq<i64>,
    ) -> Self {
        SuperpositionModel {
            previous_timestep_input: input,
            offset: Ratio { nano: self.settled_offset(spawned, gauges) as i64 },
            delay: self.delay,
            responses: stamped_all(self.active(spawned, gauges), t),
        }
    }

    /// What a step leaves and returns for given answers of the kernel:
    /// where the new offset, the time since the start of every active
    /// response and the output can be stored, the advanced accumulator and
    /// the output; else the range error and the accumulator as it was.
    pub open spec fn outcome(
        self,
        t: Time,
        input: Ratio,
        spawned: Seq<ElementaryResponse>,
        gauges: Seq<i64>,
        readings: Seq<KernelReading>,
        after: Self,
        result: SimulatorResult<Ratio>,
    ) -> bool {
        if self.plan_defined(t, spawned, gauges) && fits(
            self.output(t, spawned, gauges, readings),
        ) {
            &&& result == Ok::<Ratio, ChemEngProcessControlSimulatorError>(
                Ratio { nano: self.output(t, spawned, gauges, readings) as i64 },
            )
            &&& after == self.advanced(t, input, spawned, gauges)
        } else {
            result == out_of_range::<Ratio>() && after == self
        }
    }

    /// `after` and `result` are what a step at `t` with input `input` may
    /// leave and return, the kernel being `kernel`: the `outcome` for some
    /// answers that the kernel may give, first to what settling asks, then
    /// to what the active responses ask.
    pub open spec fn step_result(
        self,
        t: Time,
        input: Ratio,
        spawned: Seq<ElementaryResponse>,
        kernel: KernelRelation,
        after: Self,
        result: SimulatorResult<Ratio>,
    ) -> bool {
        exists|gauges: Seq<i64>|
            {
                &&& #[trigger] answers_fine(kernel, self.gauge_plan(spawned), gauges)
                &&& if self.plan_defined(t, spawned, gauges) {
                    exists|readings: Seq<KernelReading>|
                        {
                            &&& #[trigger] answers_all(
                                kernel,
                                self.plan_queries(t, spawned, gauges),
                                readings,
                            )
                            &&& self.outcome(t, input, spawned, gauges, readings, after, result)
                        }
                } else {
                    result == out_of_range::<Ratio>() && after == self
                }
            }
    }
}

/// The state shared by every transfer function that superposes elementary
/// responses: the last input seen, the offset, the dead time and the active
/// responses in the order in which they were spawned.
#[derive(Debug, PartialEq, PartialOrd, Clone)]
pub struct SuperpositionAccumulator {
    pub previous_timestep_input: Ratio,
    pub offset: Ratio,
    pub delay: Time,
    pub responses: Vec<ElementaryResponse>,
}

impl View for SuperpositionAccumulator {
    type V = SuperpositionModel;

    open spec fn view(&self) -> SuperpositionModel {
        SuperpositionModel {
            previous_timestep_input: self.previous_timestep_input,
            offset: self.offset,
            delay: self.delay,
            responses: self.responses@,
        }
    }
}

/// Survivors are well formed.
pub proof fn lemma_survivors(list: Seq<ElementaryResponse>, gauges: Seq<i64>, n: nat)
    requires
        n <= list.len(),
        all_wf(list),
    ensures
        all_wf(survivors(list, gauges, n)),
        survivors(list, gauges, n).len() <= n,
    decreases n,
{
    if n > 0 {
        lemma_survivors(list, gauges, (n - 1) as nat);
    }
}

impl SuperpositionAccumulator {
    /// Every active response is well formed.
    pub open spec fn wf(&self) -> bool {
        all_wf(self.responses@)
    }

    /// The input differs from the last one seen, to nine decimal places.
    pub open spec fn changed(&self, input: Ratio) -> bool {
        input@ != self.previous_timestep_input@
    }

    /// An accumulator without active responses.
    pub fn new(initial_input: Ratio, initial_value: Ratio, delay: Time) -> (acc: Self)
        ensures
            acc.wf(),
            acc.previous_timestep_input == initial_input,
            acc.offset == initial_value,
            acc.delay == delay,
            acc.responses@ == Seq::<ElementaryResponse>::empty(),
    {
        SuperpositionAccumulator {
            previous_timestep_input: initial_input,
            offset: initial_value,
            delay,
            responses: Vec::new(),
        }
    }

    /// Whether the value is well formed: what every other function asks
    /// of it.
    pub fn is_well_formed(&self) -> (b: bool)
        ensures
            b == self.wf(),
    {
        let mut i: usize = 0;
        while i < self.responses.len()
            invariant
                i <= self.responses.len(),
                forall|j: int| 0 <= j < i ==> (#[trigger] self.responses@[j]).wf(),
            decreases self.responses.len() - i,
        {
            if !self.responses[i].is_well_formed() {
                return false;
            }
            i = i + 1;
        }
        true
    }

    /// Whether `input` differs from the last input seen.
    pub fn input_changed(&self, input: Ratio) -> (b: bool)
        ensures
            b == self.changed(input),
    {
        input.nano != self.previous_timestep_input.nano
    }

    /// The increment of the input over the last one seen, where it can be stored.
    pub fn input_increment(&self, input: Ratio) -> (r: SimulatorResult<Ratio>)
        ensures
            r is Ok <==> fits(input@ - self.previous_timestep_input@),
            r matches Ok(d) ==> d@ == input@ - self.previous_timestep_input@,
            r is Err ==> r == out_of_range::<Ratio>(),
    {
        let nano: i64 = in_range(
            checked_difference(input.nano, self.previous_timestep_input.nano),
        )?;
        Ok(Ratio { nano })
    }

    /// When a response to a change at `t` switches on: `t` plus the dead
    /// time, where it can be stored.
    pub fn start_time(&self, t: Time) -> (r: SimulatorResult<Time>)
        ensures
            r is Ok <==> fits(t@ + self.delay@),
            r matches Ok(s) ==> s@ == t@ + self.delay@,
            r is Err ==> r == out_of_range::<Time>(),
    {
        let nano: i64 = in_range(checked_sum(t.nano, self.delay.nano))?;
        Ok(Time { nano })
    }

    /// The responses held followed by the spawned ones.
    fn gather(&self, spawned: &Vec<ElementaryResponse>) -> (all: Vec<ElementaryResponse>)
        ensures
            all@ == self@.candidates(spawned@),
    {
        let mut all: Vec<ElementaryResponse> = Vec::new();
        let mut i: usize = 0;
        while i < self.responses.len()
            invariant
                i <= self.responses.len(),
                all@ == self.responses@.take(i as int),
            decreases self.responses.len() - i,
        {
            all.push(self.responses[i]);
            i = i + 1;
        }
        let mut j: usize = 0;
        while j < spawned.len()
            invariant
                j <= spawned.len(),
                all@ == self.responses@ + spawned@.take(j as int),
            decreases spawned.len() - j,
        {
            all.push(spawned[j]);
            j = j + 1;
        }
        all
    }

    /// What settling the responses of `all` asks of the kernel.
    fn gauge(all: &Vec<ElementaryResponse>) -> (asked: Vec<Option<i128>>)
        requires
            all_wf(all@),
        ensures
            asked@ == gauge_queries(all@),
    {
        let mut asked: Vec<Option<i128>> = Vec::new();
        let mut i: usize = 0;
        while i < all.len()
            invariant
                i <= all.len(),
                all_wf(all@),
                asked@.len() == i,
                forall|j: int| 0 <= j < i ==> asked@[j] == (#[trigger] all@[j]).steady_query(),
            decreases all.len() - i,
        {
            asked.push(all[i].steady_state_query());
            i = i + 1;
        }
        assert(asked@ == gauge_queries(all@));
        asked
    }

    /// Folds the settled responses into the offset and keeps the others.
    /// The sum is held wide and narrowed once.
    fn settle(offset: Ratio, all: &Vec<ElementaryResponse>, gauges: &Vec<i64>) -> (r: Option<
        (Ratio, Vec<ElementaryResponse>),
    >)
        requires
            all_wf(all@),
            gauges@.len() == all@.len(),
        ensures
            r is Some <==> fits(offset@ + settled_values(all@, gauges@, all@.len())),
            r matches Some((sum, kept)) ==> {
                &&& sum@ == offset@ + settled_values(all@, gauges@, all@.len())
                &&& kept@ == survivors(all@, gauges@, all@.len())
            },
    {
        let mut sum: i128 = offset.nano as i128;
        let mut kept: Vec<ElementaryResponse> = Vec::new();
        let mut i: usize = 0;
        while i < all.len()
            invariant
                i <= all.len(),
                all_wf(all@),
                gauges@.len() == all@.len(),
                sum == offset@ + settled_values(all@, gauges@, i as nat),
                -(i + 1) * 0x8000_0000_0000_0000 <= sum <= (i + 1) * 0x7fff_ffff_ffff_ffff,
                kept@ == survivors(all@, gauges@, i as nat),
            decreases all.len() - i,
        {
            let response = all[i];
            if response.is_steady_state_with(gauges[i]) {
                let value = response.steady_state_value();
                sum = sum + value.nano as i128;
            } else {
                kept.push(response);
            }
            i = i + 1;
        }
        match narrow(sum) {
            Some(nano) => Some((Ratio { nano }, kept)),
            None => None,
        }
    }

    /// The kernel arguments of the active responses at `t`.
    fn ask(active: &Vec<ElementaryResponse>, t: Time) -> (r: Option<Vec<KernelQuery>>)
        requires
            all_wf(active@),
        ensures
            r is Some <==> queries_defined(active@, t),
            r matches Some(q) ==> q@ == queries(active@, t),
    {
        let mut asked: Vec<KernelQuery> = Vec::new();
        let mut i: usize = 0;
        while i < active.len()
            invariant
                i <= active.len(),
                all_wf(active@),
                asked@.len() == i,
                forall|j: int| 0 <= j < i ==> (#[trigger] active@[j]).query_defined(t),
                forall|j: int| 0 <= j < i ==> asked@[j] == (#[trigger] active@[j]).query(t),
            decreases active.len() - i,
        {
            match active[i].kernel_query(t) {
                Ok(query) => { asked.push(query); },
                Err(_) => { return None; },
            }
            i = i + 1;
        }
        assert(asked@ == queries(active@, t));
        Some(asked)
    }

    /// Adds the values of the active responses to the offset and moves them
    /// to `t`.  The sum is held wide and narrowed once.
    fn respond(
        offset: Ratio,
        active: &Vec<ElementaryResponse>,
        t: Time,
        readings: &Vec<KernelReading>,
    ) -> (r: Option<(Ratio, Vec<ElementaryResponse>)>)
        requires
            all_wf(active@),
            queries_defined(active@, t),
            readings@.len() == active@.len(),
        ensures
            r is Some <==> fits(offset@ + total_response(active@, t, readings@, active@.len())),
            r matches Some((output, moved)) ==> {
                &&& output@ == offset@ + total_response(active@, t, readings@, active@.len())
                &&& moved@ == stamped_all(active@, t)
                &&& all_wf(moved@)
            },
    {
        let mut sum: i128 = offset.nano as i128;
        let mut moved: Vec<ElementaryResponse> = Vec::new();
        let mut i: usize = 0;
        while i < active.len()
            invariant
                i <= active.len(),
                all_wf(active@),
                queries_defined(active@, t),
                readings@.len() == active@.len(),
                sum == offset@ + total_response(active@, t, readings@, i as nat),
                -(i + 1) * 0x8000_0000_0000_0000 <= sum <= (i + 1) * 0x7fff_ffff_ffff_ffff,
                moved@.len() == i,
                forall|j: int| 0 <= j < i ==> #[trigger] moved@[j] == active@[j].stamped(t),
                all_wf(moved@),
            decreases active.len() - i,
        {
            let response = active[i];
            let value = response.response_with(t, &readings[i]);
            sum = sum + value.nano as i128;
            moved.push(response.stamp(t));
            i = i + 1;
        }
        assert(moved@ == stamped_all(active@, t));
        match narrow(sum) {
            Some(nano) => Some((Ratio { nano }, moved)),
            None => None,
        }
    }

    /// What settling will ask of the kernel in a step: for every response
    /// that takes part, those in `spawned` included, the exponential that
    /// tells whether it had settled, if any.
    pub fn gauge_plan(&self, spawned: &Vec<ElementaryResponse>) -> (asked: Vec<Option<i128>>)
        requires
            self.wf(),
            all_wf(spawned@),
        ensures
            asked@ == self@.gauge_plan(spawned@),
    {
        let all = self.gather(spawned);
        Self::gauge(&all)
    }

    /// What a step at `t` will ask of the kernel for the values: the
    /// arguments of the responses that stay active, in order, `gauges`
    /// being the answers to `gauge_plan`.  Fails where the new offset or
    /// the time since the start of an active response cannot be stored.
    pub fn plan(&self, t: Time, spawned: &Vec<ElementaryResponse>, gauges: &Vec<i64>) -> (r:
        SimulatorResult<Vec<KernelQuery>>)
        requires
            self.wf(),
            all_wf(spawned@),
            gauges@.len() == self@.candidates(spawned@).len(),
        ensures
            r is Ok <==> self@.plan_defined(t, spawned@, gauges@),
            r matches Ok(asked) ==> asked@ == self@.plan_queries(t, spawned@, gauges@),
            r is Err ==> r == out_of_range::<Vec<KernelQuery>>(),
    {
        let all = self.gather(spawned);
        let (_offset, active) = in_range_of(Self::settle(self.offset, &all, gauges))?;
        proof {
            lemma_survivors(all@, gauges@, all@.len());
        }
        in_range_of(Self::ask(&active, t))
    }

    /// One step at `t` with input `input`, for given answers of the kernel,
    /// `gauges` to `gauge_plan` and `readings` to `plan`: the responses in
    /// `spawned` join the active ones; those that had settled at their last
    /// evaluation are folded into the offset and leave, in the order in
    /// which they were spawned; the others are evaluated at `t` and added
    /// to the offset.  Returns the accumulator after the step and the
    /// output.  Fails only where the new offset, the time since the start
    /// of an active response or the output cannot be stored.
    pub fn advance_with(
        &self,
        t: Time,
        input: Ratio,
        spawned: &Vec<ElementaryResponse>,
        gauges: &Vec<i64>,
        readings: &Vec<KernelReading>,
    ) -> (r: SimulatorResult<(Self, Ratio)>)
        requires
            self.wf(),
            all_wf(spawned@),
            gauges@.len() == self@.candidates(spawned@).len(),
            self@.plan_defined(t, spawned@, gauges@) ==> readings@.len() == self@.plan_queries(
                t,
                spawned@,
                gauges@,
            ).len(),
        ensures
            r matches Ok((next, out)) ==> next.wf(),
            self@.outcome(
                t,
                input,
                spawned@,
                gauges@,
                readings@,
                match r {
                    Ok((next, out)) => next@,
                    Err(_) => self@,
                },
                match r {
                    Ok((next, out)) => Ok(out),
                    Err(e) => Err(e),
                },
            ),
            r is Err ==> r == out_of_range::<(Self, Ratio)>(),
    {
        let all = self.gather(spawned);
        let (offset, active) = in_range_of(Self::settle(self.offset, &all, gauges))?;
        proof {
            lemma_survivors(all@, gauges@, all@.len());
        }
        let _asked = in_range_of(Self::ask(&active, t))?;
        let (output, moved) = in_range_of(Self::respond(offset, &active, t, readings))?;
        let next = SuperpositionAccumulator {
            previous_timestep_input: input,
            offset,
            delay: self.delay,
            responses: moved,
        };
        Ok((next, output))
    }

    /// One step at `t` with input `input`, with the exponentials, sines and
    /// cosines as `kernel` computes them: `gauge_plan` and the kernel's
    /// answers to it, `plan` and the kernel's readings of it, and
    /// `advance_with` these.
    pub fn advance<K: Fn(Transcendental, i128) -> i64>(
        &self,
        t: Time,
        input: Ratio,
        spawned: &Vec<ElementaryResponse>,
        kernel: &K,
    ) -> (r: SimulatorResult<(Self, Ratio)>)
        requires
            self.wf(),
            all_wf(spawned@),
            callable(kernel),
        ensures
            r matches Ok((next, out)) ==> next.wf(),
            r is Err ==> r == out_of_range::<(Self, Ratio)>(),
            self@.step_result(
                t,
                input,
                spawned@,
                relation_of(kernel),
                match r {
                    Ok((next, out)) => next@,
                    Err(_) => self@,
                },
                match r {
                    Ok((next, out)) => Ok(out),
                    Err(e) => Err(e),
                },
            ),
    {
        let wanted = self.gauge_plan(spawned);
        let gauges = consult_fine(kernel, &wanted);
        assert(answers_fine(relation_of(kernel), self@.gauge_plan(spawned@), gauges@));
        let asked = self.plan(t, spawned, &gauges)?;
        let readings = consult_all(kernel, &asked);
        assert(answers_all(
            relation_of(kernel),
            self@.plan_queries(t, spawned@, gauges@),
            readings@,
        ));
        self.advance_with(t, input, spawned, &gauges, &readings)
    }

    /// One step in place: as `advance`, but the accumulator itself moves on;
    /// on failure it is unchanged.
    pub fn step<K: Fn(Transcendental, i128) -> i64>(
        &mut self,
        t: Time,
        input: Ratio,
        spawned: &Vec<ElementaryResponse>,
        kernel: &K,
    ) -> (r: SimulatorResult<Ratio>)
        requires
            old(self).wf(),
            all_wf(spawned@),
            callable(kernel),
        ensures
            final(self).wf(),
            old(self)@.step_result(t, input, spawned@, relation_of(kernel), final(self)@, r),
            r is Err ==> r == out_of_range::<Ratio>() && *final(self) == *old(self),
    {
        let (next, out) = self.advance(t, input, spawned, kernel)?;
        *self = next;
        Ok(out)
    }
}

} // verus!
