//! What holds of every accumulator, step by step.
//!
//! - Superposition: the output is the sum of the responses to each input
//!   change by itself (`lemma_superposition`,
//!   `lemma_each_change_answers_by_itself`).
//! - The settled value: the offset holds the final values of all responses
//!   that have left, pruning ends, and a settled response stays settled
//!   (`lemma_step_keeps_settled_value`,
//!   `lemma_settled_accumulator_is_its_offset`, `lemma_settled_stays_settled`
//!   and the lemmas on 25 time constants).
//! - Dead time: nothing before the start, the same shape after it
//!   (`lemma_no_response_before_start`,
//!   `lemma_nothing_settles_before_it_starts`,
//!   `lemma_delayed_response_is_shifted` and their versions for a list of
//!   responses).
//! - Pruning one by one comes to the same as one pass
//!   (`lemma_pruning_one_by_one_is_one_pass`).
//! - With a deterministic kernel a step has one result
//!   (`lemma_deterministic_kernel_gives_one_result`).
//! - The critically damped step response in closed form
//!   (`lemma_critically_damped_response`).
//! - The opposite input gives the opposite response, exactly
//!   (`lemma_response_is_odd_in_the_input`).
use crate::errors::{out_of_range, SimulatorResult};
use crate::kernel::{
    answers,
    answers_all,
    answers_fine,
    answers_one,
    KernelQuery,
    KernelReading,
    KernelRelation,
    Transcendental,
};
use crate::quantities::{Ratio, Time};
use crate::stable_transfer_functions::decaying_exponentials::{
    DecayExponentialResponse,
    DecayingExponentialType,
};
use crate::stable_transfer_functions::decaying_sinusoid::DecaySinusoidResponse;
use crate::stable_transfer_functions::first_order_transfer_fn::FirstOrderResponse;
use crate::stable_transfer_functions::second_order_transfer_fn::{
    lemma_root_term_is_defined,
    SecondOrderStableStepResponse,
};
use crate::stable_transfer_functions::step_fn::StepFunction;
use crate::fixed_point::{
    clamped,
    fits,
    lemma_floor_root,
    lemma_round_div_odd,
    NANO,
    round_div,
    scaled_product,
    signed_unit,
    unit,
};
use crate::superposition::{
    ElementaryResponse,
    queries_defined,
    settled_values,
    stamped_all,
    SuperpositionModel,
    survivors,
    total_response,
};
use vstd::prelude::*;

verus! {

/// The sum of the final values of the first `n` responses of `list`.
pub open spec fn final_values(list: Seq<ElementaryResponse>, n: nat) -> int
    decreases n,
{
    if n == 0 {
        0
    } else {
        final_values(list, (n - 1) as nat) + list[n - 1].steady_value()
    }
}

/// Every one of the first `n` responses of `list` had settled.
pub open spec fn all_settled(list: Seq<ElementaryResponse>, gauges: Seq<i64>, n: nat) -> bool {
    forall|i: int| 0 <= i < n ==> (#[trigger] list[i]).steady(gauges[i])
}

/// None of the responses of `list` has started at `t`.
pub open spec fn none_started(list: Seq<ElementaryResponse>, t: Time) -> bool {
    forall|i: int| 0 <= i < list.len() ==> t@ < (#[trigger] list[i]).start()@
}

/// The values of two lists of responses, one after the other, add up.
pub proof fn lemma_total_response_of_two(
    first: Seq<ElementaryResponse>,
    second: Seq<ElementaryResponse>,
    t: Time,
    first_readings: Seq<KernelReading>,
    second_readings: Seq<KernelReading>,
    n: nat,
)
    requires
        first_readings.len() == first.len(),
        n <= second.len(),
        n <= second_readings.len(),
    ensures
        total_response(first + second, t, first_readings + second_readings, first.len() + n)
            == total_response(first, t, first_readings, first.len()) + total_response(
            second,
            t,
            second_readings,
            n,
        ),
    decreases n,
{
    if n == 0 {
        lemma_total_response_of_prefix(
            first,
            second,
            t,
            first_readings,
            second_readings,
            first.len(),
        );
    } else {
        lemma_total_response_of_two(
            first,
            second,
            t,
            first_readings,
            second_readings,
            (n - 1) as nat,
        );
    }
}

/// The values of the first responses of a list do not depend on what
/// follows them.
pub proof fn lemma_total_response_of_prefix(
    first: Seq<ElementaryResponse>,
    second: Seq<ElementaryResponse>,
    t: Time,
    first_readings: Seq<KernelReading>,
    second_readings: Seq<KernelReading>,
    n: nat,
)
    requires
        first_readings.len() == first.len(),
        n <= first.len(),
    ensures
        total_response(first + second, t, first_readings + second_readings, n) == total_response(
            first,
            t,
            first_readings,
            n,
        ),
    decreases n,
{
    if n > 0 {
        lemma_total_response_of_prefix(
            first,
            second,
            t,
            first_readings,
            second_readings,
            (n - 1) as nat,
        );
    }
}

/// The responses that stay active among two lists, one after the other,
/// are those of the first followed by those of the second; the final
/// values of the settled ones add up.
pub proof fn lemma_settling_of_two(
    first: Seq<ElementaryResponse>,
    second: Seq<ElementaryResponse>,
    first_gauges: Seq<i64>,
    second_gauges: Seq<i64>,
    n: nat,
)
    requires
        first_gauges.len() == first.len(),
        n <= second.len(),
        n <= second_gauges.len(),
    ensures
        survivors(first + second, first_gauges + second_gauges, first.len() + n) == survivors(
            first,
            first_gauges,
            first.len(),
        ) + survivors(second, second_gauges, n),
        settled_values(first + second, first_gauges + second_gauges, first.len() + n)
            == settled_values(first, first_gauges, first.len()) + settled_values(
            second,
            second_gauges,
            n,
        ),
        final_values(first + second, first.len() + n) == final_values(first, first.len())
            + final_values(second, n),
    decreases n,
{
    if n == 0 {
        lemma_settling_of_prefix(first, second, first_gauges, second_gauges, first.len());
        assert(survivors(first, first_gauges, first.len()) + Seq::<ElementaryResponse>::empty()
            == survivors(first, first_gauges, first.len()));
    } else {
        lemma_settling_of_two(first, second, first_gauges, second_gauges, (n - 1) as nat);
        assert((first + second)[first.len() + n - 1] == second[n - 1]);
        assert((first_gauges + second_gauges)[first.len() + n - 1] == second_gauges[n - 1]);
        let kept = survivors(first, first_gauges, first.len());
        let rest = survivors(second, second_gauges, (n - 1) as nat);
        assert((kept + rest).push(second[n - 1]) == kept + rest.push(second[n - 1]));
    }
}

/// What stays active and what settles among the first responses of a list
/// does not depend on what follows them.
pub proof fn lemma_settling_of_prefix(
    first: Seq<ElementaryResponse>,
    second: Seq<ElementaryResponse>,
    first_gauges: Seq<i64>,
    second_gauges: Seq<i64>,
    n: nat,
)
    requires
        first_gauges.len() == first.len(),
        n <= first.len(),
    ensures
        survivors(first + second, first_gauges + second_gauges, n) == survivors(
            first,
            first_gauges,
            n,
        ),
        settled_values(first + second, first_gauges + second_gauges, n) == settled_values(
            first,
            first_gauges,
            n,
        ),
        final_values(first + second, n) == final_values(first, n),
    decreases n,
{
    if n > 0 {
        lemma_settling_of_prefix(first, second, first_gauges, second_gauges, (n - 1) as nat);
        assert((first + second)[n - 1] == first[n - 1]);
        assert((first_gauges + second_gauges)[n - 1] == first_gauges[n - 1]);
    }
}

/// Superposition.  Let an accumulator hold the responses of two others,
/// those of the first before those of the second, and the sum of their
/// offsets.  Then a step in which the second takes a change of input, the
/// first none, leaves active in it what stays active in the two, and its
/// output is the sum of their outputs, exactly: the response to a sequence
/// of input changes is the sum of the responses to each change by itself,
/// each from its own start time.
pub proof fn lemma_superposition(
    whole: SuperpositionModel,
    first: SuperpositionModel,
    second: SuperpositionModel,
    t: Time,
    spawned: Seq<ElementaryResponse>,
    first_gauges: Seq<i64>,
    second_gauges: Seq<i64>,
    first_readings: Seq<KernelReading>,
    second_readings: Seq<KernelReading>,
)
    requires
        whole.responses == first.responses + second.responses,
        whole.offset@ == first.offset@ + second.offset@,
        first_gauges.len() == first.responses.len(),
        second_gauges.len() == second.candidates(spawned).len(),
        first_readings.len() == first.active(Seq::empty(), first_gauges).len(),
        second_readings.len() == second.active(spawned, second_gauges).len(),
    ensures
        whole.active(spawned, first_gauges + second_gauges) == first.active(
            Seq::empty(),
            first_gauges,
        ) + second.active(spawned, second_gauges),
        whole.output(
            t,
            spawned,
            first_gauges + second_gauges,
            first_readings + second_readings,
        ) == first.output(t, Seq::empty(), first_gauges, first_readings) + second.output(
            t,
            spawned,
            second_gauges,
            second_readings,
        ),
{
    let a = first.responses;
    let b = second.responses + spawned;
    assert(first.candidates(Seq::empty()) == a);
    assert(whole.candidates(spawned) == a + b);
    lemma_settling_of_two(a, b, first_gauges, second_gauges, b.len());
    let sa = survivors(a, first_gauges, a.len());
    let sb = survivors(b, second_gauges, b.len());
    lemma_total_response_of_two(sa, sb, t, first_readings, second_readings, sb.len());
}

/// Stamping changes no final value.
pub proof fn lemma_stamping_keeps_final_values(list: Seq<ElementaryResponse>, t: Time, n: nat)
    requires
        n <= list.len(),
    ensures
        final_values(stamped_all(list, t), n) == final_values(list, n),
    decreases n,
{
    if n > 0 {
        lemma_stamping_keeps_final_values(list, t, (n - 1) as nat);
    }
}

/// Settling moves final values from the list to the offset and loses none.
pub proof fn lemma_settling_keeps_final_values(
    list: Seq<ElementaryResponse>,
    gauges: Seq<i64>,
    n: nat,
)
    requires
        n <= list.len(),
    ensures
        settled_values(list, gauges, n) + final_values(
            survivors(list, gauges, n),
            survivors(list, gauges, n).len(),
        ) == final_values(list, n),
    decreases n,
{
    if n > 0 {
        lemma_settling_keeps_final_values(list, gauges, (n - 1) as nat);
        if !list[n - 1].steady(gauges[n - 1]) {
            let rest = survivors(list, gauges, (n - 1) as nat);
            lemma_final_values_of_prefix(rest, list[n - 1], rest.len());
        }
    }
}

/// The final values of the first responses of a list do not depend on
/// what follows them.
pub proof fn lemma_final_values_of_prefix(
    list: Seq<ElementaryResponse>,
    last: ElementaryResponse,
    n: nat,
)
    requires
        n <= list.len(),
    ensures
        final_values(list.push(last), n) == final_values(list, n),
    decreases n,
{
    if n > 0 {
        lemma_final_values_of_prefix(list, last, (n - 1) as nat);
    }
}

/// The value that the output settles to.  The offset plus the final values
/// of the active responses is what the output tends to when the input
/// stays as it is; a step adds to it the final values of the responses that
/// the step spawns, and nothing else: whatever is pruned, and whenever, the
/// offset holds the final values of all responses that have left.
pub proof fn lemma_step_keeps_settled_value(
    before: SuperpositionModel,
    t: Time,
    input: Ratio,
    spawned: Seq<ElementaryResponse>,
    gauges: Seq<i64>,
)
    requires
        fits(before.settled_offset(spawned, gauges)),
    ensures
        ({
            let after = before.advanced(t, input, spawned, gauges);
            after.offset@ + final_values(after.responses, after.responses.len())
                == before.offset@ + final_values(before.responses, before.responses.len())
                + final_values(spawned, spawned.len())
        }),
{
    let all = before.candidates(spawned);
    lemma_settling_keeps_final_values(all, gauges, all.len());
    lemma_final_values_of_two(before.responses, spawned, spawned.len());
    let kept = survivors(all, gauges, all.len());
    lemma_stamping_keeps_final_values(kept, t, kept.len());
}

/// The final values of two lists, one after the other, add up.
pub proof fn lemma_final_values_of_two(
    first: Seq<ElementaryResponse>,
    second: Seq<ElementaryResponse>,
    n: nat,
)
    requires
        n <= second.len(),
    ensures
        final_values(first + second, first.len() + n) == final_values(first, first.len())
            + final_values(second, n),
    decreases n,
{
    if n == 0 {
        lemma_final_values_front(first, second, first.len());
    } else {
        lemma_final_values_of_two(first, second, (n - 1) as nat);
        assert((first + second)[first.len() + n - 1] == second[n - 1]);
    }
}

/// The final values of the first of two lists.
pub proof fn lemma_final_values_front(
    first: Seq<ElementaryResponse>,
    second: Seq<ElementaryResponse>,
    n: nat,
)
    requires
        n <= first.len(),
    ensures
        final_values(first + second, n) == final_values(first, n),
    decreases n,
{
    if n > 0 {
        lemma_final_values_front(first, second, (n - 1) as nat);
        assert((first + second)[n - 1] == first[n - 1]);
    }
}

/// Where every response had settled, none stays active.
pub proof fn lemma_all_settled_leaves_none(
    list: Seq<ElementaryResponse>,
    gauges: Seq<i64>,
    n: nat,
)
    requires
        n <= list.len(),
        all_settled(list, gauges, n),
    ensures
        survivors(list, gauges, n).len() == 0,
        settled_values(list, gauges, n) == final_values(list, n),
    decreases n,
{
    if n > 0 {
        lemma_all_settled_leaves_none(list, gauges, (n - 1) as nat);
    }
}

/// Pruning ends.  Once every active response had settled at the last
/// evaluation, a step without a change of input leaves no response active,
/// moves their final values to the offset, and returns that offset.
pub proof fn lemma_settled_accumulator_is_its_offset(
    before: SuperpositionModel,
    t: Time,
    input: Ratio,
    gauges: Seq<i64>,
    readings: Seq<KernelReading>,
)
    requires
        all_settled(before.responses, gauges, before.responses.len()),
        fits(before.settled_offset(Seq::empty(), gauges)),
    ensures
        ({
            let after = before.advanced(t, input, Seq::empty(), gauges);
            &&& after.responses.len() == 0
            &&& after.offset@ == before.offset@ + final_values(
                before.responses,
                before.responses.len(),
            )
            &&& before.plan_defined(t, Seq::empty(), gauges)
            &&& before.output(t, Seq::empty(), gauges, readings) == after.offset@
        }),
{
    assert(before.candidates(Seq::empty()) == before.responses);
    lemma_all_settled_leaves_none(before.responses, gauges, before.responses.len());
}

/// A first-order rise has settled once 25 time constants have passed.
pub proof fn lemma_first_order_settles(rise: FirstOrderResponse)
    requires
        rise.wf(),
        rise.current_time@ - rise.start_time@ >= 25 * rise.process_time@,
    ensures
        rise.steady(),
{
}

/// A second-order step response that is not overdamped has settled once
/// 25 times `tau / zeta` have passed.
pub proof fn lemma_second_order_settles(response: SecondOrderStableStepResponse)
    requires
        response.wf(),
        response.damping_factor@ <= NANO,
        response.damping_factor@ * (response.current_time@ - response.start_time@) >= 25 * NANO
            * response.process_time@,
    ensures
        response.steady(),
{
    let elapsed = response.current_time@ - response.start_time@;
    let tau = response.process_time@;
    assert(25 * NANO * tau == 25_000_000_000 * tau && 20 * NANO * tau == 20_000_000_000 * tau)
        by (nonlinear_arith)
        requires
            NANO == 1_000_000_000,
    ;
    if response.damping_factor@ == NANO {
        assert(response.damping_factor@ * elapsed == 1_000_000_000 * elapsed) by (nonlinear_arith)
            requires
                response.damping_factor@ == 1_000_000_000,
        ;
    }
}

/// An overdamped second-order step response has settled once 25 times
/// the slower of its two time constants, `tau / (zeta - sqrt(zeta^2 - 1))`,
/// have passed.
pub proof fn lemma_overdamped_settles(response: SecondOrderStableStepResponse)
    requires
        response.wf(),
        response.damping_factor@ > NANO,
        response.slow_rate() * (response.current_time@ - response.start_time@) >= 25 * NANO
            * response.process_time@,
    ensures
        response.steady(),
{
    let elapsed = response.current_time@ - response.start_time@;
    let tau = response.process_time@;
    assert(25 * NANO * tau == 25_000_000_000 * tau && 20 * NANO * tau == 20_000_000_000 * tau)
        by (nonlinear_arith)
        requires
            NANO == 1_000_000_000,
    ;
    lemma_root_term_is_defined(response);
    lemma_floor_root((response.damping_squared() - NANO) * NANO);
    let root = response.root_term();
    let zeta = response.damping_factor@;
    let square = zeta * zeta;
    // the root is below the damping factor: root^2 <= (zeta^2 rounded - 1) < zeta^2
    assert(square >= 0) by (nonlinear_arith)
        requires
            square == zeta * zeta,
    ;
    assert(response.damping_squared() * NANO <= square + NANO / 2);
    assert((response.damping_squared() - NANO) * NANO == response.damping_squared() * NANO
        - NANO * NANO) by (nonlinear_arith);
    assert(root < zeta) by (nonlinear_arith)
        requires
            root * root < zeta * zeta,
            root >= 0,
            zeta > 0,
    ;
    assert(elapsed > 0) by (nonlinear_arith)
        requires
            (zeta - root) * elapsed >= 25_000_000_000 * tau,
            tau > 0,
            zeta - root > 0,
    ;
    assert(response.fast_rate() * elapsed >= response.slow_rate() * elapsed) by (nonlinear_arith)
        requires
            response.fast_rate() == response.slow_rate() + 2 * root,
            root >= 0,
            elapsed > 0,
    ;
}

/// A decaying sinusoid has settled once 25 times `1 / a` have passed.
pub proof fn lemma_sinusoid_settles(term: DecaySinusoidResponse)
    requires
        term.wf(),
        term.a@ * (term.current_time@ - term.start_time@) >= 25 * NANO * NANO,
    ensures
        term.steady(),
{
}

/// A decaying exponential has settled once 25 times the reciprocal of each
/// rate have passed and, when it is critically damped, the kernel reads
/// `t exp(-alpha t)` below `1e-10` seconds, as the exponential itself is
/// from 25 times `1 / alpha` on for every rate of 1 Hz or more.
pub proof fn lemma_exponential_settles(term: DecayExponentialResponse, gauge: i64)
    requires
        term.wf(),
        term.alpha@ * (term.current_time@ - term.start_time@) >= 25 * NANO * NANO,
        term.beta@ * (term.current_time@ - term.start_time@) >= 25 * NANO * NANO,
        term.exponential_type == DecayingExponentialType::CriticallyDamped ==> term.elapsed()
            * clamped(gauge as int, 0, NANO * NANO) < 100_000_000_000_000_000,
    ensures
        term.steady(gauge),
{
}

/// Dead time, before the start.  A response that has not started asks
/// nothing of the kernel and contributes exactly 0.
pub proof fn lemma_no_response_before_start(
    response: ElementaryResponse,
    t: Time,
    reading: KernelReading,
)
    requires
        t@ < response.start()@,
    ensures
        response.response(t, reading) == 0,
        response.query(t) == (KernelQuery {
            decay: None,
            second_decay: None,
            sine: None,
            cosine: None,
        }),
{
}

/// Dead time, before the start, for an accumulator: while none of the
/// active responses has started, they add nothing to the offset.
pub proof fn lemma_output_before_start_is_offset(
    list: Seq<ElementaryResponse>,
    t: Time,
    readings: Seq<KernelReading>,
    n: nat,
)
    requires
        n <= list.len(),
        none_started(list, t),
    ensures
        total_response(list, t, readings, n) == 0,
    decreases n,
{
    if n > 0 {
        lemma_output_before_start_is_offset(list, t, readings, (n - 1) as nat);
        lemma_no_response_before_start(list[n - 1], t, readings[n - 1]);
    }
}

/// The response `response` started `delay` later and last evaluated `delay`
/// later.
pub open spec fn delayed(response: ElementaryResponse, delay: int) -> ElementaryResponse {
    match response {
        ElementaryResponse::Step(p) => ElementaryResponse::Step(
            StepFunction {
                start_time: Time { nano: (p.start_time@ + delay) as i64 },
                current_time: Time { nano: (p.current_time@ + delay) as i64 },
                ..p
            },
        ),
        ElementaryResponse::FirstOrder(p) => ElementaryResponse::FirstOrder(
            FirstOrderResponse {
                start_time: Time { nano: (p.start_time@ + delay) as i64 },
                current_time: Time { nano: (p.current_time@ + delay) as i64 },
                ..p
            },
        ),
        ElementaryResponse::SecondOrder(p) => ElementaryResponse::SecondOrder(
            SecondOrderStableStepResponse {
                start_time: Time { nano: (p.start_time@ + delay) as i64 },
                current_time: Time { nano: (p.current_time@ + delay) as i64 },
                ..p
            },
        ),
        ElementaryResponse::DecayingExponential(p) => ElementaryResponse::DecayingExponential(
            DecayExponentialResponse {
                start_time: Time { nano: (p.start_time@ + delay) as i64 },
                current_time: Time { nano: (p.current_time@ + delay) as i64 },
                ..p
            },
        ),
        ElementaryResponse::DecayingSinusoid(p) => ElementaryResponse::DecayingSinusoid(
            DecaySinusoidResponse {
                start_time: Time { nano: (p.start_time@ + delay) as i64 },
                current_time: Time { nano: (p.current_time@ + delay) as i64 },
                ..p
            },
        ),
    }
}

/// When the response was last evaluated.
pub open spec fn last_evaluation(response: ElementaryResponse) -> Time {
    match response {
        ElementaryResponse::Step(p) => p.current_time,
        ElementaryResponse::FirstOrder(p) => p.current_time,
        ElementaryResponse::SecondOrder(p) => p.current_time,
        ElementaryResponse::DecayingExponential(p) => p.current_time,
        ElementaryResponse::DecayingSinusoid(p) => p.current_time,
    }
}

/// Dead time, after the start.  A response depends on time only through
/// the time since its start: delayed by `delay` and asked `delay` later, it
/// is well formed and settled exactly when the response without delay is,
/// asks the kernel the same, and for the same answers has the same value.
pub proof fn lemma_delayed_response_is_shifted(
    response: ElementaryResponse,
    delay: int,
    t: Time,
    later: Time,
    gauge: i64,
    reading: KernelReading,
)
    requires
        fits(response.start()@ + delay),
        fits(last_evaluation(response)@ + delay),
        later@ == t@ + delay,
    ensures
        delayed(response, delay).start()@ == response.start()@ + delay,
        delayed(response, delay).wf() == response.wf(),
        delayed(response, delay).steady_query() == response.steady_query(),
        delayed(response, delay).steady(gauge) == response.steady(gauge),
        delayed(response, delay).steady_value() == response.steady_value(),
        delayed(response, delay).query_defined(later) == response.query_defined(t),
        delayed(response, delay).query(later) == response.query(t),
        delayed(response, delay).response(later, reading) == response.response(t, reading),
{
}

/// Dead time, after the start, for an accumulator: responses that are all
/// delayed by `delay` and asked `delay` later add up to the same.
pub proof fn lemma_delayed_output_is_shifted(
    list: Seq<ElementaryResponse>,
    shifted: Seq<ElementaryResponse>,
    delay: int,
    t: Time,
    later: Time,
    readings: Seq<KernelReading>,
    n: nat,
)
    requires
        n <= list.len(),
        shifted.len() == list.len(),
        later@ == t@ + delay,
        forall|i: int|
            0 <= i < list.len() ==> {
                &&& fits((#[trigger] list[i]).start()@ + delay)
                &&& fits(last_evaluation(list[i])@ + delay)
                &&& shifted[i] == delayed(list[i], delay)
            },
    ensures
        total_response(shifted, later, readings, n) == total_response(list, t, readings, n),
        queries_defined(shifted, later) == queries_defined(list, t),
    decreases n,
{
    if n > 0 {
        lemma_delayed_output_is_shifted(list, shifted, delay, t, later, readings, (n - 1) as nat);
        lemma_delayed_response_is_shifted(list[n - 1], delay, t, later, 0, readings[n - 1]);
    }
    assert(queries_defined(shifted, later) == queries_defined(list, t)) by {
        assert forall|i: int| 0 <= i < list.len() implies (#[trigger] shifted[i]).query_defined(
            later,
        ) == list[i].query_defined(t) by {
            lemma_delayed_response_is_shifted(list[i], delay, t, later, 0, readings[0]);
        }
    }
}

/// The place of the first response of `list`, from place `from` on, that
/// had settled.
pub open spec fn first_settled(
    list: Seq<ElementaryResponse>,
    gauges: Seq<i64>,
    from: int,
) -> Option<int>
    decreases list.len() - from,
{
    if from < 0 || from >= list.len() {
        None
    } else if list[from].steady(gauges[from]) {
        Some(from)
    } else {
        first_settled(list, gauges, from + 1)
    }
}

/// Pruning one by one: find the first response that had settled, add its
/// final value to the offset, remove it, and scan again, until none had
/// settled.  Gives the offset and the responses that are left.
pub open spec fn pruned_one_by_one(
    offset: int,
    list: Seq<ElementaryResponse>,
    gauges: Seq<i64>,
) -> (int, Seq<ElementaryResponse>)
    decreases list.len(),
{
    match first_settled(list, gauges, 0) {
        Some(place) => if 0 <= place < list.len() {
            pruned_one_by_one(
                offset + list[place].steady_value(),
                list.remove(place),
                gauges.remove(place),
            )
        } else {
            (offset, list)
        },
        None => (offset, list),
    }
}

/// What `first_settled` finds: a settled response with none settled
/// between `from` and it; or nothing, where none has settled from `from` on.
pub proof fn lemma_first_settled(list: Seq<ElementaryResponse>, gauges: Seq<i64>, from: int)
    requires
        0 <= from,
    ensures
        match first_settled(list, gauges, from) {
            Some(place) => from <= place < list.len() && list[place].steady(gauges[place])
                && forall|i: int| from <= i < place ==> !(#[trigger] list[i]).steady(gauges[i]),
            None => forall|i: int|
                from <= i < list.len() ==> !(#[trigger] list[i]).steady(gauges[i]),
        },
    decreases list.len() - from,
{
    if from < list.len() && !list[from].steady(gauges[from]) {
        lemma_first_settled(list, gauges, from + 1);
    }
}

/// Before the first settled response nothing is pruned.
pub proof fn lemma_nothing_settles_before(
    list: Seq<ElementaryResponse>,
    gauges: Seq<i64>,
    place: int,
    n: nat,
)
    requires
        n <= place <= list.len(),
        forall|i: int| 0 <= i < place ==> !(#[trigger] list[i]).steady(gauges[i]),
    ensures
        survivors(list, gauges, n) == list.take(n as int),
        settled_values(list, gauges, n) == 0,
    decreases n,
{
    if n > 0 {
        lemma_nothing_settles_before(list, gauges, place, (n - 1) as nat);
        assert(list.take(n as int) == list.take(n - 1).push(list[n - 1]));
    }
}

/// Removing the first settled response and adding its final value to the
/// offset first changes neither what is left nor the offset in the end.
pub proof fn lemma_removing_the_first_settled(
    list: Seq<ElementaryResponse>,
    gauges: Seq<i64>,
    place: int,
    n: nat,
)
    requires
        gauges.len() == list.len(),
        0 <= place < n <= list.len(),
        list[place].steady(gauges[place]),
        forall|i: int| 0 <= i < place ==> !(#[trigger] list[i]).steady(gauges[i]),
    ensures
        survivors(list, gauges, n) == survivors(
            list.remove(place),
            gauges.remove(place),
            (n - 1) as nat,
        ),
        settled_values(list, gauges, n) == list[place].steady_value() + settled_values(
            list.remove(place),
            gauges.remove(place),
            (n - 1) as nat,
        ),
    decreases n,
{
    let rest = list.remove(place);
    let rest_gauges = gauges.remove(place);
    if n == place + 1 {
        lemma_nothing_settles_before(list, gauges, place, place as nat);
        assert forall|i: int| 0 <= i < place implies !(#[trigger] rest[i]).steady(
            rest_gauges[i],
        ) by {
            assert(rest[i] == list[i]);
            assert(rest_gauges[i] == gauges[i]);
        }
        lemma_nothing_settles_before(rest, rest_gauges, place, place as nat);
        assert(rest.take(place) == list.take(place));
    } else {
        lemma_removing_the_first_settled(list, gauges, place, (n - 1) as nat);
        assert(rest[n - 2] == list[n - 1]);
        assert(rest_gauges[n - 2] == gauges[n - 1]);
    }
}

/// Pruning one by one comes to the same as one pass.  Scanning for the
/// first settled response, folding it and removing it, again and again
/// until none is left, gives the offset and the active responses that one
/// pass over the list gives: removal is one at a time by design, and the
/// order of removal changes nothing.
pub proof fn lemma_pruning_one_by_one_is_one_pass(
    offset: int,
    list: Seq<ElementaryResponse>,
    gauges: Seq<i64>,
)
    requires
        gauges.len() == list.len(),
    ensures
        pruned_one_by_one(offset, list, gauges).0 == offset + settled_values(
            list,
            gauges,
            list.len(),
        ),
        pruned_one_by_one(offset, list, gauges).1 == survivors(list, gauges, list.len()),
    decreases list.len(),
{
    lemma_first_settled(list, gauges, 0);
    match first_settled(list, gauges, 0) {
        Some(place) => {
            lemma_removing_the_first_settled(list, gauges, place, list.len());
            lemma_pruning_one_by_one_is_one_pass(
                offset + list[place].steady_value(),
                list.remove(place),
                gauges.remove(place),
            );
        },
        None => {
            lemma_nothing_settles_before(list, gauges, list.len() as int, list.len());
            assert(list.take(list.len() as int) == list);
        },
    }
}

/// The kernel returns one value for each function at each argument.
pub open spec fn deterministic(kernel: KernelRelation) -> bool {
    forall|function: Transcendental, x: i128, y: i64, z: i64|
        #[trigger] kernel(function, x, y) && #[trigger] kernel(function, x, z) ==> y == z
}

/// A deterministic kernel answers a list of queries in one way.
pub proof fn lemma_deterministic_kernel_reads_once(
    kernel: KernelRelation,
    queries: Seq<KernelQuery>,
    first: Seq<KernelReading>,
    second: Seq<KernelReading>,
)
    requires
        deterministic(kernel),
        answers_all(kernel, queries, first),
        answers_all(kernel, queries, second),
    ensures
        first == second,
{
    assert forall|i: int| 0 <= i < queries.len() implies first[i] == second[i] by {
        assert(answers(kernel, queries[i], first[i]));
        assert(answers(kernel, queries[i], second[i]));
    }
    assert(first =~= second);
}

/// A deterministic kernel answers what settling asks in one way.
pub proof fn lemma_deterministic_kernel_gauges_once(
    kernel: KernelRelation,
    asked: Seq<Option<i128>>,
    first: Seq<i64>,
    second: Seq<i64>,
)
    requires
        deterministic(kernel),
        answers_fine(kernel, asked, first),
        answers_fine(kernel, asked, second),
    ensures
        first == second,
{
    assert forall|i: int| 0 <= i < asked.len() implies first[i] == second[i] by {
        assert(answers_one(kernel, Transcendental::ExpNegFine, asked[i], first[i]));
        assert(answers_one(kernel, Transcendental::ExpNegFine, asked[i], second[i]));
    }
    assert(first =~= second);
}

/// The library adds no chance of its own.  With a deterministic kernel a
/// step has one result: whatever two runs from the same accumulator, at the
/// same time, with the same input and the same spawned responses leave and
/// return, they leave and return the same.
pub proof fn lemma_deterministic_kernel_gives_one_result(
    before: SuperpositionModel,
    t: Time,
    input: Ratio,
    spawned: Seq<ElementaryResponse>,
    kernel: KernelRelation,
    first_after: SuperpositionModel,
    first_result: SimulatorResult<Ratio>,
    second_after: SuperpositionModel,
    second_result: SimulatorResult<Ratio>,
)
    requires
        deterministic(kernel),
        before.step_result(t, input, spawned, kernel, first_after, first_result),
        before.step_result(t, input, spawned, kernel, second_after, second_result),
    ensures
        first_after == second_after,
        first_result == second_result,
{
    let first_gauges = choose|gauges: Seq<i64>|
        {
            &&& #[trigger] answers_fine(kernel, before.gauge_plan(spawned), gauges)
            &&& if before.plan_defined(t, spawned, gauges) {
                exists|readings: Seq<KernelReading>|
                    {
                        &&& #[trigger] answers_all(
                            kernel,
                            before.plan_queries(t, spawned, gauges),
                            readings,
                        )
                        &&& before.outcome(
                            t,
                            input,
                            spawned,
                            gauges,
                            readings,
                            first_after,
                            first_result,
                        )
                    }
            } else {
                first_result == out_of_range::<Ratio>() && first_after == before
            }
        };
    let second_gauges = choose|gauges: Seq<i64>|
        {
            &&& #[trigger] answers_fine(kernel, before.gauge_plan(spawned), gauges)
            &&& if before.plan_defined(t, spawned, gauges) {
                exists|readings: Seq<KernelReading>|
                    {
                        &&& #[trigger] answers_all(
                            kernel,
                            before.plan_queries(t, spawned, gauges),
                            readings,
                        )
                        &&& before.outcome(
                            t,
                            input,
                            spawned,
                            gauges,
                            readings,
                            second_after,
                            second_result,
                        )
                    }
            } else {
                second_result == out_of_range::<Ratio>() && second_after == before
            }
        };
    lemma_deterministic_kernel_gauges_once(
        kernel,
        before.gauge_plan(spawned),
        first_gauges,
        second_gauges,
    );
    if before.plan_defined(t, spawned, first_gauges) {
        let first = choose|readings: Seq<KernelReading>|
            {
                &&& #[trigger] answers_all(
                    kernel,
                    before.plan_queries(t, spawned, first_gauges),
                    readings,
                )
                &&& before.outcome(
                    t,
                    input,
                    spawned,
                    first_gauges,
                    readings,
                    first_after,
                    first_result,
                )
            };
        let second = choose|readings: Seq<KernelReading>|
            {
                &&& #[trigger] answers_all(
                    kernel,
                    before.plan_queries(t, spawned, first_gauges),
                    readings,
                )
                &&& before.outcome(
                    t,
                    input,
                    spawned,
                    first_gauges,
                    readings,
                    second_after,
                    second_result,
                )
            };
        lemma_deterministic_kernel_reads_once(
            kernel,
            before.plan_queries(t, spawned, first_gauges),
            first,
            second,
        );
    }
}

/// Settled stays settled.  A response that has started and had settled at
/// one evaluation has settled at every later one; so a response is folded
/// into the offset for good.  For the critically damped exponential, which
/// settles by the kernel's reading as well as by time, this is so where the
/// later reading tells it.
pub proof fn lemma_settled_stays_settled(
    response: ElementaryResponse,
    t: Time,
    gauge: i64,
    later: Time,
    later_gauge: i64,
)
    requires
        response.wf(),
        response.start()@ <= t@ <= later@,
        response.stamped(t).steady(gauge),
        response matches ElementaryResponse::DecayingExponential(term) && term.exponential_type
            == DecayingExponentialType::CriticallyDamped ==> (later@ - response.start()@)
            * clamped(later_gauge as int, 0, NANO * NANO) < 100_000_000_000_000_000,
    ensures
        response.stamped(later).steady(later_gauge),
{
    let elapsed = t@ - response.start()@;
    let longer = later@ - response.start()@;
    match response {
        ElementaryResponse::Step(p) => {},
        ElementaryResponse::FirstOrder(p) => {},
        ElementaryResponse::SecondOrder(p) => {
            if p.damping_factor@ < NANO {
                assert(p.damping_factor@ * longer >= p.damping_factor@ * elapsed)
                    by (nonlinear_arith)
                    requires
                        p.damping_factor@ > 0,
                        longer >= elapsed,
                ;
            } else if p.damping_factor@ > NANO {
                assert(20 * NANO * p.process_time@ > 0) by (nonlinear_arith)
                    requires
                        p.process_time@ > 0,
                        NANO == 1_000_000_000,
                ;
                assert(p.slow_rate() * longer >= p.slow_rate() * elapsed && p.fast_rate() * longer
                    >= p.fast_rate() * elapsed) by (nonlinear_arith)
                    requires
                        p.slow_rate() * elapsed > 0,
                        p.fast_rate() * elapsed > 0,
                        0 <= elapsed <= longer,
                ;
            }
        },
        ElementaryResponse::DecayingExponential(p) => {
            assert(p.alpha@ * longer >= p.alpha@ * elapsed && p.beta@ * longer >= p.beta@
                * elapsed) by (nonlinear_arith)
                requires
                    p.alpha@ > 0,
                    p.beta@ > 0,
                    longer >= elapsed,
            ;
        },
        ElementaryResponse::DecayingSinusoid(p) => {
            assert(p.a@ * longer >= p.a@ * elapsed) by (nonlinear_arith)
                requires
                    p.a@ > 0,
                    longer >= elapsed,
            ;
        },
    }
}

/// An accumulator at rest: no offset, no active response.
pub open spec fn at_rest(like: SuperpositionModel) -> SuperpositionModel {
    SuperpositionModel { offset: Ratio { nano: 0 }, responses: Seq::empty(), ..like }
}

/// Superposition over a sequence of calls.  Whatever an accumulator has
/// seen, the output of a call that brings a change of the input is the
/// output it would give without the change, plus the output of an
/// accumulator at rest that sees this change only: every change answers by
/// itself, from its own start time, and the answers add up exactly.
pub proof fn lemma_each_change_answers_by_itself(
    history: SuperpositionModel,
    t: Time,
    spawned: Seq<ElementaryResponse>,
    held_gauges: Seq<i64>,
    spawned_gauges: Seq<i64>,
    held_readings: Seq<KernelReading>,
    spawned_readings: Seq<KernelReading>,
)
    requires
        held_gauges.len() == history.responses.len(),
        spawned_gauges.len() == spawned.len(),
        held_readings.len() == history.active(Seq::empty(), held_gauges).len(),
        spawned_readings.len() == at_rest(history).active(spawned, spawned_gauges).len(),
    ensures
        history.output(
            t,
            spawned,
            held_gauges + spawned_gauges,
            held_readings + spawned_readings,
        ) == history.output(t, Seq::empty(), held_gauges, held_readings) + at_rest(history).output(
            t,
            spawned,
            spawned_gauges,
            spawned_readings,
        ),
{
    let fresh = at_rest(history);
    assert(history.responses + fresh.responses == history.responses);
    assert(fresh.candidates(spawned) == spawned);
    lemma_superposition(
        history,
        history,
        fresh,
        t,
        spawned,
        held_gauges,
        spawned_gauges,
        held_readings,
        spawned_readings,
    );
}

/// The critically damped step response in full: from its start on, at
/// `x = (t - start_time) / process_time`, it asks the kernel for `exp(-x)`
/// alone and is `user_input * process_gain * (1 - (1 + x) e)` for the
/// reading `e`, the reading taken into `[0, 1]` and `(1 + x) e` into
/// `[-1, 1]`, whatever `x` is.
pub proof fn lemma_critically_damped_response(
    response: SecondOrderStableStepResponse,
    t: Time,
    reading: KernelReading,
)
    requires
        response.damping_factor@ == NANO,
        t@ >= response.start_time@,
    ensures
        ({
            let x = round_div((t@ - response.start_time@) * NANO, response.process_time@);
            let e = unit(reading.decay as int);
            &&& response.query(t) == (KernelQuery {
                decay: Some(x as i128),
                second_decay: None,
                sine: None,
                cosine: None,
            })
            &&& response.response(t, reading) == scaled_product(
                scaled_product(response.user_input@, response.process_gain@),
                NANO - signed_unit(scaled_product(NANO + x, e)),
            )
        }),
{
}

/// The response to the opposite input: `response` with its input, and what
/// it holds of its input times a magnitude, negated.
pub open spec fn mirrored(response: ElementaryResponse) -> ElementaryResponse {
    match response {
        ElementaryResponse::Step(p) => ElementaryResponse::Step(
            StepFunction { user_input: Ratio { nano: (-p.user_input@) as i64 }, ..p },
        ),
        ElementaryResponse::FirstOrder(p) => ElementaryResponse::FirstOrder(
            FirstOrderResponse { user_input: Ratio { nano: (-p.user_input@) as i64 }, ..p },
        ),
        ElementaryResponse::SecondOrder(p) => ElementaryResponse::SecondOrder(
            SecondOrderStableStepResponse {
                user_input: Ratio { nano: (-p.user_input@) as i64 },
                ..p
            },
        ),
        ElementaryResponse::DecayingExponential(p) => ElementaryResponse::DecayingExponential(
            DecayExponentialResponse {
                user_input: Ratio { nano: (-p.user_input@) as i64 },
                magnitude_alpha_times_user_input: Ratio {
                    nano: (-p.magnitude_alpha_times_user_input@) as i64,
                },
                magnitude_beta_times_user_input: Ratio {
                    nano: (-p.magnitude_beta_times_user_input@) as i64,
                },
                ..p
            },
        ),
        ElementaryResponse::DecayingSinusoid(p) => ElementaryResponse::DecayingSinusoid(
            DecaySinusoidResponse { user_input: Ratio { nano: (-p.user_input@) as i64 }, ..p },
        ),
    }
}

/// What `mirrored` negates can be negated: none of it is the least value
/// that can be stored.
pub open spec fn can_be_mirrored(response: ElementaryResponse) -> bool {
    match response {
        ElementaryResponse::Step(p) => fits(-p.user_input@),
        ElementaryResponse::FirstOrder(p) => fits(-p.user_input@),
        ElementaryResponse::SecondOrder(p) => fits(-p.user_input@),
        ElementaryResponse::DecayingExponential(p) => fits(-p.user_input@) && fits(
            -p.magnitude_alpha_times_user_input@,
        ) && fits(-p.magnitude_beta_times_user_input@),
        ElementaryResponse::DecayingSinusoid(p) => fits(-p.user_input@),
    }
}

/// A product in stored units is odd in its first factor.
pub proof fn lemma_scaled_product_is_odd(a: int, b: int)
    ensures
        scaled_product(-a, b) == -scaled_product(a, b),
{
    assert((-a) * b == -(a * b)) by (nonlinear_arith);
    lemma_round_div_odd(a * b, NANO as int);
}

/// The response is odd in the input.  The opposite input gives the
/// opposite response, exactly: it settles at the same time, asks the kernel
/// the same, and for the same readings has the opposite value and the
/// opposite final value.  Rounding is to the nearest with ties away from
/// zero, so it takes no side.  For another factor than -1 the response
/// follows the input only to within the roundings.
pub proof fn lemma_response_is_odd_in_the_input(
    response: ElementaryResponse,
    t: Time,
    gauge: i64,
    reading: KernelReading,
)
    requires
        can_be_mirrored(response),
    ensures
        mirrored(response).steady(gauge) == response.steady(gauge),
        mirrored(response).steady_query() == response.steady_query(),
        mirrored(response).query_defined(t) == response.query_defined(t),
        mirrored(response).query(t) == response.query(t),
        mirrored(response).steady_value() == -response.steady_value(),
        mirrored(response).response(t, reading) == -response.response(t, reading),
{
    match response {
        ElementaryResponse::Step(p) => {
            lemma_scaled_product_is_odd(p.user_input@, p.process_gain@);
        },
        ElementaryResponse::FirstOrder(p) => {
            lemma_scaled_product_is_odd(p.user_input@, p.process_gain@);
            lemma_scaled_product_is_odd(p.steady_value(), NANO - unit(reading.decay as int));
        },
        ElementaryResponse::SecondOrder(p) => {
            lemma_scaled_product_is_odd(p.user_input@, p.process_gain@);
            lemma_scaled_product_is_odd(
                p.steady_value(),
                NANO - signed_unit(p.missing(t, reading)),
            );
        },
        ElementaryResponse::DecayingExponential(p) => {
            let first = p.magnitude_alpha_times_user_input@;
            let second = p.magnitude_beta_times_user_input@;
            lemma_scaled_product_is_odd(first, p.horizon());
            lemma_scaled_product_is_odd(first, unit(reading.decay as int));
            lemma_scaled_product_is_odd(
                first,
                scaled_product(t@ - p.start_time@, unit(reading.decay as int)),
            );
            lemma_scaled_product_is_odd(second, unit(reading.second_decay as int));
        },
        ElementaryResponse::DecayingSinusoid(p) => {
            lemma_scaled_product_is_odd(p.user_input@, p.magnitude@);
            lemma_scaled_product_is_odd(p.amplitude(), unit(reading.decay as int));
            lemma_scaled_product_is_odd(p.envelope(reading), p.wave(reading));
        },
    }
}

/// The response has not settled, whatever the kernel answers.
pub open spec fn unsettled(response: ElementaryResponse) -> bool {
    forall|gauge: i64| !(#[trigger] response.steady(gauge))
}

/// Nothing settles before it starts.  A response that was last evaluated
/// at or before its start has not settled, whatever the kernel answers; a
/// plain step, which is at its final value from its start on, where it was
/// last evaluated before its start.
pub proof fn lemma_nothing_settles_before_it_starts(response: ElementaryResponse)
    requires
        response.wf(),
        last_evaluation(response)@ <= response.start()@,
        response is Step ==> last_evaluation(response)@ < response.start()@,
    ensures
        unsettled(response),
{
    let elapsed = last_evaluation(response)@ - response.start()@;
    match response {
        ElementaryResponse::Step(p) => {},
        ElementaryResponse::FirstOrder(p) => {},
        ElementaryResponse::SecondOrder(p) => {
            assert(p.damping_factor@ * elapsed <= 0 && 20 * NANO * p.process_time@ > 0)
                by (nonlinear_arith)
                requires
                    p.damping_factor@ > 0,
                    p.process_time@ > 0,
                    elapsed <= 0,
            ;
            if p.damping_factor@ > NANO {
                lemma_root_term_is_defined(p);
                assert(p.fast_rate() * elapsed <= 0) by (nonlinear_arith)
                    requires
                        p.fast_rate() > 0,
                        elapsed <= 0,
                ;
            }
        },
        ElementaryResponse::DecayingExponential(p) => {
            assert(p.alpha@ * elapsed <= 0) by (nonlinear_arith)
                requires
                    p.alpha@ > 0,
                    elapsed <= 0,
            ;
        },
        ElementaryResponse::DecayingSinusoid(p) => {
            assert(p.a@ * elapsed <= 0) by (nonlinear_arith)
                requires
                    p.a@ > 0,
                    elapsed <= 0,
            ;
        },
    }
}

} // verus!
