//! What holds of a whole run of calls.
//!
//! - The value that the output settles to moves only by what the calls
//!   spawn, however many calls there are and whatever is pruned on the way
//!   (`lemma_run_keeps_settled_value`).
//! - For a transfer function of gain `Kp` it stays within half a billionth
//!   per call of the initial value plus `Kp` times the whole change of the
//!   input (`lemma_run_settles_to_gain`, and its versions for the first-order
//!   and the second-order transfer function).
//! - What only decays settles to nothing
//!   (`lemma_run_of_decaying_terms_keeps_settled_value`).
//! - Once every response has settled, the next call returns that value and
//!   leaves no response active
//!   (`lemma_settled_run_returns_its_settled_value`).
//! - Two changes of the input, seen one after the other, are answered by
//!   the sum of the answers to each (`lemma_two_changes_add_up`, and its
//!   versions for the first-order and the second-order transfer function).
use crate::errors::SimulatorResult;
use crate::fixed_point::{fits, lemma_round_div_error, NANO, scaled_product};
use crate::kernel::{
    answers,
    answers_all,
    answers_fine,
    answers_one,
    KernelReading,
    KernelRelation,
    Transcendental,
};
use crate::quantities::{Ratio, Time};
use crate::stable_transfer_functions::first_order_transfer_fn::FirstOrderStableTransferFnNoZeroes;
use crate::stable_transfer_functions::second_order_transfer_fn::SecondOrderStableTransferFnNoZeroes;
use crate::superposition::{
    ElementaryResponse,
    settled_values,
    SuperpositionModel,
    survivors,
    total_response,
};
use crate::superposition_laws::{
    all_settled,
    final_values,
    lemma_nothing_settles_before,
    lemma_nothing_settles_before_it_starts,
    lemma_settled_accumulator_is_its_offset,
    lemma_step_keeps_settled_value,
    unsettled,
};
use vstd::prelude::*;

verus! {

/// One call of a run: its time, its input and the responses that the input
/// spawns.
pub struct Call {
    pub t: Time,
    pub input: Ratio,
    pub spawned: Seq<ElementaryResponse>,
}

/// What the output tends to when the input stays as it is: the offset and
/// the final values of the active responses.
pub open spec fn settled_value(state: SuperpositionModel) -> int {
    state.offset@ + final_values(state.responses, state.responses.len())
}

/// A successful step went with the answers `gauges` and `readings` of the
/// kernel.
pub open spec fn went_with(
    from: SuperpositionModel,
    call: Call,
    kernel: KernelRelation,
    gauges: Seq<i64>,
    readings: Seq<KernelReading>,
    to: SuperpositionModel,
    result: SimulatorResult<Ratio>,
) -> bool {
    &&& answers_fine(kernel, from.gauge_plan(call.spawned), gauges)
    &&& from.plan_defined(call.t, call.spawned, gauges)
    &&& answers_all(kernel, from.plan_queries(call.t, call.spawned, gauges), readings)
    &&& fits(from.output(call.t, call.spawned, gauges, readings))
    &&& result matches Ok(v) && v@ == from.output(call.t, call.spawned, gauges, readings)
    &&& to == from.advanced(call.t, call.input, call.spawned, gauges)
}

/// One call of a run leads from `from` to `to` with `result`: a step of the
/// accumulator that succeeds, or a failure, which changes nothing.
pub open spec fn is_step(
    from: SuperpositionModel,
    call: Call,
    kernel: KernelRelation,
    to: SuperpositionModel,
    result: SimulatorResult<Ratio>,
) -> bool {
    if result is Ok {
        from.step_result(call.t, call.input, call.spawned, kernel, to, result)
    } else {
        to == from
    }
}

/// The calls `calls` lead with the kernel `kernel` through `states`, from
/// the first to the last, and return `results`.
pub open spec fn is_run(
    states: Seq<SuperpositionModel>,
    calls: Seq<Call>,
    kernel: KernelRelation,
    results: Seq<SimulatorResult<Ratio>>,
) -> bool {
    &&& states.len() == calls.len() + 1
    &&& results.len() == calls.len()
    &&& forall|i: int|
        0 <= i < calls.len() ==> is_step(
            states[i],
            #[trigger] calls[i],
            kernel,
            states[i + 1],
            results[i],
        )
}

/// The final values of what the successful among the first `n` calls
/// spawned.
pub open spec fn spawned_values(
    calls: Seq<Call>,
    results: Seq<SimulatorResult<Ratio>>,
    n: nat,
) -> int
    decreases n,
{
    if n == 0 {
        0
    } else if results[n - 1] is Ok {
        spawned_values(calls, results, (n - 1) as nat) + final_values(
            calls[n - 1].spawned,
            calls[n - 1].spawned.len(),
        )
    } else {
        spawned_values(calls, results, (n - 1) as nat)
    }
}

/// A step that succeeds went with some answers of the kernel; the lemma
/// gives them.
pub proof fn lemma_successful_step(
    from: SuperpositionModel,
    call: Call,
    kernel: KernelRelation,
    to: SuperpositionModel,
    result: SimulatorResult<Ratio>,
) -> (answers: (Seq<i64>, Seq<KernelReading>))
    requires
        from.step_result(call.t, call.input, call.spawned, kernel, to, result),
        result is Ok,
    ensures
        went_with(from, call, kernel, answers.0, answers.1, to, result),
{
    let gauges = choose|gauges: Seq<i64>|
        {
            &&& #[trigger] answers_fine(kernel, from.gauge_plan(call.spawned), gauges)
            &&& if from.plan_defined(call.t, call.spawned, gauges) {
                exists|readings: Seq<KernelReading>|
                    {
                        &&& #[trigger] answers_all(
                            kernel,
                            from.plan_queries(call.t, call.spawned, gauges),
                            readings,
                        )
                        &&& from.outcome(
                            call.t,
                            call.input,
                            call.spawned,
                            gauges,
                            readings,
                            to,
                            result,
                        )
                    }
            } else {
                result == crate::errors::out_of_range::<Ratio>() && to == from
            }
        };
    let readings = choose|readings: Seq<KernelReading>|
        {
            &&& #[trigger] answers_all(
                kernel,
                from.plan_queries(call.t, call.spawned, gauges),
                readings,
            )
            &&& from.outcome(call.t, call.input, call.spawned, gauges, readings, to, result)
        };
    (gauges, readings)
}

/// One call moves the settled value by the final values of what it spawns,
/// and by nothing where it fails; it records the input where it succeeds.
pub proof fn lemma_step_moves_settled_value(
    from: SuperpositionModel,
    call: Call,
    kernel: KernelRelation,
    to: SuperpositionModel,
    result: SimulatorResult<Ratio>,
)
    requires
        is_step(from, call, kernel, to, result),
    ensures
        result is Ok ==> settled_value(to) == settled_value(from) + final_values(
            call.spawned,
            call.spawned.len(),
        ) && to.previous_timestep_input == call.input,
        result is Err ==> to == from,
        to.delay == from.delay,
{
    if result is Ok {
        let answers = lemma_successful_step(from, call, kernel, to, result);
        lemma_step_keeps_settled_value(from, call.t, call.input, call.spawned, answers.0);
    }
}

/// The settled value over a run.  After any number of calls the offset and
/// the final values of the active responses add up to what they were at
/// first plus the final values of all that the successful calls spawned:
/// whatever was pruned, and whenever, nothing is lost and nothing counted
/// twice.
pub proof fn lemma_run_keeps_settled_value(
    states: Seq<SuperpositionModel>,
    calls: Seq<Call>,
    kernel: KernelRelation,
    results: Seq<SimulatorResult<Ratio>>,
    n: nat,
)
    requires
        is_run(states, calls, kernel, results),
        n <= calls.len(),
    ensures
        settled_value(states[n as int]) == settled_value(states[0]) + spawned_values(
            calls,
            results,
            n,
        ),
        states[n as int].delay == states[0].delay,
    decreases n,
{
    if n > 0 {
        lemma_run_keeps_settled_value(states, calls, kernel, results, (n - 1) as nat);
        assert(is_step(states[n - 1], calls[n - 1], kernel, states[n - 1 + 1], results[n - 1]));
        lemma_step_moves_settled_value(
            states[n - 1],
            calls[n - 1],
            kernel,
            states[n as int],
            results[n - 1],
        );
    }
}

/// Every response that the calls spawn tends to 0, as the decaying
/// sinusoids and exponentials do.
pub open spec fn spawns_decaying(calls: Seq<Call>) -> bool {
    forall|i: int, j: int|
        0 <= i < calls.len() && 0 <= j < calls[i].spawned.len() ==> (
        #[trigger] calls[i].spawned[j]).steady_value() == 0
}

/// Responses that all tend to 0 have no final value between them.
pub proof fn lemma_decaying_terms_have_no_final_value(list: Seq<ElementaryResponse>, n: nat)
    requires
        n <= list.len(),
        forall|j: int| 0 <= j < list.len() ==> (#[trigger] list[j]).steady_value() == 0,
    ensures
        final_values(list, n) == 0,
    decreases n,
{
    if n > 0 {
        lemma_decaying_terms_have_no_final_value(list, (n - 1) as nat);
    }
}

/// What only decays settles to nothing.  Over any run in which every
/// spawned response tends to 0, the offset and the final values of the
/// active responses add up to what they were at first: the parts of a
/// transfer function that answer with decaying sinusoids or exponentials
/// leave its final value alone.
pub proof fn lemma_run_of_decaying_terms_keeps_settled_value(
    states: Seq<SuperpositionModel>,
    calls: Seq<Call>,
    kernel: KernelRelation,
    results: Seq<SimulatorResult<Ratio>>,
    n: nat,
)
    requires
        is_run(states, calls, kernel, results),
        spawns_decaying(calls),
        n <= calls.len(),
    ensures
        spawned_values(calls, results, n) == 0,
        settled_value(states[n as int]) == settled_value(states[0]),
    decreases n,
{
    lemma_run_keeps_settled_value(states, calls, kernel, results, n);
    if n > 0 {
        lemma_run_of_decaying_terms_keeps_settled_value(
            states,
            calls,
            kernel,
            results,
            (n - 1) as nat,
        );
        let spawned = calls[n - 1].spawned;
        assert forall|j: int| 0 <= j < spawned.len() implies (#[trigger] spawned[j]).steady_value()
            == 0 by {
            assert(calls[n - 1].spawned[j].steady_value() == 0);
        }
        lemma_decaying_terms_have_no_final_value(spawned, spawned.len());
    }
}

/// Every successful call of the run spawns, where it changes the input,
/// responses whose final values add up to `gain` times the increment, and
/// nothing where it does not.
pub open spec fn spawns_gain(
    states: Seq<SuperpositionModel>,
    calls: Seq<Call>,
    results: Seq<SimulatorResult<Ratio>>,
    gain: int,
) -> bool {
    forall|i: int|
        0 <= i < calls.len() && results[i] is Ok ==> final_values(
            (#[trigger] calls[i]).spawned,
            calls[i].spawned.len(),
        ) == if calls[i].input@ != states[i].previous_timestep_input@ {
            scaled_product(states[i].increment(calls[i].input), gain)
        } else {
            0
        }
}

/// `moved` is `gain` times `change`, all three in billionths, to within
/// half a billionth for each of `n` calls.
pub open spec fn within_half_per_call(moved: int, gain: int, change: int, n: nat) -> bool {
    -(n * NANO) <= 2 * (NANO * moved - gain * change) <= n * NANO
}

/// The settled value follows the input.  After any number of calls of a
/// transfer function of gain `gain`, the value that the output settles to
/// has moved from where it was at first by `gain` times the whole change of
/// the input, to within half a billionth per call: each change is rounded
/// once, when its response is spawned, and never again.
pub proof fn lemma_run_settles_to_gain(
    states: Seq<SuperpositionModel>,
    calls: Seq<Call>,
    kernel: KernelRelation,
    results: Seq<SimulatorResult<Ratio>>,
    gain: int,
    n: nat,
)
    requires
        is_run(states, calls, kernel, results),
        spawns_gain(states, calls, results, gain),
        n <= calls.len(),
    ensures
        within_half_per_call(
            settled_value(states[n as int]) - settled_value(states[0]),
            gain,
            states[n as int].previous_timestep_input@ - states[0].previous_timestep_input@,
            n,
        ),
    decreases n,
{
    if n > 0 {
        lemma_run_settles_to_gain(states, calls, kernel, results, gain, (n - 1) as nat);
        let from = states[n - 1];
        let to = states[n as int];
        let call = calls[n - 1];
        assert(is_step(from, call, kernel, states[n - 1 + 1], results[n - 1]));
        lemma_step_moves_settled_value(from, call, kernel, to, results[n - 1]);
        let moved = settled_value(from) - settled_value(states[0]);
        let change = from.previous_timestep_input@ - states[0].previous_timestep_input@;
        if results[n - 1] is Ok {
            let step = call.input@ - from.previous_timestep_input@;
            let gained = final_values(call.spawned, call.spawned.len());
            if step == 0 {
                assert(gain * step == 0) by (nonlinear_arith)
                    requires
                        step == 0,
                ;
            } else {
                lemma_round_div_error(step * gain, NANO as int);
                assert(gained == scaled_product(step, gain));
                assert(NANO * gained == gained * NANO && gain * step == step * gain)
                    by (nonlinear_arith);
            }
            assert(-NANO <= 2 * (NANO * gained - gain * step) <= NANO);
            assert(2 * (NANO * (moved + gained) - gain * (change + step)) == 2 * (NANO * moved
                - gain * change) + 2 * (NANO * gained - gain * step)) by (nonlinear_arith);
            assert(n * NANO == (n - 1) * NANO + NANO) by (nonlinear_arith);
        } else {
            assert(to == from);
            assert(n * NANO == (n - 1) * NANO + NANO) by (nonlinear_arith);
        }
    } else {
        let change = states[0].previous_timestep_input@ - states[0].previous_timestep_input@;
        assert(gain * change == 0) by (nonlinear_arith)
            requires
                change == 0,
        ;
    }
}

/// A run that has settled.  Once every active response had settled at the
/// last evaluation, for whatever the kernel answers to what settling asks,
/// a call without a change of input that succeeds leaves no response
/// active and returns the new offset: the offset at first plus the final
/// values of all that the successful calls of the run spawned.
pub proof fn lemma_settled_run_returns_its_settled_value(
    states: Seq<SuperpositionModel>,
    calls: Seq<Call>,
    kernel: KernelRelation,
    results: Seq<SimulatorResult<Ratio>>,
    last: Call,
    after: SuperpositionModel,
    result: SimulatorResult<Ratio>,
)
    requires
        is_run(states, calls, kernel, results),
        last.spawned.len() == 0,
        states[calls.len() as int].step_result(
            last.t,
            last.input,
            last.spawned,
            kernel,
            after,
            result,
        ),
        result is Ok,
        forall|gauges: Seq<i64>| #[trigger]
            answers_fine(kernel, states[calls.len() as int].gauge_plan(last.spawned), gauges)
                ==> all_settled(
                states[calls.len() as int].responses,
                gauges,
                states[calls.len() as int].responses.len(),
            ),
    ensures
        after.responses.len() == 0,
        result matches Ok(v) && v == after.offset && v@ == settled_value(states[0])
            + spawned_values(calls, results, calls.len()),
{
    let before = states[calls.len() as int];
    lemma_run_keeps_settled_value(states, calls, kernel, results, calls.len());
    let answers = lemma_successful_step(before, last, kernel, after, result);
    assert(last.spawned == Seq::<ElementaryResponse>::empty());
    lemma_settled_accumulator_is_its_offset(before, last.t, last.input, answers.0, answers.1);
}

/// A step that fails changes nothing.
pub proof fn lemma_failed_step_changes_nothing(
    from: SuperpositionModel,
    call: Call,
    kernel: KernelRelation,
    to: SuperpositionModel,
    result: SimulatorResult<Ratio>,
)
    requires
        from.step_result(call.t, call.input, call.spawned, kernel, to, result),
        result is Err,
    ensures
        to == from,
{
    let gauges = choose|gauges: Seq<i64>|
        {
            &&& #[trigger] answers_fine(kernel, from.gauge_plan(call.spawned), gauges)
            &&& if from.plan_defined(call.t, call.spawned, gauges) {
                exists|readings: Seq<KernelReading>|
                    {
                        &&& #[trigger] answers_all(
                            kernel,
                            from.plan_queries(call.t, call.spawned, gauges),
                            readings,
                        )
                        &&& from.outcome(
                            call.t,
                            call.input,
                            call.spawned,
                            gauges,
                            readings,
                            to,
                            result,
                        )
                    }
            } else {
                result == crate::errors::out_of_range::<Ratio>() && to == from
            }
        };
    if from.plan_defined(call.t, call.spawned, gauges) {
        let readings = choose|readings: Seq<KernelReading>|
            {
                &&& #[trigger] answers_all(
                    kernel,
                    from.plan_queries(call.t, call.spawned, gauges),
                    readings,
                )
                &&& from.outcome(call.t, call.input, call.spawned, gauges, readings, to, result)
            };
    }
}

/// The calls at `times` with `inputs` lead a first-order transfer function
/// with the kernel `kernel` through `tfs`, from the first to the last, and
/// return `results`.
pub open spec fn is_first_order_run(
    tfs: Seq<FirstOrderStableTransferFnNoZeroes>,
    times: Seq<Time>,
    inputs: Seq<Ratio>,
    kernel: KernelRelation,
    results: Seq<SimulatorResult<Ratio>>,
) -> bool {
    &&& tfs.len() == times.len() + 1
    &&& inputs.len() == times.len()
    &&& results.len() == times.len()
    &&& forall|i: int|
        0 <= i < times.len() ==> {
            &&& tfs[i].step_result(
                #[trigger] times[i],
                inputs[i],
                kernel,
                tfs[i + 1].accumulator@,
                results[i],
            )
            &&& tfs[i + 1].process_gain == tfs[i].process_gain
            &&& tfs[i + 1].process_time == tfs[i].process_time
        }
}

/// The gain stays what it was over a run of a first-order transfer function.
pub proof fn lemma_first_order_run_keeps_gain(
    tfs: Seq<FirstOrderStableTransferFnNoZeroes>,
    times: Seq<Time>,
    inputs: Seq<Ratio>,
    kernel: KernelRelation,
    results: Seq<SimulatorResult<Ratio>>,
    n: nat,
)
    requires
        is_first_order_run(tfs, times, inputs, kernel, results),
        n <= times.len(),
    ensures
        tfs[n as int].process_gain == tfs[0].process_gain,
    decreases n,
{
    if n > 0 {
        lemma_first_order_run_keeps_gain(tfs, times, inputs, kernel, results, (n - 1) as nat);
        // naming the call brings in what the run says of it
        let at = times[n - 1];
        assert(tfs[n - 1 + 1].process_gain == tfs[n - 1].process_gain);
    }
}

/// The settled value of a first-order transfer function follows its input.
/// After any run of calls, the offset and the final values of the active
/// responses add up to what they were at first plus `Kp` times the whole
/// change of the input, to within half a billionth per call: whatever was
/// pruned on the way, the transfer function settles to its gain times its
/// input.
pub proof fn lemma_first_order_run_settles_to_gain(
    tfs: Seq<FirstOrderStableTransferFnNoZeroes>,
    times: Seq<Time>,
    inputs: Seq<Ratio>,
    kernel: KernelRelation,
    results: Seq<SimulatorResult<Ratio>>,
)
    requires
        is_first_order_run(tfs, times, inputs, kernel, results),
    ensures
        ({
            let first = tfs[0].accumulator@;
            let last = tfs[times.len() as int].accumulator@;
            within_half_per_call(
                settled_value(last) - settled_value(first),
                tfs[0].process_gain@,
                last.previous_timestep_input@ - first.previous_timestep_input@,
                times.len(),
            )
        }),
{
    let n = times.len();
    let states = Seq::new(n + 1, |i: int| tfs[i].accumulator@);
    let calls = Seq::new(
        n,
        |i: int|
            Call { t: times[i], input: inputs[i], spawned: tfs[i].spawned(times[i], inputs[i]) },
    );
    let gain = tfs[0].process_gain@;
    reveal_with_fuel(final_values, 2);
    assert forall|i: int| 0 <= i < n implies is_step(
        states[i],
        #[trigger] calls[i],
        kernel,
        states[i + 1],
        results[i],
    ) && (results[i] is Ok ==> final_values(calls[i].spawned, calls[i].spawned.len())
        == if calls[i].input@ != states[i].previous_timestep_input@ {
        scaled_product(states[i].increment(calls[i].input), gain)
    } else {
        0
    }) by {
        // naming the call brings in what the run says of it
        let at = times[i];
        lemma_first_order_run_keeps_gain(tfs, times, inputs, kernel, results, i as nat);
        if tfs[i].spawn_defined(times[i], inputs[i]) {
            if results[i] is Err {
                lemma_failed_step_changes_nothing(
                    states[i],
                    calls[i],
                    kernel,
                    states[i + 1],
                    results[i],
                );
            }
        }
    }
    lemma_run_settles_to_gain(states, calls, kernel, results, gain, n);
}

/// The calls at `times` with `inputs` lead a second-order transfer function
/// with the kernel `kernel` through `tfs`, from the first to the last, and
/// return `results`.
pub open spec fn is_second_order_run(
    tfs: Seq<SecondOrderStableTransferFnNoZeroes>,
    times: Seq<Time>,
    inputs: Seq<Ratio>,
    kernel: KernelRelation,
    results: Seq<SimulatorResult<Ratio>>,
) -> bool {
    &&& tfs.len() == times.len() + 1
    &&& inputs.len() == times.len()
    &&& results.len() == times.len()
    &&& forall|i: int|
        0 <= i < times.len() ==> {
            &&& tfs[i].step_result(
                #[trigger] times[i],
                inputs[i],
                kernel,
                tfs[i + 1].accumulator@,
                results[i],
            )
            &&& tfs[i + 1].process_gain == tfs[i].process_gain
            &&& tfs[i + 1].process_time == tfs[i].process_time
            &&& tfs[i + 1].damping_factor == tfs[i].damping_factor
        }
}

/// The gain stays what it was over a run of a second-order transfer function.
pub proof fn lemma_second_order_run_keeps_gain(
    tfs: Seq<SecondOrderStableTransferFnNoZeroes>,
    times: Seq<Time>,
    inputs: Seq<Ratio>,
    kernel: KernelRelation,
    results: Seq<SimulatorResult<Ratio>>,
    n: nat,
)
    requires
        is_second_order_run(tfs, times, inputs, kernel, results),
        n <= times.len(),
    ensures
        tfs[n as int].process_gain == tfs[0].process_gain,
    decreases n,
{
    if n > 0 {
        lemma_second_order_run_keeps_gain(tfs, times, inputs, kernel, results, (n - 1) as nat);
        // naming the call brings in what the run says of it
        let at = times[n - 1];
        assert(tfs[n - 1 + 1].process_gain == tfs[n - 1].process_gain);
    }
}

/// The settled value of a second-order transfer function follows its input.
/// After any run of calls, the offset and the final values of the active
/// responses add up to what they were at first plus `Kp` times the whole
/// change of the input, to within half a billionth per call: whatever was
/// pruned on the way, the transfer function settles to its gain times its
/// input.
pub proof fn lemma_second_order_run_settles_to_gain(
    tfs: Seq<SecondOrderStableTransferFnNoZeroes>,
    times: Seq<Time>,
    inputs: Seq<Ratio>,
    kernel: KernelRelation,
    results: Seq<SimulatorResult<Ratio>>,
)
    requires
        is_second_order_run(tfs, times, inputs, kernel, results),
    ensures
        ({
            let first = tfs[0].accumulator@;
            let last = tfs[times.len() as int].accumulator@;
            within_half_per_call(
                settled_value(last) - settled_value(first),
                tfs[0].process_gain@,
                last.previous_timestep_input@ - first.previous_timestep_input@,
                times.len(),
            )
        }),
{
    let n = times.len();
    let states = Seq::new(n + 1, |i: int| tfs[i].accumulator@);
    let calls = Seq::new(
        n,
        |i: int|
            Call { t: times[i], input: inputs[i], spawned: tfs[i].spawned(times[i], inputs[i]) },
    );
    let gain = tfs[0].process_gain@;
    reveal_with_fuel(final_values, 2);
    assert forall|i: int| 0 <= i < n implies is_step(
        states[i],
        #[trigger] calls[i],
        kernel,
        states[i + 1],
        results[i],
    ) && (results[i] is Ok ==> final_values(calls[i].spawned, calls[i].spawned.len())
        == if calls[i].input@ != states[i].previous_timestep_input@ {
        scaled_product(states[i].increment(calls[i].input), gain)
    } else {
        0
    }) by {
        // naming the call brings in what the run says of it
        let at = times[i];
        lemma_second_order_run_keeps_gain(tfs, times, inputs, kernel, results, i as nat);
        if tfs[i].spawn_defined(times[i], inputs[i]) {
            if results[i] is Err {
                lemma_failed_step_changes_nothing(
                    states[i],
                    calls[i],
                    kernel,
                    states[i + 1],
                    results[i],
                );
            }
        }
    }
    lemma_run_settles_to_gain(states, calls, kernel, results, gain, n);
}

/// What a response that was last evaluated at `last` adds to the output of
/// a call at `t`: its final value where it had settled by `last`, `gauge`
/// being the kernel's answer to what settling asks; else its value at `t`
/// for the kernel's `reading`.
pub open spec fn contribution(
    response: ElementaryResponse,
    last: Time,
    t: Time,
    gauge: i64,
    reading: KernelReading,
) -> int {
    if response.stamped(last).steady(gauge) {
        response.steady_value()
    } else {
        response.response(t, reading)
    }
}

/// The kernel's answers for two responses: what it answered to settling,
/// and its readings for the values.
pub struct TwoAnswers {
    pub first_gauge: i64,
    pub second_gauge: i64,
    pub first_reading: KernelReading,
    pub second_reading: KernelReading,
}

/// `gauge` and `reading` are what `kernel` may answer for `response`, last
/// evaluated at `last`, in a call at `t`: to what settling asks and, where
/// the response had not settled, to what its value asks.
pub open spec fn answers_for(
    kernel: KernelRelation,
    response: ElementaryResponse,
    last: Time,
    t: Time,
    gauge: i64,
    reading: KernelReading,
) -> bool {
    &&& answers_one(
        kernel,
        Transcendental::ExpNegFine,
        response.stamped(last).steady_query(),
        gauge,
    )
    &&& !response.stamped(last).steady(gauge) ==> answers(kernel, response.query(t), reading)
}

/// Stamping changes neither what a response asks for its value, nor its
/// value, nor its final value, and only the last stamp counts.
pub proof fn lemma_stamping_keeps_the_response(
    response: ElementaryResponse,
    first: Time,
    last: Time,
    t: Time,
    reading: KernelReading,
)
    ensures
        response.stamped(first).stamped(last) == response.stamped(last),
        response.stamped(last).query(t) == response.query(t),
        response.stamped(last).response(t, reading) == response.response(t, reading),
        response.stamped(last).steady_value() == response.steady_value(),
{
}

/// Superposition over three calls.  An accumulator without active
/// responses takes a change of input at `t1`, which spawns `a`, and one at
/// `t2`, which spawns `b`, neither of which has settled by then, and is
/// asked again at `t` with the input unchanged.  Then what it returns is
/// its offset at first plus what `a` adds plus what `b` adds, each by
/// itself and from its own start time: for each its final value where it
/// had settled at `t2`, else its value at `t` for the kernel's reading.
/// The lemma gives the kernel's answers that the call went with.
pub proof fn lemma_two_changes_add_up(
    start: SuperpositionModel,
    a: ElementaryResponse,
    b: ElementaryResponse,
    first: Call,
    second: Call,
    third: Call,
    kernel: KernelRelation,
    after_first: SuperpositionModel,
    after_second: SuperpositionModel,
    after_third: SuperpositionModel,
    first_result: SimulatorResult<Ratio>,
    second_result: SimulatorResult<Ratio>,
    third_result: SimulatorResult<Ratio>,
) -> (with: TwoAnswers)
    requires
        start.responses.len() == 0,
        first.spawned == seq![a],
        second.spawned == seq![b],
        third.spawned.len() == 0,
        first_result is Ok,
        second_result is Ok,
        third_result is Ok,
        is_step(start, first, kernel, after_first, first_result),
        is_step(after_first, second, kernel, after_second, second_result),
        is_step(after_second, third, kernel, after_third, third_result),
        unsettled(a),
        unsettled(a.stamped(first.t)),
        unsettled(b),
    ensures
        answers_for(kernel, a, second.t, third.t, with.first_gauge, with.first_reading),
        answers_for(kernel, b, second.t, third.t, with.second_gauge, with.second_reading),
        third_result matches Ok(v) && v@ == start.offset@ + contribution(
            a,
            second.t,
            third.t,
            with.first_gauge,
            with.first_reading,
        ) + contribution(b, second.t, third.t, with.second_gauge, with.second_reading),
{
    let s1 = after_first;
    let s2 = after_second;
    let s3 = after_third;
    // the first call: `a` joins and stays
    let w1 = lemma_successful_step(start, first, kernel, s1, first_result);
    let c1 = start.candidates(first.spawned);
    assert(c1 == seq![a]);
    lemma_nothing_settles_before(c1, w1.0, 1, 1);
    assert(c1.take(1) == c1);
    assert(s1.responses == seq![a.stamped(first.t)]);
    assert(s1.offset@ == start.offset@);
    // the second call: `b` joins, both stay
    let w2 = lemma_successful_step(s1, second, kernel, s2, second_result);
    let c2 = s1.candidates(second.spawned);
    assert(c2 == seq![a.stamped(first.t), b]);
    assert(c2[0] == a.stamped(first.t) && c2[1] == b);
    assert(!a.stamped(first.t).steady(w2.0[0]) && !b.steady(w2.0[1]));
    assert forall|i: int| 0 <= i < 2 implies !(#[trigger] c2[i]).steady(w2.0[i]) by {
        if i == 0 {
        } else {
            assert(i == 1);
        }
    }
    lemma_nothing_settles_before(c2, w2.0, 2, 2);
    assert(c2.take(2) == c2);
    let unread = KernelReading { decay: 0, second_decay: 0, sine: 0, cosine: 0 };
    lemma_stamping_keeps_the_response(a, first.t, second.t, third.t, unread);
    let a2 = a.stamped(second.t);
    let b2 = b.stamped(second.t);
    assert(s2.responses == seq![a2, b2]);
    assert(s2.offset@ == start.offset@);
    // the third call: each has settled or is evaluated
    let w3 = lemma_successful_step(s2, third, kernel, s3, third_result);
    let gauges = w3.0;
    let readings = w3.1;
    let c3 = s2.candidates(third.spawned);
    assert(c3 == seq![a2, b2]);
    reveal_with_fuel(survivors, 3);
    reveal_with_fuel(settled_values, 3);
    reveal_with_fuel(total_response, 3);
    let asked = s2.gauge_plan(third.spawned);
    assert(answers_one(kernel, Transcendental::ExpNegFine, asked[0], gauges[0]));
    assert(answers_one(kernel, Transcendental::ExpNegFine, asked[1], gauges[1]));
    let active = s2.active(third.spawned, gauges);
    let queried = s2.plan_queries(third.t, third.spawned, gauges);
    let first_settled = a2.steady(gauges[0]);
    let second_settled = b2.steady(gauges[1]);
    let first_reading = if first_settled {
        unread
    } else {
        readings[0]
    };
    let second_reading = if second_settled {
        unread
    } else if first_settled {
        readings[0]
    } else {
        readings[1]
    };
    lemma_stamping_keeps_the_response(a, first.t, second.t, third.t, first_reading);
    lemma_stamping_keeps_the_response(b, second.t, second.t, third.t, second_reading);
    if first_settled && second_settled {
        assert(active.len() == 0);
    } else if first_settled {
        assert(active == seq![b2]);
        assert(answers(kernel, queried[0], readings[0]));
    } else if second_settled {
        assert(active == seq![a2]);
        assert(answers(kernel, queried[0], readings[0]));
    } else {
        assert(active == seq![a2, b2]);
        assert(answers(kernel, queried[0], readings[0]));
        assert(answers(kernel, queried[1], readings[1]));
    }
    TwoAnswers {
        first_gauge: gauges[0],
        second_gauge: gauges[1],
        first_reading,
        second_reading,
    }
}

/// Superposition over three calls of a first-order transfer function.  The
/// transfer function, with no active response and a dead time that is not
/// negative, takes a change of input at the first call and another at the
/// second, and is asked again at the third with the input unchanged.  Then
/// the third call returns the offset at first plus, for each of the two
/// changes by itself, `Kp` times the increment once its rise had settled at
/// the second call, else the rise `Kp * increment * (1 - exp(-(t - start) /
/// tau))` from its own start time, for the kernel's reading of the
/// exponential.  The lemma gives the kernel's answers that the call went
/// with.
pub proof fn lemma_first_order_two_changes_add_up(
    tfs: Seq<FirstOrderStableTransferFnNoZeroes>,
    times: Seq<Time>,
    inputs: Seq<Ratio>,
    kernel: KernelRelation,
    results: Seq<SimulatorResult<Ratio>>,
) -> (with: TwoAnswers)
    requires
        is_first_order_run(tfs, times, inputs, kernel, results),
        times.len() == 3,
        tfs[0].wf(),
        tfs[0].accumulator.responses@.len() == 0,
        tfs[0].accumulator.delay@ >= 0,
        inputs[0]@ != tfs[0].accumulator.previous_timestep_input@,
        inputs[1]@ != inputs[0]@,
        inputs[2]@ == inputs[1]@,
        results[0] is Ok,
        results[1] is Ok,
        results[2] is Ok,
    ensures
        ({
            let a = ElementaryResponse::FirstOrder(tfs[0].rise(times[0], inputs[0]));
            let b = ElementaryResponse::FirstOrder(tfs[1].rise(times[1], inputs[1]));
            &&& answers_for(kernel, a, times[1], times[2], with.first_gauge, with.first_reading)
            &&& answers_for(kernel, b, times[1], times[2], with.second_gauge, with.second_reading)
            &&& results[2] matches Ok(v) && v@ == tfs[0].accumulator.offset@ + contribution(
                a,
                times[1],
                times[2],
                with.first_gauge,
                with.first_reading,
            ) + contribution(b, times[1], times[2], with.second_gauge, with.second_reading)
        }),
{
    let a = ElementaryResponse::FirstOrder(tfs[0].rise(times[0], inputs[0]));
    let b = ElementaryResponse::FirstOrder(tfs[1].rise(times[1], inputs[1]));
    let first = Call {
        t: times[0],
        input: inputs[0],
        spawned: tfs[0].spawned(times[0], inputs[0]),
    };
    let second = Call {
        t: times[1],
        input: inputs[1],
        spawned: tfs[1].spawned(times[1], inputs[1]),
    };
    let third = Call {
        t: times[2],
        input: inputs[2],
        spawned: tfs[2].spawned(times[2], inputs[2]),
    };
    // naming the calls brings in what the run says of them
    let t0 = times[0];
    let t1 = times[1];
    let t2 = times[2];
    assert(tfs[1].process_time == tfs[0].process_time);
    assert(tfs[2].process_time == tfs[1].process_time);
    let s0 = tfs[0].accumulator@;
    let s1 = tfs[1].accumulator@;
    let s2 = tfs[2].accumulator@;
    let s3 = tfs[3].accumulator@;
    assert(tfs[0].spawn_defined(times[0], inputs[0]));
    lemma_step_moves_settled_value(s0, first, kernel, s1, results[0]);
    assert(tfs[1].spawn_defined(times[1], inputs[1]));
    lemma_step_moves_settled_value(s1, second, kernel, s2, results[1]);
    assert(third.spawned.len() == 0);
    lemma_two_changes_add_up(
        s0,
        a,
        b,
        first,
        second,
        third,
        kernel,
        s1,
        s2,
        s3,
        results[0],
        results[1],
        results[2],
    )
}

/// Superposition over three calls of a second-order transfer function.  The
/// transfer function, with no active response and a dead time that is not
/// negative, takes a change of input at the first call and another at the
/// second, and is asked again at the third with the input unchanged.  Then
/// the third call returns the offset at first plus, for each of the two
/// changes by itself, `Kp` times the increment once its response had
/// settled at the second call, else its step response from its own start
/// time, for the kernel's readings.  The lemma gives the kernel's answers
/// that the call went with.
pub proof fn lemma_second_order_two_changes_add_up(
    tfs: Seq<SecondOrderStableTransferFnNoZeroes>,
    times: Seq<Time>,
    inputs: Seq<Ratio>,
    kernel: KernelRelation,
    results: Seq<SimulatorResult<Ratio>>,
) -> (with: TwoAnswers)
    requires
        is_second_order_run(tfs, times, inputs, kernel, results),
        times.len() == 3,
        tfs[0].wf(),
        tfs[0].accumulator.responses@.len() == 0,
        tfs[0].accumulator.delay@ >= 0,
        inputs[0]@ != tfs[0].accumulator.previous_timestep_input@,
        inputs[1]@ != inputs[0]@,
        inputs[2]@ == inputs[1]@,
        results[0] is Ok,
        results[1] is Ok,
        results[2] is Ok,
    ensures
        ({
            let a = ElementaryResponse::SecondOrder(tfs[0].answer(times[0], inputs[0]));
            let b = ElementaryResponse::SecondOrder(tfs[1].answer(times[1], inputs[1]));
            &&& answers_for(kernel, a, times[1], times[2], with.first_gauge, with.first_reading)
            &&& answers_for(kernel, b, times[1], times[2], with.second_gauge, with.second_reading)
            &&& results[2] matches Ok(v) && v@ == tfs[0].accumulator.offset@ + contribution(
                a,
                times[1],
                times[2],
                with.first_gauge,
                with.first_reading,
            ) + contribution(b, times[1], times[2], with.second_gauge, with.second_reading)
        }),
{
    let a = ElementaryResponse::SecondOrder(tfs[0].answer(times[0], inputs[0]));
    let b = ElementaryResponse::SecondOrder(tfs[1].answer(times[1], inputs[1]));
    let first = Call {
        t: times[0],
        input: inputs[0],
        spawned: tfs[0].spawned(times[0], inputs[0]),
    };
    let second = Call {
        t: times[1],
        input: inputs[1],
        spawned: tfs[1].spawned(times[1], inputs[1]),
    };
    let third = Call {
        t: times[2],
        input: inputs[2],
        spawned: tfs[2].spawned(times[2], inputs[2]),
    };
    // naming the calls brings in what the run says of them
    let t0 = times[0];
    let t1 = times[1];
    let t2 = times[2];
    assert(tfs[1].process_time == tfs[0].process_time);
    assert(tfs[2].process_time == tfs[1].process_time);
    assert(tfs[1].damping_factor == tfs[0].damping_factor);
    let s0 = tfs[0].accumulator@;
    let s1 = tfs[1].accumulator@;
    let s2 = tfs[2].accumulator@;
    let s3 = tfs[3].accumulator@;
    assert(tfs[0].spawn_defined(times[0], inputs[0]));
    lemma_step_moves_settled_value(s0, first, kernel, s1, results[0]);
    assert(tfs[1].spawn_defined(times[1], inputs[1]));
    lemma_step_moves_settled_value(s1, second, kernel, s2, results[1]);
    assert(third.spawned.len() == 0);
    lemma_nothing_settles_before_it_starts(a);
    lemma_nothing_settles_before_it_starts(b);
    assert(a.stamped(first.t) == a);
    lemma_two_changes_add_up(
        s0,
        a,
        b,
        first,
        second,
        third,
        kernel,
        s1,
        s2,
        s3,
        results[0],
        results[1],
        results[2],
    )
}

} // verus!
