use process_control_simulator::controllers::integral_controller::IntegralController;
use process_control_simulator::controllers::proportional_controller::ProportionalController;
use process_control_simulator::controllers::AnalogController;
use process_control_simulator::errors::ChemEngProcessControlSimulatorError;
use process_control_simulator::kernel::Transcendental;
use process_control_simulator::quantities::{Ratio, Time, TimeSquared};
use process_control_simulator::stable_transfer_functions::first_order_transfer_fn::FirstOrderStableTransferFnNoZeroes;
use process_control_simulator::stable_transfer_functions::first_order_transfer_fn_with_zeroes::FirstOrderStableTransferFnForZeroes;
use process_control_simulator::stable_transfer_functions::second_order_transfer_fn::SecondOrderStableTransferFnNoZeroes;
use process_control_simulator::transfer_fn_wrapper_and_enums::generic_first_order::TransferFnFirstOrder;
use process_control_simulator::transfer_fn_wrapper_and_enums::generic_second_order::TransferFnSecondOrder;
use process_control_simulator::transfer_fn_wrapper_and_enums::{TransferFn, TransferFnTraits};

fn to_nano(x: f64) -> i64 {
    (x * 1e9).round() as i64
}

fn to_float(n: i64) -> f64 {
    n as f64 / 1e9
}

fn wide_to_float(n: i128) -> f64 {
    n as f64 / 1e9
}

fn ratio(x: f64) -> Ratio {
    Ratio::from_nano(to_nano(x))
}

fn seconds(x: f64) -> Time {
    Time::from_nano(to_nano(x))
}

fn square_seconds(x: f64) -> TimeSquared {
    TimeSquared::from_nano(to_nano(x))
}

fn float_kernel(function: Transcendental, x: i128) -> i64 {
    let x = wide_to_float(x);
    match function {
        Transcendental::ExpNeg => to_nano((-x).exp()),
        Transcendental::ExpNegFine => ((-x).exp() * 1e18).round() as i64,
        Transcendental::Sine => to_nano(x.sin()),
        Transcendental::Cosine => to_nano(x.cos()),
    }
}

fn underdamped() -> TransferFnSecondOrder {
    TransferFnSecondOrder::new(
        square_seconds(0.5),
        seconds(1.0),
        ratio(3.0),
        square_seconds(2.0),
        seconds(1.0),
        ratio(1.0),
    )
    .unwrap()
}

#[test]
fn two_steps_are_the_sum_of_each_step_alone() {
    let amplitudes = [(1.0, 2.5), (-1.0, 0.5), (3.0, -3.0), (0.25, 0.75)];
    for (first, second) in amplitudes {
        let mut both = underdamped();
        let mut only_first = underdamped();
        let mut only_second = underdamped();
        for step in 0..200 {
            let t = seconds(0.1 * step as f64);
            let (u_both, u_first, u_second) = if step < 10 {
                (0.0, 0.0, 0.0)
            } else if step < 45 {
                (first, first, 0.0)
            } else {
                (first + second, first, second)
            };
            let whole = both
                .set_user_input_and_calc(ratio(u_both), t, &float_kernel)
                .unwrap();
            let a = only_first
                .set_user_input_and_calc(ratio(u_first), t, &float_kernel)
                .unwrap();
            let b = only_second
                .set_user_input_and_calc(ratio(u_second), t, &float_kernel)
                .unwrap();
            assert_eq!(whole.nano, a.nano + b.nano);
        }
    }
}

#[test]
fn first_order_two_steps_are_the_sum_of_each_step_alone() {
    let make = || {
        FirstOrderStableTransferFnNoZeroes::new(ratio(1.7), seconds(0.8), ratio(0.0), ratio(0.0), seconds(0.3))
            .unwrap()
    };
    let (mut both, mut only_first, mut only_second) = (make(), make(), make());
    for step in 0..400 {
        let t = seconds(0.1 * step as f64);
        let (u_both, u_first, u_second) = if step < 5 {
            (0.0, 0.0, 0.0)
        } else if step < 20 {
            (2.0, 2.0, 0.0)
        } else {
            (-1.0, 2.0, -3.0)
        };
        let whole = both
            .set_user_input_and_calc_output(t, ratio(u_both), &float_kernel)
            .unwrap();
        let a = only_first
            .set_user_input_and_calc_output(t, ratio(u_first), &float_kernel)
            .unwrap();
        let b = only_second
            .set_user_input_and_calc_output(t, ratio(u_second), &float_kernel)
            .unwrap();
        assert_eq!(whole.nano, a.nano + b.nano);
    }
}

#[test]
fn pruning_ends_and_leaves_the_final_value() {
    let mut tf =
        FirstOrderStableTransferFnNoZeroes::new(ratio(2.0), seconds(1.5), ratio(0.0), ratio(0.0), seconds(0.5))
            .unwrap();
    let inputs = [1.0, 1.0, -2.0, 0.5, 0.5, 3.0, 3.0, 3.0, 1.25];
    let mut longest = 0;
    for (step, u) in inputs.iter().enumerate() {
        tf.set_user_input_and_calc_output(seconds(step as f64), ratio(*u), &float_kernel)
            .unwrap();
        longest = longest.max(tf.accumulator.responses.len());
    }
    assert_eq!(longest, 5);
    // 25 time constants after the last change and its dead time
    let end = 8.0 + 0.5 + 25.0 * 1.5;
    tf.set_user_input_and_calc_output(seconds(end), ratio(1.25), &float_kernel)
        .unwrap();
    let out = tf
        .set_user_input_and_calc_output(seconds(end + 0.1), ratio(1.25), &float_kernel)
        .unwrap();
    assert_eq!(tf.accumulator.responses.len(), 0);
    assert!((to_float(tf.accumulator.offset.nano) - 2.0 * 1.25).abs() < 1e-6);
    assert_eq!(out, tf.accumulator.offset);
    assert_eq!(tf.accumulator.offset, ratio(2.5));
}

#[test]
fn pruning_ends_for_second_order_systems() {
    let mut tf = underdamped();
    for step in 0..30 {
        let u = if step % 7 < 3 { 1.0 } else { -0.5 };
        tf.set_user_input_and_calc(ratio(u), seconds(step as f64), &float_kernel)
            .unwrap();
    }
    // zeta = 1 / (2 sqrt 2), tau = sqrt 2: tau / zeta = 4 s, and 1 / lambda = 4 s
    let end = 29.0 + 25.0 * 4.0;
    tf.set_user_input_and_calc(ratio(1.0), seconds(end), &float_kernel)
        .unwrap();
    let out = tf
        .set_user_input_and_calc(ratio(1.0), seconds(end + 1.0), &float_kernel)
        .unwrap();
    match tf {
        TransferFnSecondOrder::StableUnderdamped(no_zeroes, cosine, sine) => {
            assert_eq!(no_zeroes.accumulator.responses.len(), 0);
            assert_eq!(cosine.accumulator.responses.len(), 0);
            assert_eq!(sine.accumulator.responses.len(), 0);
            assert!((to_float(no_zeroes.accumulator.offset.nano) - 3.0).abs() < 1e-6);
            assert_eq!(cosine.accumulator.offset, ratio(0.0));
            assert_eq!(sine.accumulator.offset, ratio(0.0));
        }
        _ => panic!("not underdamped"),
    }
    assert!((to_float(out.nano) - 3.0).abs() < 1e-6);
}

#[test]
fn dead_time_shifts_the_response() {
    for delay_steps in [5usize, 20, 73] {
        let mut plain = underdamped();
        let mut delayed = underdamped();
        delayed.set_dead_time(Time::from_nano(100_000_000 * delay_steps as i64));
        let mut plain_outputs = vec![];
        for step in 0..400usize {
            let t = Time::from_nano(100_000_000 * step as i64);
            let u = if step < 3 {
                0.0
            } else if step < 60 {
                2.0
            } else {
                -1.0
            };
            plain_outputs.push(
                plain
                    .set_user_input_and_calc(ratio(u), t, &float_kernel)
                    .unwrap(),
            );
            let shifted = delayed
                .set_user_input_and_calc(ratio(u), t, &float_kernel)
                .unwrap();
            if step < 3 + delay_steps {
                // nothing has started yet
                assert_eq!(shifted.nano, 0);
            } else {
                // the response without dead time, a dead time ago
                assert_eq!(shifted, plain_outputs[step - delay_steps]);
            }
        }
    }
}

#[test]
fn dead_time_output_is_zero_before_the_start_and_the_same_shape_after() {
    let delay = 1.2;
    let mut plain =
        FirstOrderStableTransferFnNoZeroes::new(ratio(2.0), seconds(1.0), ratio(0.0), ratio(0.0), seconds(0.0))
            .unwrap();
    let mut delayed =
        FirstOrderStableTransferFnNoZeroes::new(ratio(2.0), seconds(1.0), ratio(0.0), ratio(0.0), seconds(delay))
            .unwrap();
    // the input steps at t = 0 for both
    plain
        .set_user_input_and_calc_output(seconds(0.0), ratio(1.0), &float_kernel)
        .unwrap();
    delayed
        .set_user_input_and_calc_output(seconds(0.0), ratio(1.0), &float_kernel)
        .unwrap();
    for step in 1..200 {
        let t = 0.05 * step as f64;
        let early = delayed
            .clone()
            .set_user_input_and_calc_output(seconds(t), ratio(1.0), &float_kernel)
            .unwrap();
        if t < delay {
            assert_eq!(early.nano, 0);
        }
        let shifted = delayed
            .clone()
            .set_user_input_and_calc_output(seconds(t + delay), ratio(1.0), &float_kernel)
            .unwrap();
        let reference = plain
            .clone()
            .set_user_input_and_calc_output(seconds(t), ratio(1.0), &float_kernel)
            .unwrap();
        assert_eq!(shifted, reference);
    }
}

#[test]
fn stabilising_ramps_changes_no_output() {
    // the same inputs, asked at different times in between: the integral at the end is the same
    let mut coarse = IntegralController::new(ratio(1.3), seconds(0.7)).unwrap();
    let mut fine = IntegralController::new(ratio(1.3), seconds(0.7)).unwrap();
    let changes = [(0.0, 1.0), (0.4, -2.0), (2.0, 0.5), (2.1, 4.0), (9.0, -1.0)];
    for (at, u) in changes {
        coarse
            .set_user_input_and_calc(ratio(u), seconds(at), &float_kernel)
            .unwrap();
    }
    let mut current = 0.0;
    let mut index = 0;
    for step in 0..=1000 {
        let t = 0.01 * step as f64;
        while index < changes.len() && changes[index].0 <= t + 1e-12 {
            current = changes[index].1;
            index += 1;
        }
        fine.set_user_input_and_calc(ratio(current), seconds(t), &float_kernel)
            .unwrap();
    }
    let at_end_coarse = coarse
        .set_user_input_and_calc(ratio(-1.0), seconds(10.0), &float_kernel)
        .unwrap();
    let at_end_fine = fine
        .set_user_input_and_calc(ratio(-1.0), seconds(10.0), &float_kernel)
        .unwrap();
    assert_eq!(at_end_coarse, at_end_fine);
    assert!(fine.delayed_ramp_fn_vectors.len() <= 1);
}

#[test]
fn log_file_names() {
    let first = TransferFnFirstOrder::new(seconds(1.0), ratio(1.0), seconds(1.0), ratio(1.0), seconds(0.0))
        .unwrap();
    assert_eq!(
        first.log_file_name("demo_".to_string()),
        Ok("demo_1st_ord_transfer_fn_stable.csv".to_string())
    );
    assert_eq!(
        TransferFnFirstOrder::Unstable.log_file_name("demo_".to_string()),
        Err(ChemEngProcessControlSimulatorError::UnimplementedRegime)
    );
    let under = underdamped();
    assert_eq!(
        under.log_file_name("demo_".to_string()),
        Ok("demo_2nd_ord_transfer_fn_stable_underdamped.csv".to_string())
    );
    let critical = TransferFnSecondOrder::new(
        square_seconds(0.0),
        seconds(0.0),
        ratio(1.0),
        square_seconds(1.0),
        seconds(2.0),
        ratio(1.0),
    )
    .unwrap();
    assert_eq!(
        critical.log_file_name("demo_".to_string()),
        Ok("demo_2nd_ord_transfer_fn_stable_critdamped.csv".to_string())
    );
    let generic: TransferFn = critical.into();
    assert_eq!(
        generic.log_file_name("x".to_string()),
        Ok("x2nd_ord_transfer_fn_stable_critdamped.csv".to_string())
    );
    let pid = AnalogController::new_filtered_pid_controller(ratio(1.0), seconds(1.0), seconds(1.0), ratio(0.1))
        .unwrap();
    assert_eq!(
        pid.log_file_name("loop".to_string()),
        Ok("loop_PID_controller.csv".to_string())
    );
    let pi = AnalogController::new_pi_controller(ratio(1.0), seconds(1.0)).unwrap();
    assert_eq!(
        pi.log_file_name("loop".to_string()),
        Ok("loop_PI_controller.csv".to_string())
    );
    let p = ProportionalController::default();
    assert_eq!(
        p.log_file_name("loop".to_string()),
        Ok("loop_proportional_controller_1st_ord_transfer_fn_stable.csv".to_string())
    );
    assert_eq!(
        AnalogController::P(p).log_file_name("loop".to_string()),
        Ok("loop_proportional_controller_1st_ord_transfer_fn_stable.csv".to_string())
    );
    let i = IntegralController::new(ratio(1.0), seconds(1.0)).unwrap();
    assert_eq!(
        AnalogController::IntegralStandalone(i).log_file_name("loop".to_string()),
        Ok("loop_integral_controller.csv".to_string())
    );
}

fn drive<T: TransferFnTraits>(element: &mut T) -> Vec<Ratio> {
    assert!(element.is_valid());
    assert!(element
        .log_file_name("run".to_string())
        .unwrap()
        .starts_with("run"));
    element.set_dead_time(seconds(0.2));
    let mut outputs = vec![];
    for step in 0..30 {
        let u = if step < 4 { 0.0 } else { 1.0 };
        outputs.push(
            element
                .set_user_input_and_calc(ratio(u), seconds(0.1 * step as f64), &float_kernel)
                .unwrap(),
        );
    }
    outputs
}

#[test]
fn every_element_can_be_driven_through_the_common_interface() {
    let mut pid: AnalogController =
        AnalogController::new_filtered_pid_controller(ratio(2.0), seconds(3.0), seconds(0.5), ratio(0.2))
            .unwrap();
    let mut same = pid.clone();
    let through_trait = drive(&mut pid);
    same.set_dead_time(seconds(0.2));
    for (step, out) in through_trait.iter().enumerate() {
        let u = if step < 4 { 0.0 } else { 1.0 };
        assert_eq!(
            same.set_user_input_and_calc(ratio(u), seconds(0.1 * step as f64), &float_kernel),
            Ok(*out)
        );
    }
    let mut tf: TransferFn = underdamped().into();
    let outputs = drive(&mut tf);
    assert_eq!(outputs[5].nano, 0);
    assert!(outputs[29].nano != 0);
    let mut second = SecondOrderStableTransferFnNoZeroes::default();
    second
        .set_user_input_and_calc_output(seconds(0.0), ratio(1.0), &float_kernel)
        .unwrap();
    assert_eq!(second.accumulator.responses.len(), 1);
}

#[test]
fn what_the_zero_adds_settles_to_nothing() {
    let mut tf = FirstOrderStableTransferFnForZeroes::new(
        ratio(3.0),
        seconds(0.5),
        ratio(0.0),
        ratio(0.0),
        seconds(0.25),
    )
    .unwrap();
    for (step, u) in [1.0, -2.0, 0.3, 0.3, 7.0].iter().enumerate() {
        tf.set_user_input_and_calc_output(seconds(step as f64), ratio(*u), &float_kernel)
            .unwrap();
    }
    tf.set_user_input_and_calc_output(seconds(20.0), ratio(7.0), &float_kernel)
        .unwrap();
    let out = tf
        .set_user_input_and_calc_output(seconds(21.0), ratio(7.0), &float_kernel)
        .unwrap();
    assert_eq!(tf.accumulator.responses.len(), 0);
    assert_eq!(tf.accumulator.offset, ratio(0.0));
    assert_eq!(out, ratio(0.0));
}

#[test]
fn a_settled_response_stays_settled() {
    let mut tf =
        FirstOrderStableTransferFnNoZeroes::new(ratio(2.0), seconds(1.0), ratio(0.0), ratio(0.0), seconds(0.0))
            .unwrap();
    tf.set_user_input_and_calc_output(seconds(0.0), ratio(1.0), &float_kernel)
        .unwrap();
    tf.set_user_input_and_calc_output(seconds(20.5), ratio(1.0), &float_kernel)
        .unwrap();
    // settled at 20.5 s, folded at the next step, whenever that is
    let mut soon = tf.clone();
    let mut late = tf.clone();
    let a = soon
        .set_user_input_and_calc_output(seconds(20.6), ratio(1.0), &float_kernel)
        .unwrap();
    let b = late
        .set_user_input_and_calc_output(seconds(1000.0), ratio(1.0), &float_kernel)
        .unwrap();
    assert_eq!(a, ratio(2.0));
    assert_eq!(b, ratio(2.0));
    assert_eq!(soon.accumulator.responses.len(), 0);
    assert_eq!(late.accumulator.responses.len(), 0);
}

#[test]
fn the_settled_value_follows_the_input_over_a_run() {
    // a gain that no product with the increments hits exactly: every change is rounded once
    let gain = Ratio::from_nano(333_333_333);
    let mut first =
        FirstOrderStableTransferFnNoZeroes::new(gain, seconds(1.5), ratio(0.25), ratio(-1.0), seconds(0.5))
            .unwrap();
    let mut second = SecondOrderStableTransferFnNoZeroes::new(
        gain,
        seconds(1.5),
        ratio(0.7),
        ratio(0.25),
        ratio(-1.0),
        seconds(0.5),
    )
    .unwrap();
    let inputs = [1.0, 1.0, -2.0, 0.5, 0.5, 3.0, 3.0, 3.0, 1.25, 0.1, 0.2, 0.3, 7.77, 7.77];
    let mut calls: i128 = 0;
    for (step, u) in inputs.iter().enumerate() {
        let t = seconds(7.0 * step as f64);
        first.set_user_input_and_calc_output(t, ratio(*u), &float_kernel).unwrap();
        second.set_user_input_and_calc_output(t, ratio(*u), &float_kernel).unwrap();
        calls += 1;
        for accumulator in [&first.accumulator, &second.accumulator] {
            let mut settled = accumulator.offset.nano as i128;
            for response in accumulator.responses.iter() {
                settled += response.steady_state_value().nano as i128;
            }
            let moved = settled - (-1_000_000_000);
            let change = (accumulator.previous_timestep_input.nano - 250_000_000) as i128;
            // the initial value plus the gain times the whole change, to half a billionth per call
            let error = 2 * (1_000_000_000 * moved - 333_333_333 * change);
            assert!(error.abs() <= calls * 1_000_000_000);
        }
    }
    // once all has settled, a call returns that value and holds no response
    for tf_output in [
        {
            first.set_user_input_and_calc_output(seconds(500.0), ratio(7.77), &float_kernel).unwrap();
            let out = first
                .set_user_input_and_calc_output(seconds(501.0), ratio(7.77), &float_kernel)
                .unwrap();
            assert_eq!(first.accumulator.responses.len(), 0);
            assert_eq!(out, first.accumulator.offset);
            out
        },
        {
            second.set_user_input_and_calc_output(seconds(500.0), ratio(7.77), &float_kernel).unwrap();
            let out = second
                .set_user_input_and_calc_output(seconds(501.0), ratio(7.77), &float_kernel)
                .unwrap();
            assert_eq!(second.accumulator.responses.len(), 0);
            assert_eq!(out, second.accumulator.offset);
            out
        },
    ] {
        // -1 + (7.77 - 0.25) / 3, within the roundings of the changes
        assert!((tf_output.nano - 1_506_666_664).abs() <= 8);
    }
}

#[test]
fn two_changes_add_up_over_three_calls() {
    let gain = ratio(1.7);
    let mut tf =
        FirstOrderStableTransferFnNoZeroes::new(gain, seconds(0.8), ratio(0.5), ratio(3.0), seconds(0.3)).unwrap();
    tf.set_user_input_and_calc_output(seconds(1.0), ratio(2.0), &float_kernel).unwrap();
    tf.set_user_input_and_calc_output(seconds(2.0), ratio(-1.0), &float_kernel).unwrap();
    let out = tf
        .set_user_input_and_calc_output(seconds(4.0), ratio(-1.0), &float_kernel)
        .unwrap();
    // each change by itself, from its own start: 1.7 * 1.5 * (1 - exp(-2.7 / 0.8)) and
    // 1.7 * -3 * (1 - exp(-1.7 / 0.8)), each rounded once
    let rise = |increment: f64, elapsed: f64| {
        let e = to_nano((-elapsed / 0.8f64).exp()) as i128;
        let product = to_nano(1.7 * increment) as i128 * (1_000_000_000 - e);
        let half = if product >= 0 { 500_000_000 } else { -500_000_000 };
        ((product + half) / 1_000_000_000) as i64
    };
    assert_eq!(out.nano, 3_000_000_000 + rise(1.5, 2.7) + rise(-3.0, 1.7));
    // the first has settled at the next call but one, and adds its final value from then on
    tf.set_user_input_and_calc_output(seconds(18.0), ratio(-1.0), &float_kernel).unwrap();
    let out = tf
        .set_user_input_and_calc_output(seconds(18.2), ratio(-1.0), &float_kernel)
        .unwrap();
    assert_eq!(tf.accumulator.responses.len(), 1);
    assert_eq!(out.nano, 3_000_000_000 + to_nano(1.7 * 1.5) + rise(-3.0, 15.9));
}

#[test]
fn the_opposite_input_gives_the_opposite_output() {
    let mut there = underdamped();
    let mut back = underdamped();
    let mut lag =
        FirstOrderStableTransferFnNoZeroes::new(ratio(0.37), seconds(0.8), ratio(0.0), ratio(0.0), seconds(0.3))
            .unwrap();
    let mut gal = lag.clone();
    let inputs = [0.3, 0.3, -1.7, 2.9, 2.9, 0.001, 5.5];
    let mut seen = 0;
    for step in 0..140 {
        let t = seconds(0.25 * step as f64);
        let u = inputs[step / 20];
        let out = there.set_user_input_and_calc(ratio(u), t, &float_kernel).unwrap();
        let opposite = back.set_user_input_and_calc(ratio(-u), t, &float_kernel).unwrap();
        assert_eq!(opposite.nano, -out.nano);
        let out = lag.set_user_input_and_calc_output(t, ratio(u), &float_kernel).unwrap();
        let opposite = gal.set_user_input_and_calc_output(t, ratio(-u), &float_kernel).unwrap();
        assert_eq!(opposite.nano, -out.nano);
        if out.nano != 0 {
            seen += 1;
        }
    }
    assert!(seen > 100);
}
