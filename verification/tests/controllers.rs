use process_control_simulator::controllers::filtered_derivative_controller::FilteredDerivativeController;
use process_control_simulator::controllers::integral_controller::{IntegralController, RampResponse};
use process_control_simulator::controllers::proportional_controller::ProportionalController;
use process_control_simulator::controllers::AnalogController;
use process_control_simulator::errors::ChemEngProcessControlSimulatorError;
use process_control_simulator::kernel::Transcendental;
use process_control_simulator::quantities::{Frequency, Ratio, Time, TimeSquared};
use process_control_simulator::superposition::{add_outputs, add_three_outputs};
use process_control_simulator::transfer_fn_wrapper_and_enums::generic_second_order::TransferFnSecondOrder;

fn to_nano(x: f64) -> i64 {
    (x * 1e9).round() as i64
}

fn to_float(n: i64) -> f64 {
    n as f64 / 1e9
}

fn wide_to_float(n: i128) -> f64 {
    n as f64 / 1e9
}

fn ratio(x: f64) -> Ratio {
    Ratio::from_nano(to_nano(x))
}

fn seconds(x: f64) -> Time {
    Time::from_nano(to_nano(x))
}

fn float_kernel(function: Transcendental, x: i128) -> i64 {
    let x = wide_to_float(x);
    match function {
        Transcendental::ExpNeg => to_nano((-x).exp()),
        Transcendental::ExpNegFine => ((-x).exp() * 1e18).round() as i64,
        Transcendental::Sine => to_nano(x.sin()),
        Transcendental::Cosine => to_nano(x.cos()),
    }
}

fn close(value: Ratio, expected: f64, tolerance: f64) -> bool {
    (to_float(value.nano) - expected).abs() < tolerance
}

fn staircase(step: usize) -> f64 {
    if step < 3 {
        0.0
    } else if step < 20 {
        1.5
    } else if step < 21 {
        1.7
    } else if step < 60 {
        -0.5
    } else {
        2.0
    }
}

#[test]
fn proportional_controller_is_a_constant_gain() {
    let mut p = ProportionalController::new(ratio(2.5)).unwrap();
    for step in 0..100 {
        let t = 0.1 * step as f64;
        let u = staircase(step);
        let out = p
            .set_user_input_and_calc(ratio(u), seconds(t), &float_kernel)
            .unwrap();
        assert!(close(out, 2.5 * u, 1e-8), "t = {}", t);
    }
}

#[test]
fn proportional_controller_with_dead_time() {
    let mut p = ProportionalController::new(ratio(2.0)).unwrap();
    p.set_dead_time(seconds(1.0));
    for step in 0..100 {
        let t = 0.1 * step as f64;
        let out = p
            .set_user_input_and_calc(ratio(3.0), seconds(t), &float_kernel)
            .unwrap();
        let expected = if step < 10 { 0.0 } else { 6.0 };
        assert!(close(out, expected, 1e-8), "t = {}", t);
    }
}

#[test]
fn integral_controller_ramps() {
    // Kc = 2, tau_I = 4 s: the output is the integral of the input times 0.5
    let mut i = IntegralController::new(ratio(2.0), seconds(4.0)).unwrap();
    let mut integral = 0.0f64;
    let mut previous = 0.0f64;
    for step in 0..200 {
        let t = 0.1 * step as f64;
        let u = staircase(step);
        if step > 0 {
            integral += previous * 0.1;
        }
        previous = u;
        let out = i
            .set_user_input_and_calc(ratio(u), seconds(t), &float_kernel)
            .unwrap();
        assert!(
            close(out, 0.5 * integral, 1e-7),
            "t = {}: {} against {}",
            t,
            to_float(out.nano),
            0.5 * integral
        );
        assert!(i.delayed_ramp_fn_vectors.len() <= 2);
    }
    // every ramp older than a second has gone to the main ramp
    assert_eq!(i.delayed_ramp_fn_vectors.len(), 0);
    assert_eq!(i.main_ramp_fn.gradient_gain.nano, to_nano(0.5 * 2.0));
}

#[test]
fn integral_controller_exact_values() {
    let mut i = IntegralController::new(ratio(1.0), seconds(1.0)).unwrap();
    let k = |_f: Transcendental, _x: i128| 0i64;
    assert_eq!(i.set_user_input_and_calc(ratio(1.0), seconds(0.0), &k), Ok(ratio(0.0)));
    assert_eq!(i.set_user_input_and_calc(ratio(1.0), seconds(0.5), &k), Ok(ratio(0.5)));
    assert_eq!(i.delayed_ramp_fn_vectors.len(), 1);
    assert_eq!(i.offset, 0);
    assert_eq!(i.set_user_input_and_calc(ratio(1.0), seconds(1.0), &k), Ok(ratio(1.0)));
    assert_eq!(i.delayed_ramp_fn_vectors.len(), 0);
    assert_eq!(i.offset, 1_000_000_000_000_000_000);
    assert_eq!(i.main_ramp_fn.start_time, seconds(1.0));
    assert_eq!(i.main_ramp_fn.gradient_gain.nano, 1_000_000_000);
    assert_eq!(i.set_user_input_and_calc(ratio(3.0), seconds(2.0), &k), Ok(ratio(2.0)));
    assert_eq!(i.set_user_input_and_calc(ratio(3.0), seconds(2.5), &k), Ok(ratio(3.5)));
    assert_eq!(i.set_user_input_and_calc(ratio(3.0), seconds(4.0), &k), Ok(ratio(8.0)));
    assert_eq!(i.main_ramp_fn.gradient_gain.nano, 3_000_000_000);
    assert_eq!(i.offset, 8_000_000_000_000_000_000);
}

#[test]
fn integral_controller_with_dead_time() {
    let mut i = IntegralController::new(ratio(1.0), seconds(2.0)).unwrap();
    i.set_dead_time(seconds(3.0));
    for step in 0..100 {
        let t = 0.1 * step as f64;
        let out = i
            .set_user_input_and_calc(ratio(4.0), seconds(t), &float_kernel)
            .unwrap();
        let expected = if t < 3.0 { 0.0 } else { 2.0 * (t - 3.0) };
        assert!(close(out, expected, 1e-7), "t = {}", t);
    }
}

#[test]
fn integral_controller_rejects_non_positive_integral_time() {
    assert_eq!(
        IntegralController::new(ratio(1.0), seconds(0.0)).err(),
        Some(ChemEngProcessControlSimulatorError::UnstableDampingFactorForStableTransferFunction)
    );
    assert_eq!(
        IntegralController::new(Ratio::from_nano(i64::MAX), Time::from_nano(1)).err(),
        Some(ChemEngProcessControlSimulatorError::ValueOutOfRange)
    );
}

#[test]
fn filtered_derivative_kicks_and_decays() {
    // Kc = 2, tau_d = 3 s, alpha = 0.1: the step response is Kc / alpha exp(-t / (alpha tau_d))
    let mut d = FilteredDerivativeController::new(ratio(2.0), seconds(3.0), ratio(0.1)).unwrap();
    for step in 0..100 {
        let t = 0.05 * step as f64;
        let out = d
            .set_user_input_and_calc(ratio(1.0), seconds(t), &float_kernel)
            .unwrap();
        assert!(close(out, 20.0 * (-t / 0.3).exp(), 1e-6), "t = {}", t);
    }
}

#[test]
fn filtered_derivative_rejects_non_positive_filter_time() {
    assert_eq!(
        FilteredDerivativeController::new(ratio(2.0), seconds(3.0), ratio(0.0)).err(),
        Some(ChemEngProcessControlSimulatorError::UnimplementedRegime)
    );
    assert_eq!(
        FilteredDerivativeController::new(ratio(2.0), seconds(-3.0), ratio(0.1)).err(),
        Some(ChemEngProcessControlSimulatorError::UnimplementedRegime)
    );
    assert_eq!(
        FilteredDerivativeController::new(Ratio::from_nano(i64::MAX), seconds(3.0), ratio(0.1)).err(),
        Some(ChemEngProcessControlSimulatorError::ValueOutOfRange)
    );
}

#[test]
fn pid_is_the_sum_of_its_actions() {
    let mut pid =
        AnalogController::new_filtered_pid_controller(ratio(1.2), seconds(5.0), seconds(0.8), ratio(0.1))
            .unwrap();
    let mut p = ProportionalController::new(ratio(1.2)).unwrap();
    let mut i = IntegralController::new(ratio(1.2), seconds(5.0)).unwrap();
    let mut d = FilteredDerivativeController::new(ratio(1.2), seconds(0.8), ratio(0.1)).unwrap();
    pid.set_dead_time(seconds(0.35));
    p.set_dead_time(seconds(0.35));
    i.set_dead_time(seconds(0.35));
    d.set_dead_time(seconds(0.35));
    for step in 0..150 {
        let t = seconds(0.1 * step as f64);
        let u = ratio(staircase(step));
        let whole = pid.set_user_input_and_calc(u, t, &float_kernel).unwrap();
        let po = p.set_user_input_and_calc(u, t, &float_kernel).unwrap();
        let io = i.set_user_input_and_calc(u, t, &float_kernel).unwrap();
        let d_o = d.set_user_input_and_calc(u, t, &float_kernel).unwrap();
        assert_eq!(whole.nano, po.nano + io.nano + d_o.nano);
    }
    match pid {
        AnalogController::PIDFiltered(p2, i2, d2) => {
            assert_eq!(p2, p);
            assert_eq!(i2, i);
            assert_eq!(d2, d);
        }
        _ => panic!("not a PID controller"),
    }
}

#[test]
fn pi_controller_step_response() {
    // Kc [1 + 1 / (tau_I s)] answers a unit step with Kc (1 + t / tau_I)
    let mut pi = AnalogController::new_pi_controller(ratio(2.0), seconds(4.0)).unwrap();
    for step in 0..100 {
        let t = 0.1 * step as f64;
        let out = pi
            .set_user_input_and_calc(ratio(1.0), seconds(t), &float_kernel)
            .unwrap();
        assert!(close(out, 2.0 * (1.0 + t / 4.0), 1e-7), "t = {}", t);
    }
}

#[test]
fn other_controller_kinds_forward() {
    let p = ProportionalController::new(ratio(3.0)).unwrap();
    let i = IntegralController::new(ratio(3.0), seconds(2.0)).unwrap();
    let d = FilteredDerivativeController::new(ratio(3.0), seconds(2.0), ratio(0.5)).unwrap();
    let mut only_p = AnalogController::P(p.clone());
    let mut only_i = AnalogController::IntegralStandalone(i.clone());
    let mut only_d = AnalogController::DerivativeFilteredStandalone(d.clone());
    let mut pd = AnalogController::PDFiltered(p.clone(), d.clone());
    let (mut p, mut i, mut d) = (p, i, d);
    for step in 0..50 {
        let t = seconds(0.2 * step as f64);
        let u = ratio(staircase(step));
        let po = p.set_user_input_and_calc(u, t, &float_kernel).unwrap();
        let io = i.set_user_input_and_calc(u, t, &float_kernel).unwrap();
        let d_o = d.set_user_input_and_calc(u, t, &float_kernel).unwrap();
        assert_eq!(only_p.set_user_input_and_calc(u, t, &float_kernel), Ok(po));
        assert_eq!(only_i.set_user_input_and_calc(u, t, &float_kernel), Ok(io));
        assert_eq!(only_d.set_user_input_and_calc(u, t, &float_kernel), Ok(d_o));
        assert_eq!(
            pd.set_user_input_and_calc(u, t, &float_kernel),
            Ok(Ratio::from_nano(po.nano + d_o.nano))
        );
    }
}

#[test]
fn controller_construction_errors_in_order() {
    assert_eq!(
        AnalogController::new_pi_controller(Ratio::from_nano(i64::MIN), seconds(0.0)).err(),
        Some(ChemEngProcessControlSimulatorError::ValueOutOfRange)
    );
    assert_eq!(
        AnalogController::new_pi_controller(ratio(1.0), seconds(0.0)).err(),
        Some(ChemEngProcessControlSimulatorError::UnstableDampingFactorForStableTransferFunction)
    );
    assert_eq!(
        AnalogController::new_filtered_pid_controller(ratio(1.0), seconds(1.0), seconds(1.0), ratio(-1.0))
            .err(),
        Some(ChemEngProcessControlSimulatorError::UnimplementedRegime)
    );
}

#[test]
fn ramp_response_values() {
    let mut ramp = RampResponse::new(
        Frequency::from_nano(to_nano(0.5)),
        seconds(1.0),
        ratio(3.0),
        seconds(0.0),
    )
    .unwrap();
    assert!(!ramp.is_started_for_1s());
    assert_eq!(ramp.calculate_response(seconds(0.5)), Ok(ratio(0.0)));
    assert_eq!(ramp.calculate_response(seconds(1.0)), Ok(ratio(0.0)));
    assert_eq!(ramp.calculate_response(seconds(1.5)), Ok(ratio(0.75)));
    assert!(!ramp.is_started_for_1s());
    assert_eq!(ramp.calculate_response(seconds(2.0)), Ok(ratio(1.5)));
    assert!(ramp.is_started_for_1s());
    assert_eq!(ramp.current_time, seconds(2.0));
}

#[test]
fn pi_feedback_loop_reaches_the_set_point() {
    // process (2.5 s^2 - 0.5 s + 1) / (3 s^2 + 4 s + 4) under Kc = 0.5, Kc / tau_I = 0.3 Hz
    let mut controller =
        AnalogController::new_pi_controller(ratio(0.5), seconds(0.5 / 0.3)).unwrap();
    let mut process = TransferFnSecondOrder::new(
        TimeSquared::from_nano(to_nano(2.5)),
        seconds(-0.5),
        ratio(1.0),
        TimeSquared::from_nano(to_nano(3.0)),
        seconds(4.0),
        ratio(4.0),
    )
    .unwrap();
    let mut measurement: AnalogController = ProportionalController::new(ratio(1.0)).unwrap().into();
    measurement.set_dead_time(seconds(0.0001));
    let mut measured = ratio(0.0);
    let mut output = ratio(0.0);
    let mut longest = 0;
    for step in 0..=450 {
        let t = seconds(0.2 * step as f64);
        let set_point = if step > 25 { 5.0 } else { 0.0 };
        let error = Ratio::from_nano(to_nano(set_point) - measured.nano);
        let drive = controller.set_user_input_and_calc(error, t, &float_kernel).unwrap();
        output = process.set_user_input_and_calc(drive, t, &float_kernel).unwrap();
        measured = measurement.set_user_input_and_calc(output, t, &float_kernel).unwrap();
        if let TransferFnSecondOrder::StableUnderdamped(no_zeroes, _, _) = &process {
            longest = longest.max(no_zeroes.accumulator.responses.len());
        }
    }
    assert!(
        close(output, 5.0, 0.05),
        "the loop ended at {}",
        to_float(output.nano)
    );
    // memory is bounded by the changes within the decay window, not by the steps taken
    assert!(longest < 450, "{}", longest);
}

#[test]
fn controllers_built_by_their_constructors_are_well_formed() {
    let mut pid =
        AnalogController::new_filtered_pid_controller(ratio(1.2), seconds(5.0), seconds(0.8), ratio(0.1))
            .unwrap();
    assert!(pid.is_well_formed());
    for step in 0..40 {
        pid.set_user_input_and_calc(ratio(staircase(step)), seconds(0.1 * step as f64), &float_kernel)
            .unwrap();
        assert!(pid.is_well_formed());
    }
    assert!(ProportionalController::default().is_well_formed());
    assert!(FilteredDerivativeController::default().is_well_formed());
    let mut integral = IntegralController::new(ratio(1.0), seconds(1.0)).unwrap();
    assert!(integral.is_well_formed());
    integral.integral_time = seconds(0.0);
    assert!(!integral.is_well_formed());
}

#[test]
fn default_controllers() {
    // G(s) = 1
    let mut p = ProportionalController::default();
    assert_eq!(
        p.set_user_input_and_calc(ratio(3.5), seconds(0.0), &float_kernel),
        Ok(ratio(3.5))
    );
    // G(s) = s / (0.1 s + 1): a unit step gives 10 exp(-10 t)
    let mut d = FilteredDerivativeController::default();
    let out = d
        .set_user_input_and_calc(ratio(1.0), seconds(0.0), &float_kernel)
        .unwrap();
    assert_eq!(out, ratio(10.0));
    let out = d
        .set_user_input_and_calc(ratio(1.0), seconds(0.1), &float_kernel)
        .unwrap();
    assert!(close(out, 10.0 * (-1.0f64).exp(), 1e-7));
}

#[test]
fn integral_controller_sums_exactly_whatever_the_parts() {
    // three ramps of slope 8e9, 5e9 and -9e9 per second stabilise in one step: the first two
    // slopes alone add up to more than a quantity stores, all three do not
    let mut i = IntegralController::new(ratio(1.0), seconds(1.0)).unwrap();
    i.previous_timestep_input = Ratio::from_nano(-4_000_000_000_000_000_000);
    let k = |_f: Transcendental, _x: i128| 0i64;
    assert_eq!(
        i.set_user_input_and_calc(Ratio::from_nano(4_000_000_000_000_000_000), seconds(0.0), &k),
        Ok(ratio(0.0))
    );
    assert_eq!(
        i.set_user_input_and_calc(Ratio::from_nano(9_000_000_000_000_000_000), seconds(0.1), &k),
        Ok(Ratio::from_nano(800_000_000_000_000_000))
    );
    assert_eq!(
        i.set_user_input_and_calc(Ratio::from_nano(0), seconds(0.2), &k),
        Ok(Ratio::from_nano(2_100_000_000_000_000_000))
    );
    assert_eq!(i.delayed_ramp_fn_vectors.len(), 3);
    // 8e9 * 1.2 + 5e9 * 1.1 - 9e9 * 1.0
    assert_eq!(
        i.set_user_input_and_calc(Ratio::from_nano(0), seconds(1.2), &k),
        Ok(Ratio::from_nano(6_100_000_000_000_000_000))
    );
    assert_eq!(i.delayed_ramp_fn_vectors.len(), 0);
    assert_eq!(i.main_ramp_fn.gradient_gain.nano, 4_000_000_000_000_000_000);
    assert_eq!(i.main_ramp_fn.start_time, seconds(1.2));
    assert_eq!(i.offset, 6_100_000_000_000_000_000_000_000_000);
    // and on from there with the slope that is left: 6.1e9 + 4e9 * 0.5
    assert_eq!(
        i.set_user_input_and_calc(Ratio::from_nano(0), seconds(1.7), &k),
        Ok(Ratio::from_nano(8_100_000_000_000_000_000))
    );
    // where the output itself cannot be stored the step fails and changes nothing
    let before = i.clone();
    assert_eq!(
        i.set_user_input_and_calc(Ratio::from_nano(0), seconds(3.0), &k),
        Err(ChemEngProcessControlSimulatorError::ValueOutOfRange)
    );
    assert_eq!(i, before);
}

#[test]
fn sums_of_outputs_are_narrowed_once() {
    let big = Ratio::from_nano(7_000_000_000_000_000_000);
    let small = Ratio::from_nano(-7_000_000_000_000_000_000);
    assert_eq!(add_three_outputs(big, big, small), Ok(big));
    assert_eq!(add_three_outputs(big, small, big), Ok(big));
    assert_eq!(add_three_outputs(small, small, big), Ok(small));
    assert_eq!(add_three_outputs(ratio(1.0), ratio(2.0), ratio(-0.5)), Ok(ratio(2.5)));
    assert_eq!(
        add_three_outputs(big, big, ratio(0.0)),
        Err(ChemEngProcessControlSimulatorError::ValueOutOfRange)
    );
    assert_eq!(add_outputs(big, small), Ok(ratio(0.0)));
    assert_eq!(
        add_outputs(small, small),
        Err(ChemEngProcessControlSimulatorError::ValueOutOfRange)
    );
}
