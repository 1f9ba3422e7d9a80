use approx::AbsDiffEq;
use process_control_simulator::errors::ChemEngProcessControlSimulatorError;
use process_control_simulator::kernel::Transcendental;
use process_control_simulator::quantities::{Frequency, Ratio, Time, TimeSquared};
use process_control_simulator::stable_transfer_functions::decaying_exponentials::{
    DecayingExponential, DecayingExponentialType,
};
use process_control_simulator::stable_transfer_functions::decaying_sinusoid::{
    DecayingSinusoid, TransferFnSinusoidType,
};
use process_control_simulator::stable_transfer_functions::first_order_transfer_fn::FirstOrderStableTransferFnNoZeroes;
use process_control_simulator::stable_transfer_functions::first_order_transfer_fn_with_zeroes::FirstOrderStableTransferFnForZeroes;
use process_control_simulator::stable_transfer_functions::second_order_transfer_fn::SecondOrderStableTransferFnNoZeroes;
use process_control_simulator::transfer_fn_wrapper_and_enums::generic_first_order::TransferFnFirstOrder;
use process_control_simulator::transfer_fn_wrapper_and_enums::generic_second_order::TransferFnSecondOrder;
use process_control_simulator::transfer_fn_wrapper_and_enums::TransferFn;

fn to_nano(x: f64) -> i64 {
    (x * 1e9).round() as i64
}

fn to_float(n: i64) -> f64 {
    n as f64 / 1e9
}

fn wide_to_float(n: i128) -> f64 {
    n as f64 / 1e9
}

fn ratio(x: f64) -> Ratio {
    Ratio::from_nano(to_nano(x))
}

fn seconds(x: f64) -> Time {
    Time::from_nano(to_nano(x))
}

fn hertz(x: f64) -> Frequency {
    Frequency::from_nano(to_nano(x))
}

fn square_seconds(x: f64) -> TimeSquared {
    TimeSquared::from_nano(to_nano(x))
}

fn float_kernel(function: Transcendental, x: i128) -> i64 {
    let x = wide_to_float(x);
    match function {
        Transcendental::ExpNeg => to_nano((-x).exp()),
        Transcendental::ExpNegFine => ((-x).exp() * 1e18).round() as i64,
        Transcendental::Sine => to_nano(x.sin()),
        Transcendental::Cosine => to_nano(x.cos()),
    }
}

fn close(value: Ratio, expected: f64, tolerance: f64) -> bool {
    to_float(value.nano).abs_diff_eq(&expected, tolerance)
}

#[test]
fn first_order_step_response_after_five_time_constants() {
    let mut tf =
        FirstOrderStableTransferFnNoZeroes::new(ratio(2.0), seconds(1.0), ratio(0.0), ratio(0.0), seconds(0.0))
            .unwrap();
    let at_zero = tf
        .set_user_input_and_calc_output(seconds(0.0), ratio(1.0), &float_kernel)
        .unwrap();
    assert_eq!(at_zero.nano, 0);
    let out = tf
        .set_user_input_and_calc_output(seconds(5.0), ratio(1.0), &float_kernel)
        .unwrap();
    assert!(close(out, 1.98652, 1e-3));
    assert_eq!(out.nano, 2_000_000_000 - 2 * to_nano((-5.0f64).exp()));
}

#[test]
fn first_order_rejects_non_positive_time_constant() {
    let zero = FirstOrderStableTransferFnNoZeroes::new(
        ratio(1.0),
        seconds(0.0),
        ratio(0.0),
        ratio(0.0),
        seconds(0.0),
    );
    assert_eq!(
        zero.err(),
        Some(ChemEngProcessControlSimulatorError::UnstableDampingFactorForStableTransferFunction)
    );
    let negative = FirstOrderStableTransferFnNoZeroes::new_filter(seconds(-1.0), ratio(0.0), ratio(0.0));
    assert_eq!(
        negative.err(),
        Some(ChemEngProcessControlSimulatorError::UnstableDampingFactorForStableTransferFunction)
    );
}

#[test]
fn first_order_filter_has_unit_gain() {
    let mut filter =
        FirstOrderStableTransferFnNoZeroes::new_filter(seconds(2.0), ratio(0.0), ratio(0.0)).unwrap();
    filter
        .set_user_input_and_calc_output(seconds(0.0), ratio(3.0), &float_kernel)
        .unwrap();
    let out = filter
        .set_user_input_and_calc_output(seconds(2.0), ratio(3.0), &float_kernel)
        .unwrap();
    assert!(close(out, 3.0 * (1.0 - (-1.0f64).exp()), 1e-8));
}

#[test]
fn unchanged_input_spawns_nothing() {
    let mut tf =
        FirstOrderStableTransferFnNoZeroes::new(ratio(2.0), seconds(1.0), ratio(0.0), ratio(0.0), seconds(0.0))
            .unwrap();
    tf.set_user_input_and_calc_output(seconds(0.0), ratio(1.0), &float_kernel)
        .unwrap();
    assert_eq!(tf.accumulator.responses.len(), 1);
    tf.set_user_input_and_calc_output(seconds(0.5), ratio(1.0), &float_kernel)
        .unwrap();
    assert_eq!(tf.accumulator.responses.len(), 1);
    // a change below the ninth decimal place is no change
    let same = Ratio::from_nano(to_nano(1.0 + 4e-10));
    tf.set_user_input_and_calc_output(seconds(0.6), same, &float_kernel)
        .unwrap();
    assert_eq!(tf.accumulator.responses.len(), 1);
    tf.set_user_input_and_calc_output(seconds(0.7), Ratio::from_nano(1_000_000_001), &float_kernel)
        .unwrap();
    assert_eq!(tf.accumulator.responses.len(), 2);
}

#[test]
fn critically_damped_step_response() {
    let mut tf = SecondOrderStableTransferFnNoZeroes::new(
        ratio(1.0),
        seconds(1.0),
        ratio(1.0),
        ratio(0.0),
        ratio(0.0),
        seconds(0.0),
    )
    .unwrap();
    tf.set_user_input_and_calc_output(seconds(0.0), ratio(1.0), &float_kernel)
        .unwrap();
    let out = tf
        .set_user_input_and_calc_output(seconds(1.0), ratio(1.0), &float_kernel)
        .unwrap();
    assert!(close(out, 0.2642, 1e-4));
    for step in 1..40 {
        let t = 0.25 * step as f64;
        let out = tf
            .set_user_input_and_calc_output(seconds(1.0 + t), ratio(1.0), &float_kernel)
            .unwrap();
        let expected = 1.0 - (1.0 + (1.0 + t)) * (-(1.0 + t)).exp();
        assert!(close(out, expected, 1e-7));
    }
}

#[test]
fn underdamped_step_response() {
    let zeta = 0.5f64;
    let mut tf = SecondOrderStableTransferFnNoZeroes::new(
        ratio(3.0),
        seconds(2.0),
        ratio(zeta),
        ratio(0.0),
        ratio(0.0),
        seconds(0.0),
    )
    .unwrap();
    let w = (1.0 - zeta * zeta).sqrt();
    for step in 0..60 {
        let t = 0.5 * step as f64;
        let out = tf
            .set_user_input_and_calc_output(seconds(t), ratio(2.0), &float_kernel)
            .unwrap();
        let r = t / 2.0;
        let expected =
            6.0 * (1.0 - (-zeta * r).exp() * ((w * r).cos() + zeta / w * (w * r).sin()));
        assert!(close(out, expected, 1e-6));
    }
}

#[test]
fn overdamped_step_response() {
    let zeta = 2.0f64;
    let mut tf = SecondOrderStableTransferFnNoZeroes::new(
        ratio(1.0),
        seconds(1.0),
        ratio(zeta),
        ratio(0.0),
        ratio(0.0),
        seconds(0.0),
    )
    .unwrap();
    let s = (zeta * zeta - 1.0).sqrt();
    for step in 0..60 {
        let t = 0.5 * step as f64;
        let out = tf
            .set_user_input_and_calc_output(seconds(t), ratio(1.0), &float_kernel)
            .unwrap();
        let expected = 1.0 - (-zeta * t).exp() * ((s * t).cosh() + zeta / s * (s * t).sinh());
        assert!(close(out, expected, 1e-6));
    }
}

#[test]
fn second_order_rejects_non_positive_damping() {
    let r = SecondOrderStableTransferFnNoZeroes::new(
        ratio(1.0),
        seconds(1.0),
        ratio(0.0),
        ratio(0.0),
        ratio(0.0),
        seconds(0.0),
    );
    assert_eq!(
        r.err(),
        Some(ChemEngProcessControlSimulatorError::UnstableDampingFactorForStableTransferFunction)
    );
}

#[test]
fn underdamped_oscillation_frequency() {
    let tf = TransferFnSecondOrder::new(
        square_seconds(0.0),
        seconds(0.0),
        ratio(1.0),
        square_seconds(1.0),
        seconds(1.0),
        ratio(1.0),
    )
    .unwrap();
    match tf {
        TransferFnSecondOrder::StableUnderdamped(no_zeroes, cosine, sine) => {
            assert_eq!(no_zeroes.damping_factor.nano, 500_000_000);
            assert_eq!(no_zeroes.process_time.nano, 1_000_000_000);
            assert_eq!(cosine.omega.nano, 866_025_403);
            assert_eq!(sine.omega.nano, 866_025_403);
            assert!((to_float(cosine.omega.nano) - 0.75f64.sqrt()).abs() < 1e-9);
            assert_eq!(cosine.a.nano, 500_000_000);
            assert_eq!(cosine.sinusoid_type, TransferFnSinusoidType::Cosine);
            assert_eq!(sine.sinusoid_type, TransferFnSinusoidType::Sine);
        }
        _ => panic!("not underdamped"),
    }
}

#[test]
fn second_order_regime_selection() {
    let one = ratio(1.0);
    let critical = TransferFnSecondOrder::new(
        square_seconds(0.0),
        seconds(0.0),
        one,
        square_seconds(1.0),
        seconds(2.0),
        one,
    )
    .unwrap();
    match critical {
        TransferFnSecondOrder::StableCriticallydamped(no_zeroes, decaying) => {
            assert_eq!(no_zeroes.damping_factor.nano, 1_000_000_000);
            assert_eq!(decaying.alpha.nano, 1_000_000_000);
            assert_eq!(decaying.exponent_type, DecayingExponentialType::CriticallyDamped);
        }
        _ => panic!("not critically damped"),
    }
    let overdamped = TransferFnSecondOrder::new(
        square_seconds(0.0),
        seconds(0.0),
        one,
        square_seconds(1.0),
        seconds(3.0),
        one,
    );
    assert_eq!(
        overdamped.err(),
        Some(ChemEngProcessControlSimulatorError::UnimplementedRegime)
    );
    let unstable = TransferFnSecondOrder::new(
        square_seconds(0.0),
        seconds(0.0),
        one,
        square_seconds(1.0),
        seconds(-1.0),
        one,
    );
    assert_eq!(
        unstable.err(),
        Some(ChemEngProcessControlSimulatorError::UnimplementedRegime)
    );
    let undamped = TransferFnSecondOrder::new(
        square_seconds(0.0),
        seconds(0.0),
        one,
        square_seconds(1.0),
        seconds(0.0),
        one,
    );
    assert_eq!(
        undamped.err(),
        Some(ChemEngProcessControlSimulatorError::UnstableDampingFactorForStableTransferFunction)
    );
    let no_second_order = TransferFnSecondOrder::new(
        square_seconds(0.0),
        seconds(0.0),
        one,
        square_seconds(0.0),
        seconds(1.0),
        one,
    );
    assert_eq!(
        no_second_order.err(),
        Some(ChemEngProcessControlSimulatorError::UnimplementedRegime)
    );
    let too_large = TransferFnSecondOrder::new(
        square_seconds(0.0),
        seconds(0.0),
        one,
        TimeSquared::from_nano(i64::MAX),
        seconds(1.0),
        Ratio::from_nano(i64::MAX),
    );
    assert_eq!(
        too_large.err(),
        Some(ChemEngProcessControlSimulatorError::ValueOutOfRange)
    );
}

#[test]
fn underdamped_with_zeroes_matches_closed_form() {
    // (s^2 + s + 1) / (s^2 + s + 2), the response to a unit step
    let mut tf = TransferFnSecondOrder::new(
        square_seconds(1.0),
        seconds(1.0),
        ratio(1.0),
        square_seconds(1.0),
        seconds(1.0),
        ratio(2.0),
    )
    .unwrap();
    let lambda = 0.5f64;
    let omega = (2.0f64 - 0.25).sqrt();
    for step in 0..50 {
        let t = 0.2 * step as f64;
        let out = tf
            .set_user_input_and_calc(ratio(1.0), seconds(t), &float_kernel)
            .unwrap();
        // 1/2 + e^{-t/2} [ 1/2 cos(w t) + (1/2 - 1/4)/w sin(w t) ]
        let expected = 0.5
            + (-lambda * t).exp()
                * (0.5 * (omega * t).cos() + (1.0 - lambda * 1.0 - 0.5 * lambda) / omega * (omega * t).sin());
        assert!(
            close(out, expected, 1e-6),
            "t = {}: {} against {}",
            t,
            to_float(out.nano),
            expected
        );
    }
}

#[test]
fn critically_damped_with_zeroes_matches_closed_form() {
    // (s + 1) / (s^2 + 2 s + 1) = 1 / (s + 1), the response to a unit step
    let mut tf = TransferFnSecondOrder::new(
        square_seconds(0.0),
        seconds(1.0),
        ratio(1.0),
        square_seconds(1.0),
        seconds(2.0),
        ratio(1.0),
    )
    .unwrap();
    for step in 0..50 {
        let t = 0.2 * step as f64;
        let out = tf
            .set_user_input_and_calc(ratio(1.0), seconds(t), &float_kernel)
            .unwrap();
        let expected = 1.0 - (-t).exp();
        assert!(close(out, expected, 1e-6));
    }
}

#[test]
fn test_dead_time() {
    let a1 = square_seconds(1.0);
    let b1 = seconds(1.0);
    let c1 = ratio(1.0);
    let a2 = square_seconds(1.0);
    let b2 = seconds(1.0);
    let c2 = ratio(2.0);
    let mut tf: TransferFn = TransferFnSecondOrder::new(a1, b1, c1, a2, b2, c2)
        .unwrap()
        .into();
    let dead_time = seconds(5.0);
    tf.set_dead_time(dead_time);
    if let TransferFn::SecondOrder(second_order) = tf {
        if let TransferFnSecondOrder::StableUnderdamped(
            tf_no_zeroes,
            cosine_sinusoidal_decay,
            sine_sinusoidal_decay,
        ) = second_order
        {
            assert_eq!(tf_no_zeroes.accumulator.delay, dead_time);
            assert_eq!(cosine_sinusoidal_decay.accumulator.delay, dead_time);
            assert_eq!(sine_sinusoidal_decay.accumulator.delay, dead_time);
        }
    }
}

#[test]
fn generic_second_order_test_dead_time() {
    let a1 = square_seconds(1.0);
    let b1 = seconds(1.0);
    let c1 = ratio(1.0);
    let a2 = square_seconds(1.0);
    let b2 = seconds(1.0);
    let c2 = ratio(2.0);
    let mut tf: TransferFn = TransferFnSecondOrder::new(a1, b1, c1, a2, b2, c2)
        .unwrap()
        .into();
    let dead_time = seconds(5.0);
    tf.set_dead_time(dead_time);
    match tf {
        TransferFn::SecondOrder(TransferFnSecondOrder::StableUnderdamped(
            tf_no_zeroes,
            cosine_sinusoidal_decay,
            sine_sinusoidal_decay,
        )) => {
            assert_eq!(tf_no_zeroes.accumulator.delay, dead_time);
            assert_eq!(cosine_sinusoidal_decay.accumulator.delay, dead_time);
            assert_eq!(sine_sinusoidal_decay.accumulator.delay, dead_time);
        }
        _ => panic!("not underdamped"),
    }
}

#[test]
fn first_order_with_zero_and_delay() {
    // (5 - 2 s) / (4 s + 2) exp(-2 s), input steps to 9 at t = 0
    let mut tf = TransferFnFirstOrder::new(
        seconds(-2.0),
        ratio(5.0),
        seconds(4.0),
        ratio(2.0),
        seconds(0.0),
    )
    .unwrap();
    tf.set_dead_time(seconds(2.0));
    for step in 0..300 {
        let t = 0.1 * step as f64;
        let out = tf
            .set_user_input_and_calc(ratio(9.0), seconds(t), &float_kernel)
            .unwrap();
        let expected = if t < 2.0 - 1e-9 {
            0.0
        } else {
            let e = (-(t - 2.0) / 2.0).exp();
            9.0 * (2.5 * (1.0 - e) - 0.5 * e)
        };
        assert!(
            close(out, expected, 1e-6),
            "t = {}: {} against {}",
            t,
            to_float(out.nano),
            expected
        );
    }
}

#[test]
fn first_order_regime_selection() {
    let unstable = TransferFnFirstOrder::new(
        seconds(0.0),
        ratio(1.0),
        seconds(-1.0),
        ratio(1.0),
        seconds(0.0),
    );
    assert_eq!(
        unstable.err(),
        Some(ChemEngProcessControlSimulatorError::UnimplementedRegime)
    );
    let undamped = TransferFnFirstOrder::new(
        seconds(0.0),
        ratio(1.0),
        seconds(0.0),
        ratio(1.0),
        seconds(0.0),
    );
    assert_eq!(
        undamped.err(),
        Some(ChemEngProcessControlSimulatorError::UnimplementedRegime)
    );
    let integrator = TransferFnFirstOrder::new(
        seconds(0.0),
        ratio(1.0),
        seconds(1.0),
        ratio(0.0),
        seconds(0.0),
    );
    assert_eq!(
        integrator.err(),
        Some(ChemEngProcessControlSimulatorError::UnimplementedRegime)
    );
    let mut placeholder = TransferFnFirstOrder::Unstable;
    let before = placeholder.clone();
    assert_eq!(
        placeholder.set_user_input_and_calc(ratio(1.0), seconds(0.0), &float_kernel),
        Err(ChemEngProcessControlSimulatorError::UnimplementedRegime)
    );
    assert_eq!(placeholder, before);
}

#[test]
fn transfer_fn_conversions() {
    let first = TransferFnFirstOrder::new(
        seconds(0.0),
        ratio(1.0),
        seconds(1.0),
        ratio(1.0),
        seconds(0.0),
    )
    .unwrap();
    let generic: TransferFn = first.clone().into();
    assert_eq!(generic.clone().try_into_first_order(), Ok(first));
    assert_eq!(
        generic.try_into_second_order().err(),
        Some(ChemEngProcessControlSimulatorError::WrongTransferFnType)
    );
}

#[test]
fn generic_transfer_fn_forwards_to_the_one_it_holds() {
    let mut first = TransferFnFirstOrder::new(
        seconds(1.0),
        ratio(2.0),
        seconds(3.0),
        ratio(1.0),
        seconds(0.5),
    )
    .unwrap();
    let mut generic: TransferFn = first.clone().into();
    for step in 0..20 {
        let t = seconds(0.3 * step as f64);
        let u = ratio(if step < 7 { 1.0 } else { -2.0 });
        assert_eq!(
            generic.set_user_input_and_calc(u, t, &float_kernel),
            first.set_user_input_and_calc(u, t, &float_kernel)
        );
    }
}

#[test]
fn decaying_sinusoid_waveforms() {
    let mut sine =
        DecayingSinusoid::new_sine(ratio(2.0), hertz(0.5), ratio(0.0), ratio(0.0), seconds(0.0), hertz(3.0))
            .unwrap();
    let mut cosine =
        DecayingSinusoid::new_cosine(ratio(2.0), hertz(0.5), ratio(0.0), ratio(0.0), seconds(0.0), hertz(3.0))
            .unwrap();
    for step in 0..40 {
        let t = 0.25 * step as f64;
        let s = sine
            .set_user_input_and_calc_output(seconds(t), ratio(1.5), &float_kernel)
            .unwrap();
        let c = cosine
            .set_user_input_and_calc_output(seconds(t), ratio(1.5), &float_kernel)
            .unwrap();
        assert!(close(s, 3.0 * (-0.5 * t).exp() * (3.0 * t).sin(), 1e-7));
        assert!(close(c, 3.0 * (-0.5 * t).exp() * (3.0 * t).cos(), 1e-7));
    }
    let bad = DecayingSinusoid::new_sine(ratio(2.0), hertz(0.5), ratio(0.0), ratio(0.0), seconds(0.0), hertz(0.0));
    assert_eq!(
        bad.err(),
        Some(ChemEngProcessControlSimulatorError::UnstableDampingFactorForStableTransferFunction)
    );
    let worse = DecayingSinusoid::new_cosine(ratio(2.0), hertz(-0.5), ratio(0.0), ratio(0.0), seconds(0.0), hertz(1.0));
    assert_eq!(
        worse.err(),
        Some(ChemEngProcessControlSimulatorError::UnstableDampingFactorForStableTransferFunction)
    );
}

#[test]
fn decaying_exponential_kinds() {
    let mut single =
        DecayingExponential::new_single_root(ratio(2.0), hertz(0.5), ratio(0.0), ratio(0.0), seconds(0.0))
            .unwrap();
    let mut over = DecayingExponential::new_overdamped(
        ratio(2.0),
        ratio(-1.0),
        hertz(0.5),
        hertz(2.0),
        ratio(0.0),
        ratio(0.0),
        seconds(0.0),
    )
    .unwrap();
    let mut critical =
        DecayingExponential::new_critical(hertz(3.0), ratio(1.0), hertz(0.5), ratio(0.0), ratio(0.0), seconds(0.0))
            .unwrap();
    for step in 0..40 {
        let t = 0.25 * step as f64;
        let s = single
            .set_user_input_and_calc_output(seconds(t), ratio(2.0), &float_kernel)
            .unwrap();
        let o = over
            .set_user_input_and_calc_output(seconds(t), ratio(2.0), &float_kernel)
            .unwrap();
        let c = critical
            .set_user_input_and_calc_output(seconds(t), ratio(2.0), &float_kernel)
            .unwrap();
        assert!(close(s, 4.0 * (-0.5 * t).exp(), 1e-7));
        assert!(close(o, 4.0 * (-0.5 * t).exp() - 2.0 * (-2.0 * t).exp(), 1e-7));
        assert!(close(c, 6.0 * t * (-0.5 * t).exp() + 2.0 * (-0.5 * t).exp(), 1e-7));
    }
    let bad = DecayingExponential::new_single_root(ratio(2.0), hertz(0.0), ratio(0.0), ratio(0.0), seconds(0.0));
    assert_eq!(
        bad.err(),
        Some(ChemEngProcessControlSimulatorError::UnstableDampingFactorForStableTransferFunction)
    );
}

#[test]
fn zero_part_jumps_and_decays() {
    let mut tf =
        FirstOrderStableTransferFnForZeroes::new(ratio(3.0), seconds(2.0), ratio(0.0), ratio(0.0), seconds(1.0))
            .unwrap();
    let before = tf
        .set_user_input_and_calc_output(seconds(0.0), ratio(1.0), &float_kernel)
        .unwrap();
    assert_eq!(before.nano, 0);
    let still_before = tf
        .set_user_input_and_calc_output(seconds(0.5), ratio(1.0), &float_kernel)
        .unwrap();
    assert_eq!(still_before.nano, 0);
    let at_start = tf
        .set_user_input_and_calc_output(seconds(1.0), ratio(1.0), &float_kernel)
        .unwrap();
    assert_eq!(at_start.nano, 3_000_000_000);
    let later = tf
        .set_user_input_and_calc_output(seconds(3.0), ratio(1.0), &float_kernel)
        .unwrap();
    assert!(close(later, 3.0 * (-1.0f64).exp(), 1e-8));
}

#[test]
fn range_error_leaves_the_transfer_function_unchanged() {
    let mut tf = FirstOrderStableTransferFnNoZeroes::new(
        Ratio::from_nano(i64::MAX),
        seconds(1.0),
        ratio(0.0),
        ratio(0.0),
        seconds(0.0),
    )
    .unwrap();
    let before = tf.clone();
    let r = tf.set_user_input_and_calc_output(seconds(0.0), ratio(2.0), &float_kernel);
    assert_eq!(r, Err(ChemEngProcessControlSimulatorError::ValueOutOfRange));
    assert_eq!(tf, before);
    // what a kernel answers out of all proportion is taken into range: exp = 0 here
    let mut tf =
        FirstOrderStableTransferFnNoZeroes::new(ratio(1e6), seconds(1.0), ratio(0.0), ratio(0.0), seconds(0.0))
            .unwrap();
    let wild = |_f: Transcendental, _x: i128| i64::MIN;
    let r = tf.set_user_input_and_calc_output(seconds(0.0), ratio(1e3), &wild);
    assert_eq!(r, Ok(ratio(1e9)));
    // and exp = 1 here
    let wild = |_f: Transcendental, _x: i128| i64::MAX;
    let r = tf.set_user_input_and_calc_output(seconds(1.0), ratio(1e3), &wild);
    assert_eq!(r, Ok(ratio(0.0)));
}

#[test]
fn evaluation_far_beyond_the_time_constant() {
    // 1 / (1e-6 s^2 + 2e-3 s + 1): one millisecond, critically damped
    let mut tf = TransferFnSecondOrder::new(
        TimeSquared::from_nano(0),
        seconds(0.0),
        ratio(1.0),
        TimeSquared::from_nano(1_000),
        seconds(0.002),
        ratio(1.0),
    )
    .unwrap();
    assert!(matches!(tf, TransferFnSecondOrder::StableCriticallydamped(_, _)));
    assert_eq!(
        tf.set_user_input_and_calc(ratio(1.0), seconds(0.0), &float_kernel),
        Ok(ratio(0.0))
    );
    // ten million seconds on, the exponent is far beyond what a quantity stores
    assert_eq!(
        tf.set_user_input_and_calc(ratio(1.0), seconds(1e7), &float_kernel),
        Ok(ratio(1.0))
    );
    // the responses have been evaluated there, so they settle at the next step
    assert_eq!(
        tf.set_user_input_and_calc(ratio(1.0), seconds(2e7), &float_kernel),
        Ok(ratio(1.0))
    );
    match &tf {
        TransferFnSecondOrder::StableCriticallydamped(no_zeroes, exponential) => {
            assert_eq!(no_zeroes.accumulator.responses.len(), 0);
            assert_eq!(no_zeroes.accumulator.offset, ratio(1.0));
            assert_eq!(exponential.accumulator.responses.len(), 0);
            assert_eq!(exponential.accumulator.offset, ratio(0.0));
        }
        _ => panic!("a critically damped system was asked for"),
    }
    // the same on a first-order lag of one millisecond
    let mut lag =
        FirstOrderStableTransferFnNoZeroes::new(ratio(2.0), seconds(0.001), ratio(0.0), ratio(0.0), seconds(0.0))
            .unwrap();
    assert_eq!(
        lag.set_user_input_and_calc_output(seconds(0.0), ratio(1.0), &float_kernel),
        Ok(ratio(0.0))
    );
    assert_eq!(
        lag.set_user_input_and_calc_output(seconds(9e9), ratio(1.0), &float_kernel),
        Ok(ratio(2.0))
    );
    assert_eq!(lag.accumulator.responses.len(), 1);
    assert_eq!(
        lag.set_user_input_and_calc_output(seconds(9e9), ratio(1.0), &float_kernel),
        Ok(ratio(2.0))
    );
    assert_eq!(lag.accumulator.responses.len(), 0);
}

#[test]
fn second_order_design_parameters() {
    // (s^2 + s + 1) / (s^2 + s + 2)
    let tf = TransferFnSecondOrder::new(
        square_seconds(1.0),
        seconds(1.0),
        ratio(1.0),
        square_seconds(1.0),
        seconds(1.0),
        ratio(2.0),
    )
    .unwrap();
    match tf {
        TransferFnSecondOrder::StableUnderdamped(no_zeroes, cosine, sine) => {
            // tau = sqrt(a2 / c2), zeta = b2 / (2 sqrt(a2 c2)), Kp = c1 / c2
            assert_eq!(no_zeroes.process_time.nano, 707_106_781);
            assert_eq!(no_zeroes.damping_factor.nano, 353_553_391);
            assert_eq!(no_zeroes.process_gain.nano, 500_000_000);
            // lambda = b2 / (2 a2), omega = sqrt(c2 / a2 - lambda^2)
            assert_eq!(cosine.a.nano, 500_000_000);
            assert_eq!(cosine.omega.nano, 1_322_875_655);
            assert_eq!(sine.a.nano, 500_000_000);
            assert_eq!(sine.omega.nano, 1_322_875_655);
            // a1 / a2 and (b1 / a2) / omega - (lambda a1 / a2) / omega
            assert_eq!(cosine.magnitude.nano, 1_000_000_000);
            assert_eq!(sine.magnitude.nano, 377_964_473);
        }
        _ => panic!("not underdamped"),
    }
    // (2.5 s^2 - 0.5 s + 1) / (3 s^2 + 4 s + 4)
    let tf = TransferFnSecondOrder::new(
        square_seconds(2.5),
        seconds(-0.5),
        ratio(1.0),
        square_seconds(3.0),
        seconds(4.0),
        ratio(4.0),
    )
    .unwrap();
    match tf {
        TransferFnSecondOrder::StableUnderdamped(no_zeroes, cosine, sine) => {
            assert_eq!(no_zeroes.process_time.nano, 866_025_403);
            assert_eq!(no_zeroes.damping_factor.nano, 577_350_269);
            assert_eq!(no_zeroes.process_gain.nano, 250_000_000);
            assert_eq!(cosine.a.nano, 666_666_667);
            assert_eq!(cosine.omega.nano, 942_809_041);
            assert_eq!(cosine.magnitude.nano, 833_333_333);
            assert_eq!(sine.magnitude.nano, -766_032_348);
        }
        _ => panic!("not underdamped"),
    }
}

#[test]
fn critically_damped_transfer_function_step_response() {
    // 1 / (s^2 + 2 s + 1): Kp = 1, tau = 1 s, zeta = 1
    let mut tf = TransferFnSecondOrder::new(
        square_seconds(0.0),
        seconds(0.0),
        ratio(1.0),
        square_seconds(1.0),
        seconds(2.0),
        ratio(1.0),
    )
    .unwrap();
    tf.set_user_input_and_calc(ratio(1.0), seconds(0.0), &float_kernel)
        .unwrap();
    let out = tf
        .set_user_input_and_calc(ratio(1.0), seconds(1.0), &float_kernel)
        .unwrap();
    assert!(close(out, 0.2642, 1e-4));
    assert!(close(out, 1.0 - 2.0 * (-1.0f64).exp(), 1e-8));
}

#[test]
fn first_order_design_parameters() {
    // (5 - 2 s) / (4 s + 2): tau = 2 s, Kp = 2.5, zero gain a1 / (b2 tau) = -0.5
    let tf = TransferFnFirstOrder::new(
        seconds(-2.0),
        ratio(5.0),
        seconds(4.0),
        ratio(2.0),
        seconds(1.5),
    )
    .unwrap();
    match tf {
        TransferFnFirstOrder::Stable(no_zeroes, for_zeroes) => {
            assert_eq!(no_zeroes.process_time, seconds(2.0));
            assert_eq!(no_zeroes.process_gain, ratio(2.5));
            assert_eq!(for_zeroes.process_time, seconds(2.0));
            assert_eq!(for_zeroes.process_gain, ratio(-0.5));
            assert_eq!(no_zeroes.accumulator.delay, seconds(1.5));
            assert_eq!(for_zeroes.accumulator.delay, seconds(1.5));
        }
        _ => panic!("not stable"),
    }
}
