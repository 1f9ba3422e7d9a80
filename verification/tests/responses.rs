use process_control_simulator::controllers::integral_controller::{RampResponse, RampResponseRealTime};
use process_control_simulator::errors::ChemEngProcessControlSimulatorError;
use process_control_simulator::fixed_point::{
    checked_difference, checked_scaled_product, checked_scaled_quotient, checked_scaled_root,
    checked_sum, integer_root, narrow, rounded_output, rounded_quotient,
};
use process_control_simulator::kernel::{consult, consult_all, KernelQuery, KernelReading, Transcendental};
use process_control_simulator::quantities::{Frequency, Ratio, Time, TimeSquared};
use process_control_simulator::stable_transfer_functions::decaying_exponentials::{
    DecayExponentialResponse, DecayingExponentialType,
};
use process_control_simulator::stable_transfer_functions::decaying_sinusoid::{
    DecaySinusoidResponse, TransferFnSinusoidType,
};
use process_control_simulator::stable_transfer_functions::first_order_transfer_fn::FirstOrderResponse;
use process_control_simulator::stable_transfer_functions::second_order_transfer_fn::SecondOrderStableStepResponse;
use process_control_simulator::stable_transfer_functions::step_fn::StepFunction;
use process_control_simulator::superposition::{ElementaryResponse, SuperpositionAccumulator};

fn to_nano(x: f64) -> i64 {
    (x * 1e9).round() as i64
}

fn to_float(n: i64) -> f64 {
    n as f64 / 1e9
}

fn wide_to_float(n: i128) -> f64 {
    n as f64 / 1e9
}

fn ratio(x: f64) -> Ratio {
    Ratio::from_nano(to_nano(x))
}

fn seconds(x: f64) -> Time {
    Time::from_nano(to_nano(x))
}

fn hertz(x: f64) -> Frequency {
    Frequency::from_nano(to_nano(x))
}

fn float_kernel(function: Transcendental, x: i128) -> i64 {
    let x = wide_to_float(x);
    match function {
        Transcendental::ExpNeg => to_nano((-x).exp()),
        Transcendental::ExpNegFine => ((-x).exp() * 1e18).round() as i64,
        Transcendental::Sine => to_nano(x.sin()),
        Transcendental::Cosine => to_nano(x.cos()),
    }
}

fn reading(decay: f64, second_decay: f64, sine: f64, cosine: f64) -> KernelReading {
    KernelReading {
        decay: to_nano(decay),
        second_decay: to_nano(second_decay),
        sine: to_nano(sine),
        cosine: to_nano(cosine),
    }
}

#[test]
fn timesq_test() {
    let a = Time::from_nano(1_000_000_000);
    let a_sq: TimeSquared = a.times(a).unwrap();
    assert_eq!(a.times(a).unwrap(), a_sq);
    assert_eq!(a_sq, TimeSquared::from_nano(1_000_000_000));
}

#[test]
fn mod_timesq_test() {
    let a = seconds(1.5);
    let a_sq: TimeSquared = a.times(a).unwrap();
    assert_eq!(a.times(a).unwrap(), a_sq);
    assert_eq!(a_sq.nano, 2_250_000_000);
    assert_eq!(Time::from_nano(i64::MAX).times(Time::from_nano(i64::MAX)), None);
}

#[test]
fn fixed_point_rounds_to_nearest_away_from_zero() {
    assert_eq!(rounded_quotient(7, 2), 4);
    assert_eq!(rounded_quotient(-7, 2), -4);
    assert_eq!(rounded_quotient(5, 3), 2);
    assert_eq!(rounded_quotient(-5, 3), -2);
    assert_eq!(rounded_quotient(4, 3), 1);
    assert_eq!(rounded_quotient(0, 3), 0);
    assert_eq!(checked_scaled_product(1_500_000_000, 2_000_000_000), Some(3_000_000_000));
    assert_eq!(checked_scaled_product(1, 500_000_000), Some(1));
    assert_eq!(checked_scaled_product(-1, 500_000_000), Some(-1));
    assert_eq!(checked_scaled_product(1, 499_999_999), Some(0));
    assert_eq!(checked_scaled_product(i64::MAX, i64::MAX), None);
    assert_eq!(checked_scaled_quotient(1_000_000_000, 3_000_000_000), Some(333_333_333));
    assert_eq!(checked_scaled_quotient(2_000_000_000, -3_000_000_000), Some(-666_666_667));
    assert_eq!(checked_scaled_quotient(-2_000_000_000, -4_000_000_000), Some(500_000_000));
    assert_eq!(checked_scaled_quotient(5, 0), None);
    assert_eq!(checked_scaled_quotient(i64::MAX, 1), None);
    assert_eq!(checked_sum(i64::MAX, 1), None);
    assert_eq!(checked_sum(-5, 7), Some(2));
    assert_eq!(checked_difference(i64::MIN, 1), None);
    assert_eq!(checked_difference(3, 7), Some(-4));
    assert_eq!(narrow(1i128 << 63), None);
    assert_eq!(narrow(-(1i128 << 63)), Some(i64::MIN));
    assert_eq!(rounded_output(1_500_000_000_000_000_000), Some(1_500_000_000));
    assert_eq!(rounded_output(-1_499_999_999), Some(-1));
    assert_eq!(rounded_output(i128::MAX), None);
}

#[test]
fn square_roots_round_down() {
    assert_eq!(integer_root(0), 0);
    assert_eq!(integer_root(1), 1);
    assert_eq!(integer_root(15), 3);
    assert_eq!(integer_root(16), 4);
    assert_eq!(integer_root(17), 4);
    assert_eq!(integer_root((1u128 << 126) - 1), (1u64 << 63) - 1);
    assert_eq!(checked_scaled_root(4_000_000_000), Some(2_000_000_000));
    assert_eq!(checked_scaled_root(750_000_000), Some(866_025_403));
    assert_eq!(checked_scaled_root(2_000_000_000), Some(1_414_213_562));
    assert_eq!(checked_scaled_root(0), Some(0));
    assert_eq!(checked_scaled_root(-1), None);
}

#[test]
fn kernel_is_asked_only_what_is_needed() {
    let counting = |f: Transcendental, x: i128| match f {
        Transcendental::ExpNeg => x as i64 + 1,
        Transcendental::ExpNegFine => x as i64 + 4,
        Transcendental::Sine => x as i64 + 2,
        Transcendental::Cosine => x as i64 + 3,
    };
    let q = KernelQuery {
        decay: Some(10),
        second_decay: None,
        sine: Some(20),
        cosine: Some(30),
    };
    assert_eq!(
        consult(&counting, &q),
        KernelReading {
            decay: 11,
            second_decay: 0,
            sine: 22,
            cosine: 33
        }
    );
    let all = consult_all(&counting, &vec![q, KernelQuery::nothing()]);
    assert_eq!(all.len(), 2);
    assert_eq!(
        all[1],
        KernelReading {
            decay: 0,
            second_decay: 0,
            sine: 0,
            cosine: 0
        }
    );
}

#[test]
fn step_function_gate_and_value() {
    let mut step = StepFunction::new(ratio(2.0), seconds(1.0), ratio(3.0), seconds(0.0)).unwrap();
    assert!(!step.is_steady_state());
    assert_eq!(step.steady_state_value(), ratio(6.0));
    assert_eq!(step.calculate_response(seconds(0.5)), Ok(ratio(0.0)));
    assert!(!step.is_steady_state());
    assert_eq!(step.calculate_response(seconds(1.0)), Ok(ratio(6.0)));
    assert!(step.is_steady_state());
    assert_eq!(step.calculate_response(seconds(7.0)), Ok(ratio(6.0)));
    assert_eq!(step.current_time, seconds(7.0));
    assert_eq!(
        StepFunction::new(Ratio::from_nano(i64::MAX), seconds(0.0), ratio(2.0), seconds(0.0)).err(),
        Some(ChemEngProcessControlSimulatorError::ValueOutOfRange)
    );
    assert_eq!(StepFunction::default().steady_state_value(), ratio(1.0));
}

#[test]
fn first_order_response_formula() {
    let mut rise =
        FirstOrderResponse::new(ratio(2.0), seconds(4.0), seconds(1.0), ratio(3.0), seconds(0.0)).unwrap();
    assert_eq!(rise.steady_state_value(), ratio(6.0));
    // before the start nothing is asked of the kernel
    assert_eq!(rise.kernel_query(seconds(0.5)), Ok(KernelQuery::nothing()));
    assert_eq!(
        rise.kernel_query(seconds(3.0)),
        Ok(KernelQuery {
            decay: Some(500_000_000),
            second_decay: None,
            sine: None,
            cosine: None
        })
    );
    // value = final value * (1 - e), for whatever e the kernel read
    assert_eq!(
        rise.response_with(seconds(3.0), &reading(0.25, 0.0, 0.0, 0.0)),
        ratio(4.5)
    );
    assert_eq!(
        rise.response_with(seconds(0.5), &reading(0.25, 0.0, 0.0, 0.0)),
        ratio(0.0)
    );
    // a reading out of [0, 1] is taken into it
    assert_eq!(
        rise.response_with(seconds(3.0), &reading(-7.0, 0.0, 0.0, 0.0)),
        ratio(6.0)
    );
    assert_eq!(
        rise.response_with(seconds(3.0), &reading(7.0, 0.0, 0.0, 0.0)),
        ratio(0.0)
    );
    let v = rise.calculate_response(seconds(5.0), &float_kernel).unwrap();
    assert!((to_float(v.nano) - 6.0 * (1.0 - (-1.0f64).exp())).abs() < 1e-8);
    assert_eq!(rise.current_time, seconds(5.0));
    // steady when more than 20 time constants have passed
    rise.calculate_response(seconds(81.0), &float_kernel).unwrap();
    assert!(!rise.is_steady_state());
    rise.calculate_response(seconds(81.000000001), &float_kernel).unwrap();
    assert!(rise.is_steady_state());
    assert_eq!(
        FirstOrderResponse::new(ratio(2.0), seconds(0.0), seconds(1.0), ratio(3.0), seconds(0.0)).err(),
        Some(ChemEngProcessControlSimulatorError::UnstableDampingFactorForStableTransferFunction)
    );
    assert!(!FirstOrderResponse::default().is_steady_state());
}

#[test]
fn second_order_response_regimes() {
    let under = SecondOrderStableStepResponse::new(
        ratio(1.0),
        seconds(2.0),
        ratio(0.6),
        seconds(0.0),
        ratio(1.0),
        seconds(0.0),
    )
    .unwrap();
    // zeta = 0.6: sqrt(1 - zeta^2) = 0.8, zeta / sqrt = 0.75
    assert_eq!(under.natural_root(), Some(800_000_000));
    assert_eq!(
        under.kernel_query(seconds(4.0)),
        Ok(KernelQuery {
            decay: Some(1_200_000_000),
            second_decay: None,
            sine: Some(1_600_000_000),
            cosine: Some(1_600_000_000)
        })
    );
    // 1 - e (c + 0.75 s)
    assert_eq!(
        under.response_with(seconds(4.0), &reading(0.5, 0.0, 0.4, 0.2)),
        ratio(1.0 - 0.5 * (0.2 + 0.75 * 0.4))
    );
    let critical = SecondOrderStableStepResponse::default();
    assert_eq!(
        critical.kernel_query(seconds(3.0)),
        Ok(KernelQuery {
            decay: Some(3_000_000_000),
            second_decay: None,
            sine: None,
            cosine: None
        })
    );
    // 1 - (1 + r) e
    assert_eq!(
        critical.response_with(seconds(3.0), &reading(0.125, 0.0, 0.0, 0.0)),
        ratio(0.5)
    );
    let over = SecondOrderStableStepResponse::new(
        ratio(1.0),
        seconds(1.0),
        ratio(1.25),
        seconds(0.0),
        ratio(1.0),
        seconds(0.0),
    )
    .unwrap();
    // zeta = 1.25: sqrt(zeta^2 - 1) = 0.75, rates 0.5 and 2
    assert_eq!(over.natural_root(), Some(750_000_000));
    assert_eq!(
        over.kernel_query(seconds(2.0)),
        Ok(KernelQuery {
            decay: Some(1_000_000_000),
            second_decay: Some(4_000_000_000),
            sine: None,
            cosine: None
        })
    );
    // zeta / s = 5/3: 1 - [(1 + 5/3) e1 + (1 - 5/3) e2] / 2
    let v = over.response_with(seconds(2.0), &reading(0.3, 0.03, 0.0, 0.0));
    assert!((to_float(v.nano) - (1.0 - ((1.0 + 5.0 / 3.0) * 0.3 + (1.0 - 5.0 / 3.0) * 0.03) / 2.0)).abs() < 1e-8);
}

#[test]
fn second_order_steady_state_thresholds() {
    let mut under = SecondOrderStableStepResponse::new(
        ratio(1.0),
        seconds(1.0),
        ratio(0.5),
        seconds(0.0),
        ratio(1.0),
        seconds(0.0),
    )
    .unwrap();
    under.calculate_response(seconds(40.0), &float_kernel).unwrap();
    assert!(!under.is_steady_state());
    under.calculate_response(seconds(40.1), &float_kernel).unwrap();
    assert!(under.is_steady_state());
    let mut critical = SecondOrderStableStepResponse::default();
    critical.calculate_response(seconds(23.0), &float_kernel).unwrap();
    assert!(!critical.is_steady_state());
    critical.calculate_response(seconds(23.1), &float_kernel).unwrap();
    assert!(critical.is_steady_state());
    let mut over = SecondOrderStableStepResponse::new(
        ratio(1.0),
        seconds(1.0),
        ratio(1.25),
        seconds(0.0),
        ratio(1.0),
        seconds(0.0),
    )
    .unwrap();
    // the slower rate is 0.5: steady after 40 time constants
    over.calculate_response(seconds(40.0), &float_kernel).unwrap();
    assert!(!over.is_steady_state());
    over.calculate_response(seconds(40.1), &float_kernel).unwrap();
    assert!(over.is_steady_state());
}

#[test]
fn decay_exponential_response_kinds() {
    let single =
        DecayExponentialResponse::new_single_root(ratio(4.0), hertz(0.5), seconds(1.0), ratio(1.0), seconds(0.0))
            .unwrap();
    assert_eq!(single.exponential_type, DecayingExponentialType::Single);
    assert_eq!(
        single.kernel_query(seconds(3.0)),
        Ok(KernelQuery {
            decay: Some(1_000_000_000),
            second_decay: None,
            sine: None,
            cosine: None
        })
    );
    assert_eq!(
        single.response_with(seconds(3.0), &reading(0.25, 0.9, 0.0, 0.0)),
        ratio(1.0)
    );
    let over = DecayExponentialResponse::new_overdamped(
        ratio(4.0),
        ratio(-2.0),
        hertz(0.5),
        hertz(2.0),
        seconds(1.0),
        ratio(1.0),
        seconds(0.0),
    )
    .unwrap();
    assert_eq!(
        over.kernel_query(seconds(3.0)),
        Ok(KernelQuery {
            decay: Some(1_000_000_000),
            second_decay: Some(4_000_000_000),
            sine: None,
            cosine: None
        })
    );
    assert_eq!(
        over.response_with(seconds(3.0), &reading(0.25, 0.5, 0.0, 0.0)),
        ratio(0.0)
    );
    let critical = DecayExponentialResponse::new_critical(
        hertz(3.0),
        ratio(2.0),
        hertz(0.5),
        hertz(0.5),
        seconds(1.0),
        ratio(1.0),
        seconds(0.0),
    )
    .unwrap();
    // 3 * t * e + 2 * e at t = 2 s
    assert_eq!(
        critical.response_with(seconds(3.0), &reading(0.25, 0.25, 0.0, 0.0)),
        ratio(2.0)
    );
    assert_eq!(critical.steady_state_value(), ratio(0.0));
    assert_eq!(
        DecayExponentialResponse::new_overdamped(
            ratio(4.0),
            ratio(-2.0),
            hertz(0.5),
            hertz(0.0),
            seconds(1.0),
            ratio(1.0),
            seconds(0.0),
        )
        .err(),
        Some(ChemEngProcessControlSimulatorError::UnstableDampingFactorForStableTransferFunction)
    );
    assert_eq!(
        DecayExponentialResponse::default().exponential_type,
        DecayingExponentialType::CriticallyDamped
    );
}

#[test]
fn critical_exponential_needs_time_and_magnitude_to_settle() {
    let term_at = |current: f64| {
        DecayExponentialResponse::new_critical(
            hertz(1.0),
            ratio(1.0),
            hertz(1.0),
            hertz(1.0),
            seconds(0.0),
            ratio(1.0),
            seconds(current),
        )
        .unwrap()
    };
    // by time alone: lambda t must be above 23
    assert!(!term_at(23.0).has_decayed_by_time());
    assert!(term_at(23.5).has_decayed_by_time());
    assert_eq!(term_at(23.0).steady_state_query(), None);
    assert_eq!(term_at(24.0).steady_state_query(), Some(24_000_000_000));
    // t exp(-lambda t) must be below 1e-10 s: 24 exp(-24) = 9e-10, 27 exp(-27) = 5e-11
    assert!(!term_at(23.5).is_steady_state(&float_kernel));
    assert!(!term_at(24.0).is_steady_state(&float_kernel));
    assert!(!term_at(26.0).is_steady_state(&float_kernel));
    assert!(term_at(27.0).is_steady_state(&float_kernel));
    // a term is steady or not by where it stands, evaluated or not
    let mut moved = term_at(0.0);
    assert!(!moved.is_steady_state(&float_kernel));
    moved.calculate_response(seconds(27.0), &float_kernel).unwrap();
    assert_eq!(moved, term_at(27.0));
    assert!(moved.is_steady_state(&float_kernel));
    // the exponential is read in billionths of a billionth, and taken into [0, 1]
    assert!(term_at(27.0).is_steady_state_with(3_703_703));
    assert!(!term_at(27.0).is_steady_state_with(3_703_704));
    assert!(term_at(27.0).is_steady_state_with(-5));
    assert!(!term_at(27.0).is_steady_state_with(i64::MAX));
    // the other kinds go by time alone, above 20, and ask nothing
    let mut single =
        DecayExponentialResponse::new_single_root(ratio(1.0), hertz(1.0), seconds(0.0), ratio(1.0), seconds(0.0))
            .unwrap();
    let slow = |_f: Transcendental, _x: i128| 1_000i64;
    single.calculate_response(seconds(20.0), &slow).unwrap();
    assert_eq!(single.steady_state_query(), None);
    assert!(!single.is_steady_state(&slow));
    single.calculate_response(seconds(20.5), &slow).unwrap();
    assert!(single.is_steady_state(&slow));
}

#[test]
fn decay_sinusoid_response_formula() {
    let mut sine = DecaySinusoidResponse::new(
        ratio(2.0),
        hertz(0.5),
        seconds(1.0),
        ratio(3.0),
        seconds(0.0),
        hertz(4.0),
        TransferFnSinusoidType::Sine,
    )
    .unwrap();
    assert_eq!(
        sine.kernel_query(seconds(3.0)),
        Ok(KernelQuery {
            decay: Some(1_000_000_000),
            second_decay: None,
            sine: Some(8_000_000_000),
            cosine: None
        })
    );
    assert_eq!(
        sine.response_with(seconds(3.0), &reading(0.5, 0.0, 0.25, 0.9)),
        ratio(0.75)
    );
    let cosine = DecaySinusoidResponse::new(
        ratio(2.0),
        hertz(0.5),
        seconds(1.0),
        ratio(3.0),
        seconds(0.0),
        hertz(4.0),
        TransferFnSinusoidType::Cosine,
    )
    .unwrap();
    assert_eq!(
        cosine.response_with(seconds(3.0), &reading(0.5, 0.0, 0.25, 0.5)),
        ratio(1.5)
    );
    assert_eq!(cosine.response_with(seconds(0.5), &reading(0.5, 0.0, 0.25, 0.5)), ratio(0.0));
    sine.calculate_response(seconds(41.0), &float_kernel).unwrap();
    assert!(!sine.is_steady_state());
    sine.calculate_response(seconds(41.5), &float_kernel).unwrap();
    assert!(sine.is_steady_state());
    assert_eq!(sine.steady_state_value(), ratio(0.0));
    assert_eq!(
        DecaySinusoidResponse::default().sinusoid_type,
        TransferFnSinusoidType::Sine
    );
}

#[test]
fn accumulator_folds_settled_responses_in_order() {
    let k = |_f: Transcendental, _x: i128| 500_000_000i64;
    let first = ElementaryResponse::FirstOrder(
        FirstOrderResponse::new(ratio(1.0), seconds(1.0), seconds(0.0), ratio(2.0), seconds(25.0)).unwrap(),
    );
    let second = ElementaryResponse::FirstOrder(
        FirstOrderResponse::new(ratio(1.0), seconds(1.0), seconds(10.0), ratio(4.0), seconds(25.0)).unwrap(),
    );
    let third = ElementaryResponse::Step(
        StepFunction::new(ratio(3.0), seconds(20.0), ratio(1.0), seconds(25.0)).unwrap(),
    );
    let fourth = ElementaryResponse::FirstOrder(
        FirstOrderResponse::new(ratio(1.0), seconds(1.0), seconds(24.0), ratio(8.0), seconds(25.0)).unwrap(),
    );
    let acc = SuperpositionAccumulator {
        previous_timestep_input: ratio(0.0),
        offset: ratio(10.0),
        delay: seconds(0.0),
        responses: vec![first, second, third],
    };
    let (next, out) = acc
        .advance(seconds(26.0), ratio(0.0), &vec![fourth], &k)
        .unwrap();
    // the first and the step had settled; the second and the fourth stay
    assert_eq!(next.offset, ratio(15.0));
    assert_eq!(next.responses.len(), 2);
    assert_eq!(next.responses[0], second.stamp(seconds(26.0)));
    assert_eq!(next.responses[1], fourth.stamp(seconds(26.0)));
    // 15 + 4 (1 - 0.5) + 8 (1 - 0.5)
    assert_eq!(out, ratio(21.0));
    // the accumulator itself is as it was
    assert_eq!(acc.responses.len(), 3);
    assert_eq!(acc.offset, ratio(10.0));
    assert!(acc.input_changed(ratio(1e-9)));
    assert!(!acc.input_changed(ratio(0.0)));
}

#[test]
fn ramp_in_closed_form() {
    let mut ramp = RampResponseRealTime::new(seconds(2.0), ratio(1.0)).unwrap();
    assert_eq!(ramp.gradient_gain, hertz(0.5));
    assert_eq!(ramp.gradient, hertz(0.0));
    // at rest with the input it was made with: the integral of nothing
    assert_eq!(ramp.set_user_input_and_calc(ratio(0.0), seconds(4.0)), Ok(ratio(0.0)));
    assert_eq!(ramp.gradient, hertz(0.0));
    assert_eq!(ramp.offset, ratio(0.0));
    // input 2 at t = 5: the gradient rises by 2 * 0.5, the offset keeps the output where it was
    assert_eq!(ramp.set_user_input_and_calc(ratio(2.0), seconds(5.0)), Ok(ratio(0.0)));
    assert_eq!(ramp.gradient, hertz(1.0));
    assert_eq!(ramp.offset, ratio(-5.0));
    assert_eq!(ramp.previous_timestep_input, ratio(2.0));
    assert_eq!(ramp.current_time, seconds(5.0));
    // the same input later: nothing moves but the time, the output is the integral 2 * 0.5 * 3
    assert_eq!(ramp.set_user_input_and_calc(ratio(2.0), seconds(8.0)), Ok(ratio(3.0)));
    assert_eq!(ramp.gradient, hertz(1.0));
    assert_eq!(ramp.offset, ratio(-5.0));
    // input -1 at t = 10: the integral so far is 5, the gradient falls by 3 * 0.5
    assert_eq!(ramp.set_user_input_and_calc(ratio(-1.0), seconds(10.0)), Ok(ratio(5.0)));
    assert_eq!(ramp.gradient, hertz(-0.5));
    assert_eq!(ramp.offset, ratio(10.0));
    assert_eq!(ramp.set_user_input_and_calc(ratio(-1.0), seconds(14.0)), Ok(ratio(3.0)));
    assert_eq!(ramp.gradient_gain, hertz(0.5));
    // what cannot be stored fails the step and leaves the ramp as it was
    let before = ramp;
    assert_eq!(
        ramp.set_user_input_and_calc(Ratio::from_nano(i64::MAX), seconds(15.0)),
        Err(ChemEngProcessControlSimulatorError::ValueOutOfRange)
    );
    assert_eq!(ramp, before);
    assert_eq!(
        RampResponseRealTime::new(seconds(0.0), ratio(1.0)).err(),
        Some(ChemEngProcessControlSimulatorError::UnstableDampingFactorForStableTransferFunction)
    );
    assert_eq!(RampResponseRealTime::default().gradient_gain, hertz(1.0));
    assert_eq!(RampResponseRealTime::default().gradient, hertz(0.0));
    assert_eq!(RampResponse::default().gradient_gain, hertz(1.0));
}

#[test]
fn error_texts() {
    assert_eq!(
        ChemEngProcessControlSimulatorError::from("boom".to_string()),
        ChemEngProcessControlSimulatorError::GenericStringError("boom".to_string())
    );
    assert_eq!(
        ChemEngProcessControlSimulatorError::from_string("boom".to_string()).into_string(),
        "boom"
    );
    assert_eq!(
        ChemEngProcessControlSimulatorError::UnstableDampingFactorForStableTransferFunction.into_string(),
        "unstable damping factor"
    );
    assert_eq!(
        ChemEngProcessControlSimulatorError::WrongTransferFnType.into_string(),
        "wrong transfer function type"
    );
    assert_eq!(
        ChemEngProcessControlSimulatorError::UnimplementedRegime.into_string(),
        "unimplemented regime"
    );
    assert_eq!(
        ChemEngProcessControlSimulatorError::ValueOutOfRange.into_string(),
        "value out of range"
    );
}

#[test]
fn well_formedness_can_be_tested() {
    let good =
        FirstOrderResponse::new(ratio(2.0), seconds(4.0), seconds(1.0), ratio(3.0), seconds(0.0)).unwrap();
    assert!(good.is_well_formed());
    let no_time_constant = FirstOrderResponse {
        process_time: seconds(0.0),
        ..good
    };
    assert!(!no_time_constant.is_well_formed());
    let too_high = FirstOrderResponse {
        process_gain: Ratio::from_nano(i64::MAX),
        ..good
    };
    assert!(!too_high.is_well_formed());
    let too_far = FirstOrderResponse {
        start_time: Time::from_nano(i64::MIN),
        ..good
    };
    assert!(!too_far.is_well_formed());
    assert!(StepFunction::default().is_well_formed());
    assert!(SecondOrderStableStepResponse::default().is_well_formed());
    assert!(DecayExponentialResponse::default().is_well_formed());
    assert!(DecaySinusoidResponse::default().is_well_formed());
    assert!(RampResponse::default().is_well_formed());
    let mut accumulator = SuperpositionAccumulator::new(ratio(0.0), ratio(0.0), seconds(0.0));
    assert!(accumulator.is_well_formed());
    accumulator.responses.push(ElementaryResponse::FirstOrder(good));
    assert!(accumulator.is_well_formed());
    accumulator
        .responses
        .push(ElementaryResponse::FirstOrder(no_time_constant));
    assert!(!accumulator.is_well_formed());
}

#[test]
fn a_step_in_phases() {
    let first = ElementaryResponse::FirstOrder(
        FirstOrderResponse::new(ratio(1.0), seconds(2.0), seconds(0.0), ratio(4.0), seconds(1.0)).unwrap(),
    );
    let settled = ElementaryResponse::Step(
        StepFunction::new(ratio(3.0), seconds(0.0), ratio(1.0), seconds(1.0)).unwrap(),
    );
    let critical = ElementaryResponse::DecayingExponential(
        DecayExponentialResponse::new_critical(
            hertz(1.0),
            ratio(5.0),
            hertz(1.0),
            hertz(1.0),
            seconds(-26.0),
            ratio(1.0),
            seconds(1.0),
        )
        .unwrap(),
    );
    let sine = ElementaryResponse::DecayingSinusoid(
        DecaySinusoidResponse::new(
            ratio(2.0),
            hertz(0.5),
            seconds(1.0),
            ratio(1.0),
            seconds(1.0),
            hertz(4.0),
            TransferFnSinusoidType::Sine,
        )
        .unwrap(),
    );
    let acc = SuperpositionAccumulator {
        previous_timestep_input: ratio(0.0),
        offset: ratio(1.0),
        delay: seconds(0.0),
        responses: vec![first, settled, critical],
    };
    // what settling asks: only the critically damped term, 27 s past its start
    let wanted = acc.gauge_plan(&vec![sine]);
    assert_eq!(wanted, vec![None, None, Some(27_000_000_000), None]);
    // it has settled for a reading of exp(-27), not for one of exp(-24)
    let settled_gauges = vec![0, 0, 1_879_529, 0];
    let unsettled_gauges = vec![0, 0, 37_751_345, 0];
    // what will be asked: the rise at (3 - 0) / 2, the sinusoid at 0.5 * 2 and 4 * 2
    let asked = acc.plan(seconds(3.0), &vec![sine], &settled_gauges).unwrap();
    assert_eq!(
        asked,
        vec![
            KernelQuery {
                decay: Some(1_500_000_000),
                second_decay: None,
                sine: None,
                cosine: None
            },
            KernelQuery {
                decay: Some(1_000_000_000),
                second_decay: None,
                sine: Some(8_000_000_000),
                cosine: None
            },
        ]
    );
    assert_eq!(
        acc.plan(seconds(3.0), &vec![sine], &unsettled_gauges)
            .unwrap()
            .len(),
        3
    );
    // for these readings: 1 + 3 + 4 (1 - 0.25) + 2 * 0.5 * 0.5
    let readings = vec![reading(0.25, 0.0, 0.0, 0.0), reading(0.5, 0.0, 0.5, 0.0)];
    let (next, out) = acc
        .advance_with(seconds(3.0), ratio(1.0), &vec![sine], &settled_gauges, &readings)
        .unwrap();
    assert_eq!(out, ratio(7.5));
    assert_eq!(next.offset, ratio(4.0));
    assert_eq!(next.previous_timestep_input, ratio(1.0));
    assert_eq!(next.responses.len(), 2);
    // readings out of all proportion are taken into range: exp = 0 and sin = 1
    let wild = vec![
        KernelReading {
            decay: i64::MIN,
            second_decay: 0,
            sine: 0,
            cosine: 0,
        },
        KernelReading {
            decay: 500_000_000,
            second_decay: 0,
            sine: i64::MAX,
            cosine: 0,
        },
    ];
    let (_, out) = acc
        .advance_with(seconds(3.0), ratio(1.0), &vec![sine], &settled_gauges, &wild)
        .unwrap();
    // 1 + 3 + 4 (1 - 0) + 2 * 0.5 * 1
    assert_eq!(out, ratio(9.0));
}

#[test]
fn sums_are_held_wide_and_narrowed_once() {
    // two rises to 7e9 and -7e9: either partial sum with the offset leaves the range
    let up = ElementaryResponse::FirstOrder(
        FirstOrderResponse::new(ratio(7e9), seconds(1.0), seconds(0.0), ratio(1.0), seconds(0.0)).unwrap(),
    );
    let down = ElementaryResponse::FirstOrder(
        FirstOrderResponse::new(ratio(-7e9), seconds(1.0), seconds(0.0), ratio(1.0), seconds(0.0)).unwrap(),
    );
    let decayed = |_f: Transcendental, _x: i128| 0i64;
    for responses in [vec![up, down], vec![down, up]] {
        let acc = SuperpositionAccumulator {
            previous_timestep_input: ratio(0.0),
            offset: ratio(5e9),
            delay: seconds(0.0),
            responses,
        };
        let (next, out) = acc.advance(seconds(1.0), ratio(0.0), &vec![], &decayed).unwrap();
        assert_eq!(out, ratio(5e9));
        assert_eq!(next.responses.len(), 2);
        // settled one step after the evaluation at 30 s, their final values cancel in the offset
        let (last, out) = next.advance(seconds(30.0), ratio(0.0), &vec![], &decayed).unwrap();
        assert_eq!(out, ratio(5e9));
        let (empty, out) = last.advance(seconds(31.0), ratio(0.0), &vec![], &decayed).unwrap();
        assert_eq!(out, ratio(5e9));
        assert_eq!(empty.responses.len(), 0);
        assert_eq!(empty.offset, ratio(5e9));
    }
    // where the output itself cannot be stored, the step fails
    let acc = SuperpositionAccumulator {
        previous_timestep_input: ratio(0.0),
        offset: ratio(5e9),
        delay: seconds(0.0),
        responses: vec![up],
    };
    assert_eq!(
        acc.advance(seconds(1.0), ratio(0.0), &vec![], &decayed).err(),
        Some(ChemEngProcessControlSimulatorError::ValueOutOfRange)
    );
}
