use integral::weights::{corrected_weights, simpson_pair_count, simpson_weights};
use integral::{subinterval_count, InvalidInput};

// Evaluates the composite Simpson rule from the library's weight table, with
// the spacing derived from the node positions.
fn simpson_value(fx: &[f64], x: &[f64]) -> f64 {
    let n = subinterval_count(fx.len(), x.len()).unwrap();
    let w = simpson_weights(n).unwrap();
    let dx = (x[n] - x[0]) / n as f64;
    let mut sum = 0.0;
    for i in 0..=n {
        sum += w[i] as f64 * fx[i];
    }
    1.0 / 3.0 * dx * sum
}

// The same rule with the spacing given directly as a scalar.
fn simpson_value_dx(fx: &[f64], dx: f64) -> f64 {
    let n = fx.len() - 1;
    let w = simpson_weights(n).unwrap();
    let mut sum = 0.0;
    for i in 0..=n {
        sum += w[i] as f64 * fx[i];
    }
    1.0 / 3.0 * dx * sum
}

// Evaluates the boundary-corrected rule from the library's weight table.
fn corrected_value(fx: &[f64], x: &[f64]) -> f64 {
    let n = subinterval_count(fx.len(), x.len()).unwrap();
    let w = corrected_weights(n).unwrap();
    let h = (x[n] - x[0]) / n as f64;
    let mut sum = 0.0;
    for i in 0..=n {
        sum += w[i] as f64 * fx[i];
    }
    1.0 / 48.0 * h * sum
}

#[test]
fn simpson_13_rule() {
    let x: [f64; 5] = [2.0, 4.0, 6.0, 8.0, 10.0];
    let fx: [f64; 5] = x.map(|x| x.powi(3));
    assert_eq!(2496.0, simpson_value(&fx, &x));
    let x = (2..=16).step_by(2).map(|i| i as f64).collect::<Vec<_>>();
    let fx = x.iter().map(|x| x.powi(3)).collect::<Vec<_>>();
    assert_eq!(
        (16_f64.powi(4) - 2_f64.powi(4)) / 4.0,
        corrected_value(&fx, &x)
    );
    let x = (0..=30)
        .step_by(5)
        .map(|i: usize| i as f64 * 60_f64)
        .collect::<Vec<f64>>();
    let fx = [25_f64, 28_f64, 32_f64, 30_f64, 29_f64, 26_f64, 23_f64];
    let s = simpson_value(&fx, &x);
    assert_eq!(50600.0, s);
    let x = (0..=45)
        .step_by(5)
        .map(|i: usize| i as f64 * 60_f64)
        .collect::<Vec<f64>>();
    let fx = [
        25_f64, 28_f64, 32_f64, 30_f64, 29_f64, 26_f64, 23_f64, 22_f64, 39_f64, 30_f64,
    ];
    let s = corrected_value(&fx, &x);
    assert!(s.is_finite());
}

#[test]
fn simpson_rule_cubes_scenario() {
    let x: [f64; 5] = [2.0, 4.0, 6.0, 8.0, 10.0];
    let fx: [f64; 5] = x.map(|x| x.powi(3));
    assert_eq!(2496.0, simpson_value(&fx, &x));
}

#[test]
fn boundary_rule_cubes_scenario() {
    let x = (2..=16).step_by(2).map(|i| i as f64).collect::<Vec<_>>();
    let fx = x.iter().map(|x| x.powi(3)).collect::<Vec<_>>();
    let expected = (16_f64.powi(4) - 2_f64.powi(4)) / 4.0;
    assert_eq!(expected, corrected_value(&fx, &x));
}

#[test]
fn simpson_rule_tabulated_scenario() {
    let x = [0.0, 300.0, 600.0, 900.0, 1200.0, 1500.0, 1800.0];
    let fx = [25.0, 28.0, 32.0, 30.0, 29.0, 26.0, 23.0];
    assert_eq!(50600.0, simpson_value(&fx, &x));
}

#[test]
fn simpson_exact_for_cubic_grid() {
    // f(x) = x^3 on the even uniform grid over [1, 4]: the rule must give
    // (4^4 - 1^4) / 4 to within floating-point error.
    let n = 6;
    let a = 1.0;
    let b = 4.0;
    let dx = (b - a) / n as f64;
    let x: Vec<f64> = (0..=n).map(|i| a + i as f64 * dx).collect();
    let fx: Vec<f64> = x.iter().map(|x| x.powi(3)).collect();
    let expected = (b.powi(4) - a.powi(4)) / 4.0;
    let got = simpson_value(&fx, &x);
    assert!((got - expected).abs() <= 1e-9 * expected.abs());
}

#[test]
fn simpson_spacing_forms_agree() {
    // scalar spacing and spacing derived from the positions give the same
    // value, up to floating-point error
    let dx = 0.3;
    let x: Vec<f64> = (0..=4).map(|i| i as f64 * dx).collect();
    let fx = [2.0, 3.5, 1.25, 4.0, 0.5];
    let from_positions = simpson_value(&fx, &x);
    let from_scalar = simpson_value_dx(&fx, dx);
    assert!((from_positions - from_scalar).abs() <= 1e-12 * from_scalar.abs());
}

#[test]
fn boundary_rule_eight_subintervals() {
    // nine samples, eight subintervals: the uniform interior block is a
    // single sample, and the value is finite
    let x: Vec<f64> = (0..=8).map(|i| i as f64).collect();
    let fx: Vec<f64> = (0..=8).map(|i| (i * i) as f64).collect();
    assert!(corrected_weights(8).is_ok());
    let v = corrected_value(&fx, &x);
    assert!(v.is_finite());
}

#[test]
fn odd_subinterval_count_rejected() {
    assert!(simpson_weights(5) == Err(InvalidInput::OddSubintervalCount));
    assert!(simpson_pair_count(3) == Err(InvalidInput::OddSubintervalCount));
    assert!(simpson_weights(1) == Err(InvalidInput::OddSubintervalCount));
}

#[test]
fn mismatched_lengths_rejected() {
    assert!(subinterval_count(4, 5) == Err(InvalidInput::MismatchedLengths));
    assert!(subinterval_count(0, 3) == Err(InvalidInput::MismatchedLengths));
}

#[test]
fn too_few_subintervals_rejected() {
    assert!(subinterval_count(0, 0) == Err(InvalidInput::TooFewSubintervals));
    assert!(simpson_weights(0) == Err(InvalidInput::TooFewSubintervals));
    assert!(simpson_pair_count(0) == Err(InvalidInput::TooFewSubintervals));
    assert!(corrected_weights(6) == Err(InvalidInput::TooFewSubintervals));
}

#[test]
fn subinterval_count_values() {
    assert!(subinterval_count(5, 5) == Ok(4));
    assert!(subinterval_count(1, 1) == Ok(0));
    assert!(simpson_pair_count(6) == Ok(3));
}

#[test]
fn simpson_weight_table_values() {
    assert!(simpson_weights(2) == Ok(vec![1, 4, 1]));
    assert!(simpson_weights(4) == Ok(vec![1, 4, 2, 4, 1]));
    assert!(simpson_weights(6) == Ok(vec![1, 4, 2, 4, 2, 4, 1]));
}

#[test]
fn corrected_weight_table_values() {
    assert!(corrected_weights(7) == Ok(vec![17, 59, 43, 49, 49, 43, 59, 17]));
    assert!(corrected_weights(8) == Ok(vec![17, 59, 43, 49, 48, 49, 43, 59, 17]));
    assert!(corrected_weights(9) == Ok(vec![17, 59, 43, 49, 48, 48, 49, 43, 59, 17]));
}
