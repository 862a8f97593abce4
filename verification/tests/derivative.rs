use dual_num::{differentiate, differentiate_seeded, DualNumber};

#[test]
fn derivative_of_square_root_at_four() {
    let d = differentiate(4.0f64, |x| x.sqrt().unwrap());
    assert_eq!(d, 0.25);
}

#[test]
fn derivative_of_square_root_plus_constant_at_four() {
    let d = differentiate(4.0f64, |x| x.sqrt().unwrap().add(DualNumber::from_real(1.0)));
    assert_eq!(format!("{:.5}", d), "0.25000");
}

#[test]
fn derivative_of_square_at_two() {
    let d = differentiate(2.0f64, |x| x.mul(x));
    assert_eq!(d, 4.0);
}

#[test]
fn derivative_of_sine_at_zero() {
    let d = differentiate(0.0f64, |x| x.sin());
    assert_eq!(d, 1.0);
}

#[test]
fn derivative_of_reciprocal_at_one() {
    let d = differentiate(1.0f64, |x| DualNumber::from_real(1.0).div(x));
    assert_eq!(d, -1.0);
    let e = differentiate(1.0f64, |x| x.recip());
    assert_eq!(e, -1.0);
}

#[test]
fn derivative_in_single_precision() {
    let d = differentiate(3.0f32, |x| x.mul(x).mul(x));
    assert_eq!(d, 27.0);
}

#[test]
fn derivative_of_polynomial_over_integers() {
    // 3x^2 + 2x at x = 5, with derivative 6x + 2
    let d = differentiate(5i64, |x| x.mul(x).mul_scalar(3).add(x.mul_scalar(2)));
    assert_eq!(d, 32);
}

#[test]
fn seeded_derivative_scales_with_the_seed() {
    let d = differentiate_seeded(2.0f64, 3.0, |x| x.mul(x));
    assert_eq!(d, 12.0);
}

#[test]
fn derivative_of_composition_follows_the_chain_rule() {
    // d/dx exp(x^2) = 2x exp(x^2)
    let x0 = 0.5f64;
    let d = differentiate(x0, |x| x.mul(x).exp());
    assert_eq!(d, (x0 * 1.0 + 1.0 * x0) * (x0 * x0).exp());
}

#[test]
fn derivative_through_operators() {
    let d = differentiate(2.0f64, |x| x * x + x);
    assert_eq!(d, 5.0);
    let e = differentiate(1.0f64, |x| DualNumber::from_real(1.0) / x);
    assert_eq!(e, -1.0);
}
