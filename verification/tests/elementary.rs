use dual_num::DualNumber;

fn x(re: f64, du: f64) -> DualNumber<f64> {
    DualNumber::new(re, du)
}

#[test]
fn sqrt_rule() {
    assert_eq!(x(4.0, 1.0).sqrt().unwrap().into_tuple(), (2.0, 0.25));
    assert_eq!(x(9.0, 6.0).sqrt().unwrap().into_tuple(), (3.0, 1.0));
}

#[test]
fn cbrt_rule() {
    let r = x(8.0, 12.0).cbrt().unwrap();
    let root = 8.0f64.cbrt();
    assert_eq!(r.into_tuple(), (root, 12.0 / (3.0 * root * root)));
    assert_eq!(x(8.0, 12.0).cbrt_from(2.0, 3.0).into_tuple(), (2.0, 1.0));
}

#[test]
fn exp_rule() {
    assert_eq!(x(0.0, 3.0).exp().into_tuple(), (1.0, 3.0));
    let e = 1.0f64.exp();
    assert_eq!(x(1.0, 2.0).exp().into_tuple(), (e, 2.0 * e));
}

#[test]
fn exp2_rule() {
    let r = x(3.0, 1.0).exp2();
    assert_eq!(r.into_tuple(), (8.0, 1.0 * std::f64::consts::LN_2 * 8.0));
}

#[test]
fn ln_rule() {
    assert_eq!(x(2.0, 4.0).ln().into_tuple(), (2.0f64.ln(), 2.0));
}

#[test]
fn log2_and_log10_rules() {
    assert_eq!(x(8.0, 1.0).log2().into_tuple(), (3.0, 1.0 / (8.0 * std::f64::consts::LN_2)));
    assert_eq!(x(100.0, 1.0).log10().into_tuple(), (2.0, 1.0 / (100.0 * std::f64::consts::LN_10)));
}

#[test]
fn log_is_the_quotient_of_natural_logarithms() {
    let a = x(8.0, 1.0);
    let b = x(2.0, 0.0);
    let expected = a.ln().div(b.ln());
    assert_eq!(a.log(b).into_tuple(), expected.into_tuple());
}

#[test]
fn powi_rule() {
    assert_eq!(x(2.0, 1.0).powi(3).unwrap().into_tuple(), (8.0, 12.0));
    assert_eq!(x(3.0, 2.0).powi(2).unwrap().into_tuple(), (9.0, 12.0));
    assert_eq!(x(5.0, 1.0).powi(0).unwrap().into_tuple(), (1.0, 0.0));
}

#[test]
fn powf_rule() {
    let r = x(2.0, 1.0).powf(x(3.0, 0.0));
    assert_eq!(r.into_tuple(), (8.0, 3.0 * 4.0 * 1.0 + 8.0 * 2.0f64.ln() * 0.0));
    let s = x(2.0, 0.0).powf(x(3.0, 1.0));
    assert_eq!(s.into_tuple(), (8.0, 3.0 * 4.0 * 0.0 + 8.0 * 2.0f64.ln() * 1.0));
}

#[test]
fn sin_and_cos_rules() {
    assert_eq!(x(0.0, 1.0).sin().into_tuple(), (0.0, 1.0));
    let c = x(0.0, 1.0).cos();
    assert_eq!(c.real_part(), 1.0);
    assert_eq!(c.dual(), 0.0);
    let a = 0.75f64;
    assert_eq!(x(a, 2.0).sin().into_tuple(), (a.sin(), 2.0 * a.cos()));
    assert_eq!(x(a, 2.0).cos().into_tuple(), (a.cos(), -2.0 * a.sin()));
}

#[test]
fn sin_cos_agrees_with_sin_and_cos() {
    for a in [0.0f64, 0.5, 1.0, -2.25, 3.0] {
        let d = x(a, 1.5);
        let (s, c) = d.sin_cos();
        assert_eq!(s.into_tuple(), d.sin().into_tuple());
        assert_eq!(c.into_tuple(), d.cos().into_tuple());
    }
}

#[test]
fn sin_cos_from_agrees_with_sin_from_and_cos_from() {
    let d = x(0.3, 4.0);
    let (s, c) = d.sin_cos_from(0.25, 0.5);
    assert_eq!(s.into_tuple(), d.sin_from(0.25, 0.5).into_tuple());
    assert_eq!(c.into_tuple(), d.cos_from(0.25, 0.5).into_tuple());
    assert_eq!(s.into_tuple(), (0.25, 2.0));
    assert_eq!(c.into_tuple(), (0.5, -1.0));
}

#[test]
fn tan_rule() {
    let a = 0.5f64;
    let t = a.tan();
    assert_eq!(x(a, 2.0).tan().into_tuple(), (t, 2.0 * (t * t + 1.0)));
}

#[test]
fn inverse_trigonometric_rules() {
    let a = 0.5f64;
    assert_eq!(x(a, 3.0).asin().into_tuple(), (a.asin(), 3.0 / (1.0 - a.powi(2)).sqrt()));
    assert_eq!(x(a, 3.0).acos().into_tuple(), (a.acos(), -3.0 / (1.0 - a.powi(2)).sqrt()));
    assert_eq!(x(a, 3.0).atan().into_tuple(), (a.atan(), 3.0 / (a.powi(2) + 1.0)));
    assert_eq!(x(1.0, 1.0).atan().dual(), 0.5);
}

#[test]
fn atan2_rule() {
    let y = x(1.0, 1.0);
    let o = x(2.0, 0.0);
    assert_eq!(y.atan2(o).into_tuple(), (1.0f64.atan2(2.0), (2.0 * 1.0 - 1.0 * 0.0) / (1.0 + 4.0)));
}

#[test]
fn exp_m1_and_ln_1p_rules() {
    let a = 0.25f64;
    assert_eq!(x(a, 2.0).exp_m1().into_tuple(), (a.exp_m1(), 2.0 * a.exp()));
    assert_eq!(x(a, 2.0).ln_1p().into_tuple(), (a.ln_1p(), 2.0 / (a + 1.0)));
}

#[test]
fn hyperbolic_rules() {
    let a = 0.5f64;
    assert_eq!(x(a, 2.0).sinh().into_tuple(), (a.sinh(), 2.0 * a.cosh()));
    assert_eq!(x(a, 2.0).cosh().into_tuple(), (a.cosh(), 2.0 * a.sinh()));
    let t = a.tanh();
    assert_eq!(x(a, 2.0).tanh().into_tuple(), (t, 2.0 * (1.0 - t.powi(2))));
}

#[test]
fn inverse_hyperbolic_rules() {
    let a = 0.5f64;
    assert_eq!(x(a, 2.0).asinh().into_tuple(), (a.asinh(), 2.0 / (a.powi(2) + 1.0).sqrt()));
    assert_eq!(x(a, 2.0).atanh().into_tuple(), (a.atanh(), 2.0 / (1.0 - a.powi(2))));
    let b = 3.0f64;
    assert_eq!(x(b, 2.0).acosh().into_tuple(), (b.acosh(), 2.0 / ((b + 1.0).sqrt() * (b - 1.0).sqrt())));
}

#[test]
fn hypot_rule() {
    let r = x(3.0, 1.0).hypot(x(4.0, 2.0));
    assert_eq!(r.into_tuple(), (5.0, (3.0 * 2.0 + 4.0 * 1.0) / 5.0));
}

#[test]
fn mul_add_rule() {
    let r = x(2.0, 1.0).mul_add(x(3.0, 4.0), x(5.0, 6.0));
    assert_eq!(r.into_tuple(), (11.0, 1.0 * 3.0 + 2.0 * 4.0 + 6.0));
}

#[test]
fn recip_is_one_divided_by_the_operand() {
    assert_eq!(x(4.0, 1.0).recip().into_tuple(), (0.25, -1.0 / 16.0));
}

#[test]
fn floor_ceil_round_trunc_have_zero_dual_part() {
    for du in [0.0f64, 1.0, -7.5, 1.0e9] {
        assert_eq!(x(2.5, du).floor().into_tuple(), (2.0, 0.0));
        assert_eq!(x(2.5, du).ceil().into_tuple(), (3.0, 0.0));
        assert_eq!(x(2.5, du).round().into_tuple(), (3.0, 0.0));
        assert_eq!(x(-2.5, du).trunc().into_tuple(), (-2.0, 0.0));
    }
}

#[test]
fn step_from_takes_the_zero_it_is_given() {
    assert_eq!(x(2.5, 9.0).step_from(2.0, 0.0).into_tuple(), (2.0, 0.0));
}

#[test]
fn fract_passes_the_dual_part_through() {
    assert_eq!(x(2.75, 9.0).fract().into_tuple(), (0.75, 9.0));
}

#[test]
fn abs_scales_the_dual_part_by_the_sign() {
    assert_eq!(x(-3.0, 2.0).abs().into_tuple(), (3.0, -2.0));
    assert_eq!(x(3.0, 2.0).abs().into_tuple(), (3.0, 2.0));
    assert_eq!(DualNumber::new(-4i32, 5).abs().into_tuple(), (4, -5));
    assert_eq!(DualNumber::new(0i32, 5).abs().into_tuple(), (0, 0));
}

#[test]
fn signum_is_a_constant() {
    assert_eq!(x(-3.0, 2.0).signum().into_tuple(), (-1.0, 0.0));
    assert_eq!(x(3.0, 2.0).signum().into_tuple(), (1.0, 0.0));
}

#[test]
fn abs_sub_is_the_positive_difference() {
    assert_eq!(x(5.0, 3.0).abs_sub(x(2.0, 1.0)).into_tuple(), (3.0, 2.0));
    assert_eq!(x(2.0, 3.0).abs_sub(x(5.0, 1.0)).into_tuple(), (0.0, 0.0));
    assert_eq!(x(2.0, 3.0).abs_sub(x(2.0, 1.0)).into_tuple(), (0.0, 0.0));
}

#[test]
fn abs_sub_from_returns_the_given_zero() {
    let z = x(0.0, 0.0);
    assert_eq!(x(2.0, 3.0).abs_sub_from(x(5.0, 1.0), z).into_tuple(), (0.0, 0.0));
    assert_eq!(x(9.0, 3.0).abs_sub_from(x(5.0, 1.0), z).into_tuple(), (4.0, 2.0));
}

#[test]
fn sign_predicates_read_the_real_part() {
    assert!(x(1.0, -1.0).is_positive());
    assert!(x(-1.0, 1.0).is_negative());
    assert!(x(1.0, -1.0).is_sign_positive());
    assert!(x(-1.0, 1.0).is_sign_negative());
}

#[test]
fn nan_and_infinity_in_either_part() {
    assert!(x(f64::NAN, 0.0).is_nan());
    assert!(x(0.0, f64::NAN).is_nan());
    assert!(!x(0.0, 0.0).is_nan());
    assert!(x(f64::INFINITY, 0.0).is_infinite());
    assert!(x(0.0, f64::NEG_INFINITY).is_infinite());
    assert!(!x(1.0, 2.0).is_infinite());
}

#[test]
fn finite_and_normal_need_both_parts() {
    assert!(x(1.0, 2.0).is_finite());
    assert!(!x(1.0, f64::INFINITY).is_finite());
    assert!(!x(f64::NAN, 1.0).is_finite());
    assert!(x(1.0, 2.0).is_normal());
    assert!(!x(1.0, 0.0).is_normal());
    assert!(!x(0.0, 1.0).is_normal());
}

#[test]
fn integer_decode_reads_the_real_part() {
    assert_eq!(x(1.0, 5.0).integer_decode(), (1u64 << 52, -52, 1));
}

#[test]
fn domain_errors_follow_the_scalar_type() {
    assert!(x(-1.0, 1.0).sqrt().unwrap().real_part().is_nan());
    assert!(x(-1.0, 1.0).ln().real_part().is_nan());
    assert!(x(1.0, 1.0).div(x(0.0, 1.0)).real_part().is_infinite());
}
