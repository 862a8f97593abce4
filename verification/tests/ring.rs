use dual_num::{DualError, DualNumber};

#[test]
fn add_sums_both_parts() {
    let r = DualNumber::new(1.5f64, 2.0).add(DualNumber::new(0.25, -4.0));
    assert_eq!(r.into_tuple(), (1.75, -2.0));
}

#[test]
fn sub_subtracts_both_parts() {
    let r = DualNumber::new(1.5f64, 2.0).sub(DualNumber::new(0.25, -4.0));
    assert_eq!(r.into_tuple(), (1.25, 6.0));
}

#[test]
fn mul_follows_the_product_rule() {
    let r = DualNumber::new(3.0f64, 2.0).mul(DualNumber::new(5.0, 7.0));
    assert_eq!(r.into_tuple(), (15.0, 3.0 * 7.0 + 2.0 * 5.0));
}

#[test]
fn div_follows_the_quotient_rule() {
    let r = DualNumber::new(6.0f64, 2.0).div(DualNumber::new(3.0, 1.0));
    assert_eq!(r.into_tuple(), (2.0, 0.0));
    let s = DualNumber::new(1.0f64, 0.0).div(DualNumber::new(4.0, 1.0));
    assert_eq!(s.into_tuple(), (0.25, -1.0 / 16.0));
}

#[test]
fn neg_negates_both_parts() {
    let r = DualNumber::new(3.0f64, -2.0).neg();
    assert_eq!(r.into_tuple(), (-3.0, 2.0));
}

#[test]
fn scalar_add_and_sub_keep_the_dual_part() {
    let x = DualNumber::new(3.0f64, 2.0);
    assert_eq!(x.add_scalar(4.0).into_tuple(), (7.0, 2.0));
    assert_eq!(x.sub_scalar(4.0).into_tuple(), (-1.0, 2.0));
}

#[test]
fn scalar_mul_and_div_treat_the_scalar_as_constant() {
    let x = DualNumber::new(3.0f64, 2.0);
    assert_eq!(x.mul_scalar(4.0).into_tuple(), (12.0, 8.0));
    assert_eq!(x.div_scalar(4.0).into_tuple(), (0.75, 0.5));
}

#[test]
fn ring_operations_over_integers() {
    let a = DualNumber::new(3i32, 2);
    let b = DualNumber::new(5i32, 7);
    assert_eq!(a.add(b).into_tuple(), (8, 9));
    assert_eq!(a.sub(b).into_tuple(), (-2, -5));
    assert_eq!(a.mul(b).into_tuple(), (15, 31));
    assert_eq!(a.neg().into_tuple(), (-3, -2));
}

#[test]
fn rem_fails_on_every_pair() {
    let pairs = [(1.0f64, 0.0, 2.0, 0.0), (0.0, 0.0, 0.0, 0.0), (7.5, 1.0, 2.5, 1.0), (-3.0, 2.0, 4.0, -1.0)];
    for (a, b, c, d) in pairs {
        let r = DualNumber::new(a, b).rem(DualNumber::new(c, d));
        assert!(matches!(r, Err(DualError::Unsupported)));
    }
    assert!(DualNumber::new(7i32, 1).rem(DualNumber::new(2, 0)).is_err());
}

#[test]
fn zero_and_one_are_constants() {
    assert_eq!(DualNumber::<f64>::zero().into_tuple(), (0.0, 0.0));
    assert_eq!(DualNumber::<f64>::one().into_tuple(), (1.0, 0.0));
    assert_eq!(DualNumber::<u8>::one().into_tuple(), (1, 0));
}

#[test]
fn is_zero_reads_the_real_part_only() {
    assert!(DualNumber::new(0.0f64, 5.0).is_zero());
    assert!(!DualNumber::new(1.0f64, 0.0).is_zero());
}

#[test]
fn operators_are_the_methods() {
    let a = DualNumber::new(6.0f64, 2.0);
    let b = DualNumber::new(3.0f64, 1.0);
    assert_eq!((a + b).into_tuple(), a.add(b).into_tuple());
    assert_eq!((a - b).into_tuple(), a.sub(b).into_tuple());
    assert_eq!((a * b).into_tuple(), (18.0, 12.0));
    assert_eq!((a / b).into_tuple(), (2.0, 0.0));
    assert_eq!((-a).into_tuple(), (-6.0, -2.0));
    assert_eq!((a + 1.5).into_tuple(), (7.5, 2.0));
    assert_eq!((a - 1.5).into_tuple(), (4.5, 2.0));
}
