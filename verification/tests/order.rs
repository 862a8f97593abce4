use dual_num::DualNumber;

#[test]
fn equality_reads_the_real_part_only() {
    assert!(DualNumber::new(5.0f64, 1.0) == DualNumber::new(5.0, 99.0));
    assert!(DualNumber::new(5.0f64, 1.0) != DualNumber::new(6.0, 1.0));
}

#[test]
fn order_reads_the_real_part_only() {
    assert!(DualNumber::new(5.0f64, 1.0) < DualNumber::new(6.0, 0.0));
    assert!(DualNumber::new(5.0f64, 100.0) < DualNumber::new(6.0, -100.0));
    assert!(DualNumber::new(5.0f64, 1.0) <= DualNumber::new(5.0, 0.0));
    assert!(DualNumber::new(6.0f64, 0.0) > DualNumber::new(5.0, 9.0));
    assert!(DualNumber::new(6.0f64, 0.0) >= DualNumber::new(6.0, 9.0));
    assert!(!(DualNumber::new(6.0f64, 0.0) < DualNumber::new(5.0, 9.0)));
}

#[test]
fn partial_cmp_is_that_of_the_real_parts() {
    let a = DualNumber::new(1.0f64, 7.0);
    let b = DualNumber::new(2.0f64, 3.0);
    assert_eq!(a.partial_cmp(&b), Some(std::cmp::Ordering::Less));
    assert_eq!(b.partial_cmp(&a), Some(std::cmp::Ordering::Greater));
    assert_eq!(a.partial_cmp(&a), Some(std::cmp::Ordering::Equal));
    let n = DualNumber::new(f64::NAN, 0.0);
    assert_eq!(a.partial_cmp(&n), None);
}

#[test]
fn comparison_with_a_scalar() {
    let a = DualNumber::new(5.0f64, 3.0);
    assert!(a == 5.0);
    assert!(a != 4.0);
    assert!(a < 6.0);
    assert!(a <= 5.0);
    assert!(a > 4.0);
    assert!(a >= 5.0);
    assert_eq!(a.partial_cmp(&7.0), Some(std::cmp::Ordering::Less));
}

#[test]
fn max_keeps_the_dual_part_of_the_selected_operand() {
    let r = DualNumber::new(3.0f64, 10.0).max(DualNumber::new(7.0, 20.0));
    assert_eq!(r.into_tuple(), (7.0, 20.0));
    let s = DualNumber::new(7.0f64, 20.0).max(DualNumber::new(3.0, 10.0));
    assert_eq!(s.into_tuple(), (7.0, 20.0));
}

#[test]
fn min_keeps_the_dual_part_of_the_selected_operand() {
    let r = DualNumber::new(3.0f64, 10.0).min(DualNumber::new(7.0, 20.0));
    assert_eq!(r.into_tuple(), (3.0, 10.0));
    let s = DualNumber::new(7.0f64, 20.0).min(DualNumber::new(3.0, 10.0));
    assert_eq!(s.into_tuple(), (3.0, 10.0));
}

#[test]
fn max_and_min_of_equal_real_parts_return_the_second() {
    let a = DualNumber::new(4.0f64, 1.0);
    let b = DualNumber::new(4.0f64, 2.0);
    assert_eq!(a.max(b).into_tuple(), (4.0, 2.0));
    assert_eq!(a.min(b).into_tuple(), (4.0, 2.0));
}
