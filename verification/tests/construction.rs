use dual_num::DualNumber;

#[test]
fn new_then_into_tuple_gives_the_parts_back() {
    assert_eq!(DualNumber::new(3.5f64, -2.0).into_tuple(), (3.5, -2.0));
    assert_eq!(DualNumber::new(7u32, 9).into_tuple(), (7, 9));
}

#[test]
fn from_real_has_zero_dual_part() {
    let c = DualNumber::from_real(4.25f64);
    assert_eq!(c.real_part(), 4.25);
    assert_eq!(c.dual(), 0.0);
}

#[test]
fn accessors_read_each_part() {
    let x = DualNumber::new(1.5f32, 2.5);
    assert_eq!(*x.real_ref(), 1.5);
    assert_eq!(*x.dual_ref(), 2.5);
    assert_eq!(x.real_part(), 1.5);
    assert_eq!(x.dual(), 2.5);
}

#[test]
fn mutable_access_changes_one_part_only() {
    let mut x = DualNumber::new(1.0f64, 2.0);
    *x.real_mut() = 10.0;
    assert_eq!(x.into_tuple(), (10.0, 2.0));
    *x.dual_mut() = 20.0;
    assert_eq!(x.into_tuple(), (10.0, 20.0));
}

#[test]
fn map_applies_the_function_to_the_value() {
    let x = DualNumber::new(2.0f64, 3.0);
    let y = x.map(|d| DualNumber::new(d.dual(), d.real_part()));
    assert_eq!(y.into_tuple(), (3.0, 2.0));
}

#[test]
fn map_parts_applies_the_function_to_the_parts() {
    let x = DualNumber::new(2.0f64, 3.0);
    let y = x.map_parts(|re, du| DualNumber::new(re + du, re - du));
    assert_eq!(y.into_tuple(), (5.0, -1.0));
}

#[test]
fn conjugate_negates_the_dual_part() {
    let x = DualNumber::new(2.0f64, 3.0);
    assert_eq!(x.conjugate().into_tuple(), (2.0, -3.0));
}

#[test]
fn conjugate_twice_gives_the_value_back() {
    let x = DualNumber::new(-1.25f64, 8.5);
    assert_eq!(x.conjugate().conjugate().into_tuple(), (-1.25, 8.5));
}

#[test]
fn text_has_two_decimals_by_default() {
    assert_eq!(DualNumber::new(1.5f64, 2.0).to_text(None), "1.50 + \u{03B5}2.00");
    assert_eq!(DualNumber::new(-0.125f64, 10.0).to_text(None), "-0.12 + \u{03B5}10.00");
}

#[test]
fn text_follows_the_precision_asked_for() {
    assert_eq!(DualNumber::new(1.5f64, 2.0).to_text(Some(4)), "1.5000 + \u{03B5}2.0000");
    assert_eq!(DualNumber::new(1.5f64, 2.0).to_text(Some(0)), "2 + \u{03B5}2");
}

#[test]
fn text_from_the_texts_of_the_parts() {
    assert_eq!(dual_num::text::render_parts("a", "b"), "a + \u{03B5}b");
    assert_eq!(dual_num::text::precision_or_default(None), 2);
    assert_eq!(dual_num::text::precision_or_default(Some(7)), 7);
}
