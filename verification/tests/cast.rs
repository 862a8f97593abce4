use dual_num::DualNumber;
use std::f64::consts;
use std::num::FpCategory;

#[test]
fn to_primitive_converts_the_real_part_only() {
    let x = DualNumber::new(42.75f64, 9.0);
    assert_eq!(x.to_i32(), Some(42));
    assert_eq!(x.to_u8(), Some(42));
    assert_eq!(x.to_i64(), Some(42));
    assert_eq!(x.to_usize(), Some(42));
    assert_eq!(DualNumber::new(-1.0f64, 9.0).to_u32(), None);
    assert_eq!(DualNumber::new(300.0f64, 9.0).to_u8(), None);
    assert_eq!(DualNumber::new(300.0f64, 9.0).to_i16(), Some(300));
    assert_eq!(DualNumber::new(-7i64, 1).to_isize(), Some(-7));
    assert_eq!(DualNumber::new(7u16, 1).to_u64(), Some(7));
    assert_eq!(DualNumber::new(7u16, 1).to_i8(), Some(7));
    assert_eq!(DualNumber::new(70000u32, 1).to_u16(), None);
}

#[test]
fn from_primitive_embeds_a_constant() {
    assert_eq!(DualNumber::<f64>::from_i32(-3).unwrap().into_tuple(), (-3.0, 0.0));
    assert_eq!(DualNumber::<f64>::from_u64(8).unwrap().into_tuple(), (8.0, 0.0));
    assert_eq!(DualNumber::<f32>::from_i8(-8).unwrap().into_tuple(), (-8.0, 0.0));
    assert_eq!(DualNumber::<f32>::from_usize(5).unwrap().into_tuple(), (5.0, 0.0));
    assert_eq!(DualNumber::<i16>::from_i16(5).unwrap().into_tuple(), (5, 0));
    assert_eq!(DualNumber::<i16>::from_isize(6).unwrap().into_tuple(), (6, 0));
    assert_eq!(DualNumber::<i16>::from_u8(7).unwrap().into_tuple(), (7, 0));
    assert_eq!(DualNumber::<i16>::from_u16(9).unwrap().into_tuple(), (9, 0));
    assert!(DualNumber::<u8>::from_i64(-1).is_none());
    assert!(DualNumber::<u8>::from_u32(256).is_none());
}

#[test]
fn cast_from_embeds_a_constant() {
    assert_eq!(DualNumber::<f64>::cast_from(3u8).unwrap().into_tuple(), (3.0, 0.0));
    assert_eq!(DualNumber::<f64>::cast_from(2.5f32).unwrap().into_tuple(), (2.5, 0.0));
    assert!(DualNumber::<u8>::cast_from(-2i32).is_none());
}

#[test]
fn embed_keeps_the_scalar_and_the_absence() {
    assert_eq!(DualNumber::embed(Some(4.5f64)).unwrap().into_tuple(), (4.5, 0.0));
    assert!(DualNumber::<f64>::embed(None).is_none());
}

#[test]
fn embed_parsed_keeps_the_error() {
    let ok: Result<f64, String> = Ok(1.25);
    assert_eq!(DualNumber::embed_parsed(ok).unwrap().into_tuple(), (1.25, 0.0));
    let bad: Result<f64, String> = Err(String::from("no"));
    assert_eq!(DualNumber::embed_parsed(bad).unwrap_err(), "no");
}

#[test]
fn classify_reads_the_real_part() {
    assert_eq!(DualNumber::new(1.0f64, f64::NAN).classify(), FpCategory::Normal);
    assert_eq!(DualNumber::new(0.0f64, 1.0).classify(), FpCategory::Zero);
    assert_eq!(DualNumber::new(f64::NAN, 1.0).classify(), FpCategory::Nan);
    assert_eq!(DualNumber::new(f64::INFINITY, 1.0).classify(), FpCategory::Infinite);
}

#[test]
fn float_constants_have_zero_dual_part() {
    assert!(DualNumber::<f64>::nan().real_part().is_nan());
    assert_eq!(DualNumber::<f64>::nan().dual(), 0.0);
    assert_eq!(DualNumber::<f64>::infinity().into_tuple(), (f64::INFINITY, 0.0));
    assert_eq!(DualNumber::<f64>::neg_infinity().into_tuple(), (f64::NEG_INFINITY, 0.0));
    let nz = DualNumber::<f64>::neg_zero();
    assert!(nz.real_part() == 0.0 && nz.real_part().is_sign_negative());
    assert_eq!(nz.dual(), 0.0);
    assert_eq!(DualNumber::<f64>::min_positive_value().into_tuple(), (f64::MIN_POSITIVE, 0.0));
    assert_eq!(DualNumber::<f64>::min_value().into_tuple(), (f64::MIN, 0.0));
    assert_eq!(DualNumber::<f32>::max_value().into_tuple(), (f32::MAX, 0.0));
}

#[test]
fn mathematical_constants_have_zero_dual_part() {
    assert_eq!(DualNumber::<f64>::E().into_tuple(), (consts::E, 0.0));
    assert_eq!(DualNumber::<f64>::FRAC_1_PI().into_tuple(), (consts::FRAC_1_PI, 0.0));
    assert_eq!(DualNumber::<f64>::FRAC_1_SQRT_2().into_tuple(), (consts::FRAC_1_SQRT_2, 0.0));
    assert_eq!(DualNumber::<f64>::FRAC_2_PI().into_tuple(), (consts::FRAC_2_PI, 0.0));
    assert_eq!(DualNumber::<f64>::FRAC_2_SQRT_PI().into_tuple(), (consts::FRAC_2_SQRT_PI, 0.0));
    assert_eq!(DualNumber::<f64>::FRAC_PI_2().into_tuple(), (consts::FRAC_PI_2, 0.0));
    assert_eq!(DualNumber::<f64>::FRAC_PI_3().into_tuple(), (consts::FRAC_PI_3, 0.0));
    assert_eq!(DualNumber::<f64>::FRAC_PI_4().into_tuple(), (consts::FRAC_PI_4, 0.0));
    assert_eq!(DualNumber::<f64>::FRAC_PI_6().into_tuple(), (consts::FRAC_PI_6, 0.0));
    assert_eq!(DualNumber::<f64>::FRAC_PI_8().into_tuple(), (consts::FRAC_PI_8, 0.0));
    assert_eq!(DualNumber::<f64>::LN_10().into_tuple(), (consts::LN_10, 0.0));
    assert_eq!(DualNumber::<f64>::LN_2().into_tuple(), (consts::LN_2, 0.0));
    assert_eq!(DualNumber::<f64>::LOG10_E().into_tuple(), (consts::LOG10_E, 0.0));
    assert_eq!(DualNumber::<f64>::LOG2_E().into_tuple(), (consts::LOG2_E, 0.0));
    assert_eq!(DualNumber::<f64>::PI().into_tuple(), (consts::PI, 0.0));
    assert_eq!(DualNumber::<f32>::SQRT_2().into_tuple(), (std::f32::consts::SQRT_2, 0.0));
}
