use syunit::metric::Millimeters;
use syunit::{Direction, Factor, Qty, Scalar};

#[test]
fn factor_try_new_accepts_the_unit_interval() {
    // 0.5 is accepted and kept exactly
    let f = Factor::try_new(Scalar::ratio(1, 2)).unwrap();
    assert!(f.as_scalar() == Scalar::ratio(1, 2));
    assert!(Factor::try_new(Scalar::zero()).is_some());
    assert!(Factor::try_new(Scalar::one()).is_some());
}

#[test]
fn factor_try_new_rejects_out_of_bounds() {
    // 1.5 is rejected, as are negatives and the specials
    assert!(Factor::try_new(Scalar::ratio(3, 2)).is_none());
    assert!(Factor::try_new(Scalar::ratio(-1, 2)).is_none());
    assert!(Factor::try_new(Scalar::infinity()).is_none());
    assert!(Factor::try_new(Scalar::nan()).is_none());
}

#[test]
fn factor_new_keeps_the_value() {
    let f = Factor::new(Scalar::ratio(1, 4));
    assert!(f.as_scalar() == Scalar::ratio(1, 4));
}

#[test]
fn factor_constants() {
    assert!(Factor::max_value().as_scalar() == Scalar::one());
    assert!(Factor::half().as_scalar() == Scalar::ratio(1, 2));
    assert!(Factor::min_value().as_scalar() == Scalar::zero());
}

#[test]
fn factor_product_stays_in_bounds() {
    let h = Factor::half();
    let q = h.mul(h);
    assert!(q.as_scalar() == Scalar::ratio(1, 4));
    let again = h.try_mul(q).unwrap();
    assert!(again.as_scalar() == Scalar::ratio(1, 8));
}

#[test]
fn factor_scales_a_unit() {
    let d = Qty::<Millimeters>::from_int(10);
    assert!(d.mul_by_factor(Factor::half()) == Qty::<Millimeters>::from_int(5));
}

#[test]
fn factor_duty_rounds_to_nearest() {
    // round(0.5 * 65535) == 32768, halves rounding up
    assert_eq!(Factor::half().get_duty(), 32768);
    assert_eq!(Factor::max_value().get_duty(), u16::MAX);
    assert_eq!(Factor::min_value().get_duty(), 0);
    // round(0.5 * 101) == 51
    assert_eq!(Factor::half().get_duty_for(101), 51);
    assert_eq!(Factor::new(Scalar::ratio(1, 3)).get_duty_for(100), 33);
    assert_eq!(Factor::new(Scalar::ratio(2, 3)).get_duty_for(100), 67);
}

#[test]
fn direction_from_bool_round_trips() {
    assert!(Direction::from_bool(true).as_bool());
    assert!(!Direction::from_bool(false).as_bool());
    assert_eq!(Direction::from_bool(true), Direction::CW);
    assert_eq!(Direction::from_bool(false), Direction::CCW);
}

#[test]
fn direction_from_u8_round_trips() {
    assert_eq!(Direction::from_u8(0), Direction::CCW);
    assert_eq!(Direction::from_u8(1), Direction::CW);
    assert_eq!(Direction::from_u8(77), Direction::CW);
    assert_eq!(Direction::CW.as_u8(), 1);
    assert_eq!(Direction::CCW.as_u8(), 0);
}

#[test]
fn direction_default_is_clockwise() {
    assert_eq!(Direction::default(), Direction::CW);
}
