use syunit::Scalar;

#[test]
fn scalar_add_exact() {
    // 1/3 + 1/6 == 1/2
    let a = Scalar::ratio(1, 3);
    let b = Scalar::ratio(1, 6);
    assert!(a.add(b) == Scalar::ratio(1, 2));
}

#[test]
fn scalar_add_then_sub_recovers() {
    let a = Scalar::ratio(1, 3);
    let b = Scalar::ratio(1, 6);
    assert!(a.add(b).sub(b) == a);
}

#[test]
fn scalar_add_commutes() {
    let a = Scalar::ratio(7, 5);
    let b = Scalar::ratio(-3, 11);
    assert!(a.add(b) == b.add(a));
}

#[test]
fn scalar_ratio_reduces_to_lowest_terms() {
    let a = Scalar::ratio(2, 4);
    assert!(a == Scalar::ratio(1, 2));
    assert_eq!(a.numerator(), 1);
    assert_eq!(a.denominator(), 2);
}

#[test]
fn scalar_ratio_negative_denominator() {
    let a = Scalar::ratio(3, -6);
    assert_eq!(a.numerator(), -1);
    assert_eq!(a.denominator(), 2);
}

#[test]
fn scalar_div_then_mul_recovers() {
    // (10 / 3) * 3 == 10, exactly
    let q = Scalar::from_int(10);
    let t = Scalar::from_int(3);
    assert!(q.div(t).mul(t) == q);
}

#[test]
fn scalar_division_by_zero_gives_signed_infinity() {
    let z = Scalar::zero();
    let pos = Scalar::from_int(4).div(z);
    let neg = Scalar::from_int(-4).div(z);
    assert!(!pos.is_finite());
    assert!(!pos.is_nan());
    assert!(pos.is_sign_positive());
    assert!(!neg.is_finite());
    assert!(neg.is_sign_negative());
    assert!(pos == Scalar::infinity());
    assert!(neg == Scalar::neg_infinity());
}

#[test]
fn scalar_zero_over_zero_is_nan() {
    let r = Scalar::zero().div(Scalar::zero());
    assert!(r.is_nan());
}

#[test]
fn scalar_nan_propagates_and_equals_nothing() {
    let nan = Scalar::nan();
    assert!(nan != nan);
    assert!(nan.add(Scalar::one()).is_nan());
    assert!(nan.mul(Scalar::one()).is_nan());
    assert!(!nan.lt(Scalar::one()));
    assert!(!Scalar::one().lt(nan));
}

#[test]
fn scalar_infinity_arithmetic() {
    let inf = Scalar::infinity();
    let minf = Scalar::neg_infinity();
    assert!(inf.add(minf).is_nan());
    assert!(inf.add(Scalar::one()) == inf);
    assert!(inf.mul(Scalar::zero()).is_nan());
    assert!(inf.mul(Scalar::from_int(-2)) == minf);
    assert!(Scalar::one().div(inf) == Scalar::zero());
    assert!(inf.div(inf).is_nan());
}

#[test]
fn scalar_min_max_ignore_nan() {
    let nan = Scalar::nan();
    let one = Scalar::one();
    assert!(nan.max(one) == one);
    assert!(one.max(nan) == one);
    assert!(nan.min(one) == one);
    assert!(one.min(Scalar::zero()) == Scalar::zero());
    assert!(one.max(Scalar::zero()) == one);
}

#[test]
fn scalar_comparisons() {
    let a = Scalar::ratio(1, 3);
    let b = Scalar::ratio(1, 2);
    assert!(a.lt(b));
    assert!(a.le(b));
    assert!(b.gt(a));
    assert!(b.ge(a));
    assert!(Scalar::neg_infinity().lt(a));
    assert!(a.lt(Scalar::infinity()));
}

#[test]
fn scalar_neg_and_abs() {
    let a = Scalar::ratio(-3, 4);
    assert!(a.neg() == Scalar::ratio(3, 4));
    assert!(a.abs() == Scalar::ratio(3, 4));
    assert!(a.is_sign_negative());
    assert!(Scalar::neg_infinity().abs() == Scalar::infinity());
}

#[test]
fn scalar_is_normal() {
    assert!(Scalar::one().is_normal());
    assert!(!Scalar::zero().is_normal());
    assert!(!Scalar::infinity().is_normal());
    assert!(!Scalar::nan().is_normal());
}

#[test]
fn scalar_powi() {
    let two = Scalar::from_int(2);
    assert!(two.powi(10) == Scalar::from_int(1024));
    assert!(two.powi(0) == Scalar::one());
    assert!(two.powi(-2) == Scalar::ratio(1, 4));
    assert!(Scalar::zero().powi(0) == Scalar::one());
}

#[test]
fn scalar_overflow_is_reported_as_nan() {
    // the product of two large coprime denominators cannot be reduced and
    // exceeds the representable range
    let a = Scalar::ratio(1, i64::MAX);
    let b = Scalar::ratio(1, i64::MAX - 1);
    assert!(a.mul(b).is_nan());
}

#[test]
fn scalar_order_operators() {
    let a = Scalar::ratio(1, 3);
    let b = Scalar::ratio(1, 2);
    assert!(a < b);
    assert!(b > a);
    assert!(a <= a);
    assert!(!(Scalar::nan() < a));
    assert!(!(Scalar::nan() >= a));
    assert!(!(a < Scalar::nan()));
}
