use syunit::imperial::Inches;
use syunit::metric::{
    KgMeter2, Kilogramms, MMPerSecond, MMPerSecond2, MMPerSecond3, Meters, Millimeters,
    NewtonMeters, Newtons, PositionMM,
};
use syunit::{
    Direction, Hertz, MetricMM, Qty, RadPerSecond, RadPerSecond2, Radians, Rotary, Scalar,
    Seconds, UnitSet,
};

#[test]
fn millimeters_add() {
    // 5 mm + 3 mm == 8 mm
    let a = Qty::<Millimeters>::from_int(5);
    let b = Qty::<Millimeters>::from_int(3);
    assert!(a.add(b) == Qty::<Millimeters>::from_int(8));
}

#[test]
fn position_difference_is_distance() {
    // a position difference comes out in the paired relative unit
    let p1 = Qty::<PositionMM>::from_int(10);
    let p2 = Qty::<PositionMM>::from_int(4);
    let d: Qty<Millimeters> = p1.sub(p2);
    assert!(d == Qty::<Millimeters>::from_int(6));
}

#[test]
fn position_plus_difference_recovers() {
    let p1 = Qty::<PositionMM>::ratio(7, 3);
    let p2 = Qty::<PositionMM>::ratio(-5, 6);
    let d = p1.sub(p2);
    assert!(p2.add(d) == p1);
}

#[test]
fn distance_over_time_is_velocity() {
    // 10 mm / 2 s == 5 mm/s
    let d = Qty::<Millimeters>::from_int(10);
    let t = Qty::<Seconds>::from_int(2);
    let v: Qty<MMPerSecond> = d.div(t);
    assert!(v == Qty::<MMPerSecond>::from_int(5));
}

#[test]
fn rate_ladder_round_trip() {
    // (q / t) * t == q, exactly, even where the quotient is not integral
    let q = Qty::<Millimeters>::from_int(10);
    let t = Qty::<Seconds>::from_int(3);
    let v = q.div(t);
    assert!(v.mul(t) == q);
}

#[test]
fn rate_ladder_chain() {
    // distance -> velocity -> acceleration -> jolt and back
    let d = Qty::<Millimeters>::from_int(24);
    let t = Qty::<Seconds>::from_int(2);
    let v: Qty<MMPerSecond> = d.div(t);
    let a: Qty<MMPerSecond2> = v.div(t);
    let j: Qty<MMPerSecond3> = a.div(t);
    assert!(j == Qty::<MMPerSecond3>::from_int(3));
    assert!(j.mul(t).mul(t).mul(t) == d);
}

#[test]
fn quantity_over_rate_is_time() {
    let d = Qty::<Millimeters>::from_int(10);
    let v = Qty::<MMPerSecond>::from_int(5);
    let t: Qty<Seconds> = d.div(v);
    assert!(t == Qty::<Seconds>::from_int(2));
}

#[test]
fn division_by_zero_time_is_infinite() {
    let d = Qty::<Millimeters>::from_int(10);
    let t = Qty::<Seconds>::zero();
    let v = d.div(t);
    assert!(!v.is_finite());
    assert!(!v.is_nan());
    assert!(v == Qty::<MMPerSecond>::infinity());
    let z = Qty::<Millimeters>::zero().div(t);
    assert!(z.is_nan());
}

#[test]
fn inches_to_millimeters_and_back() {
    // 1 in == 25.4 mm, and the conversion round-trips exactly
    let inch = Qty::<Inches>::from_int(1);
    let mm: Qty<Millimeters> = inch.convert_to();
    assert!(mm == Qty::<Millimeters>::ratio(127, 5));
    let back: Qty<Inches> = mm.convert_back();
    assert!(back == inch);
}

#[test]
fn meters_to_millimeters() {
    let m = Qty::<Meters>::from_int(2);
    let mm: Qty<Millimeters> = m.convert_to();
    assert!(mm == Qty::<Millimeters>::from_int(2000));
}

#[test]
fn arc_length_from_angle_and_radius() {
    // 2 rad * 3 mm == 6 mm of arc
    let ang = Qty::<Radians>::from_int(2);
    let radius = Qty::<Millimeters>::from_int(3);
    let arc: Qty<Millimeters> = ang.mul(radius);
    assert!(arc == Qty::<Millimeters>::from_int(6));
}

#[test]
fn angular_velocity_times_radius() {
    let w = Qty::<RadPerSecond>::from_int(2);
    let radius = Qty::<Millimeters>::from_int(3);
    let v: Qty<MMPerSecond> = w.mul(radius);
    assert!(v == Qty::<MMPerSecond>::from_int(6));
}

#[test]
fn force_from_mass_and_acceleration() {
    // 2000 mm/s^2 * 3 kg == 6 N, the scaled link of the metric family
    let a = Qty::<MMPerSecond2>::from_int(2000);
    let m = Qty::<Kilogramms>::from_int(3);
    let f: Qty<Newtons> = a.mul(m);
    assert!(f == Qty::<Newtons>::from_int(6));
    let back: Qty<MMPerSecond2> = f.div(m);
    assert!(back == a);
}

#[test]
fn torque_from_inertia_and_angular_acceleration() {
    let i = Qty::<KgMeter2>::from_int(2);
    let a = Qty::<RadPerSecond2>::from_int(3);
    let torque: Qty<NewtonMeters> = i.mul(a);
    assert!(torque == Qty::<NewtonMeters>::from_int(6));
}

#[test]
fn torque_from_force_and_lever() {
    // 2000 N on a 3 mm lever: 2000 * 3 / 1000 == 6 Nm
    let f = Qty::<Newtons>::from_int(2000);
    let lever = Qty::<Millimeters>::from_int(3);
    let torque: Qty<NewtonMeters> = f.mul(lever);
    assert!(torque == Qty::<NewtonMeters>::from_int(6));
}

#[test]
fn inertia_reduce_and_extend_are_inverses() {
    // 2 kg on a 1000 mm radius acts as 2 kgm^2, and back
    let m = Qty::<Kilogramms>::from_int(2);
    let radius = Qty::<Millimeters>::from_int(1000);
    let reduced: Qty<KgMeter2> = m.reduce(radius);
    assert!(reduced == Qty::<KgMeter2>::from_int(2));
    let back: Qty<Kilogramms> = Qty::<Kilogramms>::extend(reduced, radius);
    assert!(back == m);
}

#[test]
fn seconds_and_hertz_are_reciprocal() {
    let t = Qty::<Seconds>::ratio(1, 4);
    let f: Qty<Hertz> = t.recip();
    assert!(f == Qty::<Hertz>::from_int(4));
    let product = t.times_inv(Qty::<Hertz>::from_int(8));
    assert!(product == Scalar::from_int(2));
}

#[test]
fn scale_by_bare_scalar() {
    let d = Qty::<Millimeters>::from_int(3);
    assert!(d.scale(Scalar::from_int(2)) == Qty::<Millimeters>::from_int(6));
    assert!(d.div_scale(Scalar::from_int(-2)) == Qty::<Millimeters>::ratio(-3, 2));
    assert!(d.ratio_to(Qty::<Millimeters>::from_int(12)) == Scalar::ratio(1, 4));
}

#[test]
fn unit_min_max_and_refs() {
    let a = Qty::<Millimeters>::from_int(2);
    let b = Qty::<Millimeters>::from_int(5);
    assert!(a.max(b) == b);
    assert!(a.min(b) == a);
    assert!(*a.max_ref(&b) == b);
    assert!(*a.min_ref(&b) == a);
}

#[test]
fn unit_direction() {
    assert_eq!(Qty::<Millimeters>::from_int(3).get_direction(), Direction::CW);
    assert_eq!(Qty::<Millimeters>::zero().get_direction(), Direction::CW);
    assert_eq!(Qty::<Millimeters>::from_int(-3).get_direction(), Direction::CCW);
    assert_eq!(Qty::<Millimeters>::nan().get_direction(), Direction::CCW);
}

#[test]
fn unit_assigning_forms() {
    let mut d = Qty::<Millimeters>::from_int(5);
    d.add_assign(Qty::<Millimeters>::from_int(3));
    assert!(d == Qty::<Millimeters>::from_int(8));
    d.sub_assign(Qty::<Millimeters>::from_int(2));
    assert!(d == Qty::<Millimeters>::from_int(6));
    let mut p = Qty::<PositionMM>::from_int(10);
    p.add_assign(Qty::<Millimeters>::from_int(1));
    p.sub_assign(Qty::<Millimeters>::from_int(4));
    assert!(p == Qty::<PositionMM>::from_int(7));
}

#[test]
fn unit_powi() {
    let d = Qty::<Millimeters>::from_int(3);
    assert!(d.powi(2) == Qty::<Millimeters>::from_int(9));
    assert!(d.powi(-1) == Qty::<Millimeters>::ratio(1, 3));
}

fn travel<S: UnitSet>(v: Qty<S::Velocity>, t: Qty<S::Time>) -> Qty<S::Distance> {
    v.mul(t)
}

#[test]
fn generic_code_over_a_unit_set() {
    // the same generic function runs against both built-in families
    let linear = travel::<MetricMM>(Qty::from_int(5), Qty::from_int(2));
    assert!(linear == Qty::<Millimeters>::from_int(10));
    let rotary = travel::<Rotary>(Qty::from_int(3), Qty::from_int(4));
    assert!(rotary == Qty::<Radians>::from_int(12));
}

#[test]
fn angular_position_conversion() {
    let p = Qty::<syunit::PositionRad>::from_int(2);
    let rel: Qty<Radians> = p.convert_to();
    assert!(rel == Qty::<Radians>::from_int(2));
}

#[test]
fn unit_order_operators() {
    let a = Qty::<Millimeters>::from_int(2);
    let b = Qty::<Millimeters>::from_int(5);
    assert!(a < b);
    assert!(b >= a);
    assert!(Qty::<Millimeters>::neg_infinity() < a);
    assert!(a < Qty::<Millimeters>::infinity());
    assert!(!(Qty::<Millimeters>::nan() < a));
}

#[test]
fn rotary_force_triangle() {
    // torque / inertia == angular acceleration, torque / acceleration == inertia
    let torque = Qty::<NewtonMeters>::from_int(6);
    let inertia = Qty::<KgMeter2>::from_int(2);
    let alpha: Qty<RadPerSecond2> = torque.div(inertia);
    assert!(alpha == Qty::<RadPerSecond2>::from_int(3));
    let back: Qty<KgMeter2> = torque.div(alpha);
    assert!(back == inertia);
}

#[test]
fn negation_and_absolute_value() {
    let d = Qty::<Millimeters>::ratio(-7, 2);
    assert!(d.neg() == Qty::<Millimeters>::ratio(7, 2));
    assert!(d.abs() == Qty::<Millimeters>::ratio(7, 2));
    assert!(d.is_sign_negative());
    assert!(d.neg().is_sign_positive());
}
