//! Metric units of measurement and the two unit families built from them:
//! the millimeter-centered linear family and the radian-centered rotary
//! family.

use vstd::prelude::*;
use crate::scalar::Scalar;
use crate::units::{
    AddUnit, AdditiveUnit, ConvUnit, DerivableUnit, DivUnit, InertiaUnit, IntegrableUnit,
    MulUnit, PositionUnit, SubUnit, Unit, UnitSet,
};
use crate::{PositionRad, RadPerSecond, RadPerSecond2, RadPerSecond3, Radians, Seconds};

verus! {

/// An absolute position in metric millimeters.
#[derive(Clone, Copy, Debug)]
pub struct PositionMM;

impl Unit for PositionMM {

}

/// A relative distance in metric millimeters.
#[derive(Clone, Copy, Debug)]
pub struct Millimeters;

impl Unit for Millimeters {

}

/// Velocity in millimeters per second.
#[derive(Clone, Copy, Debug)]
pub struct MMPerSecond;

impl Unit for MMPerSecond {

}

/// Acceleration in millimeters per second squared.
#[derive(Clone, Copy, Debug)]
pub struct MMPerSecond2;

impl Unit for MMPerSecond2 {

}

/// Jolt in millimeters per second cubed.
#[derive(Clone, Copy, Debug)]
pub struct MMPerSecond3;

impl Unit for MMPerSecond3 {

}

/// Force in newtons.
#[derive(Clone, Copy, Debug)]
pub struct Newtons;

impl Unit for Newtons {

}

/// Inertia (mass) in kilograms.
#[derive(Clone, Copy, Debug)]
pub struct Kilogramms;

impl Unit for Kilogramms {

}

/// Torque in newton meters.
#[derive(Clone, Copy, Debug)]
pub struct NewtonMeters;

impl Unit for NewtonMeters {

}

/// A second moment of inertia in kilograms times meters squared.
#[derive(Clone, Copy, Debug)]
pub struct KgMeter2;

impl Unit for KgMeter2 {

}

/// An absolute position in metric meters.
#[derive(Clone, Copy, Debug)]
pub struct PositionM;

impl Unit for PositionM {

}

/// A relative distance in metric meters.
#[derive(Clone, Copy, Debug)]
pub struct Meters;

impl Unit for Meters {

}

// The millimeter position pairs with the relative millimeter distance.
impl AddUnit<Millimeters> for PositionMM {
    type Sum = PositionMM;
}

impl SubUnit<Millimeters> for PositionMM {
    type Diff = PositionMM;
}

impl SubUnit<PositionMM> for PositionMM {
    type Diff = Millimeters;
}

impl PositionUnit for PositionMM {
    type Rel = Millimeters;
}

impl ConvUnit<PositionMM> for Millimeters {
    open spec fn conv_kn() -> int {
        1
    }

    open spec fn conv_kd() -> int {
        1
    }

    fn conv_factor() -> (k: Scalar) {
        Scalar::one()
    }
}

// Angular position times a millimeter radius gives a millimeter position.
impl MulUnit<Millimeters> for PositionRad {
    type Prod = PositionMM;

    open spec fn mul_kn() -> int {
        1
    }

    open spec fn mul_kd() -> int {
        1
    }

    fn mul_factor() -> (k: Scalar) {
        Scalar::one()
    }
}

impl MulUnit<PositionRad> for Millimeters {
    type Prod = PositionMM;

    open spec fn mul_kn() -> int {
        1
    }

    open spec fn mul_kd() -> int {
        1
    }

    fn mul_factor() -> (k: Scalar) {
        Scalar::one()
    }
}

impl DivUnit<Millimeters> for PositionMM {
    type Quot = PositionRad;

    open spec fn div_kn() -> int {
        1
    }

    open spec fn div_kd() -> int {
        1
    }

    fn div_factor() -> (k: Scalar) {
        Scalar::one()
    }
}

impl DivUnit<PositionRad> for PositionMM {
    type Quot = Millimeters;

    open spec fn div_kn() -> int {
        1
    }

    open spec fn div_kd() -> int {
        1
    }

    fn div_factor() -> (k: Scalar) {
        Scalar::one()
    }
}

// The linear rate ladder over seconds.
impl AddUnit<Millimeters> for Millimeters {
    type Sum = Millimeters;
}

impl SubUnit<Millimeters> for Millimeters {
    type Diff = Millimeters;
}

impl AdditiveUnit for Millimeters {

}

impl MulUnit<Seconds> for MMPerSecond {
    type Prod = Millimeters;

    open spec fn mul_kn() -> int {
        1
    }

    open spec fn mul_kd() -> int {
        1
    }

    fn mul_factor() -> (k: Scalar) {
        Scalar::one()
    }
}

impl MulUnit<MMPerSecond> for Seconds {
    type Prod = Millimeters;

    open spec fn mul_kn() -> int {
        1
    }

    open spec fn mul_kd() -> int {
        1
    }

    fn mul_factor() -> (k: Scalar) {
        Scalar::one()
    }
}

impl DivUnit<Seconds> for Millimeters {
    type Quot = MMPerSecond;

    open spec fn div_kn() -> int {
        1
    }

    open spec fn div_kd() -> int {
        1
    }

    fn div_factor() -> (k: Scalar) {
        Scalar::one()
    }
}

impl DivUnit<MMPerSecond> for Millimeters {
    type Quot = Seconds;

    open spec fn div_kn() -> int {
        1
    }

    open spec fn div_kd() -> int {
        1
    }

    fn div_factor() -> (k: Scalar) {
        Scalar::one()
    }
}

impl DerivableUnit<Seconds> for Millimeters {

}

impl IntegrableUnit<Seconds> for MMPerSecond {

}

// Arc length: a relative angle times a millimeter radius is a distance.
impl MulUnit<Millimeters> for Radians {
    type Prod = Millimeters;

    open spec fn mul_kn() -> int {
        1
    }

    open spec fn mul_kd() -> int {
        1
    }

    fn mul_factor() -> (k: Scalar) {
        Scalar::one()
    }
}

impl MulUnit<Radians> for Millimeters {
    type Prod = Millimeters;

    open spec fn mul_kn() -> int {
        1
    }

    open spec fn mul_kd() -> int {
        1
    }

    fn mul_factor() -> (k: Scalar) {
        Scalar::one()
    }
}

impl AddUnit<MMPerSecond> for MMPerSecond {
    type Sum = MMPerSecond;
}

impl SubUnit<MMPerSecond> for MMPerSecond {
    type Diff = MMPerSecond;
}

impl AdditiveUnit for MMPerSecond {

}

impl MulUnit<Seconds> for MMPerSecond2 {
    type Prod = MMPerSecond;

    open spec fn mul_kn() -> int {
        1
    }

    open spec fn mul_kd() -> int {
        1
    }

    fn mul_factor() -> (k: Scalar) {
        Scalar::one()
    }
}

impl MulUnit<MMPerSecond2> for Seconds {
    type Prod = MMPerSecond;

    open spec fn mul_kn() -> int {
        1
    }

    open spec fn mul_kd() -> int {
        1
    }

    fn mul_factor() -> (k: Scalar) {
        Scalar::one()
    }
}

impl DivUnit<Seconds> for MMPerSecond {
    type Quot = MMPerSecond2;

    open spec fn div_kn() -> int {
        1
    }

    open spec fn div_kd() -> int {
        1
    }

    fn div_factor() -> (k: Scalar) {
        Scalar::one()
    }
}

impl DivUnit<MMPerSecond2> for MMPerSecond {
    type Quot = Seconds;

    open spec fn div_kn() -> int {
        1
    }

    open spec fn div_kd() -> int {
        1
    }

    fn div_factor() -> (k: Scalar) {
        Scalar::one()
    }
}

impl DerivableUnit<Seconds> for MMPerSecond {

}

impl IntegrableUnit<Seconds> for MMPerSecond2 {

}

// Angular velocity times a millimeter radius gives a linear velocity.
impl MulUnit<Millimeters> for RadPerSecond {
    type Prod = MMPerSecond;

    open spec fn mul_kn() -> int {
        1
    }

    open spec fn mul_kd() -> int {
        1
    }

    fn mul_factor() -> (k: Scalar) {
        Scalar::one()
    }
}

impl MulUnit<RadPerSecond> for Millimeters {
    type Prod = MMPerSecond;

    open spec fn mul_kn() -> int {
        1
    }

    open spec fn mul_kd() -> int {
        1
    }

    fn mul_factor() -> (k: Scalar) {
        Scalar::one()
    }
}

impl DivUnit<Millimeters> for MMPerSecond {
    type Quot = RadPerSecond;

    open spec fn div_kn() -> int {
        1
    }

    open spec fn div_kd() -> int {
        1
    }

    fn div_factor() -> (k: Scalar) {
        Scalar::one()
    }
}

impl DivUnit<RadPerSecond> for MMPerSecond {
    type Quot = Millimeters;

    open spec fn div_kn() -> int {
        1
    }

    open spec fn div_kd() -> int {
        1
    }

    fn div_factor() -> (k: Scalar) {
        Scalar::one()
    }
}

impl AddUnit<MMPerSecond2> for MMPerSecond2 {
    type Sum = MMPerSecond2;
}

impl SubUnit<MMPerSecond2> for MMPerSecond2 {
    type Diff = MMPerSecond2;
}

impl AdditiveUnit for MMPerSecond2 {

}

impl MulUnit<Seconds> for MMPerSecond3 {
    type Prod = MMPerSecond2;

    open spec fn mul_kn() -> int {
        1
    }

    open spec fn mul_kd() -> int {
        1
    }

    fn mul_factor() -> (k: Scalar) {
        Scalar::one()
    }
}

impl MulUnit<MMPerSecond3> for Seconds {
    type Prod = MMPerSecond2;

    open spec fn mul_kn() -> int {
        1
    }

    open spec fn mul_kd() -> int {
        1
    }

    fn mul_factor() -> (k: Scalar) {
        Scalar::one()
    }
}

impl DivUnit<Seconds> for MMPerSecond2 {
    type Quot = MMPerSecond3;

    open spec fn div_kn() -> int {
        1
    }

    open spec fn div_kd() -> int {
        1
    }

    fn div_factor() -> (k: Scalar) {
        Scalar::one()
    }
}

impl DivUnit<MMPerSecond3> for MMPerSecond2 {
    type Quot = Seconds;

    open spec fn div_kn() -> int {
        1
    }

    open spec fn div_kd() -> int {
        1
    }

    fn div_factor() -> (k: Scalar) {
        Scalar::one()
    }
}

impl DerivableUnit<Seconds> for MMPerSecond2 {

}

impl IntegrableUnit<Seconds> for MMPerSecond3 {

}

impl MulUnit<Millimeters> for RadPerSecond2 {
    type Prod = MMPerSecond2;

    open spec fn mul_kn() -> int {
        1
    }

    open spec fn mul_kd() -> int {
        1
    }

    fn mul_factor() -> (k: Scalar) {
        Scalar::one()
    }
}

impl MulUnit<RadPerSecond2> for Millimeters {
    type Prod = MMPerSecond2;

    open spec fn mul_kn() -> int {
        1
    }

    open spec fn mul_kd() -> int {
        1
    }

    fn mul_factor() -> (k: Scalar) {
        Scalar::one()
    }
}

impl DivUnit<Millimeters> for MMPerSecond2 {
    type Quot = RadPerSecond2;

    open spec fn div_kn() -> int {
        1
    }

    open spec fn div_kd() -> int {
        1
    }

    fn div_factor() -> (k: Scalar) {
        Scalar::one()
    }
}

impl DivUnit<RadPerSecond2> for MMPerSecond2 {
    type Quot = Millimeters;

    open spec fn div_kn() -> int {
        1
    }

    open spec fn div_kd() -> int {
        1
    }

    fn div_factor() -> (k: Scalar) {
        Scalar::one()
    }
}

impl AddUnit<MMPerSecond3> for MMPerSecond3 {
    type Sum = MMPerSecond3;
}

impl SubUnit<MMPerSecond3> for MMPerSecond3 {
    type Diff = MMPerSecond3;
}

impl AdditiveUnit for MMPerSecond3 {

}

impl MulUnit<Millimeters> for RadPerSecond3 {
    type Prod = MMPerSecond3;

    open spec fn mul_kn() -> int {
        1
    }

    open spec fn mul_kd() -> int {
        1
    }

    fn mul_factor() -> (k: Scalar) {
        Scalar::one()
    }
}

impl MulUnit<RadPerSecond3> for Millimeters {
    type Prod = MMPerSecond3;

    open spec fn mul_kn() -> int {
        1
    }

    open spec fn mul_kd() -> int {
        1
    }

    fn mul_factor() -> (k: Scalar) {
        Scalar::one()
    }
}

impl DivUnit<Millimeters> for MMPerSecond3 {
    type Quot = RadPerSecond3;

    open spec fn div_kn() -> int {
        1
    }

    open spec fn div_kd() -> int {
        1
    }

    fn div_factor() -> (k: Scalar) {
        Scalar::one()
    }
}

impl DivUnit<RadPerSecond3> for MMPerSecond3 {
    type Quot = Millimeters;

    open spec fn div_kn() -> int {
        1
    }

    open spec fn div_kd() -> int {
        1
    }

    fn div_factor() -> (k: Scalar) {
        Scalar::one()
    }
}

// Force: mass times acceleration in millimeters per second squared,
// scaled by one over one thousand to land in newtons.
impl AddUnit<Newtons> for Newtons {
    type Sum = Newtons;
}

impl SubUnit<Newtons> for Newtons {
    type Diff = Newtons;
}

impl AdditiveUnit for Newtons {

}

impl MulUnit<Kilogramms> for MMPerSecond2 {
    type Prod = Newtons;

    open spec fn mul_kn() -> int {
        1
    }

    open spec fn mul_kd() -> int {
        1000
    }

    fn mul_factor() -> (k: Scalar) {
        Scalar::recip_int(1000)
    }
}

impl MulUnit<MMPerSecond2> for Kilogramms {
    type Prod = Newtons;

    open spec fn mul_kn() -> int {
        1
    }

    open spec fn mul_kd() -> int {
        1000
    }

    fn mul_factor() -> (k: Scalar) {
        Scalar::recip_int(1000)
    }
}

impl DivUnit<Kilogramms> for Newtons {
    type Quot = MMPerSecond2;

    open spec fn div_kn() -> int {
        1
    }

    open spec fn div_kd() -> int {
        1000
    }

    fn div_factor() -> (k: Scalar) {
        Scalar::recip_int(1000)
    }
}

impl DivUnit<MMPerSecond2> for Newtons {
    type Quot = Kilogramms;

    open spec fn div_kn() -> int {
        1
    }

    open spec fn div_kd() -> int {
        1000
    }

    fn div_factor() -> (k: Scalar) {
        Scalar::recip_int(1000)
    }
}

impl AddUnit<Kilogramms> for Kilogramms {
    type Sum = Kilogramms;
}

impl SubUnit<Kilogramms> for Kilogramms {
    type Diff = Kilogramms;
}

impl AdditiveUnit for Kilogramms {

}

// A mass on a millimeter radius acts as a second moment of inertia.
impl InertiaUnit<Millimeters> for Kilogramms {
    type Reduced = KgMeter2;

    open spec fn red_kn() -> int {
        1
    }

    open spec fn red_kd() -> int {
        1000000
    }

    fn red_factor() -> (k: Scalar) {
        Scalar::recip_int(1000000)
    }
}

// Torque: second moment of inertia times angular acceleration, and
// force times a millimeter lever arm scaled by one over one thousand.
impl AddUnit<NewtonMeters> for NewtonMeters {
    type Sum = NewtonMeters;
}

impl SubUnit<NewtonMeters> for NewtonMeters {
    type Diff = NewtonMeters;
}

impl AdditiveUnit for NewtonMeters {

}

impl MulUnit<RadPerSecond2> for KgMeter2 {
    type Prod = NewtonMeters;

    open spec fn mul_kn() -> int {
        1
    }

    open spec fn mul_kd() -> int {
        1
    }

    fn mul_factor() -> (k: Scalar) {
        Scalar::one()
    }
}

impl MulUnit<KgMeter2> for RadPerSecond2 {
    type Prod = NewtonMeters;

    open spec fn mul_kn() -> int {
        1
    }

    open spec fn mul_kd() -> int {
        1
    }

    fn mul_factor() -> (k: Scalar) {
        Scalar::one()
    }
}

impl DivUnit<RadPerSecond2> for NewtonMeters {
    type Quot = KgMeter2;

    open spec fn div_kn() -> int {
        1
    }

    open spec fn div_kd() -> int {
        1
    }

    fn div_factor() -> (k: Scalar) {
        Scalar::one()
    }
}

impl DivUnit<KgMeter2> for NewtonMeters {
    type Quot = RadPerSecond2;

    open spec fn div_kn() -> int {
        1
    }

    open spec fn div_kd() -> int {
        1
    }

    fn div_factor() -> (k: Scalar) {
        Scalar::one()
    }
}

impl MulUnit<Millimeters> for Newtons {
    type Prod = NewtonMeters;

    open spec fn mul_kn() -> int {
        1
    }

    open spec fn mul_kd() -> int {
        1000
    }

    fn mul_factor() -> (k: Scalar) {
        Scalar::recip_int(1000)
    }
}

impl MulUnit<Newtons> for Millimeters {
    type Prod = NewtonMeters;

    open spec fn mul_kn() -> int {
        1
    }

    open spec fn mul_kd() -> int {
        1000
    }

    fn mul_factor() -> (k: Scalar) {
        Scalar::recip_int(1000)
    }
}

impl DivUnit<Millimeters> for NewtonMeters {
    type Quot = Newtons;

    open spec fn div_kn() -> int {
        1
    }

    open spec fn div_kd() -> int {
        1000
    }

    fn div_factor() -> (k: Scalar) {
        Scalar::recip_int(1000)
    }
}

impl DivUnit<Newtons> for NewtonMeters {
    type Quot = Millimeters;

    open spec fn div_kn() -> int {
        1
    }

    open spec fn div_kd() -> int {
        1000
    }

    fn div_factor() -> (k: Scalar) {
        Scalar::recip_int(1000)
    }
}

impl AddUnit<KgMeter2> for KgMeter2 {
    type Sum = KgMeter2;
}

impl SubUnit<KgMeter2> for KgMeter2 {
    type Diff = KgMeter2;
}

impl AdditiveUnit for KgMeter2 {

}

impl InertiaUnit<Millimeters> for KgMeter2 {
    type Reduced = Kilogramms;

    open spec fn red_kn() -> int {
        1000000
    }

    open spec fn red_kd() -> int {
        1
    }

    fn red_factor() -> (k: Scalar) {
        Scalar::from_int(1000000)
    }
}

// The meter position pairs with the relative meter distance.
impl AddUnit<Meters> for PositionM {
    type Sum = PositionM;
}

impl SubUnit<Meters> for PositionM {
    type Diff = PositionM;
}

impl SubUnit<PositionM> for PositionM {
    type Diff = Meters;
}

impl PositionUnit for PositionM {
    type Rel = Meters;
}

impl ConvUnit<PositionM> for Meters {
    open spec fn conv_kn() -> int {
        1
    }

    open spec fn conv_kd() -> int {
        1
    }

    fn conv_factor() -> (k: Scalar) {
        Scalar::one()
    }
}

impl MulUnit<Meters> for PositionRad {
    type Prod = PositionM;

    open spec fn mul_kn() -> int {
        1
    }

    open spec fn mul_kd() -> int {
        1
    }

    fn mul_factor() -> (k: Scalar) {
        Scalar::one()
    }
}

impl MulUnit<PositionRad> for Meters {
    type Prod = PositionM;

    open spec fn mul_kn() -> int {
        1
    }

    open spec fn mul_kd() -> int {
        1
    }

    fn mul_factor() -> (k: Scalar) {
        Scalar::one()
    }
}

impl DivUnit<Meters> for PositionM {
    type Quot = PositionRad;

    open spec fn div_kn() -> int {
        1
    }

    open spec fn div_kd() -> int {
        1
    }

    fn div_factor() -> (k: Scalar) {
        Scalar::one()
    }
}

impl DivUnit<PositionRad> for PositionM {
    type Quot = Meters;

    open spec fn div_kn() -> int {
        1
    }

    open spec fn div_kd() -> int {
        1
    }

    fn div_factor() -> (k: Scalar) {
        Scalar::one()
    }
}

impl AddUnit<Meters> for Meters {
    type Sum = Meters;
}

impl SubUnit<Meters> for Meters {
    type Diff = Meters;
}

impl AdditiveUnit for Meters {

}

impl ConvUnit<Meters> for Millimeters {
    open spec fn conv_kn() -> int {
        1000
    }

    open spec fn conv_kd() -> int {
        1
    }

    fn conv_factor() -> (k: Scalar) {
        Scalar::from_int(1000)
    }
}

impl MulUnit<Meters> for Radians {
    type Prod = Meters;

    open spec fn mul_kn() -> int {
        1
    }

    open spec fn mul_kd() -> int {
        1
    }

    fn mul_factor() -> (k: Scalar) {
        Scalar::one()
    }
}

impl MulUnit<Radians> for Meters {
    type Prod = Meters;

    open spec fn mul_kn() -> int {
        1
    }

    open spec fn mul_kd() -> int {
        1
    }

    fn mul_factor() -> (k: Scalar) {
        Scalar::one()
    }
}

/// The linear unit family centered around metric millimeters.
#[derive(Clone, Copy, Debug, Default)]
pub struct MetricMM;

impl UnitSet for MetricMM {
    type Time = Seconds;

    type Position = PositionMM;

    type Distance = Millimeters;

    type Velocity = MMPerSecond;

    type Acceleration = MMPerSecond2;

    type Jolt = MMPerSecond3;

    type Force = Newtons;

    type Inertia = Kilogramms;
}

/// The rotary unit family centered around radians.
#[derive(Clone, Copy, Debug, Default)]
pub struct Rotary;

impl UnitSet for Rotary {
    type Time = Seconds;

    type Position = PositionRad;

    type Distance = Radians;

    type Velocity = RadPerSecond;

    type Acceleration = RadPerSecond2;

    type Jolt = RadPerSecond3;

    type Force = NewtonMeters;

    type Inertia = KgMeter2;
}

} // verus!
