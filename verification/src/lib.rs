//! Dimensional-analysis library: distinct numeric unit types (time, position,
//! distance, velocity, acceleration, jolt, force, inertia, frequency, bounded
//! factors, angles) and the arithmetic relationships between them, enforced by
//! the type system.
//!
//! Every quantity wraps one exact scalar: a rational number in lowest terms,
//! extended with positive and negative infinity and a not-a-number sentinel.
//! The unit types themselves are zero-sized markers; `Qty<U>` is a value of
//! the unit `U`, and which operations exist between which units is declared
//! by relation trait impls, checked at compile time.

use vstd::prelude::*;

mod funcs;
mod gcd;
mod laws;
mod scalar;
mod units;

/// Imperial units of measurement.
pub mod imperial;

/// Metric units of measurement and the two built-in unit families.
pub mod metric;

mod specials;

pub use laws::{
    fin_d, fin_n, lemma_add_commutes, lemma_add_sub_cancels, lemma_div_represents,
    lemma_div_then_mul_recovers, lemma_fin_add_equiv, lemma_fin_div_equiv, lemma_fin_mul_equiv,
    lemma_mul_represents, lemma_mul_then_div_recovers, lemma_reduce_then_extend_recovers,
    lemma_scaled_div_then_mul_recovers, lemma_sub_add_cancels, represents,
};
pub use specials::{duty_of, lemma_unit_interval_mul_closed, unit_interval, Factor};
pub use metric::{MetricMM, Rotary};
pub use scalar::{
    max_mag, norm, num_one, num_sign, num_wf, num_zero, spec_abs, spec_add, spec_div, spec_eq,
    spec_le, spec_lt, spec_max, spec_min, spec_mul, spec_neg, spec_powi, spec_ratio, spec_sub,
    Num, Scalar,
};
pub use funcs::{add_unit_arrays, compare_unit_arrays, sub_unit_arrays};
pub use specials::Direction;
pub use units::{
    AddUnit, AdditiveUnit, ConvUnit, DerivableUnit, DivUnit, InertiaUnit, IntegrableUnit,
    MulUnit, PositionUnit, Qty, RecipUnit, SubUnit, Unit, UnitSet,
};

verus! {

/// Time in seconds; a value of it is a `Qty<Seconds>`.
#[derive(Clone, Copy, Debug)]
pub struct Seconds;

impl Unit for Seconds {

}

/// Frequency in hertz, the reciprocal of `Seconds`.
#[derive(Clone, Copy, Debug)]
pub struct Hertz;

impl Unit for Hertz {

}

/// An absolute angular position in radians.
#[derive(Clone, Copy, Debug)]
pub struct PositionRad;

impl Unit for PositionRad {

}

/// A relative angle in radians.
#[derive(Clone, Copy, Debug)]
pub struct Radians;

impl Unit for Radians {

}

/// Angular velocity in radians per second.
#[derive(Clone, Copy, Debug)]
pub struct RadPerSecond;

impl Unit for RadPerSecond {

}

/// Angular acceleration in radians per second squared.
#[derive(Clone, Copy, Debug)]
pub struct RadPerSecond2;

impl Unit for RadPerSecond2 {

}

/// Angular jolt in radians per second cubed.
#[derive(Clone, Copy, Debug)]
pub struct RadPerSecond3;

impl Unit for RadPerSecond3 {

}

// Seconds and Hertz are additive and each other's reciprocal.
impl AddUnit<Seconds> for Seconds {
    type Sum = Seconds;
}

impl SubUnit<Seconds> for Seconds {
    type Diff = Seconds;
}

impl AdditiveUnit for Seconds {

}

impl AddUnit<Hertz> for Hertz {
    type Sum = Hertz;
}

impl SubUnit<Hertz> for Hertz {
    type Diff = Hertz;
}

impl AdditiveUnit for Hertz {

}

impl RecipUnit for Seconds {
    type Inv = Hertz;
}

impl RecipUnit for Hertz {
    type Inv = Seconds;
}

// The angular position pairs with the relative angle.
impl AddUnit<Radians> for PositionRad {
    type Sum = PositionRad;
}

impl SubUnit<Radians> for PositionRad {
    type Diff = PositionRad;
}

impl SubUnit<PositionRad> for PositionRad {
    type Diff = Radians;
}

impl PositionUnit for PositionRad {
    type Rel = Radians;
}

impl ConvUnit<PositionRad> for Radians {
    open spec fn conv_kn() -> int {
        1
    }

    open spec fn conv_kd() -> int {
        1
    }

    fn conv_factor() -> (k: Scalar) {
        Scalar::one()
    }
}

// The angular rate ladder over seconds.
impl AddUnit<Radians> for Radians {
    type Sum = Radians;
}

impl SubUnit<Radians> for Radians {
    type Diff = Radians;
}

impl AdditiveUnit for Radians {

}

impl MulUnit<Seconds> for RadPerSecond {
    type Prod = Radians;

    open spec fn mul_kn() -> int {
        1
    }

    open spec fn mul_kd() -> int {
        1
    }

    fn mul_factor() -> (k: Scalar) {
        Scalar::one()
    }
}

impl MulUnit<RadPerSecond> for Seconds {
    type Prod = Radians;

    open spec fn mul_kn() -> int {
        1
    }

    open spec fn mul_kd() -> int {
        1
    }

    fn mul_factor() -> (k: Scalar) {
        Scalar::one()
    }
}

impl DivUnit<Seconds> for Radians {
    type Quot = RadPerSecond;

    open spec fn div_kn() -> int {
        1
    }

    open spec fn div_kd() -> int {
        1
    }

    fn div_factor() -> (k: Scalar) {
        Scalar::one()
    }
}

impl DivUnit<RadPerSecond> for Radians {
    type Quot = Seconds;

    open spec fn div_kn() -> int {
        1
    }

    open spec fn div_kd() -> int {
        1
    }

    fn div_factor() -> (k: Scalar) {
        Scalar::one()
    }
}

impl DerivableUnit<Seconds> for Radians {

}

impl IntegrableUnit<Seconds> for RadPerSecond {

}

impl AddUnit<RadPerSecond> for RadPerSecond {
    type Sum = RadPerSecond;
}

impl SubUnit<RadPerSecond> for RadPerSecond {
    type Diff = RadPerSecond;
}

impl AdditiveUnit for RadPerSecond {

}

impl MulUnit<Seconds> for RadPerSecond2 {
    type Prod = RadPerSecond;

    open spec fn mul_kn() -> int {
        1
    }

    open spec fn mul_kd() -> int {
        1
    }

    fn mul_factor() -> (k: Scalar) {
        Scalar::one()
    }
}

impl MulUnit<RadPerSecond2> for Seconds {
    type Prod = RadPerSecond;

    open spec fn mul_kn() -> int {
        1
    }

    open spec fn mul_kd() -> int {
        1
    }

    fn mul_factor() -> (k: Scalar) {
        Scalar::one()
    }
}

impl DivUnit<Seconds> for RadPerSecond {
    type Quot = RadPerSecond2;

    open spec fn div_kn() -> int {
        1
    }

    open spec fn div_kd() -> int {
        1
    }

    fn div_factor() -> (k: Scalar) {
        Scalar::one()
    }
}

impl DivUnit<RadPerSecond2> for RadPerSecond {
    type Quot = Seconds;

    open spec fn div_kn() -> int {
        1
    }

    open spec fn div_kd() -> int {
        1
    }

    fn div_factor() -> (k: Scalar) {
        Scalar::one()
    }
}

impl DerivableUnit<Seconds> for RadPerSecond {

}

impl IntegrableUnit<Seconds> for RadPerSecond2 {

}

impl AddUnit<RadPerSecond2> for RadPerSecond2 {
    type Sum = RadPerSecond2;
}

impl SubUnit<RadPerSecond2> for RadPerSecond2 {
    type Diff = RadPerSecond2;
}

impl AdditiveUnit for RadPerSecond2 {

}

impl MulUnit<Seconds> for RadPerSecond3 {
    type Prod = RadPerSecond2;

    open spec fn mul_kn() -> int {
        1
    }

    open spec fn mul_kd() -> int {
        1
    }

    fn mul_factor() -> (k: Scalar) {
        Scalar::one()
    }
}

impl MulUnit<RadPerSecond3> for Seconds {
    type Prod = RadPerSecond2;

    open spec fn mul_kn() -> int {
        1
    }

    open spec fn mul_kd() -> int {
        1
    }

    fn mul_factor() -> (k: Scalar) {
        Scalar::one()
    }
}

impl DivUnit<Seconds> for RadPerSecond2 {
    type Quot = RadPerSecond3;

    open spec fn div_kn() -> int {
        1
    }

    open spec fn div_kd() -> int {
        1
    }

    fn div_factor() -> (k: Scalar) {
        Scalar::one()
    }
}

impl DivUnit<RadPerSecond3> for RadPerSecond2 {
    type Quot = Seconds;

    open spec fn div_kn() -> int {
        1
    }

    open spec fn div_kd() -> int {
        1
    }

    fn div_factor() -> (k: Scalar) {
        Scalar::one()
    }
}

impl DerivableUnit<Seconds> for RadPerSecond2 {

}

impl IntegrableUnit<Seconds> for RadPerSecond3 {

}

impl AddUnit<RadPerSecond3> for RadPerSecond3 {
    type Sum = RadPerSecond3;
}

impl SubUnit<RadPerSecond3> for RadPerSecond3 {
    type Diff = RadPerSecond3;
}

impl AdditiveUnit for RadPerSecond3 {

}


} // verus!
