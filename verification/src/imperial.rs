//! Imperial units of measurement: the inch, with its fixed-ratio
//! conversion into millimeters (one inch is exactly 25.4 millimeters,
//! the ratio 127 over 5).

use vstd::prelude::*;
use crate::scalar::Scalar;
use crate::units::{ConvUnit, Unit};
use crate::metric::Millimeters;
use crate::gcd::gcd;

verus! {

/// A relative distance in imperial inches.
#[derive(Clone, Copy, Debug)]
pub struct Inches;

impl Unit for Inches {

}

impl ConvUnit<Inches> for Millimeters {
    open spec fn conv_kn() -> int {
        127
    }

    open spec fn conv_kd() -> int {
        5
    }

    fn conv_factor() -> (k: Scalar) {
        proof {
            reveal_with_fuel(gcd, 6);
        }
        Scalar::from_parts(127, 5)
    }
}

} // verus!
