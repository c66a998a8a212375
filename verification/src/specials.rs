//! Special value types: the bounded scaling factor, kept inside the unit
//! interval by construction, and the movement direction tag.

use vstd::prelude::*;
use vstd::arithmetic::div_mod::lemma_multiply_divide_lt;
use vstd::arithmetic::div_mod::lemma_div_pos_is_pos;
use crate::scalar::{num_one, num_sign, num_wf, num_zero, spec_le, spec_mul, Num, Scalar};
use crate::laws::{fin_d, fin_n, lemma_fin_mul_equiv};

verus! {

/// A model value inside the closed unit interval.
pub open spec fn unit_interval(v: Num) -> bool {
    v is Fin && 0 <= fin_n(v) <= fin_d(v)
}

/// The product of two values of the unit interval, when representable,
/// stays in the unit interval: the bound needs no clamping.
pub proof fn lemma_unit_interval_mul_closed(a: Num, b: Num)
    requires
        num_wf(a),
        num_wf(b),
        unit_interval(a),
        unit_interval(b),
        spec_mul(a, b) is Fin,
    ensures
        unit_interval(spec_mul(a, b)),
{
    lemma_fin_mul_equiv(a, b);
    let (na, da, nb, db) = (fin_n(a), fin_d(a), fin_n(b), fin_d(b));
    let m = spec_mul(a, b);
    let (nm, dm) = (fin_n(m), fin_d(m));
    assert(nm >= 0) by (nonlinear_arith)
        requires
            nm * (da * db) == (na * nb) * dm,
            0 <= na,
            0 <= nb,
            da >= 1,
            db >= 1,
            dm >= 1;
    assert(nm <= dm) by (nonlinear_arith)
        requires
            nm * (da * db) == (na * nb) * dm,
            0 <= na <= da,
            0 <= nb <= db,
            da >= 1,
            db >= 1,
            dm >= 1;
}

/// The integer duty value a factor maps to against a maximum: the scaled
/// value rounded to the nearest integer, halves rounding up.
pub open spec fn duty_of(v: Num, max: int) -> int {
    (2 * fin_n(v) * max + fin_d(v)) / (2 * fin_d(v))
}

/// A scaling factor: a finite exact scalar inside the closed interval from
/// zero to one. Every constructor validates the bound, so no value of this
/// type ever leaves it.
#[derive(Clone, Copy)]
pub struct Factor {
    s: Scalar,
}

impl View for Factor {
    type V = Num;

    closed spec fn view(&self) -> Num {
        self.s@
    }
}

impl Factor {
    #[verifier::type_invariant]
    spec fn inv(self) -> bool {
        unit_interval(self.s@)
    }

    /// The largest factor, one.
    pub fn max_value() -> (r: Factor)
        ensures
            r@ == num_one(),
    {
        Factor { s: Scalar::one() }
    }

    /// The halfway factor.
    pub fn half() -> (r: Factor)
        ensures
            r@ == (Num::Fin { n: 1, d: 2 }),
    {
        Factor { s: Scalar::recip_int(2) }
    }

    /// The smallest factor, zero.
    pub fn min_value() -> (r: Factor)
        ensures
            r@ == num_zero(),
    {
        Factor { s: Scalar::zero() }
    }

    /// Creates a new factor from a scalar known to be in bounds; a value
    /// outside the closed unit interval is rejected by the contract, so the
    /// strict constructor never silently clamps and never fails at runtime.
    pub fn new(val: Scalar) -> (r: Factor)
        requires
            val@ is Fin,
            spec_le(num_zero(), val@),
            spec_le(val@, num_one()),
        ensures
            r@ == val@,
    {
        val.check_wf();
        Factor { s: val }
    }

    /// Tries to create a new factor; yields nothing exactly when the value
    /// is not a finite scalar of the closed unit interval.
    pub fn try_new(val: Scalar) -> (r: Option<Factor>)
        ensures
            r is Some <==> (val@ is Fin && spec_le(num_zero(), val@) && spec_le(
                val@,
                num_one(),
            )),
            r matches Some(f) ==> f@ == val@,
    {
        if val.is_finite() && val.ge(Scalar::zero()) && val.le(Scalar::one()) {
            val.check_wf();
            Some(Factor { s: val })
        } else {
            None
        }
    }

    /// The factor as a bare scalar.
    pub fn as_scalar(self) -> (r: Scalar)
        ensures
            r@ == self@,
    {
        self.s
    }

    /// The product of two factors, revalidated through the bound: the
    /// contract asks the product to be representable, and the result is
    /// then again a factor, never out of bounds.
    pub fn mul(self, rhs: Factor) -> (r: Factor)
        requires
            spec_mul(self@, rhs@) is Fin,
        ensures
            r@ == spec_mul(self@, rhs@),
    {
        let p = self.s.mul(rhs.s);
        self.s.check_wf();
        rhs.s.check_wf();
        proof {
            use_type_invariant(self);
            use_type_invariant(rhs);
            lemma_unit_interval_mul_closed(self.s@, rhs.s@);
        }
        Factor { s: p }
    }

    /// The product of two factors, or nothing where the exact product is
    /// not representable.
    pub fn try_mul(self, rhs: Factor) -> (r: Option<Factor>)
        ensures
            r is Some <==> spec_mul(self@, rhs@) is Fin,
            r matches Some(f) ==> f@ == spec_mul(self@, rhs@),
    {
        let p = self.s.mul(rhs.s);
        if p.is_finite() {
            self.s.check_wf();
            rhs.s.check_wf();
            proof {
                use_type_invariant(self);
                use_type_invariant(rhs);
                lemma_unit_interval_mul_closed(self.s@, rhs.s@);
            }
            Some(Factor { s: p })
        } else {
            None
        }
    }

    /// The duty value against a caller-supplied maximum: the factor times
    /// the maximum, rounded to the nearest integer (halves up). Never
    /// exceeds the maximum.
    pub fn get_duty_for(self, max_duty: u16) -> (r: u16)
        ensures
            r as int == duty_of(self@, max_duty as int),
            r <= max_duty,
    {
        proof {
            use_type_invariant(self);
        }
        self.s.check_wf();
        let n = self.s.numerator();
        let d = self.s.denominator();
        let nn = n as u128;
        let dd = d as u128;
        let m = max_duty as u128;
        proof {
            assert(2 * (nn as int) * (m as int) + dd as int <= u128::MAX as int)
                by (nonlinear_arith)
                requires
                    0 <= (nn as int) < 0x8000000000000000,
                    0 <= (m as int) < 0x10000,
                    1 <= (dd as int) < 0x8000000000000000;
        }
        let duty = (2 * nn * m + dd) / (2 * dd);
        proof {
            let ni = n as int;
            let di = d as int;
            let mi = max_duty as int;
            assert(2 * ni * mi <= 2 * di * mi) by (nonlinear_arith)
                requires
                    0 <= ni <= di,
                    0 <= mi;
            assert(2 * ni * mi + di < (2 * di) * (mi + 1)) by (nonlinear_arith)
                requires
                    2 * ni * mi <= 2 * di * mi,
                    di >= 1;
            lemma_multiply_divide_lt(2 * ni * mi + di, 2 * di, mi + 1);
            lemma_div_pos_is_pos(2 * ni * mi + di, 2 * di);
            assert(duty as int == (2 * ni * mi + di) / (2 * di));
            assert(duty <= max_duty);
        }
        duty as u16
    }

    /// The duty value against the full sixteen-bit range.
    pub fn get_duty(self) -> (r: u16)
        ensures
            r as int == duty_of(self@, u16::MAX as int),
            r <= u16::MAX,
    {
        self.get_duty_for(u16::MAX)
    }
}

/// Direction of movement.
#[derive(Clone, Copy, PartialEq, Eq, Structural, Debug)]
pub enum Direction {
    /// Counterclockwise (`false` / `0`)
    CCW,
    /// Clockwise (`true` / `1`)
    CW,
}

impl Direction {
    /// Creates a new `Direction` value from a bool.
    /// - `true` is `CW`
    /// - `false` is `CCW`
    pub fn from_bool(b: bool) -> (r: Self)
        ensures
            r == (if b { Direction::CW } else { Direction::CCW }),
    {
        if b {
            Direction::CW
        } else {
            Direction::CCW
        }
    }

    /// Converts the given direction into a bool value for logic signals.
    /// - `CW` is `true`
    /// - `CCW` is `false`
    pub fn as_bool(self) -> (r: bool)
        ensures
            r == (self == Direction::CW),
    {
        match self {
            Direction::CCW => false,
            Direction::CW => true,
        }
    }

    /// Parses a new `Direction` value from a `u8`.
    /// - `0` is `CCW`
    /// - everything else is `CW`
    pub fn from_u8(u: u8) -> (r: Self)
        ensures
            r == (if u == 0 { Direction::CCW } else { Direction::CW }),
    {
        if u == 0 {
            Direction::CCW
        } else {
            Direction::CW
        }
    }

    /// Converts the given `Direction` into a `u8` value.
    pub fn as_u8(self) -> (r: u8)
        ensures
            r == (if self == Direction::CW { 1u8 } else { 0u8 }),
    {
        match self {
            Direction::CCW => 0,
            Direction::CW => 1,
        }
    }
}

impl Default for Direction {
    /// The default direction is clockwise.
    fn default() -> (r: Self)
        ensures
            r == Direction::CW,
    {
        Direction::CW
    }
}

} // verus!
