//! The unit-relationship algebra. Every unit is a zero-sized marker type;
//! a quantity of a unit is a `Qty` of that marker, wrapping one exact
//! scalar. Which arithmetic exists between which units is declared through
//! relation traits on the markers, so that a mismatched combination is a
//! missing trait bound — a compile error — rather than a runtime check:
//!
//! - [`AddUnit`] / [`SubUnit`] declare `U + R` and `U - R` with their result
//!   units; [`AdditiveUnit`] marks a unit closed under both.
//! - [`PositionUnit`] marks an absolute unit: it combines with its paired
//!   relative unit, and two positions subtract to that relative unit, but
//!   positions never add to each other — no `AddUnit<Self>` impl exists.
//! - [`MulUnit`] / [`DivUnit`] declare `U * R` and `U / R` with result units
//!   and a fixed positive conversion constant; [`DerivableUnit`] and
//!   [`IntegrableUnit`] mark the rate links built from them.
//! - [`ConvUnit`] declares a fixed-ratio conversion from another unit.
//! - [`RecipUnit`] pairs a unit with its reciprocal unit.

use vstd::prelude::*;
use core::marker::PhantomData;
use crate::scalar::{
    num_sign, num_wf, num_zero, spec_abs, spec_add, spec_div, spec_eq, spec_le, spec_lt,
    spec_max, spec_min, spec_mul, spec_neg, spec_ratio, spec_sub, Num, Scalar,
};
use crate::Direction;
use crate::specials::Factor;
use crate::scalar::spec_powi;

verus! {

/// Base marker for every unit type. Markers are zero-sized and copied
/// freely, as the quantities wrapping them are.
pub trait Unit: Sized + Copy {

}

/// `Self + R` exists and yields `Sum`.
pub trait AddUnit<R: Unit>: Unit {
    /// The unit of the sum.
    type Sum: Unit;
}

/// `Self - R` exists and yields `Diff`.
pub trait SubUnit<R: Unit>: Unit {
    /// The unit of the difference.
    type Diff: Unit;
}

/// A unit closed under addition and subtraction with itself.
pub trait AdditiveUnit: AddUnit<Self, Sum = Self> + SubUnit<Self, Diff = Self> {

}

/// An absolute (position-like) unit and its paired relative unit: the
/// difference of two positions is a `Rel`, a `Rel` may be added to or
/// subtracted from a position, and positions do not add to each other.
pub trait PositionUnit: AddUnit<<Self as PositionUnit>::Rel, Sum = Self> + SubUnit<
    <Self as PositionUnit>::Rel,
    Diff = Self,
> + SubUnit<Self, Diff = <Self as PositionUnit>::Rel> {
    /// The paired relative unit.
    type Rel: AdditiveUnit;
}

/// `Self * R` exists and yields `Prod`, scaled by the fixed positive
/// constant `mul_kn() / mul_kd()`.
pub trait MulUnit<R: Unit>: Unit {
    /// The unit of the product.
    type Prod: Unit;

    /// Numerator of the conversion constant.
    spec fn mul_kn() -> int;

    /// Denominator of the conversion constant.
    spec fn mul_kd() -> int;

    /// The conversion constant as a scalar.
    fn mul_factor() -> (k: Scalar)
        ensures
            k@ == (Num::Fin { n: Self::mul_kn(), d: Self::mul_kd() }),
            num_sign(k@) > 0,
    ;
}

/// `Self / R` exists and yields `Quot`, scaled by the reciprocal of the
/// fixed positive constant `div_kn() / div_kd()`.
pub trait DivUnit<R: Unit>: Unit {
    /// The unit of the quotient.
    type Quot: Unit;

    /// Numerator of the conversion constant.
    spec fn div_kn() -> int;

    /// Denominator of the conversion constant.
    spec fn div_kd() -> int;

    /// The conversion constant as a scalar.
    fn div_factor() -> (k: Scalar)
        ensures
            k@ == (Num::Fin { n: Self::div_kn(), d: Self::div_kd() }),
            num_sign(k@) > 0,
    ;
}

/// Marks the derivative link of a rate ladder: `Self` differentiated over
/// the variable `V` (most often a time unit) gives the rate unit
/// `DivUnit<V>::Quot`, and dividing by that rate recovers a `V`.
pub trait DerivableUnit<V: Unit>: DivUnit<V> {

}

/// Marks the integral link of a rate ladder: `Self` integrated over the
/// variable `V` gives the quantity unit `MulUnit<V>::Prod`.
pub trait IntegrableUnit<V: Unit>: MulUnit<V> {

}

/// A fixed-ratio conversion: one `A` equals `conv_kn() / conv_kd()` of
/// `Self`.
pub trait ConvUnit<A: Unit>: Unit {
    /// Numerator of the conversion ratio.
    spec fn conv_kn() -> int;

    /// Denominator of the conversion ratio.
    spec fn conv_kd() -> int;

    /// The conversion ratio as a scalar.
    fn conv_factor() -> (k: Scalar)
        ensures
            k@ == (Num::Fin { n: Self::conv_kn(), d: Self::conv_kd() }),
            num_sign(k@) > 0,
    ;
}

/// An inertia-like unit that scales with the square of a linear ratio:
/// reducing by a ratio multiplies by the ratio twice and by the relation's
/// fixed positive constant, extending divides the same way, so the two are
/// exact inverses of each other for a finite nonzero ratio.
pub trait InertiaUnit<B: Unit>: Unit {
    /// The unit of the reduced inertia.
    type Reduced: Unit;

    /// Numerator of the conversion constant.
    spec fn red_kn() -> int;

    /// Denominator of the conversion constant.
    spec fn red_kd() -> int;

    /// The conversion constant as a scalar.
    fn red_factor() -> (k: Scalar)
        ensures
            k@ == (Num::Fin { n: Self::red_kn(), d: Self::red_kd() }),
            num_sign(k@) > 0,
    ;
}

/// A coherent family of units: the eight concrete unit types a generic
/// algorithm needs, jointly satisfying the position/distance pairing, the
/// rate ladder over the family's time unit, and the force/inertia triangle.
/// A type implementing it is a compile-time selector and carries no data.
pub trait UnitSet {
    /// Time unit of the family.
    type Time: AdditiveUnit;

    /// Absolute-position unit of the family; pairs with `Distance` and is
    /// not additive with itself.
    type Position: PositionUnit<Rel = Self::Distance>;

    /// Relative-distance unit of the family.
    type Distance: AdditiveUnit + DerivableUnit<Self::Time> + DivUnit<
        Self::Time,
        Quot = Self::Velocity,
    >;

    /// Velocity unit of the family.
    type Velocity: AdditiveUnit + DerivableUnit<Self::Time> + DivUnit<
        Self::Time,
        Quot = Self::Acceleration,
    > + IntegrableUnit<Self::Time> + MulUnit<Self::Time, Prod = Self::Distance>;

    /// Acceleration unit of the family.
    type Acceleration: AdditiveUnit + DerivableUnit<Self::Time> + DivUnit<
        Self::Time,
        Quot = Self::Jolt,
    > + IntegrableUnit<Self::Time> + MulUnit<Self::Time, Prod = Self::Velocity>;

    /// Jolt unit of the family.
    type Jolt: AdditiveUnit + IntegrableUnit<Self::Time> + MulUnit<
        Self::Time,
        Prod = Self::Acceleration,
    >;

    /// Force unit of the family.
    type Force: AdditiveUnit + DivUnit<Self::Inertia, Quot = Self::Acceleration> + DivUnit<
        Self::Acceleration,
        Quot = Self::Inertia,
    >;

    /// Inertia unit of the family.
    type Inertia: AdditiveUnit + MulUnit<Self::Acceleration, Prod = Self::Force>;
}

/// Pairs a unit with its reciprocal unit (a time with a frequency): the
/// reciprocal of a value of one is a value of the other.
pub trait RecipUnit: Unit {
    /// The reciprocal unit.
    type Inv: Unit;
}

/// A quantity: one exact scalar value carrying its unit as a zero-sized
/// marker type.
#[derive(Copy)]
pub struct Qty<U> {
    val: Scalar,
    unit: PhantomData<U>,
}

impl<U> Clone for Qty<U> {
    fn clone(&self) -> (r: Self)
        ensures
            r@ == self@,
    {
        Qty { val: self.val, unit: PhantomData }
    }
}

impl<U> View for Qty<U> {
    type V = Num;

    closed spec fn view(&self) -> Num {
        self.val@
    }
}

impl<U: Unit> Qty<U> {
    /// Establishes at a use site that this quantity's model is well
    /// formed: bounded, positive denominator, lowest terms.
    pub fn check_wf(&self)
        ensures
            num_wf(self@),
    {
        self.val.check_wf();
    }

    /// Wrap a bare scalar as a quantity of this unit.
    pub fn from_scalar(s: Scalar) -> (r: Qty<U>)
        ensures
            r@ == s@,
    {
        Qty { val: s, unit: PhantomData }
    }

    /// The bare scalar value, the unit forgotten.
    pub fn raw(self) -> (r: Scalar)
        ensures
            r@ == self@,
    {
        self.val
    }

    /// The quantity with the exact integer value `i`.
    pub fn from_int(i: i64) -> (r: Qty<U>)
        requires
            i > i64::MIN,
        ensures
            r@ == (Num::Fin { n: i as int, d: 1 }),
    {
        Qty { val: Scalar::from_int(i), unit: PhantomData }
    }

    /// The quantity with the exact value `n / d`.
    pub fn ratio(n: i64, d: i64) -> (r: Qty<U>)
        ensures
            r@ == spec_ratio(n as int, d as int),
    {
        Qty { val: Scalar::ratio(n, d), unit: PhantomData }
    }

    /// The zero of this unit.
    pub fn zero() -> (r: Qty<U>)
        ensures
            r@ == num_zero(),
    {
        Qty { val: Scalar::zero(), unit: PhantomData }
    }

    /// The positive-infinity sentinel of this unit.
    pub fn infinity() -> (r: Qty<U>)
        ensures
            r@ == Num::Inf,
    {
        Qty { val: Scalar::infinity(), unit: PhantomData }
    }

    /// The negative-infinity sentinel of this unit.
    pub fn neg_infinity() -> (r: Qty<U>)
        ensures
            r@ == Num::NegInf,
    {
        Qty { val: Scalar::neg_infinity(), unit: PhantomData }
    }

    /// The not-a-number sentinel of this unit.
    pub fn nan() -> (r: Qty<U>)
        ensures
            r@ == Num::Nan,
    {
        Qty { val: Scalar::nan(), unit: PhantomData }
    }

    /// Absolute value.
    pub fn abs(self) -> (r: Qty<U>)
        ensures
            r@ == spec_abs(self@),
    {
        Qty { val: self.val.abs(), unit: PhantomData }
    }

    /// Negation.
    pub fn neg(self) -> (r: Qty<U>)
        ensures
            r@ == spec_neg(self@),
    {
        Qty { val: self.val.neg(), unit: PhantomData }
    }

    /// True exactly for finite values.
    pub fn is_finite(self) -> (r: bool)
        ensures
            r == (self@ is Fin),
    {
        self.val.is_finite()
    }

    /// True exactly for the not-a-number sentinel.
    pub fn is_nan(self) -> (r: bool)
        ensures
            r == (self@ is Nan),
    {
        self.val.is_nan()
    }

    /// True for finite nonzero values.
    pub fn is_normal(self) -> (r: bool)
        ensures
            r == (self@ is Fin && num_sign(self@) != 0),
    {
        self.val.is_normal()
    }

    /// True for negative finite values and negative infinity.
    pub fn is_sign_negative(self) -> (r: bool)
        ensures
            r == (num_sign(self@) < 0),
    {
        self.val.is_sign_negative()
    }

    /// True wherever `is_sign_negative` is false.
    pub fn is_sign_positive(self) -> (r: bool)
        ensures
            r == (num_sign(self@) >= 0),
    {
        self.val.is_sign_positive()
    }

    /// The direction of the value: clockwise for zero or greater (the
    /// not-a-number sentinel falls to counter-clockwise, as it compares
    /// below nothing).
    pub fn get_direction(self) -> (r: Direction)
        ensures
            r == (if spec_le(num_zero(), self@) {
                Direction::CW
            } else {
                Direction::CCW
            }),
    {
        if self.val.ge(Scalar::zero()) {
            Direction::CW
        } else {
            Direction::CCW
        }
    }

    /// Larger of two quantities; a sentinel operand is ignored.
    pub fn max(self, other: Qty<U>) -> (r: Qty<U>)
        ensures
            r@ == spec_max(self@, other@),
    {
        Qty { val: self.val.max(other.val), unit: PhantomData }
    }

    /// Smaller of two quantities; a sentinel operand is ignored.
    pub fn min(self, other: Qty<U>) -> (r: Qty<U>)
        ensures
            r@ == spec_min(self@, other@),
    {
        Qty { val: self.val.min(other.val), unit: PhantomData }
    }

    /// Like `max`, but over references: the second operand wherever it
    /// compares strictly above the first.
    pub fn max_ref<'a>(&'a self, other: &'a Qty<U>) -> (r: &'a Qty<U>)
        ensures
            r@ == (if spec_lt(self@, other@) {
                other@
            } else {
                self@
            }),
    {
        if (*self).val.lt((*other).val) {
            other
        } else {
            self
        }
    }

    /// Like `min`, but over references: the second operand wherever it
    /// compares strictly below the first.
    pub fn min_ref<'a>(&'a self, other: &'a Qty<U>) -> (r: &'a Qty<U>)
        ensures
            r@ == (if spec_lt(other@, self@) {
                other@
            } else {
                self@
            }),
    {
        if (*other).val.lt((*self).val) {
            other
        } else {
            self
        }
    }

    /// Scale by a bare scalar.
    pub fn scale(self, k: Scalar) -> (r: Qty<U>)
        ensures
            r@ == spec_mul(self@, k@),
    {
        Qty { val: self.val.mul(k), unit: PhantomData }
    }

    /// Divide by a bare scalar.
    pub fn div_scale(self, k: Scalar) -> (r: Qty<U>)
        ensures
            r@ == spec_div(self@, k@),
    {
        Qty { val: self.val.div(k), unit: PhantomData }
    }

    /// The bare ratio of two quantities of the same unit.
    pub fn ratio_to(self, other: Qty<U>) -> (r: Scalar)
        ensures
            r@ == spec_div(self@, other@),
    {
        self.val.div(other.val)
    }

    /// Scale by a bounded factor: the value times a scalar of the closed
    /// unit interval, staying in the same unit.
    pub fn mul_by_factor(self, f: Factor) -> (r: Qty<U>)
        ensures
            r@ == spec_mul(self@, f@),
    {
        Qty { val: self.val.mul(f.as_scalar()), unit: PhantomData }
    }

    /// The value raised to the integer power `e`, in the same unit.
    pub fn powi(self, e: i32) -> (r: Qty<U>)
        ensures
            r@ == spec_powi(self@, e as int),
    {
        Qty { val: self.val.powi(e), unit: PhantomData }
    }

    /// Equality with the conventions of float comparison.
    pub fn eq_qty(self, other: Qty<U>) -> (r: bool)
        ensures
            r == spec_eq(self@, other@),
    {
        self.val.eq_val(other.val)
    }

    /// Strict comparison.
    pub fn lt(self, other: Qty<U>) -> (r: bool)
        ensures
            r == spec_lt(self@, other@),
    {
        self.val.lt(other.val)
    }

    /// Non-strict comparison.
    pub fn le(self, other: Qty<U>) -> (r: bool)
        ensures
            r == spec_le(self@, other@),
    {
        self.val.le(other.val)
    }

    /// Strict comparison, the other way around.
    pub fn gt(self, other: Qty<U>) -> (r: bool)
        ensures
            r == spec_lt(other@, self@),
    {
        self.val.gt(other.val)
    }

    /// Non-strict comparison, the other way around.
    pub fn ge(self, other: Qty<U>) -> (r: bool)
        ensures
            r == spec_le(other@, self@),
    {
        self.val.ge(other.val)
    }

    /// Addition, for a declared `U + R` relation.
    pub fn add<R: Unit>(self, rhs: Qty<R>) -> (r: Qty<<U as AddUnit<R>>::Sum>) where
        U: AddUnit<R>,

        ensures
            r@ == spec_add(self@, rhs@),
    {
        Qty { val: self.val.add(rhs.val), unit: PhantomData }
    }

    /// Subtraction, for a declared `U - R` relation.
    pub fn sub<R: Unit>(self, rhs: Qty<R>) -> (r: Qty<<U as SubUnit<R>>::Diff>) where
        U: SubUnit<R>,

        ensures
            r@ == spec_sub(self@, rhs@),
    {
        Qty { val: self.val.sub(rhs.val), unit: PhantomData }
    }

    /// In-place addition, where the sum keeps the unit.
    pub fn add_assign<R: Unit>(&mut self, rhs: Qty<R>) where U: AddUnit<R, Sum = U>
        ensures
            final (self)@ == spec_add(old(self)@, rhs@),
    {
        let cur: Qty<U> = Qty { val: self.val, unit: PhantomData };
        *self = cur.add(rhs);
    }

    /// In-place subtraction, where the difference keeps the unit.
    pub fn sub_assign<R: Unit>(&mut self, rhs: Qty<R>) where U: SubUnit<R, Diff = U>
        ensures
            final (self)@ == spec_sub(old(self)@, rhs@),
    {
        let cur: Qty<U> = Qty { val: self.val, unit: PhantomData };
        *self = cur.sub(rhs);
    }

    /// Multiplication, for a declared `U * R` relation, scaled by the
    /// relation's conversion constant.
    pub fn mul<R: Unit>(self, rhs: Qty<R>) -> (r: Qty<<U as MulUnit<R>>::Prod>) where
        U: MulUnit<R>,

        ensures
            r@ == spec_mul(
                spec_mul(self@, rhs@),
                Num::Fin { n: <U as MulUnit<R>>::mul_kn(), d: <U as MulUnit<R>>::mul_kd() },
            ),
    {
        let k = <U as MulUnit<R>>::mul_factor();
        Qty { val: self.val.mul(rhs.val).mul(k), unit: PhantomData }
    }

    /// Division, for a declared `U / R` relation, scaled by the reciprocal
    /// of the relation's conversion constant.
    pub fn div<R: Unit>(self, rhs: Qty<R>) -> (r: Qty<<U as DivUnit<R>>::Quot>) where
        U: DivUnit<R>,

        ensures
            r@ == spec_div(
                spec_div(self@, rhs@),
                Num::Fin { n: <U as DivUnit<R>>::div_kn(), d: <U as DivUnit<R>>::div_kd() },
            ),
    {
        let k = <U as DivUnit<R>>::div_factor();
        Qty { val: self.val.div(rhs.val).div(k), unit: PhantomData }
    }

    /// Conversion into another unit through a declared fixed ratio.
    pub fn convert_to<B: Unit>(self) -> (r: Qty<B>) where B: ConvUnit<U>
        ensures
            r@ == spec_mul(
                self@,
                Num::Fin { n: <B as ConvUnit<U>>::conv_kn(), d: <B as ConvUnit<U>>::conv_kd() },
            ),
    {
        let k = <B as ConvUnit<U>>::conv_factor();
        Qty { val: self.val.mul(k), unit: PhantomData }
    }

    /// Conversion back across a declared fixed ratio: the inverse of
    /// `convert_to` on the paired unit.
    pub fn convert_back<B: Unit>(self) -> (r: Qty<B>) where U: ConvUnit<B>
        ensures
            r@ == spec_div(
                self@,
                Num::Fin { n: <U as ConvUnit<B>>::conv_kn(), d: <U as ConvUnit<B>>::conv_kd() },
            ),
    {
        let k = <U as ConvUnit<B>>::conv_factor();
        Qty { val: self.val.div(k), unit: PhantomData }
    }

    /// Reduce an inertia by a ratio: the value scales with the square of
    /// the ratio, times the relation's conversion constant.
    pub fn reduce<B: Unit>(self, ratio: Qty<B>) -> (r: Qty<<U as InertiaUnit<B>>::Reduced>) where
        U: InertiaUnit<B>,

        ensures
            r@ == spec_mul(
                spec_mul(spec_mul(self@, ratio@), ratio@),
                Num::Fin { n: <U as InertiaUnit<B>>::red_kn(), d: <U as InertiaUnit<B>>::red_kd() },
            ),
    {
        let k = <U as InertiaUnit<B>>::red_factor();
        Qty { val: self.val.mul(ratio.val).mul(ratio.val).mul(k), unit: PhantomData }
    }

    /// The reversal of `reduce`: divide twice by the ratio and once by the
    /// relation's conversion constant.
    pub fn extend<B: Unit>(reduced: Qty<<U as InertiaUnit<B>>::Reduced>, ratio: Qty<B>) -> (r:
        Qty<U>) where U: InertiaUnit<B>
        ensures
            r@ == spec_div(
                spec_div(spec_div(reduced@, ratio@), ratio@),
                Num::Fin { n: <U as InertiaUnit<B>>::red_kn(), d: <U as InertiaUnit<B>>::red_kd() },
            ),
    {
        let k = <U as InertiaUnit<B>>::red_factor();
        Qty { val: reduced.val.div(ratio.val).div(ratio.val).div(k), unit: PhantomData }
    }

    /// The reciprocal value in the paired reciprocal unit.
    pub fn recip(self) -> (r: Qty<<U as RecipUnit>::Inv>) where U: RecipUnit
        ensures
            r@ == spec_div(crate::scalar::num_one(), self@),
    {
        Qty { val: Scalar::one().div(self.val), unit: PhantomData }
    }

    /// The bare product of a quantity and a quantity of its reciprocal
    /// unit.
    pub fn times_inv(self, other: Qty<<U as RecipUnit>::Inv>) -> (r: Scalar) where U: RecipUnit
        ensures
            r@ == spec_mul(self@, other@),
    {
        self.val.mul(other.val)
    }
}

impl<U> PartialEq for Qty<U> {
    fn eq(&self, other: &Self) -> (r: bool) {
        self.val.eq_val(other.val)
    }
}

impl<U> vstd::std_specs::cmp::PartialEqSpecImpl for Qty<U> {
    open spec fn obeys_eq_spec() -> bool {
        true
    }

    open spec fn eq_spec(&self, other: &Self) -> bool {
        spec_eq(self@, other@)
    }
}

impl<U> PartialOrd for Qty<U> {
    fn partial_cmp(&self, other: &Self) -> (r: Option<core::cmp::Ordering>) {
        self.val.partial_cmp(&other.val)
    }
}

impl<U> vstd::std_specs::cmp::PartialOrdSpecImpl for Qty<U> {
    open spec fn obeys_partial_cmp_spec() -> bool {
        true
    }

    open spec fn partial_cmp_spec(&self, other: &Self) -> Option<core::cmp::Ordering> {
        if self@ is Nan || other@ is Nan {
            None
        } else if spec_eq(self@, other@) {
            Some(core::cmp::Ordering::Equal)
        } else if spec_lt(self@, other@) {
            Some(core::cmp::Ordering::Less)
        } else {
            Some(core::cmp::Ordering::Greater)
        }
    }
}

} // verus!
