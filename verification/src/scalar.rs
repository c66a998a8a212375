//! The exact scalar every unit wraps: a rational number kept in lowest terms,
//! extended with positive infinity, negative infinity and a not-a-number
//! sentinel. Arithmetic on the specials follows the usual conventions of
//! floating-point arithmetic (division of a nonzero finite value by zero gives
//! a signed infinity, `0 / 0` gives the sentinel, the sentinel propagates);
//! a finite result whose lowest-terms form does not fit the 64-bit fields is
//! reported as the sentinel as well, since nothing exact could be returned.

use vstd::prelude::*;
use vstd::arithmetic::div_mod::{lemma_div_multiples_vanish, lemma_fundamental_div_mod};
use crate::gcd::{
    abs_nat, gcd, gcd_u128, lemma_gcd_divides, lemma_gcd_one, lemma_gcd_pos,
    lemma_lowest_terms_unique, lemma_reduced_coprime,
};

verus! {

/// Mathematical model of a scalar: a rational `n / d`, or one of the three
/// special values.
pub enum Num {
    /// A finite rational value `n / d`.
    Fin { n: int, d: int },
    /// Positive infinity.
    Inf,
    /// Negative infinity.
    NegInf,
    /// The not-a-number sentinel.
    Nan,
}

/// Largest magnitude a stored numerator or denominator may take.
pub open spec fn max_mag() -> int {
    i64::MAX as int
}

/// Well-formed model values: finite parts are bounded and in lowest terms,
/// with a positive denominator.
pub open spec fn num_wf(v: Num) -> bool {
    match v {
        Num::Fin { n, d } => {
            &&& 1 <= d <= max_mag()
            &&& -max_mag() <= n <= max_mag()
            &&& gcd(abs_nat(n), d as nat) == 1
        },
        _ => true,
    }
}

/// Reduce the fraction `nn / dd` (with `dd >= 1`) to lowest terms; if the
/// reduced parts do not fit the bounds, the value is not representable and
/// the sentinel stands for it.
pub open spec fn norm(nn: int, dd: int) -> Num
    recommends
        dd >= 1,
{
    let g = gcd(abs_nat(nn), dd as nat) as int;
    let rn = nn / g;
    let rd = dd / g;
    if -max_mag() <= rn <= max_mag() && rd <= max_mag() {
        Num::Fin { n: rn, d: rd }
    } else {
        Num::Nan
    }
}

/// The model of zero.
pub open spec fn num_zero() -> Num {
    Num::Fin { n: 0, d: 1 }
}

/// The model of one.
pub open spec fn num_one() -> Num {
    Num::Fin { n: 1, d: 1 }
}

/// Addition on models.
pub open spec fn spec_add(a: Num, b: Num) -> Num {
    match (a, b) {
        (Num::Nan, _) => Num::Nan,
        (_, Num::Nan) => Num::Nan,
        (Num::Inf, Num::NegInf) => Num::Nan,
        (Num::NegInf, Num::Inf) => Num::Nan,
        (Num::Inf, _) => Num::Inf,
        (_, Num::Inf) => Num::Inf,
        (Num::NegInf, _) => Num::NegInf,
        (_, Num::NegInf) => Num::NegInf,
        (Num::Fin { n: n1, d: d1 }, Num::Fin { n: n2, d: d2 }) => norm(
            n1 * d2 + n2 * d1,
            d1 * d2,
        ),
    }
}

/// Negation on models.
pub open spec fn spec_neg(a: Num) -> Num {
    match a {
        Num::Fin { n, d } => Num::Fin { n: -n, d },
        Num::Inf => Num::NegInf,
        Num::NegInf => Num::Inf,
        Num::Nan => Num::Nan,
    }
}

/// Subtraction on models.
pub open spec fn spec_sub(a: Num, b: Num) -> Num {
    spec_add(a, spec_neg(b))
}

/// Sign of a model value: `-1`, `0` or `1` for finite values and the
/// infinities; `0` for the sentinel.
pub open spec fn num_sign(a: Num) -> int {
    match a {
        Num::Fin { n, d } => {
            if n > 0 {
                1
            } else if n < 0 {
                -1
            } else {
                0
            }
        },
        Num::Inf => 1,
        Num::NegInf => -1,
        Num::Nan => 0,
    }
}

/// Multiplication on models.
pub open spec fn spec_mul(a: Num, b: Num) -> Num {
    match (a, b) {
        (Num::Nan, _) => Num::Nan,
        (_, Num::Nan) => Num::Nan,
        (Num::Fin { n: n1, d: d1 }, Num::Fin { n: n2, d: d2 }) => norm(n1 * n2, d1 * d2),
        // at least one operand is an infinity
        _ => {
            if num_sign(a) * num_sign(b) > 0 {
                Num::Inf
            } else if num_sign(a) * num_sign(b) < 0 {
                Num::NegInf
            } else {
                Num::Nan
            }
        },
    }
}

/// Division on models.
pub open spec fn spec_div(a: Num, b: Num) -> Num {
    match (a, b) {
        (Num::Nan, _) => Num::Nan,
        (_, Num::Nan) => Num::Nan,
        (Num::Fin { n: n1, d: d1 }, Num::Fin { n: n2, d: d2 }) => {
            if n2 == 0 {
                // division by an exact zero: signed infinity, or the sentinel
                // for zero over zero
                if n1 > 0 {
                    Num::Inf
                } else if n1 < 0 {
                    Num::NegInf
                } else {
                    Num::Nan
                }
            } else if n2 > 0 {
                norm(n1 * d2, d1 * n2)
            } else {
                norm(-(n1 * d2), -(d1 * n2))
            }
        },
        (Num::Fin { .. }, _) => num_zero(),  // finite over infinite
        (_, Num::Fin { n: n2, .. }) => {
            // infinity over finite: the divisor's sign flips the sign of the
            // result; division by the (positive) exact zero keeps it
            if (a is Inf) == (n2 >= 0) {
                Num::Inf
            } else {
                Num::NegInf
            }
        },
        _ => Num::Nan,  // infinity over infinity
    }
}

/// The general-ratio constructor: `n / d` for any pair of bounded integers,
/// including a zero or negative denominator.
pub open spec fn spec_ratio(n: int, d: int) -> Num {
    if d == 0 {
        if n > 0 {
            Num::Inf
        } else if n < 0 {
            Num::NegInf
        } else {
            Num::Nan
        }
    } else if d > 0 {
        norm(n, d)
    } else {
        norm(-n, -d)
    }
}

/// Equality on models, with the conventions of floating-point comparison:
/// the sentinel equals nothing, finite values compare as rationals.
pub open spec fn spec_eq(a: Num, b: Num) -> bool {
    match (a, b) {
        (Num::Fin { n: n1, d: d1 }, Num::Fin { n: n2, d: d2 }) => n1 * d2 == n2 * d1,
        (Num::Inf, Num::Inf) => true,
        (Num::NegInf, Num::NegInf) => true,
        _ => false,
    }
}

/// Strict order on models: the sentinel compares below nothing and above
/// nothing, the infinities bound every finite value.
pub open spec fn spec_lt(a: Num, b: Num) -> bool {
    match (a, b) {
        (Num::Nan, _) => false,
        (_, Num::Nan) => false,
        (Num::Fin { n: n1, d: d1 }, Num::Fin { n: n2, d: d2 }) => n1 * d2 < n2 * d1,
        (Num::NegInf, Num::NegInf) => false,
        (Num::NegInf, _) => true,
        (_, Num::NegInf) => false,
        (Num::Inf, _) => false,
        (_, Num::Inf) => true,
    }
}

/// Non-strict order on models.
pub open spec fn spec_le(a: Num, b: Num) -> bool {
    spec_lt(a, b) || spec_eq(a, b)
}

/// Larger of two model values; a sentinel operand is ignored, as the
/// floating-point `max` ignores it.
pub open spec fn spec_max(a: Num, b: Num) -> Num {
    if a is Nan {
        b
    } else if b is Nan {
        a
    } else if spec_lt(a, b) {
        b
    } else {
        a
    }
}

/// Smaller of two model values; a sentinel operand is ignored.
pub open spec fn spec_min(a: Num, b: Num) -> Num {
    if a is Nan {
        b
    } else if b is Nan {
        a
    } else if spec_lt(b, a) {
        b
    } else {
        a
    }
}

/// Absolute value on models.
pub open spec fn spec_abs(a: Num) -> Num {
    match a {
        Num::Fin { n, d } => {
            if n < 0 {
                Num::Fin { n: -n, d }
            } else {
                a
            }
        },
        Num::NegInf => Num::Inf,
        _ => a,
    }
}

/// Integer power on models: the value multiplied into one `e` times, or
/// divided for a negative exponent, with the conventions of the other
/// operations on the specials.
pub open spec fn spec_powi(a: Num, e: int) -> Num
    decreases abs_nat(e),
{
    if e == 0 {
        num_one()
    } else if e > 0 {
        spec_mul(spec_powi(a, e - 1), a)
    } else {
        spec_div(spec_powi(a, e + 1), a)
    }
}

/// What `norm` returns is in lowest terms, bounded, and stands for the
/// fraction it was given.
pub proof fn lemma_norm_equiv(nn: int, dd: int)
    requires
        dd >= 1,
    ensures
        norm(nn, dd) matches Num::Fin { n, d } ==> {
            &&& 1 <= d <= max_mag()
            &&& -max_mag() <= n <= max_mag()
            &&& gcd(abs_nat(n), d as nat) == 1
            &&& n * dd == nn * d
        },
{
    let g = gcd(abs_nat(nn), dd as nat) as int;
    lemma_gcd_pos(abs_nat(nn), dd as nat);
    lemma_gcd_divides(abs_nat(nn), dd as nat);
    let rn = nn / g;
    let rd = dd / g;
    lemma_abs_div(nn, g);
    lemma_abs_div(dd, g);
    assert(nn == g * rn);
    assert(dd == g * rd);
    assert(rd >= 1) by (nonlinear_arith)
        requires
            dd == g * rd,
            dd >= 1,
            g >= 1,
            rd >= 0;
    if -max_mag() <= rn <= max_mag() && rd <= max_mag() {
        assert(abs_nat(rn) == abs_nat(nn) / g as nat);
        assert(rd as nat == dd as nat / g as nat);
        lemma_reduced_coprime(abs_nat(nn), dd as nat);
        assert(rn * dd == nn * rd) by (nonlinear_arith)
            requires
                nn == g * rn,
                dd == g * rd;
    }
}

/// Normalising any fraction that stands for an already-canonical value gives
/// exactly that value back.
pub proof fn lemma_norm_of_canonical(nn: int, dd: int, n: int, d: int)
    requires
        dd >= 1,
        1 <= d <= max_mag(),
        -max_mag() <= n <= max_mag(),
        gcd(abs_nat(n), d as nat) == 1,
        nn * d == n * dd,
    ensures
        norm(nn, dd) == (Num::Fin { n, d }),
{
    let g = gcd(abs_nat(nn), dd as nat) as int;
    lemma_gcd_pos(abs_nat(nn), dd as nat);
    lemma_gcd_divides(abs_nat(nn), dd as nat);
    let rn = nn / g;
    let rd = dd / g;
    lemma_abs_div(nn, g);
    lemma_abs_div(dd, g);
    assert(nn == g * rn);
    assert(dd == g * rd);
    assert(rd >= 1) by (nonlinear_arith)
        requires
            dd == g * rd,
            dd >= 1,
            g >= 1,
            rd >= 0;
    lemma_reduced_coprime(abs_nat(nn), dd as nat);
    assert(gcd(abs_nat(rn), rd as nat) == 1);
    // (rn, rd) and (n, d) stand for the same rational, both in lowest terms.
    assert(rn * d == n * rd) by (nonlinear_arith)
        requires
            nn == g * rn,
            dd == g * rd,
            nn * d == n * dd,
            g >= 1;
    lemma_lowest_terms_unique(rn, rd, n, d);
}

/// Exact division carried through the absolute value: if `g` divides the
/// magnitude of `n`, integer division by `g` is exact and respects the sign.
proof fn lemma_abs_div(n: int, g: int)
    requires
        g >= 1,
        abs_nat(n) % (g as nat) == 0,
    ensures
        n == g * (n / g),
        abs_nat(n / g) == abs_nat(n) / (g as nat),
        n >= 0 ==> n / g >= 0,
        n < 0 ==> n / g <= 0,
{
    let k = (abs_nat(n) / (g as nat)) as int;
    lemma_fundamental_div_mod(abs_nat(n) as int, g);
    assert(abs_nat(n) as int == g * k);
    if n >= 0 {
        lemma_div_multiples_vanish(k, g);
        assert(n == g * k);
        assert(n / g == k);
    } else {
        assert(n == g * (-k)) by (nonlinear_arith)
            requires abs_nat(n) as int == g * k, n < 0, abs_nat(n) == -n;
        lemma_div_multiples_vanish(-k, g);
        assert(n / g == -k);
        assert(k >= 0);
        assert(abs_nat(-k) == k);
    }
}

/// Multiplying a well-formed value by one changes nothing.
pub proof fn lemma_mul_one(a: Num)
    requires
        num_wf(a),
    ensures
        spec_mul(a, num_one()) == a,
        spec_mul(num_one(), a) == a,
{
    match a {
        Num::Fin { n, d } => {
            lemma_norm_of_canonical(n * 1, d * 1, n, d);
            lemma_norm_of_canonical(1 * n, 1 * d, n, d);
        },
        _ => {},
    }
}

} // verus!

// ####################################
// #    The executable scalar type    #
// ####################################

verus! {

/// Representation of a scalar: lowest-terms fraction or a special value.
#[derive(Clone, Copy)]
enum Rep {
    Finite { num: i64, den: i64 },
    Inf,
    NegInf,
    Nan,
}

/// An exact scalar value: a rational in lowest terms, positive or negative
/// infinity, or the not-a-number sentinel. This is the numeric carrier every
/// unit type wraps.
#[derive(Clone, Copy)]
pub struct Scalar {
    rep: Rep,
}

impl View for Scalar {
    type V = Num;

    closed spec fn view(&self) -> Num {
        match self.rep {
            Rep::Finite { num, den } => Num::Fin { n: num as int, d: den as int },
            Rep::Inf => Num::Inf,
            Rep::NegInf => Num::NegInf,
            Rep::Nan => Num::Nan,
        }
    }
}

/// Bound on products of two stored parts, used to discharge overflow checks.
proof fn lemma_part_product_bound(a: int, b: int)
    requires
        -max_mag() <= a <= max_mag(),
        -max_mag() <= b <= max_mag(),
    ensures
        -(max_mag() * max_mag()) <= a * b <= max_mag() * max_mag(),
{
    assert(-(max_mag() * max_mag()) <= a * b <= max_mag() * max_mag()) by (nonlinear_arith)
        requires
            -max_mag() <= a <= max_mag(),
            -max_mag() <= b <= max_mag();
}

/// Reduce the signed fraction `n / d` to lowest terms and pack it into a
/// scalar; the sentinel stands for a result whose reduced parts do not fit.
fn reduce_signed(n: i128, d: i128) -> (r: Scalar)
    requires
        1 <= d,
        i128::MIN < n,
    ensures
        r@ == norm(n as int, d as int),
{
    let neg = n < 0;
    let un: u128 = if neg {
        (-n) as u128
    } else {
        n as u128
    };
    let ud: u128 = d as u128;
    proof {
        assert(un as nat == abs_nat(n as int));
    }
    let g = gcd_u128(un, ud);
    let rn = un / g;
    let rd = ud / g;
    proof {
        lemma_gcd_pos(un as nat, ud as nat);
        lemma_gcd_divides(un as nat, ud as nat);
        lemma_abs_div(n as int, g as int);
        lemma_abs_div(d as int, g as int);
        assert(rn as nat == abs_nat((n as int) / (g as int)));
        assert(rd as nat == abs_nat((d as int) / (g as int)));
        assert(rd as int == (d as int) / (g as int));
        assert(rd >= 1) by (nonlinear_arith)
            requires
                d as int == (g as int) * (rd as int),
                d >= 1,
                g >= 1,
                rd as int >= 0;
    }
    if rn <= (i64::MAX as u128) && rd <= (i64::MAX as u128) {
        let num: i64 = if neg {
            -((rn as u64) as i64)
        } else {
            (rn as u64) as i64
        };
        let den: i64 = (rd as u64) as i64;
        proof {
            lemma_reduced_coprime(un as nat, ud as nat);
            assert(abs_nat(num as int) == rn as nat);
            assert(num as int == (n as int) / (g as int));
        }
        Scalar { rep: Rep::Finite { num, den } }
    } else {
        Scalar { rep: Rep::Nan }
    }
}

impl Scalar {
    #[verifier::type_invariant]
    spec fn inv(self) -> bool {
        num_wf(self@)
    }

    /// Establishes at a use site that this value's model is well formed:
    /// bounded, positive denominator, lowest terms. This is the type's
    /// internal invariant, surfaced so that the laws, whose hypotheses speak
    /// of well-formed models, apply to any value in hand.
    pub fn check_wf(&self)
        ensures
            num_wf(self@),
    {
        proof {
            use_type_invariant(&*self);
        }
    }

    /// The scalar zero.
    pub fn zero() -> (r: Scalar)
        ensures
            r@ == num_zero(),
    {
        proof {
            lemma_gcd_one(0);
        }
        Scalar { rep: Rep::Finite { num: 0, den: 1 } }
    }

    /// The scalar one.
    pub fn one() -> (r: Scalar)
        ensures
            r@ == num_one(),
    {
        proof {
            lemma_gcd_one(1);
        }
        Scalar { rep: Rep::Finite { num: 1, den: 1 } }
    }

    /// The positive-infinity sentinel.
    pub fn infinity() -> (r: Scalar)
        ensures
            r@ == Num::Inf,
    {
        Scalar { rep: Rep::Inf }
    }

    /// The negative-infinity sentinel.
    pub fn neg_infinity() -> (r: Scalar)
        ensures
            r@ == Num::NegInf,
    {
        Scalar { rep: Rep::NegInf }
    }

    /// The not-a-number sentinel.
    pub fn nan() -> (r: Scalar)
        ensures
            r@ == Num::Nan,
    {
        Scalar { rep: Rep::Nan }
    }

    /// The scalar with the exact integer value `i`.
    pub fn from_int(i: i64) -> (r: Scalar)
        requires
            i > i64::MIN,
        ensures
            r@ == (Num::Fin { n: i as int, d: 1 }),
    {
        proof {
            lemma_gcd_one(abs_nat(i as int));
        }
        Scalar { rep: Rep::Finite { num: i, den: 1 } }
    }

    /// The scalar with the exact value `n / d`, for any pair of integers;
    /// a zero denominator gives the signed infinity or, for `0 / 0`, the
    /// sentinel.
    pub fn ratio(n: i64, d: i64) -> (r: Scalar)
        ensures
            r@ == spec_ratio(n as int, d as int),
    {
        if d == 0 {
            if n > 0 {
                Scalar { rep: Rep::Inf }
            } else if n < 0 {
                Scalar { rep: Rep::NegInf }
            } else {
                Scalar { rep: Rep::Nan }
            }
        } else if d > 0 {
            reduce_signed(n as i128, d as i128)
        } else {
            reduce_signed(-(n as i128), -(d as i128))
        }
    }

    /// The scalar `1 / d`, for a positive denominator.
    pub fn recip_int(d: i64) -> (r: Scalar)
        requires
            d >= 1,
        ensures
            r@ == (Num::Fin { n: 1, d: d as int }),
    {
        proof {
            crate::gcd::lemma_gcd_comm(1, d as nat);
            lemma_gcd_one(d as nat);
        }
        Scalar { rep: Rep::Finite { num: 1, den: d } }
    }

    /// A scalar from a numerator and denominator already in lowest terms.
    pub fn from_parts(n: i64, d: i64) -> (r: Scalar)
        requires
            1 <= d,
            -i64::MAX <= n,
            gcd(abs_nat(n as int), d as nat) == 1,
        ensures
            r@ == (Num::Fin { n: n as int, d: d as int }),
    {
        Scalar { rep: Rep::Finite { num: n, den: d } }
    }

    /// Numerator of a finite scalar, `0` for the specials.
    pub fn numerator(self) -> (r: i64)
        ensures
            match self@ {
                Num::Fin { n, .. } => r as int == n,
                _ => r == 0,
            },
    {
        match self.rep {
            Rep::Finite { num, .. } => num,
            _ => 0,
        }
    }

    /// Denominator of a finite scalar, `0` for the specials.
    pub fn denominator(self) -> (r: i64)
        ensures
            match self@ {
                Num::Fin { d, .. } => r as int == d,
                _ => r == 0,
            },
    {
        match self.rep {
            Rep::Finite { den, .. } => den,
            _ => 0,
        }
    }

    /// True exactly for finite values.
    pub fn is_finite(self) -> (r: bool)
        ensures
            r == (self@ is Fin),
    {
        match self.rep {
            Rep::Finite { .. } => true,
            _ => false,
        }
    }

    /// True exactly for the not-a-number sentinel.
    pub fn is_nan(self) -> (r: bool)
        ensures
            r == (self@ is Nan),
    {
        match self.rep {
            Rep::Nan => true,
            _ => false,
        }
    }

    /// True for finite nonzero values, the counterpart of the float's
    /// normality test in an exact representation without subnormals.
    pub fn is_normal(self) -> (r: bool)
        ensures
            r == (self@ is Fin && num_sign(self@) != 0),
    {
        match self.rep {
            Rep::Finite { num, .. } => num != 0,
            _ => false,
        }
    }

    /// True for negative finite values and negative infinity. The exact
    /// representation has no negative zero, and the sentinel counts as
    /// positive, as the default float sentinel does.
    pub fn is_sign_negative(self) -> (r: bool)
        ensures
            r == (num_sign(self@) < 0),
    {
        match self.rep {
            Rep::Finite { num, .. } => num < 0,
            Rep::NegInf => true,
            _ => false,
        }
    }

    /// True wherever `is_sign_negative` is false.
    pub fn is_sign_positive(self) -> (r: bool)
        ensures
            r == (num_sign(self@) >= 0),
    {
        !self.is_sign_negative()
    }

    /// Negation; total, and exact on every value.
    pub fn neg(self) -> (r: Scalar)
        ensures
            r@ == spec_neg(self@),
    {
        proof {
            use_type_invariant(self);
        }
        match self.rep {
            Rep::Finite { num, den } => {
                proof {
                    assert(abs_nat(-(num as int)) == abs_nat(num as int));
                }
                Scalar { rep: Rep::Finite { num: -num, den } }
            },
            Rep::Inf => Scalar { rep: Rep::NegInf },
            Rep::NegInf => Scalar { rep: Rep::Inf },
            Rep::Nan => Scalar { rep: Rep::Nan },
        }
    }

    /// Addition, following the special-value conventions of float addition.
    pub fn add(self, rhs: Scalar) -> (r: Scalar)
        ensures
            r@ == spec_add(self@, rhs@),
    {
        proof {
            use_type_invariant(self);
            use_type_invariant(rhs);
        }
        match (self.rep, rhs.rep) {
            (Rep::Nan, _) => Scalar { rep: Rep::Nan },
            (_, Rep::Nan) => Scalar { rep: Rep::Nan },
            (Rep::Inf, Rep::NegInf) => Scalar { rep: Rep::Nan },
            (Rep::NegInf, Rep::Inf) => Scalar { rep: Rep::Nan },
            (Rep::Inf, _) => Scalar { rep: Rep::Inf },
            (_, Rep::Inf) => Scalar { rep: Rep::Inf },
            (Rep::NegInf, _) => Scalar { rep: Rep::NegInf },
            (_, Rep::NegInf) => Scalar { rep: Rep::NegInf },
            (Rep::Finite { num: n1, den: d1 }, Rep::Finite { num: n2, den: d2 }) => {
                proof {
                    lemma_part_product_bound(n1 as int, d2 as int);
                    lemma_part_product_bound(n2 as int, d1 as int);
                    lemma_part_product_bound(d1 as int, d2 as int);
                    assert((d1 as int) * (d2 as int) >= 1) by (nonlinear_arith)
                        requires
                            d1 as int >= 1,
                            d2 as int >= 1;
                }
                let nn: i128 = (n1 as i128) * (d2 as i128) + (n2 as i128) * (d1 as i128);
                let dd: i128 = (d1 as i128) * (d2 as i128);
                reduce_signed(nn, dd)
            },
        }
    }

    /// Subtraction: addition of the negated argument.
    pub fn sub(self, rhs: Scalar) -> (r: Scalar)
        ensures
            r@ == spec_sub(self@, rhs@),
    {
        self.add(rhs.neg())
    }

    /// Multiplication, following the special-value conventions of float
    /// multiplication (an infinity times an exact zero is the sentinel).
    pub fn mul(self, rhs: Scalar) -> (r: Scalar)
        ensures
            r@ == spec_mul(self@, rhs@),
    {
        proof {
            use_type_invariant(self);
            use_type_invariant(rhs);
        }
        match (self.rep, rhs.rep) {
            (Rep::Nan, _) => Scalar { rep: Rep::Nan },
            (_, Rep::Nan) => Scalar { rep: Rep::Nan },
            (Rep::Finite { num: n1, den: d1 }, Rep::Finite { num: n2, den: d2 }) => {
                proof {
                    lemma_part_product_bound(n1 as int, n2 as int);
                    lemma_part_product_bound(d1 as int, d2 as int);
                    assert((d1 as int) * (d2 as int) >= 1) by (nonlinear_arith)
                        requires
                            d1 as int >= 1,
                            d2 as int >= 1;
                }
                let nn: i128 = (n1 as i128) * (n2 as i128);
                let dd: i128 = (d1 as i128) * (d2 as i128);
                reduce_signed(nn, dd)
            },
            (Rep::Inf, Rep::Inf) => Scalar { rep: Rep::Inf },
            (Rep::NegInf, Rep::NegInf) => Scalar { rep: Rep::Inf },
            (Rep::Inf, Rep::NegInf) => Scalar { rep: Rep::NegInf },
            (Rep::NegInf, Rep::Inf) => Scalar { rep: Rep::NegInf },
            (Rep::Inf, Rep::Finite { num, .. }) => {
                if num > 0 {
                    Scalar { rep: Rep::Inf }
                } else if num < 0 {
                    Scalar { rep: Rep::NegInf }
                } else {
                    Scalar { rep: Rep::Nan }
                }
            },
            (Rep::Finite { num, .. }, Rep::Inf) => {
                if num > 0 {
                    Scalar { rep: Rep::Inf }
                } else if num < 0 {
                    Scalar { rep: Rep::NegInf }
                } else {
                    Scalar { rep: Rep::Nan }
                }
            },
            (Rep::NegInf, Rep::Finite { num, .. }) => {
                if num > 0 {
                    Scalar { rep: Rep::NegInf }
                } else if num < 0 {
                    Scalar { rep: Rep::Inf }
                } else {
                    Scalar { rep: Rep::Nan }
                }
            },
            (Rep::Finite { num, .. }, Rep::NegInf) => {
                if num > 0 {
                    Scalar { rep: Rep::NegInf }
                } else if num < 0 {
                    Scalar { rep: Rep::Inf }
                } else {
                    Scalar { rep: Rep::Nan }
                }
            },
        }
    }

    /// Division, following the special-value conventions of float division:
    /// a nonzero finite value over the exact zero is the signed infinity,
    /// zero over zero and infinity over infinity are the sentinel.
    pub fn div(self, rhs: Scalar) -> (r: Scalar)
        ensures
            r@ == spec_div(self@, rhs@),
    {
        proof {
            use_type_invariant(self);
            use_type_invariant(rhs);
        }
        match (self.rep, rhs.rep) {
            (Rep::Nan, _) => Scalar { rep: Rep::Nan },
            (_, Rep::Nan) => Scalar { rep: Rep::Nan },
            (Rep::Finite { num: n1, den: d1 }, Rep::Finite { num: n2, den: d2 }) => {
                if n2 == 0 {
                    if n1 > 0 {
                        Scalar { rep: Rep::Inf }
                    } else if n1 < 0 {
                        Scalar { rep: Rep::NegInf }
                    } else {
                        Scalar { rep: Rep::Nan }
                    }
                } else {
                    proof {
                        lemma_part_product_bound(n1 as int, d2 as int);
                        lemma_part_product_bound(d1 as int, n2 as int);
                        assert(n2 > 0 ==> (d1 as int) * (n2 as int) >= 1) by (nonlinear_arith)
                            requires
                                d1 as int >= 1;
                        assert(n2 < 0 ==> -((d1 as int) * (n2 as int)) >= 1) by (nonlinear_arith)
                            requires
                                d1 as int >= 1;
                    }
                    let nn: i128 = (n1 as i128) * (d2 as i128);
                    let dd: i128 = (d1 as i128) * (n2 as i128);
                    if n2 > 0 {
                        reduce_signed(nn, dd)
                    } else {
                        reduce_signed(-nn, -dd)
                    }
                }
            },
            (Rep::Finite { .. }, _) => {
                proof {
                    lemma_gcd_one(0);
                }
                Scalar { rep: Rep::Finite { num: 0, den: 1 } }
            },
            (Rep::Inf, Rep::Finite { num, .. }) => {
                if num >= 0 {
                    Scalar { rep: Rep::Inf }
                } else {
                    Scalar { rep: Rep::NegInf }
                }
            },
            (Rep::NegInf, Rep::Finite { num, .. }) => {
                if num >= 0 {
                    Scalar { rep: Rep::NegInf }
                } else {
                    Scalar { rep: Rep::Inf }
                }
            },
            _ => Scalar { rep: Rep::Nan },
        }
    }

    /// The value raised to the integer power `e`: repeated multiplication,
    /// or repeated division for a negative exponent.
    pub fn powi(self, e: i32) -> (r: Scalar)
        ensures
            r@ == spec_powi(self@, e as int),
    {
        let mut acc = Scalar::one();
        let bound: i64 = e as i64;
        if bound >= 0 {
            let mut i: i64 = 0;
            while i < bound
                invariant
                    0 <= i <= bound,
                    acc@ == spec_powi(self@, i as int),
                decreases bound - i,
            {
                acc = acc.mul(self);
                i = i + 1;
            }
        } else {
            let mut i: i64 = 0;
            while i > bound
                invariant
                    bound <= i <= 0,
                    acc@ == spec_powi(self@, i as int),
                decreases i - bound,
            {
                acc = acc.div(self);
                i = i - 1;
            }
        }
        acc
    }

    /// Absolute value.
    pub fn abs(self) -> (r: Scalar)
        ensures
            r@ == spec_abs(self@),
    {
        proof {
            use_type_invariant(self);
        }
        match self.rep {
            Rep::Finite { num, .. } => {
                if num < 0 {
                    self.neg()
                } else {
                    self
                }
            },
            Rep::NegInf => Scalar { rep: Rep::Inf },
            _ => self,
        }
    }

    /// Equality with the conventions of float comparison: the sentinel
    /// equals nothing, including itself.
    pub fn eq_val(self, rhs: Scalar) -> (r: bool)
        ensures
            r == spec_eq(self@, rhs@),
    {
        proof {
            use_type_invariant(self);
            use_type_invariant(rhs);
        }
        match (self.rep, rhs.rep) {
            (Rep::Finite { num: n1, den: d1 }, Rep::Finite { num: n2, den: d2 }) => {
                proof {
                    lemma_part_product_bound(n1 as int, d2 as int);
                    lemma_part_product_bound(n2 as int, d1 as int);
                }
                (n1 as i128) * (d2 as i128) == (n2 as i128) * (d1 as i128)
            },
            (Rep::Inf, Rep::Inf) => true,
            (Rep::NegInf, Rep::NegInf) => true,
            _ => false,
        }
    }

    /// Strict comparison with the conventions of float comparison: every
    /// comparison against the sentinel is false.
    pub fn lt(self, rhs: Scalar) -> (r: bool)
        ensures
            r == spec_lt(self@, rhs@),
    {
        proof {
            use_type_invariant(self);
            use_type_invariant(rhs);
        }
        match (self.rep, rhs.rep) {
            (Rep::Nan, _) => false,
            (_, Rep::Nan) => false,
            (Rep::Finite { num: n1, den: d1 }, Rep::Finite { num: n2, den: d2 }) => {
                proof {
                    lemma_part_product_bound(n1 as int, d2 as int);
                    lemma_part_product_bound(n2 as int, d1 as int);
                }
                (n1 as i128) * (d2 as i128) < (n2 as i128) * (d1 as i128)
            },
            (Rep::NegInf, Rep::NegInf) => false,
            (Rep::NegInf, _) => true,
            (_, Rep::NegInf) => false,
            (Rep::Inf, _) => false,
            (_, Rep::Inf) => true,
        }
    }

    /// Non-strict comparison.
    pub fn le(self, rhs: Scalar) -> (r: bool)
        ensures
            r == spec_le(self@, rhs@),
    {
        self.lt(rhs) || self.eq_val(rhs)
    }

    /// Strict comparison, the other way around.
    pub fn gt(self, rhs: Scalar) -> (r: bool)
        ensures
            r == spec_lt(rhs@, self@),
    {
        rhs.lt(self)
    }

    /// Non-strict comparison, the other way around.
    pub fn ge(self, rhs: Scalar) -> (r: bool)
        ensures
            r == spec_le(rhs@, self@),
    {
        rhs.le(self)
    }

    /// Larger of two scalars; a sentinel operand is ignored, as the float
    /// `max` ignores it.
    pub fn max(self, rhs: Scalar) -> (r: Scalar)
        ensures
            r@ == spec_max(self@, rhs@),
    {
        if self.is_nan() {
            rhs
        } else if rhs.is_nan() {
            self
        } else if self.lt(rhs) {
            rhs
        } else {
            self
        }
    }

    /// Smaller of two scalars; a sentinel operand is ignored.
    pub fn min(self, rhs: Scalar) -> (r: Scalar)
        ensures
            r@ == spec_min(self@, rhs@),
    {
        if self.is_nan() {
            rhs
        } else if rhs.is_nan() {
            self
        } else if rhs.lt(self) {
            rhs
        } else {
            self
        }
    }
}


impl PartialEq for Scalar {
    fn eq(&self, other: &Self) -> (r: bool) {
        (*self).eq_val(*other)
    }
}

impl vstd::std_specs::cmp::PartialEqSpecImpl for Scalar {
    open spec fn obeys_eq_spec() -> bool {
        true
    }

    open spec fn eq_spec(&self, other: &Self) -> bool {
        spec_eq(self@, other@)
    }
}

impl PartialOrd for Scalar {
    fn partial_cmp(&self, other: &Self) -> (r: Option<core::cmp::Ordering>) {
        if (*self).is_nan() || (*other).is_nan() {
            None
        } else if (*self).eq_val(*other) {
            Some(core::cmp::Ordering::Equal)
        } else if (*self).lt(*other) {
            Some(core::cmp::Ordering::Less)
        } else {
            Some(core::cmp::Ordering::Greater)
        }
    }
}

impl vstd::std_specs::cmp::PartialOrdSpecImpl for Scalar {
    open spec fn obeys_partial_cmp_spec() -> bool {
        true
    }

    open spec fn partial_cmp_spec(&self, other: &Self) -> Option<core::cmp::Ordering> {
        if self@ is Nan || other@ is Nan {
            None
        } else if spec_eq(self@, other@) {
            Some(core::cmp::Ordering::Equal)
        } else if spec_lt(self@, other@) {
            Some(core::cmp::Ordering::Less)
        } else {
            Some(core::cmp::Ordering::Greater)
        }
    }
}

} // verus!
