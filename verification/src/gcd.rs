//! Greatest common divisor: the spec-level Euclidean algorithm, its executable
//! counterpart, and the facts about it that the scalar normalisation relies on,
//! up to the uniqueness of a fraction's lowest-terms representation.

use vstd::prelude::*;
use vstd::arithmetic::div_mod::{
    lemma_fundamental_div_mod, lemma_fundamental_div_mod_converse_mod, lemma_mod_multiples_basic,
    lemma_mod_self_0, lemma_small_mod,
};
use vstd::arithmetic::mul::{
    lemma_mul_inequality, lemma_mul_is_commutative, lemma_mul_is_distributive_add,
    lemma_mul_is_distributive_sub,
};

verus! {

/// Euclid's algorithm as a specification function.
pub open spec fn gcd(a: nat, b: nat) -> nat
    decreases b,
{
    if b == 0 {
        a
    } else {
        gcd(b, a % b)
    }
}

/// `d` divides `a` exactly.
pub open spec fn divides(d: nat, a: nat) -> bool {
    d != 0 && a % d == 0
}

/// The gcd of two numbers, at least one positive, is positive.
pub proof fn lemma_gcd_pos(a: nat, b: nat)
    requires
        a > 0 || b > 0,
    ensures
        gcd(a, b) > 0,
    decreases b,
{
    if b == 0 {
    } else {
        lemma_gcd_pos(b, a % b);
    }
}

/// The gcd divides both of its arguments.
pub proof fn lemma_gcd_divides(a: nat, b: nat)
    requires
        a > 0 || b > 0,
    ensures
        divides(gcd(a, b), a),
        divides(gcd(a, b), b),
    decreases b,
{
    let g = gcd(a, b);
    lemma_gcd_pos(a, b);
    if b == 0 {
        lemma_mod_self_0(a as int);
        assert(a % a == 0);
        assert(0nat % a == 0) by {
            lemma_small_mod(0, a);
        }
    } else {
        lemma_gcd_divides(b, a % b);
        // g divides b and a % b; a == (a / b) * b + a % b, so g divides a.
        lemma_fundamental_div_mod(a as int, b as int);
        let q = a as int / b as int;
        let r = (a % b) as int;
        assert(a as int == q * (b as int) + r);
        // b == g * (b / g) and r == g * (r / g)
        lemma_fundamental_div_mod(b as int, g as int);
        lemma_fundamental_div_mod(r, g as int);
        let bq = b as int / g as int;
        let rq = r / g as int;
        assert(b as int == g as int * bq);
        assert(r == g as int * rq);
        assert(a as int == (q * bq + rq) * g as int) by {
            assert(q * (g as int * bq) == (q * bq) * g as int) by (nonlinear_arith);
            lemma_mul_is_distributive_add(g as int, q * bq, rq);
            lemma_mul_is_commutative(g as int, q * bq + rq);
        }
        lemma_mod_multiples_basic(q * bq + rq, g as int);
    }
}

/// A common divisor of `a` and `b` stays a factor through Euclid's recursion:
/// the gcd of `k * a` and `k * b` is `k` times the gcd of `a` and `b`.
pub proof fn lemma_gcd_scale(k: nat, a: nat, b: nat)
    requires
        k > 0,
    ensures
        gcd(k * a, k * b) == k * gcd(a, b),
    decreases b,
{
    if b == 0 {
        assert(k * b == 0) by (nonlinear_arith)
            requires b == 0;
    } else {
        // (k * a) % (k * b) == k * (a % b)
        let q = a as int / b as int;
        let r = (a % b) as int;
        lemma_fundamental_div_mod(a as int, b as int);
        assert(a as int == q * (b as int) + r);
        assert(k as int * a as int == q * (k as int * b as int) + k as int * r) by (nonlinear_arith)
            requires a as int == q * (b as int) + r;
        assert(0 <= k as int * r < k as int * b as int) by (nonlinear_arith)
            requires k > 0, 0 <= r < b as int;
        lemma_fundamental_div_mod_converse_mod(
            k as int * a as int,
            k as int * b as int,
            q,
            k as int * r,
        );
        assert((k * a) % (k * b) == k * (a % b));
        assert(k * b > 0) by (nonlinear_arith)
            requires k > 0, b > 0;
        lemma_gcd_scale(k, b, a % b);
    }
}

/// Bezout's identity: the gcd is an integer combination of its arguments.
/// Returns the pair of coefficients.
pub proof fn lemma_bezout(a: nat, b: nat) -> (c: (int, int))
    ensures
        gcd(a, b) == a * c.0 + b * c.1,
    decreases b,
{
    if b == 0 {
        assert(a * 1int + b * 0int == a) by (nonlinear_arith)
            requires b == 0;
        (1int, 0int)
    } else {
        let (x, y) = lemma_bezout(b, a % b);
        let q = a as int / b as int;
        let r = (a % b) as int;
        lemma_fundamental_div_mod(a as int, b as int);
        assert(gcd(a, b) == b * x + r * y);
        assert(b * x + r * y == a * y + b * (x - q * y)) by (nonlinear_arith)
            requires a as int == (b as int) * q + r;
        (y, x - q * y)
    }
}

/// Gauss's lemma: if `c` divides `a * b` and is coprime to `a`, it divides `b`.
pub proof fn lemma_coprime_divides(c: nat, a: nat, b: nat)
    requires
        c > 0,
        (a * b) % c == 0,
        gcd(c, a) == 1,
    ensures
        b % c == 0,
{
    let (x, y) = lemma_bezout(c, a);
    assert(c * x + a * y == 1);
    lemma_fundamental_div_mod((a * b) as int, c as int);
    let m = (a * b) as int / c as int;
    assert(a as int * b as int == c as int * m);
    // b == b * (c * x + a * y) == c * (b * x + m * y)
    assert(b as int == c as int * (b as int * x + m * y)) by (nonlinear_arith)
        requires
            c as int * x + a as int * y == 1,
            a as int * b as int == c as int * m;
    lemma_mod_multiples_basic(b as int * x + m * y, c as int);
    lemma_mul_is_commutative(b as int * x + m * y, c as int);
}

/// Dividing both parts of a fraction by their gcd leaves coprime parts.
pub proof fn lemma_reduced_coprime(n: nat, d: nat)
    requires
        d > 0,
    ensures
        gcd(n / gcd(n, d), d / gcd(n, d)) == 1,
{
    let g = gcd(n, d);
    lemma_gcd_pos(n, d);
    lemma_gcd_divides(n, d);
    lemma_fundamental_div_mod(n as int, g as int);
    lemma_fundamental_div_mod(d as int, g as int);
    let rn = n / g;
    let rd = d / g;
    assert(n == g * rn);
    assert(d == g * rd);
    lemma_gcd_scale(g, rn, rd);
    assert(g * gcd(rn, rd) == g * 1) by {
        assert(gcd(g * rn, g * rd) == g);
    }
    assert(gcd(rn, rd) == 1) by (nonlinear_arith)
        requires
            g * gcd(rn, rd) == g * 1,
            g > 0;
}

/// Mutual divisibility of positive numbers means equality.
proof fn lemma_divides_antisymmetric(a: nat, b: nat)
    requires
        a > 0,
        b > 0,
        divides(a, b),
        divides(b, a),
    ensures
        a == b,
{
    lemma_fundamental_div_mod(b as int, a as int);
    lemma_fundamental_div_mod(a as int, b as int);
    let p = b / a;
    let q = a / b;
    assert(b == a * p);
    assert(a == b * q);
    assert(p >= 1) by (nonlinear_arith)
        requires b == a * p, a > 0, b > 0;
    assert(q >= 1) by (nonlinear_arith)
        requires a == b * q, a > 0, b > 0;
    if a < b {
        assert(b * q >= b) by (nonlinear_arith)
            requires q >= 1, b > 0;
    }
    if b < a {
        assert(a * p >= a) by (nonlinear_arith)
            requires p >= 1, a > 0;
    }
}

/// Two fractions in lowest terms that stand for the same rational are the
/// same pair: numerators and denominators agree.
pub proof fn lemma_lowest_terms_unique(n1: int, d1: int, n2: int, d2: int)
    requires
        d1 >= 1,
        d2 >= 1,
        gcd(abs_nat(n1), d1 as nat) == 1,
        gcd(abs_nat(n2), d2 as nat) == 1,
        n1 * d2 == n2 * d1,
    ensures
        n1 == n2,
        d1 == d2,
{
    let a1 = abs_nat(n1);
    let a2 = abs_nat(n2);
    // |n1| * d2 == |n2| * d1: signs of n1 and n2 agree since d1, d2 >= 1.
    assert(a1 * d2 as nat == a2 * d1 as nat) by (nonlinear_arith)
        requires
            n1 * d2 == n2 * d1,
            d1 >= 1,
            d2 >= 1,
            a1 == abs_nat(n1),
            a2 == abs_nat(n2);
    // d1 divides |n1| * d2, and is coprime to |n1|, so d1 divides d2.
    assert((a1 * d2 as nat) % d1 as nat == 0) by {
        lemma_mod_multiples_basic(a2 as int, d1 as int);
        assert(a2 * d1 as nat == a1 * d2 as nat);
        lemma_mul_is_commutative(a2 as int, d1 as int);
    }
    lemma_gcd_comm(d1 as nat, a1);
    lemma_coprime_divides(d1 as nat, a1, d2 as nat);
    // and symmetrically d2 divides d1.
    assert((a2 * d1 as nat) % d2 as nat == 0) by {
        lemma_mod_multiples_basic(a1 as int, d2 as int);
        lemma_mul_is_commutative(a1 as int, d2 as int);
    }
    lemma_gcd_comm(d2 as nat, a2);
    lemma_coprime_divides(d2 as nat, a2, d1 as nat);
    lemma_divides_antisymmetric(d1 as nat, d2 as nat);
    assert(n1 == n2) by (nonlinear_arith)
        requires
            n1 * d2 == n2 * d1,
            d1 == d2,
            d1 >= 1;
}

/// The gcd is symmetric in its arguments.
pub proof fn lemma_gcd_comm(a: nat, b: nat)
    ensures
        gcd(a, b) == gcd(b, a),
{
    if a == 0 && b == 0 {
    } else if b == 0 {
        lemma_small_mod(0, a);
        assert(gcd(b, a) == gcd(a, b % a)) by {
            assert(b % a == 0) by {
                lemma_small_mod(0, a);
            }
        }
    } else if a == 0 {
        lemma_small_mod(0, b);
    } else if a == b {
        lemma_mod_self_0(a as int);
    } else if a < b {
        lemma_small_mod(a, b);
        assert(gcd(a, b) == gcd(b, a % b));
        assert(a % b == a);
    } else {
        lemma_small_mod(b, a);
        assert(gcd(b, a) == gcd(a, b % a));
        assert(b % a == b);
    }
}

/// Absolute value of an integer, as a natural number.
pub open spec fn abs_nat(n: int) -> nat {
    if n >= 0 {
        n as nat
    } else {
        (-n) as nat
    }
}

/// Anything is coprime to one.
pub proof fn lemma_gcd_one(a: nat)
    ensures
        gcd(a, 1) == 1,
{
    assert(a % 1 == 0) by {
        lemma_mod_multiples_basic(a as int, 1int);
        lemma_mul_is_commutative(a as int, 1int);
    }
    assert(gcd(a, 1) == gcd(1, 0));
    assert(gcd(1, 0) == 1);
}

/// Executable Euclidean algorithm, matching the specification `gcd`.
pub fn gcd_u128(a: u128, b: u128) -> (g: u128)
    requires
        a >= 1 || b >= 1,
    ensures
        g as nat == gcd(a as nat, b as nat),
        g >= 1,
{
    let mut x = a;
    let mut y = b;
    while y != 0
        invariant
            gcd(x as nat, y as nat) == gcd(a as nat, b as nat),
            x >= 1 || y >= 1,
        decreases y,
    {
        let t = x % y;
        x = y;
        y = t;
    }
    proof {
        lemma_gcd_pos(a as nat, b as nat);
    }
    x
}

} // verus!
