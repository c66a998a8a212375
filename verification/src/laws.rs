//! The algebraic laws the unit arithmetic obeys, stated over the scalar
//! model. Every executable operation's contract ties its result to the
//! corresponding model operation, so these theorems carry over to any chain
//! of unit operations. Results that leave the representable range are the
//! sentinel, so each law that inverts an operation assumes the intermediate
//! result stayed finite; the recovered value is then exactly the original.

use vstd::prelude::*;
use crate::scalar::{
    lemma_norm_equiv, lemma_norm_of_canonical, norm, num_sign, num_wf, spec_add, spec_div,
    spec_mul, spec_neg, spec_sub, Num,
};

verus! {

/// Numerator of a finite model value.
pub open spec fn fin_n(v: Num) -> int {
    match v {
        Num::Fin { n, .. } => n,
        _ => 0,
    }
}

/// Denominator of a finite model value.
pub open spec fn fin_d(v: Num) -> int {
    match v {
        Num::Fin { d, .. } => d,
        _ => 1,
    }
}

/// The sum of two finite values, when finite, is a canonical fraction that
/// stands for the exact rational sum.
pub proof fn lemma_fin_add_equiv(a: Num, b: Num)
    requires
        num_wf(a),
        num_wf(b),
        a is Fin,
        b is Fin,
        spec_add(a, b) is Fin,
    ensures
        num_wf(spec_add(a, b)),
        fin_n(spec_add(a, b)) * (fin_d(a) * fin_d(b)) == (fin_n(a) * fin_d(b) + fin_n(b) * fin_d(
            a,
        )) * fin_d(spec_add(a, b)),
{
    let (na, da, nb, db) = (fin_n(a), fin_d(a), fin_n(b), fin_d(b));
    assert(da * db >= 1) by (nonlinear_arith)
        requires
            da >= 1,
            db >= 1;
    lemma_norm_equiv(na * db + nb * da, da * db);
}

/// The product of two finite values, when finite, is a canonical fraction
/// that stands for the exact rational product.
pub proof fn lemma_fin_mul_equiv(a: Num, b: Num)
    requires
        num_wf(a),
        num_wf(b),
        a is Fin,
        b is Fin,
        spec_mul(a, b) is Fin,
    ensures
        num_wf(spec_mul(a, b)),
        fin_n(spec_mul(a, b)) * (fin_d(a) * fin_d(b)) == (fin_n(a) * fin_n(b)) * fin_d(
            spec_mul(a, b),
        ),
{
    let (na, da, nb, db) = (fin_n(a), fin_d(a), fin_n(b), fin_d(b));
    assert(da * db >= 1) by (nonlinear_arith)
        requires
            da >= 1,
            db >= 1;
    lemma_norm_equiv(na * nb, da * db);
}

/// The quotient of two finite values with a nonzero divisor, when finite,
/// is a canonical fraction that stands for the exact rational quotient.
pub proof fn lemma_fin_div_equiv(a: Num, b: Num)
    requires
        num_wf(a),
        num_wf(b),
        a is Fin,
        b is Fin,
        num_sign(b) != 0,
        spec_div(a, b) is Fin,
    ensures
        num_wf(spec_div(a, b)),
        fin_n(spec_div(a, b)) * (fin_d(a) * fin_n(b)) == (fin_n(a) * fin_d(b)) * fin_d(
            spec_div(a, b),
        ),
{
    let (na, da, nb, db) = (fin_n(a), fin_d(a), fin_n(b), fin_d(b));
    let q = spec_div(a, b);
    if nb > 0 {
        assert(da * nb >= 1) by (nonlinear_arith)
            requires
                da >= 1,
                nb >= 1;
        lemma_norm_equiv(na * db, da * nb);
    } else {
        assert(-(da * nb) >= 1) by (nonlinear_arith)
            requires
                da >= 1,
                nb <= -1;
        lemma_norm_equiv(-(na * db), -(da * nb));
        assert(fin_n(q) * (-(da * nb)) == (-(na * db)) * fin_d(q) ==> fin_n(q) * (da * nb) == (na
            * db) * fin_d(q)) by (nonlinear_arith);
    }
}

/// Addition is commutative, on every pair of values, the specials included.
pub proof fn lemma_add_commutes(a: Num, b: Num)
    ensures
        spec_add(a, b) == spec_add(b, a),
{
    match (a, b) {
        (Num::Fin { n: na, d: da }, Num::Fin { n: nb, d: db }) => {
            assert(na * db + nb * da == nb * da + na * db) by (nonlinear_arith);
            assert(da * db == db * da) by (nonlinear_arith);
        },
        _ => {},
    }
}

/// Adding and then subtracting the same finite value returns the original:
/// for finite `a` and `b` with a representable sum, `(a + b) - b == a`.
#[verifier::rlimit(50)]
pub proof fn lemma_add_sub_cancels(a: Num, b: Num)
    requires
        num_wf(a),
        num_wf(b),
        a is Fin,
        b is Fin,
        spec_add(a, b) is Fin,
    ensures
        spec_sub(spec_add(a, b), b) == a,
{
    let s = spec_add(a, b);
    lemma_fin_add_equiv(a, b);
    let (na, da, nb, db) = (fin_n(a), fin_d(a), fin_n(b), fin_d(b));
    let (ns, ds) = (fin_n(s), fin_d(s));
    // s - b unfolds to norm(ns * db - nb * ds, ds * db)
    assert(spec_sub(s, b) == norm(ns * db + (-nb) * ds, ds * db));
    assert(ds * db >= 1) by (nonlinear_arith)
        requires
            ds >= 1,
            db >= 1;
    assert((na * db + nb * da) * ds == na * db * ds + nb * da * ds) by (nonlinear_arith);
    assert((ns * db + (-nb) * ds) * da == ns * db * da + (-nb) * ds * da) by (nonlinear_arith);
    assert(ns * db * da == ns * (da * db)) by (nonlinear_arith);
    assert((-nb) * ds * da == -(nb * da * ds)) by (nonlinear_arith);
    assert(na * db * ds == na * (ds * db)) by (nonlinear_arith);
    assert((ns * db + (-nb) * ds) * da == na * (ds * db));
    lemma_norm_of_canonical(ns * db + (-nb) * ds, ds * db, na, da);
    assert(a == (Num::Fin { n: na, d: da }));
}

/// The difference of two positions, added back to the second, returns the
/// first: for finite `p1` and `p2` with a representable difference,
/// `p2 + (p1 - p2) == p1`.
pub proof fn lemma_sub_add_cancels(p1: Num, p2: Num)
    requires
        num_wf(p1),
        num_wf(p2),
        p1 is Fin,
        p2 is Fin,
        spec_sub(p1, p2) is Fin,
    ensures
        spec_add(p2, spec_sub(p1, p2)) == p1,
{
    let s = spec_sub(p1, p2);
    let (n1, d1, n2, d2) = (fin_n(p1), fin_d(p1), fin_n(p2), fin_d(p2));
    assert(spec_neg(p2) == (Num::Fin { n: -n2, d: d2 }));
    lemma_fin_add_equiv(p1, spec_neg(p2));
    let (ns, ds) = (fin_n(s), fin_d(s));
    assert(ns * (d1 * d2) == (n1 * d2 + (-n2) * d1) * ds);
    assert(spec_add(p2, s) == norm(n2 * ds + ns * d2, d2 * ds));
    assert(d2 * ds >= 1) by (nonlinear_arith)
        requires
            ds >= 1,
            d2 >= 1;
    assert((n1 * d2 + (-n2) * d1) * ds == n1 * d2 * ds + (-n2) * d1 * ds) by (nonlinear_arith);
    assert((n2 * ds + ns * d2) * d1 == n2 * ds * d1 + ns * d2 * d1) by (nonlinear_arith);
    assert(ns * d2 * d1 == ns * (d1 * d2)) by (nonlinear_arith);
    assert((-n2) * d1 * ds == -(n2 * ds * d1)) by (nonlinear_arith);
    assert(n1 * d2 * ds == n1 * (d2 * ds)) by (nonlinear_arith);
    assert((n2 * ds + ns * d2) * d1 == n1 * (d2 * ds));
    lemma_norm_of_canonical(n2 * ds + ns * d2, d2 * ds, n1, d1);
    assert(p1 == (Num::Fin { n: n1, d: d1 }));
}

/// Dividing by a finite nonzero value and multiplying by it again returns
/// the original: for finite `q` and nonzero finite `t` with a representable
/// quotient, `(q / t) * t == q`.
pub proof fn lemma_div_then_mul_recovers(q: Num, t: Num)
    requires
        num_wf(q),
        num_wf(t),
        q is Fin,
        t is Fin,
        num_sign(t) != 0,
        spec_div(q, t) is Fin,
    ensures
        spec_mul(spec_div(q, t), t) == q,
{
    let s = spec_div(q, t);
    lemma_fin_div_equiv(q, t);
    let (nq, dq, nt, dt) = (fin_n(q), fin_d(q), fin_n(t), fin_d(t));
    let (ns, ds) = (fin_n(s), fin_d(s));
    assert(ns * (dq * nt) == (nq * dt) * ds);
    assert(spec_mul(s, t) == norm(ns * nt, ds * dt));
    assert(ds * dt >= 1) by (nonlinear_arith)
        requires
            ds >= 1,
            dt >= 1;
    assert((ns * nt) * dq == nq * (ds * dt)) by (nonlinear_arith)
        requires
            ns * (dq * nt) == (nq * dt) * ds,
            nt != 0;
    lemma_norm_of_canonical(ns * nt, ds * dt, nq, dq);
    assert(q == (Num::Fin { n: nq, d: dq }));
}

/// Multiplying by a finite nonzero value and dividing by it again returns
/// the original: for finite `a` and nonzero finite `k` with a representable
/// product, `(a * k) / k == a`. With `k` a conversion constant this is the
/// round trip through a declared unit conversion.
pub proof fn lemma_mul_then_div_recovers(a: Num, k: Num)
    requires
        num_wf(a),
        num_wf(k),
        a is Fin,
        k is Fin,
        num_sign(k) != 0,
        spec_mul(a, k) is Fin,
    ensures
        spec_div(spec_mul(a, k), k) == a,
{
    let m = spec_mul(a, k);
    lemma_fin_mul_equiv(a, k);
    let (na, da, nk, dk) = (fin_n(a), fin_d(a), fin_n(k), fin_d(k));
    let (nm, dm) = (fin_n(m), fin_d(m));
    assert(nm * (da * dk) == (na * nk) * dm);
    if nk > 0 {
        assert(spec_div(m, k) == norm(nm * dk, dm * nk));
        assert(dm * nk >= 1) by (nonlinear_arith)
            requires
                dm >= 1,
                nk >= 1;
        assert((nm * dk) * da == na * (dm * nk)) by (nonlinear_arith)
            requires
                nm * (da * dk) == (na * nk) * dm,
                nk != 0;
        lemma_norm_of_canonical(nm * dk, dm * nk, na, da);
    } else {
        assert(spec_div(m, k) == norm(-(nm * dk), -(dm * nk)));
        assert(-(dm * nk) >= 1) by (nonlinear_arith)
            requires
                dm >= 1,
                nk <= -1;
        assert((-(nm * dk)) * da == na * (-(dm * nk))) by (nonlinear_arith)
            requires
                nm * (da * dk) == (na * nk) * dm,
                nk != 0;
        lemma_norm_of_canonical(-(nm * dk), -(dm * nk), na, da);
    }
    assert(a == (Num::Fin { n: na, d: da }));
}

/// The round trip across a scaled rate link: dividing by time and by the
/// link's conversion constant, then multiplying both back, returns the
/// original quantity, whenever the two intermediate results stay finite.
#[verifier::rlimit(50)]
pub proof fn lemma_scaled_div_then_mul_recovers(q: Num, t: Num, k: Num)
    requires
        num_wf(q),
        num_wf(t),
        num_wf(k),
        q is Fin,
        t is Fin,
        k is Fin,
        num_sign(t) != 0,
        num_sign(k) != 0,
        spec_div(spec_div(q, t), k) is Fin,
        spec_mul(spec_div(spec_div(q, t), k), t) is Fin,
    ensures
        spec_mul(spec_mul(spec_div(spec_div(q, t), k), t), k) == q,
{
    let s = spec_div(q, t);
    let r = spec_div(s, k);
    let m = spec_mul(r, t);
    let (nq, dq, nt, dt) = (fin_n(q), fin_d(q), fin_n(t), fin_d(t));
    let (nk, dk) = (fin_n(k), fin_d(k));
    lemma_fin_div_equiv(q, t);
    let (ns, ds) = (fin_n(s), fin_d(s));
    lemma_fin_div_equiv(s, k);
    let (nr, dr) = (fin_n(r), fin_d(r));
    lemma_fin_mul_equiv(r, t);
    let (nm, dm) = (fin_n(m), fin_d(m));
    assert(ns * (dq * nt) == (nq * dt) * ds);
    assert(nr * (ds * nk) == (ns * dk) * dr);
    assert(nm * (dr * dt) == (nr * nt) * dm);
    // r stands for q / (t * k)
    assert(nr * (dq * nt * nk) == (nq * dt * dk) * dr) by (nonlinear_arith)
        requires
            ns * (dq * nt) == (nq * dt) * ds,
            nr * (ds * nk) == (ns * dk) * dr,
            ds >= 1;
    // m == r * t stands for q / k
    assert(nm * (dr * dt) * (dq * nk) == (nr * nt) * dm * (dq * nk)) by (nonlinear_arith)
        requires
            nm * (dr * dt) == (nr * nt) * dm;
    assert((nr * nt) * dm * (dq * nk) == (nr * (dq * nt * nk)) * dm) by (nonlinear_arith);
    assert((nr * (dq * nt * nk)) * dm == ((nq * dt * dk) * dr) * dm) by (nonlinear_arith)
        requires
            nr * (dq * nt * nk) == (nq * dt * dk) * dr;
    assert(((nq * dt * dk) * dr) * dm == ((nq * dk) * dm) * (dr * dt)) by (nonlinear_arith);
    assert(nm * (dr * dt) * (dq * nk) == (nm * (dq * nk)) * (dr * dt)) by (nonlinear_arith);
    assert(dr * dt >= 1) by (nonlinear_arith)
        requires
            dr >= 1,
            dt >= 1;
    assert(nm * (dq * nk) == (nq * dk) * dm) by (nonlinear_arith)
        requires
            (nm * (dq * nk)) * (dr * dt) == ((nq * dk) * dm) * (dr * dt),
            dr * dt >= 1;
    assert(spec_mul(m, k) == norm(nm * nk, dm * dk));
    assert(dm * dk >= 1) by (nonlinear_arith)
        requires
            dm >= 1,
            dk >= 1;
    assert((nm * nk) * dq == nq * (dm * dk)) by (nonlinear_arith)
        requires
            nm * (dq * nk) == (nq * dk) * dm,
            nk != 0;
    lemma_norm_of_canonical(nm * nk, dm * dk, nq, dq);
    assert(q == (Num::Fin { n: nq, d: dq }));
}

/// The finite value `v` stands for the rational `n / d`.
pub open spec fn represents(v: Num, n: int, d: int) -> bool {
    v is Fin && fin_n(v) * d == n * fin_d(v)
}

/// A product stands for the product of the represented rationals.
pub proof fn lemma_mul_represents(a: Num, b: Num, n1: int, d1: int, n2: int, d2: int)
    requires
        num_wf(a),
        num_wf(b),
        represents(a, n1, d1),
        represents(b, n2, d2),
        spec_mul(a, b) is Fin,
    ensures
        represents(spec_mul(a, b), n1 * n2, d1 * d2),
{
    lemma_fin_mul_equiv(a, b);
    let (fa, fb) = (fin_d(a), fin_d(b));
    let (na, nb) = (fin_n(a), fin_n(b));
    let m = spec_mul(a, b);
    let (nm, dm) = (fin_n(m), fin_d(m));
    assert(nm * (fa * fb) * (d1 * d2) == (na * d1) * (nb * d2) * dm) by (nonlinear_arith)
        requires
            nm * (fa * fb) == (na * nb) * dm;
    assert((na * d1) * (nb * d2) * dm == (n1 * n2) * dm * (fa * fb)) by (nonlinear_arith)
        requires
            na * d1 == n1 * fa,
            nb * d2 == n2 * fb;
    assert(nm * (d1 * d2) * (fa * fb) == (n1 * n2) * dm * (fa * fb)) by (nonlinear_arith)
        requires
            nm * (fa * fb) * (d1 * d2) == (n1 * n2) * dm * (fa * fb);
    assert(nm * (d1 * d2) == (n1 * n2) * dm) by (nonlinear_arith)
        requires
            nm * (d1 * d2) * (fa * fb) == (n1 * n2) * dm * (fa * fb),
            fa >= 1,
            fb >= 1;
}

/// A quotient stands for the quotient of the represented rationals.
pub proof fn lemma_div_represents(a: Num, b: Num, n1: int, d1: int, n2: int, d2: int)
    requires
        num_wf(a),
        num_wf(b),
        represents(a, n1, d1),
        represents(b, n2, d2),
        n2 != 0,
        d2 != 0,
        spec_div(a, b) is Fin,
    ensures
        represents(spec_div(a, b), n1 * d2, d1 * n2),
{
    let (fa, fb) = (fin_d(a), fin_d(b));
    let (na, nb) = (fin_n(a), fin_n(b));
    assert(nb != 0) by (nonlinear_arith)
        requires
            nb * d2 == n2 * fb,
            n2 != 0,
            d2 != 0,
            fb >= 1;
    lemma_fin_div_equiv(a, b);
    let q = spec_div(a, b);
    let (nq, dq) = (fin_n(q), fin_d(q));
    assert(nq * (fa * nb) * (d1 * n2) == (na * d1) * (n2 * fb) * dq) by (nonlinear_arith)
        requires
            nq * (fa * nb) == (na * fb) * dq;
    assert((na * d1) * (n2 * fb) * dq == (n1 * d2) * dq * (fa * nb)) by (nonlinear_arith)
        requires
            na * d1 == n1 * fa,
            nb * d2 == n2 * fb;
    assert(nq * (d1 * n2) == (n1 * d2) * dq) by (nonlinear_arith)
        requires
            nq * (fa * nb) * (d1 * n2) == (n1 * d2) * dq * (fa * nb),
            fa >= 1,
            nb != 0;
}

/// A represented fraction may be cancelled by any nonzero common factor.
proof fn lemma_represents_scale(v: Num, n: int, d: int, c: int)
    requires
        c != 0,
        represents(v, n * c, d * c),
    ensures
        represents(v, n, d),
{
    assert(fin_n(v) * d == n * fin_d(v)) by (nonlinear_arith)
        requires
            fin_n(v) * (d * c) == (n * c) * fin_d(v),
            c != 0;
}

/// Reducing an inertia by a finite nonzero ratio and extending the result
/// by the same ratio returns the original: with `m` the reduced value
/// `((q * r) * r) * k`, the chain `((m / r) / r) / k` is exactly `q`,
/// whenever the reduced value and the two intermediate quotients stay
/// finite.
pub proof fn lemma_reduce_then_extend_recovers(q: Num, r: Num, k: Num)
    requires
        num_wf(q),
        num_wf(r),
        num_wf(k),
        q is Fin,
        r is Fin,
        k is Fin,
        num_sign(r) != 0,
        num_sign(k) != 0,
        spec_mul(spec_mul(spec_mul(q, r), r), k) is Fin,
        spec_div(spec_mul(spec_mul(spec_mul(q, r), r), k), r) is Fin,
        spec_div(spec_div(spec_mul(spec_mul(spec_mul(q, r), r), k), r), r) is Fin,
    ensures
        spec_div(
            spec_div(spec_div(spec_mul(spec_mul(spec_mul(q, r), r), k), r), r),
            k,
        ) == q,
{
    let (nq, dq) = (fin_n(q), fin_d(q));
    let (nr, dr) = (fin_n(r), fin_d(r));
    let (nk, dk) = (fin_n(k), fin_d(k));
    let m1 = spec_mul(q, r);
    let m2 = spec_mul(m1, r);
    let m3 = spec_mul(m2, k);
    let e1 = spec_div(m3, r);
    let e2 = spec_div(e1, r);
    assert(represents(q, nq, dq));
    assert(represents(r, nr, dr));
    assert(represents(k, nk, dk));
    lemma_mul_represents(q, r, nq, dq, nr, dr);
    lemma_fin_mul_equiv(q, r);
    lemma_mul_represents(m1, r, nq * nr, dq * dr, nr, dr);
    lemma_fin_mul_equiv(m1, r);
    lemma_mul_represents(m2, k, nq * nr * nr, dq * dr * dr, nk, dk);
    lemma_fin_mul_equiv(m2, k);
    assert(dq * dr * dr * dk != 0) by (nonlinear_arith)
        requires
            dq >= 1,
            dr >= 1,
            dk >= 1;
    lemma_div_represents(m3, r, nq * nr * nr * nk, dq * dr * dr * dk, nr, dr);
    lemma_fin_div_equiv(m3, r);
    // cancel one ratio from the representation of the first quotient
    assert((nq * nr * nr * nk) * dr == (nq * nr * nk) * (nr * dr)) by (nonlinear_arith);
    assert((dq * dr * dr * dk) * nr == (dq * dr * dk) * (nr * dr)) by (nonlinear_arith);
    assert(nr * dr != 0) by (nonlinear_arith)
        requires
            nr != 0,
            dr >= 1;
    lemma_represents_scale(e1, nq * nr * nk, dq * dr * dk, nr * dr);
    assert(dq * dr * dk != 0) by (nonlinear_arith)
        requires
            dq >= 1,
            dr >= 1,
            dk >= 1;
    lemma_div_represents(e1, r, nq * nr * nk, dq * dr * dk, nr, dr);
    lemma_fin_div_equiv(e1, r);
    // and the other ratio from the second
    assert((nq * nr * nk) * dr == (nq * nk) * (nr * dr)) by (nonlinear_arith);
    assert((dq * dr * dk) * nr == (dq * dk) * (nr * dr)) by (nonlinear_arith);
    lemma_represents_scale(e2, nq * nk, dq * dk, nr * dr);
    let (ne2, de2) = (fin_n(e2), fin_d(e2));
    assert(ne2 * (dq * dk) == (nq * nk) * de2);
    assert((ne2 * dk) * dq == nq * (de2 * nk)) by (nonlinear_arith)
        requires
            ne2 * (dq * dk) == (nq * nk) * de2,
            nk != 0;
    if nk > 0 {
        assert(spec_div(e2, k) == norm(ne2 * dk, de2 * nk));
        assert(de2 * nk >= 1) by (nonlinear_arith)
            requires
                de2 >= 1,
                nk >= 1;
        lemma_norm_of_canonical(ne2 * dk, de2 * nk, nq, dq);
    } else {
        assert(spec_div(e2, k) == norm(-(ne2 * dk), -(de2 * nk)));
        assert(-(de2 * nk) >= 1) by (nonlinear_arith)
            requires
                de2 >= 1,
                nk <= -1;
        assert((-(ne2 * dk)) * dq == nq * (-(de2 * nk))) by (nonlinear_arith)
            requires
                (ne2 * dk) * dq == nq * (de2 * nk);
        lemma_norm_of_canonical(-(ne2 * dk), -(de2 * nk), nq, dq);
    }
    assert(q == (Num::Fin { n: nq, d: dq }));
}

} // verus!
