//! Laws of the Edwards group operation, proved over the operations' specs.
use crate::cyclic_group::{
    double_and_add, double_and_add_defined, double_and_add_multiple, IsGroup,
};
use crate::elliptic_curve::edwards::closure_identity::lemma_closure_identity;
use crate::elliptic_curve::edwards::point::{
    edwards_den_x, edwards_den_y, edwards_add, edwards_add_affine, edwards_add_defined, edwards_cross_product, edwards_neg,
    edwards_neutral, EdwardsProjectivePoint,
};
use crate::elliptic_curve::edwards::traits::{
    edwards_affine_on_curve, edwards_equation, edwards_on_curve, IsEdwards,
};
use crate::elliptic_curve::point::{
    lemma_projective_eq_cases,
    affine_of, coordinates_in_range, lemma_affine_of_same_point, projective_eq, Coordinates,
};
use crate::field::arithmetic::{
    fadd, fdiv, finv, fmul, fneg, fsub, is_prime, is_square, lemma_cross_with_neg, lemma_fadd_comm,
    lemma_fdiv_self, lemma_fdiv_zero, lemma_finv_exists, lemma_finv_one, lemma_fmul_assoc,
    lemma_fmul_comm, lemma_fmul_mod, lemma_fmul_neg_left, lemma_fmul_neg_right, lemma_fmul_one_zero,
    lemma_fadd_fsub_mod, lemma_fmul_nonzero, lemma_fneg_fneg, lemma_fneg_square, lemma_fsub_fneg, lemma_mod_range,
    lemma_mod_small,
};
use crate::field::element::FieldElement;
use crate::field::traits::{IsField, IsPrimeField};
use vstd::arithmetic::div_mod::{
    lemma_add_mod_noop, lemma_mod_add_multiples_vanish, lemma_mod_equivalence, lemma_mod_twice,
    lemma_mul_mod_noop, lemma_mul_mod_noop_left, lemma_mul_mod_noop_right, lemma_sub_mod_noop,
};
use vstd::prelude::*;
use vstd::std_specs::cmp::PartialEqSpec;

verus! {

/// The affine form of `[0: 1: 1]` is itself.
proof fn lemma_neutral_affine(p: int)
    requires
        is_prime(p),
    ensures
        affine_of(edwards_neutral(), p) == edwards_neutral(),
{
    lemma_finv_one(p);
    lemma_fmul_one_zero(0, p);
    lemma_fmul_one_zero(1, p);
}

/// Negating `x` before bringing a point to affine form negates the affine `x`.
proof fn lemma_neg_affine(pt: Coordinates, p: int)
    requires
        is_prime(p),
        coordinates_in_range(pt, p),
    ensures
        affine_of(edwards_neg(pt, p), p) == (
            fneg(affine_of(pt, p).0, p),
            affine_of(pt, p).1,
            1int,
        ),
{
    let iz = finv(pt.2, p);
    lemma_fmul_neg_left(pt.0, iz, p);
}

/// Law: negating twice gives back the point.
pub proof fn lemma_neg_involution<E: IsEdwards>(pt: EdwardsProjectivePoint<E>)
    ensures
        edwards_neg(edwards_neg(pt@, E::BaseField::modulus()), E::BaseField::modulus()) == pt@,
{
    let p = E::BaseField::modulus();
    pt.lemma_range();
    lemma_fneg_fneg(pt@.0, p);
    lemma_mod_small(pt@.0, p);
}

/// Law: the neutral element `[0: 1: 1]` is an identity on both sides, for
/// every finite point: the sums are defined and equal to the point.
pub proof fn lemma_neutral_is_identity<E: IsEdwards>(pt: EdwardsProjectivePoint<E>)
    requires
        pt@.2 != 0,
    ensures
        EdwardsProjectivePoint::<E>::spec_defined(pt@, edwards_neutral()),
        EdwardsProjectivePoint::<E>::spec_defined(edwards_neutral(), pt@),
        projective_eq(
            EdwardsProjectivePoint::<E>::spec_operate(pt@, edwards_neutral()),
            pt@,
            E::BaseField::modulus(),
        ),
        projective_eq(
            EdwardsProjectivePoint::<E>::spec_operate(edwards_neutral(), pt@),
            pt@,
            E::BaseField::modulus(),
        ),
{
    let p = E::BaseField::modulus();
    let a = E::spec_a();
    let d = E::spec_d();
    pt.lemma_range();
    lemma_affine_of_same_point(pt@, p);
    lemma_neutral_affine(p);
    let ap = affine_of(pt@, p);
    let (x, y) = (ap.0, ap.1);
    lemma_fmul_one_zero(x, p);
    lemma_fmul_one_zero(y, p);
    lemma_fmul_one_zero(1, p);
    lemma_mod_range(d * x, p);
    lemma_mod_range(a * x, p);
    lemma_fmul_one_zero(fmul(d, x, p), p);
    lemma_fmul_one_zero(fmul(a, x, p), p);
    lemma_fmul_one_zero(fmul(d, 0, p), p);
    lemma_fmul_one_zero(fmul(a, 0, p), p);
    assert(fmul(d, 0, p) == 0);
    assert(fmul(a, 0, p) == 0);
    assert(edwards_cross_product(d, x, y, 0, 1, p) == 0);
    assert(edwards_cross_product(d, 0, 1, x, y, p) == 0);
    assert(edwards_add_affine(a, d, x, y, 0, 1, p) == ap);
    assert(edwards_add_affine(a, d, 0, 1, x, y, p) == ap);
}

/// Law: a point of the curve plus its negation is the neutral element
/// `[0: 1: 1]`, whenever the sum is defined.
pub proof fn lemma_add_inverse<E: IsEdwards>(pt: EdwardsProjectivePoint<E>)
    requires
        edwards_on_curve(E::spec_a(), E::spec_d(), pt@, E::BaseField::modulus()),
        EdwardsProjectivePoint::<E>::spec_defined(
            pt@,
            edwards_neg(pt@, E::BaseField::modulus()),
        ),
    ensures
        EdwardsProjectivePoint::<E>::spec_operate(
            pt@,
            edwards_neg(pt@, E::BaseField::modulus()),
        ) == edwards_neutral(),
{
    let p = E::BaseField::modulus();
    let a = E::spec_a();
    let d = E::spec_d();
    pt.lemma_range();
    lemma_neg_affine(pt@, p);
    let ap = affine_of(pt@, p);
    let (x, y) = (ap.0, ap.1);
    let nx = fneg(x, p);
    let x2 = fmul(x, x, p);
    let y2 = fmul(y, y, p);
    // numerator of x vanishes
    lemma_cross_with_neg(x, y, p);
    lemma_fdiv_zero(0, p);
    assert(fdiv(0, 0, p) == 0);
    // numerator of y is a x^2 + y^2
    lemma_fmul_neg_right(fmul(a, x, p), x, p);
    lemma_fmul_assoc(a, x, x, p);
    lemma_fsub_fneg(y2, fmul(a, x2, p), p);
    lemma_fadd_comm(y2, fmul(a, x2, p), p);
    let num_y = fsub(fmul(y, y, p), fmul(fmul(a, x, p), nx, p), p);
    assert(num_y == fadd(fmul(a, x2, p), y2, p));
    // the cross product is -(d x^2 y^2)
    let t = fmul(fmul(d, x2, p), y2, p);
    lemma_fmul_neg_right(fmul(d, x, p), x, p);
    lemma_fmul_assoc(d, x, x, p);
    lemma_fmul_neg_left(fmul(d, x2, p), y, p);
    lemma_fmul_neg_left(fmul(fmul(d, x2, p), y, p), y, p);
    lemma_fmul_assoc(fmul(d, x2, p), y, y, p);
    assert(edwards_cross_product(d, x, y, nx, y, p) == fneg(t, p));
    lemma_fsub_fneg(1, t, p);
    let den_y = fsub(1, fneg(t, p), p);
    assert(den_y == fadd(1, t, p));
    assert(num_y == den_y);
    lemma_mod_range(1 - fneg(t, p), p);
    lemma_mod_small(den_y, p);
    lemma_finv_exists(den_y, p);
    lemma_fdiv_self(den_y, p);
}

/// Law: the Edwards sum depends only on the points added, not on the
/// projective coordinates chosen for them.
pub proof fn lemma_add_respects_equality<E: IsEdwards>(
    pt: EdwardsProjectivePoint<E>,
    pt2: EdwardsProjectivePoint<E>,
    qt: EdwardsProjectivePoint<E>,
)
    requires
        pt@.2 != 0,
        pt2@.2 != 0,
        projective_eq(pt@, pt2@, E::BaseField::modulus()),
    ensures
        EdwardsProjectivePoint::<E>::spec_defined(pt@, qt@)
            == EdwardsProjectivePoint::<E>::spec_defined(pt2@, qt@),
        EdwardsProjectivePoint::<E>::spec_operate(pt@, qt@)
            == EdwardsProjectivePoint::<E>::spec_operate(pt2@, qt@),
{
    pt.lemma_range();
    pt2.lemma_range();
    crate::elliptic_curve::point::lemma_projective_eq_same_affine(
        pt@,
        pt2@,
        E::BaseField::modulus(),
    );
}

/// `d x1 x2 y1 y2` does not depend on the order of the two points.
proof fn lemma_cross_product_symmetric(d: int, x1: int, y1: int, x2: int, y2: int, p: int)
    requires
        p > 0,
    ensures
        edwards_cross_product(d, x1, y1, x2, y2, p) == edwards_cross_product(d, x2, y2, x1, y1, p),
{
    lemma_fmul_assoc(d, x1, x2, p);
    lemma_fmul_assoc(d, x2, x1, p);
    lemma_fmul_mod(d * x1 * x2, y1, p);
    lemma_fmul_mod(d * x2 * x1, y2, p);
    lemma_fmul_mod(d * x1 * x2 * y1, y2, p);
    lemma_fmul_mod(d * x2 * x1 * y2, y1, p);
    assert(d * x1 * x2 * y1 * y2 == d * x2 * x1 * y2 * y1) by (nonlinear_arith);
}

/// Law: the Edwards sum does not depend on the order of its operands, and
/// is defined in one order exactly when in the other.
pub proof fn lemma_add_commutative<E: IsEdwards>(
    pt: EdwardsProjectivePoint<E>,
    qt: EdwardsProjectivePoint<E>,
)
    ensures
        EdwardsProjectivePoint::<E>::spec_defined(pt@, qt@)
            == EdwardsProjectivePoint::<E>::spec_defined(qt@, pt@),
        EdwardsProjectivePoint::<E>::spec_operate(pt@, qt@)
            == EdwardsProjectivePoint::<E>::spec_operate(qt@, pt@),
{
    let p = E::BaseField::modulus();
    let a = E::spec_a();
    let d = E::spec_d();
    pt.lemma_range();
    let ap = affine_of(pt@, p);
    let aq = affine_of(qt@, p);
    let (x1, y1, x2, y2) = (ap.0, ap.1, aq.0, aq.1);
    lemma_cross_product_symmetric(d, x1, y1, x2, y2, p);
    lemma_fmul_comm(x1, y2, p);
    lemma_fmul_comm(y1, x2, p);
    lemma_fmul_comm(y1, y2, p);
    lemma_fadd_comm(fmul(x1, y2, p), fmul(y1, x2, p), p);
    lemma_fmul_assoc(a, x1, x2, p);
    lemma_fmul_assoc(a, x2, x1, p);
    assert(a * x1 * x2 == a * x2 * x1) by (nonlinear_arith);
}

/// Law: negation keeps a point on the curve.
pub proof fn lemma_neg_on_curve<E: IsEdwards>(pt: EdwardsProjectivePoint<E>)
    requires
        edwards_on_curve(E::spec_a(), E::spec_d(), pt@, E::BaseField::modulus()),
    ensures
        edwards_on_curve(
            E::spec_a(),
            E::spec_d(),
            edwards_neg(pt@, E::BaseField::modulus()),
            E::BaseField::modulus(),
        ),
{
    let p = E::BaseField::modulus();
    pt.lemma_range();
    lemma_neg_affine(pt@, p);
    lemma_fneg_square(affine_of(pt@, p).0, p);
}

/// With `z = 1` the Edwards polynomial vanishes exactly when the affine
/// equation holds.
proof fn lemma_equation_affine(a: int, d: int, x: int, y: int, p: int)
    requires
        is_prime(p),
        0 <= x < p,
        0 <= y < p,
    ensures
        (edwards_equation(a, d, x, y, 1, p) == 0) == edwards_affine_on_curve(a, d, x, y, p),
{
    let x2 = fmul(x, x, p);
    let y2 = fmul(y, y, p);
    lemma_fmul_one_zero(1, p);
    lemma_mod_range(a * x2, p);
    lemma_mod_range(x * x, p);
    lemma_mod_range(y * y, p);
    lemma_fmul_one_zero(fmul(a, x2, p), p);
    lemma_fmul_one_zero(y2, p);
    let u = fadd(fmul(a, x2, p), y2, p);
    let t = fmul(fmul(d, x2, p), y2, p);
    lemma_mod_range(fmul(d, x2, p) * y2, p);
    lemma_mod_range(fmul(a, x2, p) + y2, p);
    lemma_mod_small(u, p);
    lemma_mod_small(t, p);
    lemma_sub_mod_noop(u - 1, t, p);
    assert(u - 1 - t == u - (1 + t));
    lemma_mod_equivalence(u, 1 + t, p);
}

/// Law: `from_affine` accepts `(x, y)` exactly when `[x: y: 1]` is a point of
/// the curve.
pub proof fn lemma_from_affine_on_curve<E: IsEdwards>(
    x: FieldElement<E::BaseField>,
    y: FieldElement<E::BaseField>,
)
    ensures
        (edwards_equation(E::spec_a(), E::spec_d(), x@, y@, 1, E::BaseField::modulus()) == 0)
            == edwards_on_curve(E::spec_a(), E::spec_d(), (x@, y@, 1int), E::BaseField::modulus()),
{
    let p = E::BaseField::modulus();
    x.lemma_range();
    y.lemma_range();
    lemma_finv_one(p);
    lemma_fmul_one_zero(x@, p);
    lemma_fmul_one_zero(y@, p);
    lemma_equation_affine(E::spec_a(), E::spec_d(), x@, y@, p);
}

/// Terms that vanish modulo `p`, scaled and added, still vanish.
proof fn lemma_vanishing_combination(
    t1: int,
    t2: int,
    t3: int,
    t4: int,
    t5: int,
    c1: int,
    c2: int,
    c3: int,
    c4: int,
    c5: int,
    p: int,
)
    requires
        p > 0,
        t1 % p == 0,
        t2 % p == 0,
        t3 % p == 0,
        t4 % p == 0,
        t5 % p == 0,
    ensures
        (c1 * t1 + c2 * t2 + c3 * t3 + c4 * t4 + c5 * t5) % p == 0,
{
    lemma_mul_mod_noop_right(c1, t1, p);
    lemma_mul_mod_noop_right(c2, t2, p);
    lemma_mul_mod_noop_right(c3, t3, p);
    lemma_mul_mod_noop_right(c4, t4, p);
    lemma_mul_mod_noop_right(c5, t5, p);
    lemma_mod_small(0, p);
    assert(c1 * 0 == 0 && c2 * 0 == 0 && c3 * 0 == 0 && c4 * 0 == 0 && c5 * 0 == 0);
    lemma_add_mod_noop(c1 * t1, c2 * t2, p);
    lemma_add_mod_noop(c1 * t1 + c2 * t2, c3 * t3, p);
    lemma_add_mod_noop(c1 * t1 + c2 * t2 + c3 * t3, c4 * t4, p);
    lemma_add_mod_noop(c1 * t1 + c2 * t2 + c3 * t3 + c4 * t4, c5 * t5, p);
}

/// From `u^2 = d w^2` with `w` invertible modulo the prime `p`, `d` is a square.
proof fn lemma_square_ratio(u: int, w: int, d: int, p: int)
    requires
        is_prime(p),
        w % p != 0,
        (u * u - d * (w * w)) % p == 0,
    ensures
        is_square(d, p),
{
    lemma_finv_exists(w, p);
    let v = finv(w, p);
    let t = u * v;
    // t^2 = u^2 v^2 = d (w v)^2 = d
    assert(t * t - d * ((w * v) * (w * v)) == (u * u - d * (w * w)) * (v * v)) by (nonlinear_arith)
        requires
            t == u * v,
    ;
    lemma_mul_mod_noop_left(u * u - d * (w * w), v * v, p);
    lemma_mod_small(0, p);
    assert(0 * (v * v) == 0);
    lemma_mod_equivalence(t * t, d * ((w * v) * (w * v)), p);
    // (w v) mod p = 1, so d (w v)^2 = d  (mod p)
    lemma_mul_mod_noop_right(d * (w * v), w * v, p);
    lemma_mul_mod_noop_right(d, w * v, p);
    lemma_mod_small(1, p);
    assert(d * (w * v) * (w * v) == d * ((w * v) * (w * v))) by (nonlinear_arith);
    assert(d * (w * v) * 1 == d * (w * v));
    assert(d * 1 == d);
    assert((t * t) % p == d % p);
}

/// The polynomial identity behind completeness, for `e` and `sign` each `1`
/// or `-1`: `(s x1 + sign e y1)^2 - d (x1 y1 (s x2 + sign y2))^2` is a
/// combination of `s^2 - a`, `d x1 x2 y1 y2 - e` and the two curve equations.
proof fn lemma_completeness_identity(
    a: int,
    d: int,
    s: int,
    x1: int,
    y1: int,
    x2: int,
    y2: int,
    e: int,
    sign: int,
)
    requires
        e == 1 || e == -1,
        sign == 1 || sign == -1,
    ensures
        ({
            let aa = s * s - a;
            let bb = d * x1 * x2 * y1 * y2 - e;
            let c1 = a * x1 * x1 + y1 * y1 - 1 - d * x1 * x1 * y1 * y1;
            let c2 = a * x2 * x2 + y2 * y2 - 1 - d * x2 * x2 * y2 * y2;
            let u = s * x1 + sign * e * y1;
            let w = x1 * y1 * (s * x2 + sign * y2);
            u * u - d * (w * w) == (x1 * x1 - d * x1 * x1 * y1 * y1 * x2 * x2) * aa + (-2 * sign
                * s * x1 * y1 - 2 * e) * bb + 1 * c1 + (-1 * bb) * bb + (-1 * d * x1 * x1 * y1
                * y1) * c2
        }),
{
    let q = x1 * y1;
    let r = x2 * y2;
    let k = d * q * r;
    let pp = d * q * q;
    let rr = d * r * r;
    let xx1 = x1 * x1;
    let yy1 = y1 * y1;
    let xx2 = x2 * x2;
    let yy2 = y2 * y2;
    let ss = s * s;
    let v = pp * xx2;
    let f = sign * e;
    assert(f == 1 || f == -1);
    assert(f * f == 1);
    assert(e * e == 1);
    assert(sign * sign == 1);
    assert(d * x1 * x2 * y1 * y2 == k) by (nonlinear_arith)
        requires
            q == x1 * y1,
            r == x2 * y2,
            k == d * q * r,
    ;
    assert(d * x1 * x1 * y1 * y1 == pp) by (nonlinear_arith)
        requires
            q == x1 * y1,
            pp == d * q * q,
    ;
    assert(d * x1 * x1 * y1 * y1 * x2 * x2 == v) by (nonlinear_arith)
        requires
            pp == d * x1 * x1 * y1 * y1,
            v == pp * xx2,
            xx2 == x2 * x2,
    ;
    assert(d * x2 * x2 * y2 * y2 == rr) by (nonlinear_arith)
        requires
            r == x2 * y2,
            rr == d * r * r,
    ;
    assert(-2 * sign * s * x1 * y1 == -2 * sign * (s * q)) by (nonlinear_arith)
        requires
            q == x1 * y1,
    ;
    // (s x1 + f y1)^2
    let u = s * x1 + sign * e * y1;
    assert(u == s * x1 + f * y1) by (nonlinear_arith)
        requires
            f == sign * e,
            u == s * x1 + sign * e * y1,
    ;
    assert(u * u == ss * xx1 + 2 * f * (s * q) + yy1) by (nonlinear_arith)
        requires
            u == s * x1 + f * y1,
            f * f == 1,
            ss == s * s,
            xx1 == x1 * x1,
            yy1 == y1 * y1,
            q == x1 * y1,
    ;
    // d (x1 y1 (s x2 + sign y2))^2
    let t = s * x2 + sign * y2;
    let w = x1 * y1 * (s * x2 + sign * y2);
    assert(t * t == ss * xx2 + 2 * sign * (s * r) + yy2) by (nonlinear_arith)
        requires
            t == s * x2 + sign * y2,
            sign * sign == 1,
            ss == s * s,
            xx2 == x2 * x2,
            yy2 == y2 * y2,
            r == x2 * y2,
    ;
    let tt = t * t;
    assert(d * (w * w) == pp * tt) by (nonlinear_arith)
        requires
            w == q * t,
            pp == d * q * q,
            tt == t * t,
    ;
    assert(pp * r == q * k) by (nonlinear_arith)
        requires
            pp == d * q * q,
            k == d * q * r,
    ;
    let m = s * r;
    assert(pp * tt == pp * (ss * xx2) + 2 * sign * (pp * m) + pp * yy2) by (nonlinear_arith)
        requires
            tt == ss * xx2 + 2 * sign * m + yy2,
    ;
    assert(pp * (ss * xx2) == v * ss) by (nonlinear_arith)
        requires
            v == pp * xx2,
    ;
    assert(pp * m == (s * q) * k) by (nonlinear_arith)
        requires
            m == s * r,
            pp * r == q * k,
    ;
    assert(pp * tt == v * ss + 2 * sign * (s * q) * k + pp * yy2) by (nonlinear_arith)
        requires
            pp * tt == pp * (ss * xx2) + 2 * sign * (pp * m) + pp * yy2,
            pp * (ss * xx2) == v * ss,
            pp * m == (s * q) * k,
    ;
    assert(k * k == pp * rr) by (nonlinear_arith)
        requires
            k == d * q * r,
            pp == d * q * q,
            rr == d * r * r,
    ;
    let sq = s * q;
    let a4 = sq * k;
    let s4 = sign * a4;
    let a5 = e * k;
    let a6 = f * sq;
    let t1 = (xx1 - v) * (ss - a);
    let t2 = (-2 * sign * sq - 2 * e) * (k - e);
    let t4 = (-1 * (k - e)) * (k - e);
    let t5 = (-1 * pp) * (a * xx2 + yy2 - 1 - rr);
    assert(t1 == xx1 * ss - xx1 * a - v * ss + v * a) by (nonlinear_arith)
        requires
            t1 == (xx1 - v) * (ss - a),
    ;
    assert(t2 == -2 * s4 + 2 * a6 - 2 * a5 + 2) by (nonlinear_arith)
        requires
            t2 == (-2 * sign * sq - 2 * e) * (k - e),
            s4 == sign * a4,
            a4 == sq * k,
            a5 == e * k,
            a6 == f * sq,
            f == sign * e,
            e * e == 1,
    ;
    assert(t4 == -(k * k) + 2 * a5 - 1) by (nonlinear_arith)
        requires
            t4 == (-1 * (k - e)) * (k - e),
            a5 == e * k,
            e * e == 1,
    ;
    assert(t5 == -(v * a) - pp * yy2 + pp + pp * rr) by (nonlinear_arith)
        requires
            t5 == (-1 * pp) * (a * xx2 + yy2 - 1 - rr),
            v == pp * xx2,
    ;
    assert(2 * sign * (s * q) * k == 2 * s4) by (nonlinear_arith)
        requires
            s4 == sign * a4,
            a4 == sq * k,
            sq == s * q,
    ;
    assert(2 * f * (s * q) == 2 * a6) by (nonlinear_arith)
        requires
            a6 == f * sq,
            sq == s * q,
    ;
    assert(v * a == a * v) by (nonlinear_arith);
    assert(xx1 * a == a * xx1) by (nonlinear_arith);
    assert(ss * xx1 == xx1 * ss) by (nonlinear_arith);
    assert(v * ss == v * ss);
    assert(a * x1 * x1 == a * xx1) by (nonlinear_arith)
        requires
            xx1 == x1 * x1,
    ;
    assert(a * x2 * x2 == a * xx2) by (nonlinear_arith)
        requires
            xx2 == x2 * x2,
    ;
    assert(-1 * d * x1 * x1 * y1 * y1 == -1 * pp) by (nonlinear_arith)
        requires
            pp == d * x1 * x1 * y1 * y1,
    ;
    assert(-2 * sign * s * x1 * y1 - 2 * e == -2 * sign * sq - 2 * e);
    assert(u * u - d * (w * w) == t1 + t2 + 1 * (a * xx1 + yy1 - 1 - pp) + t4 + t5);
}

/// The heart of completeness: on a curve with `a` a square, `d x1 x2 y1 y2`
/// congruent to `1` or `-1` forces `d` to be a square.
proof fn lemma_unit_cross_product_square(
    a: int,
    d: int,
    s: int,
    x1: int,
    y1: int,
    x2: int,
    y2: int,
    e: int,
    p: int,
)
    requires
        is_prime(p),
        2int % p != 0,
        a % p != 0,
        (s * s - a) % p == 0,
        e == 1 || e == -1,
        (a * x1 * x1 + y1 * y1 - 1 - d * x1 * x1 * y1 * y1) % p == 0,
        (a * x2 * x2 + y2 * y2 - 1 - d * x2 * x2 * y2 * y2) % p == 0,
        (d * x1 * x2 * y1 * y2 - e) % p == 0,
    ensures
        is_square(d, p),
{
    let aa = s * s - a;
    let bb = d * x1 * x2 * y1 * y2 - e;
    let c1 = a * x1 * x1 + y1 * y1 - 1 - d * x1 * x1 * y1 * y1;
    let c2 = a * x2 * x2 + y2 * y2 - 1 - d * x2 * x2 * y2 * y2;
    let up = s * x1 + e * y1;
    let um = s * x1 - e * y1;
    let wp = x1 * y1 * (s * x2 + y2);
    let wm = x1 * y1 * (s * x2 - y2);
    lemma_completeness_identity(a, d, s, x1, y1, x2, y2, e, 1);
    lemma_completeness_identity(a, d, s, x1, y1, x2, y2, e, -1);
    assert(up == s * x1 + 1 * e * y1);
    assert(um == s * x1 + (-1) * e * y1);
    assert(wm == x1 * y1 * (s * x2 + (-1) * y2));
    assert(wp == x1 * y1 * (s * x2 + 1 * y2));
    assert(-2 * 1 * s * x1 * y1 == -2 * s * x1 * y1);
    assert(-2 * (-1) * s * x1 * y1 == 2 * s * x1 * y1);
    lemma_vanishing_combination(
        aa,
        bb,
        c1,
        bb,
        c2,
        x1 * x1 - d * x1 * x1 * y1 * y1 * x2 * x2,
        -2 * s * x1 * y1 - 2 * e,
        1,
        -1 * bb,
        -1 * d * x1 * x1 * y1 * y1,
        p,
    );
    lemma_vanishing_combination(
        aa,
        bb,
        c1,
        bb,
        c2,
        x1 * x1 - d * x1 * x1 * y1 * y1 * x2 * x2,
        2 * s * x1 * y1 - 2 * e,
        1,
        -1 * bb,
        -1 * d * x1 * x1 * y1 * y1,
        p,
    );
    if wp % p != 0 {
        lemma_square_ratio(up, wp, d, p);
    } else if wm % p != 0 {
        lemma_square_ratio(um, wm, d, p);
    } else {
        // Both vanish: then 2 s x2 = 0, impossible as 2, s, x2 are nonzero.
        lemma_factor_nonzero(d, x1, x2, y1, y2, e, p);
        lemma_fmul_nonzero(x1, y1, p);
        lemma_fmul_mod(x1 * y1, s * x2 + y2, p);
        lemma_fmul_mod(x1 * y1, s * x2 - y2, p);
        if (s * x2 + y2) % p != 0 {
            lemma_fmul_nonzero(x1 * y1, s * x2 + y2, p);
        }
        if (s * x2 - y2) % p != 0 {
            lemma_fmul_nonzero(x1 * y1, s * x2 - y2, p);
        }
        lemma_add_mod_noop(s * x2 + y2, s * x2 - y2, p);
        lemma_mod_small(0, p);
        assert((s * x2 + y2) + (s * x2 - y2) == 2 * (s * x2)) by (nonlinear_arith);
        // s is nonzero since s^2 = a is
        if s % p == 0 {
            lemma_mul_mod_noop_left(s, s, p);
            lemma_mod_equivalence(s * s, a, p);
        }
        lemma_fmul_nonzero(s, x2, p);
        lemma_mod_range(s * x2, p);
        lemma_mod_small((s * x2) % p, p);
        lemma_fmul_nonzero(2, s * x2, p);
    }
}

/// The affine Edwards equation as a congruence of integers.
proof fn lemma_on_curve_congruence(a: int, d: int, x: int, y: int, p: int)
    requires
        p > 1,
    ensures
        edwards_affine_on_curve(a, d, x, y, p) == ((a * x * x + y * y - 1 - d * x * x * y * y) % p
            == 0),
{
    let xx = x * x;
    let yy = y * y;
    lemma_fmul_mod(a, xx, p);
    lemma_fmul_mod(d, xx, p);
    lemma_fmul_mod(d * xx, yy, p);
    lemma_fmul_mod(fmul(d, xx, p), yy, p);
    lemma_fmul_mod(d * xx, yy % p, p);
    lemma_add_mod_noop(a * xx, yy, p);
    lemma_add_mod_noop(1, d * xx * yy, p);
    lemma_mod_small(1, p);
    lemma_fadd_fsub_mod(a * xx, yy, p);
    lemma_fadd_fsub_mod(1, d * xx * yy, p);
    lemma_mod_equivalence(a * xx + yy, 1 + d * xx * yy, p);
    assert(a * x * x == a * xx) by (nonlinear_arith)
        requires
            xx == x * x,
    ;
    assert(d * x * x * y * y == d * xx * yy) by (nonlinear_arith)
        requires
            xx == x * x,
            yy == y * y,
    ;
}

/// The shared product of the denominators as an integer congruence.
proof fn lemma_cross_product_congruence(d: int, x1: int, y1: int, x2: int, y2: int, p: int)
    requires
        p > 0,
    ensures
        edwards_cross_product(d, x1, y1, x2, y2, p) == (d * x1 * x2 * y1 * y2) % p,
{
    lemma_fmul_assoc(d, x1, x2, p);
    lemma_fmul_mod(d * x1 * x2, y1, p);
    lemma_fmul_mod(d * x1 * x2 * y1, y2, p);
}

/// The curve conditions under which the Edwards addition law is complete:
/// odd characteristic, `a` a nonzero square and `d` not a square.
pub open spec fn edwards_is_complete(a: int, d: int, p: int) -> bool {
    &&& 2int % p != 0
    &&& a % p != 0
    &&& is_square(a, p)
    &&& !is_square(d, p)
}

/// Completeness on coordinates: neither denominator vanishes on two points
/// of a complete curve.
proof fn lemma_defined_on_curve(a: int, d: int, pt: Coordinates, qt: Coordinates, p: int)
    requires
        is_prime(p),
        edwards_is_complete(a, d, p),
        coordinates_in_range(pt, p),
        coordinates_in_range(qt, p),
        edwards_on_curve(a, d, pt, p),
        edwards_on_curve(a, d, qt, p),
    ensures
        edwards_add_defined(d, pt, qt, p),
{
    let ap = affine_of(pt, p);
    let aq = affine_of(qt, p);
    let (x1, y1, x2, y2) = (ap.0, ap.1, aq.0, aq.1);
    let s = choose|t: int| #[trigger] ((t * t) % p) == a % p;
    assert((s * s) % p == a % p);
    lemma_mod_equivalence(s * s, a, p);
    lemma_on_curve_congruence(a, d, x1, y1, p);
    lemma_on_curve_congruence(a, d, x2, y2, p);
    lemma_cross_product_congruence(d, x1, y1, x2, y2, p);
    let big = d * x1 * x2 * y1 * y2;
    lemma_mod_small(1, p);
    lemma_fadd_fsub_mod(1, big, p);
    if edwards_den_x(d, x1, y1, x2, y2, p) == 0 {
        lemma_mod_small(0, p);
        lemma_mod_equivalence(big, -1, p);
        lemma_mod_equivalence(1 + big, 0, p);
        assert(big - (-1) == 1 + big - 0);
        lemma_unit_cross_product_square(a, d, s, x1, y1, x2, y2, -1, p);
    }
    if edwards_den_y(d, x1, y1, x2, y2, p) == 0 {
        lemma_mod_small(0, p);
        lemma_mod_equivalence(1, big, p);
        lemma_mod_equivalence(big, 1, p);
        lemma_mod_equivalence(1 - big, 0, p);
        lemma_unit_cross_product_square(a, d, s, x1, y1, x2, y2, 1, p);
    }
}

/// Law: on a complete Edwards curve (odd characteristic, `a` a nonzero
/// square, `d` not a square) the sum of two points of the curve is always
/// defined: neither denominator of the addition law vanishes.
pub proof fn lemma_add_defined_on_curve<E: IsEdwards>(
    pt: EdwardsProjectivePoint<E>,
    qt: EdwardsProjectivePoint<E>,
)
    requires
        edwards_is_complete(E::spec_a(), E::spec_d(), E::BaseField::modulus()),
        edwards_on_curve(E::spec_a(), E::spec_d(), pt@, E::BaseField::modulus()),
        edwards_on_curve(E::spec_a(), E::spec_d(), qt@, E::BaseField::modulus()),
    ensures
        EdwardsProjectivePoint::<E>::spec_defined(pt@, qt@),
{
    pt.lemma_range();
    qt.lemma_range();
    lemma_defined_on_curve(E::spec_a(), E::spec_d(), pt@, qt@, E::BaseField::modulus());
}

/// If `u = n1` and `v = n2` modulo `p`, the closure polynomial takes the
/// same value modulo `p` at `(u, v)` as at `(n1, n2)`.
proof fn lemma_closure_poly_congruent(
    a: int,
    d: int,
    u: int,
    v: int,
    n1: int,
    n2: int,
    d1: int,
    d2: int,
    p: int,
)
    requires
        p > 0,
        u % p == n1 % p,
        v % p == n2 % p,
    ensures
        (a * ((u * u) * (d2 * d2)) + (v * v) * (d1 * d1) - (d1 * d1) * (d2 * d2) - d * ((u * u) * (
        v * v))) % p == (a * ((n1 * n1) * (d2 * d2)) + (n2 * n2) * (d1 * d1) - (d1 * d1) * (d2
            * d2) - d * ((n1 * n1) * (n2 * n2))) % p,
{
    lemma_mul_mod_noop(u, u, p);
    lemma_mul_mod_noop(n1, n1, p);
    lemma_mul_mod_noop(v, v, p);
    lemma_mul_mod_noop(n2, n2, p);
    let (uu, vv, nn1, nn2, dd1, dd2) = (u * u, v * v, n1 * n1, n2 * n2, d1 * d1, d2 * d2);
    lemma_mul_mod_noop_left(uu, dd2, p);
    lemma_mul_mod_noop_left(nn1, dd2, p);
    lemma_mul_mod_noop_right(a, uu * dd2, p);
    lemma_mul_mod_noop_right(a, nn1 * dd2, p);
    lemma_mul_mod_noop_left(vv, dd1, p);
    lemma_mul_mod_noop_left(nn2, dd1, p);
    lemma_mul_mod_noop(uu, vv, p);
    lemma_mul_mod_noop(nn1, nn2, p);
    lemma_mul_mod_noop_right(d, uu * vv, p);
    lemma_mul_mod_noop_right(d, nn1 * nn2, p);
    let t1 = a * (uu * dd2);
    let t2 = vv * dd1;
    let t3 = dd1 * dd2;
    let t4 = d * (uu * vv);
    let s1 = a * (nn1 * dd2);
    let s2 = nn2 * dd1;
    let s4 = d * (nn1 * nn2);
    lemma_add_mod_noop(t1, t2, p);
    lemma_add_mod_noop(s1, s2, p);
    lemma_sub_mod_noop(t1 + t2, t3, p);
    lemma_sub_mod_noop(s1 + s2, t3, p);
    lemma_sub_mod_noop(t1 + t2 - t3, t4, p);
    lemma_sub_mod_noop(s1 + s2 - t3, s4, p);
}

/// Closure on coordinates: the sum of two points of the curve, when
/// defined, is a point of the curve with coordinates in range.
proof fn lemma_sum_on_curve(a: int, d: int, pt: Coordinates, qt: Coordinates, p: int)
    requires
        is_prime(p),
        coordinates_in_range(pt, p),
        coordinates_in_range(qt, p),
        edwards_on_curve(a, d, pt, p),
        edwards_on_curve(a, d, qt, p),
        edwards_add_defined(d, pt, qt, p),
    ensures
        edwards_on_curve(a, d, edwards_add(a, d, pt, qt, p), p),
        coordinates_in_range(edwards_add(a, d, pt, qt, p), p),
{
    let ap = affine_of(pt, p);
    let aq = affine_of(qt, p);
    lemma_affine_of_same_point(pt, p);
    lemma_affine_of_same_point(qt, p);
    let (x1, y1, x2, y2) = (ap.0, ap.1, aq.0, aq.1);
    let r = edwards_add(a, d, pt, qt, p);
    let (x3, y3) = (r.0, r.1);
    let num_x = fadd(fmul(x1, y2, p), fmul(y1, x2, p), p);
    let num_y = fsub(fmul(y1, y2, p), fmul(fmul(a, x1, p), x2, p), p);
    let den_x = edwards_den_x(d, x1, y1, x2, y2, p);
    let den_y = edwards_den_y(d, x1, y1, x2, y2, p);
    // the numerators and denominators as integer residues
    let n1 = x1 * y2 + y1 * x2;
    let n2 = y1 * y2 - a * x1 * x2;
    let e = d * x1 * y1 * x2 * y2;
    let d1 = 1 + e;
    let d2 = 1 - e;
    lemma_add_mod_noop(x1 * y2, y1 * x2, p);
    assert(num_x == n1 % p);
    lemma_fmul_assoc(a, x1, x2, p);
    lemma_sub_mod_noop(y1 * y2, a * x1 * x2, p);
    assert(num_y == n2 % p);
    lemma_cross_product_congruence(d, x1, y1, x2, y2, p);
    assert(d * x1 * x2 * y1 * y2 == e) by (nonlinear_arith)
        requires
            e == d * x1 * y1 * x2 * y2,
    ;
    lemma_mod_small(1, p);
    lemma_fadd_fsub_mod(1, e, p);
    assert(den_x == d1 % p);
    assert(den_y == d2 % p);
    lemma_mod_range(d1, p);
    lemma_mod_range(d2, p);
    lemma_mod_small(den_x, p);
    lemma_mod_small(den_y, p);
    lemma_finv_exists(den_x, p);
    lemma_finv_exists(den_y, p);
    // x3 * d1 = n1 and y3 * d2 = n2
    crate::field::arithmetic::lemma_fdiv_mul_cancel(num_x, den_x, p);
    crate::field::arithmetic::lemma_fdiv_mul_cancel(num_y, den_y, p);
    lemma_mod_twice(n1, p);
    lemma_mod_twice(n2, p);
    lemma_fmul_mod(x3, d1, p);
    lemma_fmul_mod(y3, d2, p);
    let u = x3 * d1;
    let v = y3 * d2;
    assert(u % p == n1 % p);
    assert(v % p == n2 % p);
    // (curve polynomial at (x3, y3)) * d1^2 d2^2 is the closure polynomial
    let g3 = a * x3 * x3 + y3 * y3 - 1 - d * x3 * x3 * y3 * y3;
    let k = (d1 * d1) * (d2 * d2);
    let xx = x3 * x3;
    let yy = y3 * y3;
    let p1 = d1 * d1;
    let p2 = d2 * d2;
    assert(u * u == xx * p1) by (nonlinear_arith)
        requires
            u == x3 * d1,
            xx == x3 * x3,
            p1 == d1 * d1,
    ;
    assert(v * v == yy * p2) by (nonlinear_arith)
        requires
            v == y3 * d2,
            yy == y3 * y3,
            p2 == d2 * d2,
    ;
    assert(g3 == a * xx + yy - 1 - d * xx * yy) by (nonlinear_arith)
        requires
            g3 == a * x3 * x3 + y3 * y3 - 1 - d * x3 * x3 * y3 * y3,
            xx == x3 * x3,
            yy == y3 * y3,
    ;
    let ax = a * xx;
    let dxy = d * xx * yy;
    assert(g3 * k == ax * k + yy * k - k - dxy * k) by (nonlinear_arith)
        requires
            g3 == ax + yy - 1 - dxy,
    ;
    assert(ax * k == a * ((xx * p1) * p2)) by (nonlinear_arith)
        requires
            ax == a * xx,
            k == p1 * p2,
    ;
    assert(yy * k == (yy * p2) * p1) by (nonlinear_arith)
        requires
            k == p1 * p2,
    ;
    assert(dxy * k == d * ((xx * p1) * (yy * p2))) by (nonlinear_arith)
        requires
            dxy == d * xx * yy,
            k == p1 * p2,
    ;
    assert(k == p1 * p2);
    lemma_closure_poly_congruent(a, d, u, v, n1, n2, d1, d2, p);
    let q = lemma_closure_identity(a, d, x1, y1, x2, y2);
    lemma_on_curve_congruence(a, d, x1, y1, p);
    lemma_on_curve_congruence(a, d, x2, y2, p);
    let c1 = a * x1 * x1 + y1 * y1 - 1 - d * x1 * x1 * y1 * y1;
    let c2 = a * x2 * x2 + y2 * y2 - 1 - d * x2 * x2 * y2 * y2;
    lemma_mul_mod_noop_right(q.0, c1, p);
    lemma_mul_mod_noop_right(q.1, c2, p);
    lemma_add_mod_noop(q.0 * c1, q.1 * c2, p);
    lemma_mod_small(0, p);
    assert(q.0 * 0 == 0 && q.1 * 0 == 0);
    assert((g3 * k) % p == 0);
    // k is invertible, so g3 vanishes
    lemma_fmul_nonzero(d1, d1, p);
    lemma_fmul_nonzero(d2, d2, p);
    lemma_mod_range(d1 * d1, p);
    lemma_mod_range(d2 * d2, p);
    lemma_mod_small((d1 * d1) % p, p);
    lemma_mod_small((d2 * d2) % p, p);
    lemma_fmul_nonzero(d1 * d1, d2 * d2, p);
    if g3 % p != 0 {
        lemma_fmul_nonzero(g3, k, p);
    }
    lemma_on_curve_congruence(a, d, x3, y3, p);
    // the sum is in affine form already
    lemma_mod_range(num_x * finv(den_x, p), p);
    lemma_mod_range(num_y * finv(den_y, p), p);
    lemma_finv_one(p);
    lemma_fmul_one_zero(x3, p);
    lemma_fmul_one_zero(y3, p);
}

/// Law: on a curve point, the Edwards sum of two points of the curve, when
/// defined, is again a point of the curve.
pub proof fn lemma_add_on_curve<E: IsEdwards>(
    pt: EdwardsProjectivePoint<E>,
    qt: EdwardsProjectivePoint<E>,
)
    requires
        edwards_on_curve(E::spec_a(), E::spec_d(), pt@, E::BaseField::modulus()),
        edwards_on_curve(E::spec_a(), E::spec_d(), qt@, E::BaseField::modulus()),
        EdwardsProjectivePoint::<E>::spec_defined(pt@, qt@),
    ensures
        edwards_on_curve(
            E::spec_a(),
            E::spec_d(),
            EdwardsProjectivePoint::<E>::spec_operate(pt@, qt@),
            E::BaseField::modulus(),
        ),
{
    pt.lemma_range();
    qt.lemma_range();
    lemma_sum_on_curve(E::spec_a(), E::spec_d(), pt@, qt@, E::BaseField::modulus());
}

/// Every step of double-and-add from points of a complete curve is defined
/// and stays on the curve.
proof fn lemma_double_and_add_on_curve<E: IsEdwards>(acc: Coordinates, base: Coordinates, e: nat)
    requires
        is_prime(E::BaseField::modulus()),
        edwards_is_complete(E::spec_a(), E::spec_d(), E::BaseField::modulus()),
        coordinates_in_range(acc, E::BaseField::modulus()),
        coordinates_in_range(base, E::BaseField::modulus()),
        edwards_on_curve(E::spec_a(), E::spec_d(), acc, E::BaseField::modulus()),
        edwards_on_curve(E::spec_a(), E::spec_d(), base, E::BaseField::modulus()),
    ensures
        double_and_add_defined::<EdwardsProjectivePoint<E>>(acc, base, e),
        edwards_on_curve(
            E::spec_a(),
            E::spec_d(),
            double_and_add::<EdwardsProjectivePoint<E>>(acc, base, e),
            E::BaseField::modulus(),
        ),
    decreases e,
{
    let p = E::BaseField::modulus();
    let (a, d) = (E::spec_a(), E::spec_d());
    if e > 0 {
        lemma_defined_on_curve(a, d, base, base, p);
        lemma_sum_on_curve(a, d, base, base, p);
        if e % 2 == 1 {
            lemma_defined_on_curve(a, d, acc, base, p);
            lemma_sum_on_curve(a, d, acc, base, p);
            lemma_double_and_add_on_curve::<E>(
                edwards_add(a, d, acc, base, p),
                edwards_add(a, d, base, base, p),
                e / 2,
            );
        } else {
            lemma_double_and_add_on_curve::<E>(acc, edwards_add(a, d, base, base, p), e / 2);
        }
    }
}

/// Law: on a complete Edwards curve, adding a point of the curve to itself
/// any number of times by double-and-add is always defined, and the result
/// is a point of the curve.
pub proof fn lemma_double_and_add_multiple_on_curve<E: IsEdwards>(pt: EdwardsProjectivePoint<E>, n: nat)
    requires
        edwards_is_complete(E::spec_a(), E::spec_d(), E::BaseField::modulus()),
        edwards_on_curve(E::spec_a(), E::spec_d(), pt@, E::BaseField::modulus()),
    ensures
        double_and_add_defined::<EdwardsProjectivePoint<E>>(edwards_neutral(), pt@, n),
        edwards_on_curve(
            E::spec_a(),
            E::spec_d(),
            double_and_add_multiple::<EdwardsProjectivePoint<E>>(pt@, n),
            E::BaseField::modulus(),
        ),
{
    let p = E::BaseField::modulus();
    pt.lemma_range();
    lemma_neutral_affine(p);
    lemma_fmul_one_zero(0, p);
    lemma_fmul_one_zero(1, p);
    lemma_mod_small(0, p);
    lemma_mod_range(E::spec_a() * 0, p);
    assert(E::spec_a() * 0 == 0);
    assert(fmul(E::spec_d(), 0, p) == 0);
    lemma_double_and_add_on_curve::<E>(edwards_neutral(), pt@, n);
}

/// None of `x1, x2, y1, y2` vanishes when `d x1 x2 y1 y2` is congruent to `+-1`.
proof fn lemma_factor_nonzero(d: int, x1: int, x2: int, y1: int, y2: int, e: int, p: int)
    requires
        p > 1,
        e == 1 || e == -1,
        (d * x1 * x2 * y1 * y2 - e) % p == 0,
    ensures
        x1 % p != 0,
        x2 % p != 0,
        y1 % p != 0,
        y2 % p != 0,
{
    let prod = d * x1 * x2 * y1 * y2;
    lemma_mod_equivalence(prod, e, p);
    lemma_mod_small(1, p);
    lemma_mod_small(0, p);
    lemma_mod_add_multiples_vanish(-1, p);
    lemma_mod_small(p - 1, p);
    assert(e % p != 0);
    if x1 % p == 0 {
        assert(prod == x1 * (d * x2 * y1 * y2)) by (nonlinear_arith)
            requires
                prod == d * x1 * x2 * y1 * y2,
        ;
        lemma_mul_mod_noop_left(x1, d * x2 * y1 * y2, p);
        assert(0 * (d * x2 * y1 * y2) == 0);
    }
    if x2 % p == 0 {
        assert(prod == x2 * (d * x1 * y1 * y2)) by (nonlinear_arith)
            requires
                prod == d * x1 * x2 * y1 * y2,
        ;
        lemma_mul_mod_noop_left(x2, d * x1 * y1 * y2, p);
        assert(0 * (d * x1 * y1 * y2) == 0);
    }
    if y1 % p == 0 {
        assert(prod == y1 * (d * x1 * x2 * y2)) by (nonlinear_arith)
            requires
                prod == d * x1 * x2 * y1 * y2,
        ;
        lemma_mul_mod_noop_left(y1, d * x1 * x2 * y2, p);
        assert(0 * (d * x1 * x2 * y2) == 0);
    }
    if y2 % p == 0 {
        assert(prod == y2 * (d * x1 * x2 * y1)) by (nonlinear_arith)
            requires
                prod == d * x1 * x2 * y1 * y2,
        ;
        lemma_mul_mod_noop_left(y2, d * x1 * x2 * y1, p);
        assert(0 * (d * x1 * x2 * y1) == 0);
    }
}


/// Law: `==` on Edwards points is equality of the points they stand
/// for. Two finite points are equal exactly when their affine forms agree, so
/// two points that share `x` but not `y`, or `y` but not `x`, are different.
/// Two points with `z = 0` are equal, and a finite point equals a point with
/// `z = 0` only when that point is `[0: 0: 0]`. The relation is symmetric.
pub proof fn lemma_eq_is_same_point<E: IsEdwards>(pt: EdwardsProjectivePoint<E>, qt: EdwardsProjectivePoint<E>)
    ensures
        pt@.2 != 0 && qt@.2 != 0 ==> (pt.eq_spec(&qt) <==> affine_of(pt@, E::BaseField::modulus())
            == affine_of(qt@, E::BaseField::modulus())),
        pt@.2 != 0 && qt@.2 != 0 && pt@.0 * qt@.2 % E::BaseField::modulus() != qt@.0 * pt@.2
            % E::BaseField::modulus() ==> !pt.eq_spec(&qt),
        pt@.2 != 0 && qt@.2 != 0 && pt@.1 * qt@.2 % E::BaseField::modulus() != qt@.1 * pt@.2
            % E::BaseField::modulus() ==> !pt.eq_spec(&qt),
        pt@.2 == 0 && qt@.2 == 0 ==> pt.eq_spec(&qt),
        pt@.2 != 0 && qt@.2 == 0 ==> (pt.eq_spec(&qt) <==> (qt@.0 == 0 && qt@.1 == 0)),
        pt@.2 == 0 && qt@.2 != 0 ==> (pt.eq_spec(&qt) <==> (pt@.0 == 0 && pt@.1 == 0)),
        pt.eq_spec(&qt) == qt.eq_spec(&pt),
{
    let p = E::BaseField::modulus();
    pt.lemma_range();
    qt.lemma_range();
    lemma_projective_eq_cases(pt@, qt@, p);
    lemma_projective_eq_cases(qt@, pt@, p);
    lemma_fmul_comm(qt@.0, pt@.2, p);
    lemma_fmul_comm(pt@.1, qt@.2, p);
}

/// Law: a point is the neutral element exactly when it is `[0: t: t]`: its
/// `x` is zero and its `y` equals its `z`. A finite point is neutral exactly
/// when its affine form is `(0, 1)`; so `(0, -1)`, the point of order two,
/// is not neutral.
pub proof fn lemma_is_neutral_exactly<E: IsEdwards>(pt: EdwardsProjectivePoint<E>)
    ensures
        EdwardsProjectivePoint::<E>::spec_is_neutral(pt@) <==> (pt@.0 == 0 && pt@.1 == pt@.2),
        pt@.2 != 0 ==> (EdwardsProjectivePoint::<E>::spec_is_neutral(pt@) <==> affine_of(
            pt@,
            E::BaseField::modulus(),
        ) == (0int, 1int, 1int)),
{
    let p = E::BaseField::modulus();
    pt.lemma_range();
    lemma_fmul_one_zero(pt@.0, p);
    lemma_fmul_one_zero(pt@.1, p);
    lemma_fmul_one_zero(pt@.2, p);
    lemma_neutral_affine(p);
    lemma_projective_eq_cases(pt@, edwards_neutral(), p);
}

} // verus!
