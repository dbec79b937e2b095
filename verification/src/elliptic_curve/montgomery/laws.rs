//! Laws of the Montgomery group operation, proved over the operations' specs.
use crate::cyclic_group::{
    double_and_add, double_and_add_defined, double_and_add_multiple, IsGroup,
};
use crate::elliptic_curve::montgomery::closure_identity::{lemma_chord_identity, lemma_tangent_identity};
use crate::elliptic_curve::montgomery::point::{
    montgomery_add, montgomery_add_defined, montgomery_line_sum, montgomery_neg,
    montgomery_tangent_den, montgomery_tangent_num,
    montgomery_neutral, MontgomeryProjectivePoint,
};
use crate::elliptic_curve::montgomery::traits::{
    montgomery_affine_on_curve, montgomery_equation, montgomery_on_curve, IsMontgomery,
};
use crate::elliptic_curve::point::{
    lemma_projective_eq_cases,
    affine_of, coordinates_in_range, lemma_affine_of_same_point, lemma_projective_eq_reflexive,
    lemma_same_affine_projective_eq,
    lemma_projective_eq_same_affine, lemma_projective_eq_symmetric, projective_eq, Coordinates,
};
use crate::field::arithmetic::{
    fadd, fdiv, finv, fmul, fneg, fsub, is_prime, lemma_fadd_comm, lemma_fmul_comm, lemma_fdiv_neg_neg,
    lemma_fmul_neg_left, lemma_fmul_one_zero, lemma_fneg_add_self, lemma_fneg_fneg,
    lemma_fneg_square, lemma_finv_exists, lemma_finv_one, lemma_mod_range, lemma_mod_small,
};
use crate::field::element::FieldElement;
use crate::field::traits::{IsField, IsPrimeField};
use crate::field::arithmetic::{
    lemma_equal_squares, lemma_fadd_fsub_mod, lemma_fmul_assoc, lemma_fmul_mod, lemma_fmul_nonzero,
};
use vstd::arithmetic::div_mod::{
    lemma_add_mod_noop, lemma_mod_equivalence, lemma_mod_twice, lemma_mul_mod_noop,
    lemma_mul_mod_noop_right, lemma_sub_mod_noop,
};
use vstd::prelude::*;
use vstd::std_specs::cmp::PartialEqSpec;

verus! {

/// A point with coordinates in range is the neutral element exactly when
/// its `z` is zero.
pub proof fn lemma_is_neutral_iff(pt: Coordinates, p: int)
    requires
        p > 1,
        coordinates_in_range(pt, p),
    ensures
        projective_eq(pt, montgomery_neutral(), p) == (pt.2 == 0),
{
    lemma_fmul_one_zero(pt.0, p);
    lemma_fmul_one_zero(pt.1, p);
    lemma_fmul_one_zero(pt.2, p);
}

/// Law: negating twice gives back the point.
pub proof fn lemma_neg_involution<E: IsMontgomery>(pt: MontgomeryProjectivePoint<E>)
    ensures
        montgomery_neg(montgomery_neg(pt@, E::BaseField::modulus()), E::BaseField::modulus())
            == pt@,
{
    let p = E::BaseField::modulus();
    pt.lemma_range();
    lemma_fneg_fneg(pt@.1, p);
    lemma_mod_small(pt@.1, p);
}

/// Law: the point at infinity `[0: 1: 0]` is an identity on both sides: the
/// sums are always defined and equal to the point.
pub proof fn lemma_neutral_is_identity<E: IsMontgomery>(pt: MontgomeryProjectivePoint<E>)
    ensures
        MontgomeryProjectivePoint::<E>::spec_defined(pt@, montgomery_neutral()),
        MontgomeryProjectivePoint::<E>::spec_defined(montgomery_neutral(), pt@),
        projective_eq(
            MontgomeryProjectivePoint::<E>::spec_operate(pt@, montgomery_neutral()),
            pt@,
            E::BaseField::modulus(),
        ),
        projective_eq(
            MontgomeryProjectivePoint::<E>::spec_operate(montgomery_neutral(), pt@),
            pt@,
            E::BaseField::modulus(),
        ),
{
    let p = E::BaseField::modulus();
    pt.lemma_range();
    lemma_is_neutral_iff(pt@, p);
    lemma_is_neutral_iff(montgomery_neutral(), p);
    lemma_projective_eq_reflexive(pt@, p);
    lemma_projective_eq_symmetric(pt@, montgomery_neutral(), p);
}

/// Law: a point plus its negation is the neutral element, and the sum is
/// always defined.
pub proof fn lemma_add_inverse<E: IsMontgomery>(pt: MontgomeryProjectivePoint<E>)
    ensures
        MontgomeryProjectivePoint::<E>::spec_defined(
            pt@,
            montgomery_neg(pt@, E::BaseField::modulus()),
        ),
        MontgomeryProjectivePoint::<E>::spec_is_neutral(
            MontgomeryProjectivePoint::<E>::spec_operate(
                pt@,
                montgomery_neg(pt@, E::BaseField::modulus()),
            ),
        ),
{
    let p = E::BaseField::modulus();
    let np = montgomery_neg(pt@, p);
    pt.lemma_range();
    lemma_mod_range(0 - pt@.1, p);
    lemma_is_neutral_iff(pt@, p);
    lemma_is_neutral_iff(np, p);
    lemma_is_neutral_iff(montgomery_neutral(), p);
    if pt@.2 != 0 {
        let iz = finv(pt@.2, p);
        lemma_fmul_neg_left(pt@.1, iz, p);
        lemma_fneg_add_self(fmul(pt@.1, iz, p), p);
    }
}

/// Law: the Montgomery sum depends only on the points added, not on the
/// projective coordinates chosen for them: equal first operands give equal
/// sums, defined in the same cases (`[0: 0: 0]`, which equals every point,
/// is left out).
pub proof fn lemma_add_respects_equality<E: IsMontgomery>(
    pt: MontgomeryProjectivePoint<E>,
    pt2: MontgomeryProjectivePoint<E>,
    qt: MontgomeryProjectivePoint<E>,
)
    requires
        pt@ != (0int, 0int, 0int),
        pt2@ != (0int, 0int, 0int),
        projective_eq(pt@, pt2@, E::BaseField::modulus()),
    ensures
        MontgomeryProjectivePoint::<E>::spec_defined(pt@, qt@)
            == MontgomeryProjectivePoint::<E>::spec_defined(pt2@, qt@),
        projective_eq(
            MontgomeryProjectivePoint::<E>::spec_operate(pt@, qt@),
            MontgomeryProjectivePoint::<E>::spec_operate(pt2@, qt@),
            E::BaseField::modulus(),
        ),
{
    let p = E::BaseField::modulus();
    pt.lemma_range();
    pt2.lemma_range();
    qt.lemma_range();
    lemma_is_neutral_iff(pt@, p);
    lemma_is_neutral_iff(pt2@, p);
    lemma_is_neutral_iff(qt@, p);
    let r1 = MontgomeryProjectivePoint::<E>::spec_operate(pt@, qt@);
    lemma_projective_eq_reflexive(r1, p);
    if pt@.2 == 0 || pt2@.2 == 0 {
        // a point equal to one at infinity is at infinity
        lemma_fmul_one_zero(pt@.0, p);
        lemma_fmul_one_zero(pt@.1, p);
        lemma_fmul_one_zero(pt2@.0, p);
        lemma_fmul_one_zero(pt2@.1, p);
        // with the other `z` nonzero, both `x` and `y` would vanish
        if pt@.2 == 0 && pt2@.2 != 0 {
            lemma_mod_small(pt2@.2, p);
            lemma_mod_small(pt@.1, p);
            lemma_mod_small(pt@.0, p);
            if pt@.1 != 0 {
                crate::field::arithmetic::lemma_fmul_nonzero(pt@.1, pt2@.2, p);
            } else if pt@.0 != 0 {
                crate::field::arithmetic::lemma_fmul_nonzero(pt@.0, pt2@.2, p);
            }
        }
        if pt2@.2 == 0 && pt@.2 != 0 {
            lemma_mod_small(pt@.2, p);
            lemma_mod_small(pt2@.1, p);
            lemma_mod_small(pt2@.0, p);
            lemma_fmul_comm(pt2@.0, pt@.2, p);
            if pt2@.1 != 0 {
                crate::field::arithmetic::lemma_fmul_nonzero(pt2@.1, pt@.2, p);
            } else if pt2@.0 != 0 {
                crate::field::arithmetic::lemma_fmul_nonzero(pt2@.0, pt@.2, p);
            }
        }
    } else if qt@.2 == 0 {
    } else {
        lemma_projective_eq_same_affine(pt@, pt2@, p);
        if projective_eq(pt@, qt@, p) {
            lemma_projective_eq_symmetric(pt@, pt2@, p);
            crate::elliptic_curve::point::lemma_projective_eq_transitive(pt2@, pt@, qt@, p);
        }
        if projective_eq(pt2@, qt@, p) {
            crate::elliptic_curve::point::lemma_projective_eq_transitive(pt@, pt2@, qt@, p);
        }
    }
}

/// Law: negation keeps a point on the curve.
pub proof fn lemma_neg_on_curve<E: IsMontgomery>(pt: MontgomeryProjectivePoint<E>)
    requires
        montgomery_on_curve(E::spec_a(), E::spec_b(), pt@, E::BaseField::modulus()),
    ensures
        montgomery_on_curve(
            E::spec_a(),
            E::spec_b(),
            montgomery_neg(pt@, E::BaseField::modulus()),
            E::BaseField::modulus(),
        ),
{
    let p = E::BaseField::modulus();
    pt.lemma_range();
    let iz = finv(pt@.2, p);
    lemma_fmul_neg_left(pt@.1, iz, p);
    lemma_fneg_square(fmul(pt@.1, iz, p), p);
}

/// With `L (x2 - x1) = y2 - y1`, the reflected `y` of the chord is the
/// same whichever point it is computed from.
proof fn lemma_chord_y_symmetric(l: int, x1: int, y1: int, x2: int, y2: int, x3: int, p: int)
    requires
        p > 0,
        fmul(l, fsub(x2, x1, p), p) == fsub(y2, y1, p),
    ensures
        fsub(fmul(l, fsub(x1, x3, p), p), y1, p) == fsub(fmul(l, fsub(x2, x3, p), p), y2, p),
{
    lemma_fmul_mod(l, x1 - x3, p);
    lemma_fmul_mod(l, x2 - x3, p);
    lemma_fmul_mod(l, x2 - x1, p);
    lemma_fadd_fsub_mod(l * (x1 - x3), y1, p);
    lemma_fadd_fsub_mod(l * (x2 - x3), y2, p);
    let u = l * (x1 - x3) - y1;
    let v = l * (x2 - x3) - y2;
    assert(u - v == (y2 - y1) - l * (x2 - x1)) by (nonlinear_arith)
        requires
            u == l * (x1 - x3) - y1,
            v == l * (x2 - x3) - y2,
    ;
    lemma_mod_equivalence(y2 - y1, l * (x2 - x1), p);
    lemma_mod_equivalence(u, v, p);
}

/// `x1 - x2 = -(x2 - x1)`, and it vanishes exactly when `x2 - x1` does.
proof fn lemma_fsub_swap(x1: int, x2: int, p: int)
    requires
        p > 1,
    ensures
        fsub(x1, x2, p) == fneg(fsub(x2, x1, p), p),
        (fsub(x1, x2, p) == 0) == (fsub(x2, x1, p) == 0),
        (fsub(x2, x1, p) % p == 0) == (fsub(x2, x1, p) == 0),
{
    lemma_fadd_fsub_mod(0, x2 - x1, p);
    assert(0 - (x2 - x1) == x1 - x2);
    lemma_mod_equivalence(x1, x2, p);
    lemma_mod_equivalence(x2, x1, p);
    lemma_mod_equivalence(x1 - x2, 0, p);
    lemma_mod_equivalence(x2 - x1, 0, p);
    lemma_mod_range(x2 - x1, p);
    lemma_mod_small(fsub(x2, x1, p), p);
    lemma_mod_small(0, p);
}

/// Law: the Montgomery sum is defined in one order exactly when in the
/// other, and then both orders give the same point.
pub proof fn lemma_add_commutative<E: IsMontgomery>(
    pt: MontgomeryProjectivePoint<E>,
    qt: MontgomeryProjectivePoint<E>,
)
    ensures
        MontgomeryProjectivePoint::<E>::spec_defined(pt@, qt@)
            == MontgomeryProjectivePoint::<E>::spec_defined(qt@, pt@),
        MontgomeryProjectivePoint::<E>::spec_defined(pt@, qt@) ==> projective_eq(
            MontgomeryProjectivePoint::<E>::spec_operate(pt@, qt@),
            MontgomeryProjectivePoint::<E>::spec_operate(qt@, pt@),
            E::BaseField::modulus(),
        ),
{
    let p = E::BaseField::modulus();
    let a = E::spec_a();
    let b = E::spec_b();
    pt.lemma_range();
    qt.lemma_range();
    lemma_is_neutral_iff(pt@, p);
    lemma_is_neutral_iff(qt@, p);
    let sum_pq = montgomery_add(a, b, pt@, qt@, p);
    let sum_qp = montgomery_add(a, b, qt@, pt@, p);
    if pt@.2 == 0 || qt@.2 == 0 {
        if pt@.2 == 0 && qt@.2 == 0 {
            lemma_fmul_one_zero(pt@.0, p);
            lemma_fmul_one_zero(pt@.1, p);
            lemma_fmul_one_zero(qt@.0, p);
            lemma_fmul_one_zero(qt@.1, p);
        } else if pt@.2 == 0 {
            lemma_projective_eq_reflexive(qt@, p);
        } else {
            lemma_projective_eq_reflexive(pt@, p);
        }
    } else {
        let ap = affine_of(pt@, p);
        let aq = affine_of(qt@, p);
        lemma_fadd_comm(aq.1, ap.1, p);
        lemma_projective_eq_symmetric(pt@, qt@, p);
        if aq.0 == ap.0 && fadd(aq.1, ap.1, p) == 0 {
            lemma_projective_eq_reflexive(montgomery_neutral(), p);
        } else if projective_eq(pt@, qt@, p) {
            lemma_projective_eq_same_affine(pt@, qt@, p);
            lemma_projective_eq_reflexive(sum_pq, p);
        } else {
            let m = fsub(aq.0, ap.0, p);
            let n = fsub(aq.1, ap.1, p);
            lemma_fsub_swap(ap.0, aq.0, p);
            lemma_fsub_swap(ap.1, aq.1, p);
            if m != 0 {
                lemma_fdiv_neg_neg(n, m, p);
                let l = fdiv(n, m, p);
                lemma_finv_exists(m, p);
                lemma_mod_range(aq.1 - ap.1, p);
                crate::field::arithmetic::lemma_fdiv_mul_cancel(n, m, p);
                lemma_mod_small(n, p);
                lemma_fadd_comm(ap.0, aq.0, p);
                let x3 = montgomery_line_sum(a, b, l, ap.0, ap.1, aq.0, p).0;
                lemma_chord_y_symmetric(l, ap.0, ap.1, aq.0, aq.1, x3, p);
                lemma_projective_eq_reflexive(sum_pq, p);
            }
        }
    }
}

/// With `z = 1` the Montgomery polynomial vanishes exactly when the affine
/// equation holds.
proof fn lemma_equation_affine(a: int, b: int, x: int, y: int, p: int)
    requires
        is_prime(p),
        0 <= x < p,
        0 <= y < p,
    ensures
        (montgomery_equation(a, b, x, y, 1, p) == 0) == montgomery_affine_on_curve(a, b, x, y, p),
{
    let x2 = fmul(x, x, p);
    let by2 = fmul(b, fmul(y, y, p), p);
    let x3 = fmul(x2, x, p);
    let ax2 = fmul(a, x2, p);
    lemma_fmul_one_zero(1, p);
    lemma_fmul_one_zero(x, p);
    lemma_mod_range(b * fmul(y, y, p), p);
    lemma_mod_range(a * x2, p);
    lemma_fmul_one_zero(by2, p);
    lemma_fmul_one_zero(ax2, p);
    // ((by2 - x3) - ax2) - x  ==  by2 - (x3 + ax2 + x)   (mod p)
    lemma_fadd_fsub_mod(by2 - x3, ax2, p);
    lemma_fadd_fsub_mod(by2 - x3 - ax2, x, p);
    lemma_fadd_fsub_mod(x3 + ax2, x, p);
    let rhs = fadd(fadd(x3, ax2, p), x, p);
    assert(by2 - x3 - ax2 - x == by2 - (x3 + ax2 + x));
    lemma_mod_equivalence(by2, x3 + ax2 + x, p);
    lemma_mod_range(by2, p);
    lemma_mod_small(by2, p);
}

/// Law: `from_affine` accepts `(x, y)` exactly when `[x: y: 1]` is a point of
/// the curve.
pub proof fn lemma_from_affine_on_curve<E: IsMontgomery>(
    x: FieldElement<E::BaseField>,
    y: FieldElement<E::BaseField>,
)
    ensures
        (montgomery_equation(E::spec_a(), E::spec_b(), x@, y@, 1, E::BaseField::modulus()) == 0)
            == montgomery_on_curve(
            E::spec_a(),
            E::spec_b(),
            (x@, y@, 1int),
            E::BaseField::modulus(),
        ),
{
    let p = E::BaseField::modulus();
    x.lemma_range();
    y.lemma_range();
    lemma_finv_one(p);
    lemma_fmul_one_zero(x@, p);
    lemma_fmul_one_zero(y@, p);
    lemma_equation_affine(E::spec_a(), E::spec_b(), x@, y@, p);
}

/// The point `pt` is at infinity or a point of the curve.
pub open spec fn montgomery_on_curve_or_infinity(a: int, b: int, pt: Coordinates, p: int) -> bool {
    pt.2 == 0 || montgomery_on_curve(a, b, pt, p)
}

/// Definedness on coordinates: with `b != 0` the sum of two points of the
/// curve (or at infinity) never divides by zero.
proof fn lemma_defined_on_curve(a: int, b: int, pt: Coordinates, qt: Coordinates, p: int)
    requires
        is_prime(p),
        b % p != 0,
        coordinates_in_range(pt, p),
        coordinates_in_range(qt, p),
        montgomery_on_curve_or_infinity(a, b, pt, p),
        montgomery_on_curve_or_infinity(a, b, qt, p),
    ensures
        montgomery_add_defined(b, pt, qt, p),
{
    lemma_is_neutral_iff(pt, p);
    lemma_is_neutral_iff(qt, p);
    if pt.2 != 0 && qt.2 != 0 {
        let ap = affine_of(pt, p);
        let aq = affine_of(qt, p);
        lemma_affine_of_same_point(pt, p);
        lemma_affine_of_same_point(qt, p);
        if aq.0 == ap.0 && fadd(aq.1, ap.1, p) == 0 {
        } else if projective_eq(pt, qt, p) {
            lemma_projective_eq_same_affine(pt, qt, p);
            // 2 b y1 != 0, since y1 + y1 != 0 and b != 0
            let y1 = ap.1;
            assert(2 * y1 == y1 + y1);
            lemma_fmul_nonzero(2 * y1, b, p);
            lemma_fmul_assoc(2, b, y1, p);
            assert(2 * b * y1 == (2 * y1) * b) by (nonlinear_arith);
        } else if aq.0 == ap.0 {
            // same x: the curve forces y2 = y1 or y2 = -y1, both excluded
            let s1 = fmul(ap.1, ap.1, p);
            let s2 = fmul(aq.1, aq.1, p);
            lemma_mod_range(ap.1 * ap.1, p);
            lemma_mod_range(aq.1 * aq.1, p);
            lemma_finv_exists(b, p);
            crate::field::arithmetic::lemma_fmul_cancel(b, s1, s2, p);
            lemma_equal_squares(aq.1, ap.1, p);
            if fsub(aq.1, ap.1, p) == 0 {
                lemma_mod_equivalence(aq.1, ap.1, p);
                lemma_mod_small(aq.1, p);
                lemma_mod_small(ap.1, p);
                lemma_same_affine_projective_eq(pt, qt, p);
            }
        } else {
            lemma_mod_equivalence(aq.0, ap.0, p);
            lemma_mod_small(aq.0, p);
            lemma_mod_small(ap.0, p);
            lemma_mod_small(0, p);
        }
    }
}


/// Law: on a Montgomery curve with `b != 0`, the sum of two points of the
/// curve (or at infinity) is always defined: the operation never divides
/// by zero on them.
pub proof fn lemma_add_defined_on_curve<E: IsMontgomery>(
    pt: MontgomeryProjectivePoint<E>,
    qt: MontgomeryProjectivePoint<E>,
)
    requires
        E::spec_b() % E::BaseField::modulus() != 0,
        montgomery_on_curve_or_infinity(E::spec_a(), E::spec_b(), pt@, E::BaseField::modulus()),
        montgomery_on_curve_or_infinity(E::spec_a(), E::spec_b(), qt@, E::BaseField::modulus()),
    ensures
        MontgomeryProjectivePoint::<E>::spec_defined(pt@, qt@),
{
    pt.lemma_range();
    qt.lemma_range();
    lemma_defined_on_curve(E::spec_a(), E::spec_b(), pt@, qt@, E::BaseField::modulus());
}

/// The Montgomery curve polynomial `b y^2 - (x^3 + a x^2 + x)`.
pub open spec fn montgomery_poly(a: int, b: int, x: int, y: int) -> int {
    (b * (y * y)) - ((((x * x) * x) + (a * (x * x))) + x)
}

/// The affine Montgomery equation as a congruence of integers.
proof fn lemma_mont_on_curve_congruence(a: int, b: int, x: int, y: int, p: int)
    requires
        p > 1,
    ensures
        montgomery_affine_on_curve(a, b, x, y, p) == (montgomery_poly(a, b, x, y) % p == 0),
{
    let xx = x * x;
    lemma_fmul_mod(b, y * y, p);
    lemma_fmul_mod(xx, x, p);
    lemma_fmul_mod(a, xx, p);
    lemma_fadd_fsub_mod(xx * x, a * xx, p);
    lemma_fadd_fsub_mod(xx * x, (a * xx) % p, p);
    lemma_fadd_fsub_mod(xx * x + a * xx, x, p);
    lemma_fadd_fsub_mod(fadd(fmul(xx, x, p), fmul(a, xx, p), p), x, p);
    lemma_add_mod_noop(xx * x, a * xx, p);
    lemma_mod_equivalence(b * (y * y), xx * x + a * xx + x, p);
    lemma_mod_range(b * (y * y), p);
    lemma_mod_small(fmul(b, y * y, p), p);
    lemma_mod_range(xx * x + a * xx + x, p);
}

/// Congruent coordinates give congruent values of the curve polynomial.
proof fn lemma_mont_poly_congruent(a: int, b: int, x: int, y: int, u: int, v: int, p: int)
    requires
        p > 0,
        x % p == u % p,
        y % p == v % p,
    ensures
        montgomery_poly(a, b, x, y) % p == montgomery_poly(a, b, u, v) % p,
{
    lemma_mul_mod_noop(x, x, p);
    lemma_mul_mod_noop(u, u, p);
    lemma_mul_mod_noop(y, y, p);
    lemma_mul_mod_noop(v, v, p);
    lemma_mul_mod_noop(x * x, x, p);
    lemma_mul_mod_noop(u * u, u, p);
    lemma_mul_mod_noop_right(b, y * y, p);
    lemma_mul_mod_noop_right(b, v * v, p);
    lemma_mul_mod_noop_right(a, x * x, p);
    lemma_mul_mod_noop_right(a, u * u, p);
    lemma_add_mod_noop((x * x) * x, a * (x * x), p);
    lemma_add_mod_noop((u * u) * u, a * (u * u), p);
    lemma_add_mod_noop((x * x) * x + a * (x * x), x, p);
    lemma_add_mod_noop((u * u) * u + a * (u * u), u, p);
    lemma_sub_mod_noop(b * (y * y), (x * x) * x + a * (x * x) + x, p);
    lemma_sub_mod_noop(b * (v * v), (u * u) * u + a * (u * u) + u, p);
}

/// The reflected third point of a line of slope `l` through `(x1, y1)` and
/// `(x2, _)`, reduced, is congruent to its integer formula.
proof fn lemma_line_sum_congruent(a: int, b: int, l: int, x1: int, y1: int, x2: int, p: int)
    requires
        p > 0,
    ensures
        ({
            let r = montgomery_line_sum(a, b, l, x1, y1, x2, p);
            let x3 = (((l * l) * b) - (x1 + x2)) - a;
            &&& r.0 % p == x3 % p
            &&& r.1 % p == ((l * (x1 - x3)) - y1) % p
            &&& r.2 == 1
        }),
{
    let r = montgomery_line_sum(a, b, l, x1, y1, x2, p);
    let x3 = (((l * l) * b) - (x1 + x2)) - a;
    lemma_fmul_mod(l * l, b, p);
    lemma_fadd_fsub_mod((l * l) * b, x1 + x2, p);
    lemma_fadd_fsub_mod((l * l) * b - (x1 + x2), a, p);
    lemma_fadd_fsub_mod(fmul(fmul(l, l, p), b, p), x1 + x2, p);
    lemma_fadd_fsub_mod(fsub(fmul(fmul(l, l, p), b, p), fadd(x1, x2, p), p), a, p);
    lemma_mod_twice(x3, p);
    lemma_mod_twice(r.0, p);
    assert(r.0 == x3 % p);
    lemma_fadd_fsub_mod(x1, x3, p);
    assert(fsub(x1, r.0, p) == (x1 - x3) % p);
    lemma_fmul_mod(l, x1 - x3, p);
    assert(fmul(l, fsub(x1, r.0, p), p) == (l * (x1 - x3)) % p);
    lemma_fadd_fsub_mod(l * (x1 - x3), y1, p);
    lemma_mod_twice((l * (x1 - x3)) - y1, p);
    assert(r.0 % p == x3 % p);
    assert(r.1 == ((l * (x1 - x3)) - y1) % p);
    assert(r.1 % p == ((l * (x1 - x3)) - y1) % p);
}

/// Closure on coordinates: the chord-and-tangent sum of two points of the
/// curve (or at infinity), when defined, is at infinity or on the curve.
proof fn lemma_sum_on_curve(a: int, b: int, pt: Coordinates, qt: Coordinates, p: int)
    requires
        is_prime(p),
        coordinates_in_range(pt, p),
        coordinates_in_range(qt, p),
        montgomery_on_curve_or_infinity(a, b, pt, p),
        montgomery_on_curve_or_infinity(a, b, qt, p),
        montgomery_add_defined(b, pt, qt, p),
    ensures
        coordinates_in_range(montgomery_add(a, b, pt, qt, p), p),
        montgomery_on_curve_or_infinity(a, b, montgomery_add(a, b, pt, qt, p), p),
{
    lemma_is_neutral_iff(pt, p);
    lemma_is_neutral_iff(qt, p);
    lemma_mod_small(0, p);
    lemma_mod_small(1, p);
    if pt.2 != 0 && qt.2 != 0 {
        let ap = affine_of(pt, p);
        let aq = affine_of(qt, p);
        lemma_affine_of_same_point(pt, p);
        lemma_affine_of_same_point(qt, p);
        let (x1, y1, x2, y2) = (ap.0, ap.1, aq.0, aq.1);
        if aq.0 == ap.0 && fadd(aq.1, ap.1, p) == 0 {
        } else {
            let lambda = if projective_eq(pt, qt, p) {
                fdiv(montgomery_tangent_num(a, x1, p), montgomery_tangent_den(b, y1, p), p)
            } else {
                fdiv(fsub(y2, y1, p), fsub(x2, x1, p), p)
            };
            let r = montgomery_line_sum(a, b, lambda, x1, y1, x2, p);
            let x3 = (((lambda * lambda) * b) - (x1 + x2)) - a;
            let y3 = (lambda * (x1 - x3)) - y1;
            lemma_line_sum_congruent(a, b, lambda, x1, y1, x2, p);
            lemma_mod_range(r.0, p);
            lemma_mod_range(r.1, p);
            lemma_mont_on_curve_congruence(a, b, x1, y1, p);
            lemma_mont_on_curve_congruence(a, b, x2, y2, p);
            if projective_eq(pt, qt, p) {
                lemma_projective_eq_same_affine(pt, qt, p);
                // lambda (2 b y1) = 3 x1^2 + 2 a x1 + 1
                let num = montgomery_tangent_num(a, x1, p);
                let den = montgomery_tangent_den(b, y1, p);
                lemma_mod_range(fmul(2, b, p) * y1, p);
                lemma_mod_small(den, p);
                lemma_finv_exists(den, p);
                crate::field::arithmetic::lemma_fdiv_mul_cancel(num, den, p);
                lemma_fmul_assoc(2, b, y1, p);
                lemma_fmul_mod(lambda, den, p);
                lemma_fmul_mod(lambda, (2 * b) * y1, p);
                lemma_fmul_mod(3, x1 * x1, p);
                lemma_fmul_assoc(2, a, x1, p);
                lemma_fadd_fsub_mod(3 * (x1 * x1), (2 * a) * x1, p);
                lemma_fadd_fsub_mod(3 * (x1 * x1), ((2 * a) * x1) % p, p);
                lemma_fadd_fsub_mod(fadd(fmul(3, fmul(x1, x1, p), p), fmul(fmul(2, a, p), x1, p), p), 1, p);
                lemma_add_mod_noop(3 * (x1 * x1), (2 * a) * x1, p);
                lemma_fadd_fsub_mod(3 * (x1 * x1) + (2 * a) * x1, 1, p);
                lemma_mod_range(
                    fadd(fmul(3, fmul(x1, x1, p), p), fmul(fmul(2, a, p), x1, p), p) + 1,
                    p,
                );
                lemma_mod_small(num, p);
                assert(fmul(lambda, den, p) == num);
                assert((lambda * ((2 * b) * y1)) % p == num);
                assert(fmul(3, fmul(x1, x1, p), p) == (3 * (x1 * x1)) % p);
                assert(fmul(fmul(2, a, p), x1, p) == ((2 * a) * x1) % p);
                assert(num == (((3 * (x1 * x1)) + ((2 * a) * x1)) + 1) % p);
                let lt = (lambda * ((2 * b) * y1)) - (((3 * (x1 * x1)) + ((2 * a) * x1)) + 1);
                lemma_mod_equivalence(lambda * ((2 * b) * y1), ((3 * (x1 * x1)) + ((2 * a) * x1)) + 1, p);
                assert(lt % p == 0);
                let q = lemma_tangent_identity(a, b, lambda, x1, y1);
                lemma_mul_mod_noop_right(q.0, lt, p);
                lemma_mul_mod_noop_right(q.1, montgomery_poly(a, b, x1, y1), p);
                lemma_add_mod_noop(q.0 * lt, q.1 * montgomery_poly(a, b, x1, y1), p);
                assert(q.0 * 0 == 0 && q.1 * 0 == 0);
                assert(x1 + x2 == x1 + x1);
                assert(montgomery_poly(a, b, x3, y3) % p == 0);
            } else {
                // lambda (x2 - x1) = y2 - y1, and x2 - x1 is invertible
                let m = fsub(x2, x1, p);
                let n = fsub(y2, y1, p);
                lemma_mod_range(x2 - x1, p);
                lemma_mod_small(m, p);
                lemma_finv_exists(m, p);
                crate::field::arithmetic::lemma_fdiv_mul_cancel(n, m, p);
                lemma_fmul_mod(lambda, x2 - x1, p);
                lemma_mod_twice(y2 - y1, p);
                let lc = (lambda * (x2 - x1)) - (y2 - y1);
                lemma_mod_equivalence(lambda * (x2 - x1), y2 - y1, p);
                let q = lemma_chord_identity(a, b, lambda, x1, y1, x2, y2);
                lemma_mul_mod_noop_right(q.0, lc, p);
                lemma_mul_mod_noop_right(q.1, montgomery_poly(a, b, x1, y1), p);
                lemma_mul_mod_noop_right(q.2, montgomery_poly(a, b, x2, y2), p);
                lemma_add_mod_noop(q.0 * lc, q.1 * montgomery_poly(a, b, x1, y1), p);
                lemma_add_mod_noop(
                    q.0 * lc + q.1 * montgomery_poly(a, b, x1, y1),
                    q.2 * montgomery_poly(a, b, x2, y2),
                    p,
                );
                assert(q.0 * 0 == 0 && q.1 * 0 == 0 && q.2 * 0 == 0);
                let g = montgomery_poly(a, b, x3, y3);
                assert((g * (x2 - x1)) % p == 0);
                if g % p != 0 {
                    lemma_fmul_nonzero(g, x2 - x1, p);
                }
            }
            lemma_mont_poly_congruent(a, b, r.0, r.1, x3, y3, p);
            lemma_mont_on_curve_congruence(a, b, r.0, r.1, p);
            lemma_finv_one(p);
            lemma_mod_small(r.0, p);
            lemma_mod_small(r.1, p);
            lemma_fmul_one_zero(r.0, p);
            lemma_fmul_one_zero(r.1, p);
        }
    }
}

/// Law: on a Montgomery curve, the chord-and-tangent sum of two points of
/// the curve (or at infinity), when defined, is at infinity or on the curve.
pub proof fn lemma_add_on_curve<E: IsMontgomery>(
    pt: MontgomeryProjectivePoint<E>,
    qt: MontgomeryProjectivePoint<E>,
)
    requires
        montgomery_on_curve_or_infinity(E::spec_a(), E::spec_b(), pt@, E::BaseField::modulus()),
        montgomery_on_curve_or_infinity(E::spec_a(), E::spec_b(), qt@, E::BaseField::modulus()),
        MontgomeryProjectivePoint::<E>::spec_defined(pt@, qt@),
    ensures
        montgomery_on_curve_or_infinity(
            E::spec_a(),
            E::spec_b(),
            MontgomeryProjectivePoint::<E>::spec_operate(pt@, qt@),
            E::BaseField::modulus(),
        ),
{
    pt.lemma_range();
    qt.lemma_range();
    lemma_sum_on_curve(E::spec_a(), E::spec_b(), pt@, qt@, E::BaseField::modulus());
}

/// Every step of double-and-add from points of a curve with `b != 0` is
/// defined and stays on the curve or at infinity.
proof fn lemma_double_and_add_on_curve<E: IsMontgomery>(acc: Coordinates, base: Coordinates, e: nat)
    requires
        is_prime(E::BaseField::modulus()),
        E::spec_b() % E::BaseField::modulus() != 0,
        coordinates_in_range(acc, E::BaseField::modulus()),
        coordinates_in_range(base, E::BaseField::modulus()),
        montgomery_on_curve_or_infinity(E::spec_a(), E::spec_b(), acc, E::BaseField::modulus()),
        montgomery_on_curve_or_infinity(E::spec_a(), E::spec_b(), base, E::BaseField::modulus()),
    ensures
        double_and_add_defined::<MontgomeryProjectivePoint<E>>(acc, base, e),
        montgomery_on_curve_or_infinity(
            E::spec_a(),
            E::spec_b(),
            double_and_add::<MontgomeryProjectivePoint<E>>(acc, base, e),
            E::BaseField::modulus(),
        ),
    decreases e,
{
    let p = E::BaseField::modulus();
    let (a, b) = (E::spec_a(), E::spec_b());
    if e > 0 {
        lemma_defined_on_curve(a, b, base, base, p);
        lemma_sum_on_curve(a, b, base, base, p);
        if e % 2 == 1 {
            lemma_defined_on_curve(a, b, acc, base, p);
            lemma_sum_on_curve(a, b, acc, base, p);
            lemma_double_and_add_on_curve::<E>(
                montgomery_add(a, b, acc, base, p),
                montgomery_add(a, b, base, base, p),
                e / 2,
            );
        } else {
            lemma_double_and_add_on_curve::<E>(acc, montgomery_add(a, b, base, base, p), e / 2);
        }
    }
}

/// Law: on a Montgomery curve with `b != 0`, adding a point of the curve
/// (or at infinity) to itself any number of times by double-and-add is
/// always defined, and the result is on the curve or at infinity.
pub proof fn lemma_double_and_add_multiple_on_curve<E: IsMontgomery>(pt: MontgomeryProjectivePoint<E>, n: nat)
    requires
        E::spec_b() % E::BaseField::modulus() != 0,
        montgomery_on_curve_or_infinity(E::spec_a(), E::spec_b(), pt@, E::BaseField::modulus()),
    ensures
        double_and_add_defined::<MontgomeryProjectivePoint<E>>(montgomery_neutral(), pt@, n),
        montgomery_on_curve_or_infinity(
            E::spec_a(),
            E::spec_b(),
            double_and_add_multiple::<MontgomeryProjectivePoint<E>>(pt@, n),
            E::BaseField::modulus(),
        ),
{
    let p = E::BaseField::modulus();
    pt.lemma_range();
    lemma_mod_small(0, p);
    lemma_mod_small(1, p);
    lemma_double_and_add_on_curve::<E>(montgomery_neutral(), pt@, n);
}


/// Law: `==` on Montgomery points is equality of the points they stand
/// for. Two finite points are equal exactly when their affine forms agree, so
/// two points that share `x` but not `y`, or `y` but not `x`, are different.
/// Two points with `z = 0` are equal, and a finite point equals a point with
/// `z = 0` only when that point is `[0: 0: 0]`. The relation is symmetric.
pub proof fn lemma_eq_is_same_point<E: IsMontgomery>(pt: MontgomeryProjectivePoint<E>, qt: MontgomeryProjectivePoint<E>)
    ensures
        pt@.2 != 0 && qt@.2 != 0 ==> (pt.eq_spec(&qt) <==> affine_of(pt@, E::BaseField::modulus())
            == affine_of(qt@, E::BaseField::modulus())),
        pt@.2 != 0 && qt@.2 != 0 && pt@.0 * qt@.2 % E::BaseField::modulus() != qt@.0 * pt@.2
            % E::BaseField::modulus() ==> !pt.eq_spec(&qt),
        pt@.2 != 0 && qt@.2 != 0 && pt@.1 * qt@.2 % E::BaseField::modulus() != qt@.1 * pt@.2
            % E::BaseField::modulus() ==> !pt.eq_spec(&qt),
        pt@.2 == 0 && qt@.2 == 0 ==> pt.eq_spec(&qt),
        pt@.2 != 0 && qt@.2 == 0 ==> (pt.eq_spec(&qt) <==> (qt@.0 == 0 && qt@.1 == 0)),
        pt@.2 == 0 && qt@.2 != 0 ==> (pt.eq_spec(&qt) <==> (pt@.0 == 0 && pt@.1 == 0)),
        pt.eq_spec(&qt) == qt.eq_spec(&pt),
{
    let p = E::BaseField::modulus();
    pt.lemma_range();
    qt.lemma_range();
    lemma_projective_eq_cases(pt@, qt@, p);
    lemma_projective_eq_cases(qt@, pt@, p);
    lemma_fmul_comm(qt@.0, pt@.2, p);
    lemma_fmul_comm(pt@.1, qt@.2, p);
}

/// Law: a point is the neutral element exactly when its `z` is zero; no
/// finite point is neutral.
pub proof fn lemma_is_neutral_exactly<E: IsMontgomery>(pt: MontgomeryProjectivePoint<E>)
    ensures
        MontgomeryProjectivePoint::<E>::spec_is_neutral(pt@) <==> pt@.2 == 0,
{
    pt.lemma_range();
    lemma_is_neutral_iff(pt@, E::BaseField::modulus());
}

} // verus!
