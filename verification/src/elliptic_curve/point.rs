//! Points in projective coordinates `[x: y: z]`.
use crate::elliptic_curve::traits::IsEllipticCurve;
use crate::field::arithmetic::{
    finv, fmul, is_prime, lemma_finv_exists, lemma_fmul_nonzero, lemma_fmul_assoc, lemma_fmul_comm, lemma_finv_one, lemma_fmul_inv_cancel, lemma_fmul_one_zero,
    lemma_mod_range, lemma_mod_small,
};
use crate::field::element::FieldElement;
use crate::field::traits::{IsField, IsPrimeField};
use vstd::arithmetic::div_mod::{lemma_mod_equivalence, lemma_mul_mod_noop_left, lemma_mul_mod_noop_right};
use vstd::arithmetic::mul::lemma_mul_is_distributive_sub_other_way;
use vstd::prelude::*;

verus! {

/// Coordinates `(x, y, z)` of a projective point, each an integer modulo the
/// field's characteristic.
pub type Coordinates = (int, int, int);

/// `P` and `Q` stand for the same projective point:
/// `x_P * z_Q = z_P * x_Q` and `y_P * z_Q = y_Q * z_P`.
pub open spec fn projective_eq(a: Coordinates, b: Coordinates, p: int) -> bool {
    &&& fmul(a.0, b.2, p) == fmul(a.2, b.0, p)
    &&& fmul(a.1, b.2, p) == fmul(b.1, a.2, p)
}

/// `[x / z: y / z: 1]`, the affine representative of `[x: y: z]`.
pub open spec fn affine_of(a: Coordinates, p: int) -> Coordinates {
    let inv_z = finv(a.2, p);
    (fmul(a.0, inv_z, p), fmul(a.1, inv_z, p), 1)
}

/// Every coordinate lies in `[0, p)`.
pub open spec fn coordinates_in_range(a: Coordinates, p: int) -> bool {
    &&& 0 <= a.0 < p
    &&& 0 <= a.1 < p
    &&& 0 <= a.2 < p
}

/// The affine form of a finite point stands for the same projective point,
/// and taking the affine form again changes nothing.
pub proof fn lemma_affine_of_same_point(a: Coordinates, p: int)
    requires
        is_prime(p),
        coordinates_in_range(a, p),
        a.2 != 0,
    ensures
        projective_eq(affine_of(a, p), a, p),
        coordinates_in_range(affine_of(a, p), p),
        affine_of(affine_of(a, p), p) == affine_of(a, p),
{
    let iz = finv(a.2, p);
    lemma_mod_small(a.2, p);
    lemma_finv_exists(a.2, p);
    let ax = fmul(a.0, iz, p);
    let ay = fmul(a.1, iz, p);
    lemma_mod_range(a.0 * iz, p);
    lemma_mod_range(a.1 * iz, p);
    lemma_fmul_inv_cancel(a.0, a.2, p);
    lemma_fmul_inv_cancel(a.1, a.2, p);
    lemma_fmul_one_zero(a.0, p);
    lemma_fmul_one_zero(a.1, p);
    lemma_fmul_one_zero(ax, p);
    lemma_fmul_one_zero(ay, p);
    lemma_finv_one(p);
}

/// `u * w_u * (v * w_v)` and `u * w_u` agree modulo `p` when `w_v` inverts `v`.
proof fn lemma_drop_unit(u: int, wu: int, v: int, wv: int, p: int)
    requires
        p > 1,
        (v * wv) % p == 1,
    ensures
        (u * wu * (v * wv)) % p == (u * wu) % p,
{
    lemma_mul_mod_noop_right(u * wu, v * wv, p);
}

/// From `a0 * b2 = a2 * b0 (mod p)` to `a0 / a2 = b0 / b2`.
proof fn lemma_cross_ratio(a0: int, a2: int, b0: int, b2: int, p: int)
    requires
        is_prime(p),
        a2 % p != 0,
        b2 % p != 0,
        fmul(a0, b2, p) == fmul(a2, b0, p),
    ensures
        fmul(a0, finv(a2, p), p) == fmul(b0, finv(b2, p), p),
{
    lemma_finv_exists(a2, p);
    lemma_finv_exists(b2, p);
    let wa = finv(a2, p);
    let wb = finv(b2, p);
    let e = a0 * b2 - a2 * b0;
    lemma_mod_equivalence(a0 * b2, a2 * b0, p);
    lemma_mul_mod_noop_left(e, wa * wb, p);
    lemma_mod_small(0, p);
    assert(0 * (wa * wb) == 0);
    let w = wa * wb;
    assert(a0 * wa * (b2 * wb) == (a0 * b2) * w) by (nonlinear_arith)
        requires
            w == wa * wb,
    ;
    assert(b0 * wb * (a2 * wa) == (a2 * b0) * w) by (nonlinear_arith)
        requires
            w == wa * wb,
    ;
    lemma_mul_is_distributive_sub_other_way(w, a0 * b2, a2 * b0);
    lemma_mod_equivalence(a0 * wa * (b2 * wb), b0 * wb * (a2 * wa), p);
    lemma_drop_unit(a0, wa, b2, wb, p);
    lemma_drop_unit(b0, wb, a2, wa, p);
}

/// Two finite points that are projectively equal have the same affine form.
pub proof fn lemma_projective_eq_same_affine(a: Coordinates, b: Coordinates, p: int)
    requires
        is_prime(p),
        coordinates_in_range(a, p),
        coordinates_in_range(b, p),
        a.2 != 0,
        b.2 != 0,
        projective_eq(a, b, p),
    ensures
        affine_of(a, p) == affine_of(b, p),
{
    lemma_mod_small(a.2, p);
    lemma_mod_small(b.2, p);
    lemma_cross_ratio(a.0, a.2, b.0, b.2, p);
    lemma_fmul_comm(b.1, a.2, p);
    lemma_cross_ratio(a.1, a.2, b.1, b.2, p);
}

/// Two finite points with the same affine form are projectively equal.
pub proof fn lemma_same_affine_projective_eq(a: Coordinates, b: Coordinates, p: int)
    requires
        is_prime(p),
        coordinates_in_range(a, p),
        coordinates_in_range(b, p),
        a.2 != 0,
        b.2 != 0,
        affine_of(a, p) == affine_of(b, p),
    ensures
        projective_eq(a, b, p),
{
    let aa = affine_of(a, p);
    lemma_mod_small(a.2, p);
    lemma_mod_small(b.2, p);
    lemma_finv_exists(a.2, p);
    lemma_finv_exists(b.2, p);
    lemma_fmul_inv_cancel(a.0, a.2, p);
    lemma_fmul_inv_cancel(a.1, a.2, p);
    lemma_fmul_inv_cancel(b.0, b.2, p);
    lemma_fmul_inv_cancel(b.1, b.2, p);
    lemma_fmul_assoc(aa.0, a.2, b.2, p);
    lemma_fmul_assoc(aa.0, b.2, a.2, p);
    lemma_fmul_assoc(aa.1, a.2, b.2, p);
    lemma_fmul_assoc(aa.1, b.2, a.2, p);
    lemma_fmul_comm(a.2, b.0, p);
    assert(aa.0 * a.2 * b.2 == aa.0 * b.2 * a.2) by (nonlinear_arith);
    assert(aa.1 * a.2 * b.2 == aa.1 * b.2 * a.2) by (nonlinear_arith);
}

/// Projective equality, case by case. Two finite points are equal exactly
/// when their affine forms agree; two points with `z = 0` are always equal;
/// a finite point equals a point `b` with `z = 0` exactly when `b` is
/// `[0: 0: 0]`.
pub proof fn lemma_projective_eq_cases(a: Coordinates, b: Coordinates, p: int)
    requires
        is_prime(p),
        coordinates_in_range(a, p),
        coordinates_in_range(b, p),
    ensures
        a.2 != 0 && b.2 != 0 ==> (projective_eq(a, b, p) <==> affine_of(a, p) == affine_of(b, p)),
        a.2 == 0 && b.2 == 0 ==> projective_eq(a, b, p),
        a.2 != 0 && b.2 == 0 ==> (projective_eq(a, b, p) <==> (b.0 == 0 && b.1 == 0)),
        a.2 == 0 && b.2 != 0 ==> (projective_eq(a, b, p) <==> (a.0 == 0 && a.1 == 0)),
{
    if a.2 != 0 && b.2 != 0 {
        if projective_eq(a, b, p) {
            lemma_projective_eq_same_affine(a, b, p);
        }
        if affine_of(a, p) == affine_of(b, p) {
            lemma_same_affine_projective_eq(a, b, p);
        }
    } else {
        lemma_fmul_one_zero(a.0, p);
        lemma_fmul_one_zero(a.1, p);
        lemma_fmul_one_zero(a.2, p);
        lemma_fmul_one_zero(b.0, p);
        lemma_fmul_one_zero(b.1, p);
        lemma_fmul_one_zero(b.2, p);
        lemma_fmul_comm(a.2, b.0, p);
        lemma_fmul_comm(b.1, a.2, p);
        lemma_fmul_comm(a.1, b.2, p);
        lemma_fmul_comm(a.0, b.2, p);
        if a.2 != 0 {
            lemma_mod_small(a.2, p);
            if b.0 != 0 {
                lemma_mod_small(b.0, p);
                lemma_fmul_nonzero(a.2, b.0, p);
            }
            if b.1 != 0 {
                lemma_mod_small(b.1, p);
                lemma_fmul_nonzero(b.1, a.2, p);
            }
        }
        if b.2 != 0 {
            lemma_mod_small(b.2, p);
            if a.0 != 0 {
                lemma_mod_small(a.0, p);
                lemma_fmul_nonzero(a.0, b.2, p);
            }
            if a.1 != 0 {
                lemma_mod_small(a.1, p);
                lemma_fmul_nonzero(a.1, b.2, p);
            }
        }
    }
}

/// Projective equality is transitive on finite points.
pub proof fn lemma_projective_eq_transitive(a: Coordinates, b: Coordinates, c: Coordinates, p: int)
    requires
        is_prime(p),
        coordinates_in_range(a, p),
        coordinates_in_range(b, p),
        coordinates_in_range(c, p),
        a.2 != 0,
        b.2 != 0,
        c.2 != 0,
        projective_eq(a, b, p),
        projective_eq(b, c, p),
    ensures
        projective_eq(a, c, p),
{
    lemma_projective_eq_same_affine(a, b, p);
    lemma_projective_eq_same_affine(b, c, p);
    lemma_same_affine_projective_eq(a, c, p);
}

/// Projective equality is symmetric.
pub proof fn lemma_projective_eq_symmetric(a: Coordinates, b: Coordinates, p: int)
    ensures
        projective_eq(a, b, p) == projective_eq(b, a, p),
{
    lemma_fmul_comm(a.0, b.2, p);
    lemma_fmul_comm(a.2, b.0, p);
}

/// Projective equality is reflexive.
pub proof fn lemma_projective_eq_reflexive(a: Coordinates, p: int)
    ensures
        projective_eq(a, a, p),
{
    lemma_fmul_comm(a.0, a.2, p);
}

/// A point of the curve `E` in projective coordinates.
#[derive(Clone, Copy, Debug)]
pub struct ProjectivePoint<E: IsEllipticCurve> {
    pub value: [FieldElement<E::BaseField>; 3],
}

impl<E: IsEllipticCurve> View for ProjectivePoint<E> {
    type V = Coordinates;

    open spec fn view(&self) -> Coordinates {
        (self.value[0]@, self.value[1]@, self.value[2]@)
    }
}

impl<E: IsEllipticCurve> ProjectivePoint<E> {
    /// The point with projective coordinates `[x: y: z]`.
    pub fn new(value: [FieldElement<E::BaseField>; 3]) -> (r: Self)
        ensures
            r.value == value,
    {
        ProjectivePoint { value }
    }

    pub fn x(&self) -> (r: &FieldElement<E::BaseField>)
        ensures
            *r == self.value[0],
    {
        &self.value[0]
    }

    pub fn y(&self) -> (r: &FieldElement<E::BaseField>)
        ensures
            *r == self.value[1],
    {
        &self.value[1]
    }

    pub fn z(&self) -> (r: &FieldElement<E::BaseField>)
        ensures
            *r == self.value[2],
    {
        &self.value[2]
    }

    pub fn coordinates(&self) -> (r: &[FieldElement<E::BaseField>; 3])
        ensures
            *r == self.value,
    {
        &self.value
    }

    /// `[x / z: y / z: 1]`; the point at infinity (`z = 0`) has no affine form.
    pub fn to_affine(&self) -> (r: Self)
        requires
            self@.2 != 0,
        ensures
            r@ == affine_of(self@, E::BaseField::modulus()),
    {
        let inv_z = self.value[2].inv();
        let x = self.value[0].mul(&inv_z);
        let y = self.value[1].mul(&inv_z);
        let one = FieldElement::one();
        ProjectivePoint { value: [x, y, one] }
    }

    /// Every coordinate lies in `[0, modulus)`, and the modulus is a prime.
    pub proof fn lemma_range(&self)
        ensures
            coordinates_in_range(self@, E::BaseField::modulus()),
            is_prime(E::BaseField::modulus()),
    {
        E::BaseField::lemma_modulus_is_prime();
        self.value[0].lemma_range();
        self.value[1].lemma_range();
        self.value[2].lemma_range();
    }

    /// Projective equality.
    pub fn equals(&self, other: &Self) -> (r: bool)
        ensures
            r == projective_eq(self@, other@, E::BaseField::modulus()),
    {
        let l1 = self.value[0].mul(&other.value[2]);
        let r1 = self.value[2].mul(&other.value[0]);
        let l2 = self.value[1].mul(&other.value[2]);
        let r2 = other.value[1].mul(&self.value[2]);
        l1 == r1 && l2 == r2
    }
}

impl<E: IsEllipticCurve> PartialEq for ProjectivePoint<E> {
    fn eq(&self, other: &Self) -> (r: bool) {
        self.equals(other)
    }
}

impl<E: IsEllipticCurve> vstd::std_specs::cmp::PartialEqSpecImpl for ProjectivePoint<E> {
    open spec fn obeys_eq_spec() -> bool {
        true
    }

    open spec fn eq_spec(&self, other: &Self) -> bool {
        projective_eq(self@, other@, E::BaseField::modulus())
    }
}

impl<E: IsEllipticCurve> Eq for ProjectivePoint<E> {

}

} // verus!
