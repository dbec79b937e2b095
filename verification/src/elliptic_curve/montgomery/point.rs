//! Points of Montgomery curves in projective coordinates.
use crate::cyclic_group::{
    double_and_add_defined, double_and_add_multiple, operate_with_self, IsGroup,
};
use crate::elliptic_curve::montgomery::traits::{montgomery_equation, IsMontgomery};
use crate::elliptic_curve::point::{
    affine_of, coordinates_in_range, projective_eq, Coordinates, ProjectivePoint,
};
use crate::elliptic_curve::traits::{EllipticCurveError, FromAffine, IsEllipticCurve};
use crate::field::arithmetic::{
    fadd, fdiv, fmul, fneg, fsub, is_prime, lemma_fmul_mod, lemma_mod_small,
};
use crate::field::element::FieldElement;
use crate::field::traits::IsField;
use vstd::prelude::*;

verus! {

/// The neutral element, the point at infinity `[0: 1: 0]`.
pub open spec fn montgomery_neutral() -> Coordinates {
    (0, 1, 0)
}

/// The additive inverse `[x: -y: z]`.
pub open spec fn montgomery_neg(pt: Coordinates, p: int) -> Coordinates {
    (pt.0, fneg(pt.1, p), pt.2)
}

/// Numerator of the tangent slope at `(x1, y1)`: `3 x1^2 + 2 a x1 + 1`.
pub open spec fn montgomery_tangent_num(a: int, x1: int, p: int) -> int {
    fadd(fadd(fmul(3, fmul(x1, x1, p), p), fmul(fmul(2, a, p), x1, p), p), 1, p)
}

/// Denominator of the tangent slope at `(x1, y1)`: `2 b y1`.
pub open spec fn montgomery_tangent_den(b: int, y1: int, p: int) -> int {
    fmul(fmul(2, b, p), y1, p)
}

/// The third intersection of the line of slope `lambda` through `(x1, y1)`
/// and `(x2, _)`, reflected: `x3 = b lambda^2 - (x1 + x2) - a`,
/// `y3 = lambda (x1 - x3) - y1`, returned with `z = 1`.
pub open spec fn montgomery_line_sum(
    a: int,
    b: int,
    lambda: int,
    x1: int,
    y1: int,
    x2: int,
    p: int,
) -> Coordinates {
    let new_x = fsub(fsub(fmul(fmul(lambda, lambda, p), b, p), fadd(x1, x2, p), p), a, p);
    let new_y = fsub(fmul(lambda, fsub(x1, new_x, p), p), y1, p);
    (new_x, new_y, 1)
}

/// The chord-and-tangent sum of two projective points of a Montgomery curve.
pub open spec fn montgomery_add(a: int, b: int, pt: Coordinates, qt: Coordinates, p: int) -> Coordinates {
    if projective_eq(pt, montgomery_neutral(), p) {
        qt
    } else if projective_eq(qt, montgomery_neutral(), p) {
        pt
    } else {
        let ap = affine_of(pt, p);
        let aq = affine_of(qt, p);
        if aq.0 == ap.0 && fadd(aq.1, ap.1, p) == 0 {
            montgomery_neutral()
        } else if projective_eq(pt, qt, p) {
            let lambda = fdiv(
                montgomery_tangent_num(a, ap.0, p),
                montgomery_tangent_den(b, ap.1, p),
                p,
            );
            montgomery_line_sum(a, b, lambda, ap.0, ap.1, aq.0, p)
        } else {
            let lambda = fdiv(fsub(aq.1, ap.1, p), fsub(aq.0, ap.0, p), p);
            montgomery_line_sum(a, b, lambda, ap.0, ap.1, aq.0, p)
        }
    }
}

/// The sum of `pt` and `qt` is defined: the slope's denominator does not
/// vanish in the branch that divides by it.
pub open spec fn montgomery_add_defined(b: int, pt: Coordinates, qt: Coordinates, p: int) -> bool {
    if projective_eq(pt, montgomery_neutral(), p) || projective_eq(qt, montgomery_neutral(), p) {
        true
    } else {
        let ap = affine_of(pt, p);
        let aq = affine_of(qt, p);
        if aq.0 == ap.0 && fadd(aq.1, ap.1, p) == 0 {
            true
        } else if projective_eq(pt, qt, p) {
            montgomery_tangent_den(b, ap.1, p) != 0
        } else {
            fsub(aq.0, ap.0, p) != 0
        }
    }
}

/// A point of the Montgomery curve `E` in projective coordinates.
#[derive(Clone, Copy, Debug)]
pub struct MontgomeryProjectivePoint<E: IsEllipticCurve>(ProjectivePoint<E>);

impl<E: IsEllipticCurve> View for MontgomeryProjectivePoint<E> {
    type V = Coordinates;

    closed spec fn view(&self) -> Coordinates {
        self.0@
    }
}

impl<E: IsEllipticCurve> MontgomeryProjectivePoint<E> {
    /// Creates an elliptic curve point giving the projective [x: y: z] coordinates.
    pub fn new(value: [FieldElement<E::BaseField>; 3]) -> (r: Self)
        ensures
            r@ == (value[0]@, value[1]@, value[2]@),
    {
        Self(ProjectivePoint::new(value))
    }

    /// Returns the `x` coordinate of the point.
    pub fn x(&self) -> (r: &FieldElement<E::BaseField>)
        ensures
            r@ == self@.0,
    {
        self.0.x()
    }

    /// Returns the `y` coordinate of the point.
    pub fn y(&self) -> (r: &FieldElement<E::BaseField>)
        ensures
            r@ == self@.1,
    {
        self.0.y()
    }

    /// Returns the `z` coordinate of the point.
    pub fn z(&self) -> (r: &FieldElement<E::BaseField>)
        ensures
            r@ == self@.2,
    {
        self.0.z()
    }

    /// Returns a tuple [x, y, z] with the coordinates of the point.
    pub fn coordinates(&self) -> (r: &[FieldElement<E::BaseField>; 3])
        ensures
            (r[0]@, r[1]@, r[2]@) == self@,
    {
        self.0.coordinates()
    }

    /// Creates the same point in affine coordinates. That is,
    /// returns [x / z: y / z: 1] where `self` is [x: y: z].
    /// The point at infinity (`z = 0`) has no affine form.
    pub fn to_affine(&self) -> (r: Self)
        requires
            self@.2 != 0,
        ensures
            r@ == affine_of(self@, E::BaseField::modulus()),
    {
        Self(self.0.to_affine())
    }

    /// Returns the additive inverse of the projective point `p`
    pub fn neg(&self) -> (r: Self)
        ensures
            r@ == montgomery_neg(self@, E::BaseField::modulus()),
    {
        let c = self.coordinates();
        Self::new([c[0], c[1].neg(), c[2]])
    }

    /// Every coordinate lies in `[0, modulus)`, and the modulus is a prime.
    pub proof fn lemma_range(&self)
        ensures
            coordinates_in_range(self@, E::BaseField::modulus()),
            is_prime(E::BaseField::modulus()),
    {
        self.0.lemma_range();
    }
}

impl<E: IsEllipticCurve> PartialEq for MontgomeryProjectivePoint<E> {
    fn eq(&self, other: &Self) -> (r: bool) {
        self.0.equals(&other.0)
    }
}

impl<E: IsEllipticCurve> vstd::std_specs::cmp::PartialEqSpecImpl for MontgomeryProjectivePoint<E> {
    open spec fn obeys_eq_spec() -> bool {
        true
    }

    open spec fn eq_spec(&self, other: &Self) -> bool {
        projective_eq(self@, other@, E::BaseField::modulus())
    }
}

impl<E: IsEllipticCurve> Eq for MontgomeryProjectivePoint<E> {

}

impl<E: IsMontgomery> FromAffine<E::BaseField> for MontgomeryProjectivePoint<E> {
    fn from_affine(x: FieldElement<E::BaseField>, y: FieldElement<E::BaseField>) -> (r: Result<
        Self,
        EllipticCurveError,
    >)
        ensures
            r is Ok <==> montgomery_equation(
                E::spec_a(),
                E::spec_b(),
                x@,
                y@,
                1,
                E::BaseField::modulus(),
            ) == 0,
            r matches Ok(pt) ==> pt@ == (x@, y@, 1int),
            r matches Err(e) ==> e == EllipticCurveError::InvalidPoint,
    {
        let coordinates = [x, y, FieldElement::one()];
        if !E::defining_equation(&coordinates).is_zero() {
            Err(EllipticCurveError::InvalidPoint)
        } else {
            Ok(MontgomeryProjectivePoint::new(coordinates))
        }
    }
}

/// A point that is not projectively equal to `[0: 1: 0]` has `z != 0`.
proof fn lemma_not_neutral_is_finite(pt: Coordinates, p: int)
    requires
        p > 1,
        0 <= pt.2 < p,
        !projective_eq(pt, montgomery_neutral(), p),
    ensures
        pt.2 != 0,
{
    lemma_mod_small(0, p);
    lemma_mod_small(1, p);
    if pt.2 == 0 {
        assert(fmul(pt.0, 0, p) == 0);
        assert(fmul(0, 0, p) == 0);
        assert(fmul(pt.1, 0, p) == 0);
        assert(fmul(1, 0, p) == 0);
    }
}

impl<E: IsMontgomery> IsGroup for MontgomeryProjectivePoint<E> {
    open spec fn spec_neutral() -> Coordinates {
        montgomery_neutral()
    }

    open spec fn spec_is_neutral(a: Coordinates) -> bool {
        projective_eq(a, montgomery_neutral(), E::BaseField::modulus())
    }

    open spec fn spec_defined(a: Coordinates, b: Coordinates) -> bool {
        montgomery_add_defined(E::spec_b(), a, b, E::BaseField::modulus())
    }

    open spec fn spec_operate(a: Coordinates, b: Coordinates) -> Coordinates {
        montgomery_add(E::spec_a(), E::spec_b(), a, b, E::BaseField::modulus())
    }

    /// The point at infinity.
    fn neutral_element() -> (r: Self) {
        Self::new([FieldElement::zero(), FieldElement::one(), FieldElement::zero()])
    }

    fn is_neutral_element(&self) -> (r: bool) {
        let n = Self::neutral_element();
        self.0.equals(&n.0)
    }

    /// Computes the addition of `self` and `other`.
    /// Taken from "Moonmath" (Definition 5.2.2.1, page 94)
    fn operate_with(&self, other: &Self) -> (r: Self) {
        let ghost p = E::BaseField::modulus();
        proof {
            self.lemma_range();
            other.lemma_range();
        }
        // One of them is the neutral element.
        if self.is_neutral_element() {
            *other
        } else if other.is_neutral_element() {
            *self
        } else {
            proof {
                lemma_not_neutral_is_finite(self@, p);
                lemma_not_neutral_is_finite(other@, p);
            }
            let p1 = self.to_affine();
            let p2 = other.to_affine();
            let c1 = p1.coordinates();
            let c2 = p2.coordinates();
            let x1 = c1[0];
            let y1 = c1[1];
            let x2 = c2[0];
            let y2 = c2[1];
            // In this case P == -Q
            if x2 == x1 && y2.add(&y1).is_zero() {
                Self::neutral_element()
            } else {
                let lambda = if self.0.equals(&other.0) {
                    // The points are the same P == Q: the slope of the tangent.
                    let three = FieldElement::<E::BaseField>::from_u64(3);
                    let two = FieldElement::<E::BaseField>::from_u64(2);
                    let one = FieldElement::<E::BaseField>::from_u64(1);
                    proof {
                        lemma_mod_small(3int % p, p);
                        lemma_fmul_mod(3, x1@ * x1@ % p, p);
                        lemma_fmul_mod(2, E::spec_a(), p);
                        lemma_fmul_mod(2, E::spec_b(), p);
                        lemma_mod_small(1, p);
                    }
                    let num = three.mul(&x1.square()).add(&two.mul(&E::a()).mul(&x1)).add(&one);
                    let den = two.mul(&E::b()).mul(&y1);
                    num.div(&den)
                } else {
                    // In the rest of the cases x1 != x2: the slope of the chord.
                    y2.sub(&y1).div(&x2.sub(&x1))
                };
                let new_x = lambda.square().mul(&E::b()).sub(&x1.add(&x2)).sub(&E::a());
                let new_y = lambda.mul(&x1.sub(&new_x)).sub(&y1);
                Self::new([new_x, new_y, FieldElement::one()])
            }
        }
    }
}

impl<E: IsMontgomery> MontgomeryProjectivePoint<E> {
    /// `self` added to itself `exponent` times, by double-and-add.
    pub fn operate_with_self(&self, exponent: u64) -> (r: Self)
        requires
            double_and_add_defined::<Self>(montgomery_neutral(), self@, exponent as nat),
        ensures
            r@ == double_and_add_multiple::<Self>(self@, exponent as nat),
    {
        operate_with_self(self, exponent)
    }
}

} // verus!
