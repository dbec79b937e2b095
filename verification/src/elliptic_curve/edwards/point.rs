//! Points of twisted Edwards curves in projective coordinates.
use crate::cyclic_group::{
    double_and_add_defined, double_and_add_multiple, operate_with_self, IsGroup,
};
use crate::elliptic_curve::edwards::traits::{edwards_equation, IsEdwards};
use crate::elliptic_curve::point::{
    affine_of, coordinates_in_range, projective_eq, Coordinates, ProjectivePoint,
};
use crate::elliptic_curve::traits::{EllipticCurveError, FromAffine, IsEllipticCurve};
use crate::field::arithmetic::{fadd, fdiv, fmul, fneg, fsub, is_prime};
use crate::field::element::FieldElement;
use crate::field::traits::IsField;
use vstd::prelude::*;

verus! {

/// The product `d * x1 * x2 * y1 * y2` that both denominators of the Edwards
/// addition law share, modulo `p`.
pub open spec fn edwards_cross_product(d: int, x1: int, y1: int, x2: int, y2: int, p: int) -> int {
    fmul(fmul(fmul(fmul(d, x1, p), x2, p), y1, p), y2, p)
}

/// Denominator of the sum's `x`: `1 + d x1 x2 y1 y2`.
pub open spec fn edwards_den_x(d: int, x1: int, y1: int, x2: int, y2: int, p: int) -> int {
    fadd(1, edwards_cross_product(d, x1, y1, x2, y2, p), p)
}

/// Denominator of the sum's `y`: `1 - d x1 x2 y1 y2`.
pub open spec fn edwards_den_y(d: int, x1: int, y1: int, x2: int, y2: int, p: int) -> int {
    fsub(1, edwards_cross_product(d, x1, y1, x2, y2, p), p)
}

/// The Edwards addition law on affine points `(x1, y1)` and `(x2, y2)`:
/// `((x1 y2 + y1 x2) / (1 + d x1 x2 y1 y2), (y1 y2 - a x1 x2) / (1 - d x1 x2 y1 y2))`,
/// returned with `z = 1`.
pub open spec fn edwards_add_affine(
    a: int,
    d: int,
    x1: int,
    y1: int,
    x2: int,
    y2: int,
    p: int,
) -> Coordinates {
    let num_x = fadd(fmul(x1, y2, p), fmul(y1, x2, p), p);
    let num_y = fsub(fmul(y1, y2, p), fmul(fmul(a, x1, p), x2, p), p);
    (
        fdiv(num_x, edwards_den_x(d, x1, y1, x2, y2, p), p),
        fdiv(num_y, edwards_den_y(d, x1, y1, x2, y2, p), p),
        1,
    )
}

/// The sum of two projective points: both are first brought to affine form.
pub open spec fn edwards_add(a: int, d: int, pt: Coordinates, qt: Coordinates, p: int) -> Coordinates {
    let ap = affine_of(pt, p);
    let aq = affine_of(qt, p);
    edwards_add_affine(a, d, ap.0, ap.1, aq.0, aq.1, p)
}

/// The addition of `pt` and `qt` is defined: neither is at infinity and
/// neither denominator vanishes.
pub open spec fn edwards_add_defined(d: int, pt: Coordinates, qt: Coordinates, p: int) -> bool {
    let ap = affine_of(pt, p);
    let aq = affine_of(qt, p);
    &&& pt.2 != 0
    &&& qt.2 != 0
    &&& edwards_den_x(d, ap.0, ap.1, aq.0, aq.1, p) != 0
    &&& edwards_den_y(d, ap.0, ap.1, aq.0, aq.1, p) != 0
}

/// The neutral element `[0: 1: 1]`.
pub open spec fn edwards_neutral() -> Coordinates {
    (0, 1, 1)
}

/// The additive inverse `[-x: y: z]`.
pub open spec fn edwards_neg(pt: Coordinates, p: int) -> Coordinates {
    (fneg(pt.0, p), pt.1, pt.2)
}

/// A point of the twisted Edwards curve `E` in projective coordinates.
#[derive(Clone, Copy, Debug)]
pub struct EdwardsProjectivePoint<E: IsEllipticCurve>(ProjectivePoint<E>);

impl<E: IsEllipticCurve> View for EdwardsProjectivePoint<E> {
    type V = Coordinates;

    closed spec fn view(&self) -> Coordinates {
        self.0@
    }
}

impl<E: IsEllipticCurve> EdwardsProjectivePoint<E> {
    /// Creates an elliptic curve point giving the projective [x: y: z] coordinates.
    pub fn new(value: [FieldElement<E::BaseField>; 3]) -> (r: Self)
        ensures
            r@ == (value[0]@, value[1]@, value[2]@),
    {
        Self(ProjectivePoint::new(value))
    }

    /// Returns the `x` coordinate of the point.
    pub fn x(&self) -> (r: &FieldElement<E::BaseField>)
        ensures
            r@ == self@.0,
    {
        self.0.x()
    }

    /// Returns the `y` coordinate of the point.
    pub fn y(&self) -> (r: &FieldElement<E::BaseField>)
        ensures
            r@ == self@.1,
    {
        self.0.y()
    }

    /// Returns the `z` coordinate of the point.
    pub fn z(&self) -> (r: &FieldElement<E::BaseField>)
        ensures
            r@ == self@.2,
    {
        self.0.z()
    }

    /// Returns a tuple [x, y, z] with the coordinates of the point.
    pub fn coordinates(&self) -> (r: &[FieldElement<E::BaseField>; 3])
        ensures
            (r[0]@, r[1]@, r[2]@) == self@,
    {
        self.0.coordinates()
    }

    /// Creates the same point in affine coordinates. That is,
    /// returns [x / z: y / z: 1] where `self` is [x: y: z].
    /// The point at infinity (`z = 0`) has no affine form.
    pub fn to_affine(&self) -> (r: Self)
        requires
            self@.2 != 0,
        ensures
            r@ == affine_of(self@, E::BaseField::modulus()),
    {
        Self(self.0.to_affine())
    }

    /// Returns the additive inverse of the projective point `p`
    pub fn neg(&self) -> (r: Self)
        ensures
            r@ == edwards_neg(self@, E::BaseField::modulus()),
    {
        let c = self.coordinates();
        Self::new([c[0].neg(), c[1], c[2]])
    }

    /// Every coordinate lies in `[0, modulus)`, and the modulus is a prime.
    pub proof fn lemma_range(&self)
        ensures
            coordinates_in_range(self@, E::BaseField::modulus()),
            is_prime(E::BaseField::modulus()),
    {
        self.0.lemma_range();
    }
}

impl<E: IsEllipticCurve> PartialEq for EdwardsProjectivePoint<E> {
    fn eq(&self, other: &Self) -> (r: bool) {
        self.0.equals(&other.0)
    }
}

impl<E: IsEllipticCurve> vstd::std_specs::cmp::PartialEqSpecImpl for EdwardsProjectivePoint<E> {
    open spec fn obeys_eq_spec() -> bool {
        true
    }

    open spec fn eq_spec(&self, other: &Self) -> bool {
        projective_eq(self@, other@, E::BaseField::modulus())
    }
}

impl<E: IsEllipticCurve> Eq for EdwardsProjectivePoint<E> {

}

impl<E: IsEdwards> FromAffine<E::BaseField> for EdwardsProjectivePoint<E> {
    fn from_affine(x: FieldElement<E::BaseField>, y: FieldElement<E::BaseField>) -> (r: Result<
        Self,
        EllipticCurveError,
    >)
        ensures
            r is Ok <==> edwards_equation(
                E::spec_a(),
                E::spec_d(),
                x@,
                y@,
                1,
                E::BaseField::modulus(),
            ) == 0,
            r matches Ok(pt) ==> pt@ == (x@, y@, 1int),
            r matches Err(e) ==> e == EllipticCurveError::InvalidPoint,
    {
        let coordinates = [x, y, FieldElement::one()];
        if !E::defining_equation(&coordinates).is_zero() {
            Err(EllipticCurveError::InvalidPoint)
        } else {
            Ok(EdwardsProjectivePoint::new(coordinates))
        }
    }
}

impl<E: IsEdwards> IsGroup for EdwardsProjectivePoint<E> {
    open spec fn spec_neutral() -> Coordinates {
        edwards_neutral()
    }

    open spec fn spec_is_neutral(a: Coordinates) -> bool {
        projective_eq(a, edwards_neutral(), E::BaseField::modulus())
    }

    open spec fn spec_defined(a: Coordinates, b: Coordinates) -> bool {
        edwards_add_defined(E::spec_d(), a, b, E::BaseField::modulus())
    }

    open spec fn spec_operate(a: Coordinates, b: Coordinates) -> Coordinates {
        edwards_add(E::spec_a(), E::spec_d(), a, b, E::BaseField::modulus())
    }

    /// The neutral element `[0: 1: 1]`, the affine point `(0, 1)`.
    fn neutral_element() -> (r: Self) {
        Self::new([FieldElement::zero(), FieldElement::one(), FieldElement::one()])
    }

    fn is_neutral_element(&self) -> (r: bool) {
        let n = Self::neutral_element();
        self.0.equals(&n.0)
    }

    /// Computes the addition of `self` and `other`.
    /// Taken from "Moonmath" (Eq 5.38, page 97)
    fn operate_with(&self, other: &Self) -> (r: Self) {
        let p1 = self.to_affine();
        let p2 = other.to_affine();
        let c1 = p1.coordinates();
        let c2 = p2.coordinates();
        let x1 = c1[0];
        let y1 = c1[1];
        let x2 = c2[0];
        let y2 = c2[1];
        let one = FieldElement::<E::BaseField>::one();
        let num_s1 = x1.mul(&y2).add(&y1.mul(&x2));
        let cross = E::d().mul(&x1).mul(&x2).mul(&y1).mul(&y2);
        let den_s1 = one.add(&cross);
        let num_s2 = y1.mul(&y2).sub(&E::a().mul(&x1).mul(&x2));
        let den_s2 = one.sub(&cross);
        Self::new([num_s1.div(&den_s1), num_s2.div(&den_s2), one])
    }
}

impl<E: IsEdwards> EdwardsProjectivePoint<E> {
    /// `self` added to itself `exponent` times, by double-and-add.
    pub fn operate_with_self(&self, exponent: u64) -> (r: Self)
        requires
            double_and_add_defined::<Self>(edwards_neutral(), self@, exponent as nat),
        ensures
            r@ == double_and_add_multiple::<Self>(self@, exponent as nat),
    {
        operate_with_self(self, exponent)
    }
}

} // verus!
