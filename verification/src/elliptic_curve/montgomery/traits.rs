//! Montgomery curves `b y^2 = x^3 + a x^2 + x`.
use crate::elliptic_curve::point::{affine_of, Coordinates};
use crate::elliptic_curve::traits::IsEllipticCurve;
use crate::field::arithmetic::{fadd, fmul, fsub};
use crate::field::element::FieldElement;
use crate::field::traits::IsField;
use vstd::prelude::*;

verus! {

/// The homogeneous Montgomery polynomial at `[x: y: z]`:
/// `b y^2 z - x^3 - a x^2 z - x z^2`, modulo `p`.
pub open spec fn montgomery_equation(a: int, b: int, x: int, y: int, z: int, p: int) -> int {
    let x2 = fmul(x, x, p);
    let t1 = fmul(fmul(b, fmul(y, y, p), p), z, p);
    let t2 = fmul(x2, x, p);
    let t3 = fmul(fmul(a, x2, p), z, p);
    let t4 = fmul(x, fmul(z, z, p), p);
    fsub(fsub(fsub(t1, t2, p), t3, p), t4, p)
}

/// The affine point `(x, y)` satisfies `b y^2 = x^3 + a x^2 + x` modulo `p`.
pub open spec fn montgomery_affine_on_curve(a: int, b: int, x: int, y: int, p: int) -> bool {
    let x2 = fmul(x, x, p);
    fmul(b, fmul(y, y, p), p) == fadd(fadd(fmul(x2, x, p), fmul(a, x2, p), p), x, p)
}

/// The projective point `P` is a finite point whose affine representative
/// lies on the Montgomery curve with coefficients `a`, `b`.
pub open spec fn montgomery_on_curve(a: int, b: int, pt: Coordinates, p: int) -> bool {
    let ap = affine_of(pt, p);
    &&& pt.2 != 0
    &&& montgomery_affine_on_curve(a, b, ap.0, ap.1, p)
}

/// A Montgomery curve over a prime field.
pub trait IsMontgomery: IsEllipticCurve {
    /// The coefficient `a`, reduced modulo the characteristic.
    spec fn spec_a() -> int;

    /// The coefficient `b`, reduced modulo the characteristic.
    spec fn spec_b() -> int;

    fn a() -> (r: FieldElement<Self::BaseField>)
        ensures
            r@ == Self::spec_a(),
    ;

    fn b() -> (r: FieldElement<Self::BaseField>)
        ensures
            r@ == Self::spec_b(),
    ;

    /// The Montgomery polynomial at the projective point `[x: y: z]`; zero on
    /// the curve.
    fn defining_equation(p: &[FieldElement<Self::BaseField>; 3]) -> (r: FieldElement<
        Self::BaseField,
    >)
        ensures
            r@ == montgomery_equation(
                Self::spec_a(),
                Self::spec_b(),
                p[0]@,
                p[1]@,
                p[2]@,
                Self::BaseField::modulus(),
            ),
    {
        let x = p[0];
        let y = p[1];
        let z = p[2];
        let x2 = x.square();
        let t1 = Self::b().mul(&y.square()).mul(&z);
        let t2 = x2.mul(&x);
        let t3 = Self::a().mul(&x2).mul(&z);
        let t4 = x.mul(&z.square());
        t1.sub(&t2).sub(&t3).sub(&t4)
    }
}

} // verus!
