//! Twisted Edwards curves `a x^2 + y^2 = 1 + d x^2 y^2`.
use crate::elliptic_curve::point::Coordinates;
use crate::elliptic_curve::traits::IsEllipticCurve;
use crate::field::arithmetic::{fadd, fmul, fsub};
use crate::field::element::FieldElement;
use crate::field::traits::IsField;
use vstd::prelude::*;

verus! {

/// The homogeneous Edwards polynomial at `[x: y: z]`:
/// `a x^2 z^2 + y^2 z^2 - z^4 - d x^2 y^2`, modulo `p`.
pub open spec fn edwards_equation(a: int, d: int, x: int, y: int, z: int, p: int) -> int {
    let x2 = fmul(x, x, p);
    let y2 = fmul(y, y, p);
    let z2 = fmul(z, z, p);
    let t1 = fmul(fmul(a, x2, p), z2, p);
    let t2 = fmul(y2, z2, p);
    let t3 = fmul(z2, z2, p);
    let t4 = fmul(fmul(d, x2, p), y2, p);
    fsub(fsub(fadd(t1, t2, p), t3, p), t4, p)
}

/// The affine point `(x, y)` satisfies `a x^2 + y^2 = 1 + d x^2 y^2` modulo `p`.
pub open spec fn edwards_affine_on_curve(a: int, d: int, x: int, y: int, p: int) -> bool {
    let x2 = fmul(x, x, p);
    let y2 = fmul(y, y, p);
    fadd(fmul(a, x2, p), y2, p) == fadd(1, fmul(fmul(d, x2, p), y2, p), p)
}

/// A twisted Edwards curve over a prime field.
pub trait IsEdwards: IsEllipticCurve {
    /// The coefficient `a`, reduced modulo the characteristic.
    spec fn spec_a() -> int;

    /// The coefficient `d`, reduced modulo the characteristic.
    spec fn spec_d() -> int;

    fn a() -> (r: FieldElement<Self::BaseField>)
        ensures
            r@ == Self::spec_a(),
    ;

    fn d() -> (r: FieldElement<Self::BaseField>)
        ensures
            r@ == Self::spec_d(),
    ;

    /// The Edwards polynomial at the projective point `[x: y: z]`; zero on
    /// the curve.
    fn defining_equation(p: &[FieldElement<Self::BaseField>; 3]) -> (r: FieldElement<
        Self::BaseField,
    >)
        ensures
            r@ == edwards_equation(
                Self::spec_a(),
                Self::spec_d(),
                p[0]@,
                p[1]@,
                p[2]@,
                Self::BaseField::modulus(),
            ),
    {
        let x2 = p[0].square();
        let y2 = p[1].square();
        let z2 = p[2].square();
        let t1 = Self::a().mul(&x2).mul(&z2);
        let t2 = y2.mul(&z2);
        let t3 = z2.mul(&z2);
        let t4 = Self::d().mul(&x2).mul(&y2);
        t1.add(&t2).sub(&t3).sub(&t4)
    }
}

/// The projective point `P` is a finite point whose affine representative
/// lies on the Edwards curve with coefficients `a`, `d`.
pub open spec fn edwards_on_curve(a: int, d: int, pt: Coordinates, p: int) -> bool {
    let ap = crate::elliptic_curve::point::affine_of(pt, p);
    &&& pt.2 != 0
    &&& edwards_affine_on_curve(a, d, ap.0, ap.1, p)
}

} // verus!
