//! TinyJubJub in Montgomery form: `7 y^2 = x^3 + 6 x^2 + x` over the integers
//! modulo 13.
use crate::elliptic_curve::montgomery::point::MontgomeryProjectivePoint;
use crate::elliptic_curve::montgomery::traits::{montgomery_equation, IsMontgomery};
use crate::elliptic_curve::traits::{EllipticCurveError, FromAffine, IsEllipticCurve};
use crate::field::element::FieldElement;
use crate::field::fields::u64_prime_field::U64PrimeField;
use vstd::prelude::*;

verus! {

/// The TinyJubJub curve in Montgomery form.
#[derive(Clone, Copy, Debug)]
pub struct TinyJubJubMontgomery;

impl IsEllipticCurve for TinyJubJubMontgomery {
    type BaseField = U64PrimeField<13>;
}

impl IsMontgomery for TinyJubJubMontgomery {
    open spec fn spec_a() -> int {
        6
    }

    open spec fn spec_b() -> int {
        7
    }

    fn a() -> (r: FieldElement<U64PrimeField<13>>) {
        FieldElement::from_u64(6)
    }

    fn b() -> (r: FieldElement<U64PrimeField<13>>) {
        FieldElement::from_u64(7)
    }
}

impl TinyJubJubMontgomery {
    /// The point with affine coordinates `(x, y)`, if it lies on the curve.
    pub fn create_point_from_affine(
        x: FieldElement<U64PrimeField<13>>,
        y: FieldElement<U64PrimeField<13>>,
    ) -> (r: Result<MontgomeryProjectivePoint<TinyJubJubMontgomery>, EllipticCurveError>)
        ensures
            r is Ok <==> montgomery_equation(6, 7, x@, y@, 1, 13) == 0,
            r matches Ok(pt) ==> pt@ == (x@, y@, 1int),
            r matches Err(e) ==> e == EllipticCurveError::InvalidPoint,
    {
        MontgomeryProjectivePoint::from_affine(x, y)
    }
}

} // verus!
