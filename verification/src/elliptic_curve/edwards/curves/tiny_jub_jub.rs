//! TinyJubJub in twisted Edwards form: `3 x^2 + y^2 = 1 + 8 x^2 y^2` over the
//! integers modulo 13.
use crate::elliptic_curve::edwards::point::EdwardsProjectivePoint;
use crate::elliptic_curve::edwards::traits::{edwards_equation, IsEdwards};
use crate::elliptic_curve::traits::{EllipticCurveError, FromAffine, IsEllipticCurve};
use crate::field::element::FieldElement;
use crate::field::fields::u64_prime_field::U64PrimeField;
use crate::elliptic_curve::edwards::laws::edwards_is_complete;
use crate::field::arithmetic::is_square;
use vstd::arithmetic::div_mod::{lemma_mod_bound, lemma_mul_mod_noop};
use vstd::prelude::*;

verus! {

/// The TinyJubJub curve in twisted Edwards form.
#[derive(Clone, Copy, Debug)]
pub struct TinyJubJubEdwards;

impl IsEllipticCurve for TinyJubJubEdwards {
    type BaseField = U64PrimeField<13>;
}

impl IsEdwards for TinyJubJubEdwards {
    open spec fn spec_a() -> int {
        3
    }

    open spec fn spec_d() -> int {
        8
    }

    fn a() -> (r: FieldElement<U64PrimeField<13>>) {
        FieldElement::from_u64(3)
    }

    fn d() -> (r: FieldElement<U64PrimeField<13>>) {
        FieldElement::from_u64(8)
    }
}

impl TinyJubJubEdwards {
    /// The point with affine coordinates `(x, y)`, if it lies on the curve.
    pub fn create_point_from_affine(
        x: FieldElement<U64PrimeField<13>>,
        y: FieldElement<U64PrimeField<13>>,
    ) -> (r: Result<EdwardsProjectivePoint<TinyJubJubEdwards>, EllipticCurveError>)
        ensures
            r is Ok <==> edwards_equation(3, 8, x@, y@, 1, 13) == 0,
            r matches Ok(pt) ==> pt@ == (x@, y@, 1int),
            r matches Err(e) ==> e == EllipticCurveError::InvalidPoint,
    {
        EdwardsProjectivePoint::from_affine(x, y)
    }
}

/// No square is 8 modulo 13.
proof fn lemma_eight_is_not_a_square()
    ensures
        !is_square(8, 13),
{
    assert forall|t: int| #[trigger] ((t * t) % 13) != 8int % 13 by {
        let r = t % 13;
        lemma_mod_bound(t, 13);
        lemma_mul_mod_noop(t, t, 13);
        assert((r * r) % 13 != 8) by {
            if r == 0 {
            } else if r == 1 {
            } else if r == 2 {
            } else if r == 3 {
            } else if r == 4 {
            } else if r == 5 {
            } else if r == 6 {
            } else if r == 7 {
            } else if r == 8 {
            } else if r == 9 {
            } else if r == 10 {
            } else if r == 11 {
            } else {
                assert(r == 12);
            }
        }
    }
}

impl TinyJubJubEdwards {
    /// The curve is complete: odd characteristic, `a = 3 = 4^2` a nonzero
    /// square and `d = 8` not a square modulo 13, so its addition law is
    /// defined on every pair of its points.
    pub proof fn lemma_is_complete()
        ensures
            edwards_is_complete(3, 8, 13),
    {
        assert((4int * 4) % 13 == 3int % 13);
        assert(is_square(3, 13));
        lemma_eight_is_not_a_square();
    }
}

} // verus!
