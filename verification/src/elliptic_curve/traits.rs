//! What every elliptic curve of the library provides.
use crate::field::element::FieldElement;
use crate::field::traits::{IsField, IsPrimeField};
use vstd::prelude::*;

verus! {

/// Errors in building a point of a curve.
#[derive(Clone, Copy, Debug, PartialEq, Eq, Structural)]
pub enum EllipticCurveError {
    /// The coordinates do not satisfy the curve's equation.
    InvalidPoint,
}

/// An elliptic curve over a prime field.
pub trait IsEllipticCurve: Sized + Copy + core::fmt::Debug {
    type BaseField: IsPrimeField;
}

/// A point built from affine coordinates `(x, y)`, checked against the curve.
pub trait FromAffine<F: IsField>: Sized {
    fn from_affine(x: FieldElement<F>, y: FieldElement<F>) -> Result<Self, EllipticCurveError>;
}

} // verus!
