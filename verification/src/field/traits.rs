//! The traits that describe a field to the rest of the library.
use crate::field::arithmetic::{fadd, finv, fmul, fneg, fsub, is_inverse, is_prime};
use vstd::prelude::*;

verus! {

/// A field whose elements are stored as values of `BaseType`, each standing
/// for an integer modulo `modulus()`.
pub trait IsField: Sized + Copy + core::fmt::Debug {
    type BaseType: Copy + core::fmt::Debug;

    /// The characteristic of the field.
    spec fn modulus() -> int;

    /// The integer a stored value stands for (before reduction).
    spec fn as_int(x: Self::BaseType) -> int;
}

/// The element of the field that a stored value stands for, in `[0, modulus)`.
pub open spec fn field_value<F: IsField>(x: F::BaseType) -> int {
    F::as_int(x) % F::modulus()
}

/// A prime field with executable arithmetic.
pub trait IsPrimeField: IsField {
    /// The modulus is a prime.
    proof fn lemma_modulus_is_prime()
        ensures
            is_prime(Self::modulus()),
    ;

    /// The stored value that `from_u64(x)` produces.
    spec fn spec_from_u64(x: u64) -> Self::BaseType;

    /// `spec_from_u64` stands for `x` reduced modulo the characteristic.
    proof fn lemma_from_u64(x: u64)
        ensures
            field_value::<Self>(Self::spec_from_u64(x)) == (x as int) % Self::modulus(),
    ;

    fn from_u64(x: u64) -> (r: Self::BaseType)
        ensures
            r == Self::spec_from_u64(x),
    ;

    fn add(a: &Self::BaseType, b: &Self::BaseType) -> (r: Self::BaseType)
        ensures
            field_value::<Self>(r) == fadd(
                field_value::<Self>(*a),
                field_value::<Self>(*b),
                Self::modulus(),
            ),
    ;

    fn sub(a: &Self::BaseType, b: &Self::BaseType) -> (r: Self::BaseType)
        ensures
            field_value::<Self>(r) == fsub(
                field_value::<Self>(*a),
                field_value::<Self>(*b),
                Self::modulus(),
            ),
    ;

    fn neg(a: &Self::BaseType) -> (r: Self::BaseType)
        ensures
            field_value::<Self>(r) == fneg(field_value::<Self>(*a), Self::modulus()),
    ;

    fn mul(a: &Self::BaseType, b: &Self::BaseType) -> (r: Self::BaseType)
        ensures
            field_value::<Self>(r) == fmul(
                field_value::<Self>(*a),
                field_value::<Self>(*b),
                Self::modulus(),
            ),
    ;

    /// Multiplicative inverse; zero has none.
    fn inv(a: &Self::BaseType) -> (r: Self::BaseType)
        requires
            field_value::<Self>(*a) != 0,
        ensures
            is_inverse(field_value::<Self>(*a), field_value::<Self>(r), Self::modulus()),
            field_value::<Self>(r) == finv(field_value::<Self>(*a), Self::modulus()),
    ;

    fn eq(a: &Self::BaseType, b: &Self::BaseType) -> (r: bool)
        ensures
            r == (field_value::<Self>(*a) == field_value::<Self>(*b)),
    ;
}

} // verus!
