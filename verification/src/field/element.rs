//! Elements of a field, with the arithmetic the curves use.
use crate::field::arithmetic::{
    fadd, fdiv, finv, fmul, fneg, fsub, is_inverse, is_prime, lemma_mod_range, lemma_mod_small,
};
use crate::field::traits::{field_value, IsField, IsPrimeField};
use vstd::prelude::*;

verus! {

/// An element of the field `F`.
#[derive(Clone, Copy, Debug)]
pub struct FieldElement<F: IsField> {
    value: F::BaseType,
}

impl<F: IsField> View for FieldElement<F> {
    type V = int;

    /// The element as an integer in `[0, modulus)`.
    closed spec fn view(&self) -> int {
        field_value::<F>(self.value)
    }
}

impl<F: IsField> FieldElement<F> {
    /// The element a stored value stands for.
    pub fn new(value: F::BaseType) -> (r: Self)
        ensures
            r@ == field_value::<F>(value),
    {
        FieldElement { value }
    }

    /// The stored value.
    pub fn value(&self) -> (r: &F::BaseType)
        ensures
            field_value::<F>(*r) == self@,
    {
        &self.value
    }
}

impl<F: IsPrimeField> FieldElement<F> {
    /// Every element lies in `[0, modulus)` and the modulus is a prime.
    pub proof fn lemma_range(&self)
        ensures
            0 <= self@ < F::modulus(),
            F::modulus() > 1,
            is_prime(F::modulus()),
    {
        F::lemma_modulus_is_prime();
        lemma_mod_range(F::as_int(self.value), F::modulus());
    }

    /// The element `x mod modulus`.
    pub fn from_u64(x: u64) -> (r: Self)
        ensures
            r@ == (x as int) % F::modulus(),
    {
        proof {
            F::lemma_from_u64(x);
        }
        FieldElement { value: F::from_u64(x) }
    }

    pub fn zero() -> (r: Self)
        ensures
            r@ == 0,
    {
        proof {
            F::lemma_modulus_is_prime();
            lemma_mod_small(0, F::modulus());
        }
        Self::from_u64(0)
    }

    pub fn one() -> (r: Self)
        ensures
            r@ == 1,
    {
        proof {
            F::lemma_modulus_is_prime();
            lemma_mod_small(1, F::modulus());
        }
        Self::from_u64(1)
    }

    pub fn add(&self, other: &Self) -> (r: Self)
        ensures
            r@ == fadd(self@, other@, F::modulus()),
    {
        FieldElement { value: F::add(&self.value, &other.value) }
    }

    pub fn sub(&self, other: &Self) -> (r: Self)
        ensures
            r@ == fsub(self@, other@, F::modulus()),
    {
        FieldElement { value: F::sub(&self.value, &other.value) }
    }

    pub fn mul(&self, other: &Self) -> (r: Self)
        ensures
            r@ == fmul(self@, other@, F::modulus()),
    {
        FieldElement { value: F::mul(&self.value, &other.value) }
    }

    pub fn neg(&self) -> (r: Self)
        ensures
            r@ == fneg(self@, F::modulus()),
    {
        FieldElement { value: F::neg(&self.value) }
    }

    /// `self * self`.
    pub fn square(&self) -> (r: Self)
        ensures
            r@ == fmul(self@, self@, F::modulus()),
    {
        self.mul(self)
    }

    /// The multiplicative inverse; zero has none.
    pub fn inv(&self) -> (r: Self)
        requires
            self@ != 0,
        ensures
            r@ == finv(self@, F::modulus()),
            is_inverse(self@, r@, F::modulus()),
    {
        FieldElement { value: F::inv(&self.value) }
    }

    /// `self / other`; division by zero is undefined.
    pub fn div(&self, other: &Self) -> (r: Self)
        requires
            other@ != 0,
        ensures
            r@ == fdiv(self@, other@, F::modulus()),
    {
        let inv = other.inv();
        self.mul(&inv)
    }

    pub fn is_zero(&self) -> (r: bool)
        ensures
            r == (self@ == 0),
    {
        let z = Self::zero();
        F::eq(&self.value, &z.value)
    }
}

impl<F: IsPrimeField> PartialEq for FieldElement<F> {
    fn eq(&self, other: &Self) -> (r: bool) {
        F::eq(&self.value, &other.value)
    }
}

impl<F: IsPrimeField> vstd::std_specs::cmp::PartialEqSpecImpl for FieldElement<F> {
    open spec fn obeys_eq_spec() -> bool {
        true
    }

    open spec fn eq_spec(&self, other: &Self) -> bool {
        self@ == other@
    }
}

impl<F: IsPrimeField> Eq for FieldElement<F> {

}

impl<F: IsPrimeField> From<u64> for FieldElement<F> {
    /// The element `x mod modulus`.
    fn from(x: u64) -> (r: Self)
        ensures
            r@ == (x as int) % F::modulus(),
    {
        proof {
            F::lemma_from_u64(x);
        }
        FieldElement { value: F::from_u64(x) }
    }
}

impl<F: IsPrimeField> vstd::std_specs::convert::FromSpecImpl<u64> for FieldElement<F> {
    open spec fn obeys_from_spec() -> bool {
        true
    }

    closed spec fn from_spec(x: u64) -> Self {
        FieldElement { value: F::spec_from_u64(x) }
    }
}

} // verus!
