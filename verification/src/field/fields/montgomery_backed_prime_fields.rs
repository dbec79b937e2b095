//! Prime fields with a multi-limb modulus, configured by a type that names
//! the modulus.
use crate::field::traits::IsField;
use crate::unsigned_integer::element::UnsignedInteger;
use vstd::prelude::*;

verus! {

/// Names the modulus of a prime field whose elements take `NUM_LIMBS` limbs.
pub trait IsMontgomeryConfiguration<const NUM_LIMBS: usize>: Copy + core::fmt::Debug {
    /// The modulus as an integer.
    spec fn spec_modulus() -> int;

    /// The modulus as an unsigned integer.
    fn modulus() -> (r: UnsignedInteger<NUM_LIMBS>)
        ensures
            r@ == Self::spec_modulus(),
    ;
}

/// The prime field whose modulus `C` names, elements stored in `NUM_LIMBS` limbs.
#[derive(Clone, Copy, Debug)]
pub struct MontgomeryBackendPrimeField<C, const NUM_LIMBS: usize> {
    config: C,
}

impl<C: IsMontgomeryConfiguration<NUM_LIMBS>, const NUM_LIMBS: usize> IsField for MontgomeryBackendPrimeField<
    C,
    NUM_LIMBS,
> {
    type BaseType = UnsignedInteger<NUM_LIMBS>;

    open spec fn modulus() -> int {
        C::spec_modulus()
    }

    open spec fn as_int(x: UnsignedInteger<NUM_LIMBS>) -> int {
        x@
    }
}

} // verus!
