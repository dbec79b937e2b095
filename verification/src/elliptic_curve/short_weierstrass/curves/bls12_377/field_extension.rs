//! The base field of BLS12-377.
use crate::field::element::FieldElement;
use crate::field::fields::montgomery_backed_prime_fields::{
    IsMontgomeryConfiguration, MontgomeryBackendPrimeField,
};
use crate::field::traits::IsField;
use crate::unsigned_integer::element::{
    all_hex_digits, hex_value, limbs_value, UnsignedInteger, U384,
};
use vstd::prelude::*;
use vstd::string::StringSliceAdditionalSpecFns;

verus! {

/// The order of the BLS12-377 base field.
pub open spec fn bls12377_prime_field_order() -> int {
    0x1ae3a4617c510eac63b05c06ca1493b1a22d9f300f5138f1ef3622fba094800170b5d44300000008508c00000000001int
}

/// Names the modulus of the BLS12-377 base field.
#[derive(Clone, Copy, Debug)]
pub struct BLS12377FieldConfig;

impl IsMontgomeryConfiguration<6> for BLS12377FieldConfig {
    open spec fn spec_modulus() -> int {
        bls12377_prime_field_order()
    }

    fn modulus() -> (r: U384) {
        let r = UnsignedInteger {
            limbs: [
                0x01ae3a4617c510ea,
                0xc63b05c06ca1493b,
                0x1a22d9f300f5138f,
                0x1ef3622fba094800,
                0x170b5d4430000000,
                0x8508c00000000001,
            ],
        };
        proof {
            reveal_with_fuel(limbs_value, 7);
            assert(r.limbs@ =~= seq![
                0x01ae3a4617c510eau64,
                0xc63b05c06ca1493bu64,
                0x1a22d9f300f5138fu64,
                0x1ef3622fba094800u64,
                0x170b5d4430000000u64,
                0x8508c00000000001u64,
            ]);
        }
        r
    }
}

/// The base field of BLS12-377.
pub type BLS12377PrimeField = MontgomeryBackendPrimeField<BLS12377FieldConfig, 6>;

impl FieldElement<BLS12377PrimeField> {
    /// The element written in hexadecimal by `a_hex` (at most 96 digits
    /// `0-9`, `a-f`, `A-F`, no prefix), reduced modulo the field's order.
    pub fn new_base(a_hex: &str) -> (r: Self)
        requires
            all_hex_digits(a_hex.spec_bytes()),
            a_hex.spec_bytes().len() <= 96,
        ensures
            r@ == hex_value(a_hex.spec_bytes()) % bls12377_prime_field_order(),
    {
        Self::new(U384::from_hex(a_hex))
    }
}

} // verus!
