use lambdaworks_math::elliptic_curve::short_weierstrass::curves::bls12_377::field_extension::{
    BLS12377FieldConfig, BLS12377PrimeField,
};
use lambdaworks_math::field::element::FieldElement;
use lambdaworks_math::field::fields::montgomery_backed_prime_fields::IsMontgomeryConfiguration;
use lambdaworks_math::unsigned_integer::element::{UnsignedInteger, U384};

#[test]
fn from_hex_small_values() {
    assert_eq!(U384::from_hex("").limbs, [0, 0, 0, 0, 0, 0]);
    assert_eq!(U384::from_hex("1").limbs, [0, 0, 0, 0, 0, 1]);
    assert_eq!(U384::from_hex("ff").limbs, [0, 0, 0, 0, 0, 255]);
    assert_eq!(U384::from_hex("FF").limbs, [0, 0, 0, 0, 0, 255]);
    assert_eq!(U384::from_hex("aBcD").limbs, [0, 0, 0, 0, 0, 0xabcd]);
}

#[test]
fn from_hex_crosses_limbs() {
    assert_eq!(U384::from_hex("10000000000000000").limbs, [0, 0, 0, 0, 1, 0]);
    assert_eq!(
        U384::from_hex("ffffffffffffffff").limbs,
        [0, 0, 0, 0, 0, u64::MAX]
    );
    assert_eq!(
        UnsignedInteger::<2>::from_hex("123456789abcdef0fedcba9876543210").limbs,
        [0x123456789abcdef0, 0xfedcba9876543210]
    );
}

#[test]
fn from_hex_full_width() {
    let all = "f".repeat(96);
    assert_eq!(U384::from_hex(&all).limbs, [u64::MAX; 6]);
}

#[test]
fn bls12_377_order_parses_to_the_configured_modulus() {
    let hex = "1ae3a4617c510eac63b05c06ca1493b1a22d9f300f5138f1ef3622fba094800170b5d44300000008508c00000000001";
    assert_eq!(U384::from_hex(hex), BLS12377FieldConfig::modulus());
    assert_eq!(
        BLS12377FieldConfig::modulus().limbs,
        [
            0x01ae3a4617c510ea,
            0xc63b05c06ca1493b,
            0x1a22d9f300f5138f,
            0x1ef3622fba094800,
            0x170b5d4430000000,
            0x8508c00000000001,
        ]
    );
}

#[test]
fn new_base_reads_hex() {
    let a = FieldElement::<BLS12377PrimeField>::new_base("a1b2");
    assert_eq!(a.value().limbs, [0, 0, 0, 0, 0, 0xa1b2]);
    let b = FieldElement::<BLS12377PrimeField>::new_base("0");
    assert_eq!(b.value().limbs, [0; 6]);
}
