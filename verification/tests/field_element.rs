use lambdaworks_math::field::element::FieldElement;
use lambdaworks_math::field::fields::u64_prime_field::U64PrimeField;

type F13 = FieldElement<U64PrimeField<13>>;

#[test]
fn from_reduces_modulo_thirteen() {
    assert_eq!(F13::from(20), F13::from(7));
    assert_eq!(*F13::from(13).value(), 0);
    assert_eq!(*F13::from_u64(u64::MAX).value(), u64::MAX % 13);
}

#[test]
fn zero_and_one() {
    assert_eq!(*F13::zero().value(), 0);
    assert_eq!(*F13::one().value(), 1);
    assert!(F13::zero().is_zero());
    assert!(!F13::one().is_zero());
}

#[test]
fn addition_wraps_around() {
    assert_eq!(F13::from(9).add(&F13::from(7)), F13::from(3));
    assert_eq!(F13::from(12).add(&F13::from(1)), F13::zero());
}

#[test]
fn subtraction_wraps_around() {
    assert_eq!(F13::from(3).sub(&F13::from(5)), F13::from(11));
    assert_eq!(F13::from(5).sub(&F13::from(3)), F13::from(2));
}

#[test]
fn negation() {
    assert_eq!(F13::from(5).neg(), F13::from(8));
    assert_eq!(F13::zero().neg(), F13::zero());
    assert_eq!(F13::from(5).neg().neg(), F13::from(5));
}

#[test]
fn multiplication_and_square() {
    assert_eq!(F13::from(5).mul(&F13::from(6)), F13::from(4));
    assert_eq!(F13::from(12).square(), F13::one());
}

#[test]
fn inverse_of_every_nonzero_element() {
    for a in 1..13u64 {
        let x = F13::from(a);
        assert_eq!(x.mul(&x.inv()), F13::one());
    }
    assert_eq!(F13::from(2).inv(), F13::from(7));
    assert_eq!(F13::from(11).inv(), F13::from(6));
}

#[test]
fn division() {
    assert_eq!(F13::from(10).div(&F13::from(11)), F13::from(8));
    assert_eq!(F13::from(1).div(&F13::from(1)), F13::one());
}
