use lambdaworks_math::cyclic_group::IsGroup;
use lambdaworks_math::elliptic_curve::montgomery::curves::tiny_jub_jub::TinyJubJubMontgomery;
use lambdaworks_math::elliptic_curve::montgomery::point::MontgomeryProjectivePoint;
use lambdaworks_math::elliptic_curve::traits::EllipticCurveError;
use lambdaworks_math::field::element::FieldElement;

fn create_point(x: u64, y: u64) -> MontgomeryProjectivePoint<TinyJubJubMontgomery> {
    TinyJubJubMontgomery::create_point_from_affine(FieldElement::from(x), FieldElement::from(y))
        .unwrap()
}

#[test]
fn point_create_valid_point_works() {
    let p = TinyJubJubMontgomery::create_point_from_affine(
        FieldElement::from(9),
        FieldElement::from(2),
    )
    .unwrap();
    assert_eq!(p.x(), &FieldElement::from(9));
    assert_eq!(p.y(), &FieldElement::from(2));
    assert_eq!(p.z(), &FieldElement::from(1));
}

#[test]
fn point_create_invalid_point_returns_invalid_point_error() {
    let result = TinyJubJubMontgomery::create_point_from_affine(
        FieldElement::from(5),
        FieldElement::from(4),
    );
    assert_eq!(result.unwrap_err(), EllipticCurveError::InvalidPoint);
}

#[test]
fn point_operate_with_works_for_points_in_tiny_jub_jub() {
    let p = MontgomeryProjectivePoint::<TinyJubJubMontgomery>::new([
        FieldElement::from(9),
        FieldElement::from(2),
        FieldElement::from(1),
    ]);
    let q = MontgomeryProjectivePoint::<TinyJubJubMontgomery>::new([
        FieldElement::from(7),
        FieldElement::from(12),
        FieldElement::from(1),
    ]);
    let expected = MontgomeryProjectivePoint::<TinyJubJubMontgomery>::new([
        FieldElement::from(10),
        FieldElement::from(3),
        FieldElement::from(1),
    ]);
    assert_eq!(p.operate_with(&q), expected);
}

#[test]
fn test_negation_in_montgomery() {
    let a = create_point(9, 2);
    let b = create_point(9, 13 - 2);

    assert_eq!(a.neg(), b);
    assert!(a.operate_with(&b).is_neutral_element());
}

#[test]
fn point_operate_with_works_and_cycles_in_tiny_jub_jub() {
    let g = create_point(9, 2);
    assert_eq!(
        g.operate_with_self(0),
        MontgomeryProjectivePoint::neutral_element()
    );
    assert_eq!(g.operate_with_self(1), create_point(9, 2));
    assert_eq!(g.operate_with_self(2), create_point(7, 12));
    assert_eq!(g.operate_with_self(3), create_point(10, 3));
    assert_eq!(g.operate_with_self(4), create_point(8, 12));
    assert_eq!(g.operate_with_self(5), create_point(1, 9));
    assert_eq!(g.operate_with_self(6), create_point(5, 1));
    assert_eq!(g.operate_with_self(7), create_point(4, 9));
    assert_eq!(g.operate_with_self(8), create_point(2, 9));
    assert_eq!(g.operate_with_self(9), create_point(3, 5));
    assert_eq!(g.operate_with_self(10), create_point(0, 0));
    assert_eq!(g.operate_with_self(11), create_point(3, 8));
    assert_eq!(g.operate_with_self(12), create_point(2, 4));
    assert_eq!(g.operate_with_self(13), create_point(4, 4));
    assert_eq!(g.operate_with_self(14), create_point(5, 12));
    assert_eq!(g.operate_with_self(15), create_point(1, 4));
    assert_eq!(g.operate_with_self(16), create_point(8, 1));
    assert_eq!(g.operate_with_self(17), create_point(10, 10));
    assert_eq!(g.operate_with_self(18), create_point(7, 1));
    assert_eq!(g.operate_with_self(19), create_point(9, 11));
    assert_eq!(
        g.operate_with_self(20),
        MontgomeryProjectivePoint::neutral_element()
    );
}
