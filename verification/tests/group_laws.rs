use lambdaworks_math::cyclic_group::IsGroup;
use lambdaworks_math::elliptic_curve::edwards::curves::tiny_jub_jub::TinyJubJubEdwards;
use lambdaworks_math::elliptic_curve::edwards::point::EdwardsProjectivePoint;
use lambdaworks_math::elliptic_curve::montgomery::curves::tiny_jub_jub::TinyJubJubMontgomery;
use lambdaworks_math::elliptic_curve::montgomery::point::MontgomeryProjectivePoint;
use lambdaworks_math::field::element::FieldElement;

fn edwards(x: u64, y: u64) -> EdwardsProjectivePoint<TinyJubJubEdwards> {
    TinyJubJubEdwards::create_point_from_affine(FieldElement::from(x), FieldElement::from(y))
        .unwrap()
}

fn montgomery(x: u64, y: u64) -> MontgomeryProjectivePoint<TinyJubJubMontgomery> {
    TinyJubJubMontgomery::create_point_from_affine(FieldElement::from(x), FieldElement::from(y))
        .unwrap()
}

fn edwards_projective(x: u64, y: u64, z: u64) -> EdwardsProjectivePoint<TinyJubJubEdwards> {
    EdwardsProjectivePoint::new([FieldElement::from(x), FieldElement::from(y), FieldElement::from(z)])
}

fn montgomery_projective(x: u64, y: u64, z: u64) -> MontgomeryProjectivePoint<TinyJubJubMontgomery> {
    MontgomeryProjectivePoint::new([FieldElement::from(x), FieldElement::from(y), FieldElement::from(z)])
}

#[test]
fn edwards_equality_is_projective() {
    // [5: 5: 1] and [10: 10: 2] are the same point
    assert_eq!(edwards(5, 5), edwards_projective(10, 10, 2));
    assert_ne!(edwards(5, 5), edwards(8, 5));
}

#[test]
fn edwards_to_affine_divides_by_z() {
    let p = edwards_projective(10, 10, 2).to_affine();
    assert_eq!(p.x(), &FieldElement::from(5));
    assert_eq!(p.y(), &FieldElement::from(5));
    assert_eq!(p.z(), &FieldElement::from(1));
}

#[test]
fn edwards_neg_negates_x() {
    let p = edwards(12, 11).neg();
    assert_eq!(p.x(), &FieldElement::from(1));
    assert_eq!(p.y(), &FieldElement::from(11));
    assert_eq!(edwards(12, 11).neg().neg(), edwards(12, 11));
}

#[test]
fn edwards_neutral_is_identity() {
    let n = EdwardsProjectivePoint::<TinyJubJubEdwards>::neutral_element();
    let g = edwards_projective(11, 9, 3);
    assert_eq!(g.operate_with(&n), g);
    assert_eq!(n.operate_with(&g), g);
    assert!(n.is_neutral_element());
    assert!(!g.is_neutral_element());
}

#[test]
fn edwards_addition_commutes_and_inverts() {
    let p = edwards(12, 11);
    let q = edwards(8, 5);
    assert_eq!(p.operate_with(&q), q.operate_with(&p));
    assert_eq!(p.operate_with(&q), edwards(11, 6));
    assert_eq!(p.operate_with(&p.neg()), edwards(0, 1));
}

#[test]
fn edwards_coordinates() {
    let c = edwards_projective(1, 2, 3);
    let coords = c.coordinates();
    assert_eq!(coords[0], FieldElement::from(1));
    assert_eq!(coords[1], FieldElement::from(2));
    assert_eq!(coords[2], FieldElement::from(3));
}

#[test]
fn montgomery_equality_is_projective() {
    assert_eq!(montgomery(9, 2), montgomery_projective(18, 4, 2));
    assert_eq!(
        montgomery_projective(3, 7, 0),
        MontgomeryProjectivePoint::neutral_element()
    );
    assert_ne!(montgomery(9, 2), montgomery(9, 11));
}

#[test]
fn montgomery_neutral_is_identity() {
    let n = MontgomeryProjectivePoint::<TinyJubJubMontgomery>::neutral_element();
    let g = montgomery(9, 2);
    assert_eq!(g.operate_with(&n), g);
    assert_eq!(n.operate_with(&g), g);
    assert!(n.operate_with(&n).is_neutral_element());
}

#[test]
fn montgomery_doubling_and_chord() {
    let g = montgomery(9, 2);
    // tangent at g
    assert_eq!(g.operate_with(&g), montgomery(7, 12));
    // projectively equal operands also double
    assert_eq!(g.operate_with(&montgomery_projective(18, 4, 2)), montgomery(7, 12));
    // chord through two different points, in both orders
    assert_eq!(montgomery(7, 12).operate_with(&g), montgomery(10, 3));
    assert_eq!(g.operate_with(&montgomery(7, 12)), montgomery(10, 3));
}

#[test]
fn montgomery_point_of_order_two() {
    // (0, 0) is its own negation: doubling it reaches infinity
    let t = montgomery(0, 0);
    assert!(t.operate_with(&t).is_neutral_element());
    assert_eq!(t.neg(), t);
}

#[test]
fn montgomery_neg_negates_y() {
    let p = montgomery(9, 2).neg();
    assert_eq!(p.x(), &FieldElement::from(9));
    assert_eq!(p.y(), &FieldElement::from(11));
    assert!(montgomery(9, 2).operate_with(&p).is_neutral_element());
}

#[test]
fn montgomery_to_affine_divides_by_z() {
    let p = montgomery_projective(18, 4, 2).to_affine();
    assert_eq!(p.x(), &FieldElement::from(9));
    assert_eq!(p.y(), &FieldElement::from(2));
    assert_eq!(p.z(), &FieldElement::from(1));
}

#[test]
fn scalar_multiples_zero_one_two() {
    let g = edwards(12, 11);
    assert!(g.operate_with_self(0).is_neutral_element());
    assert_eq!(g.operate_with_self(1), g);
    assert_eq!(g.operate_with_self(2), g.operate_with(&g));
    let m = montgomery(9, 2);
    assert!(m.operate_with_self(0).is_neutral_element());
    assert_eq!(m.operate_with_self(2), m.operate_with(&m));
    assert_eq!(m.operate_with_self(40), m.operate_with_self(20).operate_with_self(2));
}

#[test]
fn edwards_addition_is_associative() {
    let points = [edwards(1, 2), edwards(8, 5), edwards(3, 0), edwards(5, 5), edwards(12, 11)];
    for p in points.iter() {
        for q in points.iter() {
            for r in points.iter() {
                let left = p.operate_with(q).operate_with(r);
                let right = p.operate_with(&q.operate_with(r));
                assert_eq!(left, right);
            }
        }
    }
    // a projective representative gives the same sums
    let p = edwards_projective(10, 10, 2);
    let q = edwards(1, 2);
    let r = edwards(7, 4);
    assert_eq!(p.operate_with(&q).operate_with(&r), p.operate_with(&q.operate_with(&r)));
}

#[test]
fn edwards_double_and_add_is_repeated_addition() {
    let g = edwards(1, 2);
    let mut repeated = EdwardsProjectivePoint::<TinyJubJubEdwards>::neutral_element();
    for n in 0..45u64 {
        assert_eq!(g.operate_with_self(n), repeated);
        repeated = repeated.operate_with(&g);
    }
    // twenty copies of the generator give the neutral element
    assert!(g.operate_with_self(20).is_neutral_element());
    assert_eq!(g.operate_with_self(7), edwards(2, 6));
}


#[test]
fn montgomery_addition_is_associative() {
    let points = [montgomery(3, 5), montgomery(7, 1), montgomery(0, 0), montgomery(3, 8), montgomery(9, 2)];
    for p in points.iter() {
        for q in points.iter() {
            for r in points.iter() {
                let left = p.operate_with(q).operate_with(r);
                let right = p.operate_with(&q.operate_with(r));
                assert_eq!(left, right);
            }
        }
    }
}
