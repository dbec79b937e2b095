//! The polynomial identity behind closure of the Edwards addition law,
//! proved by expanding every product into monomials.
use crate::elliptic_curve::monomials::{lemma_mono_vars, lemma_term_mul, mono};
use vstd::arithmetic::mul::{lemma_mul_is_distributive_add, lemma_mul_is_distributive_add_other_way};
use vstd::prelude::*;

verus! {

/// The polynomial identity behind closure of the Edwards addition law: with
/// `n1 = x1 y2 + y1 x2`, `n2 = y1 y2 - a x1 x2` and `d1, d2 = 1 +- d x1 y1 x2 y2`,
/// `a n1^2 d2^2 + n2^2 d1^2 - d1^2 d2^2 - d n1^2 n2^2` is a combination
/// `q.0 c1 + q.1 c2` of the curve polynomials `ci = a xi^2 + yi^2 - 1 - d xi^2 yi^2`.
pub proof fn lemma_closure_identity(a: int, d: int, x1: int, y1: int, x2: int, y2: int) -> (q: (int, int))
    ensures
        ({
            let n1 = ((x1 * y2) + (y1 * x2));
            let n2 = ((y1 * y2) - ((a * x1) * x2));
            let e = ((((d * x1) * y1) * x2) * y2);
            let d1 = (1 + e);
            let d2 = (1 - e);
            let c1 = (((((a * x1) * x1) + (y1 * y1)) - 1) - ((((d * x1) * x1) * y1) * y1));
            let c2 = (((((a * x2) * x2) + (y2 * y2)) - 1) - ((((d * x2) * x2) * y2) * y2));
            ((((a * ((n1 * n1) * (d2 * d2))) + ((n2 * n2) * (d1 * d1))) - ((d1 * d1) * (d2 * d2))) - (d * ((n1 * n1) * (n2 * n2)))) == q.0 * c1 + q.1 * c2
        }),
{
    lemma_mono_vars(a, d, x1, y1, x2, y2, 0);
    let n1 = ((x1 * y2) + (y1 * x2));
    lemma_term_mul(a, d, x1, y1, x2, y2, 0, 1, 0, 0, 1, 0, 0, 0, 0, 1, 0, 0, 0, 0, 0, 1, 0);
    assert((1 * mono(a, d, x1, y1, x2, y2, 0, 0, 0, 1, 0, 0, 0, 0)) * (1 * mono(a, d, x1, y1, x2, y2, 0, 0, 0, 0, 0, 0, 1, 0)) == 1 * mono(a, d, x1, y1, x2, y2, 0, 0, 0, 1, 0, 0, 1, 0));
    assert((x1 * y2) == 1 * mono(a, d, x1, y1, x2, y2, 0, 0, 0, 1, 0, 0, 1, 0));
    lemma_term_mul(a, d, x1, y1, x2, y2, 0, 1, 0, 0, 0, 1, 0, 0, 0, 1, 0, 0, 0, 0, 1, 0, 0);
    assert((1 * mono(a, d, x1, y1, x2, y2, 0, 0, 0, 0, 1, 0, 0, 0)) * (1 * mono(a, d, x1, y1, x2, y2, 0, 0, 0, 0, 0, 1, 0, 0)) == 1 * mono(a, d, x1, y1, x2, y2, 0, 0, 0, 0, 1, 1, 0, 0));
    assert((y1 * x2) == 1 * mono(a, d, x1, y1, x2, y2, 0, 0, 0, 0, 1, 1, 0, 0));
    assert(((x1 * y2) + (y1 * x2)) == 1 * mono(a, d, x1, y1, x2, y2, 0, 0, 0, 1, 0, 0, 1, 0) + 1 * mono(a, d, x1, y1, x2, y2, 0, 0, 0, 0, 1, 1, 0, 0));
    assert(n1 == 1 * mono(a, d, x1, y1, x2, y2, 0, 0, 0, 1, 0, 0, 1, 0) + 1 * mono(a, d, x1, y1, x2, y2, 0, 0, 0, 0, 1, 1, 0, 0));
    let n2 = ((y1 * y2) - ((a * x1) * x2));
    lemma_term_mul(a, d, x1, y1, x2, y2, 0, 1, 0, 0, 0, 1, 0, 0, 0, 1, 0, 0, 0, 0, 0, 1, 0);
    assert((1 * mono(a, d, x1, y1, x2, y2, 0, 0, 0, 0, 1, 0, 0, 0)) * (1 * mono(a, d, x1, y1, x2, y2, 0, 0, 0, 0, 0, 0, 1, 0)) == 1 * mono(a, d, x1, y1, x2, y2, 0, 0, 0, 0, 1, 0, 1, 0));
    assert((y1 * y2) == 1 * mono(a, d, x1, y1, x2, y2, 0, 0, 0, 0, 1, 0, 1, 0));
    lemma_term_mul(a, d, x1, y1, x2, y2, 0, 1, 1, 0, 0, 0, 0, 0, 0, 1, 0, 0, 1, 0, 0, 0, 0);
    assert((1 * mono(a, d, x1, y1, x2, y2, 0, 1, 0, 0, 0, 0, 0, 0)) * (1 * mono(a, d, x1, y1, x2, y2, 0, 0, 0, 1, 0, 0, 0, 0)) == 1 * mono(a, d, x1, y1, x2, y2, 0, 1, 0, 1, 0, 0, 0, 0));
    assert((a * x1) == 1 * mono(a, d, x1, y1, x2, y2, 0, 1, 0, 1, 0, 0, 0, 0));
    lemma_term_mul(a, d, x1, y1, x2, y2, 0, 1, 1, 0, 1, 0, 0, 0, 0, 1, 0, 0, 0, 0, 1, 0, 0);
    assert((1 * mono(a, d, x1, y1, x2, y2, 0, 1, 0, 1, 0, 0, 0, 0)) * (1 * mono(a, d, x1, y1, x2, y2, 0, 0, 0, 0, 0, 1, 0, 0)) == 1 * mono(a, d, x1, y1, x2, y2, 0, 1, 0, 1, 0, 1, 0, 0));
    assert(((a * x1) * x2) == 1 * mono(a, d, x1, y1, x2, y2, 0, 1, 0, 1, 0, 1, 0, 0));
    assert(((y1 * y2) - ((a * x1) * x2)) == (-1) * mono(a, d, x1, y1, x2, y2, 0, 1, 0, 1, 0, 1, 0, 0) + 1 * mono(a, d, x1, y1, x2, y2, 0, 0, 0, 0, 1, 0, 1, 0));
    assert(n2 == (-1) * mono(a, d, x1, y1, x2, y2, 0, 1, 0, 1, 0, 1, 0, 0) + 1 * mono(a, d, x1, y1, x2, y2, 0, 0, 0, 0, 1, 0, 1, 0));
    let e = ((((d * x1) * y1) * x2) * y2);
    lemma_term_mul(a, d, x1, y1, x2, y2, 0, 1, 0, 1, 0, 0, 0, 0, 0, 1, 0, 0, 1, 0, 0, 0, 0);
    assert((1 * mono(a, d, x1, y1, x2, y2, 0, 0, 1, 0, 0, 0, 0, 0)) * (1 * mono(a, d, x1, y1, x2, y2, 0, 0, 0, 1, 0, 0, 0, 0)) == 1 * mono(a, d, x1, y1, x2, y2, 0, 0, 1, 1, 0, 0, 0, 0));
    assert((d * x1) == 1 * mono(a, d, x1, y1, x2, y2, 0, 0, 1, 1, 0, 0, 0, 0));
    lemma_term_mul(a, d, x1, y1, x2, y2, 0, 1, 0, 1, 1, 0, 0, 0, 0, 1, 0, 0, 0, 1, 0, 0, 0);
    assert((1 * mono(a, d, x1, y1, x2, y2, 0, 0, 1, 1, 0, 0, 0, 0)) * (1 * mono(a, d, x1, y1, x2, y2, 0, 0, 0, 0, 1, 0, 0, 0)) == 1 * mono(a, d, x1, y1, x2, y2, 0, 0, 1, 1, 1, 0, 0, 0));
    assert(((d * x1) * y1) == 1 * mono(a, d, x1, y1, x2, y2, 0, 0, 1, 1, 1, 0, 0, 0));
    lemma_term_mul(a, d, x1, y1, x2, y2, 0, 1, 0, 1, 1, 1, 0, 0, 0, 1, 0, 0, 0, 0, 1, 0, 0);
    assert((1 * mono(a, d, x1, y1, x2, y2, 0, 0, 1, 1, 1, 0, 0, 0)) * (1 * mono(a, d, x1, y1, x2, y2, 0, 0, 0, 0, 0, 1, 0, 0)) == 1 * mono(a, d, x1, y1, x2, y2, 0, 0, 1, 1, 1, 1, 0, 0));
    assert((((d * x1) * y1) * x2) == 1 * mono(a, d, x1, y1, x2, y2, 0, 0, 1, 1, 1, 1, 0, 0));
    lemma_term_mul(a, d, x1, y1, x2, y2, 0, 1, 0, 1, 1, 1, 1, 0, 0, 1, 0, 0, 0, 0, 0, 1, 0);
    assert((1 * mono(a, d, x1, y1, x2, y2, 0, 0, 1, 1, 1, 1, 0, 0)) * (1 * mono(a, d, x1, y1, x2, y2, 0, 0, 0, 0, 0, 0, 1, 0)) == 1 * mono(a, d, x1, y1, x2, y2, 0, 0, 1, 1, 1, 1, 1, 0));
    assert(((((d * x1) * y1) * x2) * y2) == 1 * mono(a, d, x1, y1, x2, y2, 0, 0, 1, 1, 1, 1, 1, 0));
    assert(e == 1 * mono(a, d, x1, y1, x2, y2, 0, 0, 1, 1, 1, 1, 1, 0));
    let d1 = (1 + e);
    assert((1 + e) == 1 * mono(a, d, x1, y1, x2, y2, 0, 0, 1, 1, 1, 1, 1, 0) + 1 * mono(a, d, x1, y1, x2, y2, 0, 0, 0, 0, 0, 0, 0, 0));
    assert(d1 == 1 * mono(a, d, x1, y1, x2, y2, 0, 0, 1, 1, 1, 1, 1, 0) + 1 * mono(a, d, x1, y1, x2, y2, 0, 0, 0, 0, 0, 0, 0, 0));
    let d2 = (1 - e);
    assert((1 - e) == (-1) * mono(a, d, x1, y1, x2, y2, 0, 0, 1, 1, 1, 1, 1, 0) + 1 * mono(a, d, x1, y1, x2, y2, 0, 0, 0, 0, 0, 0, 0, 0));
    assert(d2 == (-1) * mono(a, d, x1, y1, x2, y2, 0, 0, 1, 1, 1, 1, 1, 0) + 1 * mono(a, d, x1, y1, x2, y2, 0, 0, 0, 0, 0, 0, 0, 0));
    let c1 = (((((a * x1) * x1) + (y1 * y1)) - 1) - ((((d * x1) * x1) * y1) * y1));
    assert((a * x1) == 1 * mono(a, d, x1, y1, x2, y2, 0, 1, 0, 1, 0, 0, 0, 0));
    lemma_term_mul(a, d, x1, y1, x2, y2, 0, 1, 1, 0, 1, 0, 0, 0, 0, 1, 0, 0, 1, 0, 0, 0, 0);
    assert((1 * mono(a, d, x1, y1, x2, y2, 0, 1, 0, 1, 0, 0, 0, 0)) * (1 * mono(a, d, x1, y1, x2, y2, 0, 0, 0, 1, 0, 0, 0, 0)) == 1 * mono(a, d, x1, y1, x2, y2, 0, 1, 0, 2, 0, 0, 0, 0));
    assert(((a * x1) * x1) == 1 * mono(a, d, x1, y1, x2, y2, 0, 1, 0, 2, 0, 0, 0, 0));
    lemma_term_mul(a, d, x1, y1, x2, y2, 0, 1, 0, 0, 0, 1, 0, 0, 0, 1, 0, 0, 0, 1, 0, 0, 0);
    assert((1 * mono(a, d, x1, y1, x2, y2, 0, 0, 0, 0, 1, 0, 0, 0)) * (1 * mono(a, d, x1, y1, x2, y2, 0, 0, 0, 0, 1, 0, 0, 0)) == 1 * mono(a, d, x1, y1, x2, y2, 0, 0, 0, 0, 2, 0, 0, 0));
    assert((y1 * y1) == 1 * mono(a, d, x1, y1, x2, y2, 0, 0, 0, 0, 2, 0, 0, 0));
    assert((((a * x1) * x1) + (y1 * y1)) == 1 * mono(a, d, x1, y1, x2, y2, 0, 1, 0, 2, 0, 0, 0, 0) + 1 * mono(a, d, x1, y1, x2, y2, 0, 0, 0, 0, 2, 0, 0, 0));
    assert(((((a * x1) * x1) + (y1 * y1)) - 1) == 1 * mono(a, d, x1, y1, x2, y2, 0, 1, 0, 2, 0, 0, 0, 0) + 1 * mono(a, d, x1, y1, x2, y2, 0, 0, 0, 0, 2, 0, 0, 0) + (-1) * mono(a, d, x1, y1, x2, y2, 0, 0, 0, 0, 0, 0, 0, 0));
    assert((d * x1) == 1 * mono(a, d, x1, y1, x2, y2, 0, 0, 1, 1, 0, 0, 0, 0));
    lemma_term_mul(a, d, x1, y1, x2, y2, 0, 1, 0, 1, 1, 0, 0, 0, 0, 1, 0, 0, 1, 0, 0, 0, 0);
    assert((1 * mono(a, d, x1, y1, x2, y2, 0, 0, 1, 1, 0, 0, 0, 0)) * (1 * mono(a, d, x1, y1, x2, y2, 0, 0, 0, 1, 0, 0, 0, 0)) == 1 * mono(a, d, x1, y1, x2, y2, 0, 0, 1, 2, 0, 0, 0, 0));
    assert(((d * x1) * x1) == 1 * mono(a, d, x1, y1, x2, y2, 0, 0, 1, 2, 0, 0, 0, 0));
    lemma_term_mul(a, d, x1, y1, x2, y2, 0, 1, 0, 1, 2, 0, 0, 0, 0, 1, 0, 0, 0, 1, 0, 0, 0);
    assert((1 * mono(a, d, x1, y1, x2, y2, 0, 0, 1, 2, 0, 0, 0, 0)) * (1 * mono(a, d, x1, y1, x2, y2, 0, 0, 0, 0, 1, 0, 0, 0)) == 1 * mono(a, d, x1, y1, x2, y2, 0, 0, 1, 2, 1, 0, 0, 0));
    assert((((d * x1) * x1) * y1) == 1 * mono(a, d, x1, y1, x2, y2, 0, 0, 1, 2, 1, 0, 0, 0));
    lemma_term_mul(a, d, x1, y1, x2, y2, 0, 1, 0, 1, 2, 1, 0, 0, 0, 1, 0, 0, 0, 1, 0, 0, 0);
    assert((1 * mono(a, d, x1, y1, x2, y2, 0, 0, 1, 2, 1, 0, 0, 0)) * (1 * mono(a, d, x1, y1, x2, y2, 0, 0, 0, 0, 1, 0, 0, 0)) == 1 * mono(a, d, x1, y1, x2, y2, 0, 0, 1, 2, 2, 0, 0, 0));
    assert(((((d * x1) * x1) * y1) * y1) == 1 * mono(a, d, x1, y1, x2, y2, 0, 0, 1, 2, 2, 0, 0, 0));
    assert((((((a * x1) * x1) + (y1 * y1)) - 1) - ((((d * x1) * x1) * y1) * y1)) == 1 * mono(a, d, x1, y1, x2, y2, 0, 1, 0, 2, 0, 0, 0, 0) + (-1) * mono(a, d, x1, y1, x2, y2, 0, 0, 1, 2, 2, 0, 0, 0) + 1 * mono(a, d, x1, y1, x2, y2, 0, 0, 0, 0, 2, 0, 0, 0) + (-1) * mono(a, d, x1, y1, x2, y2, 0, 0, 0, 0, 0, 0, 0, 0));
    assert(c1 == 1 * mono(a, d, x1, y1, x2, y2, 0, 1, 0, 2, 0, 0, 0, 0) + (-1) * mono(a, d, x1, y1, x2, y2, 0, 0, 1, 2, 2, 0, 0, 0) + 1 * mono(a, d, x1, y1, x2, y2, 0, 0, 0, 0, 2, 0, 0, 0) + (-1) * mono(a, d, x1, y1, x2, y2, 0, 0, 0, 0, 0, 0, 0, 0));
    let c2 = (((((a * x2) * x2) + (y2 * y2)) - 1) - ((((d * x2) * x2) * y2) * y2));
    lemma_term_mul(a, d, x1, y1, x2, y2, 0, 1, 1, 0, 0, 0, 0, 0, 0, 1, 0, 0, 0, 0, 1, 0, 0);
    assert((1 * mono(a, d, x1, y1, x2, y2, 0, 1, 0, 0, 0, 0, 0, 0)) * (1 * mono(a, d, x1, y1, x2, y2, 0, 0, 0, 0, 0, 1, 0, 0)) == 1 * mono(a, d, x1, y1, x2, y2, 0, 1, 0, 0, 0, 1, 0, 0));
    assert((a * x2) == 1 * mono(a, d, x1, y1, x2, y2, 0, 1, 0, 0, 0, 1, 0, 0));
    lemma_term_mul(a, d, x1, y1, x2, y2, 0, 1, 1, 0, 0, 0, 1, 0, 0, 1, 0, 0, 0, 0, 1, 0, 0);
    assert((1 * mono(a, d, x1, y1, x2, y2, 0, 1, 0, 0, 0, 1, 0, 0)) * (1 * mono(a, d, x1, y1, x2, y2, 0, 0, 0, 0, 0, 1, 0, 0)) == 1 * mono(a, d, x1, y1, x2, y2, 0, 1, 0, 0, 0, 2, 0, 0));
    assert(((a * x2) * x2) == 1 * mono(a, d, x1, y1, x2, y2, 0, 1, 0, 0, 0, 2, 0, 0));
    lemma_term_mul(a, d, x1, y1, x2, y2, 0, 1, 0, 0, 0, 0, 0, 1, 0, 1, 0, 0, 0, 0, 0, 1, 0);
    assert((1 * mono(a, d, x1, y1, x2, y2, 0, 0, 0, 0, 0, 0, 1, 0)) * (1 * mono(a, d, x1, y1, x2, y2, 0, 0, 0, 0, 0, 0, 1, 0)) == 1 * mono(a, d, x1, y1, x2, y2, 0, 0, 0, 0, 0, 0, 2, 0));
    assert((y2 * y2) == 1 * mono(a, d, x1, y1, x2, y2, 0, 0, 0, 0, 0, 0, 2, 0));
    assert((((a * x2) * x2) + (y2 * y2)) == 1 * mono(a, d, x1, y1, x2, y2, 0, 1, 0, 0, 0, 2, 0, 0) + 1 * mono(a, d, x1, y1, x2, y2, 0, 0, 0, 0, 0, 0, 2, 0));
    assert(((((a * x2) * x2) + (y2 * y2)) - 1) == 1 * mono(a, d, x1, y1, x2, y2, 0, 1, 0, 0, 0, 2, 0, 0) + 1 * mono(a, d, x1, y1, x2, y2, 0, 0, 0, 0, 0, 0, 2, 0) + (-1) * mono(a, d, x1, y1, x2, y2, 0, 0, 0, 0, 0, 0, 0, 0));
    lemma_term_mul(a, d, x1, y1, x2, y2, 0, 1, 0, 1, 0, 0, 0, 0, 0, 1, 0, 0, 0, 0, 1, 0, 0);
    assert((1 * mono(a, d, x1, y1, x2, y2, 0, 0, 1, 0, 0, 0, 0, 0)) * (1 * mono(a, d, x1, y1, x2, y2, 0, 0, 0, 0, 0, 1, 0, 0)) == 1 * mono(a, d, x1, y1, x2, y2, 0, 0, 1, 0, 0, 1, 0, 0));
    assert((d * x2) == 1 * mono(a, d, x1, y1, x2, y2, 0, 0, 1, 0, 0, 1, 0, 0));
    lemma_term_mul(a, d, x1, y1, x2, y2, 0, 1, 0, 1, 0, 0, 1, 0, 0, 1, 0, 0, 0, 0, 1, 0, 0);
    assert((1 * mono(a, d, x1, y1, x2, y2, 0, 0, 1, 0, 0, 1, 0, 0)) * (1 * mono(a, d, x1, y1, x2, y2, 0, 0, 0, 0, 0, 1, 0, 0)) == 1 * mono(a, d, x1, y1, x2, y2, 0, 0, 1, 0, 0, 2, 0, 0));
    assert(((d * x2) * x2) == 1 * mono(a, d, x1, y1, x2, y2, 0, 0, 1, 0, 0, 2, 0, 0));
    lemma_term_mul(a, d, x1, y1, x2, y2, 0, 1, 0, 1, 0, 0, 2, 0, 0, 1, 0, 0, 0, 0, 0, 1, 0);
    assert((1 * mono(a, d, x1, y1, x2, y2, 0, 0, 1, 0, 0, 2, 0, 0)) * (1 * mono(a, d, x1, y1, x2, y2, 0, 0, 0, 0, 0, 0, 1, 0)) == 1 * mono(a, d, x1, y1, x2, y2, 0, 0, 1, 0, 0, 2, 1, 0));
    assert((((d * x2) * x2) * y2) == 1 * mono(a, d, x1, y1, x2, y2, 0, 0, 1, 0, 0, 2, 1, 0));
    lemma_term_mul(a, d, x1, y1, x2, y2, 0, 1, 0, 1, 0, 0, 2, 1, 0, 1, 0, 0, 0, 0, 0, 1, 0);
    assert((1 * mono(a, d, x1, y1, x2, y2, 0, 0, 1, 0, 0, 2, 1, 0)) * (1 * mono(a, d, x1, y1, x2, y2, 0, 0, 0, 0, 0, 0, 1, 0)) == 1 * mono(a, d, x1, y1, x2, y2, 0, 0, 1, 0, 0, 2, 2, 0));
    assert(((((d * x2) * x2) * y2) * y2) == 1 * mono(a, d, x1, y1, x2, y2, 0, 0, 1, 0, 0, 2, 2, 0));
    assert((((((a * x2) * x2) + (y2 * y2)) - 1) - ((((d * x2) * x2) * y2) * y2)) == 1 * mono(a, d, x1, y1, x2, y2, 0, 1, 0, 0, 0, 2, 0, 0) + (-1) * mono(a, d, x1, y1, x2, y2, 0, 0, 1, 0, 0, 2, 2, 0) + 1 * mono(a, d, x1, y1, x2, y2, 0, 0, 0, 0, 0, 0, 2, 0) + (-1) * mono(a, d, x1, y1, x2, y2, 0, 0, 0, 0, 0, 0, 0, 0));
    assert(c2 == 1 * mono(a, d, x1, y1, x2, y2, 0, 1, 0, 0, 0, 2, 0, 0) + (-1) * mono(a, d, x1, y1, x2, y2, 0, 0, 1, 0, 0, 2, 2, 0) + 1 * mono(a, d, x1, y1, x2, y2, 0, 0, 0, 0, 0, 0, 2, 0) + (-1) * mono(a, d, x1, y1, x2, y2, 0, 0, 0, 0, 0, 0, 0, 0));
    lemma_mul_is_distributive_add_other_way((1 * mono(a, d, x1, y1, x2, y2, 0, 0, 0, 1, 0, 0, 1, 0) + 1 * mono(a, d, x1, y1, x2, y2, 0, 0, 0, 0, 1, 1, 0, 0)), 1 * mono(a, d, x1, y1, x2, y2, 0, 0, 0, 1, 0, 0, 1, 0), 1 * mono(a, d, x1, y1, x2, y2, 0, 0, 0, 0, 1, 1, 0, 0));
    lemma_mul_is_distributive_add(1 * mono(a, d, x1, y1, x2, y2, 0, 0, 0, 1, 0, 0, 1, 0), 1 * mono(a, d, x1, y1, x2, y2, 0, 0, 0, 1, 0, 0, 1, 0), 1 * mono(a, d, x1, y1, x2, y2, 0, 0, 0, 0, 1, 1, 0, 0));
    lemma_term_mul(a, d, x1, y1, x2, y2, 0, 1, 0, 0, 1, 0, 0, 1, 0, 1, 0, 0, 1, 0, 0, 1, 0);
    lemma_term_mul(a, d, x1, y1, x2, y2, 0, 1, 0, 0, 1, 0, 0, 1, 0, 1, 0, 0, 0, 1, 1, 0, 0);
    lemma_mul_is_distributive_add(1 * mono(a, d, x1, y1, x2, y2, 0, 0, 0, 0, 1, 1, 0, 0), 1 * mono(a, d, x1, y1, x2, y2, 0, 0, 0, 1, 0, 0, 1, 0), 1 * mono(a, d, x1, y1, x2, y2, 0, 0, 0, 0, 1, 1, 0, 0));
    lemma_term_mul(a, d, x1, y1, x2, y2, 0, 1, 0, 0, 0, 1, 1, 0, 0, 1, 0, 0, 1, 0, 0, 1, 0);
    lemma_term_mul(a, d, x1, y1, x2, y2, 0, 1, 0, 0, 0, 1, 1, 0, 0, 1, 0, 0, 0, 1, 1, 0, 0);
    assert((1 * mono(a, d, x1, y1, x2, y2, 0, 0, 0, 1, 0, 0, 1, 0) + 1 * mono(a, d, x1, y1, x2, y2, 0, 0, 0, 0, 1, 1, 0, 0)) * (1 * mono(a, d, x1, y1, x2, y2, 0, 0, 0, 1, 0, 0, 1, 0) + 1 * mono(a, d, x1, y1, x2, y2, 0, 0, 0, 0, 1, 1, 0, 0)) == 1 * mono(a, d, x1, y1, x2, y2, 0, 0, 0, 2, 0, 0, 2, 0) + 2 * mono(a, d, x1, y1, x2, y2, 0, 0, 0, 1, 1, 1, 1, 0) + 1 * mono(a, d, x1, y1, x2, y2, 0, 0, 0, 0, 2, 2, 0, 0));
    assert((n1 * n1) == 1 * mono(a, d, x1, y1, x2, y2, 0, 0, 0, 2, 0, 0, 2, 0) + 2 * mono(a, d, x1, y1, x2, y2, 0, 0, 0, 1, 1, 1, 1, 0) + 1 * mono(a, d, x1, y1, x2, y2, 0, 0, 0, 0, 2, 2, 0, 0));
    lemma_mul_is_distributive_add_other_way(((-1) * mono(a, d, x1, y1, x2, y2, 0, 0, 1, 1, 1, 1, 1, 0) + 1 * mono(a, d, x1, y1, x2, y2, 0, 0, 0, 0, 0, 0, 0, 0)), (-1) * mono(a, d, x1, y1, x2, y2, 0, 0, 1, 1, 1, 1, 1, 0), 1 * mono(a, d, x1, y1, x2, y2, 0, 0, 0, 0, 0, 0, 0, 0));
    lemma_mul_is_distributive_add((-1) * mono(a, d, x1, y1, x2, y2, 0, 0, 1, 1, 1, 1, 1, 0), (-1) * mono(a, d, x1, y1, x2, y2, 0, 0, 1, 1, 1, 1, 1, 0), 1 * mono(a, d, x1, y1, x2, y2, 0, 0, 0, 0, 0, 0, 0, 0));
    lemma_term_mul(a, d, x1, y1, x2, y2, 0, -1, 0, 1, 1, 1, 1, 1, 0, -1, 0, 1, 1, 1, 1, 1, 0);
    lemma_term_mul(a, d, x1, y1, x2, y2, 0, -1, 0, 1, 1, 1, 1, 1, 0, 1, 0, 0, 0, 0, 0, 0, 0);
    lemma_mul_is_distributive_add(1 * mono(a, d, x1, y1, x2, y2, 0, 0, 0, 0, 0, 0, 0, 0), (-1) * mono(a, d, x1, y1, x2, y2, 0, 0, 1, 1, 1, 1, 1, 0), 1 * mono(a, d, x1, y1, x2, y2, 0, 0, 0, 0, 0, 0, 0, 0));
    lemma_term_mul(a, d, x1, y1, x2, y2, 0, 1, 0, 0, 0, 0, 0, 0, 0, -1, 0, 1, 1, 1, 1, 1, 0);
    lemma_term_mul(a, d, x1, y1, x2, y2, 0, 1, 0, 0, 0, 0, 0, 0, 0, 1, 0, 0, 0, 0, 0, 0, 0);
    assert(((-1) * mono(a, d, x1, y1, x2, y2, 0, 0, 1, 1, 1, 1, 1, 0) + 1 * mono(a, d, x1, y1, x2, y2, 0, 0, 0, 0, 0, 0, 0, 0)) * ((-1) * mono(a, d, x1, y1, x2, y2, 0, 0, 1, 1, 1, 1, 1, 0) + 1 * mono(a, d, x1, y1, x2, y2, 0, 0, 0, 0, 0, 0, 0, 0)) == 1 * mono(a, d, x1, y1, x2, y2, 0, 0, 2, 2, 2, 2, 2, 0) + (-2) * mono(a, d, x1, y1, x2, y2, 0, 0, 1, 1, 1, 1, 1, 0) + 1 * mono(a, d, x1, y1, x2, y2, 0, 0, 0, 0, 0, 0, 0, 0));
    assert((d2 * d2) == 1 * mono(a, d, x1, y1, x2, y2, 0, 0, 2, 2, 2, 2, 2, 0) + (-2) * mono(a, d, x1, y1, x2, y2, 0, 0, 1, 1, 1, 1, 1, 0) + 1 * mono(a, d, x1, y1, x2, y2, 0, 0, 0, 0, 0, 0, 0, 0));
    lemma_mul_is_distributive_add_other_way((1 * mono(a, d, x1, y1, x2, y2, 0, 0, 2, 2, 2, 2, 2, 0) + (-2) * mono(a, d, x1, y1, x2, y2, 0, 0, 1, 1, 1, 1, 1, 0) + 1 * mono(a, d, x1, y1, x2, y2, 0, 0, 0, 0, 0, 0, 0, 0)), 1 * mono(a, d, x1, y1, x2, y2, 0, 0, 0, 2, 0, 0, 2, 0), 2 * mono(a, d, x1, y1, x2, y2, 0, 0, 0, 1, 1, 1, 1, 0));
    lemma_mul_is_distributive_add_other_way((1 * mono(a, d, x1, y1, x2, y2, 0, 0, 2, 2, 2, 2, 2, 0) + (-2) * mono(a, d, x1, y1, x2, y2, 0, 0, 1, 1, 1, 1, 1, 0) + 1 * mono(a, d, x1, y1, x2, y2, 0, 0, 0, 0, 0, 0, 0, 0)), 1 * mono(a, d, x1, y1, x2, y2, 0, 0, 0, 2, 0, 0, 2, 0) + 2 * mono(a, d, x1, y1, x2, y2, 0, 0, 0, 1, 1, 1, 1, 0), 1 * mono(a, d, x1, y1, x2, y2, 0, 0, 0, 0, 2, 2, 0, 0));
    lemma_mul_is_distributive_add(1 * mono(a, d, x1, y1, x2, y2, 0, 0, 0, 2, 0, 0, 2, 0), 1 * mono(a, d, x1, y1, x2, y2, 0, 0, 2, 2, 2, 2, 2, 0), (-2) * mono(a, d, x1, y1, x2, y2, 0, 0, 1, 1, 1, 1, 1, 0));
    lemma_mul_is_distributive_add(1 * mono(a, d, x1, y1, x2, y2, 0, 0, 0, 2, 0, 0, 2, 0), 1 * mono(a, d, x1, y1, x2, y2, 0, 0, 2, 2, 2, 2, 2, 0) + (-2) * mono(a, d, x1, y1, x2, y2, 0, 0, 1, 1, 1, 1, 1, 0), 1 * mono(a, d, x1, y1, x2, y2, 0, 0, 0, 0, 0, 0, 0, 0));
    lemma_term_mul(a, d, x1, y1, x2, y2, 0, 1, 0, 0, 2, 0, 0, 2, 0, 1, 0, 2, 2, 2, 2, 2, 0);
    lemma_term_mul(a, d, x1, y1, x2, y2, 0, 1, 0, 0, 2, 0, 0, 2, 0, -2, 0, 1, 1, 1, 1, 1, 0);
    lemma_term_mul(a, d, x1, y1, x2, y2, 0, 1, 0, 0, 2, 0, 0, 2, 0, 1, 0, 0, 0, 0, 0, 0, 0);
    lemma_mul_is_distributive_add(2 * mono(a, d, x1, y1, x2, y2, 0, 0, 0, 1, 1, 1, 1, 0), 1 * mono(a, d, x1, y1, x2, y2, 0, 0, 2, 2, 2, 2, 2, 0), (-2) * mono(a, d, x1, y1, x2, y2, 0, 0, 1, 1, 1, 1, 1, 0));
    lemma_mul_is_distributive_add(2 * mono(a, d, x1, y1, x2, y2, 0, 0, 0, 1, 1, 1, 1, 0), 1 * mono(a, d, x1, y1, x2, y2, 0, 0, 2, 2, 2, 2, 2, 0) + (-2) * mono(a, d, x1, y1, x2, y2, 0, 0, 1, 1, 1, 1, 1, 0), 1 * mono(a, d, x1, y1, x2, y2, 0, 0, 0, 0, 0, 0, 0, 0));
    lemma_term_mul(a, d, x1, y1, x2, y2, 0, 2, 0, 0, 1, 1, 1, 1, 0, 1, 0, 2, 2, 2, 2, 2, 0);
    lemma_term_mul(a, d, x1, y1, x2, y2, 0, 2, 0, 0, 1, 1, 1, 1, 0, -2, 0, 1, 1, 1, 1, 1, 0);
    lemma_term_mul(a, d, x1, y1, x2, y2, 0, 2, 0, 0, 1, 1, 1, 1, 0, 1, 0, 0, 0, 0, 0, 0, 0);
    lemma_mul_is_distributive_add(1 * mono(a, d, x1, y1, x2, y2, 0, 0, 0, 0, 2, 2, 0, 0), 1 * mono(a, d, x1, y1, x2, y2, 0, 0, 2, 2, 2, 2, 2, 0), (-2) * mono(a, d, x1, y1, x2, y2, 0, 0, 1, 1, 1, 1, 1, 0));
    lemma_mul_is_distributive_add(1 * mono(a, d, x1, y1, x2, y2, 0, 0, 0, 0, 2, 2, 0, 0), 1 * mono(a, d, x1, y1, x2, y2, 0, 0, 2, 2, 2, 2, 2, 0) + (-2) * mono(a, d, x1, y1, x2, y2, 0, 0, 1, 1, 1, 1, 1, 0), 1 * mono(a, d, x1, y1, x2, y2, 0, 0, 0, 0, 0, 0, 0, 0));
    lemma_term_mul(a, d, x1, y1, x2, y2, 0, 1, 0, 0, 0, 2, 2, 0, 0, 1, 0, 2, 2, 2, 2, 2, 0);
    lemma_term_mul(a, d, x1, y1, x2, y2, 0, 1, 0, 0, 0, 2, 2, 0, 0, -2, 0, 1, 1, 1, 1, 1, 0);
    lemma_term_mul(a, d, x1, y1, x2, y2, 0, 1, 0, 0, 0, 2, 2, 0, 0, 1, 0, 0, 0, 0, 0, 0, 0);
    assert((1 * mono(a, d, x1, y1, x2, y2, 0, 0, 0, 2, 0, 0, 2, 0) + 2 * mono(a, d, x1, y1, x2, y2, 0, 0, 0, 1, 1, 1, 1, 0) + 1 * mono(a, d, x1, y1, x2, y2, 0, 0, 0, 0, 2, 2, 0, 0)) * (1 * mono(a, d, x1, y1, x2, y2, 0, 0, 2, 2, 2, 2, 2, 0) + (-2) * mono(a, d, x1, y1, x2, y2, 0, 0, 1, 1, 1, 1, 1, 0) + 1 * mono(a, d, x1, y1, x2, y2, 0, 0, 0, 0, 0, 0, 0, 0)) == 1 * mono(a, d, x1, y1, x2, y2, 0, 0, 2, 4, 2, 2, 4, 0) + 2 * mono(a, d, x1, y1, x2, y2, 0, 0, 2, 3, 3, 3, 3, 0) + 1 * mono(a, d, x1, y1, x2, y2, 0, 0, 2, 2, 4, 4, 2, 0) + (-2) * mono(a, d, x1, y1, x2, y2, 0, 0, 1, 3, 1, 1, 3, 0) + (-4) * mono(a, d, x1, y1, x2, y2, 0, 0, 1, 2, 2, 2, 2, 0) + (-2) * mono(a, d, x1, y1, x2, y2, 0, 0, 1, 1, 3, 3, 1, 0) + 1 * mono(a, d, x1, y1, x2, y2, 0, 0, 0, 2, 0, 0, 2, 0) + 2 * mono(a, d, x1, y1, x2, y2, 0, 0, 0, 1, 1, 1, 1, 0) + 1 * mono(a, d, x1, y1, x2, y2, 0, 0, 0, 0, 2, 2, 0, 0));
    assert(((n1 * n1) * (d2 * d2)) == 1 * mono(a, d, x1, y1, x2, y2, 0, 0, 2, 4, 2, 2, 4, 0) + 2 * mono(a, d, x1, y1, x2, y2, 0, 0, 2, 3, 3, 3, 3, 0) + 1 * mono(a, d, x1, y1, x2, y2, 0, 0, 2, 2, 4, 4, 2, 0) + (-2) * mono(a, d, x1, y1, x2, y2, 0, 0, 1, 3, 1, 1, 3, 0) + (-4) * mono(a, d, x1, y1, x2, y2, 0, 0, 1, 2, 2, 2, 2, 0) + (-2) * mono(a, d, x1, y1, x2, y2, 0, 0, 1, 1, 3, 3, 1, 0) + 1 * mono(a, d, x1, y1, x2, y2, 0, 0, 0, 2, 0, 0, 2, 0) + 2 * mono(a, d, x1, y1, x2, y2, 0, 0, 0, 1, 1, 1, 1, 0) + 1 * mono(a, d, x1, y1, x2, y2, 0, 0, 0, 0, 2, 2, 0, 0));
    lemma_mul_is_distributive_add(1 * mono(a, d, x1, y1, x2, y2, 0, 1, 0, 0, 0, 0, 0, 0), 1 * mono(a, d, x1, y1, x2, y2, 0, 0, 2, 4, 2, 2, 4, 0), 2 * mono(a, d, x1, y1, x2, y2, 0, 0, 2, 3, 3, 3, 3, 0));
    lemma_mul_is_distributive_add(1 * mono(a, d, x1, y1, x2, y2, 0, 1, 0, 0, 0, 0, 0, 0), 1 * mono(a, d, x1, y1, x2, y2, 0, 0, 2, 4, 2, 2, 4, 0) + 2 * mono(a, d, x1, y1, x2, y2, 0, 0, 2, 3, 3, 3, 3, 0), 1 * mono(a, d, x1, y1, x2, y2, 0, 0, 2, 2, 4, 4, 2, 0));
    lemma_mul_is_distributive_add(1 * mono(a, d, x1, y1, x2, y2, 0, 1, 0, 0, 0, 0, 0, 0), 1 * mono(a, d, x1, y1, x2, y2, 0, 0, 2, 4, 2, 2, 4, 0) + 2 * mono(a, d, x1, y1, x2, y2, 0, 0, 2, 3, 3, 3, 3, 0) + 1 * mono(a, d, x1, y1, x2, y2, 0, 0, 2, 2, 4, 4, 2, 0), (-2) * mono(a, d, x1, y1, x2, y2, 0, 0, 1, 3, 1, 1, 3, 0));
    lemma_mul_is_distributive_add(1 * mono(a, d, x1, y1, x2, y2, 0, 1, 0, 0, 0, 0, 0, 0), 1 * mono(a, d, x1, y1, x2, y2, 0, 0, 2, 4, 2, 2, 4, 0) + 2 * mono(a, d, x1, y1, x2, y2, 0, 0, 2, 3, 3, 3, 3, 0) + 1 * mono(a, d, x1, y1, x2, y2, 0, 0, 2, 2, 4, 4, 2, 0) + (-2) * mono(a, d, x1, y1, x2, y2, 0, 0, 1, 3, 1, 1, 3, 0), (-4) * mono(a, d, x1, y1, x2, y2, 0, 0, 1, 2, 2, 2, 2, 0));
    lemma_mul_is_distributive_add(1 * mono(a, d, x1, y1, x2, y2, 0, 1, 0, 0, 0, 0, 0, 0), 1 * mono(a, d, x1, y1, x2, y2, 0, 0, 2, 4, 2, 2, 4, 0) + 2 * mono(a, d, x1, y1, x2, y2, 0, 0, 2, 3, 3, 3, 3, 0) + 1 * mono(a, d, x1, y1, x2, y2, 0, 0, 2, 2, 4, 4, 2, 0) + (-2) * mono(a, d, x1, y1, x2, y2, 0, 0, 1, 3, 1, 1, 3, 0) + (-4) * mono(a, d, x1, y1, x2, y2, 0, 0, 1, 2, 2, 2, 2, 0), (-2) * mono(a, d, x1, y1, x2, y2, 0, 0, 1, 1, 3, 3, 1, 0));
    lemma_mul_is_distributive_add(1 * mono(a, d, x1, y1, x2, y2, 0, 1, 0, 0, 0, 0, 0, 0), 1 * mono(a, d, x1, y1, x2, y2, 0, 0, 2, 4, 2, 2, 4, 0) + 2 * mono(a, d, x1, y1, x2, y2, 0, 0, 2, 3, 3, 3, 3, 0) + 1 * mono(a, d, x1, y1, x2, y2, 0, 0, 2, 2, 4, 4, 2, 0) + (-2) * mono(a, d, x1, y1, x2, y2, 0, 0, 1, 3, 1, 1, 3, 0) + (-4) * mono(a, d, x1, y1, x2, y2, 0, 0, 1, 2, 2, 2, 2, 0) + (-2) * mono(a, d, x1, y1, x2, y2, 0, 0, 1, 1, 3, 3, 1, 0), 1 * mono(a, d, x1, y1, x2, y2, 0, 0, 0, 2, 0, 0, 2, 0));
    lemma_mul_is_distributive_add(1 * mono(a, d, x1, y1, x2, y2, 0, 1, 0, 0, 0, 0, 0, 0), 1 * mono(a, d, x1, y1, x2, y2, 0, 0, 2, 4, 2, 2, 4, 0) + 2 * mono(a, d, x1, y1, x2, y2, 0, 0, 2, 3, 3, 3, 3, 0) + 1 * mono(a, d, x1, y1, x2, y2, 0, 0, 2, 2, 4, 4, 2, 0) + (-2) * mono(a, d, x1, y1, x2, y2, 0, 0, 1, 3, 1, 1, 3, 0) + (-4) * mono(a, d, x1, y1, x2, y2, 0, 0, 1, 2, 2, 2, 2, 0) + (-2) * mono(a, d, x1, y1, x2, y2, 0, 0, 1, 1, 3, 3, 1, 0) + 1 * mono(a, d, x1, y1, x2, y2, 0, 0, 0, 2, 0, 0, 2, 0), 2 * mono(a, d, x1, y1, x2, y2, 0, 0, 0, 1, 1, 1, 1, 0));
    lemma_mul_is_distributive_add(1 * mono(a, d, x1, y1, x2, y2, 0, 1, 0, 0, 0, 0, 0, 0), 1 * mono(a, d, x1, y1, x2, y2, 0, 0, 2, 4, 2, 2, 4, 0) + 2 * mono(a, d, x1, y1, x2, y2, 0, 0, 2, 3, 3, 3, 3, 0) + 1 * mono(a, d, x1, y1, x2, y2, 0, 0, 2, 2, 4, 4, 2, 0) + (-2) * mono(a, d, x1, y1, x2, y2, 0, 0, 1, 3, 1, 1, 3, 0) + (-4) * mono(a, d, x1, y1, x2, y2, 0, 0, 1, 2, 2, 2, 2, 0) + (-2) * mono(a, d, x1, y1, x2, y2, 0, 0, 1, 1, 3, 3, 1, 0) + 1 * mono(a, d, x1, y1, x2, y2, 0, 0, 0, 2, 0, 0, 2, 0) + 2 * mono(a, d, x1, y1, x2, y2, 0, 0, 0, 1, 1, 1, 1, 0), 1 * mono(a, d, x1, y1, x2, y2, 0, 0, 0, 0, 2, 2, 0, 0));
    lemma_term_mul(a, d, x1, y1, x2, y2, 0, 1, 1, 0, 0, 0, 0, 0, 0, 1, 0, 2, 4, 2, 2, 4, 0);
    lemma_term_mul(a, d, x1, y1, x2, y2, 0, 1, 1, 0, 0, 0, 0, 0, 0, 2, 0, 2, 3, 3, 3, 3, 0);
    lemma_term_mul(a, d, x1, y1, x2, y2, 0, 1, 1, 0, 0, 0, 0, 0, 0, 1, 0, 2, 2, 4, 4, 2, 0);
    lemma_term_mul(a, d, x1, y1, x2, y2, 0, 1, 1, 0, 0, 0, 0, 0, 0, -2, 0, 1, 3, 1, 1, 3, 0);
    lemma_term_mul(a, d, x1, y1, x2, y2, 0, 1, 1, 0, 0, 0, 0, 0, 0, -4, 0, 1, 2, 2, 2, 2, 0);
    lemma_term_mul(a, d, x1, y1, x2, y2, 0, 1, 1, 0, 0, 0, 0, 0, 0, -2, 0, 1, 1, 3, 3, 1, 0);
    lemma_term_mul(a, d, x1, y1, x2, y2, 0, 1, 1, 0, 0, 0, 0, 0, 0, 1, 0, 0, 2, 0, 0, 2, 0);
    lemma_term_mul(a, d, x1, y1, x2, y2, 0, 1, 1, 0, 0, 0, 0, 0, 0, 2, 0, 0, 1, 1, 1, 1, 0);
    lemma_term_mul(a, d, x1, y1, x2, y2, 0, 1, 1, 0, 0, 0, 0, 0, 0, 1, 0, 0, 0, 2, 2, 0, 0);
    assert((1 * mono(a, d, x1, y1, x2, y2, 0, 1, 0, 0, 0, 0, 0, 0)) * (1 * mono(a, d, x1, y1, x2, y2, 0, 0, 2, 4, 2, 2, 4, 0) + 2 * mono(a, d, x1, y1, x2, y2, 0, 0, 2, 3, 3, 3, 3, 0) + 1 * mono(a, d, x1, y1, x2, y2, 0, 0, 2, 2, 4, 4, 2, 0) + (-2) * mono(a, d, x1, y1, x2, y2, 0, 0, 1, 3, 1, 1, 3, 0) + (-4) * mono(a, d, x1, y1, x2, y2, 0, 0, 1, 2, 2, 2, 2, 0) + (-2) * mono(a, d, x1, y1, x2, y2, 0, 0, 1, 1, 3, 3, 1, 0) + 1 * mono(a, d, x1, y1, x2, y2, 0, 0, 0, 2, 0, 0, 2, 0) + 2 * mono(a, d, x1, y1, x2, y2, 0, 0, 0, 1, 1, 1, 1, 0) + 1 * mono(a, d, x1, y1, x2, y2, 0, 0, 0, 0, 2, 2, 0, 0)) == 1 * mono(a, d, x1, y1, x2, y2, 0, 1, 2, 4, 2, 2, 4, 0) + 2 * mono(a, d, x1, y1, x2, y2, 0, 1, 2, 3, 3, 3, 3, 0) + 1 * mono(a, d, x1, y1, x2, y2, 0, 1, 2, 2, 4, 4, 2, 0) + (-2) * mono(a, d, x1, y1, x2, y2, 0, 1, 1, 3, 1, 1, 3, 0) + (-4) * mono(a, d, x1, y1, x2, y2, 0, 1, 1, 2, 2, 2, 2, 0) + (-2) * mono(a, d, x1, y1, x2, y2, 0, 1, 1, 1, 3, 3, 1, 0) + 1 * mono(a, d, x1, y1, x2, y2, 0, 1, 0, 2, 0, 0, 2, 0) + 2 * mono(a, d, x1, y1, x2, y2, 0, 1, 0, 1, 1, 1, 1, 0) + 1 * mono(a, d, x1, y1, x2, y2, 0, 1, 0, 0, 2, 2, 0, 0));
    assert((a * ((n1 * n1) * (d2 * d2))) == 1 * mono(a, d, x1, y1, x2, y2, 0, 1, 2, 4, 2, 2, 4, 0) + 2 * mono(a, d, x1, y1, x2, y2, 0, 1, 2, 3, 3, 3, 3, 0) + 1 * mono(a, d, x1, y1, x2, y2, 0, 1, 2, 2, 4, 4, 2, 0) + (-2) * mono(a, d, x1, y1, x2, y2, 0, 1, 1, 3, 1, 1, 3, 0) + (-4) * mono(a, d, x1, y1, x2, y2, 0, 1, 1, 2, 2, 2, 2, 0) + (-2) * mono(a, d, x1, y1, x2, y2, 0, 1, 1, 1, 3, 3, 1, 0) + 1 * mono(a, d, x1, y1, x2, y2, 0, 1, 0, 2, 0, 0, 2, 0) + 2 * mono(a, d, x1, y1, x2, y2, 0, 1, 0, 1, 1, 1, 1, 0) + 1 * mono(a, d, x1, y1, x2, y2, 0, 1, 0, 0, 2, 2, 0, 0));
    lemma_mul_is_distributive_add_other_way(((-1) * mono(a, d, x1, y1, x2, y2, 0, 1, 0, 1, 0, 1, 0, 0) + 1 * mono(a, d, x1, y1, x2, y2, 0, 0, 0, 0, 1, 0, 1, 0)), (-1) * mono(a, d, x1, y1, x2, y2, 0, 1, 0, 1, 0, 1, 0, 0), 1 * mono(a, d, x1, y1, x2, y2, 0, 0, 0, 0, 1, 0, 1, 0));
    lemma_mul_is_distributive_add((-1) * mono(a, d, x1, y1, x2, y2, 0, 1, 0, 1, 0, 1, 0, 0), (-1) * mono(a, d, x1, y1, x2, y2, 0, 1, 0, 1, 0, 1, 0, 0), 1 * mono(a, d, x1, y1, x2, y2, 0, 0, 0, 0, 1, 0, 1, 0));
    lemma_term_mul(a, d, x1, y1, x2, y2, 0, -1, 1, 0, 1, 0, 1, 0, 0, -1, 1, 0, 1, 0, 1, 0, 0);
    lemma_term_mul(a, d, x1, y1, x2, y2, 0, -1, 1, 0, 1, 0, 1, 0, 0, 1, 0, 0, 0, 1, 0, 1, 0);
    lemma_mul_is_distributive_add(1 * mono(a, d, x1, y1, x2, y2, 0, 0, 0, 0, 1, 0, 1, 0), (-1) * mono(a, d, x1, y1, x2, y2, 0, 1, 0, 1, 0, 1, 0, 0), 1 * mono(a, d, x1, y1, x2, y2, 0, 0, 0, 0, 1, 0, 1, 0));
    lemma_term_mul(a, d, x1, y1, x2, y2, 0, 1, 0, 0, 0, 1, 0, 1, 0, -1, 1, 0, 1, 0, 1, 0, 0);
    lemma_term_mul(a, d, x1, y1, x2, y2, 0, 1, 0, 0, 0, 1, 0, 1, 0, 1, 0, 0, 0, 1, 0, 1, 0);
    assert(((-1) * mono(a, d, x1, y1, x2, y2, 0, 1, 0, 1, 0, 1, 0, 0) + 1 * mono(a, d, x1, y1, x2, y2, 0, 0, 0, 0, 1, 0, 1, 0)) * ((-1) * mono(a, d, x1, y1, x2, y2, 0, 1, 0, 1, 0, 1, 0, 0) + 1 * mono(a, d, x1, y1, x2, y2, 0, 0, 0, 0, 1, 0, 1, 0)) == 1 * mono(a, d, x1, y1, x2, y2, 0, 2, 0, 2, 0, 2, 0, 0) + (-2) * mono(a, d, x1, y1, x2, y2, 0, 1, 0, 1, 1, 1, 1, 0) + 1 * mono(a, d, x1, y1, x2, y2, 0, 0, 0, 0, 2, 0, 2, 0));
    assert((n2 * n2) == 1 * mono(a, d, x1, y1, x2, y2, 0, 2, 0, 2, 0, 2, 0, 0) + (-2) * mono(a, d, x1, y1, x2, y2, 0, 1, 0, 1, 1, 1, 1, 0) + 1 * mono(a, d, x1, y1, x2, y2, 0, 0, 0, 0, 2, 0, 2, 0));
    lemma_mul_is_distributive_add_other_way((1 * mono(a, d, x1, y1, x2, y2, 0, 0, 1, 1, 1, 1, 1, 0) + 1 * mono(a, d, x1, y1, x2, y2, 0, 0, 0, 0, 0, 0, 0, 0)), 1 * mono(a, d, x1, y1, x2, y2, 0, 0, 1, 1, 1, 1, 1, 0), 1 * mono(a, d, x1, y1, x2, y2, 0, 0, 0, 0, 0, 0, 0, 0));
    lemma_mul_is_distributive_add(1 * mono(a, d, x1, y1, x2, y2, 0, 0, 1, 1, 1, 1, 1, 0), 1 * mono(a, d, x1, y1, x2, y2, 0, 0, 1, 1, 1, 1, 1, 0), 1 * mono(a, d, x1, y1, x2, y2, 0, 0, 0, 0, 0, 0, 0, 0));
    lemma_term_mul(a, d, x1, y1, x2, y2, 0, 1, 0, 1, 1, 1, 1, 1, 0, 1, 0, 1, 1, 1, 1, 1, 0);
    lemma_term_mul(a, d, x1, y1, x2, y2, 0, 1, 0, 1, 1, 1, 1, 1, 0, 1, 0, 0, 0, 0, 0, 0, 0);
    lemma_mul_is_distributive_add(1 * mono(a, d, x1, y1, x2, y2, 0, 0, 0, 0, 0, 0, 0, 0), 1 * mono(a, d, x1, y1, x2, y2, 0, 0, 1, 1, 1, 1, 1, 0), 1 * mono(a, d, x1, y1, x2, y2, 0, 0, 0, 0, 0, 0, 0, 0));
    lemma_term_mul(a, d, x1, y1, x2, y2, 0, 1, 0, 0, 0, 0, 0, 0, 0, 1, 0, 1, 1, 1, 1, 1, 0);
    lemma_term_mul(a, d, x1, y1, x2, y2, 0, 1, 0, 0, 0, 0, 0, 0, 0, 1, 0, 0, 0, 0, 0, 0, 0);
    assert((1 * mono(a, d, x1, y1, x2, y2, 0, 0, 1, 1, 1, 1, 1, 0) + 1 * mono(a, d, x1, y1, x2, y2, 0, 0, 0, 0, 0, 0, 0, 0)) * (1 * mono(a, d, x1, y1, x2, y2, 0, 0, 1, 1, 1, 1, 1, 0) + 1 * mono(a, d, x1, y1, x2, y2, 0, 0, 0, 0, 0, 0, 0, 0)) == 1 * mono(a, d, x1, y1, x2, y2, 0, 0, 2, 2, 2, 2, 2, 0) + 2 * mono(a, d, x1, y1, x2, y2, 0, 0, 1, 1, 1, 1, 1, 0) + 1 * mono(a, d, x1, y1, x2, y2, 0, 0, 0, 0, 0, 0, 0, 0));
    assert((d1 * d1) == 1 * mono(a, d, x1, y1, x2, y2, 0, 0, 2, 2, 2, 2, 2, 0) + 2 * mono(a, d, x1, y1, x2, y2, 0, 0, 1, 1, 1, 1, 1, 0) + 1 * mono(a, d, x1, y1, x2, y2, 0, 0, 0, 0, 0, 0, 0, 0));
    lemma_mul_is_distributive_add_other_way((1 * mono(a, d, x1, y1, x2, y2, 0, 0, 2, 2, 2, 2, 2, 0) + 2 * mono(a, d, x1, y1, x2, y2, 0, 0, 1, 1, 1, 1, 1, 0) + 1 * mono(a, d, x1, y1, x2, y2, 0, 0, 0, 0, 0, 0, 0, 0)), 1 * mono(a, d, x1, y1, x2, y2, 0, 2, 0, 2, 0, 2, 0, 0), (-2) * mono(a, d, x1, y1, x2, y2, 0, 1, 0, 1, 1, 1, 1, 0));
    lemma_mul_is_distributive_add_other_way((1 * mono(a, d, x1, y1, x2, y2, 0, 0, 2, 2, 2, 2, 2, 0) + 2 * mono(a, d, x1, y1, x2, y2, 0, 0, 1, 1, 1, 1, 1, 0) + 1 * mono(a, d, x1, y1, x2, y2, 0, 0, 0, 0, 0, 0, 0, 0)), 1 * mono(a, d, x1, y1, x2, y2, 0, 2, 0, 2, 0, 2, 0, 0) + (-2) * mono(a, d, x1, y1, x2, y2, 0, 1, 0, 1, 1, 1, 1, 0), 1 * mono(a, d, x1, y1, x2, y2, 0, 0, 0, 0, 2, 0, 2, 0));
    lemma_mul_is_distributive_add(1 * mono(a, d, x1, y1, x2, y2, 0, 2, 0, 2, 0, 2, 0, 0), 1 * mono(a, d, x1, y1, x2, y2, 0, 0, 2, 2, 2, 2, 2, 0), 2 * mono(a, d, x1, y1, x2, y2, 0, 0, 1, 1, 1, 1, 1, 0));
    lemma_mul_is_distributive_add(1 * mono(a, d, x1, y1, x2, y2, 0, 2, 0, 2, 0, 2, 0, 0), 1 * mono(a, d, x1, y1, x2, y2, 0, 0, 2, 2, 2, 2, 2, 0) + 2 * mono(a, d, x1, y1, x2, y2, 0, 0, 1, 1, 1, 1, 1, 0), 1 * mono(a, d, x1, y1, x2, y2, 0, 0, 0, 0, 0, 0, 0, 0));
    lemma_term_mul(a, d, x1, y1, x2, y2, 0, 1, 2, 0, 2, 0, 2, 0, 0, 1, 0, 2, 2, 2, 2, 2, 0);
    lemma_term_mul(a, d, x1, y1, x2, y2, 0, 1, 2, 0, 2, 0, 2, 0, 0, 2, 0, 1, 1, 1, 1, 1, 0);
    lemma_term_mul(a, d, x1, y1, x2, y2, 0, 1, 2, 0, 2, 0, 2, 0, 0, 1, 0, 0, 0, 0, 0, 0, 0);
    lemma_mul_is_distributive_add((-2) * mono(a, d, x1, y1, x2, y2, 0, 1, 0, 1, 1, 1, 1, 0), 1 * mono(a, d, x1, y1, x2, y2, 0, 0, 2, 2, 2, 2, 2, 0), 2 * mono(a, d, x1, y1, x2, y2, 0, 0, 1, 1, 1, 1, 1, 0));
    lemma_mul_is_distributive_add((-2) * mono(a, d, x1, y1, x2, y2, 0, 1, 0, 1, 1, 1, 1, 0), 1 * mono(a, d, x1, y1, x2, y2, 0, 0, 2, 2, 2, 2, 2, 0) + 2 * mono(a, d, x1, y1, x2, y2, 0, 0, 1, 1, 1, 1, 1, 0), 1 * mono(a, d, x1, y1, x2, y2, 0, 0, 0, 0, 0, 0, 0, 0));
    lemma_term_mul(a, d, x1, y1, x2, y2, 0, -2, 1, 0, 1, 1, 1, 1, 0, 1, 0, 2, 2, 2, 2, 2, 0);
    lemma_term_mul(a, d, x1, y1, x2, y2, 0, -2, 1, 0, 1, 1, 1, 1, 0, 2, 0, 1, 1, 1, 1, 1, 0);
    lemma_term_mul(a, d, x1, y1, x2, y2, 0, -2, 1, 0, 1, 1, 1, 1, 0, 1, 0, 0, 0, 0, 0, 0, 0);
    lemma_mul_is_distributive_add(1 * mono(a, d, x1, y1, x2, y2, 0, 0, 0, 0, 2, 0, 2, 0), 1 * mono(a, d, x1, y1, x2, y2, 0, 0, 2, 2, 2, 2, 2, 0), 2 * mono(a, d, x1, y1, x2, y2, 0, 0, 1, 1, 1, 1, 1, 0));
    lemma_mul_is_distributive_add(1 * mono(a, d, x1, y1, x2, y2, 0, 0, 0, 0, 2, 0, 2, 0), 1 * mono(a, d, x1, y1, x2, y2, 0, 0, 2, 2, 2, 2, 2, 0) + 2 * mono(a, d, x1, y1, x2, y2, 0, 0, 1, 1, 1, 1, 1, 0), 1 * mono(a, d, x1, y1, x2, y2, 0, 0, 0, 0, 0, 0, 0, 0));
    lemma_term_mul(a, d, x1, y1, x2, y2, 0, 1, 0, 0, 0, 2, 0, 2, 0, 1, 0, 2, 2, 2, 2, 2, 0);
    lemma_term_mul(a, d, x1, y1, x2, y2, 0, 1, 0, 0, 0, 2, 0, 2, 0, 2, 0, 1, 1, 1, 1, 1, 0);
    lemma_term_mul(a, d, x1, y1, x2, y2, 0, 1, 0, 0, 0, 2, 0, 2, 0, 1, 0, 0, 0, 0, 0, 0, 0);
    assert((1 * mono(a, d, x1, y1, x2, y2, 0, 2, 0, 2, 0, 2, 0, 0) + (-2) * mono(a, d, x1, y1, x2, y2, 0, 1, 0, 1, 1, 1, 1, 0) + 1 * mono(a, d, x1, y1, x2, y2, 0, 0, 0, 0, 2, 0, 2, 0)) * (1 * mono(a, d, x1, y1, x2, y2, 0, 0, 2, 2, 2, 2, 2, 0) + 2 * mono(a, d, x1, y1, x2, y2, 0, 0, 1, 1, 1, 1, 1, 0) + 1 * mono(a, d, x1, y1, x2, y2, 0, 0, 0, 0, 0, 0, 0, 0)) == 1 * mono(a, d, x1, y1, x2, y2, 0, 2, 2, 4, 2, 4, 2, 0) + 2 * mono(a, d, x1, y1, x2, y2, 0, 2, 1, 3, 1, 3, 1, 0) + 1 * mono(a, d, x1, y1, x2, y2, 0, 2, 0, 2, 0, 2, 0, 0) + (-2) * mono(a, d, x1, y1, x2, y2, 0, 1, 2, 3, 3, 3, 3, 0) + (-4) * mono(a, d, x1, y1, x2, y2, 0, 1, 1, 2, 2, 2, 2, 0) + (-2) * mono(a, d, x1, y1, x2, y2, 0, 1, 0, 1, 1, 1, 1, 0) + 1 * mono(a, d, x1, y1, x2, y2, 0, 0, 2, 2, 4, 2, 4, 0) + 2 * mono(a, d, x1, y1, x2, y2, 0, 0, 1, 1, 3, 1, 3, 0) + 1 * mono(a, d, x1, y1, x2, y2, 0, 0, 0, 0, 2, 0, 2, 0));
    assert(((n2 * n2) * (d1 * d1)) == 1 * mono(a, d, x1, y1, x2, y2, 0, 2, 2, 4, 2, 4, 2, 0) + 2 * mono(a, d, x1, y1, x2, y2, 0, 2, 1, 3, 1, 3, 1, 0) + 1 * mono(a, d, x1, y1, x2, y2, 0, 2, 0, 2, 0, 2, 0, 0) + (-2) * mono(a, d, x1, y1, x2, y2, 0, 1, 2, 3, 3, 3, 3, 0) + (-4) * mono(a, d, x1, y1, x2, y2, 0, 1, 1, 2, 2, 2, 2, 0) + (-2) * mono(a, d, x1, y1, x2, y2, 0, 1, 0, 1, 1, 1, 1, 0) + 1 * mono(a, d, x1, y1, x2, y2, 0, 0, 2, 2, 4, 2, 4, 0) + 2 * mono(a, d, x1, y1, x2, y2, 0, 0, 1, 1, 3, 1, 3, 0) + 1 * mono(a, d, x1, y1, x2, y2, 0, 0, 0, 0, 2, 0, 2, 0));
    assert(((a * ((n1 * n1) * (d2 * d2))) + ((n2 * n2) * (d1 * d1))) == 1 * mono(a, d, x1, y1, x2, y2, 0, 2, 2, 4, 2, 4, 2, 0) + 2 * mono(a, d, x1, y1, x2, y2, 0, 2, 1, 3, 1, 3, 1, 0) + 1 * mono(a, d, x1, y1, x2, y2, 0, 2, 0, 2, 0, 2, 0, 0) + 1 * mono(a, d, x1, y1, x2, y2, 0, 1, 2, 4, 2, 2, 4, 0) + 1 * mono(a, d, x1, y1, x2, y2, 0, 1, 2, 2, 4, 4, 2, 0) + (-2) * mono(a, d, x1, y1, x2, y2, 0, 1, 1, 3, 1, 1, 3, 0) + (-8) * mono(a, d, x1, y1, x2, y2, 0, 1, 1, 2, 2, 2, 2, 0) + (-2) * mono(a, d, x1, y1, x2, y2, 0, 1, 1, 1, 3, 3, 1, 0) + 1 * mono(a, d, x1, y1, x2, y2, 0, 1, 0, 2, 0, 0, 2, 0) + 1 * mono(a, d, x1, y1, x2, y2, 0, 1, 0, 0, 2, 2, 0, 0) + 1 * mono(a, d, x1, y1, x2, y2, 0, 0, 2, 2, 4, 2, 4, 0) + 2 * mono(a, d, x1, y1, x2, y2, 0, 0, 1, 1, 3, 1, 3, 0) + 1 * mono(a, d, x1, y1, x2, y2, 0, 0, 0, 0, 2, 0, 2, 0));
    assert((d1 * d1) == 1 * mono(a, d, x1, y1, x2, y2, 0, 0, 2, 2, 2, 2, 2, 0) + 2 * mono(a, d, x1, y1, x2, y2, 0, 0, 1, 1, 1, 1, 1, 0) + 1 * mono(a, d, x1, y1, x2, y2, 0, 0, 0, 0, 0, 0, 0, 0));
    assert((d2 * d2) == 1 * mono(a, d, x1, y1, x2, y2, 0, 0, 2, 2, 2, 2, 2, 0) + (-2) * mono(a, d, x1, y1, x2, y2, 0, 0, 1, 1, 1, 1, 1, 0) + 1 * mono(a, d, x1, y1, x2, y2, 0, 0, 0, 0, 0, 0, 0, 0));
    lemma_mul_is_distributive_add_other_way((1 * mono(a, d, x1, y1, x2, y2, 0, 0, 2, 2, 2, 2, 2, 0) + (-2) * mono(a, d, x1, y1, x2, y2, 0, 0, 1, 1, 1, 1, 1, 0) + 1 * mono(a, d, x1, y1, x2, y2, 0, 0, 0, 0, 0, 0, 0, 0)), 1 * mono(a, d, x1, y1, x2, y2, 0, 0, 2, 2, 2, 2, 2, 0), 2 * mono(a, d, x1, y1, x2, y2, 0, 0, 1, 1, 1, 1, 1, 0));
    lemma_mul_is_distributive_add_other_way((1 * mono(a, d, x1, y1, x2, y2, 0, 0, 2, 2, 2, 2, 2, 0) + (-2) * mono(a, d, x1, y1, x2, y2, 0, 0, 1, 1, 1, 1, 1, 0) + 1 * mono(a, d, x1, y1, x2, y2, 0, 0, 0, 0, 0, 0, 0, 0)), 1 * mono(a, d, x1, y1, x2, y2, 0, 0, 2, 2, 2, 2, 2, 0) + 2 * mono(a, d, x1, y1, x2, y2, 0, 0, 1, 1, 1, 1, 1, 0), 1 * mono(a, d, x1, y1, x2, y2, 0, 0, 0, 0, 0, 0, 0, 0));
    lemma_mul_is_distributive_add(1 * mono(a, d, x1, y1, x2, y2, 0, 0, 2, 2, 2, 2, 2, 0), 1 * mono(a, d, x1, y1, x2, y2, 0, 0, 2, 2, 2, 2, 2, 0), (-2) * mono(a, d, x1, y1, x2, y2, 0, 0, 1, 1, 1, 1, 1, 0));
    lemma_mul_is_distributive_add(1 * mono(a, d, x1, y1, x2, y2, 0, 0, 2, 2, 2, 2, 2, 0), 1 * mono(a, d, x1, y1, x2, y2, 0, 0, 2, 2, 2, 2, 2, 0) + (-2) * mono(a, d, x1, y1, x2, y2, 0, 0, 1, 1, 1, 1, 1, 0), 1 * mono(a, d, x1, y1, x2, y2, 0, 0, 0, 0, 0, 0, 0, 0));
    lemma_term_mul(a, d, x1, y1, x2, y2, 0, 1, 0, 2, 2, 2, 2, 2, 0, 1, 0, 2, 2, 2, 2, 2, 0);
    lemma_term_mul(a, d, x1, y1, x2, y2, 0, 1, 0, 2, 2, 2, 2, 2, 0, -2, 0, 1, 1, 1, 1, 1, 0);
    lemma_term_mul(a, d, x1, y1, x2, y2, 0, 1, 0, 2, 2, 2, 2, 2, 0, 1, 0, 0, 0, 0, 0, 0, 0);
    lemma_mul_is_distributive_add(2 * mono(a, d, x1, y1, x2, y2, 0, 0, 1, 1, 1, 1, 1, 0), 1 * mono(a, d, x1, y1, x2, y2, 0, 0, 2, 2, 2, 2, 2, 0), (-2) * mono(a, d, x1, y1, x2, y2, 0, 0, 1, 1, 1, 1, 1, 0));
    lemma_mul_is_distributive_add(2 * mono(a, d, x1, y1, x2, y2, 0, 0, 1, 1, 1, 1, 1, 0), 1 * mono(a, d, x1, y1, x2, y2, 0, 0, 2, 2, 2, 2, 2, 0) + (-2) * mono(a, d, x1, y1, x2, y2, 0, 0, 1, 1, 1, 1, 1, 0), 1 * mono(a, d, x1, y1, x2, y2, 0, 0, 0, 0, 0, 0, 0, 0));
    lemma_term_mul(a, d, x1, y1, x2, y2, 0, 2, 0, 1, 1, 1, 1, 1, 0, 1, 0, 2, 2, 2, 2, 2, 0);
    lemma_term_mul(a, d, x1, y1, x2, y2, 0, 2, 0, 1, 1, 1, 1, 1, 0, -2, 0, 1, 1, 1, 1, 1, 0);
    lemma_term_mul(a, d, x1, y1, x2, y2, 0, 2, 0, 1, 1, 1, 1, 1, 0, 1, 0, 0, 0, 0, 0, 0, 0);
    lemma_mul_is_distributive_add(1 * mono(a, d, x1, y1, x2, y2, 0, 0, 0, 0, 0, 0, 0, 0), 1 * mono(a, d, x1, y1, x2, y2, 0, 0, 2, 2, 2, 2, 2, 0), (-2) * mono(a, d, x1, y1, x2, y2, 0, 0, 1, 1, 1, 1, 1, 0));
    lemma_mul_is_distributive_add(1 * mono(a, d, x1, y1, x2, y2, 0, 0, 0, 0, 0, 0, 0, 0), 1 * mono(a, d, x1, y1, x2, y2, 0, 0, 2, 2, 2, 2, 2, 0) + (-2) * mono(a, d, x1, y1, x2, y2, 0, 0, 1, 1, 1, 1, 1, 0), 1 * mono(a, d, x1, y1, x2, y2, 0, 0, 0, 0, 0, 0, 0, 0));
    lemma_term_mul(a, d, x1, y1, x2, y2, 0, 1, 0, 0, 0, 0, 0, 0, 0, 1, 0, 2, 2, 2, 2, 2, 0);
    lemma_term_mul(a, d, x1, y1, x2, y2, 0, 1, 0, 0, 0, 0, 0, 0, 0, -2, 0, 1, 1, 1, 1, 1, 0);
    lemma_term_mul(a, d, x1, y1, x2, y2, 0, 1, 0, 0, 0, 0, 0, 0, 0, 1, 0, 0, 0, 0, 0, 0, 0);
    assert((1 * mono(a, d, x1, y1, x2, y2, 0, 0, 2, 2, 2, 2, 2, 0) + 2 * mono(a, d, x1, y1, x2, y2, 0, 0, 1, 1, 1, 1, 1, 0) + 1 * mono(a, d, x1, y1, x2, y2, 0, 0, 0, 0, 0, 0, 0, 0)) * (1 * mono(a, d, x1, y1, x2, y2, 0, 0, 2, 2, 2, 2, 2, 0) + (-2) * mono(a, d, x1, y1, x2, y2, 0, 0, 1, 1, 1, 1, 1, 0) + 1 * mono(a, d, x1, y1, x2, y2, 0, 0, 0, 0, 0, 0, 0, 0)) == 1 * mono(a, d, x1, y1, x2, y2, 0, 0, 4, 4, 4, 4, 4, 0) + (-2) * mono(a, d, x1, y1, x2, y2, 0, 0, 2, 2, 2, 2, 2, 0) + 1 * mono(a, d, x1, y1, x2, y2, 0, 0, 0, 0, 0, 0, 0, 0));
    assert(((d1 * d1) * (d2 * d2)) == 1 * mono(a, d, x1, y1, x2, y2, 0, 0, 4, 4, 4, 4, 4, 0) + (-2) * mono(a, d, x1, y1, x2, y2, 0, 0, 2, 2, 2, 2, 2, 0) + 1 * mono(a, d, x1, y1, x2, y2, 0, 0, 0, 0, 0, 0, 0, 0));
    assert((((a * ((n1 * n1) * (d2 * d2))) + ((n2 * n2) * (d1 * d1))) - ((d1 * d1) * (d2 * d2))) == 1 * mono(a, d, x1, y1, x2, y2, 0, 2, 2, 4, 2, 4, 2, 0) + 2 * mono(a, d, x1, y1, x2, y2, 0, 2, 1, 3, 1, 3, 1, 0) + 1 * mono(a, d, x1, y1, x2, y2, 0, 2, 0, 2, 0, 2, 0, 0) + 1 * mono(a, d, x1, y1, x2, y2, 0, 1, 2, 4, 2, 2, 4, 0) + 1 * mono(a, d, x1, y1, x2, y2, 0, 1, 2, 2, 4, 4, 2, 0) + (-2) * mono(a, d, x1, y1, x2, y2, 0, 1, 1, 3, 1, 1, 3, 0) + (-8) * mono(a, d, x1, y1, x2, y2, 0, 1, 1, 2, 2, 2, 2, 0) + (-2) * mono(a, d, x1, y1, x2, y2, 0, 1, 1, 1, 3, 3, 1, 0) + 1 * mono(a, d, x1, y1, x2, y2, 0, 1, 0, 2, 0, 0, 2, 0) + 1 * mono(a, d, x1, y1, x2, y2, 0, 1, 0, 0, 2, 2, 0, 0) + (-1) * mono(a, d, x1, y1, x2, y2, 0, 0, 4, 4, 4, 4, 4, 0) + 1 * mono(a, d, x1, y1, x2, y2, 0, 0, 2, 2, 4, 2, 4, 0) + 2 * mono(a, d, x1, y1, x2, y2, 0, 0, 2, 2, 2, 2, 2, 0) + 2 * mono(a, d, x1, y1, x2, y2, 0, 0, 1, 1, 3, 1, 3, 0) + 1 * mono(a, d, x1, y1, x2, y2, 0, 0, 0, 0, 2, 0, 2, 0) + (-1) * mono(a, d, x1, y1, x2, y2, 0, 0, 0, 0, 0, 0, 0, 0));
    assert((n1 * n1) == 1 * mono(a, d, x1, y1, x2, y2, 0, 0, 0, 2, 0, 0, 2, 0) + 2 * mono(a, d, x1, y1, x2, y2, 0, 0, 0, 1, 1, 1, 1, 0) + 1 * mono(a, d, x1, y1, x2, y2, 0, 0, 0, 0, 2, 2, 0, 0));
    assert((n2 * n2) == 1 * mono(a, d, x1, y1, x2, y2, 0, 2, 0, 2, 0, 2, 0, 0) + (-2) * mono(a, d, x1, y1, x2, y2, 0, 1, 0, 1, 1, 1, 1, 0) + 1 * mono(a, d, x1, y1, x2, y2, 0, 0, 0, 0, 2, 0, 2, 0));
    lemma_mul_is_distributive_add_other_way((1 * mono(a, d, x1, y1, x2, y2, 0, 2, 0, 2, 0, 2, 0, 0) + (-2) * mono(a, d, x1, y1, x2, y2, 0, 1, 0, 1, 1, 1, 1, 0) + 1 * mono(a, d, x1, y1, x2, y2, 0, 0, 0, 0, 2, 0, 2, 0)), 1 * mono(a, d, x1, y1, x2, y2, 0, 0, 0, 2, 0, 0, 2, 0), 2 * mono(a, d, x1, y1, x2, y2, 0, 0, 0, 1, 1, 1, 1, 0));
    lemma_mul_is_distributive_add_other_way((1 * mono(a, d, x1, y1, x2, y2, 0, 2, 0, 2, 0, 2, 0, 0) + (-2) * mono(a, d, x1, y1, x2, y2, 0, 1, 0, 1, 1, 1, 1, 0) + 1 * mono(a, d, x1, y1, x2, y2, 0, 0, 0, 0, 2, 0, 2, 0)), 1 * mono(a, d, x1, y1, x2, y2, 0, 0, 0, 2, 0, 0, 2, 0) + 2 * mono(a, d, x1, y1, x2, y2, 0, 0, 0, 1, 1, 1, 1, 0), 1 * mono(a, d, x1, y1, x2, y2, 0, 0, 0, 0, 2, 2, 0, 0));
    lemma_mul_is_distributive_add(1 * mono(a, d, x1, y1, x2, y2, 0, 0, 0, 2, 0, 0, 2, 0), 1 * mono(a, d, x1, y1, x2, y2, 0, 2, 0, 2, 0, 2, 0, 0), (-2) * mono(a, d, x1, y1, x2, y2, 0, 1, 0, 1, 1, 1, 1, 0));
    lemma_mul_is_distributive_add(1 * mono(a, d, x1, y1, x2, y2, 0, 0, 0, 2, 0, 0, 2, 0), 1 * mono(a, d, x1, y1, x2, y2, 0, 2, 0, 2, 0, 2, 0, 0) + (-2) * mono(a, d, x1, y1, x2, y2, 0, 1, 0, 1, 1, 1, 1, 0), 1 * mono(a, d, x1, y1, x2, y2, 0, 0, 0, 0, 2, 0, 2, 0));
    lemma_term_mul(a, d, x1, y1, x2, y2, 0, 1, 0, 0, 2, 0, 0, 2, 0, 1, 2, 0, 2, 0, 2, 0, 0);
    lemma_term_mul(a, d, x1, y1, x2, y2, 0, 1, 0, 0, 2, 0, 0, 2, 0, -2, 1, 0, 1, 1, 1, 1, 0);
    lemma_term_mul(a, d, x1, y1, x2, y2, 0, 1, 0, 0, 2, 0, 0, 2, 0, 1, 0, 0, 0, 2, 0, 2, 0);
    lemma_mul_is_distributive_add(2 * mono(a, d, x1, y1, x2, y2, 0, 0, 0, 1, 1, 1, 1, 0), 1 * mono(a, d, x1, y1, x2, y2, 0, 2, 0, 2, 0, 2, 0, 0), (-2) * mono(a, d, x1, y1, x2, y2, 0, 1, 0, 1, 1, 1, 1, 0));
    lemma_mul_is_distributive_add(2 * mono(a, d, x1, y1, x2, y2, 0, 0, 0, 1, 1, 1, 1, 0), 1 * mono(a, d, x1, y1, x2, y2, 0, 2, 0, 2, 0, 2, 0, 0) + (-2) * mono(a, d, x1, y1, x2, y2, 0, 1, 0, 1, 1, 1, 1, 0), 1 * mono(a, d, x1, y1, x2, y2, 0, 0, 0, 0, 2, 0, 2, 0));
    lemma_term_mul(a, d, x1, y1, x2, y2, 0, 2, 0, 0, 1, 1, 1, 1, 0, 1, 2, 0, 2, 0, 2, 0, 0);
    lemma_term_mul(a, d, x1, y1, x2, y2, 0, 2, 0, 0, 1, 1, 1, 1, 0, -2, 1, 0, 1, 1, 1, 1, 0);
    lemma_term_mul(a, d, x1, y1, x2, y2, 0, 2, 0, 0, 1, 1, 1, 1, 0, 1, 0, 0, 0, 2, 0, 2, 0);
    lemma_mul_is_distributive_add(1 * mono(a, d, x1, y1, x2, y2, 0, 0, 0, 0, 2, 2, 0, 0), 1 * mono(a, d, x1, y1, x2, y2, 0, 2, 0, 2, 0, 2, 0, 0), (-2) * mono(a, d, x1, y1, x2, y2, 0, 1, 0, 1, 1, 1, 1, 0));
    lemma_mul_is_distributive_add(1 * mono(a, d, x1, y1, x2, y2, 0, 0, 0, 0, 2, 2, 0, 0), 1 * mono(a, d, x1, y1, x2, y2, 0, 2, 0, 2, 0, 2, 0, 0) + (-2) * mono(a, d, x1, y1, x2, y2, 0, 1, 0, 1, 1, 1, 1, 0), 1 * mono(a, d, x1, y1, x2, y2, 0, 0, 0, 0, 2, 0, 2, 0));
    lemma_term_mul(a, d, x1, y1, x2, y2, 0, 1, 0, 0, 0, 2, 2, 0, 0, 1, 2, 0, 2, 0, 2, 0, 0);
    lemma_term_mul(a, d, x1, y1, x2, y2, 0, 1, 0, 0, 0, 2, 2, 0, 0, -2, 1, 0, 1, 1, 1, 1, 0);
    lemma_term_mul(a, d, x1, y1, x2, y2, 0, 1, 0, 0, 0, 2, 2, 0, 0, 1, 0, 0, 0, 2, 0, 2, 0);
    assert((1 * mono(a, d, x1, y1, x2, y2, 0, 0, 0, 2, 0, 0, 2, 0) + 2 * mono(a, d, x1, y1, x2, y2, 0, 0, 0, 1, 1, 1, 1, 0) + 1 * mono(a, d, x1, y1, x2, y2, 0, 0, 0, 0, 2, 2, 0, 0)) * (1 * mono(a, d, x1, y1, x2, y2, 0, 2, 0, 2, 0, 2, 0, 0) + (-2) * mono(a, d, x1, y1, x2, y2, 0, 1, 0, 1, 1, 1, 1, 0) + 1 * mono(a, d, x1, y1, x2, y2, 0, 0, 0, 0, 2, 0, 2, 0)) == 1 * mono(a, d, x1, y1, x2, y2, 0, 2, 0, 4, 0, 2, 2, 0) + 2 * mono(a, d, x1, y1, x2, y2, 0, 2, 0, 3, 1, 3, 1, 0) + 1 * mono(a, d, x1, y1, x2, y2, 0, 2, 0, 2, 2, 4, 0, 0) + (-2) * mono(a, d, x1, y1, x2, y2, 0, 1, 0, 3, 1, 1, 3, 0) + (-4) * mono(a, d, x1, y1, x2, y2, 0, 1, 0, 2, 2, 2, 2, 0) + (-2) * mono(a, d, x1, y1, x2, y2, 0, 1, 0, 1, 3, 3, 1, 0) + 1 * mono(a, d, x1, y1, x2, y2, 0, 0, 0, 2, 2, 0, 4, 0) + 2 * mono(a, d, x1, y1, x2, y2, 0, 0, 0, 1, 3, 1, 3, 0) + 1 * mono(a, d, x1, y1, x2, y2, 0, 0, 0, 0, 4, 2, 2, 0));
    assert(((n1 * n1) * (n2 * n2)) == 1 * mono(a, d, x1, y1, x2, y2, 0, 2, 0, 4, 0, 2, 2, 0) + 2 * mono(a, d, x1, y1, x2, y2, 0, 2, 0, 3, 1, 3, 1, 0) + 1 * mono(a, d, x1, y1, x2, y2, 0, 2, 0, 2, 2, 4, 0, 0) + (-2) * mono(a, d, x1, y1, x2, y2, 0, 1, 0, 3, 1, 1, 3, 0) + (-4) * mono(a, d, x1, y1, x2, y2, 0, 1, 0, 2, 2, 2, 2, 0) + (-2) * mono(a, d, x1, y1, x2, y2, 0, 1, 0, 1, 3, 3, 1, 0) + 1 * mono(a, d, x1, y1, x2, y2, 0, 0, 0, 2, 2, 0, 4, 0) + 2 * mono(a, d, x1, y1, x2, y2, 0, 0, 0, 1, 3, 1, 3, 0) + 1 * mono(a, d, x1, y1, x2, y2, 0, 0, 0, 0, 4, 2, 2, 0));
    lemma_mul_is_distributive_add(1 * mono(a, d, x1, y1, x2, y2, 0, 0, 1, 0, 0, 0, 0, 0), 1 * mono(a, d, x1, y1, x2, y2, 0, 2, 0, 4, 0, 2, 2, 0), 2 * mono(a, d, x1, y1, x2, y2, 0, 2, 0, 3, 1, 3, 1, 0));
    lemma_mul_is_distributive_add(1 * mono(a, d, x1, y1, x2, y2, 0, 0, 1, 0, 0, 0, 0, 0), 1 * mono(a, d, x1, y1, x2, y2, 0, 2, 0, 4, 0, 2, 2, 0) + 2 * mono(a, d, x1, y1, x2, y2, 0, 2, 0, 3, 1, 3, 1, 0), 1 * mono(a, d, x1, y1, x2, y2, 0, 2, 0, 2, 2, 4, 0, 0));
    lemma_mul_is_distributive_add(1 * mono(a, d, x1, y1, x2, y2, 0, 0, 1, 0, 0, 0, 0, 0), 1 * mono(a, d, x1, y1, x2, y2, 0, 2, 0, 4, 0, 2, 2, 0) + 2 * mono(a, d, x1, y1, x2, y2, 0, 2, 0, 3, 1, 3, 1, 0) + 1 * mono(a, d, x1, y1, x2, y2, 0, 2, 0, 2, 2, 4, 0, 0), (-2) * mono(a, d, x1, y1, x2, y2, 0, 1, 0, 3, 1, 1, 3, 0));
    lemma_mul_is_distributive_add(1 * mono(a, d, x1, y1, x2, y2, 0, 0, 1, 0, 0, 0, 0, 0), 1 * mono(a, d, x1, y1, x2, y2, 0, 2, 0, 4, 0, 2, 2, 0) + 2 * mono(a, d, x1, y1, x2, y2, 0, 2, 0, 3, 1, 3, 1, 0) + 1 * mono(a, d, x1, y1, x2, y2, 0, 2, 0, 2, 2, 4, 0, 0) + (-2) * mono(a, d, x1, y1, x2, y2, 0, 1, 0, 3, 1, 1, 3, 0), (-4) * mono(a, d, x1, y1, x2, y2, 0, 1, 0, 2, 2, 2, 2, 0));
    lemma_mul_is_distributive_add(1 * mono(a, d, x1, y1, x2, y2, 0, 0, 1, 0, 0, 0, 0, 0), 1 * mono(a, d, x1, y1, x2, y2, 0, 2, 0, 4, 0, 2, 2, 0) + 2 * mono(a, d, x1, y1, x2, y2, 0, 2, 0, 3, 1, 3, 1, 0) + 1 * mono(a, d, x1, y1, x2, y2, 0, 2, 0, 2, 2, 4, 0, 0) + (-2) * mono(a, d, x1, y1, x2, y2, 0, 1, 0, 3, 1, 1, 3, 0) + (-4) * mono(a, d, x1, y1, x2, y2, 0, 1, 0, 2, 2, 2, 2, 0), (-2) * mono(a, d, x1, y1, x2, y2, 0, 1, 0, 1, 3, 3, 1, 0));
    lemma_mul_is_distributive_add(1 * mono(a, d, x1, y1, x2, y2, 0, 0, 1, 0, 0, 0, 0, 0), 1 * mono(a, d, x1, y1, x2, y2, 0, 2, 0, 4, 0, 2, 2, 0) + 2 * mono(a, d, x1, y1, x2, y2, 0, 2, 0, 3, 1, 3, 1, 0) + 1 * mono(a, d, x1, y1, x2, y2, 0, 2, 0, 2, 2, 4, 0, 0) + (-2) * mono(a, d, x1, y1, x2, y2, 0, 1, 0, 3, 1, 1, 3, 0) + (-4) * mono(a, d, x1, y1, x2, y2, 0, 1, 0, 2, 2, 2, 2, 0) + (-2) * mono(a, d, x1, y1, x2, y2, 0, 1, 0, 1, 3, 3, 1, 0), 1 * mono(a, d, x1, y1, x2, y2, 0, 0, 0, 2, 2, 0, 4, 0));
    lemma_mul_is_distributive_add(1 * mono(a, d, x1, y1, x2, y2, 0, 0, 1, 0, 0, 0, 0, 0), 1 * mono(a, d, x1, y1, x2, y2, 0, 2, 0, 4, 0, 2, 2, 0) + 2 * mono(a, d, x1, y1, x2, y2, 0, 2, 0, 3, 1, 3, 1, 0) + 1 * mono(a, d, x1, y1, x2, y2, 0, 2, 0, 2, 2, 4, 0, 0) + (-2) * mono(a, d, x1, y1, x2, y2, 0, 1, 0, 3, 1, 1, 3, 0) + (-4) * mono(a, d, x1, y1, x2, y2, 0, 1, 0, 2, 2, 2, 2, 0) + (-2) * mono(a, d, x1, y1, x2, y2, 0, 1, 0, 1, 3, 3, 1, 0) + 1 * mono(a, d, x1, y1, x2, y2, 0, 0, 0, 2, 2, 0, 4, 0), 2 * mono(a, d, x1, y1, x2, y2, 0, 0, 0, 1, 3, 1, 3, 0));
    lemma_mul_is_distributive_add(1 * mono(a, d, x1, y1, x2, y2, 0, 0, 1, 0, 0, 0, 0, 0), 1 * mono(a, d, x1, y1, x2, y2, 0, 2, 0, 4, 0, 2, 2, 0) + 2 * mono(a, d, x1, y1, x2, y2, 0, 2, 0, 3, 1, 3, 1, 0) + 1 * mono(a, d, x1, y1, x2, y2, 0, 2, 0, 2, 2, 4, 0, 0) + (-2) * mono(a, d, x1, y1, x2, y2, 0, 1, 0, 3, 1, 1, 3, 0) + (-4) * mono(a, d, x1, y1, x2, y2, 0, 1, 0, 2, 2, 2, 2, 0) + (-2) * mono(a, d, x1, y1, x2, y2, 0, 1, 0, 1, 3, 3, 1, 0) + 1 * mono(a, d, x1, y1, x2, y2, 0, 0, 0, 2, 2, 0, 4, 0) + 2 * mono(a, d, x1, y1, x2, y2, 0, 0, 0, 1, 3, 1, 3, 0), 1 * mono(a, d, x1, y1, x2, y2, 0, 0, 0, 0, 4, 2, 2, 0));
    lemma_term_mul(a, d, x1, y1, x2, y2, 0, 1, 0, 1, 0, 0, 0, 0, 0, 1, 2, 0, 4, 0, 2, 2, 0);
    lemma_term_mul(a, d, x1, y1, x2, y2, 0, 1, 0, 1, 0, 0, 0, 0, 0, 2, 2, 0, 3, 1, 3, 1, 0);
    lemma_term_mul(a, d, x1, y1, x2, y2, 0, 1, 0, 1, 0, 0, 0, 0, 0, 1, 2, 0, 2, 2, 4, 0, 0);
    lemma_term_mul(a, d, x1, y1, x2, y2, 0, 1, 0, 1, 0, 0, 0, 0, 0, -2, 1, 0, 3, 1, 1, 3, 0);
    lemma_term_mul(a, d, x1, y1, x2, y2, 0, 1, 0, 1, 0, 0, 0, 0, 0, -4, 1, 0, 2, 2, 2, 2, 0);
    lemma_term_mul(a, d, x1, y1, x2, y2, 0, 1, 0, 1, 0, 0, 0, 0, 0, -2, 1, 0, 1, 3, 3, 1, 0);
    lemma_term_mul(a, d, x1, y1, x2, y2, 0, 1, 0, 1, 0, 0, 0, 0, 0, 1, 0, 0, 2, 2, 0, 4, 0);
    lemma_term_mul(a, d, x1, y1, x2, y2, 0, 1, 0, 1, 0, 0, 0, 0, 0, 2, 0, 0, 1, 3, 1, 3, 0);
    lemma_term_mul(a, d, x1, y1, x2, y2, 0, 1, 0, 1, 0, 0, 0, 0, 0, 1, 0, 0, 0, 4, 2, 2, 0);
    assert((1 * mono(a, d, x1, y1, x2, y2, 0, 0, 1, 0, 0, 0, 0, 0)) * (1 * mono(a, d, x1, y1, x2, y2, 0, 2, 0, 4, 0, 2, 2, 0) + 2 * mono(a, d, x1, y1, x2, y2, 0, 2, 0, 3, 1, 3, 1, 0) + 1 * mono(a, d, x1, y1, x2, y2, 0, 2, 0, 2, 2, 4, 0, 0) + (-2) * mono(a, d, x1, y1, x2, y2, 0, 1, 0, 3, 1, 1, 3, 0) + (-4) * mono(a, d, x1, y1, x2, y2, 0, 1, 0, 2, 2, 2, 2, 0) + (-2) * mono(a, d, x1, y1, x2, y2, 0, 1, 0, 1, 3, 3, 1, 0) + 1 * mono(a, d, x1, y1, x2, y2, 0, 0, 0, 2, 2, 0, 4, 0) + 2 * mono(a, d, x1, y1, x2, y2, 0, 0, 0, 1, 3, 1, 3, 0) + 1 * mono(a, d, x1, y1, x2, y2, 0, 0, 0, 0, 4, 2, 2, 0)) == 1 * mono(a, d, x1, y1, x2, y2, 0, 2, 1, 4, 0, 2, 2, 0) + 2 * mono(a, d, x1, y1, x2, y2, 0, 2, 1, 3, 1, 3, 1, 0) + 1 * mono(a, d, x1, y1, x2, y2, 0, 2, 1, 2, 2, 4, 0, 0) + (-2) * mono(a, d, x1, y1, x2, y2, 0, 1, 1, 3, 1, 1, 3, 0) + (-4) * mono(a, d, x1, y1, x2, y2, 0, 1, 1, 2, 2, 2, 2, 0) + (-2) * mono(a, d, x1, y1, x2, y2, 0, 1, 1, 1, 3, 3, 1, 0) + 1 * mono(a, d, x1, y1, x2, y2, 0, 0, 1, 2, 2, 0, 4, 0) + 2 * mono(a, d, x1, y1, x2, y2, 0, 0, 1, 1, 3, 1, 3, 0) + 1 * mono(a, d, x1, y1, x2, y2, 0, 0, 1, 0, 4, 2, 2, 0));
    assert((d * ((n1 * n1) * (n2 * n2))) == 1 * mono(a, d, x1, y1, x2, y2, 0, 2, 1, 4, 0, 2, 2, 0) + 2 * mono(a, d, x1, y1, x2, y2, 0, 2, 1, 3, 1, 3, 1, 0) + 1 * mono(a, d, x1, y1, x2, y2, 0, 2, 1, 2, 2, 4, 0, 0) + (-2) * mono(a, d, x1, y1, x2, y2, 0, 1, 1, 3, 1, 1, 3, 0) + (-4) * mono(a, d, x1, y1, x2, y2, 0, 1, 1, 2, 2, 2, 2, 0) + (-2) * mono(a, d, x1, y1, x2, y2, 0, 1, 1, 1, 3, 3, 1, 0) + 1 * mono(a, d, x1, y1, x2, y2, 0, 0, 1, 2, 2, 0, 4, 0) + 2 * mono(a, d, x1, y1, x2, y2, 0, 0, 1, 1, 3, 1, 3, 0) + 1 * mono(a, d, x1, y1, x2, y2, 0, 0, 1, 0, 4, 2, 2, 0));
    assert(((((a * ((n1 * n1) * (d2 * d2))) + ((n2 * n2) * (d1 * d1))) - ((d1 * d1) * (d2 * d2))) - (d * ((n1 * n1) * (n2 * n2)))) == 1 * mono(a, d, x1, y1, x2, y2, 0, 2, 2, 4, 2, 4, 2, 0) + (-1) * mono(a, d, x1, y1, x2, y2, 0, 2, 1, 4, 0, 2, 2, 0) + (-1) * mono(a, d, x1, y1, x2, y2, 0, 2, 1, 2, 2, 4, 0, 0) + 1 * mono(a, d, x1, y1, x2, y2, 0, 2, 0, 2, 0, 2, 0, 0) + 1 * mono(a, d, x1, y1, x2, y2, 0, 1, 2, 4, 2, 2, 4, 0) + 1 * mono(a, d, x1, y1, x2, y2, 0, 1, 2, 2, 4, 4, 2, 0) + (-4) * mono(a, d, x1, y1, x2, y2, 0, 1, 1, 2, 2, 2, 2, 0) + 1 * mono(a, d, x1, y1, x2, y2, 0, 1, 0, 2, 0, 0, 2, 0) + 1 * mono(a, d, x1, y1, x2, y2, 0, 1, 0, 0, 2, 2, 0, 0) + (-1) * mono(a, d, x1, y1, x2, y2, 0, 0, 4, 4, 4, 4, 4, 0) + 1 * mono(a, d, x1, y1, x2, y2, 0, 0, 2, 2, 4, 2, 4, 0) + 2 * mono(a, d, x1, y1, x2, y2, 0, 0, 2, 2, 2, 2, 2, 0) + (-1) * mono(a, d, x1, y1, x2, y2, 0, 0, 1, 2, 2, 0, 4, 0) + (-1) * mono(a, d, x1, y1, x2, y2, 0, 0, 1, 0, 4, 2, 2, 0) + 1 * mono(a, d, x1, y1, x2, y2, 0, 0, 0, 0, 2, 0, 2, 0) + (-1) * mono(a, d, x1, y1, x2, y2, 0, 0, 0, 0, 0, 0, 0, 0));
    lemma_mul_is_distributive_add_other_way((1 * mono(a, d, x1, y1, x2, y2, 0, 1, 0, 2, 0, 0, 0, 0) + (-1) * mono(a, d, x1, y1, x2, y2, 0, 0, 1, 2, 2, 0, 0, 0) + 1 * mono(a, d, x1, y1, x2, y2, 0, 0, 0, 0, 2, 0, 0, 0) + (-1) * mono(a, d, x1, y1, x2, y2, 0, 0, 0, 0, 0, 0, 0, 0)), (-1) * mono(a, d, x1, y1, x2, y2, 0, 2, 1, 2, 0, 4, 2, 0), (-2) * mono(a, d, x1, y1, x2, y2, 0, 2, 0, 0, 0, 4, 2, 0));
    lemma_mul_is_distributive_add_other_way((1 * mono(a, d, x1, y1, x2, y2, 0, 1, 0, 2, 0, 0, 0, 0) + (-1) * mono(a, d, x1, y1, x2, y2, 0, 0, 1, 2, 2, 0, 0, 0) + 1 * mono(a, d, x1, y1, x2, y2, 0, 0, 0, 0, 2, 0, 0, 0) + (-1) * mono(a, d, x1, y1, x2, y2, 0, 0, 0, 0, 0, 0, 0, 0)), (-1) * mono(a, d, x1, y1, x2, y2, 0, 2, 1, 2, 0, 4, 2, 0) + (-2) * mono(a, d, x1, y1, x2, y2, 0, 2, 0, 0, 0, 4, 2, 0), 1 * mono(a, d, x1, y1, x2, y2, 0, 2, 0, 0, 0, 4, 0, 0));
    lemma_mul_is_distributive_add_other_way((1 * mono(a, d, x1, y1, x2, y2, 0, 1, 0, 2, 0, 0, 0, 0) + (-1) * mono(a, d, x1, y1, x2, y2, 0, 0, 1, 2, 2, 0, 0, 0) + 1 * mono(a, d, x1, y1, x2, y2, 0, 0, 0, 0, 2, 0, 0, 0) + (-1) * mono(a, d, x1, y1, x2, y2, 0, 0, 0, 0, 0, 0, 0, 0)), (-1) * mono(a, d, x1, y1, x2, y2, 0, 2, 1, 2, 0, 4, 2, 0) + (-2) * mono(a, d, x1, y1, x2, y2, 0, 2, 0, 0, 0, 4, 2, 0) + 1 * mono(a, d, x1, y1, x2, y2, 0, 2, 0, 0, 0, 4, 0, 0), 1 * mono(a, d, x1, y1, x2, y2, 0, 1, 2, 2, 0, 4, 4, 0));
    lemma_mul_is_distributive_add_other_way((1 * mono(a, d, x1, y1, x2, y2, 0, 1, 0, 2, 0, 0, 0, 0) + (-1) * mono(a, d, x1, y1, x2, y2, 0, 0, 1, 2, 2, 0, 0, 0) + 1 * mono(a, d, x1, y1, x2, y2, 0, 0, 0, 0, 2, 0, 0, 0) + (-1) * mono(a, d, x1, y1, x2, y2, 0, 0, 0, 0, 0, 0, 0, 0)), (-1) * mono(a, d, x1, y1, x2, y2, 0, 2, 1, 2, 0, 4, 2, 0) + (-2) * mono(a, d, x1, y1, x2, y2, 0, 2, 0, 0, 0, 4, 2, 0) + 1 * mono(a, d, x1, y1, x2, y2, 0, 2, 0, 0, 0, 4, 0, 0) + 1 * mono(a, d, x1, y1, x2, y2, 0, 1, 2, 2, 0, 4, 4, 0), (-1) * mono(a, d, x1, y1, x2, y2, 0, 1, 1, 2, 0, 2, 4, 0));
    lemma_mul_is_distributive_add_other_way((1 * mono(a, d, x1, y1, x2, y2, 0, 1, 0, 2, 0, 0, 0, 0) + (-1) * mono(a, d, x1, y1, x2, y2, 0, 0, 1, 2, 2, 0, 0, 0) + 1 * mono(a, d, x1, y1, x2, y2, 0, 0, 0, 0, 2, 0, 0, 0) + (-1) * mono(a, d, x1, y1, x2, y2, 0, 0, 0, 0, 0, 0, 0, 0)), (-1) * mono(a, d, x1, y1, x2, y2, 0, 2, 1, 2, 0, 4, 2, 0) + (-2) * mono(a, d, x1, y1, x2, y2, 0, 2, 0, 0, 0, 4, 2, 0) + 1 * mono(a, d, x1, y1, x2, y2, 0, 2, 0, 0, 0, 4, 0, 0) + 1 * mono(a, d, x1, y1, x2, y2, 0, 1, 2, 2, 0, 4, 4, 0) + (-1) * mono(a, d, x1, y1, x2, y2, 0, 1, 1, 2, 0, 2, 4, 0), (-1) * mono(a, d, x1, y1, x2, y2, 0, 1, 1, 0, 2, 4, 2, 0));
    lemma_mul_is_distributive_add_other_way((1 * mono(a, d, x1, y1, x2, y2, 0, 1, 0, 2, 0, 0, 0, 0) + (-1) * mono(a, d, x1, y1, x2, y2, 0, 0, 1, 2, 2, 0, 0, 0) + 1 * mono(a, d, x1, y1, x2, y2, 0, 0, 0, 0, 2, 0, 0, 0) + (-1) * mono(a, d, x1, y1, x2, y2, 0, 0, 0, 0, 0, 0, 0, 0)), (-1) * mono(a, d, x1, y1, x2, y2, 0, 2, 1, 2, 0, 4, 2, 0) + (-2) * mono(a, d, x1, y1, x2, y2, 0, 2, 0, 0, 0, 4, 2, 0) + 1 * mono(a, d, x1, y1, x2, y2, 0, 2, 0, 0, 0, 4, 0, 0) + 1 * mono(a, d, x1, y1, x2, y2, 0, 1, 2, 2, 0, 4, 4, 0) + (-1) * mono(a, d, x1, y1, x2, y2, 0, 1, 1, 2, 0, 2, 4, 0) + (-1) * mono(a, d, x1, y1, x2, y2, 0, 1, 1, 0, 2, 4, 2, 0), 2 * mono(a, d, x1, y1, x2, y2, 0, 1, 1, 0, 0, 4, 4, 0));
    lemma_mul_is_distributive_add_other_way((1 * mono(a, d, x1, y1, x2, y2, 0, 1, 0, 2, 0, 0, 0, 0) + (-1) * mono(a, d, x1, y1, x2, y2, 0, 0, 1, 2, 2, 0, 0, 0) + 1 * mono(a, d, x1, y1, x2, y2, 0, 0, 0, 0, 2, 0, 0, 0) + (-1) * mono(a, d, x1, y1, x2, y2, 0, 0, 0, 0, 0, 0, 0, 0)), (-1) * mono(a, d, x1, y1, x2, y2, 0, 2, 1, 2, 0, 4, 2, 0) + (-2) * mono(a, d, x1, y1, x2, y2, 0, 2, 0, 0, 0, 4, 2, 0) + 1 * mono(a, d, x1, y1, x2, y2, 0, 2, 0, 0, 0, 4, 0, 0) + 1 * mono(a, d, x1, y1, x2, y2, 0, 1, 2, 2, 0, 4, 4, 0) + (-1) * mono(a, d, x1, y1, x2, y2, 0, 1, 1, 2, 0, 2, 4, 0) + (-1) * mono(a, d, x1, y1, x2, y2, 0, 1, 1, 0, 2, 4, 2, 0) + 2 * mono(a, d, x1, y1, x2, y2, 0, 1, 1, 0, 0, 4, 4, 0), (-2) * mono(a, d, x1, y1, x2, y2, 0, 1, 0, 0, 0, 2, 4, 0));
    lemma_mul_is_distributive_add_other_way((1 * mono(a, d, x1, y1, x2, y2, 0, 1, 0, 2, 0, 0, 0, 0) + (-1) * mono(a, d, x1, y1, x2, y2, 0, 0, 1, 2, 2, 0, 0, 0) + 1 * mono(a, d, x1, y1, x2, y2, 0, 0, 0, 0, 2, 0, 0, 0) + (-1) * mono(a, d, x1, y1, x2, y2, 0, 0, 0, 0, 0, 0, 0, 0)), (-1) * mono(a, d, x1, y1, x2, y2, 0, 2, 1, 2, 0, 4, 2, 0) + (-2) * mono(a, d, x1, y1, x2, y2, 0, 2, 0, 0, 0, 4, 2, 0) + 1 * mono(a, d, x1, y1, x2, y2, 0, 2, 0, 0, 0, 4, 0, 0) + 1 * mono(a, d, x1, y1, x2, y2, 0, 1, 2, 2, 0, 4, 4, 0) + (-1) * mono(a, d, x1, y1, x2, y2, 0, 1, 1, 2, 0, 2, 4, 0) + (-1) * mono(a, d, x1, y1, x2, y2, 0, 1, 1, 0, 2, 4, 2, 0) + 2 * mono(a, d, x1, y1, x2, y2, 0, 1, 1, 0, 0, 4, 4, 0) + (-2) * mono(a, d, x1, y1, x2, y2, 0, 1, 0, 0, 0, 2, 4, 0), 4 * mono(a, d, x1, y1, x2, y2, 0, 1, 0, 0, 0, 2, 2, 0));
    lemma_mul_is_distributive_add_other_way((1 * mono(a, d, x1, y1, x2, y2, 0, 1, 0, 2, 0, 0, 0, 0) + (-1) * mono(a, d, x1, y1, x2, y2, 0, 0, 1, 2, 2, 0, 0, 0) + 1 * mono(a, d, x1, y1, x2, y2, 0, 0, 0, 0, 2, 0, 0, 0) + (-1) * mono(a, d, x1, y1, x2, y2, 0, 0, 0, 0, 0, 0, 0, 0)), (-1) * mono(a, d, x1, y1, x2, y2, 0, 2, 1, 2, 0, 4, 2, 0) + (-2) * mono(a, d, x1, y1, x2, y2, 0, 2, 0, 0, 0, 4, 2, 0) + 1 * mono(a, d, x1, y1, x2, y2, 0, 2, 0, 0, 0, 4, 0, 0) + 1 * mono(a, d, x1, y1, x2, y2, 0, 1, 2, 2, 0, 4, 4, 0) + (-1) * mono(a, d, x1, y1, x2, y2, 0, 1, 1, 2, 0, 2, 4, 0) + (-1) * mono(a, d, x1, y1, x2, y2, 0, 1, 1, 0, 2, 4, 2, 0) + 2 * mono(a, d, x1, y1, x2, y2, 0, 1, 1, 0, 0, 4, 4, 0) + (-2) * mono(a, d, x1, y1, x2, y2, 0, 1, 0, 0, 0, 2, 4, 0) + 4 * mono(a, d, x1, y1, x2, y2, 0, 1, 0, 0, 0, 2, 2, 0), 1 * mono(a, d, x1, y1, x2, y2, 0, 0, 3, 2, 2, 4, 4, 0));
    lemma_mul_is_distributive_add_other_way((1 * mono(a, d, x1, y1, x2, y2, 0, 1, 0, 2, 0, 0, 0, 0) + (-1) * mono(a, d, x1, y1, x2, y2, 0, 0, 1, 2, 2, 0, 0, 0) + 1 * mono(a, d, x1, y1, x2, y2, 0, 0, 0, 0, 2, 0, 0, 0) + (-1) * mono(a, d, x1, y1, x2, y2, 0, 0, 0, 0, 0, 0, 0, 0)), (-1) * mono(a, d, x1, y1, x2, y2, 0, 2, 1, 2, 0, 4, 2, 0) + (-2) * mono(a, d, x1, y1, x2, y2, 0, 2, 0, 0, 0, 4, 2, 0) + 1 * mono(a, d, x1, y1, x2, y2, 0, 2, 0, 0, 0, 4, 0, 0) + 1 * mono(a, d, x1, y1, x2, y2, 0, 1, 2, 2, 0, 4, 4, 0) + (-1) * mono(a, d, x1, y1, x2, y2, 0, 1, 1, 2, 0, 2, 4, 0) + (-1) * mono(a, d, x1, y1, x2, y2, 0, 1, 1, 0, 2, 4, 2, 0) + 2 * mono(a, d, x1, y1, x2, y2, 0, 1, 1, 0, 0, 4, 4, 0) + (-2) * mono(a, d, x1, y1, x2, y2, 0, 1, 0, 0, 0, 2, 4, 0) + 4 * mono(a, d, x1, y1, x2, y2, 0, 1, 0, 0, 0, 2, 2, 0) + 1 * mono(a, d, x1, y1, x2, y2, 0, 0, 3, 2, 2, 4, 4, 0), 1 * mono(a, d, x1, y1, x2, y2, 0, 0, 2, 0, 2, 4, 4, 0));
    lemma_mul_is_distributive_add_other_way((1 * mono(a, d, x1, y1, x2, y2, 0, 1, 0, 2, 0, 0, 0, 0) + (-1) * mono(a, d, x1, y1, x2, y2, 0, 0, 1, 2, 2, 0, 0, 0) + 1 * mono(a, d, x1, y1, x2, y2, 0, 0, 0, 0, 2, 0, 0, 0) + (-1) * mono(a, d, x1, y1, x2, y2, 0, 0, 0, 0, 0, 0, 0, 0)), (-1) * mono(a, d, x1, y1, x2, y2, 0, 2, 1, 2, 0, 4, 2, 0) + (-2) * mono(a, d, x1, y1, x2, y2, 0, 2, 0, 0, 0, 4, 2, 0) + 1 * mono(a, d, x1, y1, x2, y2, 0, 2, 0, 0, 0, 4, 0, 0) + 1 * mono(a, d, x1, y1, x2, y2, 0, 1, 2, 2, 0, 4, 4, 0) + (-1) * mono(a, d, x1, y1, x2, y2, 0, 1, 1, 2, 0, 2, 4, 0) + (-1) * mono(a, d, x1, y1, x2, y2, 0, 1, 1, 0, 2, 4, 2, 0) + 2 * mono(a, d, x1, y1, x2, y2, 0, 1, 1, 0, 0, 4, 4, 0) + (-2) * mono(a, d, x1, y1, x2, y2, 0, 1, 0, 0, 0, 2, 4, 0) + 4 * mono(a, d, x1, y1, x2, y2, 0, 1, 0, 0, 0, 2, 2, 0) + 1 * mono(a, d, x1, y1, x2, y2, 0, 0, 3, 2, 2, 4, 4, 0) + 1 * mono(a, d, x1, y1, x2, y2, 0, 0, 2, 0, 2, 4, 4, 0), (-1) * mono(a, d, x1, y1, x2, y2, 0, 0, 2, 0, 0, 4, 4, 0));
    lemma_mul_is_distributive_add_other_way((1 * mono(a, d, x1, y1, x2, y2, 0, 1, 0, 2, 0, 0, 0, 0) + (-1) * mono(a, d, x1, y1, x2, y2, 0, 0, 1, 2, 2, 0, 0, 0) + 1 * mono(a, d, x1, y1, x2, y2, 0, 0, 0, 0, 2, 0, 0, 0) + (-1) * mono(a, d, x1, y1, x2, y2, 0, 0, 0, 0, 0, 0, 0, 0)), (-1) * mono(a, d, x1, y1, x2, y2, 0, 2, 1, 2, 0, 4, 2, 0) + (-2) * mono(a, d, x1, y1, x2, y2, 0, 2, 0, 0, 0, 4, 2, 0) + 1 * mono(a, d, x1, y1, x2, y2, 0, 2, 0, 0, 0, 4, 0, 0) + 1 * mono(a, d, x1, y1, x2, y2, 0, 1, 2, 2, 0, 4, 4, 0) + (-1) * mono(a, d, x1, y1, x2, y2, 0, 1, 1, 2, 0, 2, 4, 0) + (-1) * mono(a, d, x1, y1, x2, y2, 0, 1, 1, 0, 2, 4, 2, 0) + 2 * mono(a, d, x1, y1, x2, y2, 0, 1, 1, 0, 0, 4, 4, 0) + (-2) * mono(a, d, x1, y1, x2, y2, 0, 1, 0, 0, 0, 2, 4, 0) + 4 * mono(a, d, x1, y1, x2, y2, 0, 1, 0, 0, 0, 2, 2, 0) + 1 * mono(a, d, x1, y1, x2, y2, 0, 0, 3, 2, 2, 4, 4, 0) + 1 * mono(a, d, x1, y1, x2, y2, 0, 0, 2, 0, 2, 4, 4, 0) + (-1) * mono(a, d, x1, y1, x2, y2, 0, 0, 2, 0, 0, 4, 4, 0), (-1) * mono(a, d, x1, y1, x2, y2, 0, 0, 1, 0, 2, 2, 4, 0));
    lemma_mul_is_distributive_add_other_way((1 * mono(a, d, x1, y1, x2, y2, 0, 1, 0, 2, 0, 0, 0, 0) + (-1) * mono(a, d, x1, y1, x2, y2, 0, 0, 1, 2, 2, 0, 0, 0) + 1 * mono(a, d, x1, y1, x2, y2, 0, 0, 0, 0, 2, 0, 0, 0) + (-1) * mono(a, d, x1, y1, x2, y2, 0, 0, 0, 0, 0, 0, 0, 0)), (-1) * mono(a, d, x1, y1, x2, y2, 0, 2, 1, 2, 0, 4, 2, 0) + (-2) * mono(a, d, x1, y1, x2, y2, 0, 2, 0, 0, 0, 4, 2, 0) + 1 * mono(a, d, x1, y1, x2, y2, 0, 2, 0, 0, 0, 4, 0, 0) + 1 * mono(a, d, x1, y1, x2, y2, 0, 1, 2, 2, 0, 4, 4, 0) + (-1) * mono(a, d, x1, y1, x2, y2, 0, 1, 1, 2, 0, 2, 4, 0) + (-1) * mono(a, d, x1, y1, x2, y2, 0, 1, 1, 0, 2, 4, 2, 0) + 2 * mono(a, d, x1, y1, x2, y2, 0, 1, 1, 0, 0, 4, 4, 0) + (-2) * mono(a, d, x1, y1, x2, y2, 0, 1, 0, 0, 0, 2, 4, 0) + 4 * mono(a, d, x1, y1, x2, y2, 0, 1, 0, 0, 0, 2, 2, 0) + 1 * mono(a, d, x1, y1, x2, y2, 0, 0, 3, 2, 2, 4, 4, 0) + 1 * mono(a, d, x1, y1, x2, y2, 0, 0, 2, 0, 2, 4, 4, 0) + (-1) * mono(a, d, x1, y1, x2, y2, 0, 0, 2, 0, 0, 4, 4, 0) + (-1) * mono(a, d, x1, y1, x2, y2, 0, 0, 1, 0, 2, 2, 4, 0), (-2) * mono(a, d, x1, y1, x2, y2, 0, 0, 1, 0, 0, 2, 2, 0));
    lemma_mul_is_distributive_add_other_way((1 * mono(a, d, x1, y1, x2, y2, 0, 1, 0, 2, 0, 0, 0, 0) + (-1) * mono(a, d, x1, y1, x2, y2, 0, 0, 1, 2, 2, 0, 0, 0) + 1 * mono(a, d, x1, y1, x2, y2, 0, 0, 0, 0, 2, 0, 0, 0) + (-1) * mono(a, d, x1, y1, x2, y2, 0, 0, 0, 0, 0, 0, 0, 0)), (-1) * mono(a, d, x1, y1, x2, y2, 0, 2, 1, 2, 0, 4, 2, 0) + (-2) * mono(a, d, x1, y1, x2, y2, 0, 2, 0, 0, 0, 4, 2, 0) + 1 * mono(a, d, x1, y1, x2, y2, 0, 2, 0, 0, 0, 4, 0, 0) + 1 * mono(a, d, x1, y1, x2, y2, 0, 1, 2, 2, 0, 4, 4, 0) + (-1) * mono(a, d, x1, y1, x2, y2, 0, 1, 1, 2, 0, 2, 4, 0) + (-1) * mono(a, d, x1, y1, x2, y2, 0, 1, 1, 0, 2, 4, 2, 0) + 2 * mono(a, d, x1, y1, x2, y2, 0, 1, 1, 0, 0, 4, 4, 0) + (-2) * mono(a, d, x1, y1, x2, y2, 0, 1, 0, 0, 0, 2, 4, 0) + 4 * mono(a, d, x1, y1, x2, y2, 0, 1, 0, 0, 0, 2, 2, 0) + 1 * mono(a, d, x1, y1, x2, y2, 0, 0, 3, 2, 2, 4, 4, 0) + 1 * mono(a, d, x1, y1, x2, y2, 0, 0, 2, 0, 2, 4, 4, 0) + (-1) * mono(a, d, x1, y1, x2, y2, 0, 0, 2, 0, 0, 4, 4, 0) + (-1) * mono(a, d, x1, y1, x2, y2, 0, 0, 1, 0, 2, 2, 4, 0) + (-2) * mono(a, d, x1, y1, x2, y2, 0, 0, 1, 0, 0, 2, 2, 0), 1 * mono(a, d, x1, y1, x2, y2, 0, 0, 0, 0, 0, 0, 4, 0));
    lemma_mul_is_distributive_add((-1) * mono(a, d, x1, y1, x2, y2, 0, 2, 1, 2, 0, 4, 2, 0), 1 * mono(a, d, x1, y1, x2, y2, 0, 1, 0, 2, 0, 0, 0, 0), (-1) * mono(a, d, x1, y1, x2, y2, 0, 0, 1, 2, 2, 0, 0, 0));
    lemma_mul_is_distributive_add((-1) * mono(a, d, x1, y1, x2, y2, 0, 2, 1, 2, 0, 4, 2, 0), 1 * mono(a, d, x1, y1, x2, y2, 0, 1, 0, 2, 0, 0, 0, 0) + (-1) * mono(a, d, x1, y1, x2, y2, 0, 0, 1, 2, 2, 0, 0, 0), 1 * mono(a, d, x1, y1, x2, y2, 0, 0, 0, 0, 2, 0, 0, 0));
    lemma_mul_is_distributive_add((-1) * mono(a, d, x1, y1, x2, y2, 0, 2, 1, 2, 0, 4, 2, 0), 1 * mono(a, d, x1, y1, x2, y2, 0, 1, 0, 2, 0, 0, 0, 0) + (-1) * mono(a, d, x1, y1, x2, y2, 0, 0, 1, 2, 2, 0, 0, 0) + 1 * mono(a, d, x1, y1, x2, y2, 0, 0, 0, 0, 2, 0, 0, 0), (-1) * mono(a, d, x1, y1, x2, y2, 0, 0, 0, 0, 0, 0, 0, 0));
    lemma_term_mul(a, d, x1, y1, x2, y2, 0, -1, 2, 1, 2, 0, 4, 2, 0, 1, 1, 0, 2, 0, 0, 0, 0);
    lemma_term_mul(a, d, x1, y1, x2, y2, 0, -1, 2, 1, 2, 0, 4, 2, 0, -1, 0, 1, 2, 2, 0, 0, 0);
    lemma_term_mul(a, d, x1, y1, x2, y2, 0, -1, 2, 1, 2, 0, 4, 2, 0, 1, 0, 0, 0, 2, 0, 0, 0);
    lemma_term_mul(a, d, x1, y1, x2, y2, 0, -1, 2, 1, 2, 0, 4, 2, 0, -1, 0, 0, 0, 0, 0, 0, 0);
    lemma_mul_is_distributive_add((-2) * mono(a, d, x1, y1, x2, y2, 0, 2, 0, 0, 0, 4, 2, 0), 1 * mono(a, d, x1, y1, x2, y2, 0, 1, 0, 2, 0, 0, 0, 0), (-1) * mono(a, d, x1, y1, x2, y2, 0, 0, 1, 2, 2, 0, 0, 0));
    lemma_mul_is_distributive_add((-2) * mono(a, d, x1, y1, x2, y2, 0, 2, 0, 0, 0, 4, 2, 0), 1 * mono(a, d, x1, y1, x2, y2, 0, 1, 0, 2, 0, 0, 0, 0) + (-1) * mono(a, d, x1, y1, x2, y2, 0, 0, 1, 2, 2, 0, 0, 0), 1 * mono(a, d, x1, y1, x2, y2, 0, 0, 0, 0, 2, 0, 0, 0));
    lemma_mul_is_distributive_add((-2) * mono(a, d, x1, y1, x2, y2, 0, 2, 0, 0, 0, 4, 2, 0), 1 * mono(a, d, x1, y1, x2, y2, 0, 1, 0, 2, 0, 0, 0, 0) + (-1) * mono(a, d, x1, y1, x2, y2, 0, 0, 1, 2, 2, 0, 0, 0) + 1 * mono(a, d, x1, y1, x2, y2, 0, 0, 0, 0, 2, 0, 0, 0), (-1) * mono(a, d, x1, y1, x2, y2, 0, 0, 0, 0, 0, 0, 0, 0));
    lemma_term_mul(a, d, x1, y1, x2, y2, 0, -2, 2, 0, 0, 0, 4, 2, 0, 1, 1, 0, 2, 0, 0, 0, 0);
    lemma_term_mul(a, d, x1, y1, x2, y2, 0, -2, 2, 0, 0, 0, 4, 2, 0, -1, 0, 1, 2, 2, 0, 0, 0);
    lemma_term_mul(a, d, x1, y1, x2, y2, 0, -2, 2, 0, 0, 0, 4, 2, 0, 1, 0, 0, 0, 2, 0, 0, 0);
    lemma_term_mul(a, d, x1, y1, x2, y2, 0, -2, 2, 0, 0, 0, 4, 2, 0, -1, 0, 0, 0, 0, 0, 0, 0);
    lemma_mul_is_distributive_add(1 * mono(a, d, x1, y1, x2, y2, 0, 2, 0, 0, 0, 4, 0, 0), 1 * mono(a, d, x1, y1, x2, y2, 0, 1, 0, 2, 0, 0, 0, 0), (-1) * mono(a, d, x1, y1, x2, y2, 0, 0, 1, 2, 2, 0, 0, 0));
    lemma_mul_is_distributive_add(1 * mono(a, d, x1, y1, x2, y2, 0, 2, 0, 0, 0, 4, 0, 0), 1 * mono(a, d, x1, y1, x2, y2, 0, 1, 0, 2, 0, 0, 0, 0) + (-1) * mono(a, d, x1, y1, x2, y2, 0, 0, 1, 2, 2, 0, 0, 0), 1 * mono(a, d, x1, y1, x2, y2, 0, 0, 0, 0, 2, 0, 0, 0));
    lemma_mul_is_distributive_add(1 * mono(a, d, x1, y1, x2, y2, 0, 2, 0, 0, 0, 4, 0, 0), 1 * mono(a, d, x1, y1, x2, y2, 0, 1, 0, 2, 0, 0, 0, 0) + (-1) * mono(a, d, x1, y1, x2, y2, 0, 0, 1, 2, 2, 0, 0, 0) + 1 * mono(a, d, x1, y1, x2, y2, 0, 0, 0, 0, 2, 0, 0, 0), (-1) * mono(a, d, x1, y1, x2, y2, 0, 0, 0, 0, 0, 0, 0, 0));
    lemma_term_mul(a, d, x1, y1, x2, y2, 0, 1, 2, 0, 0, 0, 4, 0, 0, 1, 1, 0, 2, 0, 0, 0, 0);
    lemma_term_mul(a, d, x1, y1, x2, y2, 0, 1, 2, 0, 0, 0, 4, 0, 0, -1, 0, 1, 2, 2, 0, 0, 0);
    lemma_term_mul(a, d, x1, y1, x2, y2, 0, 1, 2, 0, 0, 0, 4, 0, 0, 1, 0, 0, 0, 2, 0, 0, 0);
    lemma_term_mul(a, d, x1, y1, x2, y2, 0, 1, 2, 0, 0, 0, 4, 0, 0, -1, 0, 0, 0, 0, 0, 0, 0);
    lemma_mul_is_distributive_add(1 * mono(a, d, x1, y1, x2, y2, 0, 1, 2, 2, 0, 4, 4, 0), 1 * mono(a, d, x1, y1, x2, y2, 0, 1, 0, 2, 0, 0, 0, 0), (-1) * mono(a, d, x1, y1, x2, y2, 0, 0, 1, 2, 2, 0, 0, 0));
    lemma_mul_is_distributive_add(1 * mono(a, d, x1, y1, x2, y2, 0, 1, 2, 2, 0, 4, 4, 0), 1 * mono(a, d, x1, y1, x2, y2, 0, 1, 0, 2, 0, 0, 0, 0) + (-1) * mono(a, d, x1, y1, x2, y2, 0, 0, 1, 2, 2, 0, 0, 0), 1 * mono(a, d, x1, y1, x2, y2, 0, 0, 0, 0, 2, 0, 0, 0));
    lemma_mul_is_distributive_add(1 * mono(a, d, x1, y1, x2, y2, 0, 1, 2, 2, 0, 4, 4, 0), 1 * mono(a, d, x1, y1, x2, y2, 0, 1, 0, 2, 0, 0, 0, 0) + (-1) * mono(a, d, x1, y1, x2, y2, 0, 0, 1, 2, 2, 0, 0, 0) + 1 * mono(a, d, x1, y1, x2, y2, 0, 0, 0, 0, 2, 0, 0, 0), (-1) * mono(a, d, x1, y1, x2, y2, 0, 0, 0, 0, 0, 0, 0, 0));
    lemma_term_mul(a, d, x1, y1, x2, y2, 0, 1, 1, 2, 2, 0, 4, 4, 0, 1, 1, 0, 2, 0, 0, 0, 0);
    lemma_term_mul(a, d, x1, y1, x2, y2, 0, 1, 1, 2, 2, 0, 4, 4, 0, -1, 0, 1, 2, 2, 0, 0, 0);
    lemma_term_mul(a, d, x1, y1, x2, y2, 0, 1, 1, 2, 2, 0, 4, 4, 0, 1, 0, 0, 0, 2, 0, 0, 0);
    lemma_term_mul(a, d, x1, y1, x2, y2, 0, 1, 1, 2, 2, 0, 4, 4, 0, -1, 0, 0, 0, 0, 0, 0, 0);
    lemma_mul_is_distributive_add((-1) * mono(a, d, x1, y1, x2, y2, 0, 1, 1, 2, 0, 2, 4, 0), 1 * mono(a, d, x1, y1, x2, y2, 0, 1, 0, 2, 0, 0, 0, 0), (-1) * mono(a, d, x1, y1, x2, y2, 0, 0, 1, 2, 2, 0, 0, 0));
    lemma_mul_is_distributive_add((-1) * mono(a, d, x1, y1, x2, y2, 0, 1, 1, 2, 0, 2, 4, 0), 1 * mono(a, d, x1, y1, x2, y2, 0, 1, 0, 2, 0, 0, 0, 0) + (-1) * mono(a, d, x1, y1, x2, y2, 0, 0, 1, 2, 2, 0, 0, 0), 1 * mono(a, d, x1, y1, x2, y2, 0, 0, 0, 0, 2, 0, 0, 0));
    lemma_mul_is_distributive_add((-1) * mono(a, d, x1, y1, x2, y2, 0, 1, 1, 2, 0, 2, 4, 0), 1 * mono(a, d, x1, y1, x2, y2, 0, 1, 0, 2, 0, 0, 0, 0) + (-1) * mono(a, d, x1, y1, x2, y2, 0, 0, 1, 2, 2, 0, 0, 0) + 1 * mono(a, d, x1, y1, x2, y2, 0, 0, 0, 0, 2, 0, 0, 0), (-1) * mono(a, d, x1, y1, x2, y2, 0, 0, 0, 0, 0, 0, 0, 0));
    lemma_term_mul(a, d, x1, y1, x2, y2, 0, -1, 1, 1, 2, 0, 2, 4, 0, 1, 1, 0, 2, 0, 0, 0, 0);
    lemma_term_mul(a, d, x1, y1, x2, y2, 0, -1, 1, 1, 2, 0, 2, 4, 0, -1, 0, 1, 2, 2, 0, 0, 0);
    lemma_term_mul(a, d, x1, y1, x2, y2, 0, -1, 1, 1, 2, 0, 2, 4, 0, 1, 0, 0, 0, 2, 0, 0, 0);
    lemma_term_mul(a, d, x1, y1, x2, y2, 0, -1, 1, 1, 2, 0, 2, 4, 0, -1, 0, 0, 0, 0, 0, 0, 0);
    lemma_mul_is_distributive_add((-1) * mono(a, d, x1, y1, x2, y2, 0, 1, 1, 0, 2, 4, 2, 0), 1 * mono(a, d, x1, y1, x2, y2, 0, 1, 0, 2, 0, 0, 0, 0), (-1) * mono(a, d, x1, y1, x2, y2, 0, 0, 1, 2, 2, 0, 0, 0));
    lemma_mul_is_distributive_add((-1) * mono(a, d, x1, y1, x2, y2, 0, 1, 1, 0, 2, 4, 2, 0), 1 * mono(a, d, x1, y1, x2, y2, 0, 1, 0, 2, 0, 0, 0, 0) + (-1) * mono(a, d, x1, y1, x2, y2, 0, 0, 1, 2, 2, 0, 0, 0), 1 * mono(a, d, x1, y1, x2, y2, 0, 0, 0, 0, 2, 0, 0, 0));
    lemma_mul_is_distributive_add((-1) * mono(a, d, x1, y1, x2, y2, 0, 1, 1, 0, 2, 4, 2, 0), 1 * mono(a, d, x1, y1, x2, y2, 0, 1, 0, 2, 0, 0, 0, 0) + (-1) * mono(a, d, x1, y1, x2, y2, 0, 0, 1, 2, 2, 0, 0, 0) + 1 * mono(a, d, x1, y1, x2, y2, 0, 0, 0, 0, 2, 0, 0, 0), (-1) * mono(a, d, x1, y1, x2, y2, 0, 0, 0, 0, 0, 0, 0, 0));
    lemma_term_mul(a, d, x1, y1, x2, y2, 0, -1, 1, 1, 0, 2, 4, 2, 0, 1, 1, 0, 2, 0, 0, 0, 0);
    lemma_term_mul(a, d, x1, y1, x2, y2, 0, -1, 1, 1, 0, 2, 4, 2, 0, -1, 0, 1, 2, 2, 0, 0, 0);
    lemma_term_mul(a, d, x1, y1, x2, y2, 0, -1, 1, 1, 0, 2, 4, 2, 0, 1, 0, 0, 0, 2, 0, 0, 0);
    lemma_term_mul(a, d, x1, y1, x2, y2, 0, -1, 1, 1, 0, 2, 4, 2, 0, -1, 0, 0, 0, 0, 0, 0, 0);
    lemma_mul_is_distributive_add(2 * mono(a, d, x1, y1, x2, y2, 0, 1, 1, 0, 0, 4, 4, 0), 1 * mono(a, d, x1, y1, x2, y2, 0, 1, 0, 2, 0, 0, 0, 0), (-1) * mono(a, d, x1, y1, x2, y2, 0, 0, 1, 2, 2, 0, 0, 0));
    lemma_mul_is_distributive_add(2 * mono(a, d, x1, y1, x2, y2, 0, 1, 1, 0, 0, 4, 4, 0), 1 * mono(a, d, x1, y1, x2, y2, 0, 1, 0, 2, 0, 0, 0, 0) + (-1) * mono(a, d, x1, y1, x2, y2, 0, 0, 1, 2, 2, 0, 0, 0), 1 * mono(a, d, x1, y1, x2, y2, 0, 0, 0, 0, 2, 0, 0, 0));
    lemma_mul_is_distributive_add(2 * mono(a, d, x1, y1, x2, y2, 0, 1, 1, 0, 0, 4, 4, 0), 1 * mono(a, d, x1, y1, x2, y2, 0, 1, 0, 2, 0, 0, 0, 0) + (-1) * mono(a, d, x1, y1, x2, y2, 0, 0, 1, 2, 2, 0, 0, 0) + 1 * mono(a, d, x1, y1, x2, y2, 0, 0, 0, 0, 2, 0, 0, 0), (-1) * mono(a, d, x1, y1, x2, y2, 0, 0, 0, 0, 0, 0, 0, 0));
    lemma_term_mul(a, d, x1, y1, x2, y2, 0, 2, 1, 1, 0, 0, 4, 4, 0, 1, 1, 0, 2, 0, 0, 0, 0);
    lemma_term_mul(a, d, x1, y1, x2, y2, 0, 2, 1, 1, 0, 0, 4, 4, 0, -1, 0, 1, 2, 2, 0, 0, 0);
    lemma_term_mul(a, d, x1, y1, x2, y2, 0, 2, 1, 1, 0, 0, 4, 4, 0, 1, 0, 0, 0, 2, 0, 0, 0);
    lemma_term_mul(a, d, x1, y1, x2, y2, 0, 2, 1, 1, 0, 0, 4, 4, 0, -1, 0, 0, 0, 0, 0, 0, 0);
    lemma_mul_is_distributive_add((-2) * mono(a, d, x1, y1, x2, y2, 0, 1, 0, 0, 0, 2, 4, 0), 1 * mono(a, d, x1, y1, x2, y2, 0, 1, 0, 2, 0, 0, 0, 0), (-1) * mono(a, d, x1, y1, x2, y2, 0, 0, 1, 2, 2, 0, 0, 0));
    lemma_mul_is_distributive_add((-2) * mono(a, d, x1, y1, x2, y2, 0, 1, 0, 0, 0, 2, 4, 0), 1 * mono(a, d, x1, y1, x2, y2, 0, 1, 0, 2, 0, 0, 0, 0) + (-1) * mono(a, d, x1, y1, x2, y2, 0, 0, 1, 2, 2, 0, 0, 0), 1 * mono(a, d, x1, y1, x2, y2, 0, 0, 0, 0, 2, 0, 0, 0));
    lemma_mul_is_distributive_add((-2) * mono(a, d, x1, y1, x2, y2, 0, 1, 0, 0, 0, 2, 4, 0), 1 * mono(a, d, x1, y1, x2, y2, 0, 1, 0, 2, 0, 0, 0, 0) + (-1) * mono(a, d, x1, y1, x2, y2, 0, 0, 1, 2, 2, 0, 0, 0) + 1 * mono(a, d, x1, y1, x2, y2, 0, 0, 0, 0, 2, 0, 0, 0), (-1) * mono(a, d, x1, y1, x2, y2, 0, 0, 0, 0, 0, 0, 0, 0));
    lemma_term_mul(a, d, x1, y1, x2, y2, 0, -2, 1, 0, 0, 0, 2, 4, 0, 1, 1, 0, 2, 0, 0, 0, 0);
    lemma_term_mul(a, d, x1, y1, x2, y2, 0, -2, 1, 0, 0, 0, 2, 4, 0, -1, 0, 1, 2, 2, 0, 0, 0);
    lemma_term_mul(a, d, x1, y1, x2, y2, 0, -2, 1, 0, 0, 0, 2, 4, 0, 1, 0, 0, 0, 2, 0, 0, 0);
    lemma_term_mul(a, d, x1, y1, x2, y2, 0, -2, 1, 0, 0, 0, 2, 4, 0, -1, 0, 0, 0, 0, 0, 0, 0);
    lemma_mul_is_distributive_add(4 * mono(a, d, x1, y1, x2, y2, 0, 1, 0, 0, 0, 2, 2, 0), 1 * mono(a, d, x1, y1, x2, y2, 0, 1, 0, 2, 0, 0, 0, 0), (-1) * mono(a, d, x1, y1, x2, y2, 0, 0, 1, 2, 2, 0, 0, 0));
    lemma_mul_is_distributive_add(4 * mono(a, d, x1, y1, x2, y2, 0, 1, 0, 0, 0, 2, 2, 0), 1 * mono(a, d, x1, y1, x2, y2, 0, 1, 0, 2, 0, 0, 0, 0) + (-1) * mono(a, d, x1, y1, x2, y2, 0, 0, 1, 2, 2, 0, 0, 0), 1 * mono(a, d, x1, y1, x2, y2, 0, 0, 0, 0, 2, 0, 0, 0));
    lemma_mul_is_distributive_add(4 * mono(a, d, x1, y1, x2, y2, 0, 1, 0, 0, 0, 2, 2, 0), 1 * mono(a, d, x1, y1, x2, y2, 0, 1, 0, 2, 0, 0, 0, 0) + (-1) * mono(a, d, x1, y1, x2, y2, 0, 0, 1, 2, 2, 0, 0, 0) + 1 * mono(a, d, x1, y1, x2, y2, 0, 0, 0, 0, 2, 0, 0, 0), (-1) * mono(a, d, x1, y1, x2, y2, 0, 0, 0, 0, 0, 0, 0, 0));
    lemma_term_mul(a, d, x1, y1, x2, y2, 0, 4, 1, 0, 0, 0, 2, 2, 0, 1, 1, 0, 2, 0, 0, 0, 0);
    lemma_term_mul(a, d, x1, y1, x2, y2, 0, 4, 1, 0, 0, 0, 2, 2, 0, -1, 0, 1, 2, 2, 0, 0, 0);
    lemma_term_mul(a, d, x1, y1, x2, y2, 0, 4, 1, 0, 0, 0, 2, 2, 0, 1, 0, 0, 0, 2, 0, 0, 0);
    lemma_term_mul(a, d, x1, y1, x2, y2, 0, 4, 1, 0, 0, 0, 2, 2, 0, -1, 0, 0, 0, 0, 0, 0, 0);
    lemma_mul_is_distributive_add(1 * mono(a, d, x1, y1, x2, y2, 0, 0, 3, 2, 2, 4, 4, 0), 1 * mono(a, d, x1, y1, x2, y2, 0, 1, 0, 2, 0, 0, 0, 0), (-1) * mono(a, d, x1, y1, x2, y2, 0, 0, 1, 2, 2, 0, 0, 0));
    lemma_mul_is_distributive_add(1 * mono(a, d, x1, y1, x2, y2, 0, 0, 3, 2, 2, 4, 4, 0), 1 * mono(a, d, x1, y1, x2, y2, 0, 1, 0, 2, 0, 0, 0, 0) + (-1) * mono(a, d, x1, y1, x2, y2, 0, 0, 1, 2, 2, 0, 0, 0), 1 * mono(a, d, x1, y1, x2, y2, 0, 0, 0, 0, 2, 0, 0, 0));
    lemma_mul_is_distributive_add(1 * mono(a, d, x1, y1, x2, y2, 0, 0, 3, 2, 2, 4, 4, 0), 1 * mono(a, d, x1, y1, x2, y2, 0, 1, 0, 2, 0, 0, 0, 0) + (-1) * mono(a, d, x1, y1, x2, y2, 0, 0, 1, 2, 2, 0, 0, 0) + 1 * mono(a, d, x1, y1, x2, y2, 0, 0, 0, 0, 2, 0, 0, 0), (-1) * mono(a, d, x1, y1, x2, y2, 0, 0, 0, 0, 0, 0, 0, 0));
    lemma_term_mul(a, d, x1, y1, x2, y2, 0, 1, 0, 3, 2, 2, 4, 4, 0, 1, 1, 0, 2, 0, 0, 0, 0);
    lemma_term_mul(a, d, x1, y1, x2, y2, 0, 1, 0, 3, 2, 2, 4, 4, 0, -1, 0, 1, 2, 2, 0, 0, 0);
    lemma_term_mul(a, d, x1, y1, x2, y2, 0, 1, 0, 3, 2, 2, 4, 4, 0, 1, 0, 0, 0, 2, 0, 0, 0);
    lemma_term_mul(a, d, x1, y1, x2, y2, 0, 1, 0, 3, 2, 2, 4, 4, 0, -1, 0, 0, 0, 0, 0, 0, 0);
    lemma_mul_is_distributive_add(1 * mono(a, d, x1, y1, x2, y2, 0, 0, 2, 0, 2, 4, 4, 0), 1 * mono(a, d, x1, y1, x2, y2, 0, 1, 0, 2, 0, 0, 0, 0), (-1) * mono(a, d, x1, y1, x2, y2, 0, 0, 1, 2, 2, 0, 0, 0));
    lemma_mul_is_distributive_add(1 * mono(a, d, x1, y1, x2, y2, 0, 0, 2, 0, 2, 4, 4, 0), 1 * mono(a, d, x1, y1, x2, y2, 0, 1, 0, 2, 0, 0, 0, 0) + (-1) * mono(a, d, x1, y1, x2, y2, 0, 0, 1, 2, 2, 0, 0, 0), 1 * mono(a, d, x1, y1, x2, y2, 0, 0, 0, 0, 2, 0, 0, 0));
    lemma_mul_is_distributive_add(1 * mono(a, d, x1, y1, x2, y2, 0, 0, 2, 0, 2, 4, 4, 0), 1 * mono(a, d, x1, y1, x2, y2, 0, 1, 0, 2, 0, 0, 0, 0) + (-1) * mono(a, d, x1, y1, x2, y2, 0, 0, 1, 2, 2, 0, 0, 0) + 1 * mono(a, d, x1, y1, x2, y2, 0, 0, 0, 0, 2, 0, 0, 0), (-1) * mono(a, d, x1, y1, x2, y2, 0, 0, 0, 0, 0, 0, 0, 0));
    lemma_term_mul(a, d, x1, y1, x2, y2, 0, 1, 0, 2, 0, 2, 4, 4, 0, 1, 1, 0, 2, 0, 0, 0, 0);
    lemma_term_mul(a, d, x1, y1, x2, y2, 0, 1, 0, 2, 0, 2, 4, 4, 0, -1, 0, 1, 2, 2, 0, 0, 0);
    lemma_term_mul(a, d, x1, y1, x2, y2, 0, 1, 0, 2, 0, 2, 4, 4, 0, 1, 0, 0, 0, 2, 0, 0, 0);
    lemma_term_mul(a, d, x1, y1, x2, y2, 0, 1, 0, 2, 0, 2, 4, 4, 0, -1, 0, 0, 0, 0, 0, 0, 0);
    lemma_mul_is_distributive_add((-1) * mono(a, d, x1, y1, x2, y2, 0, 0, 2, 0, 0, 4, 4, 0), 1 * mono(a, d, x1, y1, x2, y2, 0, 1, 0, 2, 0, 0, 0, 0), (-1) * mono(a, d, x1, y1, x2, y2, 0, 0, 1, 2, 2, 0, 0, 0));
    lemma_mul_is_distributive_add((-1) * mono(a, d, x1, y1, x2, y2, 0, 0, 2, 0, 0, 4, 4, 0), 1 * mono(a, d, x1, y1, x2, y2, 0, 1, 0, 2, 0, 0, 0, 0) + (-1) * mono(a, d, x1, y1, x2, y2, 0, 0, 1, 2, 2, 0, 0, 0), 1 * mono(a, d, x1, y1, x2, y2, 0, 0, 0, 0, 2, 0, 0, 0));
    lemma_mul_is_distributive_add((-1) * mono(a, d, x1, y1, x2, y2, 0, 0, 2, 0, 0, 4, 4, 0), 1 * mono(a, d, x1, y1, x2, y2, 0, 1, 0, 2, 0, 0, 0, 0) + (-1) * mono(a, d, x1, y1, x2, y2, 0, 0, 1, 2, 2, 0, 0, 0) + 1 * mono(a, d, x1, y1, x2, y2, 0, 0, 0, 0, 2, 0, 0, 0), (-1) * mono(a, d, x1, y1, x2, y2, 0, 0, 0, 0, 0, 0, 0, 0));
    lemma_term_mul(a, d, x1, y1, x2, y2, 0, -1, 0, 2, 0, 0, 4, 4, 0, 1, 1, 0, 2, 0, 0, 0, 0);
    lemma_term_mul(a, d, x1, y1, x2, y2, 0, -1, 0, 2, 0, 0, 4, 4, 0, -1, 0, 1, 2, 2, 0, 0, 0);
    lemma_term_mul(a, d, x1, y1, x2, y2, 0, -1, 0, 2, 0, 0, 4, 4, 0, 1, 0, 0, 0, 2, 0, 0, 0);
    lemma_term_mul(a, d, x1, y1, x2, y2, 0, -1, 0, 2, 0, 0, 4, 4, 0, -1, 0, 0, 0, 0, 0, 0, 0);
    lemma_mul_is_distributive_add((-1) * mono(a, d, x1, y1, x2, y2, 0, 0, 1, 0, 2, 2, 4, 0), 1 * mono(a, d, x1, y1, x2, y2, 0, 1, 0, 2, 0, 0, 0, 0), (-1) * mono(a, d, x1, y1, x2, y2, 0, 0, 1, 2, 2, 0, 0, 0));
    lemma_mul_is_distributive_add((-1) * mono(a, d, x1, y1, x2, y2, 0, 0, 1, 0, 2, 2, 4, 0), 1 * mono(a, d, x1, y1, x2, y2, 0, 1, 0, 2, 0, 0, 0, 0) + (-1) * mono(a, d, x1, y1, x2, y2, 0, 0, 1, 2, 2, 0, 0, 0), 1 * mono(a, d, x1, y1, x2, y2, 0, 0, 0, 0, 2, 0, 0, 0));
    lemma_mul_is_distributive_add((-1) * mono(a, d, x1, y1, x2, y2, 0, 0, 1, 0, 2, 2, 4, 0), 1 * mono(a, d, x1, y1, x2, y2, 0, 1, 0, 2, 0, 0, 0, 0) + (-1) * mono(a, d, x1, y1, x2, y2, 0, 0, 1, 2, 2, 0, 0, 0) + 1 * mono(a, d, x1, y1, x2, y2, 0, 0, 0, 0, 2, 0, 0, 0), (-1) * mono(a, d, x1, y1, x2, y2, 0, 0, 0, 0, 0, 0, 0, 0));
    lemma_term_mul(a, d, x1, y1, x2, y2, 0, -1, 0, 1, 0, 2, 2, 4, 0, 1, 1, 0, 2, 0, 0, 0, 0);
    lemma_term_mul(a, d, x1, y1, x2, y2, 0, -1, 0, 1, 0, 2, 2, 4, 0, -1, 0, 1, 2, 2, 0, 0, 0);
    lemma_term_mul(a, d, x1, y1, x2, y2, 0, -1, 0, 1, 0, 2, 2, 4, 0, 1, 0, 0, 0, 2, 0, 0, 0);
    lemma_term_mul(a, d, x1, y1, x2, y2, 0, -1, 0, 1, 0, 2, 2, 4, 0, -1, 0, 0, 0, 0, 0, 0, 0);
    lemma_mul_is_distributive_add((-2) * mono(a, d, x1, y1, x2, y2, 0, 0, 1, 0, 0, 2, 2, 0), 1 * mono(a, d, x1, y1, x2, y2, 0, 1, 0, 2, 0, 0, 0, 0), (-1) * mono(a, d, x1, y1, x2, y2, 0, 0, 1, 2, 2, 0, 0, 0));
    lemma_mul_is_distributive_add((-2) * mono(a, d, x1, y1, x2, y2, 0, 0, 1, 0, 0, 2, 2, 0), 1 * mono(a, d, x1, y1, x2, y2, 0, 1, 0, 2, 0, 0, 0, 0) + (-1) * mono(a, d, x1, y1, x2, y2, 0, 0, 1, 2, 2, 0, 0, 0), 1 * mono(a, d, x1, y1, x2, y2, 0, 0, 0, 0, 2, 0, 0, 0));
    lemma_mul_is_distributive_add((-2) * mono(a, d, x1, y1, x2, y2, 0, 0, 1, 0, 0, 2, 2, 0), 1 * mono(a, d, x1, y1, x2, y2, 0, 1, 0, 2, 0, 0, 0, 0) + (-1) * mono(a, d, x1, y1, x2, y2, 0, 0, 1, 2, 2, 0, 0, 0) + 1 * mono(a, d, x1, y1, x2, y2, 0, 0, 0, 0, 2, 0, 0, 0), (-1) * mono(a, d, x1, y1, x2, y2, 0, 0, 0, 0, 0, 0, 0, 0));
    lemma_term_mul(a, d, x1, y1, x2, y2, 0, -2, 0, 1, 0, 0, 2, 2, 0, 1, 1, 0, 2, 0, 0, 0, 0);
    lemma_term_mul(a, d, x1, y1, x2, y2, 0, -2, 0, 1, 0, 0, 2, 2, 0, -1, 0, 1, 2, 2, 0, 0, 0);
    lemma_term_mul(a, d, x1, y1, x2, y2, 0, -2, 0, 1, 0, 0, 2, 2, 0, 1, 0, 0, 0, 2, 0, 0, 0);
    lemma_term_mul(a, d, x1, y1, x2, y2, 0, -2, 0, 1, 0, 0, 2, 2, 0, -1, 0, 0, 0, 0, 0, 0, 0);
    lemma_mul_is_distributive_add(1 * mono(a, d, x1, y1, x2, y2, 0, 0, 0, 0, 0, 0, 4, 0), 1 * mono(a, d, x1, y1, x2, y2, 0, 1, 0, 2, 0, 0, 0, 0), (-1) * mono(a, d, x1, y1, x2, y2, 0, 0, 1, 2, 2, 0, 0, 0));
    lemma_mul_is_distributive_add(1 * mono(a, d, x1, y1, x2, y2, 0, 0, 0, 0, 0, 0, 4, 0), 1 * mono(a, d, x1, y1, x2, y2, 0, 1, 0, 2, 0, 0, 0, 0) + (-1) * mono(a, d, x1, y1, x2, y2, 0, 0, 1, 2, 2, 0, 0, 0), 1 * mono(a, d, x1, y1, x2, y2, 0, 0, 0, 0, 2, 0, 0, 0));
    lemma_mul_is_distributive_add(1 * mono(a, d, x1, y1, x2, y2, 0, 0, 0, 0, 0, 0, 4, 0), 1 * mono(a, d, x1, y1, x2, y2, 0, 1, 0, 2, 0, 0, 0, 0) + (-1) * mono(a, d, x1, y1, x2, y2, 0, 0, 1, 2, 2, 0, 0, 0) + 1 * mono(a, d, x1, y1, x2, y2, 0, 0, 0, 0, 2, 0, 0, 0), (-1) * mono(a, d, x1, y1, x2, y2, 0, 0, 0, 0, 0, 0, 0, 0));
    lemma_term_mul(a, d, x1, y1, x2, y2, 0, 1, 0, 0, 0, 0, 0, 4, 0, 1, 1, 0, 2, 0, 0, 0, 0);
    lemma_term_mul(a, d, x1, y1, x2, y2, 0, 1, 0, 0, 0, 0, 0, 4, 0, -1, 0, 1, 2, 2, 0, 0, 0);
    lemma_term_mul(a, d, x1, y1, x2, y2, 0, 1, 0, 0, 0, 0, 0, 4, 0, 1, 0, 0, 0, 2, 0, 0, 0);
    lemma_term_mul(a, d, x1, y1, x2, y2, 0, 1, 0, 0, 0, 0, 0, 4, 0, -1, 0, 0, 0, 0, 0, 0, 0);
    assert(((-1) * mono(a, d, x1, y1, x2, y2, 0, 2, 1, 2, 0, 4, 2, 0) + (-2) * mono(a, d, x1, y1, x2, y2, 0, 2, 0, 0, 0, 4, 2, 0) + 1 * mono(a, d, x1, y1, x2, y2, 0, 2, 0, 0, 0, 4, 0, 0) + 1 * mono(a, d, x1, y1, x2, y2, 0, 1, 2, 2, 0, 4, 4, 0) + (-1) * mono(a, d, x1, y1, x2, y2, 0, 1, 1, 2, 0, 2, 4, 0) + (-1) * mono(a, d, x1, y1, x2, y2, 0, 1, 1, 0, 2, 4, 2, 0) + 2 * mono(a, d, x1, y1, x2, y2, 0, 1, 1, 0, 0, 4, 4, 0) + (-2) * mono(a, d, x1, y1, x2, y2, 0, 1, 0, 0, 0, 2, 4, 0) + 4 * mono(a, d, x1, y1, x2, y2, 0, 1, 0, 0, 0, 2, 2, 0) + 1 * mono(a, d, x1, y1, x2, y2, 0, 0, 3, 2, 2, 4, 4, 0) + 1 * mono(a, d, x1, y1, x2, y2, 0, 0, 2, 0, 2, 4, 4, 0) + (-1) * mono(a, d, x1, y1, x2, y2, 0, 0, 2, 0, 0, 4, 4, 0) + (-1) * mono(a, d, x1, y1, x2, y2, 0, 0, 1, 0, 2, 2, 4, 0) + (-2) * mono(a, d, x1, y1, x2, y2, 0, 0, 1, 0, 0, 2, 2, 0) + 1 * mono(a, d, x1, y1, x2, y2, 0, 0, 0, 0, 0, 0, 4, 0)) * (1 * mono(a, d, x1, y1, x2, y2, 0, 1, 0, 2, 0, 0, 0, 0) + (-1) * mono(a, d, x1, y1, x2, y2, 0, 0, 1, 2, 2, 0, 0, 0) + 1 * mono(a, d, x1, y1, x2, y2, 0, 0, 0, 0, 2, 0, 0, 0) + (-1) * mono(a, d, x1, y1, x2, y2, 0, 0, 0, 0, 0, 0, 0, 0)) == (-1) * mono(a, d, x1, y1, x2, y2, 0, 3, 1, 4, 0, 4, 2, 0) + (-2) * mono(a, d, x1, y1, x2, y2, 0, 3, 0, 2, 0, 4, 2, 0) + 1 * mono(a, d, x1, y1, x2, y2, 0, 3, 0, 2, 0, 4, 0, 0) + 1 * mono(a, d, x1, y1, x2, y2, 0, 2, 2, 4, 2, 4, 2, 0) + 1 * mono(a, d, x1, y1, x2, y2, 0, 2, 2, 4, 0, 4, 4, 0) + (-1) * mono(a, d, x1, y1, x2, y2, 0, 2, 1, 4, 0, 2, 4, 0) + (-1) * mono(a, d, x1, y1, x2, y2, 0, 2, 1, 2, 2, 4, 0, 0) + 2 * mono(a, d, x1, y1, x2, y2, 0, 2, 1, 2, 0, 4, 4, 0) + 1 * mono(a, d, x1, y1, x2, y2, 0, 2, 1, 2, 0, 4, 2, 0) + (-2) * mono(a, d, x1, y1, x2, y2, 0, 2, 0, 2, 0, 2, 4, 0) + 4 * mono(a, d, x1, y1, x2, y2, 0, 2, 0, 2, 0, 2, 2, 0) + (-2) * mono(a, d, x1, y1, x2, y2, 0, 2, 0, 0, 2, 4, 2, 0) + 1 * mono(a, d, x1, y1, x2, y2, 0, 2, 0, 0, 2, 4, 0, 0) + 2 * mono(a, d, x1, y1, x2, y2, 0, 2, 0, 0, 0, 4, 2, 0) + (-1) * mono(a, d, x1, y1, x2, y2, 0, 2, 0, 0, 0, 4, 0, 0) + 1 * mono(a, d, x1, y1, x2, y2, 0, 1, 2, 4, 2, 2, 4, 0) + 1 * mono(a, d, x1, y1, x2, y2, 0, 1, 2, 2, 4, 4, 2, 0) + (-2) * mono(a, d, x1, y1, x2, y2, 0, 1, 2, 2, 0, 4, 4, 0) + (-4) * mono(a, d, x1, y1, x2, y2, 0, 1, 1, 2, 2, 2, 2, 0) + 1 * mono(a, d, x1, y1, x2, y2, 0, 1, 1, 2, 0, 2, 4, 0) + (-2) * mono(a, d, x1, y1, x2, y2, 0, 1, 1, 2, 0, 2, 2, 0) + (-1) * mono(a, d, x1, y1, x2, y2, 0, 1, 1, 0, 4, 4, 2, 0) + 2 * mono(a, d, x1, y1, x2, y2, 0, 1, 1, 0, 2, 4, 4, 0) + 1 * mono(a, d, x1, y1, x2, y2, 0, 1, 1, 0, 2, 4, 2, 0) + (-2) * mono(a, d, x1, y1, x2, y2, 0, 1, 1, 0, 0, 4, 4, 0) + 1 * mono(a, d, x1, y1, x2, y2, 0, 1, 0, 2, 0, 0, 4, 0) + (-2) * mono(a, d, x1, y1, x2, y2, 0, 1, 0, 0, 2, 2, 4, 0) + 4 * mono(a, d, x1, y1, x2, y2, 0, 1, 0, 0, 2, 2, 2, 0) + 2 * mono(a, d, x1, y1, x2, y2, 0, 1, 0, 0, 0, 2, 4, 0) + (-4) * mono(a, d, x1, y1, x2, y2, 0, 1, 0, 0, 0, 2, 2, 0) + (-1) * mono(a, d, x1, y1, x2, y2, 0, 0, 4, 4, 4, 4, 4, 0) + 1 * mono(a, d, x1, y1, x2, y2, 0, 0, 2, 2, 4, 2, 4, 0) + 2 * mono(a, d, x1, y1, x2, y2, 0, 0, 2, 2, 2, 2, 2, 0) + 1 * mono(a, d, x1, y1, x2, y2, 0, 0, 2, 0, 4, 4, 4, 0) + (-2) * mono(a, d, x1, y1, x2, y2, 0, 0, 2, 0, 2, 4, 4, 0) + 1 * mono(a, d, x1, y1, x2, y2, 0, 0, 2, 0, 0, 4, 4, 0) + (-1) * mono(a, d, x1, y1, x2, y2, 0, 0, 1, 2, 2, 0, 4, 0) + (-1) * mono(a, d, x1, y1, x2, y2, 0, 0, 1, 0, 4, 2, 4, 0) + 1 * mono(a, d, x1, y1, x2, y2, 0, 0, 1, 0, 2, 2, 4, 0) + (-2) * mono(a, d, x1, y1, x2, y2, 0, 0, 1, 0, 2, 2, 2, 0) + 2 * mono(a, d, x1, y1, x2, y2, 0, 0, 1, 0, 0, 2, 2, 0) + 1 * mono(a, d, x1, y1, x2, y2, 0, 0, 0, 0, 2, 0, 4, 0) + (-1) * mono(a, d, x1, y1, x2, y2, 0, 0, 0, 0, 0, 0, 4, 0));
    lemma_mul_is_distributive_add_other_way((1 * mono(a, d, x1, y1, x2, y2, 0, 1, 0, 0, 0, 2, 0, 0) + (-1) * mono(a, d, x1, y1, x2, y2, 0, 0, 1, 0, 0, 2, 2, 0) + 1 * mono(a, d, x1, y1, x2, y2, 0, 0, 0, 0, 0, 0, 2, 0) + (-1) * mono(a, d, x1, y1, x2, y2, 0, 0, 0, 0, 0, 0, 0, 0)), 1 * mono(a, d, x1, y1, x2, y2, 0, 2, 1, 4, 0, 2, 2, 0), 2 * mono(a, d, x1, y1, x2, y2, 0, 2, 0, 2, 0, 2, 2, 0));
    lemma_mul_is_distributive_add_other_way((1 * mono(a, d, x1, y1, x2, y2, 0, 1, 0, 0, 0, 2, 0, 0) + (-1) * mono(a, d, x1, y1, x2, y2, 0, 0, 1, 0, 0, 2, 2, 0) + 1 * mono(a, d, x1, y1, x2, y2, 0, 0, 0, 0, 0, 0, 2, 0) + (-1) * mono(a, d, x1, y1, x2, y2, 0, 0, 0, 0, 0, 0, 0, 0)), 1 * mono(a, d, x1, y1, x2, y2, 0, 2, 1, 4, 0, 2, 2, 0) + 2 * mono(a, d, x1, y1, x2, y2, 0, 2, 0, 2, 0, 2, 2, 0), (-1) * mono(a, d, x1, y1, x2, y2, 0, 2, 0, 2, 0, 2, 0, 0));
    lemma_mul_is_distributive_add_other_way((1 * mono(a, d, x1, y1, x2, y2, 0, 1, 0, 0, 0, 2, 0, 0) + (-1) * mono(a, d, x1, y1, x2, y2, 0, 0, 1, 0, 0, 2, 2, 0) + 1 * mono(a, d, x1, y1, x2, y2, 0, 0, 0, 0, 0, 0, 2, 0) + (-1) * mono(a, d, x1, y1, x2, y2, 0, 0, 0, 0, 0, 0, 0, 0)), 1 * mono(a, d, x1, y1, x2, y2, 0, 2, 1, 4, 0, 2, 2, 0) + 2 * mono(a, d, x1, y1, x2, y2, 0, 2, 0, 2, 0, 2, 2, 0) + (-1) * mono(a, d, x1, y1, x2, y2, 0, 2, 0, 2, 0, 2, 0, 0), (-2) * mono(a, d, x1, y1, x2, y2, 0, 1, 1, 2, 0, 2, 2, 0));
    lemma_mul_is_distributive_add_other_way((1 * mono(a, d, x1, y1, x2, y2, 0, 1, 0, 0, 0, 2, 0, 0) + (-1) * mono(a, d, x1, y1, x2, y2, 0, 0, 1, 0, 0, 2, 2, 0) + 1 * mono(a, d, x1, y1, x2, y2, 0, 0, 0, 0, 0, 0, 2, 0) + (-1) * mono(a, d, x1, y1, x2, y2, 0, 0, 0, 0, 0, 0, 0, 0)), 1 * mono(a, d, x1, y1, x2, y2, 0, 2, 1, 4, 0, 2, 2, 0) + 2 * mono(a, d, x1, y1, x2, y2, 0, 2, 0, 2, 0, 2, 2, 0) + (-1) * mono(a, d, x1, y1, x2, y2, 0, 2, 0, 2, 0, 2, 0, 0) + (-2) * mono(a, d, x1, y1, x2, y2, 0, 1, 1, 2, 0, 2, 2, 0), (-1) * mono(a, d, x1, y1, x2, y2, 0, 1, 0, 2, 0, 0, 2, 0));
    lemma_mul_is_distributive_add_other_way((1 * mono(a, d, x1, y1, x2, y2, 0, 1, 0, 0, 0, 2, 0, 0) + (-1) * mono(a, d, x1, y1, x2, y2, 0, 0, 1, 0, 0, 2, 2, 0) + 1 * mono(a, d, x1, y1, x2, y2, 0, 0, 0, 0, 0, 0, 2, 0) + (-1) * mono(a, d, x1, y1, x2, y2, 0, 0, 0, 0, 0, 0, 0, 0)), 1 * mono(a, d, x1, y1, x2, y2, 0, 2, 1, 4, 0, 2, 2, 0) + 2 * mono(a, d, x1, y1, x2, y2, 0, 2, 0, 2, 0, 2, 2, 0) + (-1) * mono(a, d, x1, y1, x2, y2, 0, 2, 0, 2, 0, 2, 0, 0) + (-2) * mono(a, d, x1, y1, x2, y2, 0, 1, 1, 2, 0, 2, 2, 0) + (-1) * mono(a, d, x1, y1, x2, y2, 0, 1, 0, 2, 0, 0, 2, 0), 2 * mono(a, d, x1, y1, x2, y2, 0, 1, 0, 0, 2, 2, 2, 0));
    lemma_mul_is_distributive_add_other_way((1 * mono(a, d, x1, y1, x2, y2, 0, 1, 0, 0, 0, 2, 0, 0) + (-1) * mono(a, d, x1, y1, x2, y2, 0, 0, 1, 0, 0, 2, 2, 0) + 1 * mono(a, d, x1, y1, x2, y2, 0, 0, 0, 0, 0, 0, 2, 0) + (-1) * mono(a, d, x1, y1, x2, y2, 0, 0, 0, 0, 0, 0, 0, 0)), 1 * mono(a, d, x1, y1, x2, y2, 0, 2, 1, 4, 0, 2, 2, 0) + 2 * mono(a, d, x1, y1, x2, y2, 0, 2, 0, 2, 0, 2, 2, 0) + (-1) * mono(a, d, x1, y1, x2, y2, 0, 2, 0, 2, 0, 2, 0, 0) + (-2) * mono(a, d, x1, y1, x2, y2, 0, 1, 1, 2, 0, 2, 2, 0) + (-1) * mono(a, d, x1, y1, x2, y2, 0, 1, 0, 2, 0, 0, 2, 0) + 2 * mono(a, d, x1, y1, x2, y2, 0, 1, 0, 0, 2, 2, 2, 0), (-1) * mono(a, d, x1, y1, x2, y2, 0, 1, 0, 0, 2, 2, 0, 0));
    lemma_mul_is_distributive_add_other_way((1 * mono(a, d, x1, y1, x2, y2, 0, 1, 0, 0, 0, 2, 0, 0) + (-1) * mono(a, d, x1, y1, x2, y2, 0, 0, 1, 0, 0, 2, 2, 0) + 1 * mono(a, d, x1, y1, x2, y2, 0, 0, 0, 0, 0, 0, 2, 0) + (-1) * mono(a, d, x1, y1, x2, y2, 0, 0, 0, 0, 0, 0, 0, 0)), 1 * mono(a, d, x1, y1, x2, y2, 0, 2, 1, 4, 0, 2, 2, 0) + 2 * mono(a, d, x1, y1, x2, y2, 0, 2, 0, 2, 0, 2, 2, 0) + (-1) * mono(a, d, x1, y1, x2, y2, 0, 2, 0, 2, 0, 2, 0, 0) + (-2) * mono(a, d, x1, y1, x2, y2, 0, 1, 1, 2, 0, 2, 2, 0) + (-1) * mono(a, d, x1, y1, x2, y2, 0, 1, 0, 2, 0, 0, 2, 0) + 2 * mono(a, d, x1, y1, x2, y2, 0, 1, 0, 0, 2, 2, 2, 0) + (-1) * mono(a, d, x1, y1, x2, y2, 0, 1, 0, 0, 2, 2, 0, 0), (-2) * mono(a, d, x1, y1, x2, y2, 0, 1, 0, 0, 0, 2, 2, 0));
    lemma_mul_is_distributive_add_other_way((1 * mono(a, d, x1, y1, x2, y2, 0, 1, 0, 0, 0, 2, 0, 0) + (-1) * mono(a, d, x1, y1, x2, y2, 0, 0, 1, 0, 0, 2, 2, 0) + 1 * mono(a, d, x1, y1, x2, y2, 0, 0, 0, 0, 0, 0, 2, 0) + (-1) * mono(a, d, x1, y1, x2, y2, 0, 0, 0, 0, 0, 0, 0, 0)), 1 * mono(a, d, x1, y1, x2, y2, 0, 2, 1, 4, 0, 2, 2, 0) + 2 * mono(a, d, x1, y1, x2, y2, 0, 2, 0, 2, 0, 2, 2, 0) + (-1) * mono(a, d, x1, y1, x2, y2, 0, 2, 0, 2, 0, 2, 0, 0) + (-2) * mono(a, d, x1, y1, x2, y2, 0, 1, 1, 2, 0, 2, 2, 0) + (-1) * mono(a, d, x1, y1, x2, y2, 0, 1, 0, 2, 0, 0, 2, 0) + 2 * mono(a, d, x1, y1, x2, y2, 0, 1, 0, 0, 2, 2, 2, 0) + (-1) * mono(a, d, x1, y1, x2, y2, 0, 1, 0, 0, 2, 2, 0, 0) + (-2) * mono(a, d, x1, y1, x2, y2, 0, 1, 0, 0, 0, 2, 2, 0), 1 * mono(a, d, x1, y1, x2, y2, 0, 1, 0, 0, 0, 2, 0, 0));
    lemma_mul_is_distributive_add_other_way((1 * mono(a, d, x1, y1, x2, y2, 0, 1, 0, 0, 0, 2, 0, 0) + (-1) * mono(a, d, x1, y1, x2, y2, 0, 0, 1, 0, 0, 2, 2, 0) + 1 * mono(a, d, x1, y1, x2, y2, 0, 0, 0, 0, 0, 0, 2, 0) + (-1) * mono(a, d, x1, y1, x2, y2, 0, 0, 0, 0, 0, 0, 0, 0)), 1 * mono(a, d, x1, y1, x2, y2, 0, 2, 1, 4, 0, 2, 2, 0) + 2 * mono(a, d, x1, y1, x2, y2, 0, 2, 0, 2, 0, 2, 2, 0) + (-1) * mono(a, d, x1, y1, x2, y2, 0, 2, 0, 2, 0, 2, 0, 0) + (-2) * mono(a, d, x1, y1, x2, y2, 0, 1, 1, 2, 0, 2, 2, 0) + (-1) * mono(a, d, x1, y1, x2, y2, 0, 1, 0, 2, 0, 0, 2, 0) + 2 * mono(a, d, x1, y1, x2, y2, 0, 1, 0, 0, 2, 2, 2, 0) + (-1) * mono(a, d, x1, y1, x2, y2, 0, 1, 0, 0, 2, 2, 0, 0) + (-2) * mono(a, d, x1, y1, x2, y2, 0, 1, 0, 0, 0, 2, 2, 0) + 1 * mono(a, d, x1, y1, x2, y2, 0, 1, 0, 0, 0, 2, 0, 0), 1 * mono(a, d, x1, y1, x2, y2, 0, 0, 1, 0, 4, 2, 2, 0));
    lemma_mul_is_distributive_add_other_way((1 * mono(a, d, x1, y1, x2, y2, 0, 1, 0, 0, 0, 2, 0, 0) + (-1) * mono(a, d, x1, y1, x2, y2, 0, 0, 1, 0, 0, 2, 2, 0) + 1 * mono(a, d, x1, y1, x2, y2, 0, 0, 0, 0, 0, 0, 2, 0) + (-1) * mono(a, d, x1, y1, x2, y2, 0, 0, 0, 0, 0, 0, 0, 0)), 1 * mono(a, d, x1, y1, x2, y2, 0, 2, 1, 4, 0, 2, 2, 0) + 2 * mono(a, d, x1, y1, x2, y2, 0, 2, 0, 2, 0, 2, 2, 0) + (-1) * mono(a, d, x1, y1, x2, y2, 0, 2, 0, 2, 0, 2, 0, 0) + (-2) * mono(a, d, x1, y1, x2, y2, 0, 1, 1, 2, 0, 2, 2, 0) + (-1) * mono(a, d, x1, y1, x2, y2, 0, 1, 0, 2, 0, 0, 2, 0) + 2 * mono(a, d, x1, y1, x2, y2, 0, 1, 0, 0, 2, 2, 2, 0) + (-1) * mono(a, d, x1, y1, x2, y2, 0, 1, 0, 0, 2, 2, 0, 0) + (-2) * mono(a, d, x1, y1, x2, y2, 0, 1, 0, 0, 0, 2, 2, 0) + 1 * mono(a, d, x1, y1, x2, y2, 0, 1, 0, 0, 0, 2, 0, 0) + 1 * mono(a, d, x1, y1, x2, y2, 0, 0, 1, 0, 4, 2, 2, 0), (-2) * mono(a, d, x1, y1, x2, y2, 0, 0, 1, 0, 2, 2, 2, 0));
    lemma_mul_is_distributive_add_other_way((1 * mono(a, d, x1, y1, x2, y2, 0, 1, 0, 0, 0, 2, 0, 0) + (-1) * mono(a, d, x1, y1, x2, y2, 0, 0, 1, 0, 0, 2, 2, 0) + 1 * mono(a, d, x1, y1, x2, y2, 0, 0, 0, 0, 0, 0, 2, 0) + (-1) * mono(a, d, x1, y1, x2, y2, 0, 0, 0, 0, 0, 0, 0, 0)), 1 * mono(a, d, x1, y1, x2, y2, 0, 2, 1, 4, 0, 2, 2, 0) + 2 * mono(a, d, x1, y1, x2, y2, 0, 2, 0, 2, 0, 2, 2, 0) + (-1) * mono(a, d, x1, y1, x2, y2, 0, 2, 0, 2, 0, 2, 0, 0) + (-2) * mono(a, d, x1, y1, x2, y2, 0, 1, 1, 2, 0, 2, 2, 0) + (-1) * mono(a, d, x1, y1, x2, y2, 0, 1, 0, 2, 0, 0, 2, 0) + 2 * mono(a, d, x1, y1, x2, y2, 0, 1, 0, 0, 2, 2, 2, 0) + (-1) * mono(a, d, x1, y1, x2, y2, 0, 1, 0, 0, 2, 2, 0, 0) + (-2) * mono(a, d, x1, y1, x2, y2, 0, 1, 0, 0, 0, 2, 2, 0) + 1 * mono(a, d, x1, y1, x2, y2, 0, 1, 0, 0, 0, 2, 0, 0) + 1 * mono(a, d, x1, y1, x2, y2, 0, 0, 1, 0, 4, 2, 2, 0) + (-2) * mono(a, d, x1, y1, x2, y2, 0, 0, 1, 0, 2, 2, 2, 0), 1 * mono(a, d, x1, y1, x2, y2, 0, 0, 1, 0, 0, 2, 2, 0));
    lemma_mul_is_distributive_add_other_way((1 * mono(a, d, x1, y1, x2, y2, 0, 1, 0, 0, 0, 2, 0, 0) + (-1) * mono(a, d, x1, y1, x2, y2, 0, 0, 1, 0, 0, 2, 2, 0) + 1 * mono(a, d, x1, y1, x2, y2, 0, 0, 0, 0, 0, 0, 2, 0) + (-1) * mono(a, d, x1, y1, x2, y2, 0, 0, 0, 0, 0, 0, 0, 0)), 1 * mono(a, d, x1, y1, x2, y2, 0, 2, 1, 4, 0, 2, 2, 0) + 2 * mono(a, d, x1, y1, x2, y2, 0, 2, 0, 2, 0, 2, 2, 0) + (-1) * mono(a, d, x1, y1, x2, y2, 0, 2, 0, 2, 0, 2, 0, 0) + (-2) * mono(a, d, x1, y1, x2, y2, 0, 1, 1, 2, 0, 2, 2, 0) + (-1) * mono(a, d, x1, y1, x2, y2, 0, 1, 0, 2, 0, 0, 2, 0) + 2 * mono(a, d, x1, y1, x2, y2, 0, 1, 0, 0, 2, 2, 2, 0) + (-1) * mono(a, d, x1, y1, x2, y2, 0, 1, 0, 0, 2, 2, 0, 0) + (-2) * mono(a, d, x1, y1, x2, y2, 0, 1, 0, 0, 0, 2, 2, 0) + 1 * mono(a, d, x1, y1, x2, y2, 0, 1, 0, 0, 0, 2, 0, 0) + 1 * mono(a, d, x1, y1, x2, y2, 0, 0, 1, 0, 4, 2, 2, 0) + (-2) * mono(a, d, x1, y1, x2, y2, 0, 0, 1, 0, 2, 2, 2, 0) + 1 * mono(a, d, x1, y1, x2, y2, 0, 0, 1, 0, 0, 2, 2, 0), (-1) * mono(a, d, x1, y1, x2, y2, 0, 0, 0, 0, 2, 0, 2, 0));
    lemma_mul_is_distributive_add_other_way((1 * mono(a, d, x1, y1, x2, y2, 0, 1, 0, 0, 0, 2, 0, 0) + (-1) * mono(a, d, x1, y1, x2, y2, 0, 0, 1, 0, 0, 2, 2, 0) + 1 * mono(a, d, x1, y1, x2, y2, 0, 0, 0, 0, 0, 0, 2, 0) + (-1) * mono(a, d, x1, y1, x2, y2, 0, 0, 0, 0, 0, 0, 0, 0)), 1 * mono(a, d, x1, y1, x2, y2, 0, 2, 1, 4, 0, 2, 2, 0) + 2 * mono(a, d, x1, y1, x2, y2, 0, 2, 0, 2, 0, 2, 2, 0) + (-1) * mono(a, d, x1, y1, x2, y2, 0, 2, 0, 2, 0, 2, 0, 0) + (-2) * mono(a, d, x1, y1, x2, y2, 0, 1, 1, 2, 0, 2, 2, 0) + (-1) * mono(a, d, x1, y1, x2, y2, 0, 1, 0, 2, 0, 0, 2, 0) + 2 * mono(a, d, x1, y1, x2, y2, 0, 1, 0, 0, 2, 2, 2, 0) + (-1) * mono(a, d, x1, y1, x2, y2, 0, 1, 0, 0, 2, 2, 0, 0) + (-2) * mono(a, d, x1, y1, x2, y2, 0, 1, 0, 0, 0, 2, 2, 0) + 1 * mono(a, d, x1, y1, x2, y2, 0, 1, 0, 0, 0, 2, 0, 0) + 1 * mono(a, d, x1, y1, x2, y2, 0, 0, 1, 0, 4, 2, 2, 0) + (-2) * mono(a, d, x1, y1, x2, y2, 0, 0, 1, 0, 2, 2, 2, 0) + 1 * mono(a, d, x1, y1, x2, y2, 0, 0, 1, 0, 0, 2, 2, 0) + (-1) * mono(a, d, x1, y1, x2, y2, 0, 0, 0, 0, 2, 0, 2, 0), 1 * mono(a, d, x1, y1, x2, y2, 0, 0, 0, 0, 0, 0, 2, 0));
    lemma_mul_is_distributive_add_other_way((1 * mono(a, d, x1, y1, x2, y2, 0, 1, 0, 0, 0, 2, 0, 0) + (-1) * mono(a, d, x1, y1, x2, y2, 0, 0, 1, 0, 0, 2, 2, 0) + 1 * mono(a, d, x1, y1, x2, y2, 0, 0, 0, 0, 0, 0, 2, 0) + (-1) * mono(a, d, x1, y1, x2, y2, 0, 0, 0, 0, 0, 0, 0, 0)), 1 * mono(a, d, x1, y1, x2, y2, 0, 2, 1, 4, 0, 2, 2, 0) + 2 * mono(a, d, x1, y1, x2, y2, 0, 2, 0, 2, 0, 2, 2, 0) + (-1) * mono(a, d, x1, y1, x2, y2, 0, 2, 0, 2, 0, 2, 0, 0) + (-2) * mono(a, d, x1, y1, x2, y2, 0, 1, 1, 2, 0, 2, 2, 0) + (-1) * mono(a, d, x1, y1, x2, y2, 0, 1, 0, 2, 0, 0, 2, 0) + 2 * mono(a, d, x1, y1, x2, y2, 0, 1, 0, 0, 2, 2, 2, 0) + (-1) * mono(a, d, x1, y1, x2, y2, 0, 1, 0, 0, 2, 2, 0, 0) + (-2) * mono(a, d, x1, y1, x2, y2, 0, 1, 0, 0, 0, 2, 2, 0) + 1 * mono(a, d, x1, y1, x2, y2, 0, 1, 0, 0, 0, 2, 0, 0) + 1 * mono(a, d, x1, y1, x2, y2, 0, 0, 1, 0, 4, 2, 2, 0) + (-2) * mono(a, d, x1, y1, x2, y2, 0, 0, 1, 0, 2, 2, 2, 0) + 1 * mono(a, d, x1, y1, x2, y2, 0, 0, 1, 0, 0, 2, 2, 0) + (-1) * mono(a, d, x1, y1, x2, y2, 0, 0, 0, 0, 2, 0, 2, 0) + 1 * mono(a, d, x1, y1, x2, y2, 0, 0, 0, 0, 0, 0, 2, 0), 1 * mono(a, d, x1, y1, x2, y2, 0, 0, 0, 0, 0, 0, 0, 0));
    lemma_mul_is_distributive_add(1 * mono(a, d, x1, y1, x2, y2, 0, 2, 1, 4, 0, 2, 2, 0), 1 * mono(a, d, x1, y1, x2, y2, 0, 1, 0, 0, 0, 2, 0, 0), (-1) * mono(a, d, x1, y1, x2, y2, 0, 0, 1, 0, 0, 2, 2, 0));
    lemma_mul_is_distributive_add(1 * mono(a, d, x1, y1, x2, y2, 0, 2, 1, 4, 0, 2, 2, 0), 1 * mono(a, d, x1, y1, x2, y2, 0, 1, 0, 0, 0, 2, 0, 0) + (-1) * mono(a, d, x1, y1, x2, y2, 0, 0, 1, 0, 0, 2, 2, 0), 1 * mono(a, d, x1, y1, x2, y2, 0, 0, 0, 0, 0, 0, 2, 0));
    lemma_mul_is_distributive_add(1 * mono(a, d, x1, y1, x2, y2, 0, 2, 1, 4, 0, 2, 2, 0), 1 * mono(a, d, x1, y1, x2, y2, 0, 1, 0, 0, 0, 2, 0, 0) + (-1) * mono(a, d, x1, y1, x2, y2, 0, 0, 1, 0, 0, 2, 2, 0) + 1 * mono(a, d, x1, y1, x2, y2, 0, 0, 0, 0, 0, 0, 2, 0), (-1) * mono(a, d, x1, y1, x2, y2, 0, 0, 0, 0, 0, 0, 0, 0));
    lemma_term_mul(a, d, x1, y1, x2, y2, 0, 1, 2, 1, 4, 0, 2, 2, 0, 1, 1, 0, 0, 0, 2, 0, 0);
    lemma_term_mul(a, d, x1, y1, x2, y2, 0, 1, 2, 1, 4, 0, 2, 2, 0, -1, 0, 1, 0, 0, 2, 2, 0);
    lemma_term_mul(a, d, x1, y1, x2, y2, 0, 1, 2, 1, 4, 0, 2, 2, 0, 1, 0, 0, 0, 0, 0, 2, 0);
    lemma_term_mul(a, d, x1, y1, x2, y2, 0, 1, 2, 1, 4, 0, 2, 2, 0, -1, 0, 0, 0, 0, 0, 0, 0);
    lemma_mul_is_distributive_add(2 * mono(a, d, x1, y1, x2, y2, 0, 2, 0, 2, 0, 2, 2, 0), 1 * mono(a, d, x1, y1, x2, y2, 0, 1, 0, 0, 0, 2, 0, 0), (-1) * mono(a, d, x1, y1, x2, y2, 0, 0, 1, 0, 0, 2, 2, 0));
    lemma_mul_is_distributive_add(2 * mono(a, d, x1, y1, x2, y2, 0, 2, 0, 2, 0, 2, 2, 0), 1 * mono(a, d, x1, y1, x2, y2, 0, 1, 0, 0, 0, 2, 0, 0) + (-1) * mono(a, d, x1, y1, x2, y2, 0, 0, 1, 0, 0, 2, 2, 0), 1 * mono(a, d, x1, y1, x2, y2, 0, 0, 0, 0, 0, 0, 2, 0));
    lemma_mul_is_distributive_add(2 * mono(a, d, x1, y1, x2, y2, 0, 2, 0, 2, 0, 2, 2, 0), 1 * mono(a, d, x1, y1, x2, y2, 0, 1, 0, 0, 0, 2, 0, 0) + (-1) * mono(a, d, x1, y1, x2, y2, 0, 0, 1, 0, 0, 2, 2, 0) + 1 * mono(a, d, x1, y1, x2, y2, 0, 0, 0, 0, 0, 0, 2, 0), (-1) * mono(a, d, x1, y1, x2, y2, 0, 0, 0, 0, 0, 0, 0, 0));
    lemma_term_mul(a, d, x1, y1, x2, y2, 0, 2, 2, 0, 2, 0, 2, 2, 0, 1, 1, 0, 0, 0, 2, 0, 0);
    lemma_term_mul(a, d, x1, y1, x2, y2, 0, 2, 2, 0, 2, 0, 2, 2, 0, -1, 0, 1, 0, 0, 2, 2, 0);
    lemma_term_mul(a, d, x1, y1, x2, y2, 0, 2, 2, 0, 2, 0, 2, 2, 0, 1, 0, 0, 0, 0, 0, 2, 0);
    lemma_term_mul(a, d, x1, y1, x2, y2, 0, 2, 2, 0, 2, 0, 2, 2, 0, -1, 0, 0, 0, 0, 0, 0, 0);
    lemma_mul_is_distributive_add((-1) * mono(a, d, x1, y1, x2, y2, 0, 2, 0, 2, 0, 2, 0, 0), 1 * mono(a, d, x1, y1, x2, y2, 0, 1, 0, 0, 0, 2, 0, 0), (-1) * mono(a, d, x1, y1, x2, y2, 0, 0, 1, 0, 0, 2, 2, 0));
    lemma_mul_is_distributive_add((-1) * mono(a, d, x1, y1, x2, y2, 0, 2, 0, 2, 0, 2, 0, 0), 1 * mono(a, d, x1, y1, x2, y2, 0, 1, 0, 0, 0, 2, 0, 0) + (-1) * mono(a, d, x1, y1, x2, y2, 0, 0, 1, 0, 0, 2, 2, 0), 1 * mono(a, d, x1, y1, x2, y2, 0, 0, 0, 0, 0, 0, 2, 0));
    lemma_mul_is_distributive_add((-1) * mono(a, d, x1, y1, x2, y2, 0, 2, 0, 2, 0, 2, 0, 0), 1 * mono(a, d, x1, y1, x2, y2, 0, 1, 0, 0, 0, 2, 0, 0) + (-1) * mono(a, d, x1, y1, x2, y2, 0, 0, 1, 0, 0, 2, 2, 0) + 1 * mono(a, d, x1, y1, x2, y2, 0, 0, 0, 0, 0, 0, 2, 0), (-1) * mono(a, d, x1, y1, x2, y2, 0, 0, 0, 0, 0, 0, 0, 0));
    lemma_term_mul(a, d, x1, y1, x2, y2, 0, -1, 2, 0, 2, 0, 2, 0, 0, 1, 1, 0, 0, 0, 2, 0, 0);
    lemma_term_mul(a, d, x1, y1, x2, y2, 0, -1, 2, 0, 2, 0, 2, 0, 0, -1, 0, 1, 0, 0, 2, 2, 0);
    lemma_term_mul(a, d, x1, y1, x2, y2, 0, -1, 2, 0, 2, 0, 2, 0, 0, 1, 0, 0, 0, 0, 0, 2, 0);
    lemma_term_mul(a, d, x1, y1, x2, y2, 0, -1, 2, 0, 2, 0, 2, 0, 0, -1, 0, 0, 0, 0, 0, 0, 0);
    lemma_mul_is_distributive_add((-2) * mono(a, d, x1, y1, x2, y2, 0, 1, 1, 2, 0, 2, 2, 0), 1 * mono(a, d, x1, y1, x2, y2, 0, 1, 0, 0, 0, 2, 0, 0), (-1) * mono(a, d, x1, y1, x2, y2, 0, 0, 1, 0, 0, 2, 2, 0));
    lemma_mul_is_distributive_add((-2) * mono(a, d, x1, y1, x2, y2, 0, 1, 1, 2, 0, 2, 2, 0), 1 * mono(a, d, x1, y1, x2, y2, 0, 1, 0, 0, 0, 2, 0, 0) + (-1) * mono(a, d, x1, y1, x2, y2, 0, 0, 1, 0, 0, 2, 2, 0), 1 * mono(a, d, x1, y1, x2, y2, 0, 0, 0, 0, 0, 0, 2, 0));
    lemma_mul_is_distributive_add((-2) * mono(a, d, x1, y1, x2, y2, 0, 1, 1, 2, 0, 2, 2, 0), 1 * mono(a, d, x1, y1, x2, y2, 0, 1, 0, 0, 0, 2, 0, 0) + (-1) * mono(a, d, x1, y1, x2, y2, 0, 0, 1, 0, 0, 2, 2, 0) + 1 * mono(a, d, x1, y1, x2, y2, 0, 0, 0, 0, 0, 0, 2, 0), (-1) * mono(a, d, x1, y1, x2, y2, 0, 0, 0, 0, 0, 0, 0, 0));
    lemma_term_mul(a, d, x1, y1, x2, y2, 0, -2, 1, 1, 2, 0, 2, 2, 0, 1, 1, 0, 0, 0, 2, 0, 0);
    lemma_term_mul(a, d, x1, y1, x2, y2, 0, -2, 1, 1, 2, 0, 2, 2, 0, -1, 0, 1, 0, 0, 2, 2, 0);
    lemma_term_mul(a, d, x1, y1, x2, y2, 0, -2, 1, 1, 2, 0, 2, 2, 0, 1, 0, 0, 0, 0, 0, 2, 0);
    lemma_term_mul(a, d, x1, y1, x2, y2, 0, -2, 1, 1, 2, 0, 2, 2, 0, -1, 0, 0, 0, 0, 0, 0, 0);
    lemma_mul_is_distributive_add((-1) * mono(a, d, x1, y1, x2, y2, 0, 1, 0, 2, 0, 0, 2, 0), 1 * mono(a, d, x1, y1, x2, y2, 0, 1, 0, 0, 0, 2, 0, 0), (-1) * mono(a, d, x1, y1, x2, y2, 0, 0, 1, 0, 0, 2, 2, 0));
    lemma_mul_is_distributive_add((-1) * mono(a, d, x1, y1, x2, y2, 0, 1, 0, 2, 0, 0, 2, 0), 1 * mono(a, d, x1, y1, x2, y2, 0, 1, 0, 0, 0, 2, 0, 0) + (-1) * mono(a, d, x1, y1, x2, y2, 0, 0, 1, 0, 0, 2, 2, 0), 1 * mono(a, d, x1, y1, x2, y2, 0, 0, 0, 0, 0, 0, 2, 0));
    lemma_mul_is_distributive_add((-1) * mono(a, d, x1, y1, x2, y2, 0, 1, 0, 2, 0, 0, 2, 0), 1 * mono(a, d, x1, y1, x2, y2, 0, 1, 0, 0, 0, 2, 0, 0) + (-1) * mono(a, d, x1, y1, x2, y2, 0, 0, 1, 0, 0, 2, 2, 0) + 1 * mono(a, d, x1, y1, x2, y2, 0, 0, 0, 0, 0, 0, 2, 0), (-1) * mono(a, d, x1, y1, x2, y2, 0, 0, 0, 0, 0, 0, 0, 0));
    lemma_term_mul(a, d, x1, y1, x2, y2, 0, -1, 1, 0, 2, 0, 0, 2, 0, 1, 1, 0, 0, 0, 2, 0, 0);
    lemma_term_mul(a, d, x1, y1, x2, y2, 0, -1, 1, 0, 2, 0, 0, 2, 0, -1, 0, 1, 0, 0, 2, 2, 0);
    lemma_term_mul(a, d, x1, y1, x2, y2, 0, -1, 1, 0, 2, 0, 0, 2, 0, 1, 0, 0, 0, 0, 0, 2, 0);
    lemma_term_mul(a, d, x1, y1, x2, y2, 0, -1, 1, 0, 2, 0, 0, 2, 0, -1, 0, 0, 0, 0, 0, 0, 0);
    lemma_mul_is_distributive_add(2 * mono(a, d, x1, y1, x2, y2, 0, 1, 0, 0, 2, 2, 2, 0), 1 * mono(a, d, x1, y1, x2, y2, 0, 1, 0, 0, 0, 2, 0, 0), (-1) * mono(a, d, x1, y1, x2, y2, 0, 0, 1, 0, 0, 2, 2, 0));
    lemma_mul_is_distributive_add(2 * mono(a, d, x1, y1, x2, y2, 0, 1, 0, 0, 2, 2, 2, 0), 1 * mono(a, d, x1, y1, x2, y2, 0, 1, 0, 0, 0, 2, 0, 0) + (-1) * mono(a, d, x1, y1, x2, y2, 0, 0, 1, 0, 0, 2, 2, 0), 1 * mono(a, d, x1, y1, x2, y2, 0, 0, 0, 0, 0, 0, 2, 0));
    lemma_mul_is_distributive_add(2 * mono(a, d, x1, y1, x2, y2, 0, 1, 0, 0, 2, 2, 2, 0), 1 * mono(a, d, x1, y1, x2, y2, 0, 1, 0, 0, 0, 2, 0, 0) + (-1) * mono(a, d, x1, y1, x2, y2, 0, 0, 1, 0, 0, 2, 2, 0) + 1 * mono(a, d, x1, y1, x2, y2, 0, 0, 0, 0, 0, 0, 2, 0), (-1) * mono(a, d, x1, y1, x2, y2, 0, 0, 0, 0, 0, 0, 0, 0));
    lemma_term_mul(a, d, x1, y1, x2, y2, 0, 2, 1, 0, 0, 2, 2, 2, 0, 1, 1, 0, 0, 0, 2, 0, 0);
    lemma_term_mul(a, d, x1, y1, x2, y2, 0, 2, 1, 0, 0, 2, 2, 2, 0, -1, 0, 1, 0, 0, 2, 2, 0);
    lemma_term_mul(a, d, x1, y1, x2, y2, 0, 2, 1, 0, 0, 2, 2, 2, 0, 1, 0, 0, 0, 0, 0, 2, 0);
    lemma_term_mul(a, d, x1, y1, x2, y2, 0, 2, 1, 0, 0, 2, 2, 2, 0, -1, 0, 0, 0, 0, 0, 0, 0);
    lemma_mul_is_distributive_add((-1) * mono(a, d, x1, y1, x2, y2, 0, 1, 0, 0, 2, 2, 0, 0), 1 * mono(a, d, x1, y1, x2, y2, 0, 1, 0, 0, 0, 2, 0, 0), (-1) * mono(a, d, x1, y1, x2, y2, 0, 0, 1, 0, 0, 2, 2, 0));
    lemma_mul_is_distributive_add((-1) * mono(a, d, x1, y1, x2, y2, 0, 1, 0, 0, 2, 2, 0, 0), 1 * mono(a, d, x1, y1, x2, y2, 0, 1, 0, 0, 0, 2, 0, 0) + (-1) * mono(a, d, x1, y1, x2, y2, 0, 0, 1, 0, 0, 2, 2, 0), 1 * mono(a, d, x1, y1, x2, y2, 0, 0, 0, 0, 0, 0, 2, 0));
    lemma_mul_is_distributive_add((-1) * mono(a, d, x1, y1, x2, y2, 0, 1, 0, 0, 2, 2, 0, 0), 1 * mono(a, d, x1, y1, x2, y2, 0, 1, 0, 0, 0, 2, 0, 0) + (-1) * mono(a, d, x1, y1, x2, y2, 0, 0, 1, 0, 0, 2, 2, 0) + 1 * mono(a, d, x1, y1, x2, y2, 0, 0, 0, 0, 0, 0, 2, 0), (-1) * mono(a, d, x1, y1, x2, y2, 0, 0, 0, 0, 0, 0, 0, 0));
    lemma_term_mul(a, d, x1, y1, x2, y2, 0, -1, 1, 0, 0, 2, 2, 0, 0, 1, 1, 0, 0, 0, 2, 0, 0);
    lemma_term_mul(a, d, x1, y1, x2, y2, 0, -1, 1, 0, 0, 2, 2, 0, 0, -1, 0, 1, 0, 0, 2, 2, 0);
    lemma_term_mul(a, d, x1, y1, x2, y2, 0, -1, 1, 0, 0, 2, 2, 0, 0, 1, 0, 0, 0, 0, 0, 2, 0);
    lemma_term_mul(a, d, x1, y1, x2, y2, 0, -1, 1, 0, 0, 2, 2, 0, 0, -1, 0, 0, 0, 0, 0, 0, 0);
    lemma_mul_is_distributive_add((-2) * mono(a, d, x1, y1, x2, y2, 0, 1, 0, 0, 0, 2, 2, 0), 1 * mono(a, d, x1, y1, x2, y2, 0, 1, 0, 0, 0, 2, 0, 0), (-1) * mono(a, d, x1, y1, x2, y2, 0, 0, 1, 0, 0, 2, 2, 0));
    lemma_mul_is_distributive_add((-2) * mono(a, d, x1, y1, x2, y2, 0, 1, 0, 0, 0, 2, 2, 0), 1 * mono(a, d, x1, y1, x2, y2, 0, 1, 0, 0, 0, 2, 0, 0) + (-1) * mono(a, d, x1, y1, x2, y2, 0, 0, 1, 0, 0, 2, 2, 0), 1 * mono(a, d, x1, y1, x2, y2, 0, 0, 0, 0, 0, 0, 2, 0));
    lemma_mul_is_distributive_add((-2) * mono(a, d, x1, y1, x2, y2, 0, 1, 0, 0, 0, 2, 2, 0), 1 * mono(a, d, x1, y1, x2, y2, 0, 1, 0, 0, 0, 2, 0, 0) + (-1) * mono(a, d, x1, y1, x2, y2, 0, 0, 1, 0, 0, 2, 2, 0) + 1 * mono(a, d, x1, y1, x2, y2, 0, 0, 0, 0, 0, 0, 2, 0), (-1) * mono(a, d, x1, y1, x2, y2, 0, 0, 0, 0, 0, 0, 0, 0));
    lemma_term_mul(a, d, x1, y1, x2, y2, 0, -2, 1, 0, 0, 0, 2, 2, 0, 1, 1, 0, 0, 0, 2, 0, 0);
    lemma_term_mul(a, d, x1, y1, x2, y2, 0, -2, 1, 0, 0, 0, 2, 2, 0, -1, 0, 1, 0, 0, 2, 2, 0);
    lemma_term_mul(a, d, x1, y1, x2, y2, 0, -2, 1, 0, 0, 0, 2, 2, 0, 1, 0, 0, 0, 0, 0, 2, 0);
    lemma_term_mul(a, d, x1, y1, x2, y2, 0, -2, 1, 0, 0, 0, 2, 2, 0, -1, 0, 0, 0, 0, 0, 0, 0);
    lemma_mul_is_distributive_add(1 * mono(a, d, x1, y1, x2, y2, 0, 1, 0, 0, 0, 2, 0, 0), 1 * mono(a, d, x1, y1, x2, y2, 0, 1, 0, 0, 0, 2, 0, 0), (-1) * mono(a, d, x1, y1, x2, y2, 0, 0, 1, 0, 0, 2, 2, 0));
    lemma_mul_is_distributive_add(1 * mono(a, d, x1, y1, x2, y2, 0, 1, 0, 0, 0, 2, 0, 0), 1 * mono(a, d, x1, y1, x2, y2, 0, 1, 0, 0, 0, 2, 0, 0) + (-1) * mono(a, d, x1, y1, x2, y2, 0, 0, 1, 0, 0, 2, 2, 0), 1 * mono(a, d, x1, y1, x2, y2, 0, 0, 0, 0, 0, 0, 2, 0));
    lemma_mul_is_distributive_add(1 * mono(a, d, x1, y1, x2, y2, 0, 1, 0, 0, 0, 2, 0, 0), 1 * mono(a, d, x1, y1, x2, y2, 0, 1, 0, 0, 0, 2, 0, 0) + (-1) * mono(a, d, x1, y1, x2, y2, 0, 0, 1, 0, 0, 2, 2, 0) + 1 * mono(a, d, x1, y1, x2, y2, 0, 0, 0, 0, 0, 0, 2, 0), (-1) * mono(a, d, x1, y1, x2, y2, 0, 0, 0, 0, 0, 0, 0, 0));
    lemma_term_mul(a, d, x1, y1, x2, y2, 0, 1, 1, 0, 0, 0, 2, 0, 0, 1, 1, 0, 0, 0, 2, 0, 0);
    lemma_term_mul(a, d, x1, y1, x2, y2, 0, 1, 1, 0, 0, 0, 2, 0, 0, -1, 0, 1, 0, 0, 2, 2, 0);
    lemma_term_mul(a, d, x1, y1, x2, y2, 0, 1, 1, 0, 0, 0, 2, 0, 0, 1, 0, 0, 0, 0, 0, 2, 0);
    lemma_term_mul(a, d, x1, y1, x2, y2, 0, 1, 1, 0, 0, 0, 2, 0, 0, -1, 0, 0, 0, 0, 0, 0, 0);
    lemma_mul_is_distributive_add(1 * mono(a, d, x1, y1, x2, y2, 0, 0, 1, 0, 4, 2, 2, 0), 1 * mono(a, d, x1, y1, x2, y2, 0, 1, 0, 0, 0, 2, 0, 0), (-1) * mono(a, d, x1, y1, x2, y2, 0, 0, 1, 0, 0, 2, 2, 0));
    lemma_mul_is_distributive_add(1 * mono(a, d, x1, y1, x2, y2, 0, 0, 1, 0, 4, 2, 2, 0), 1 * mono(a, d, x1, y1, x2, y2, 0, 1, 0, 0, 0, 2, 0, 0) + (-1) * mono(a, d, x1, y1, x2, y2, 0, 0, 1, 0, 0, 2, 2, 0), 1 * mono(a, d, x1, y1, x2, y2, 0, 0, 0, 0, 0, 0, 2, 0));
    lemma_mul_is_distributive_add(1 * mono(a, d, x1, y1, x2, y2, 0, 0, 1, 0, 4, 2, 2, 0), 1 * mono(a, d, x1, y1, x2, y2, 0, 1, 0, 0, 0, 2, 0, 0) + (-1) * mono(a, d, x1, y1, x2, y2, 0, 0, 1, 0, 0, 2, 2, 0) + 1 * mono(a, d, x1, y1, x2, y2, 0, 0, 0, 0, 0, 0, 2, 0), (-1) * mono(a, d, x1, y1, x2, y2, 0, 0, 0, 0, 0, 0, 0, 0));
    lemma_term_mul(a, d, x1, y1, x2, y2, 0, 1, 0, 1, 0, 4, 2, 2, 0, 1, 1, 0, 0, 0, 2, 0, 0);
    lemma_term_mul(a, d, x1, y1, x2, y2, 0, 1, 0, 1, 0, 4, 2, 2, 0, -1, 0, 1, 0, 0, 2, 2, 0);
    lemma_term_mul(a, d, x1, y1, x2, y2, 0, 1, 0, 1, 0, 4, 2, 2, 0, 1, 0, 0, 0, 0, 0, 2, 0);
    lemma_term_mul(a, d, x1, y1, x2, y2, 0, 1, 0, 1, 0, 4, 2, 2, 0, -1, 0, 0, 0, 0, 0, 0, 0);
    lemma_mul_is_distributive_add((-2) * mono(a, d, x1, y1, x2, y2, 0, 0, 1, 0, 2, 2, 2, 0), 1 * mono(a, d, x1, y1, x2, y2, 0, 1, 0, 0, 0, 2, 0, 0), (-1) * mono(a, d, x1, y1, x2, y2, 0, 0, 1, 0, 0, 2, 2, 0));
    lemma_mul_is_distributive_add((-2) * mono(a, d, x1, y1, x2, y2, 0, 0, 1, 0, 2, 2, 2, 0), 1 * mono(a, d, x1, y1, x2, y2, 0, 1, 0, 0, 0, 2, 0, 0) + (-1) * mono(a, d, x1, y1, x2, y2, 0, 0, 1, 0, 0, 2, 2, 0), 1 * mono(a, d, x1, y1, x2, y2, 0, 0, 0, 0, 0, 0, 2, 0));
    lemma_mul_is_distributive_add((-2) * mono(a, d, x1, y1, x2, y2, 0, 0, 1, 0, 2, 2, 2, 0), 1 * mono(a, d, x1, y1, x2, y2, 0, 1, 0, 0, 0, 2, 0, 0) + (-1) * mono(a, d, x1, y1, x2, y2, 0, 0, 1, 0, 0, 2, 2, 0) + 1 * mono(a, d, x1, y1, x2, y2, 0, 0, 0, 0, 0, 0, 2, 0), (-1) * mono(a, d, x1, y1, x2, y2, 0, 0, 0, 0, 0, 0, 0, 0));
    lemma_term_mul(a, d, x1, y1, x2, y2, 0, -2, 0, 1, 0, 2, 2, 2, 0, 1, 1, 0, 0, 0, 2, 0, 0);
    lemma_term_mul(a, d, x1, y1, x2, y2, 0, -2, 0, 1, 0, 2, 2, 2, 0, -1, 0, 1, 0, 0, 2, 2, 0);
    lemma_term_mul(a, d, x1, y1, x2, y2, 0, -2, 0, 1, 0, 2, 2, 2, 0, 1, 0, 0, 0, 0, 0, 2, 0);
    lemma_term_mul(a, d, x1, y1, x2, y2, 0, -2, 0, 1, 0, 2, 2, 2, 0, -1, 0, 0, 0, 0, 0, 0, 0);
    lemma_mul_is_distributive_add(1 * mono(a, d, x1, y1, x2, y2, 0, 0, 1, 0, 0, 2, 2, 0), 1 * mono(a, d, x1, y1, x2, y2, 0, 1, 0, 0, 0, 2, 0, 0), (-1) * mono(a, d, x1, y1, x2, y2, 0, 0, 1, 0, 0, 2, 2, 0));
    lemma_mul_is_distributive_add(1 * mono(a, d, x1, y1, x2, y2, 0, 0, 1, 0, 0, 2, 2, 0), 1 * mono(a, d, x1, y1, x2, y2, 0, 1, 0, 0, 0, 2, 0, 0) + (-1) * mono(a, d, x1, y1, x2, y2, 0, 0, 1, 0, 0, 2, 2, 0), 1 * mono(a, d, x1, y1, x2, y2, 0, 0, 0, 0, 0, 0, 2, 0));
    lemma_mul_is_distributive_add(1 * mono(a, d, x1, y1, x2, y2, 0, 0, 1, 0, 0, 2, 2, 0), 1 * mono(a, d, x1, y1, x2, y2, 0, 1, 0, 0, 0, 2, 0, 0) + (-1) * mono(a, d, x1, y1, x2, y2, 0, 0, 1, 0, 0, 2, 2, 0) + 1 * mono(a, d, x1, y1, x2, y2, 0, 0, 0, 0, 0, 0, 2, 0), (-1) * mono(a, d, x1, y1, x2, y2, 0, 0, 0, 0, 0, 0, 0, 0));
    lemma_term_mul(a, d, x1, y1, x2, y2, 0, 1, 0, 1, 0, 0, 2, 2, 0, 1, 1, 0, 0, 0, 2, 0, 0);
    lemma_term_mul(a, d, x1, y1, x2, y2, 0, 1, 0, 1, 0, 0, 2, 2, 0, -1, 0, 1, 0, 0, 2, 2, 0);
    lemma_term_mul(a, d, x1, y1, x2, y2, 0, 1, 0, 1, 0, 0, 2, 2, 0, 1, 0, 0, 0, 0, 0, 2, 0);
    lemma_term_mul(a, d, x1, y1, x2, y2, 0, 1, 0, 1, 0, 0, 2, 2, 0, -1, 0, 0, 0, 0, 0, 0, 0);
    lemma_mul_is_distributive_add((-1) * mono(a, d, x1, y1, x2, y2, 0, 0, 0, 0, 2, 0, 2, 0), 1 * mono(a, d, x1, y1, x2, y2, 0, 1, 0, 0, 0, 2, 0, 0), (-1) * mono(a, d, x1, y1, x2, y2, 0, 0, 1, 0, 0, 2, 2, 0));
    lemma_mul_is_distributive_add((-1) * mono(a, d, x1, y1, x2, y2, 0, 0, 0, 0, 2, 0, 2, 0), 1 * mono(a, d, x1, y1, x2, y2, 0, 1, 0, 0, 0, 2, 0, 0) + (-1) * mono(a, d, x1, y1, x2, y2, 0, 0, 1, 0, 0, 2, 2, 0), 1 * mono(a, d, x1, y1, x2, y2, 0, 0, 0, 0, 0, 0, 2, 0));
    lemma_mul_is_distributive_add((-1) * mono(a, d, x1, y1, x2, y2, 0, 0, 0, 0, 2, 0, 2, 0), 1 * mono(a, d, x1, y1, x2, y2, 0, 1, 0, 0, 0, 2, 0, 0) + (-1) * mono(a, d, x1, y1, x2, y2, 0, 0, 1, 0, 0, 2, 2, 0) + 1 * mono(a, d, x1, y1, x2, y2, 0, 0, 0, 0, 0, 0, 2, 0), (-1) * mono(a, d, x1, y1, x2, y2, 0, 0, 0, 0, 0, 0, 0, 0));
    lemma_term_mul(a, d, x1, y1, x2, y2, 0, -1, 0, 0, 0, 2, 0, 2, 0, 1, 1, 0, 0, 0, 2, 0, 0);
    lemma_term_mul(a, d, x1, y1, x2, y2, 0, -1, 0, 0, 0, 2, 0, 2, 0, -1, 0, 1, 0, 0, 2, 2, 0);
    lemma_term_mul(a, d, x1, y1, x2, y2, 0, -1, 0, 0, 0, 2, 0, 2, 0, 1, 0, 0, 0, 0, 0, 2, 0);
    lemma_term_mul(a, d, x1, y1, x2, y2, 0, -1, 0, 0, 0, 2, 0, 2, 0, -1, 0, 0, 0, 0, 0, 0, 0);
    lemma_mul_is_distributive_add(1 * mono(a, d, x1, y1, x2, y2, 0, 0, 0, 0, 0, 0, 2, 0), 1 * mono(a, d, x1, y1, x2, y2, 0, 1, 0, 0, 0, 2, 0, 0), (-1) * mono(a, d, x1, y1, x2, y2, 0, 0, 1, 0, 0, 2, 2, 0));
    lemma_mul_is_distributive_add(1 * mono(a, d, x1, y1, x2, y2, 0, 0, 0, 0, 0, 0, 2, 0), 1 * mono(a, d, x1, y1, x2, y2, 0, 1, 0, 0, 0, 2, 0, 0) + (-1) * mono(a, d, x1, y1, x2, y2, 0, 0, 1, 0, 0, 2, 2, 0), 1 * mono(a, d, x1, y1, x2, y2, 0, 0, 0, 0, 0, 0, 2, 0));
    lemma_mul_is_distributive_add(1 * mono(a, d, x1, y1, x2, y2, 0, 0, 0, 0, 0, 0, 2, 0), 1 * mono(a, d, x1, y1, x2, y2, 0, 1, 0, 0, 0, 2, 0, 0) + (-1) * mono(a, d, x1, y1, x2, y2, 0, 0, 1, 0, 0, 2, 2, 0) + 1 * mono(a, d, x1, y1, x2, y2, 0, 0, 0, 0, 0, 0, 2, 0), (-1) * mono(a, d, x1, y1, x2, y2, 0, 0, 0, 0, 0, 0, 0, 0));
    lemma_term_mul(a, d, x1, y1, x2, y2, 0, 1, 0, 0, 0, 0, 0, 2, 0, 1, 1, 0, 0, 0, 2, 0, 0);
    lemma_term_mul(a, d, x1, y1, x2, y2, 0, 1, 0, 0, 0, 0, 0, 2, 0, -1, 0, 1, 0, 0, 2, 2, 0);
    lemma_term_mul(a, d, x1, y1, x2, y2, 0, 1, 0, 0, 0, 0, 0, 2, 0, 1, 0, 0, 0, 0, 0, 2, 0);
    lemma_term_mul(a, d, x1, y1, x2, y2, 0, 1, 0, 0, 0, 0, 0, 2, 0, -1, 0, 0, 0, 0, 0, 0, 0);
    lemma_mul_is_distributive_add(1 * mono(a, d, x1, y1, x2, y2, 0, 0, 0, 0, 0, 0, 0, 0), 1 * mono(a, d, x1, y1, x2, y2, 0, 1, 0, 0, 0, 2, 0, 0), (-1) * mono(a, d, x1, y1, x2, y2, 0, 0, 1, 0, 0, 2, 2, 0));
    lemma_mul_is_distributive_add(1 * mono(a, d, x1, y1, x2, y2, 0, 0, 0, 0, 0, 0, 0, 0), 1 * mono(a, d, x1, y1, x2, y2, 0, 1, 0, 0, 0, 2, 0, 0) + (-1) * mono(a, d, x1, y1, x2, y2, 0, 0, 1, 0, 0, 2, 2, 0), 1 * mono(a, d, x1, y1, x2, y2, 0, 0, 0, 0, 0, 0, 2, 0));
    lemma_mul_is_distributive_add(1 * mono(a, d, x1, y1, x2, y2, 0, 0, 0, 0, 0, 0, 0, 0), 1 * mono(a, d, x1, y1, x2, y2, 0, 1, 0, 0, 0, 2, 0, 0) + (-1) * mono(a, d, x1, y1, x2, y2, 0, 0, 1, 0, 0, 2, 2, 0) + 1 * mono(a, d, x1, y1, x2, y2, 0, 0, 0, 0, 0, 0, 2, 0), (-1) * mono(a, d, x1, y1, x2, y2, 0, 0, 0, 0, 0, 0, 0, 0));
    lemma_term_mul(a, d, x1, y1, x2, y2, 0, 1, 0, 0, 0, 0, 0, 0, 0, 1, 1, 0, 0, 0, 2, 0, 0);
    lemma_term_mul(a, d, x1, y1, x2, y2, 0, 1, 0, 0, 0, 0, 0, 0, 0, -1, 0, 1, 0, 0, 2, 2, 0);
    lemma_term_mul(a, d, x1, y1, x2, y2, 0, 1, 0, 0, 0, 0, 0, 0, 0, 1, 0, 0, 0, 0, 0, 2, 0);
    lemma_term_mul(a, d, x1, y1, x2, y2, 0, 1, 0, 0, 0, 0, 0, 0, 0, -1, 0, 0, 0, 0, 0, 0, 0);
    assert((1 * mono(a, d, x1, y1, x2, y2, 0, 2, 1, 4, 0, 2, 2, 0) + 2 * mono(a, d, x1, y1, x2, y2, 0, 2, 0, 2, 0, 2, 2, 0) + (-1) * mono(a, d, x1, y1, x2, y2, 0, 2, 0, 2, 0, 2, 0, 0) + (-2) * mono(a, d, x1, y1, x2, y2, 0, 1, 1, 2, 0, 2, 2, 0) + (-1) * mono(a, d, x1, y1, x2, y2, 0, 1, 0, 2, 0, 0, 2, 0) + 2 * mono(a, d, x1, y1, x2, y2, 0, 1, 0, 0, 2, 2, 2, 0) + (-1) * mono(a, d, x1, y1, x2, y2, 0, 1, 0, 0, 2, 2, 0, 0) + (-2) * mono(a, d, x1, y1, x2, y2, 0, 1, 0, 0, 0, 2, 2, 0) + 1 * mono(a, d, x1, y1, x2, y2, 0, 1, 0, 0, 0, 2, 0, 0) + 1 * mono(a, d, x1, y1, x2, y2, 0, 0, 1, 0, 4, 2, 2, 0) + (-2) * mono(a, d, x1, y1, x2, y2, 0, 0, 1, 0, 2, 2, 2, 0) + 1 * mono(a, d, x1, y1, x2, y2, 0, 0, 1, 0, 0, 2, 2, 0) + (-1) * mono(a, d, x1, y1, x2, y2, 0, 0, 0, 0, 2, 0, 2, 0) + 1 * mono(a, d, x1, y1, x2, y2, 0, 0, 0, 0, 0, 0, 2, 0) + 1 * mono(a, d, x1, y1, x2, y2, 0, 0, 0, 0, 0, 0, 0, 0)) * (1 * mono(a, d, x1, y1, x2, y2, 0, 1, 0, 0, 0, 2, 0, 0) + (-1) * mono(a, d, x1, y1, x2, y2, 0, 0, 1, 0, 0, 2, 2, 0) + 1 * mono(a, d, x1, y1, x2, y2, 0, 0, 0, 0, 0, 0, 2, 0) + (-1) * mono(a, d, x1, y1, x2, y2, 0, 0, 0, 0, 0, 0, 0, 0)) == 1 * mono(a, d, x1, y1, x2, y2, 0, 3, 1, 4, 0, 4, 2, 0) + 2 * mono(a, d, x1, y1, x2, y2, 0, 3, 0, 2, 0, 4, 2, 0) + (-1) * mono(a, d, x1, y1, x2, y2, 0, 3, 0, 2, 0, 4, 0, 0) + (-1) * mono(a, d, x1, y1, x2, y2, 0, 2, 2, 4, 0, 4, 4, 0) + 1 * mono(a, d, x1, y1, x2, y2, 0, 2, 1, 4, 0, 2, 4, 0) + (-1) * mono(a, d, x1, y1, x2, y2, 0, 2, 1, 4, 0, 2, 2, 0) + (-2) * mono(a, d, x1, y1, x2, y2, 0, 2, 1, 2, 0, 4, 4, 0) + (-1) * mono(a, d, x1, y1, x2, y2, 0, 2, 1, 2, 0, 4, 2, 0) + 2 * mono(a, d, x1, y1, x2, y2, 0, 2, 0, 2, 0, 2, 4, 0) + (-4) * mono(a, d, x1, y1, x2, y2, 0, 2, 0, 2, 0, 2, 2, 0) + 1 * mono(a, d, x1, y1, x2, y2, 0, 2, 0, 2, 0, 2, 0, 0) + 2 * mono(a, d, x1, y1, x2, y2, 0, 2, 0, 0, 2, 4, 2, 0) + (-1) * mono(a, d, x1, y1, x2, y2, 0, 2, 0, 0, 2, 4, 0, 0) + (-2) * mono(a, d, x1, y1, x2, y2, 0, 2, 0, 0, 0, 4, 2, 0) + 1 * mono(a, d, x1, y1, x2, y2, 0, 2, 0, 0, 0, 4, 0, 0) + 2 * mono(a, d, x1, y1, x2, y2, 0, 1, 2, 2, 0, 4, 4, 0) + (-1) * mono(a, d, x1, y1, x2, y2, 0, 1, 1, 2, 0, 2, 4, 0) + 2 * mono(a, d, x1, y1, x2, y2, 0, 1, 1, 2, 0, 2, 2, 0) + 1 * mono(a, d, x1, y1, x2, y2, 0, 1, 1, 0, 4, 4, 2, 0) + (-2) * mono(a, d, x1, y1, x2, y2, 0, 1, 1, 0, 2, 4, 4, 0) + (-1) * mono(a, d, x1, y1, x2, y2, 0, 1, 1, 0, 2, 4, 2, 0) + 2 * mono(a, d, x1, y1, x2, y2, 0, 1, 1, 0, 0, 4, 4, 0) + (-1) * mono(a, d, x1, y1, x2, y2, 0, 1, 0, 2, 0, 0, 4, 0) + 1 * mono(a, d, x1, y1, x2, y2, 0, 1, 0, 2, 0, 0, 2, 0) + 2 * mono(a, d, x1, y1, x2, y2, 0, 1, 0, 0, 2, 2, 4, 0) + (-4) * mono(a, d, x1, y1, x2, y2, 0, 1, 0, 0, 2, 2, 2, 0) + 1 * mono(a, d, x1, y1, x2, y2, 0, 1, 0, 0, 2, 2, 0, 0) + (-2) * mono(a, d, x1, y1, x2, y2, 0, 1, 0, 0, 0, 2, 4, 0) + 4 * mono(a, d, x1, y1, x2, y2, 0, 1, 0, 0, 0, 2, 2, 0) + (-1) * mono(a, d, x1, y1, x2, y2, 0, 0, 2, 0, 4, 4, 4, 0) + 2 * mono(a, d, x1, y1, x2, y2, 0, 0, 2, 0, 2, 4, 4, 0) + (-1) * mono(a, d, x1, y1, x2, y2, 0, 0, 2, 0, 0, 4, 4, 0) + 1 * mono(a, d, x1, y1, x2, y2, 0, 0, 1, 0, 4, 2, 4, 0) + (-1) * mono(a, d, x1, y1, x2, y2, 0, 0, 1, 0, 4, 2, 2, 0) + (-1) * mono(a, d, x1, y1, x2, y2, 0, 0, 1, 0, 2, 2, 4, 0) + 2 * mono(a, d, x1, y1, x2, y2, 0, 0, 1, 0, 2, 2, 2, 0) + (-2) * mono(a, d, x1, y1, x2, y2, 0, 0, 1, 0, 0, 2, 2, 0) + (-1) * mono(a, d, x1, y1, x2, y2, 0, 0, 0, 0, 2, 0, 4, 0) + 1 * mono(a, d, x1, y1, x2, y2, 0, 0, 0, 0, 2, 0, 2, 0) + 1 * mono(a, d, x1, y1, x2, y2, 0, 0, 0, 0, 0, 0, 4, 0) + (-1) * mono(a, d, x1, y1, x2, y2, 0, 0, 0, 0, 0, 0, 0, 0));
    ((-1) * mono(a, d, x1, y1, x2, y2, 0, 2, 1, 2, 0, 4, 2, 0) + (-2) * mono(a, d, x1, y1, x2, y2, 0, 2, 0, 0, 0, 4, 2, 0) + 1 * mono(a, d, x1, y1, x2, y2, 0, 2, 0, 0, 0, 4, 0, 0) + 1 * mono(a, d, x1, y1, x2, y2, 0, 1, 2, 2, 0, 4, 4, 0) + (-1) * mono(a, d, x1, y1, x2, y2, 0, 1, 1, 2, 0, 2, 4, 0) + (-1) * mono(a, d, x1, y1, x2, y2, 0, 1, 1, 0, 2, 4, 2, 0) + 2 * mono(a, d, x1, y1, x2, y2, 0, 1, 1, 0, 0, 4, 4, 0) + (-2) * mono(a, d, x1, y1, x2, y2, 0, 1, 0, 0, 0, 2, 4, 0) + 4 * mono(a, d, x1, y1, x2, y2, 0, 1, 0, 0, 0, 2, 2, 0) + 1 * mono(a, d, x1, y1, x2, y2, 0, 0, 3, 2, 2, 4, 4, 0) + 1 * mono(a, d, x1, y1, x2, y2, 0, 0, 2, 0, 2, 4, 4, 0) + (-1) * mono(a, d, x1, y1, x2, y2, 0, 0, 2, 0, 0, 4, 4, 0) + (-1) * mono(a, d, x1, y1, x2, y2, 0, 0, 1, 0, 2, 2, 4, 0) + (-2) * mono(a, d, x1, y1, x2, y2, 0, 0, 1, 0, 0, 2, 2, 0) + 1 * mono(a, d, x1, y1, x2, y2, 0, 0, 0, 0, 0, 0, 4, 0), 1 * mono(a, d, x1, y1, x2, y2, 0, 2, 1, 4, 0, 2, 2, 0) + 2 * mono(a, d, x1, y1, x2, y2, 0, 2, 0, 2, 0, 2, 2, 0) + (-1) * mono(a, d, x1, y1, x2, y2, 0, 2, 0, 2, 0, 2, 0, 0) + (-2) * mono(a, d, x1, y1, x2, y2, 0, 1, 1, 2, 0, 2, 2, 0) + (-1) * mono(a, d, x1, y1, x2, y2, 0, 1, 0, 2, 0, 0, 2, 0) + 2 * mono(a, d, x1, y1, x2, y2, 0, 1, 0, 0, 2, 2, 2, 0) + (-1) * mono(a, d, x1, y1, x2, y2, 0, 1, 0, 0, 2, 2, 0, 0) + (-2) * mono(a, d, x1, y1, x2, y2, 0, 1, 0, 0, 0, 2, 2, 0) + 1 * mono(a, d, x1, y1, x2, y2, 0, 1, 0, 0, 0, 2, 0, 0) + 1 * mono(a, d, x1, y1, x2, y2, 0, 0, 1, 0, 4, 2, 2, 0) + (-2) * mono(a, d, x1, y1, x2, y2, 0, 0, 1, 0, 2, 2, 2, 0) + 1 * mono(a, d, x1, y1, x2, y2, 0, 0, 1, 0, 0, 2, 2, 0) + (-1) * mono(a, d, x1, y1, x2, y2, 0, 0, 0, 0, 2, 0, 2, 0) + 1 * mono(a, d, x1, y1, x2, y2, 0, 0, 0, 0, 0, 0, 2, 0) + 1 * mono(a, d, x1, y1, x2, y2, 0, 0, 0, 0, 0, 0, 0, 0))
}

} // verus!
