//! The polynomial identities behind closure of the chord-and-tangent rule,
//! proved by expanding every product into monomials.
use crate::elliptic_curve::monomials::{lemma_mono_vars, lemma_term_mul, mono};
use vstd::arithmetic::mul::{lemma_mul_is_distributive_add, lemma_mul_is_distributive_add_other_way};
use vstd::prelude::*;

verus! {

/// The polynomial identity behind closure of the chord rule: with
/// `x3 = l^2 b - (x1 + x2) - a` and `y3 = l (x1 - x3) - y1`, the curve
/// polynomial `b y^2 - (x^3 + a x^2 + x)` at `(x3, y3)`, times `x2 - x1`, is a
/// combination of the slope equation `l (x2 - x1) - (y2 - y1)` and the curve
/// polynomials at `(x1, y1)` and `(x2, y2)`.
pub proof fn lemma_chord_identity(a: int, b: int, l: int, x1: int, y1: int, x2: int, y2: int) -> (q: (int, int, int))
    ensures
        ({
            let x3 = ((((l * l) * b) - (x1 + x2)) - a);
            let y3 = ((l * (x1 - x3)) - y1);
            (((b * (y3 * y3)) - ((((x3 * x3) * x3) + (a * (x3 * x3))) + x3)) * (x2 - x1)) == q.0 * ((l * (x2 - x1)) - (y2 - y1)) + q.1 * ((b * (y1 * y1)) - ((((x1 * x1) * x1) + (a * (x1 * x1))) + x1)) + q.2 * ((b * (y2 * y2)) - ((((x2 * x2) * x2) + (a * (x2 * x2))) + x2))
        }),
{
    lemma_mono_vars(a, b, l, x1, y1, x2, y2);
    let x3 = ((((l * l) * b) - (x1 + x2)) - a);
    lemma_term_mul(a, b, l, x1, y1, x2, y2, 1, 0, 0, 1, 0, 0, 0, 0, 1, 0, 0, 1, 0, 0, 0, 0);
    assert((1 * mono(a, b, l, x1, y1, x2, y2, 0, 0, 1, 0, 0, 0, 0)) * (1 * mono(a, b, l, x1, y1, x2, y2, 0, 0, 1, 0, 0, 0, 0)) == 1 * mono(a, b, l, x1, y1, x2, y2, 0, 0, 2, 0, 0, 0, 0));
    assert((l * l) == 1 * mono(a, b, l, x1, y1, x2, y2, 0, 0, 2, 0, 0, 0, 0));
    lemma_term_mul(a, b, l, x1, y1, x2, y2, 1, 0, 0, 2, 0, 0, 0, 0, 1, 0, 1, 0, 0, 0, 0, 0);
    assert((1 * mono(a, b, l, x1, y1, x2, y2, 0, 0, 2, 0, 0, 0, 0)) * (1 * mono(a, b, l, x1, y1, x2, y2, 0, 1, 0, 0, 0, 0, 0)) == 1 * mono(a, b, l, x1, y1, x2, y2, 0, 1, 2, 0, 0, 0, 0));
    assert(((l * l) * b) == 1 * mono(a, b, l, x1, y1, x2, y2, 0, 1, 2, 0, 0, 0, 0));
    assert((x1 + x2) == 1 * mono(a, b, l, x1, y1, x2, y2, 0, 0, 0, 1, 0, 0, 0) + 1 * mono(a, b, l, x1, y1, x2, y2, 0, 0, 0, 0, 0, 1, 0));
    assert((((l * l) * b) - (x1 + x2)) == 1 * mono(a, b, l, x1, y1, x2, y2, 0, 1, 2, 0, 0, 0, 0) + (-1) * mono(a, b, l, x1, y1, x2, y2, 0, 0, 0, 1, 0, 0, 0) + (-1) * mono(a, b, l, x1, y1, x2, y2, 0, 0, 0, 0, 0, 1, 0));
    assert(((((l * l) * b) - (x1 + x2)) - a) == (-1) * mono(a, b, l, x1, y1, x2, y2, 1, 0, 0, 0, 0, 0, 0) + 1 * mono(a, b, l, x1, y1, x2, y2, 0, 1, 2, 0, 0, 0, 0) + (-1) * mono(a, b, l, x1, y1, x2, y2, 0, 0, 0, 1, 0, 0, 0) + (-1) * mono(a, b, l, x1, y1, x2, y2, 0, 0, 0, 0, 0, 1, 0));
    assert(x3 == (-1) * mono(a, b, l, x1, y1, x2, y2, 1, 0, 0, 0, 0, 0, 0) + 1 * mono(a, b, l, x1, y1, x2, y2, 0, 1, 2, 0, 0, 0, 0) + (-1) * mono(a, b, l, x1, y1, x2, y2, 0, 0, 0, 1, 0, 0, 0) + (-1) * mono(a, b, l, x1, y1, x2, y2, 0, 0, 0, 0, 0, 1, 0));
    let y3 = ((l * (x1 - x3)) - y1);
    assert((x1 - x3) == 1 * mono(a, b, l, x1, y1, x2, y2, 1, 0, 0, 0, 0, 0, 0) + (-1) * mono(a, b, l, x1, y1, x2, y2, 0, 1, 2, 0, 0, 0, 0) + 2 * mono(a, b, l, x1, y1, x2, y2, 0, 0, 0, 1, 0, 0, 0) + 1 * mono(a, b, l, x1, y1, x2, y2, 0, 0, 0, 0, 0, 1, 0));
    lemma_mul_is_distributive_add(1 * mono(a, b, l, x1, y1, x2, y2, 0, 0, 1, 0, 0, 0, 0), 1 * mono(a, b, l, x1, y1, x2, y2, 1, 0, 0, 0, 0, 0, 0), (-1) * mono(a, b, l, x1, y1, x2, y2, 0, 1, 2, 0, 0, 0, 0));
    lemma_mul_is_distributive_add(1 * mono(a, b, l, x1, y1, x2, y2, 0, 0, 1, 0, 0, 0, 0), 1 * mono(a, b, l, x1, y1, x2, y2, 1, 0, 0, 0, 0, 0, 0) + (-1) * mono(a, b, l, x1, y1, x2, y2, 0, 1, 2, 0, 0, 0, 0), 2 * mono(a, b, l, x1, y1, x2, y2, 0, 0, 0, 1, 0, 0, 0));
    lemma_mul_is_distributive_add(1 * mono(a, b, l, x1, y1, x2, y2, 0, 0, 1, 0, 0, 0, 0), 1 * mono(a, b, l, x1, y1, x2, y2, 1, 0, 0, 0, 0, 0, 0) + (-1) * mono(a, b, l, x1, y1, x2, y2, 0, 1, 2, 0, 0, 0, 0) + 2 * mono(a, b, l, x1, y1, x2, y2, 0, 0, 0, 1, 0, 0, 0), 1 * mono(a, b, l, x1, y1, x2, y2, 0, 0, 0, 0, 0, 1, 0));
    lemma_term_mul(a, b, l, x1, y1, x2, y2, 1, 0, 0, 1, 0, 0, 0, 0, 1, 1, 0, 0, 0, 0, 0, 0);
    lemma_term_mul(a, b, l, x1, y1, x2, y2, 1, 0, 0, 1, 0, 0, 0, 0, -1, 0, 1, 2, 0, 0, 0, 0);
    lemma_term_mul(a, b, l, x1, y1, x2, y2, 1, 0, 0, 1, 0, 0, 0, 0, 2, 0, 0, 0, 1, 0, 0, 0);
    lemma_term_mul(a, b, l, x1, y1, x2, y2, 1, 0, 0, 1, 0, 0, 0, 0, 1, 0, 0, 0, 0, 0, 1, 0);
    assert((1 * mono(a, b, l, x1, y1, x2, y2, 0, 0, 1, 0, 0, 0, 0)) * (1 * mono(a, b, l, x1, y1, x2, y2, 1, 0, 0, 0, 0, 0, 0) + (-1) * mono(a, b, l, x1, y1, x2, y2, 0, 1, 2, 0, 0, 0, 0) + 2 * mono(a, b, l, x1, y1, x2, y2, 0, 0, 0, 1, 0, 0, 0) + 1 * mono(a, b, l, x1, y1, x2, y2, 0, 0, 0, 0, 0, 1, 0)) == 1 * mono(a, b, l, x1, y1, x2, y2, 1, 0, 1, 0, 0, 0, 0) + (-1) * mono(a, b, l, x1, y1, x2, y2, 0, 1, 3, 0, 0, 0, 0) + 2 * mono(a, b, l, x1, y1, x2, y2, 0, 0, 1, 1, 0, 0, 0) + 1 * mono(a, b, l, x1, y1, x2, y2, 0, 0, 1, 0, 0, 1, 0));
    assert((l * (x1 - x3)) == 1 * mono(a, b, l, x1, y1, x2, y2, 1, 0, 1, 0, 0, 0, 0) + (-1) * mono(a, b, l, x1, y1, x2, y2, 0, 1, 3, 0, 0, 0, 0) + 2 * mono(a, b, l, x1, y1, x2, y2, 0, 0, 1, 1, 0, 0, 0) + 1 * mono(a, b, l, x1, y1, x2, y2, 0, 0, 1, 0, 0, 1, 0));
    assert(((l * (x1 - x3)) - y1) == 1 * mono(a, b, l, x1, y1, x2, y2, 1, 0, 1, 0, 0, 0, 0) + (-1) * mono(a, b, l, x1, y1, x2, y2, 0, 1, 3, 0, 0, 0, 0) + 2 * mono(a, b, l, x1, y1, x2, y2, 0, 0, 1, 1, 0, 0, 0) + 1 * mono(a, b, l, x1, y1, x2, y2, 0, 0, 1, 0, 0, 1, 0) + (-1) * mono(a, b, l, x1, y1, x2, y2, 0, 0, 0, 0, 1, 0, 0));
    assert(y3 == 1 * mono(a, b, l, x1, y1, x2, y2, 1, 0, 1, 0, 0, 0, 0) + (-1) * mono(a, b, l, x1, y1, x2, y2, 0, 1, 3, 0, 0, 0, 0) + 2 * mono(a, b, l, x1, y1, x2, y2, 0, 0, 1, 1, 0, 0, 0) + 1 * mono(a, b, l, x1, y1, x2, y2, 0, 0, 1, 0, 0, 1, 0) + (-1) * mono(a, b, l, x1, y1, x2, y2, 0, 0, 0, 0, 1, 0, 0));
    lemma_mul_is_distributive_add_other_way((1 * mono(a, b, l, x1, y1, x2, y2, 1, 0, 1, 0, 0, 0, 0) + (-1) * mono(a, b, l, x1, y1, x2, y2, 0, 1, 3, 0, 0, 0, 0) + 2 * mono(a, b, l, x1, y1, x2, y2, 0, 0, 1, 1, 0, 0, 0) + 1 * mono(a, b, l, x1, y1, x2, y2, 0, 0, 1, 0, 0, 1, 0) + (-1) * mono(a, b, l, x1, y1, x2, y2, 0, 0, 0, 0, 1, 0, 0)), 1 * mono(a, b, l, x1, y1, x2, y2, 1, 0, 1, 0, 0, 0, 0), (-1) * mono(a, b, l, x1, y1, x2, y2, 0, 1, 3, 0, 0, 0, 0));
    lemma_mul_is_distributive_add_other_way((1 * mono(a, b, l, x1, y1, x2, y2, 1, 0, 1, 0, 0, 0, 0) + (-1) * mono(a, b, l, x1, y1, x2, y2, 0, 1, 3, 0, 0, 0, 0) + 2 * mono(a, b, l, x1, y1, x2, y2, 0, 0, 1, 1, 0, 0, 0) + 1 * mono(a, b, l, x1, y1, x2, y2, 0, 0, 1, 0, 0, 1, 0) + (-1) * mono(a, b, l, x1, y1, x2, y2, 0, 0, 0, 0, 1, 0, 0)), 1 * mono(a, b, l, x1, y1, x2, y2, 1, 0, 1, 0, 0, 0, 0) + (-1) * mono(a, b, l, x1, y1, x2, y2, 0, 1, 3, 0, 0, 0, 0), 2 * mono(a, b, l, x1, y1, x2, y2, 0, 0, 1, 1, 0, 0, 0));
    lemma_mul_is_distributive_add_other_way((1 * mono(a, b, l, x1, y1, x2, y2, 1, 0, 1, 0, 0, 0, 0) + (-1) * mono(a, b, l, x1, y1, x2, y2, 0, 1, 3, 0, 0, 0, 0) + 2 * mono(a, b, l, x1, y1, x2, y2, 0, 0, 1, 1, 0, 0, 0) + 1 * mono(a, b, l, x1, y1, x2, y2, 0, 0, 1, 0, 0, 1, 0) + (-1) * mono(a, b, l, x1, y1, x2, y2, 0, 0, 0, 0, 1, 0, 0)), 1 * mono(a, b, l, x1, y1, x2, y2, 1, 0, 1, 0, 0, 0, 0) + (-1) * mono(a, b, l, x1, y1, x2, y2, 0, 1, 3, 0, 0, 0, 0) + 2 * mono(a, b, l, x1, y1, x2, y2, 0, 0, 1, 1, 0, 0, 0), 1 * mono(a, b, l, x1, y1, x2, y2, 0, 0, 1, 0, 0, 1, 0));
    lemma_mul_is_distributive_add_other_way((1 * mono(a, b, l, x1, y1, x2, y2, 1, 0, 1, 0, 0, 0, 0) + (-1) * mono(a, b, l, x1, y1, x2, y2, 0, 1, 3, 0, 0, 0, 0) + 2 * mono(a, b, l, x1, y1, x2, y2, 0, 0, 1, 1, 0, 0, 0) + 1 * mono(a, b, l, x1, y1, x2, y2, 0, 0, 1, 0, 0, 1, 0) + (-1) * mono(a, b, l, x1, y1, x2, y2, 0, 0, 0, 0, 1, 0, 0)), 1 * mono(a, b, l, x1, y1, x2, y2, 1, 0, 1, 0, 0, 0, 0) + (-1) * mono(a, b, l, x1, y1, x2, y2, 0, 1, 3, 0, 0, 0, 0) + 2 * mono(a, b, l, x1, y1, x2, y2, 0, 0, 1, 1, 0, 0, 0) + 1 * mono(a, b, l, x1, y1, x2, y2, 0, 0, 1, 0, 0, 1, 0), (-1) * mono(a, b, l, x1, y1, x2, y2, 0, 0, 0, 0, 1, 0, 0));
    lemma_mul_is_distributive_add(1 * mono(a, b, l, x1, y1, x2, y2, 1, 0, 1, 0, 0, 0, 0), 1 * mono(a, b, l, x1, y1, x2, y2, 1, 0, 1, 0, 0, 0, 0), (-1) * mono(a, b, l, x1, y1, x2, y2, 0, 1, 3, 0, 0, 0, 0));
    lemma_mul_is_distributive_add(1 * mono(a, b, l, x1, y1, x2, y2, 1, 0, 1, 0, 0, 0, 0), 1 * mono(a, b, l, x1, y1, x2, y2, 1, 0, 1, 0, 0, 0, 0) + (-1) * mono(a, b, l, x1, y1, x2, y2, 0, 1, 3, 0, 0, 0, 0), 2 * mono(a, b, l, x1, y1, x2, y2, 0, 0, 1, 1, 0, 0, 0));
    lemma_mul_is_distributive_add(1 * mono(a, b, l, x1, y1, x2, y2, 1, 0, 1, 0, 0, 0, 0), 1 * mono(a, b, l, x1, y1, x2, y2, 1, 0, 1, 0, 0, 0, 0) + (-1) * mono(a, b, l, x1, y1, x2, y2, 0, 1, 3, 0, 0, 0, 0) + 2 * mono(a, b, l, x1, y1, x2, y2, 0, 0, 1, 1, 0, 0, 0), 1 * mono(a, b, l, x1, y1, x2, y2, 0, 0, 1, 0, 0, 1, 0));
    lemma_mul_is_distributive_add(1 * mono(a, b, l, x1, y1, x2, y2, 1, 0, 1, 0, 0, 0, 0), 1 * mono(a, b, l, x1, y1, x2, y2, 1, 0, 1, 0, 0, 0, 0) + (-1) * mono(a, b, l, x1, y1, x2, y2, 0, 1, 3, 0, 0, 0, 0) + 2 * mono(a, b, l, x1, y1, x2, y2, 0, 0, 1, 1, 0, 0, 0) + 1 * mono(a, b, l, x1, y1, x2, y2, 0, 0, 1, 0, 0, 1, 0), (-1) * mono(a, b, l, x1, y1, x2, y2, 0, 0, 0, 0, 1, 0, 0));
    lemma_term_mul(a, b, l, x1, y1, x2, y2, 1, 1, 0, 1, 0, 0, 0, 0, 1, 1, 0, 1, 0, 0, 0, 0);
    lemma_term_mul(a, b, l, x1, y1, x2, y2, 1, 1, 0, 1, 0, 0, 0, 0, -1, 0, 1, 3, 0, 0, 0, 0);
    lemma_term_mul(a, b, l, x1, y1, x2, y2, 1, 1, 0, 1, 0, 0, 0, 0, 2, 0, 0, 1, 1, 0, 0, 0);
    lemma_term_mul(a, b, l, x1, y1, x2, y2, 1, 1, 0, 1, 0, 0, 0, 0, 1, 0, 0, 1, 0, 0, 1, 0);
    lemma_term_mul(a, b, l, x1, y1, x2, y2, 1, 1, 0, 1, 0, 0, 0, 0, -1, 0, 0, 0, 0, 1, 0, 0);
    lemma_mul_is_distributive_add((-1) * mono(a, b, l, x1, y1, x2, y2, 0, 1, 3, 0, 0, 0, 0), 1 * mono(a, b, l, x1, y1, x2, y2, 1, 0, 1, 0, 0, 0, 0), (-1) * mono(a, b, l, x1, y1, x2, y2, 0, 1, 3, 0, 0, 0, 0));
    lemma_mul_is_distributive_add((-1) * mono(a, b, l, x1, y1, x2, y2, 0, 1, 3, 0, 0, 0, 0), 1 * mono(a, b, l, x1, y1, x2, y2, 1, 0, 1, 0, 0, 0, 0) + (-1) * mono(a, b, l, x1, y1, x2, y2, 0, 1, 3, 0, 0, 0, 0), 2 * mono(a, b, l, x1, y1, x2, y2, 0, 0, 1, 1, 0, 0, 0));
    lemma_mul_is_distributive_add((-1) * mono(a, b, l, x1, y1, x2, y2, 0, 1, 3, 0, 0, 0, 0), 1 * mono(a, b, l, x1, y1, x2, y2, 1, 0, 1, 0, 0, 0, 0) + (-1) * mono(a, b, l, x1, y1, x2, y2, 0, 1, 3, 0, 0, 0, 0) + 2 * mono(a, b, l, x1, y1, x2, y2, 0, 0, 1, 1, 0, 0, 0), 1 * mono(a, b, l, x1, y1, x2, y2, 0, 0, 1, 0, 0, 1, 0));
    lemma_mul_is_distributive_add((-1) * mono(a, b, l, x1, y1, x2, y2, 0, 1, 3, 0, 0, 0, 0), 1 * mono(a, b, l, x1, y1, x2, y2, 1, 0, 1, 0, 0, 0, 0) + (-1) * mono(a, b, l, x1, y1, x2, y2, 0, 1, 3, 0, 0, 0, 0) + 2 * mono(a, b, l, x1, y1, x2, y2, 0, 0, 1, 1, 0, 0, 0) + 1 * mono(a, b, l, x1, y1, x2, y2, 0, 0, 1, 0, 0, 1, 0), (-1) * mono(a, b, l, x1, y1, x2, y2, 0, 0, 0, 0, 1, 0, 0));
    lemma_term_mul(a, b, l, x1, y1, x2, y2, -1, 0, 1, 3, 0, 0, 0, 0, 1, 1, 0, 1, 0, 0, 0, 0);
    lemma_term_mul(a, b, l, x1, y1, x2, y2, -1, 0, 1, 3, 0, 0, 0, 0, -1, 0, 1, 3, 0, 0, 0, 0);
    lemma_term_mul(a, b, l, x1, y1, x2, y2, -1, 0, 1, 3, 0, 0, 0, 0, 2, 0, 0, 1, 1, 0, 0, 0);
    lemma_term_mul(a, b, l, x1, y1, x2, y2, -1, 0, 1, 3, 0, 0, 0, 0, 1, 0, 0, 1, 0, 0, 1, 0);
    lemma_term_mul(a, b, l, x1, y1, x2, y2, -1, 0, 1, 3, 0, 0, 0, 0, -1, 0, 0, 0, 0, 1, 0, 0);
    lemma_mul_is_distributive_add(2 * mono(a, b, l, x1, y1, x2, y2, 0, 0, 1, 1, 0, 0, 0), 1 * mono(a, b, l, x1, y1, x2, y2, 1, 0, 1, 0, 0, 0, 0), (-1) * mono(a, b, l, x1, y1, x2, y2, 0, 1, 3, 0, 0, 0, 0));
    lemma_mul_is_distributive_add(2 * mono(a, b, l, x1, y1, x2, y2, 0, 0, 1, 1, 0, 0, 0), 1 * mono(a, b, l, x1, y1, x2, y2, 1, 0, 1, 0, 0, 0, 0) + (-1) * mono(a, b, l, x1, y1, x2, y2, 0, 1, 3, 0, 0, 0, 0), 2 * mono(a, b, l, x1, y1, x2, y2, 0, 0, 1, 1, 0, 0, 0));
    lemma_mul_is_distributive_add(2 * mono(a, b, l, x1, y1, x2, y2, 0, 0, 1, 1, 0, 0, 0), 1 * mono(a, b, l, x1, y1, x2, y2, 1, 0, 1, 0, 0, 0, 0) + (-1) * mono(a, b, l, x1, y1, x2, y2, 0, 1, 3, 0, 0, 0, 0) + 2 * mono(a, b, l, x1, y1, x2, y2, 0, 0, 1, 1, 0, 0, 0), 1 * mono(a, b, l, x1, y1, x2, y2, 0, 0, 1, 0, 0, 1, 0));
    lemma_mul_is_distributive_add(2 * mono(a, b, l, x1, y1, x2, y2, 0, 0, 1, 1, 0, 0, 0), 1 * mono(a, b, l, x1, y1, x2, y2, 1, 0, 1, 0, 0, 0, 0) + (-1) * mono(a, b, l, x1, y1, x2, y2, 0, 1, 3, 0, 0, 0, 0) + 2 * mono(a, b, l, x1, y1, x2, y2, 0, 0, 1, 1, 0, 0, 0) + 1 * mono(a, b, l, x1, y1, x2, y2, 0, 0, 1, 0, 0, 1, 0), (-1) * mono(a, b, l, x1, y1, x2, y2, 0, 0, 0, 0, 1, 0, 0));
    lemma_term_mul(a, b, l, x1, y1, x2, y2, 2, 0, 0, 1, 1, 0, 0, 0, 1, 1, 0, 1, 0, 0, 0, 0);
    lemma_term_mul(a, b, l, x1, y1, x2, y2, 2, 0, 0, 1, 1, 0, 0, 0, -1, 0, 1, 3, 0, 0, 0, 0);
    lemma_term_mul(a, b, l, x1, y1, x2, y2, 2, 0, 0, 1, 1, 0, 0, 0, 2, 0, 0, 1, 1, 0, 0, 0);
    lemma_term_mul(a, b, l, x1, y1, x2, y2, 2, 0, 0, 1, 1, 0, 0, 0, 1, 0, 0, 1, 0, 0, 1, 0);
    lemma_term_mul(a, b, l, x1, y1, x2, y2, 2, 0, 0, 1, 1, 0, 0, 0, -1, 0, 0, 0, 0, 1, 0, 0);
    lemma_mul_is_distributive_add(1 * mono(a, b, l, x1, y1, x2, y2, 0, 0, 1, 0, 0, 1, 0), 1 * mono(a, b, l, x1, y1, x2, y2, 1, 0, 1, 0, 0, 0, 0), (-1) * mono(a, b, l, x1, y1, x2, y2, 0, 1, 3, 0, 0, 0, 0));
    lemma_mul_is_distributive_add(1 * mono(a, b, l, x1, y1, x2, y2, 0, 0, 1, 0, 0, 1, 0), 1 * mono(a, b, l, x1, y1, x2, y2, 1, 0, 1, 0, 0, 0, 0) + (-1) * mono(a, b, l, x1, y1, x2, y2, 0, 1, 3, 0, 0, 0, 0), 2 * mono(a, b, l, x1, y1, x2, y2, 0, 0, 1, 1, 0, 0, 0));
    lemma_mul_is_distributive_add(1 * mono(a, b, l, x1, y1, x2, y2, 0, 0, 1, 0, 0, 1, 0), 1 * mono(a, b, l, x1, y1, x2, y2, 1, 0, 1, 0, 0, 0, 0) + (-1) * mono(a, b, l, x1, y1, x2, y2, 0, 1, 3, 0, 0, 0, 0) + 2 * mono(a, b, l, x1, y1, x2, y2, 0, 0, 1, 1, 0, 0, 0), 1 * mono(a, b, l, x1, y1, x2, y2, 0, 0, 1, 0, 0, 1, 0));
    lemma_mul_is_distributive_add(1 * mono(a, b, l, x1, y1, x2, y2, 0, 0, 1, 0, 0, 1, 0), 1 * mono(a, b, l, x1, y1, x2, y2, 1, 0, 1, 0, 0, 0, 0) + (-1) * mono(a, b, l, x1, y1, x2, y2, 0, 1, 3, 0, 0, 0, 0) + 2 * mono(a, b, l, x1, y1, x2, y2, 0, 0, 1, 1, 0, 0, 0) + 1 * mono(a, b, l, x1, y1, x2, y2, 0, 0, 1, 0, 0, 1, 0), (-1) * mono(a, b, l, x1, y1, x2, y2, 0, 0, 0, 0, 1, 0, 0));
    lemma_term_mul(a, b, l, x1, y1, x2, y2, 1, 0, 0, 1, 0, 0, 1, 0, 1, 1, 0, 1, 0, 0, 0, 0);
    lemma_term_mul(a, b, l, x1, y1, x2, y2, 1, 0, 0, 1, 0, 0, 1, 0, -1, 0, 1, 3, 0, 0, 0, 0);
    lemma_term_mul(a, b, l, x1, y1, x2, y2, 1, 0, 0, 1, 0, 0, 1, 0, 2, 0, 0, 1, 1, 0, 0, 0);
    lemma_term_mul(a, b, l, x1, y1, x2, y2, 1, 0, 0, 1, 0, 0, 1, 0, 1, 0, 0, 1, 0, 0, 1, 0);
    lemma_term_mul(a, b, l, x1, y1, x2, y2, 1, 0, 0, 1, 0, 0, 1, 0, -1, 0, 0, 0, 0, 1, 0, 0);
    lemma_mul_is_distributive_add((-1) * mono(a, b, l, x1, y1, x2, y2, 0, 0, 0, 0, 1, 0, 0), 1 * mono(a, b, l, x1, y1, x2, y2, 1, 0, 1, 0, 0, 0, 0), (-1) * mono(a, b, l, x1, y1, x2, y2, 0, 1, 3, 0, 0, 0, 0));
    lemma_mul_is_distributive_add((-1) * mono(a, b, l, x1, y1, x2, y2, 0, 0, 0, 0, 1, 0, 0), 1 * mono(a, b, l, x1, y1, x2, y2, 1, 0, 1, 0, 0, 0, 0) + (-1) * mono(a, b, l, x1, y1, x2, y2, 0, 1, 3, 0, 0, 0, 0), 2 * mono(a, b, l, x1, y1, x2, y2, 0, 0, 1, 1, 0, 0, 0));
    lemma_mul_is_distributive_add((-1) * mono(a, b, l, x1, y1, x2, y2, 0, 0, 0, 0, 1, 0, 0), 1 * mono(a, b, l, x1, y1, x2, y2, 1, 0, 1, 0, 0, 0, 0) + (-1) * mono(a, b, l, x1, y1, x2, y2, 0, 1, 3, 0, 0, 0, 0) + 2 * mono(a, b, l, x1, y1, x2, y2, 0, 0, 1, 1, 0, 0, 0), 1 * mono(a, b, l, x1, y1, x2, y2, 0, 0, 1, 0, 0, 1, 0));
    lemma_mul_is_distributive_add((-1) * mono(a, b, l, x1, y1, x2, y2, 0, 0, 0, 0, 1, 0, 0), 1 * mono(a, b, l, x1, y1, x2, y2, 1, 0, 1, 0, 0, 0, 0) + (-1) * mono(a, b, l, x1, y1, x2, y2, 0, 1, 3, 0, 0, 0, 0) + 2 * mono(a, b, l, x1, y1, x2, y2, 0, 0, 1, 1, 0, 0, 0) + 1 * mono(a, b, l, x1, y1, x2, y2, 0, 0, 1, 0, 0, 1, 0), (-1) * mono(a, b, l, x1, y1, x2, y2, 0, 0, 0, 0, 1, 0, 0));
    lemma_term_mul(a, b, l, x1, y1, x2, y2, -1, 0, 0, 0, 0, 1, 0, 0, 1, 1, 0, 1, 0, 0, 0, 0);
    lemma_term_mul(a, b, l, x1, y1, x2, y2, -1, 0, 0, 0, 0, 1, 0, 0, -1, 0, 1, 3, 0, 0, 0, 0);
    lemma_term_mul(a, b, l, x1, y1, x2, y2, -1, 0, 0, 0, 0, 1, 0, 0, 2, 0, 0, 1, 1, 0, 0, 0);
    lemma_term_mul(a, b, l, x1, y1, x2, y2, -1, 0, 0, 0, 0, 1, 0, 0, 1, 0, 0, 1, 0, 0, 1, 0);
    lemma_term_mul(a, b, l, x1, y1, x2, y2, -1, 0, 0, 0, 0, 1, 0, 0, -1, 0, 0, 0, 0, 1, 0, 0);
    assert((1 * mono(a, b, l, x1, y1, x2, y2, 1, 0, 1, 0, 0, 0, 0) + (-1) * mono(a, b, l, x1, y1, x2, y2, 0, 1, 3, 0, 0, 0, 0) + 2 * mono(a, b, l, x1, y1, x2, y2, 0, 0, 1, 1, 0, 0, 0) + 1 * mono(a, b, l, x1, y1, x2, y2, 0, 0, 1, 0, 0, 1, 0) + (-1) * mono(a, b, l, x1, y1, x2, y2, 0, 0, 0, 0, 1, 0, 0)) * (1 * mono(a, b, l, x1, y1, x2, y2, 1, 0, 1, 0, 0, 0, 0) + (-1) * mono(a, b, l, x1, y1, x2, y2, 0, 1, 3, 0, 0, 0, 0) + 2 * mono(a, b, l, x1, y1, x2, y2, 0, 0, 1, 1, 0, 0, 0) + 1 * mono(a, b, l, x1, y1, x2, y2, 0, 0, 1, 0, 0, 1, 0) + (-1) * mono(a, b, l, x1, y1, x2, y2, 0, 0, 0, 0, 1, 0, 0)) == 1 * mono(a, b, l, x1, y1, x2, y2, 2, 0, 2, 0, 0, 0, 0) + (-2) * mono(a, b, l, x1, y1, x2, y2, 1, 1, 4, 0, 0, 0, 0) + 4 * mono(a, b, l, x1, y1, x2, y2, 1, 0, 2, 1, 0, 0, 0) + 2 * mono(a, b, l, x1, y1, x2, y2, 1, 0, 2, 0, 0, 1, 0) + (-2) * mono(a, b, l, x1, y1, x2, y2, 1, 0, 1, 0, 1, 0, 0) + 1 * mono(a, b, l, x1, y1, x2, y2, 0, 2, 6, 0, 0, 0, 0) + (-4) * mono(a, b, l, x1, y1, x2, y2, 0, 1, 4, 1, 0, 0, 0) + (-2) * mono(a, b, l, x1, y1, x2, y2, 0, 1, 4, 0, 0, 1, 0) + 2 * mono(a, b, l, x1, y1, x2, y2, 0, 1, 3, 0, 1, 0, 0) + 4 * mono(a, b, l, x1, y1, x2, y2, 0, 0, 2, 2, 0, 0, 0) + 4 * mono(a, b, l, x1, y1, x2, y2, 0, 0, 2, 1, 0, 1, 0) + 1 * mono(a, b, l, x1, y1, x2, y2, 0, 0, 2, 0, 0, 2, 0) + (-4) * mono(a, b, l, x1, y1, x2, y2, 0, 0, 1, 1, 1, 0, 0) + (-2) * mono(a, b, l, x1, y1, x2, y2, 0, 0, 1, 0, 1, 1, 0) + 1 * mono(a, b, l, x1, y1, x2, y2, 0, 0, 0, 0, 2, 0, 0));
    assert((y3 * y3) == 1 * mono(a, b, l, x1, y1, x2, y2, 2, 0, 2, 0, 0, 0, 0) + (-2) * mono(a, b, l, x1, y1, x2, y2, 1, 1, 4, 0, 0, 0, 0) + 4 * mono(a, b, l, x1, y1, x2, y2, 1, 0, 2, 1, 0, 0, 0) + 2 * mono(a, b, l, x1, y1, x2, y2, 1, 0, 2, 0, 0, 1, 0) + (-2) * mono(a, b, l, x1, y1, x2, y2, 1, 0, 1, 0, 1, 0, 0) + 1 * mono(a, b, l, x1, y1, x2, y2, 0, 2, 6, 0, 0, 0, 0) + (-4) * mono(a, b, l, x1, y1, x2, y2, 0, 1, 4, 1, 0, 0, 0) + (-2) * mono(a, b, l, x1, y1, x2, y2, 0, 1, 4, 0, 0, 1, 0) + 2 * mono(a, b, l, x1, y1, x2, y2, 0, 1, 3, 0, 1, 0, 0) + 4 * mono(a, b, l, x1, y1, x2, y2, 0, 0, 2, 2, 0, 0, 0) + 4 * mono(a, b, l, x1, y1, x2, y2, 0, 0, 2, 1, 0, 1, 0) + 1 * mono(a, b, l, x1, y1, x2, y2, 0, 0, 2, 0, 0, 2, 0) + (-4) * mono(a, b, l, x1, y1, x2, y2, 0, 0, 1, 1, 1, 0, 0) + (-2) * mono(a, b, l, x1, y1, x2, y2, 0, 0, 1, 0, 1, 1, 0) + 1 * mono(a, b, l, x1, y1, x2, y2, 0, 0, 0, 0, 2, 0, 0));
    lemma_mul_is_distributive_add(1 * mono(a, b, l, x1, y1, x2, y2, 0, 1, 0, 0, 0, 0, 0), 1 * mono(a, b, l, x1, y1, x2, y2, 2, 0, 2, 0, 0, 0, 0), (-2) * mono(a, b, l, x1, y1, x2, y2, 1, 1, 4, 0, 0, 0, 0));
    lemma_mul_is_distributive_add(1 * mono(a, b, l, x1, y1, x2, y2, 0, 1, 0, 0, 0, 0, 0), 1 * mono(a, b, l, x1, y1, x2, y2, 2, 0, 2, 0, 0, 0, 0) + (-2) * mono(a, b, l, x1, y1, x2, y2, 1, 1, 4, 0, 0, 0, 0), 4 * mono(a, b, l, x1, y1, x2, y2, 1, 0, 2, 1, 0, 0, 0));
    lemma_mul_is_distributive_add(1 * mono(a, b, l, x1, y1, x2, y2, 0, 1, 0, 0, 0, 0, 0), 1 * mono(a, b, l, x1, y1, x2, y2, 2, 0, 2, 0, 0, 0, 0) + (-2) * mono(a, b, l, x1, y1, x2, y2, 1, 1, 4, 0, 0, 0, 0) + 4 * mono(a, b, l, x1, y1, x2, y2, 1, 0, 2, 1, 0, 0, 0), 2 * mono(a, b, l, x1, y1, x2, y2, 1, 0, 2, 0, 0, 1, 0));
    lemma_mul_is_distributive_add(1 * mono(a, b, l, x1, y1, x2, y2, 0, 1, 0, 0, 0, 0, 0), 1 * mono(a, b, l, x1, y1, x2, y2, 2, 0, 2, 0, 0, 0, 0) + (-2) * mono(a, b, l, x1, y1, x2, y2, 1, 1, 4, 0, 0, 0, 0) + 4 * mono(a, b, l, x1, y1, x2, y2, 1, 0, 2, 1, 0, 0, 0) + 2 * mono(a, b, l, x1, y1, x2, y2, 1, 0, 2, 0, 0, 1, 0), (-2) * mono(a, b, l, x1, y1, x2, y2, 1, 0, 1, 0, 1, 0, 0));
    lemma_mul_is_distributive_add(1 * mono(a, b, l, x1, y1, x2, y2, 0, 1, 0, 0, 0, 0, 0), 1 * mono(a, b, l, x1, y1, x2, y2, 2, 0, 2, 0, 0, 0, 0) + (-2) * mono(a, b, l, x1, y1, x2, y2, 1, 1, 4, 0, 0, 0, 0) + 4 * mono(a, b, l, x1, y1, x2, y2, 1, 0, 2, 1, 0, 0, 0) + 2 * mono(a, b, l, x1, y1, x2, y2, 1, 0, 2, 0, 0, 1, 0) + (-2) * mono(a, b, l, x1, y1, x2, y2, 1, 0, 1, 0, 1, 0, 0), 1 * mono(a, b, l, x1, y1, x2, y2, 0, 2, 6, 0, 0, 0, 0));
    lemma_mul_is_distributive_add(1 * mono(a, b, l, x1, y1, x2, y2, 0, 1, 0, 0, 0, 0, 0), 1 * mono(a, b, l, x1, y1, x2, y2, 2, 0, 2, 0, 0, 0, 0) + (-2) * mono(a, b, l, x1, y1, x2, y2, 1, 1, 4, 0, 0, 0, 0) + 4 * mono(a, b, l, x1, y1, x2, y2, 1, 0, 2, 1, 0, 0, 0) + 2 * mono(a, b, l, x1, y1, x2, y2, 1, 0, 2, 0, 0, 1, 0) + (-2) * mono(a, b, l, x1, y1, x2, y2, 1, 0, 1, 0, 1, 0, 0) + 1 * mono(a, b, l, x1, y1, x2, y2, 0, 2, 6, 0, 0, 0, 0), (-4) * mono(a, b, l, x1, y1, x2, y2, 0, 1, 4, 1, 0, 0, 0));
    lemma_mul_is_distributive_add(1 * mono(a, b, l, x1, y1, x2, y2, 0, 1, 0, 0, 0, 0, 0), 1 * mono(a, b, l, x1, y1, x2, y2, 2, 0, 2, 0, 0, 0, 0) + (-2) * mono(a, b, l, x1, y1, x2, y2, 1, 1, 4, 0, 0, 0, 0) + 4 * mono(a, b, l, x1, y1, x2, y2, 1, 0, 2, 1, 0, 0, 0) + 2 * mono(a, b, l, x1, y1, x2, y2, 1, 0, 2, 0, 0, 1, 0) + (-2) * mono(a, b, l, x1, y1, x2, y2, 1, 0, 1, 0, 1, 0, 0) + 1 * mono(a, b, l, x1, y1, x2, y2, 0, 2, 6, 0, 0, 0, 0) + (-4) * mono(a, b, l, x1, y1, x2, y2, 0, 1, 4, 1, 0, 0, 0), (-2) * mono(a, b, l, x1, y1, x2, y2, 0, 1, 4, 0, 0, 1, 0));
    lemma_mul_is_distributive_add(1 * mono(a, b, l, x1, y1, x2, y2, 0, 1, 0, 0, 0, 0, 0), 1 * mono(a, b, l, x1, y1, x2, y2, 2, 0, 2, 0, 0, 0, 0) + (-2) * mono(a, b, l, x1, y1, x2, y2, 1, 1, 4, 0, 0, 0, 0) + 4 * mono(a, b, l, x1, y1, x2, y2, 1, 0, 2, 1, 0, 0, 0) + 2 * mono(a, b, l, x1, y1, x2, y2, 1, 0, 2, 0, 0, 1, 0) + (-2) * mono(a, b, l, x1, y1, x2, y2, 1, 0, 1, 0, 1, 0, 0) + 1 * mono(a, b, l, x1, y1, x2, y2, 0, 2, 6, 0, 0, 0, 0) + (-4) * mono(a, b, l, x1, y1, x2, y2, 0, 1, 4, 1, 0, 0, 0) + (-2) * mono(a, b, l, x1, y1, x2, y2, 0, 1, 4, 0, 0, 1, 0), 2 * mono(a, b, l, x1, y1, x2, y2, 0, 1, 3, 0, 1, 0, 0));
    lemma_mul_is_distributive_add(1 * mono(a, b, l, x1, y1, x2, y2, 0, 1, 0, 0, 0, 0, 0), 1 * mono(a, b, l, x1, y1, x2, y2, 2, 0, 2, 0, 0, 0, 0) + (-2) * mono(a, b, l, x1, y1, x2, y2, 1, 1, 4, 0, 0, 0, 0) + 4 * mono(a, b, l, x1, y1, x2, y2, 1, 0, 2, 1, 0, 0, 0) + 2 * mono(a, b, l, x1, y1, x2, y2, 1, 0, 2, 0, 0, 1, 0) + (-2) * mono(a, b, l, x1, y1, x2, y2, 1, 0, 1, 0, 1, 0, 0) + 1 * mono(a, b, l, x1, y1, x2, y2, 0, 2, 6, 0, 0, 0, 0) + (-4) * mono(a, b, l, x1, y1, x2, y2, 0, 1, 4, 1, 0, 0, 0) + (-2) * mono(a, b, l, x1, y1, x2, y2, 0, 1, 4, 0, 0, 1, 0) + 2 * mono(a, b, l, x1, y1, x2, y2, 0, 1, 3, 0, 1, 0, 0), 4 * mono(a, b, l, x1, y1, x2, y2, 0, 0, 2, 2, 0, 0, 0));
    lemma_mul_is_distributive_add(1 * mono(a, b, l, x1, y1, x2, y2, 0, 1, 0, 0, 0, 0, 0), 1 * mono(a, b, l, x1, y1, x2, y2, 2, 0, 2, 0, 0, 0, 0) + (-2) * mono(a, b, l, x1, y1, x2, y2, 1, 1, 4, 0, 0, 0, 0) + 4 * mono(a, b, l, x1, y1, x2, y2, 1, 0, 2, 1, 0, 0, 0) + 2 * mono(a, b, l, x1, y1, x2, y2, 1, 0, 2, 0, 0, 1, 0) + (-2) * mono(a, b, l, x1, y1, x2, y2, 1, 0, 1, 0, 1, 0, 0) + 1 * mono(a, b, l, x1, y1, x2, y2, 0, 2, 6, 0, 0, 0, 0) + (-4) * mono(a, b, l, x1, y1, x2, y2, 0, 1, 4, 1, 0, 0, 0) + (-2) * mono(a, b, l, x1, y1, x2, y2, 0, 1, 4, 0, 0, 1, 0) + 2 * mono(a, b, l, x1, y1, x2, y2, 0, 1, 3, 0, 1, 0, 0) + 4 * mono(a, b, l, x1, y1, x2, y2, 0, 0, 2, 2, 0, 0, 0), 4 * mono(a, b, l, x1, y1, x2, y2, 0, 0, 2, 1, 0, 1, 0));
    lemma_mul_is_distributive_add(1 * mono(a, b, l, x1, y1, x2, y2, 0, 1, 0, 0, 0, 0, 0), 1 * mono(a, b, l, x1, y1, x2, y2, 2, 0, 2, 0, 0, 0, 0) + (-2) * mono(a, b, l, x1, y1, x2, y2, 1, 1, 4, 0, 0, 0, 0) + 4 * mono(a, b, l, x1, y1, x2, y2, 1, 0, 2, 1, 0, 0, 0) + 2 * mono(a, b, l, x1, y1, x2, y2, 1, 0, 2, 0, 0, 1, 0) + (-2) * mono(a, b, l, x1, y1, x2, y2, 1, 0, 1, 0, 1, 0, 0) + 1 * mono(a, b, l, x1, y1, x2, y2, 0, 2, 6, 0, 0, 0, 0) + (-4) * mono(a, b, l, x1, y1, x2, y2, 0, 1, 4, 1, 0, 0, 0) + (-2) * mono(a, b, l, x1, y1, x2, y2, 0, 1, 4, 0, 0, 1, 0) + 2 * mono(a, b, l, x1, y1, x2, y2, 0, 1, 3, 0, 1, 0, 0) + 4 * mono(a, b, l, x1, y1, x2, y2, 0, 0, 2, 2, 0, 0, 0) + 4 * mono(a, b, l, x1, y1, x2, y2, 0, 0, 2, 1, 0, 1, 0), 1 * mono(a, b, l, x1, y1, x2, y2, 0, 0, 2, 0, 0, 2, 0));
    lemma_mul_is_distributive_add(1 * mono(a, b, l, x1, y1, x2, y2, 0, 1, 0, 0, 0, 0, 0), 1 * mono(a, b, l, x1, y1, x2, y2, 2, 0, 2, 0, 0, 0, 0) + (-2) * mono(a, b, l, x1, y1, x2, y2, 1, 1, 4, 0, 0, 0, 0) + 4 * mono(a, b, l, x1, y1, x2, y2, 1, 0, 2, 1, 0, 0, 0) + 2 * mono(a, b, l, x1, y1, x2, y2, 1, 0, 2, 0, 0, 1, 0) + (-2) * mono(a, b, l, x1, y1, x2, y2, 1, 0, 1, 0, 1, 0, 0) + 1 * mono(a, b, l, x1, y1, x2, y2, 0, 2, 6, 0, 0, 0, 0) + (-4) * mono(a, b, l, x1, y1, x2, y2, 0, 1, 4, 1, 0, 0, 0) + (-2) * mono(a, b, l, x1, y1, x2, y2, 0, 1, 4, 0, 0, 1, 0) + 2 * mono(a, b, l, x1, y1, x2, y2, 0, 1, 3, 0, 1, 0, 0) + 4 * mono(a, b, l, x1, y1, x2, y2, 0, 0, 2, 2, 0, 0, 0) + 4 * mono(a, b, l, x1, y1, x2, y2, 0, 0, 2, 1, 0, 1, 0) + 1 * mono(a, b, l, x1, y1, x2, y2, 0, 0, 2, 0, 0, 2, 0), (-4) * mono(a, b, l, x1, y1, x2, y2, 0, 0, 1, 1, 1, 0, 0));
    lemma_mul_is_distributive_add(1 * mono(a, b, l, x1, y1, x2, y2, 0, 1, 0, 0, 0, 0, 0), 1 * mono(a, b, l, x1, y1, x2, y2, 2, 0, 2, 0, 0, 0, 0) + (-2) * mono(a, b, l, x1, y1, x2, y2, 1, 1, 4, 0, 0, 0, 0) + 4 * mono(a, b, l, x1, y1, x2, y2, 1, 0, 2, 1, 0, 0, 0) + 2 * mono(a, b, l, x1, y1, x2, y2, 1, 0, 2, 0, 0, 1, 0) + (-2) * mono(a, b, l, x1, y1, x2, y2, 1, 0, 1, 0, 1, 0, 0) + 1 * mono(a, b, l, x1, y1, x2, y2, 0, 2, 6, 0, 0, 0, 0) + (-4) * mono(a, b, l, x1, y1, x2, y2, 0, 1, 4, 1, 0, 0, 0) + (-2) * mono(a, b, l, x1, y1, x2, y2, 0, 1, 4, 0, 0, 1, 0) + 2 * mono(a, b, l, x1, y1, x2, y2, 0, 1, 3, 0, 1, 0, 0) + 4 * mono(a, b, l, x1, y1, x2, y2, 0, 0, 2, 2, 0, 0, 0) + 4 * mono(a, b, l, x1, y1, x2, y2, 0, 0, 2, 1, 0, 1, 0) + 1 * mono(a, b, l, x1, y1, x2, y2, 0, 0, 2, 0, 0, 2, 0) + (-4) * mono(a, b, l, x1, y1, x2, y2, 0, 0, 1, 1, 1, 0, 0), (-2) * mono(a, b, l, x1, y1, x2, y2, 0, 0, 1, 0, 1, 1, 0));
    lemma_mul_is_distributive_add(1 * mono(a, b, l, x1, y1, x2, y2, 0, 1, 0, 0, 0, 0, 0), 1 * mono(a, b, l, x1, y1, x2, y2, 2, 0, 2, 0, 0, 0, 0) + (-2) * mono(a, b, l, x1, y1, x2, y2, 1, 1, 4, 0, 0, 0, 0) + 4 * mono(a, b, l, x1, y1, x2, y2, 1, 0, 2, 1, 0, 0, 0) + 2 * mono(a, b, l, x1, y1, x2, y2, 1, 0, 2, 0, 0, 1, 0) + (-2) * mono(a, b, l, x1, y1, x2, y2, 1, 0, 1, 0, 1, 0, 0) + 1 * mono(a, b, l, x1, y1, x2, y2, 0, 2, 6, 0, 0, 0, 0) + (-4) * mono(a, b, l, x1, y1, x2, y2, 0, 1, 4, 1, 0, 0, 0) + (-2) * mono(a, b, l, x1, y1, x2, y2, 0, 1, 4, 0, 0, 1, 0) + 2 * mono(a, b, l, x1, y1, x2, y2, 0, 1, 3, 0, 1, 0, 0) + 4 * mono(a, b, l, x1, y1, x2, y2, 0, 0, 2, 2, 0, 0, 0) + 4 * mono(a, b, l, x1, y1, x2, y2, 0, 0, 2, 1, 0, 1, 0) + 1 * mono(a, b, l, x1, y1, x2, y2, 0, 0, 2, 0, 0, 2, 0) + (-4) * mono(a, b, l, x1, y1, x2, y2, 0, 0, 1, 1, 1, 0, 0) + (-2) * mono(a, b, l, x1, y1, x2, y2, 0, 0, 1, 0, 1, 1, 0), 1 * mono(a, b, l, x1, y1, x2, y2, 0, 0, 0, 0, 2, 0, 0));
    lemma_term_mul(a, b, l, x1, y1, x2, y2, 1, 0, 1, 0, 0, 0, 0, 0, 1, 2, 0, 2, 0, 0, 0, 0);
    lemma_term_mul(a, b, l, x1, y1, x2, y2, 1, 0, 1, 0, 0, 0, 0, 0, -2, 1, 1, 4, 0, 0, 0, 0);
    lemma_term_mul(a, b, l, x1, y1, x2, y2, 1, 0, 1, 0, 0, 0, 0, 0, 4, 1, 0, 2, 1, 0, 0, 0);
    lemma_term_mul(a, b, l, x1, y1, x2, y2, 1, 0, 1, 0, 0, 0, 0, 0, 2, 1, 0, 2, 0, 0, 1, 0);
    lemma_term_mul(a, b, l, x1, y1, x2, y2, 1, 0, 1, 0, 0, 0, 0, 0, -2, 1, 0, 1, 0, 1, 0, 0);
    lemma_term_mul(a, b, l, x1, y1, x2, y2, 1, 0, 1, 0, 0, 0, 0, 0, 1, 0, 2, 6, 0, 0, 0, 0);
    lemma_term_mul(a, b, l, x1, y1, x2, y2, 1, 0, 1, 0, 0, 0, 0, 0, -4, 0, 1, 4, 1, 0, 0, 0);
    lemma_term_mul(a, b, l, x1, y1, x2, y2, 1, 0, 1, 0, 0, 0, 0, 0, -2, 0, 1, 4, 0, 0, 1, 0);
    lemma_term_mul(a, b, l, x1, y1, x2, y2, 1, 0, 1, 0, 0, 0, 0, 0, 2, 0, 1, 3, 0, 1, 0, 0);
    lemma_term_mul(a, b, l, x1, y1, x2, y2, 1, 0, 1, 0, 0, 0, 0, 0, 4, 0, 0, 2, 2, 0, 0, 0);
    lemma_term_mul(a, b, l, x1, y1, x2, y2, 1, 0, 1, 0, 0, 0, 0, 0, 4, 0, 0, 2, 1, 0, 1, 0);
    lemma_term_mul(a, b, l, x1, y1, x2, y2, 1, 0, 1, 0, 0, 0, 0, 0, 1, 0, 0, 2, 0, 0, 2, 0);
    lemma_term_mul(a, b, l, x1, y1, x2, y2, 1, 0, 1, 0, 0, 0, 0, 0, -4, 0, 0, 1, 1, 1, 0, 0);
    lemma_term_mul(a, b, l, x1, y1, x2, y2, 1, 0, 1, 0, 0, 0, 0, 0, -2, 0, 0, 1, 0, 1, 1, 0);
    lemma_term_mul(a, b, l, x1, y1, x2, y2, 1, 0, 1, 0, 0, 0, 0, 0, 1, 0, 0, 0, 0, 2, 0, 0);
    assert((1 * mono(a, b, l, x1, y1, x2, y2, 0, 1, 0, 0, 0, 0, 0)) * (1 * mono(a, b, l, x1, y1, x2, y2, 2, 0, 2, 0, 0, 0, 0) + (-2) * mono(a, b, l, x1, y1, x2, y2, 1, 1, 4, 0, 0, 0, 0) + 4 * mono(a, b, l, x1, y1, x2, y2, 1, 0, 2, 1, 0, 0, 0) + 2 * mono(a, b, l, x1, y1, x2, y2, 1, 0, 2, 0, 0, 1, 0) + (-2) * mono(a, b, l, x1, y1, x2, y2, 1, 0, 1, 0, 1, 0, 0) + 1 * mono(a, b, l, x1, y1, x2, y2, 0, 2, 6, 0, 0, 0, 0) + (-4) * mono(a, b, l, x1, y1, x2, y2, 0, 1, 4, 1, 0, 0, 0) + (-2) * mono(a, b, l, x1, y1, x2, y2, 0, 1, 4, 0, 0, 1, 0) + 2 * mono(a, b, l, x1, y1, x2, y2, 0, 1, 3, 0, 1, 0, 0) + 4 * mono(a, b, l, x1, y1, x2, y2, 0, 0, 2, 2, 0, 0, 0) + 4 * mono(a, b, l, x1, y1, x2, y2, 0, 0, 2, 1, 0, 1, 0) + 1 * mono(a, b, l, x1, y1, x2, y2, 0, 0, 2, 0, 0, 2, 0) + (-4) * mono(a, b, l, x1, y1, x2, y2, 0, 0, 1, 1, 1, 0, 0) + (-2) * mono(a, b, l, x1, y1, x2, y2, 0, 0, 1, 0, 1, 1, 0) + 1 * mono(a, b, l, x1, y1, x2, y2, 0, 0, 0, 0, 2, 0, 0)) == 1 * mono(a, b, l, x1, y1, x2, y2, 2, 1, 2, 0, 0, 0, 0) + (-2) * mono(a, b, l, x1, y1, x2, y2, 1, 2, 4, 0, 0, 0, 0) + 4 * mono(a, b, l, x1, y1, x2, y2, 1, 1, 2, 1, 0, 0, 0) + 2 * mono(a, b, l, x1, y1, x2, y2, 1, 1, 2, 0, 0, 1, 0) + (-2) * mono(a, b, l, x1, y1, x2, y2, 1, 1, 1, 0, 1, 0, 0) + 1 * mono(a, b, l, x1, y1, x2, y2, 0, 3, 6, 0, 0, 0, 0) + (-4) * mono(a, b, l, x1, y1, x2, y2, 0, 2, 4, 1, 0, 0, 0) + (-2) * mono(a, b, l, x1, y1, x2, y2, 0, 2, 4, 0, 0, 1, 0) + 2 * mono(a, b, l, x1, y1, x2, y2, 0, 2, 3, 0, 1, 0, 0) + 4 * mono(a, b, l, x1, y1, x2, y2, 0, 1, 2, 2, 0, 0, 0) + 4 * mono(a, b, l, x1, y1, x2, y2, 0, 1, 2, 1, 0, 1, 0) + 1 * mono(a, b, l, x1, y1, x2, y2, 0, 1, 2, 0, 0, 2, 0) + (-4) * mono(a, b, l, x1, y1, x2, y2, 0, 1, 1, 1, 1, 0, 0) + (-2) * mono(a, b, l, x1, y1, x2, y2, 0, 1, 1, 0, 1, 1, 0) + 1 * mono(a, b, l, x1, y1, x2, y2, 0, 1, 0, 0, 2, 0, 0));
    assert((b * (y3 * y3)) == 1 * mono(a, b, l, x1, y1, x2, y2, 2, 1, 2, 0, 0, 0, 0) + (-2) * mono(a, b, l, x1, y1, x2, y2, 1, 2, 4, 0, 0, 0, 0) + 4 * mono(a, b, l, x1, y1, x2, y2, 1, 1, 2, 1, 0, 0, 0) + 2 * mono(a, b, l, x1, y1, x2, y2, 1, 1, 2, 0, 0, 1, 0) + (-2) * mono(a, b, l, x1, y1, x2, y2, 1, 1, 1, 0, 1, 0, 0) + 1 * mono(a, b, l, x1, y1, x2, y2, 0, 3, 6, 0, 0, 0, 0) + (-4) * mono(a, b, l, x1, y1, x2, y2, 0, 2, 4, 1, 0, 0, 0) + (-2) * mono(a, b, l, x1, y1, x2, y2, 0, 2, 4, 0, 0, 1, 0) + 2 * mono(a, b, l, x1, y1, x2, y2, 0, 2, 3, 0, 1, 0, 0) + 4 * mono(a, b, l, x1, y1, x2, y2, 0, 1, 2, 2, 0, 0, 0) + 4 * mono(a, b, l, x1, y1, x2, y2, 0, 1, 2, 1, 0, 1, 0) + 1 * mono(a, b, l, x1, y1, x2, y2, 0, 1, 2, 0, 0, 2, 0) + (-4) * mono(a, b, l, x1, y1, x2, y2, 0, 1, 1, 1, 1, 0, 0) + (-2) * mono(a, b, l, x1, y1, x2, y2, 0, 1, 1, 0, 1, 1, 0) + 1 * mono(a, b, l, x1, y1, x2, y2, 0, 1, 0, 0, 2, 0, 0));
    lemma_mul_is_distributive_add_other_way(((-1) * mono(a, b, l, x1, y1, x2, y2, 1, 0, 0, 0, 0, 0, 0) + 1 * mono(a, b, l, x1, y1, x2, y2, 0, 1, 2, 0, 0, 0, 0) + (-1) * mono(a, b, l, x1, y1, x2, y2, 0, 0, 0, 1, 0, 0, 0) + (-1) * mono(a, b, l, x1, y1, x2, y2, 0, 0, 0, 0, 0, 1, 0)), (-1) * mono(a, b, l, x1, y1, x2, y2, 1, 0, 0, 0, 0, 0, 0), 1 * mono(a, b, l, x1, y1, x2, y2, 0, 1, 2, 0, 0, 0, 0));
    lemma_mul_is_distributive_add_other_way(((-1) * mono(a, b, l, x1, y1, x2, y2, 1, 0, 0, 0, 0, 0, 0) + 1 * mono(a, b, l, x1, y1, x2, y2, 0, 1, 2, 0, 0, 0, 0) + (-1) * mono(a, b, l, x1, y1, x2, y2, 0, 0, 0, 1, 0, 0, 0) + (-1) * mono(a, b, l, x1, y1, x2, y2, 0, 0, 0, 0, 0, 1, 0)), (-1) * mono(a, b, l, x1, y1, x2, y2, 1, 0, 0, 0, 0, 0, 0) + 1 * mono(a, b, l, x1, y1, x2, y2, 0, 1, 2, 0, 0, 0, 0), (-1) * mono(a, b, l, x1, y1, x2, y2, 0, 0, 0, 1, 0, 0, 0));
    lemma_mul_is_distributive_add_other_way(((-1) * mono(a, b, l, x1, y1, x2, y2, 1, 0, 0, 0, 0, 0, 0) + 1 * mono(a, b, l, x1, y1, x2, y2, 0, 1, 2, 0, 0, 0, 0) + (-1) * mono(a, b, l, x1, y1, x2, y2, 0, 0, 0, 1, 0, 0, 0) + (-1) * mono(a, b, l, x1, y1, x2, y2, 0, 0, 0, 0, 0, 1, 0)), (-1) * mono(a, b, l, x1, y1, x2, y2, 1, 0, 0, 0, 0, 0, 0) + 1 * mono(a, b, l, x1, y1, x2, y2, 0, 1, 2, 0, 0, 0, 0) + (-1) * mono(a, b, l, x1, y1, x2, y2, 0, 0, 0, 1, 0, 0, 0), (-1) * mono(a, b, l, x1, y1, x2, y2, 0, 0, 0, 0, 0, 1, 0));
    lemma_mul_is_distributive_add((-1) * mono(a, b, l, x1, y1, x2, y2, 1, 0, 0, 0, 0, 0, 0), (-1) * mono(a, b, l, x1, y1, x2, y2, 1, 0, 0, 0, 0, 0, 0), 1 * mono(a, b, l, x1, y1, x2, y2, 0, 1, 2, 0, 0, 0, 0));
    lemma_mul_is_distributive_add((-1) * mono(a, b, l, x1, y1, x2, y2, 1, 0, 0, 0, 0, 0, 0), (-1) * mono(a, b, l, x1, y1, x2, y2, 1, 0, 0, 0, 0, 0, 0) + 1 * mono(a, b, l, x1, y1, x2, y2, 0, 1, 2, 0, 0, 0, 0), (-1) * mono(a, b, l, x1, y1, x2, y2, 0, 0, 0, 1, 0, 0, 0));
    lemma_mul_is_distributive_add((-1) * mono(a, b, l, x1, y1, x2, y2, 1, 0, 0, 0, 0, 0, 0), (-1) * mono(a, b, l, x1, y1, x2, y2, 1, 0, 0, 0, 0, 0, 0) + 1 * mono(a, b, l, x1, y1, x2, y2, 0, 1, 2, 0, 0, 0, 0) + (-1) * mono(a, b, l, x1, y1, x2, y2, 0, 0, 0, 1, 0, 0, 0), (-1) * mono(a, b, l, x1, y1, x2, y2, 0, 0, 0, 0, 0, 1, 0));
    lemma_term_mul(a, b, l, x1, y1, x2, y2, -1, 1, 0, 0, 0, 0, 0, 0, -1, 1, 0, 0, 0, 0, 0, 0);
    lemma_term_mul(a, b, l, x1, y1, x2, y2, -1, 1, 0, 0, 0, 0, 0, 0, 1, 0, 1, 2, 0, 0, 0, 0);
    lemma_term_mul(a, b, l, x1, y1, x2, y2, -1, 1, 0, 0, 0, 0, 0, 0, -1, 0, 0, 0, 1, 0, 0, 0);
    lemma_term_mul(a, b, l, x1, y1, x2, y2, -1, 1, 0, 0, 0, 0, 0, 0, -1, 0, 0, 0, 0, 0, 1, 0);
    lemma_mul_is_distributive_add(1 * mono(a, b, l, x1, y1, x2, y2, 0, 1, 2, 0, 0, 0, 0), (-1) * mono(a, b, l, x1, y1, x2, y2, 1, 0, 0, 0, 0, 0, 0), 1 * mono(a, b, l, x1, y1, x2, y2, 0, 1, 2, 0, 0, 0, 0));
    lemma_mul_is_distributive_add(1 * mono(a, b, l, x1, y1, x2, y2, 0, 1, 2, 0, 0, 0, 0), (-1) * mono(a, b, l, x1, y1, x2, y2, 1, 0, 0, 0, 0, 0, 0) + 1 * mono(a, b, l, x1, y1, x2, y2, 0, 1, 2, 0, 0, 0, 0), (-1) * mono(a, b, l, x1, y1, x2, y2, 0, 0, 0, 1, 0, 0, 0));
    lemma_mul_is_distributive_add(1 * mono(a, b, l, x1, y1, x2, y2, 0, 1, 2, 0, 0, 0, 0), (-1) * mono(a, b, l, x1, y1, x2, y2, 1, 0, 0, 0, 0, 0, 0) + 1 * mono(a, b, l, x1, y1, x2, y2, 0, 1, 2, 0, 0, 0, 0) + (-1) * mono(a, b, l, x1, y1, x2, y2, 0, 0, 0, 1, 0, 0, 0), (-1) * mono(a, b, l, x1, y1, x2, y2, 0, 0, 0, 0, 0, 1, 0));
    lemma_term_mul(a, b, l, x1, y1, x2, y2, 1, 0, 1, 2, 0, 0, 0, 0, -1, 1, 0, 0, 0, 0, 0, 0);
    lemma_term_mul(a, b, l, x1, y1, x2, y2, 1, 0, 1, 2, 0, 0, 0, 0, 1, 0, 1, 2, 0, 0, 0, 0);
    lemma_term_mul(a, b, l, x1, y1, x2, y2, 1, 0, 1, 2, 0, 0, 0, 0, -1, 0, 0, 0, 1, 0, 0, 0);
    lemma_term_mul(a, b, l, x1, y1, x2, y2, 1, 0, 1, 2, 0, 0, 0, 0, -1, 0, 0, 0, 0, 0, 1, 0);
    lemma_mul_is_distributive_add((-1) * mono(a, b, l, x1, y1, x2, y2, 0, 0, 0, 1, 0, 0, 0), (-1) * mono(a, b, l, x1, y1, x2, y2, 1, 0, 0, 0, 0, 0, 0), 1 * mono(a, b, l, x1, y1, x2, y2, 0, 1, 2, 0, 0, 0, 0));
    lemma_mul_is_distributive_add((-1) * mono(a, b, l, x1, y1, x2, y2, 0, 0, 0, 1, 0, 0, 0), (-1) * mono(a, b, l, x1, y1, x2, y2, 1, 0, 0, 0, 0, 0, 0) + 1 * mono(a, b, l, x1, y1, x2, y2, 0, 1, 2, 0, 0, 0, 0), (-1) * mono(a, b, l, x1, y1, x2, y2, 0, 0, 0, 1, 0, 0, 0));
    lemma_mul_is_distributive_add((-1) * mono(a, b, l, x1, y1, x2, y2, 0, 0, 0, 1, 0, 0, 0), (-1) * mono(a, b, l, x1, y1, x2, y2, 1, 0, 0, 0, 0, 0, 0) + 1 * mono(a, b, l, x1, y1, x2, y2, 0, 1, 2, 0, 0, 0, 0) + (-1) * mono(a, b, l, x1, y1, x2, y2, 0, 0, 0, 1, 0, 0, 0), (-1) * mono(a, b, l, x1, y1, x2, y2, 0, 0, 0, 0, 0, 1, 0));
    lemma_term_mul(a, b, l, x1, y1, x2, y2, -1, 0, 0, 0, 1, 0, 0, 0, -1, 1, 0, 0, 0, 0, 0, 0);
    lemma_term_mul(a, b, l, x1, y1, x2, y2, -1, 0, 0, 0, 1, 0, 0, 0, 1, 0, 1, 2, 0, 0, 0, 0);
    lemma_term_mul(a, b, l, x1, y1, x2, y2, -1, 0, 0, 0, 1, 0, 0, 0, -1, 0, 0, 0, 1, 0, 0, 0);
    lemma_term_mul(a, b, l, x1, y1, x2, y2, -1, 0, 0, 0, 1, 0, 0, 0, -1, 0, 0, 0, 0, 0, 1, 0);
    lemma_mul_is_distributive_add((-1) * mono(a, b, l, x1, y1, x2, y2, 0, 0, 0, 0, 0, 1, 0), (-1) * mono(a, b, l, x1, y1, x2, y2, 1, 0, 0, 0, 0, 0, 0), 1 * mono(a, b, l, x1, y1, x2, y2, 0, 1, 2, 0, 0, 0, 0));
    lemma_mul_is_distributive_add((-1) * mono(a, b, l, x1, y1, x2, y2, 0, 0, 0, 0, 0, 1, 0), (-1) * mono(a, b, l, x1, y1, x2, y2, 1, 0, 0, 0, 0, 0, 0) + 1 * mono(a, b, l, x1, y1, x2, y2, 0, 1, 2, 0, 0, 0, 0), (-1) * mono(a, b, l, x1, y1, x2, y2, 0, 0, 0, 1, 0, 0, 0));
    lemma_mul_is_distributive_add((-1) * mono(a, b, l, x1, y1, x2, y2, 0, 0, 0, 0, 0, 1, 0), (-1) * mono(a, b, l, x1, y1, x2, y2, 1, 0, 0, 0, 0, 0, 0) + 1 * mono(a, b, l, x1, y1, x2, y2, 0, 1, 2, 0, 0, 0, 0) + (-1) * mono(a, b, l, x1, y1, x2, y2, 0, 0, 0, 1, 0, 0, 0), (-1) * mono(a, b, l, x1, y1, x2, y2, 0, 0, 0, 0, 0, 1, 0));
    lemma_term_mul(a, b, l, x1, y1, x2, y2, -1, 0, 0, 0, 0, 0, 1, 0, -1, 1, 0, 0, 0, 0, 0, 0);
    lemma_term_mul(a, b, l, x1, y1, x2, y2, -1, 0, 0, 0, 0, 0, 1, 0, 1, 0, 1, 2, 0, 0, 0, 0);
    lemma_term_mul(a, b, l, x1, y1, x2, y2, -1, 0, 0, 0, 0, 0, 1, 0, -1, 0, 0, 0, 1, 0, 0, 0);
    lemma_term_mul(a, b, l, x1, y1, x2, y2, -1, 0, 0, 0, 0, 0, 1, 0, -1, 0, 0, 0, 0, 0, 1, 0);
    assert(((-1) * mono(a, b, l, x1, y1, x2, y2, 1, 0, 0, 0, 0, 0, 0) + 1 * mono(a, b, l, x1, y1, x2, y2, 0, 1, 2, 0, 0, 0, 0) + (-1) * mono(a, b, l, x1, y1, x2, y2, 0, 0, 0, 1, 0, 0, 0) + (-1) * mono(a, b, l, x1, y1, x2, y2, 0, 0, 0, 0, 0, 1, 0)) * ((-1) * mono(a, b, l, x1, y1, x2, y2, 1, 0, 0, 0, 0, 0, 0) + 1 * mono(a, b, l, x1, y1, x2, y2, 0, 1, 2, 0, 0, 0, 0) + (-1) * mono(a, b, l, x1, y1, x2, y2, 0, 0, 0, 1, 0, 0, 0) + (-1) * mono(a, b, l, x1, y1, x2, y2, 0, 0, 0, 0, 0, 1, 0)) == 1 * mono(a, b, l, x1, y1, x2, y2, 2, 0, 0, 0, 0, 0, 0) + (-2) * mono(a, b, l, x1, y1, x2, y2, 1, 1, 2, 0, 0, 0, 0) + 2 * mono(a, b, l, x1, y1, x2, y2, 1, 0, 0, 1, 0, 0, 0) + 2 * mono(a, b, l, x1, y1, x2, y2, 1, 0, 0, 0, 0, 1, 0) + 1 * mono(a, b, l, x1, y1, x2, y2, 0, 2, 4, 0, 0, 0, 0) + (-2) * mono(a, b, l, x1, y1, x2, y2, 0, 1, 2, 1, 0, 0, 0) + (-2) * mono(a, b, l, x1, y1, x2, y2, 0, 1, 2, 0, 0, 1, 0) + 1 * mono(a, b, l, x1, y1, x2, y2, 0, 0, 0, 2, 0, 0, 0) + 2 * mono(a, b, l, x1, y1, x2, y2, 0, 0, 0, 1, 0, 1, 0) + 1 * mono(a, b, l, x1, y1, x2, y2, 0, 0, 0, 0, 0, 2, 0));
    assert((x3 * x3) == 1 * mono(a, b, l, x1, y1, x2, y2, 2, 0, 0, 0, 0, 0, 0) + (-2) * mono(a, b, l, x1, y1, x2, y2, 1, 1, 2, 0, 0, 0, 0) + 2 * mono(a, b, l, x1, y1, x2, y2, 1, 0, 0, 1, 0, 0, 0) + 2 * mono(a, b, l, x1, y1, x2, y2, 1, 0, 0, 0, 0, 1, 0) + 1 * mono(a, b, l, x1, y1, x2, y2, 0, 2, 4, 0, 0, 0, 0) + (-2) * mono(a, b, l, x1, y1, x2, y2, 0, 1, 2, 1, 0, 0, 0) + (-2) * mono(a, b, l, x1, y1, x2, y2, 0, 1, 2, 0, 0, 1, 0) + 1 * mono(a, b, l, x1, y1, x2, y2, 0, 0, 0, 2, 0, 0, 0) + 2 * mono(a, b, l, x1, y1, x2, y2, 0, 0, 0, 1, 0, 1, 0) + 1 * mono(a, b, l, x1, y1, x2, y2, 0, 0, 0, 0, 0, 2, 0));
    lemma_mul_is_distributive_add_other_way(((-1) * mono(a, b, l, x1, y1, x2, y2, 1, 0, 0, 0, 0, 0, 0) + 1 * mono(a, b, l, x1, y1, x2, y2, 0, 1, 2, 0, 0, 0, 0) + (-1) * mono(a, b, l, x1, y1, x2, y2, 0, 0, 0, 1, 0, 0, 0) + (-1) * mono(a, b, l, x1, y1, x2, y2, 0, 0, 0, 0, 0, 1, 0)), 1 * mono(a, b, l, x1, y1, x2, y2, 2, 0, 0, 0, 0, 0, 0), (-2) * mono(a, b, l, x1, y1, x2, y2, 1, 1, 2, 0, 0, 0, 0));
    lemma_mul_is_distributive_add_other_way(((-1) * mono(a, b, l, x1, y1, x2, y2, 1, 0, 0, 0, 0, 0, 0) + 1 * mono(a, b, l, x1, y1, x2, y2, 0, 1, 2, 0, 0, 0, 0) + (-1) * mono(a, b, l, x1, y1, x2, y2, 0, 0, 0, 1, 0, 0, 0) + (-1) * mono(a, b, l, x1, y1, x2, y2, 0, 0, 0, 0, 0, 1, 0)), 1 * mono(a, b, l, x1, y1, x2, y2, 2, 0, 0, 0, 0, 0, 0) + (-2) * mono(a, b, l, x1, y1, x2, y2, 1, 1, 2, 0, 0, 0, 0), 2 * mono(a, b, l, x1, y1, x2, y2, 1, 0, 0, 1, 0, 0, 0));
    lemma_mul_is_distributive_add_other_way(((-1) * mono(a, b, l, x1, y1, x2, y2, 1, 0, 0, 0, 0, 0, 0) + 1 * mono(a, b, l, x1, y1, x2, y2, 0, 1, 2, 0, 0, 0, 0) + (-1) * mono(a, b, l, x1, y1, x2, y2, 0, 0, 0, 1, 0, 0, 0) + (-1) * mono(a, b, l, x1, y1, x2, y2, 0, 0, 0, 0, 0, 1, 0)), 1 * mono(a, b, l, x1, y1, x2, y2, 2, 0, 0, 0, 0, 0, 0) + (-2) * mono(a, b, l, x1, y1, x2, y2, 1, 1, 2, 0, 0, 0, 0) + 2 * mono(a, b, l, x1, y1, x2, y2, 1, 0, 0, 1, 0, 0, 0), 2 * mono(a, b, l, x1, y1, x2, y2, 1, 0, 0, 0, 0, 1, 0));
    lemma_mul_is_distributive_add_other_way(((-1) * mono(a, b, l, x1, y1, x2, y2, 1, 0, 0, 0, 0, 0, 0) + 1 * mono(a, b, l, x1, y1, x2, y2, 0, 1, 2, 0, 0, 0, 0) + (-1) * mono(a, b, l, x1, y1, x2, y2, 0, 0, 0, 1, 0, 0, 0) + (-1) * mono(a, b, l, x1, y1, x2, y2, 0, 0, 0, 0, 0, 1, 0)), 1 * mono(a, b, l, x1, y1, x2, y2, 2, 0, 0, 0, 0, 0, 0) + (-2) * mono(a, b, l, x1, y1, x2, y2, 1, 1, 2, 0, 0, 0, 0) + 2 * mono(a, b, l, x1, y1, x2, y2, 1, 0, 0, 1, 0, 0, 0) + 2 * mono(a, b, l, x1, y1, x2, y2, 1, 0, 0, 0, 0, 1, 0), 1 * mono(a, b, l, x1, y1, x2, y2, 0, 2, 4, 0, 0, 0, 0));
    lemma_mul_is_distributive_add_other_way(((-1) * mono(a, b, l, x1, y1, x2, y2, 1, 0, 0, 0, 0, 0, 0) + 1 * mono(a, b, l, x1, y1, x2, y2, 0, 1, 2, 0, 0, 0, 0) + (-1) * mono(a, b, l, x1, y1, x2, y2, 0, 0, 0, 1, 0, 0, 0) + (-1) * mono(a, b, l, x1, y1, x2, y2, 0, 0, 0, 0, 0, 1, 0)), 1 * mono(a, b, l, x1, y1, x2, y2, 2, 0, 0, 0, 0, 0, 0) + (-2) * mono(a, b, l, x1, y1, x2, y2, 1, 1, 2, 0, 0, 0, 0) + 2 * mono(a, b, l, x1, y1, x2, y2, 1, 0, 0, 1, 0, 0, 0) + 2 * mono(a, b, l, x1, y1, x2, y2, 1, 0, 0, 0, 0, 1, 0) + 1 * mono(a, b, l, x1, y1, x2, y2, 0, 2, 4, 0, 0, 0, 0), (-2) * mono(a, b, l, x1, y1, x2, y2, 0, 1, 2, 1, 0, 0, 0));
    lemma_mul_is_distributive_add_other_way(((-1) * mono(a, b, l, x1, y1, x2, y2, 1, 0, 0, 0, 0, 0, 0) + 1 * mono(a, b, l, x1, y1, x2, y2, 0, 1, 2, 0, 0, 0, 0) + (-1) * mono(a, b, l, x1, y1, x2, y2, 0, 0, 0, 1, 0, 0, 0) + (-1) * mono(a, b, l, x1, y1, x2, y2, 0, 0, 0, 0, 0, 1, 0)), 1 * mono(a, b, l, x1, y1, x2, y2, 2, 0, 0, 0, 0, 0, 0) + (-2) * mono(a, b, l, x1, y1, x2, y2, 1, 1, 2, 0, 0, 0, 0) + 2 * mono(a, b, l, x1, y1, x2, y2, 1, 0, 0, 1, 0, 0, 0) + 2 * mono(a, b, l, x1, y1, x2, y2, 1, 0, 0, 0, 0, 1, 0) + 1 * mono(a, b, l, x1, y1, x2, y2, 0, 2, 4, 0, 0, 0, 0) + (-2) * mono(a, b, l, x1, y1, x2, y2, 0, 1, 2, 1, 0, 0, 0), (-2) * mono(a, b, l, x1, y1, x2, y2, 0, 1, 2, 0, 0, 1, 0));
    lemma_mul_is_distributive_add_other_way(((-1) * mono(a, b, l, x1, y1, x2, y2, 1, 0, 0, 0, 0, 0, 0) + 1 * mono(a, b, l, x1, y1, x2, y2, 0, 1, 2, 0, 0, 0, 0) + (-1) * mono(a, b, l, x1, y1, x2, y2, 0, 0, 0, 1, 0, 0, 0) + (-1) * mono(a, b, l, x1, y1, x2, y2, 0, 0, 0, 0, 0, 1, 0)), 1 * mono(a, b, l, x1, y1, x2, y2, 2, 0, 0, 0, 0, 0, 0) + (-2) * mono(a, b, l, x1, y1, x2, y2, 1, 1, 2, 0, 0, 0, 0) + 2 * mono(a, b, l, x1, y1, x2, y2, 1, 0, 0, 1, 0, 0, 0) + 2 * mono(a, b, l, x1, y1, x2, y2, 1, 0, 0, 0, 0, 1, 0) + 1 * mono(a, b, l, x1, y1, x2, y2, 0, 2, 4, 0, 0, 0, 0) + (-2) * mono(a, b, l, x1, y1, x2, y2, 0, 1, 2, 1, 0, 0, 0) + (-2) * mono(a, b, l, x1, y1, x2, y2, 0, 1, 2, 0, 0, 1, 0), 1 * mono(a, b, l, x1, y1, x2, y2, 0, 0, 0, 2, 0, 0, 0));
    lemma_mul_is_distributive_add_other_way(((-1) * mono(a, b, l, x1, y1, x2, y2, 1, 0, 0, 0, 0, 0, 0) + 1 * mono(a, b, l, x1, y1, x2, y2, 0, 1, 2, 0, 0, 0, 0) + (-1) * mono(a, b, l, x1, y1, x2, y2, 0, 0, 0, 1, 0, 0, 0) + (-1) * mono(a, b, l, x1, y1, x2, y2, 0, 0, 0, 0, 0, 1, 0)), 1 * mono(a, b, l, x1, y1, x2, y2, 2, 0, 0, 0, 0, 0, 0) + (-2) * mono(a, b, l, x1, y1, x2, y2, 1, 1, 2, 0, 0, 0, 0) + 2 * mono(a, b, l, x1, y1, x2, y2, 1, 0, 0, 1, 0, 0, 0) + 2 * mono(a, b, l, x1, y1, x2, y2, 1, 0, 0, 0, 0, 1, 0) + 1 * mono(a, b, l, x1, y1, x2, y2, 0, 2, 4, 0, 0, 0, 0) + (-2) * mono(a, b, l, x1, y1, x2, y2, 0, 1, 2, 1, 0, 0, 0) + (-2) * mono(a, b, l, x1, y1, x2, y2, 0, 1, 2, 0, 0, 1, 0) + 1 * mono(a, b, l, x1, y1, x2, y2, 0, 0, 0, 2, 0, 0, 0), 2 * mono(a, b, l, x1, y1, x2, y2, 0, 0, 0, 1, 0, 1, 0));
    lemma_mul_is_distributive_add_other_way(((-1) * mono(a, b, l, x1, y1, x2, y2, 1, 0, 0, 0, 0, 0, 0) + 1 * mono(a, b, l, x1, y1, x2, y2, 0, 1, 2, 0, 0, 0, 0) + (-1) * mono(a, b, l, x1, y1, x2, y2, 0, 0, 0, 1, 0, 0, 0) + (-1) * mono(a, b, l, x1, y1, x2, y2, 0, 0, 0, 0, 0, 1, 0)), 1 * mono(a, b, l, x1, y1, x2, y2, 2, 0, 0, 0, 0, 0, 0) + (-2) * mono(a, b, l, x1, y1, x2, y2, 1, 1, 2, 0, 0, 0, 0) + 2 * mono(a, b, l, x1, y1, x2, y2, 1, 0, 0, 1, 0, 0, 0) + 2 * mono(a, b, l, x1, y1, x2, y2, 1, 0, 0, 0, 0, 1, 0) + 1 * mono(a, b, l, x1, y1, x2, y2, 0, 2, 4, 0, 0, 0, 0) + (-2) * mono(a, b, l, x1, y1, x2, y2, 0, 1, 2, 1, 0, 0, 0) + (-2) * mono(a, b, l, x1, y1, x2, y2, 0, 1, 2, 0, 0, 1, 0) + 1 * mono(a, b, l, x1, y1, x2, y2, 0, 0, 0, 2, 0, 0, 0) + 2 * mono(a, b, l, x1, y1, x2, y2, 0, 0, 0, 1, 0, 1, 0), 1 * mono(a, b, l, x1, y1, x2, y2, 0, 0, 0, 0, 0, 2, 0));
    lemma_mul_is_distributive_add(1 * mono(a, b, l, x1, y1, x2, y2, 2, 0, 0, 0, 0, 0, 0), (-1) * mono(a, b, l, x1, y1, x2, y2, 1, 0, 0, 0, 0, 0, 0), 1 * mono(a, b, l, x1, y1, x2, y2, 0, 1, 2, 0, 0, 0, 0));
    lemma_mul_is_distributive_add(1 * mono(a, b, l, x1, y1, x2, y2, 2, 0, 0, 0, 0, 0, 0), (-1) * mono(a, b, l, x1, y1, x2, y2, 1, 0, 0, 0, 0, 0, 0) + 1 * mono(a, b, l, x1, y1, x2, y2, 0, 1, 2, 0, 0, 0, 0), (-1) * mono(a, b, l, x1, y1, x2, y2, 0, 0, 0, 1, 0, 0, 0));
    lemma_mul_is_distributive_add(1 * mono(a, b, l, x1, y1, x2, y2, 2, 0, 0, 0, 0, 0, 0), (-1) * mono(a, b, l, x1, y1, x2, y2, 1, 0, 0, 0, 0, 0, 0) + 1 * mono(a, b, l, x1, y1, x2, y2, 0, 1, 2, 0, 0, 0, 0) + (-1) * mono(a, b, l, x1, y1, x2, y2, 0, 0, 0, 1, 0, 0, 0), (-1) * mono(a, b, l, x1, y1, x2, y2, 0, 0, 0, 0, 0, 1, 0));
    lemma_term_mul(a, b, l, x1, y1, x2, y2, 1, 2, 0, 0, 0, 0, 0, 0, -1, 1, 0, 0, 0, 0, 0, 0);
    lemma_term_mul(a, b, l, x1, y1, x2, y2, 1, 2, 0, 0, 0, 0, 0, 0, 1, 0, 1, 2, 0, 0, 0, 0);
    lemma_term_mul(a, b, l, x1, y1, x2, y2, 1, 2, 0, 0, 0, 0, 0, 0, -1, 0, 0, 0, 1, 0, 0, 0);
    lemma_term_mul(a, b, l, x1, y1, x2, y2, 1, 2, 0, 0, 0, 0, 0, 0, -1, 0, 0, 0, 0, 0, 1, 0);
    lemma_mul_is_distributive_add((-2) * mono(a, b, l, x1, y1, x2, y2, 1, 1, 2, 0, 0, 0, 0), (-1) * mono(a, b, l, x1, y1, x2, y2, 1, 0, 0, 0, 0, 0, 0), 1 * mono(a, b, l, x1, y1, x2, y2, 0, 1, 2, 0, 0, 0, 0));
    lemma_mul_is_distributive_add((-2) * mono(a, b, l, x1, y1, x2, y2, 1, 1, 2, 0, 0, 0, 0), (-1) * mono(a, b, l, x1, y1, x2, y2, 1, 0, 0, 0, 0, 0, 0) + 1 * mono(a, b, l, x1, y1, x2, y2, 0, 1, 2, 0, 0, 0, 0), (-1) * mono(a, b, l, x1, y1, x2, y2, 0, 0, 0, 1, 0, 0, 0));
    lemma_mul_is_distributive_add((-2) * mono(a, b, l, x1, y1, x2, y2, 1, 1, 2, 0, 0, 0, 0), (-1) * mono(a, b, l, x1, y1, x2, y2, 1, 0, 0, 0, 0, 0, 0) + 1 * mono(a, b, l, x1, y1, x2, y2, 0, 1, 2, 0, 0, 0, 0) + (-1) * mono(a, b, l, x1, y1, x2, y2, 0, 0, 0, 1, 0, 0, 0), (-1) * mono(a, b, l, x1, y1, x2, y2, 0, 0, 0, 0, 0, 1, 0));
    lemma_term_mul(a, b, l, x1, y1, x2, y2, -2, 1, 1, 2, 0, 0, 0, 0, -1, 1, 0, 0, 0, 0, 0, 0);
    lemma_term_mul(a, b, l, x1, y1, x2, y2, -2, 1, 1, 2, 0, 0, 0, 0, 1, 0, 1, 2, 0, 0, 0, 0);
    lemma_term_mul(a, b, l, x1, y1, x2, y2, -2, 1, 1, 2, 0, 0, 0, 0, -1, 0, 0, 0, 1, 0, 0, 0);
    lemma_term_mul(a, b, l, x1, y1, x2, y2, -2, 1, 1, 2, 0, 0, 0, 0, -1, 0, 0, 0, 0, 0, 1, 0);
    lemma_mul_is_distributive_add(2 * mono(a, b, l, x1, y1, x2, y2, 1, 0, 0, 1, 0, 0, 0), (-1) * mono(a, b, l, x1, y1, x2, y2, 1, 0, 0, 0, 0, 0, 0), 1 * mono(a, b, l, x1, y1, x2, y2, 0, 1, 2, 0, 0, 0, 0));
    lemma_mul_is_distributive_add(2 * mono(a, b, l, x1, y1, x2, y2, 1, 0, 0, 1, 0, 0, 0), (-1) * mono(a, b, l, x1, y1, x2, y2, 1, 0, 0, 0, 0, 0, 0) + 1 * mono(a, b, l, x1, y1, x2, y2, 0, 1, 2, 0, 0, 0, 0), (-1) * mono(a, b, l, x1, y1, x2, y2, 0, 0, 0, 1, 0, 0, 0));
    lemma_mul_is_distributive_add(2 * mono(a, b, l, x1, y1, x2, y2, 1, 0, 0, 1, 0, 0, 0), (-1) * mono(a, b, l, x1, y1, x2, y2, 1, 0, 0, 0, 0, 0, 0) + 1 * mono(a, b, l, x1, y1, x2, y2, 0, 1, 2, 0, 0, 0, 0) + (-1) * mono(a, b, l, x1, y1, x2, y2, 0, 0, 0, 1, 0, 0, 0), (-1) * mono(a, b, l, x1, y1, x2, y2, 0, 0, 0, 0, 0, 1, 0));
    lemma_term_mul(a, b, l, x1, y1, x2, y2, 2, 1, 0, 0, 1, 0, 0, 0, -1, 1, 0, 0, 0, 0, 0, 0);
    lemma_term_mul(a, b, l, x1, y1, x2, y2, 2, 1, 0, 0, 1, 0, 0, 0, 1, 0, 1, 2, 0, 0, 0, 0);
    lemma_term_mul(a, b, l, x1, y1, x2, y2, 2, 1, 0, 0, 1, 0, 0, 0, -1, 0, 0, 0, 1, 0, 0, 0);
    lemma_term_mul(a, b, l, x1, y1, x2, y2, 2, 1, 0, 0, 1, 0, 0, 0, -1, 0, 0, 0, 0, 0, 1, 0);
    lemma_mul_is_distributive_add(2 * mono(a, b, l, x1, y1, x2, y2, 1, 0, 0, 0, 0, 1, 0), (-1) * mono(a, b, l, x1, y1, x2, y2, 1, 0, 0, 0, 0, 0, 0), 1 * mono(a, b, l, x1, y1, x2, y2, 0, 1, 2, 0, 0, 0, 0));
    lemma_mul_is_distributive_add(2 * mono(a, b, l, x1, y1, x2, y2, 1, 0, 0, 0, 0, 1, 0), (-1) * mono(a, b, l, x1, y1, x2, y2, 1, 0, 0, 0, 0, 0, 0) + 1 * mono(a, b, l, x1, y1, x2, y2, 0, 1, 2, 0, 0, 0, 0), (-1) * mono(a, b, l, x1, y1, x2, y2, 0, 0, 0, 1, 0, 0, 0));
    lemma_mul_is_distributive_add(2 * mono(a, b, l, x1, y1, x2, y2, 1, 0, 0, 0, 0, 1, 0), (-1) * mono(a, b, l, x1, y1, x2, y2, 1, 0, 0, 0, 0, 0, 0) + 1 * mono(a, b, l, x1, y1, x2, y2, 0, 1, 2, 0, 0, 0, 0) + (-1) * mono(a, b, l, x1, y1, x2, y2, 0, 0, 0, 1, 0, 0, 0), (-1) * mono(a, b, l, x1, y1, x2, y2, 0, 0, 0, 0, 0, 1, 0));
    lemma_term_mul(a, b, l, x1, y1, x2, y2, 2, 1, 0, 0, 0, 0, 1, 0, -1, 1, 0, 0, 0, 0, 0, 0);
    lemma_term_mul(a, b, l, x1, y1, x2, y2, 2, 1, 0, 0, 0, 0, 1, 0, 1, 0, 1, 2, 0, 0, 0, 0);
    lemma_term_mul(a, b, l, x1, y1, x2, y2, 2, 1, 0, 0, 0, 0, 1, 0, -1, 0, 0, 0, 1, 0, 0, 0);
    lemma_term_mul(a, b, l, x1, y1, x2, y2, 2, 1, 0, 0, 0, 0, 1, 0, -1, 0, 0, 0, 0, 0, 1, 0);
    lemma_mul_is_distributive_add(1 * mono(a, b, l, x1, y1, x2, y2, 0, 2, 4, 0, 0, 0, 0), (-1) * mono(a, b, l, x1, y1, x2, y2, 1, 0, 0, 0, 0, 0, 0), 1 * mono(a, b, l, x1, y1, x2, y2, 0, 1, 2, 0, 0, 0, 0));
    lemma_mul_is_distributive_add(1 * mono(a, b, l, x1, y1, x2, y2, 0, 2, 4, 0, 0, 0, 0), (-1) * mono(a, b, l, x1, y1, x2, y2, 1, 0, 0, 0, 0, 0, 0) + 1 * mono(a, b, l, x1, y1, x2, y2, 0, 1, 2, 0, 0, 0, 0), (-1) * mono(a, b, l, x1, y1, x2, y2, 0, 0, 0, 1, 0, 0, 0));
    lemma_mul_is_distributive_add(1 * mono(a, b, l, x1, y1, x2, y2, 0, 2, 4, 0, 0, 0, 0), (-1) * mono(a, b, l, x1, y1, x2, y2, 1, 0, 0, 0, 0, 0, 0) + 1 * mono(a, b, l, x1, y1, x2, y2, 0, 1, 2, 0, 0, 0, 0) + (-1) * mono(a, b, l, x1, y1, x2, y2, 0, 0, 0, 1, 0, 0, 0), (-1) * mono(a, b, l, x1, y1, x2, y2, 0, 0, 0, 0, 0, 1, 0));
    lemma_term_mul(a, b, l, x1, y1, x2, y2, 1, 0, 2, 4, 0, 0, 0, 0, -1, 1, 0, 0, 0, 0, 0, 0);
    lemma_term_mul(a, b, l, x1, y1, x2, y2, 1, 0, 2, 4, 0, 0, 0, 0, 1, 0, 1, 2, 0, 0, 0, 0);
    lemma_term_mul(a, b, l, x1, y1, x2, y2, 1, 0, 2, 4, 0, 0, 0, 0, -1, 0, 0, 0, 1, 0, 0, 0);
    lemma_term_mul(a, b, l, x1, y1, x2, y2, 1, 0, 2, 4, 0, 0, 0, 0, -1, 0, 0, 0, 0, 0, 1, 0);
    lemma_mul_is_distributive_add((-2) * mono(a, b, l, x1, y1, x2, y2, 0, 1, 2, 1, 0, 0, 0), (-1) * mono(a, b, l, x1, y1, x2, y2, 1, 0, 0, 0, 0, 0, 0), 1 * mono(a, b, l, x1, y1, x2, y2, 0, 1, 2, 0, 0, 0, 0));
    lemma_mul_is_distributive_add((-2) * mono(a, b, l, x1, y1, x2, y2, 0, 1, 2, 1, 0, 0, 0), (-1) * mono(a, b, l, x1, y1, x2, y2, 1, 0, 0, 0, 0, 0, 0) + 1 * mono(a, b, l, x1, y1, x2, y2, 0, 1, 2, 0, 0, 0, 0), (-1) * mono(a, b, l, x1, y1, x2, y2, 0, 0, 0, 1, 0, 0, 0));
    lemma_mul_is_distributive_add((-2) * mono(a, b, l, x1, y1, x2, y2, 0, 1, 2, 1, 0, 0, 0), (-1) * mono(a, b, l, x1, y1, x2, y2, 1, 0, 0, 0, 0, 0, 0) + 1 * mono(a, b, l, x1, y1, x2, y2, 0, 1, 2, 0, 0, 0, 0) + (-1) * mono(a, b, l, x1, y1, x2, y2, 0, 0, 0, 1, 0, 0, 0), (-1) * mono(a, b, l, x1, y1, x2, y2, 0, 0, 0, 0, 0, 1, 0));
    lemma_term_mul(a, b, l, x1, y1, x2, y2, -2, 0, 1, 2, 1, 0, 0, 0, -1, 1, 0, 0, 0, 0, 0, 0);
    lemma_term_mul(a, b, l, x1, y1, x2, y2, -2, 0, 1, 2, 1, 0, 0, 0, 1, 0, 1, 2, 0, 0, 0, 0);
    lemma_term_mul(a, b, l, x1, y1, x2, y2, -2, 0, 1, 2, 1, 0, 0, 0, -1, 0, 0, 0, 1, 0, 0, 0);
    lemma_term_mul(a, b, l, x1, y1, x2, y2, -2, 0, 1, 2, 1, 0, 0, 0, -1, 0, 0, 0, 0, 0, 1, 0);
    lemma_mul_is_distributive_add((-2) * mono(a, b, l, x1, y1, x2, y2, 0, 1, 2, 0, 0, 1, 0), (-1) * mono(a, b, l, x1, y1, x2, y2, 1, 0, 0, 0, 0, 0, 0), 1 * mono(a, b, l, x1, y1, x2, y2, 0, 1, 2, 0, 0, 0, 0));
    lemma_mul_is_distributive_add((-2) * mono(a, b, l, x1, y1, x2, y2, 0, 1, 2, 0, 0, 1, 0), (-1) * mono(a, b, l, x1, y1, x2, y2, 1, 0, 0, 0, 0, 0, 0) + 1 * mono(a, b, l, x1, y1, x2, y2, 0, 1, 2, 0, 0, 0, 0), (-1) * mono(a, b, l, x1, y1, x2, y2, 0, 0, 0, 1, 0, 0, 0));
    lemma_mul_is_distributive_add((-2) * mono(a, b, l, x1, y1, x2, y2, 0, 1, 2, 0, 0, 1, 0), (-1) * mono(a, b, l, x1, y1, x2, y2, 1, 0, 0, 0, 0, 0, 0) + 1 * mono(a, b, l, x1, y1, x2, y2, 0, 1, 2, 0, 0, 0, 0) + (-1) * mono(a, b, l, x1, y1, x2, y2, 0, 0, 0, 1, 0, 0, 0), (-1) * mono(a, b, l, x1, y1, x2, y2, 0, 0, 0, 0, 0, 1, 0));
    lemma_term_mul(a, b, l, x1, y1, x2, y2, -2, 0, 1, 2, 0, 0, 1, 0, -1, 1, 0, 0, 0, 0, 0, 0);
    lemma_term_mul(a, b, l, x1, y1, x2, y2, -2, 0, 1, 2, 0, 0, 1, 0, 1, 0, 1, 2, 0, 0, 0, 0);
    lemma_term_mul(a, b, l, x1, y1, x2, y2, -2, 0, 1, 2, 0, 0, 1, 0, -1, 0, 0, 0, 1, 0, 0, 0);
    lemma_term_mul(a, b, l, x1, y1, x2, y2, -2, 0, 1, 2, 0, 0, 1, 0, -1, 0, 0, 0, 0, 0, 1, 0);
    lemma_mul_is_distributive_add(1 * mono(a, b, l, x1, y1, x2, y2, 0, 0, 0, 2, 0, 0, 0), (-1) * mono(a, b, l, x1, y1, x2, y2, 1, 0, 0, 0, 0, 0, 0), 1 * mono(a, b, l, x1, y1, x2, y2, 0, 1, 2, 0, 0, 0, 0));
    lemma_mul_is_distributive_add(1 * mono(a, b, l, x1, y1, x2, y2, 0, 0, 0, 2, 0, 0, 0), (-1) * mono(a, b, l, x1, y1, x2, y2, 1, 0, 0, 0, 0, 0, 0) + 1 * mono(a, b, l, x1, y1, x2, y2, 0, 1, 2, 0, 0, 0, 0), (-1) * mono(a, b, l, x1, y1, x2, y2, 0, 0, 0, 1, 0, 0, 0));
    lemma_mul_is_distributive_add(1 * mono(a, b, l, x1, y1, x2, y2, 0, 0, 0, 2, 0, 0, 0), (-1) * mono(a, b, l, x1, y1, x2, y2, 1, 0, 0, 0, 0, 0, 0) + 1 * mono(a, b, l, x1, y1, x2, y2, 0, 1, 2, 0, 0, 0, 0) + (-1) * mono(a, b, l, x1, y1, x2, y2, 0, 0, 0, 1, 0, 0, 0), (-1) * mono(a, b, l, x1, y1, x2, y2, 0, 0, 0, 0, 0, 1, 0));
    lemma_term_mul(a, b, l, x1, y1, x2, y2, 1, 0, 0, 0, 2, 0, 0, 0, -1, 1, 0, 0, 0, 0, 0, 0);
    lemma_term_mul(a, b, l, x1, y1, x2, y2, 1, 0, 0, 0, 2, 0, 0, 0, 1, 0, 1, 2, 0, 0, 0, 0);
    lemma_term_mul(a, b, l, x1, y1, x2, y2, 1, 0, 0, 0, 2, 0, 0, 0, -1, 0, 0, 0, 1, 0, 0, 0);
    lemma_term_mul(a, b, l, x1, y1, x2, y2, 1, 0, 0, 0, 2, 0, 0, 0, -1, 0, 0, 0, 0, 0, 1, 0);
    lemma_mul_is_distributive_add(2 * mono(a, b, l, x1, y1, x2, y2, 0, 0, 0, 1, 0, 1, 0), (-1) * mono(a, b, l, x1, y1, x2, y2, 1, 0, 0, 0, 0, 0, 0), 1 * mono(a, b, l, x1, y1, x2, y2, 0, 1, 2, 0, 0, 0, 0));
    lemma_mul_is_distributive_add(2 * mono(a, b, l, x1, y1, x2, y2, 0, 0, 0, 1, 0, 1, 0), (-1) * mono(a, b, l, x1, y1, x2, y2, 1, 0, 0, 0, 0, 0, 0) + 1 * mono(a, b, l, x1, y1, x2, y2, 0, 1, 2, 0, 0, 0, 0), (-1) * mono(a, b, l, x1, y1, x2, y2, 0, 0, 0, 1, 0, 0, 0));
    lemma_mul_is_distributive_add(2 * mono(a, b, l, x1, y1, x2, y2, 0, 0, 0, 1, 0, 1, 0), (-1) * mono(a, b, l, x1, y1, x2, y2, 1, 0, 0, 0, 0, 0, 0) + 1 * mono(a, b, l, x1, y1, x2, y2, 0, 1, 2, 0, 0, 0, 0) + (-1) * mono(a, b, l, x1, y1, x2, y2, 0, 0, 0, 1, 0, 0, 0), (-1) * mono(a, b, l, x1, y1, x2, y2, 0, 0, 0, 0, 0, 1, 0));
    lemma_term_mul(a, b, l, x1, y1, x2, y2, 2, 0, 0, 0, 1, 0, 1, 0, -1, 1, 0, 0, 0, 0, 0, 0);
    lemma_term_mul(a, b, l, x1, y1, x2, y2, 2, 0, 0, 0, 1, 0, 1, 0, 1, 0, 1, 2, 0, 0, 0, 0);
    lemma_term_mul(a, b, l, x1, y1, x2, y2, 2, 0, 0, 0, 1, 0, 1, 0, -1, 0, 0, 0, 1, 0, 0, 0);
    lemma_term_mul(a, b, l, x1, y1, x2, y2, 2, 0, 0, 0, 1, 0, 1, 0, -1, 0, 0, 0, 0, 0, 1, 0);
    lemma_mul_is_distributive_add(1 * mono(a, b, l, x1, y1, x2, y2, 0, 0, 0, 0, 0, 2, 0), (-1) * mono(a, b, l, x1, y1, x2, y2, 1, 0, 0, 0, 0, 0, 0), 1 * mono(a, b, l, x1, y1, x2, y2, 0, 1, 2, 0, 0, 0, 0));
    lemma_mul_is_distributive_add(1 * mono(a, b, l, x1, y1, x2, y2, 0, 0, 0, 0, 0, 2, 0), (-1) * mono(a, b, l, x1, y1, x2, y2, 1, 0, 0, 0, 0, 0, 0) + 1 * mono(a, b, l, x1, y1, x2, y2, 0, 1, 2, 0, 0, 0, 0), (-1) * mono(a, b, l, x1, y1, x2, y2, 0, 0, 0, 1, 0, 0, 0));
    lemma_mul_is_distributive_add(1 * mono(a, b, l, x1, y1, x2, y2, 0, 0, 0, 0, 0, 2, 0), (-1) * mono(a, b, l, x1, y1, x2, y2, 1, 0, 0, 0, 0, 0, 0) + 1 * mono(a, b, l, x1, y1, x2, y2, 0, 1, 2, 0, 0, 0, 0) + (-1) * mono(a, b, l, x1, y1, x2, y2, 0, 0, 0, 1, 0, 0, 0), (-1) * mono(a, b, l, x1, y1, x2, y2, 0, 0, 0, 0, 0, 1, 0));
    lemma_term_mul(a, b, l, x1, y1, x2, y2, 1, 0, 0, 0, 0, 0, 2, 0, -1, 1, 0, 0, 0, 0, 0, 0);
    lemma_term_mul(a, b, l, x1, y1, x2, y2, 1, 0, 0, 0, 0, 0, 2, 0, 1, 0, 1, 2, 0, 0, 0, 0);
    lemma_term_mul(a, b, l, x1, y1, x2, y2, 1, 0, 0, 0, 0, 0, 2, 0, -1, 0, 0, 0, 1, 0, 0, 0);
    lemma_term_mul(a, b, l, x1, y1, x2, y2, 1, 0, 0, 0, 0, 0, 2, 0, -1, 0, 0, 0, 0, 0, 1, 0);
    assert((1 * mono(a, b, l, x1, y1, x2, y2, 2, 0, 0, 0, 0, 0, 0) + (-2) * mono(a, b, l, x1, y1, x2, y2, 1, 1, 2, 0, 0, 0, 0) + 2 * mono(a, b, l, x1, y1, x2, y2, 1, 0, 0, 1, 0, 0, 0) + 2 * mono(a, b, l, x1, y1, x2, y2, 1, 0, 0, 0, 0, 1, 0) + 1 * mono(a, b, l, x1, y1, x2, y2, 0, 2, 4, 0, 0, 0, 0) + (-2) * mono(a, b, l, x1, y1, x2, y2, 0, 1, 2, 1, 0, 0, 0) + (-2) * mono(a, b, l, x1, y1, x2, y2, 0, 1, 2, 0, 0, 1, 0) + 1 * mono(a, b, l, x1, y1, x2, y2, 0, 0, 0, 2, 0, 0, 0) + 2 * mono(a, b, l, x1, y1, x2, y2, 0, 0, 0, 1, 0, 1, 0) + 1 * mono(a, b, l, x1, y1, x2, y2, 0, 0, 0, 0, 0, 2, 0)) * ((-1) * mono(a, b, l, x1, y1, x2, y2, 1, 0, 0, 0, 0, 0, 0) + 1 * mono(a, b, l, x1, y1, x2, y2, 0, 1, 2, 0, 0, 0, 0) + (-1) * mono(a, b, l, x1, y1, x2, y2, 0, 0, 0, 1, 0, 0, 0) + (-1) * mono(a, b, l, x1, y1, x2, y2, 0, 0, 0, 0, 0, 1, 0)) == (-1) * mono(a, b, l, x1, y1, x2, y2, 3, 0, 0, 0, 0, 0, 0) + 3 * mono(a, b, l, x1, y1, x2, y2, 2, 1, 2, 0, 0, 0, 0) + (-3) * mono(a, b, l, x1, y1, x2, y2, 2, 0, 0, 1, 0, 0, 0) + (-3) * mono(a, b, l, x1, y1, x2, y2, 2, 0, 0, 0, 0, 1, 0) + (-3) * mono(a, b, l, x1, y1, x2, y2, 1, 2, 4, 0, 0, 0, 0) + 6 * mono(a, b, l, x1, y1, x2, y2, 1, 1, 2, 1, 0, 0, 0) + 6 * mono(a, b, l, x1, y1, x2, y2, 1, 1, 2, 0, 0, 1, 0) + (-3) * mono(a, b, l, x1, y1, x2, y2, 1, 0, 0, 2, 0, 0, 0) + (-6) * mono(a, b, l, x1, y1, x2, y2, 1, 0, 0, 1, 0, 1, 0) + (-3) * mono(a, b, l, x1, y1, x2, y2, 1, 0, 0, 0, 0, 2, 0) + 1 * mono(a, b, l, x1, y1, x2, y2, 0, 3, 6, 0, 0, 0, 0) + (-3) * mono(a, b, l, x1, y1, x2, y2, 0, 2, 4, 1, 0, 0, 0) + (-3) * mono(a, b, l, x1, y1, x2, y2, 0, 2, 4, 0, 0, 1, 0) + 3 * mono(a, b, l, x1, y1, x2, y2, 0, 1, 2, 2, 0, 0, 0) + 6 * mono(a, b, l, x1, y1, x2, y2, 0, 1, 2, 1, 0, 1, 0) + 3 * mono(a, b, l, x1, y1, x2, y2, 0, 1, 2, 0, 0, 2, 0) + (-1) * mono(a, b, l, x1, y1, x2, y2, 0, 0, 0, 3, 0, 0, 0) + (-3) * mono(a, b, l, x1, y1, x2, y2, 0, 0, 0, 2, 0, 1, 0) + (-3) * mono(a, b, l, x1, y1, x2, y2, 0, 0, 0, 1, 0, 2, 0) + (-1) * mono(a, b, l, x1, y1, x2, y2, 0, 0, 0, 0, 0, 3, 0));
    assert(((x3 * x3) * x3) == (-1) * mono(a, b, l, x1, y1, x2, y2, 3, 0, 0, 0, 0, 0, 0) + 3 * mono(a, b, l, x1, y1, x2, y2, 2, 1, 2, 0, 0, 0, 0) + (-3) * mono(a, b, l, x1, y1, x2, y2, 2, 0, 0, 1, 0, 0, 0) + (-3) * mono(a, b, l, x1, y1, x2, y2, 2, 0, 0, 0, 0, 1, 0) + (-3) * mono(a, b, l, x1, y1, x2, y2, 1, 2, 4, 0, 0, 0, 0) + 6 * mono(a, b, l, x1, y1, x2, y2, 1, 1, 2, 1, 0, 0, 0) + 6 * mono(a, b, l, x1, y1, x2, y2, 1, 1, 2, 0, 0, 1, 0) + (-3) * mono(a, b, l, x1, y1, x2, y2, 1, 0, 0, 2, 0, 0, 0) + (-6) * mono(a, b, l, x1, y1, x2, y2, 1, 0, 0, 1, 0, 1, 0) + (-3) * mono(a, b, l, x1, y1, x2, y2, 1, 0, 0, 0, 0, 2, 0) + 1 * mono(a, b, l, x1, y1, x2, y2, 0, 3, 6, 0, 0, 0, 0) + (-3) * mono(a, b, l, x1, y1, x2, y2, 0, 2, 4, 1, 0, 0, 0) + (-3) * mono(a, b, l, x1, y1, x2, y2, 0, 2, 4, 0, 0, 1, 0) + 3 * mono(a, b, l, x1, y1, x2, y2, 0, 1, 2, 2, 0, 0, 0) + 6 * mono(a, b, l, x1, y1, x2, y2, 0, 1, 2, 1, 0, 1, 0) + 3 * mono(a, b, l, x1, y1, x2, y2, 0, 1, 2, 0, 0, 2, 0) + (-1) * mono(a, b, l, x1, y1, x2, y2, 0, 0, 0, 3, 0, 0, 0) + (-3) * mono(a, b, l, x1, y1, x2, y2, 0, 0, 0, 2, 0, 1, 0) + (-3) * mono(a, b, l, x1, y1, x2, y2, 0, 0, 0, 1, 0, 2, 0) + (-1) * mono(a, b, l, x1, y1, x2, y2, 0, 0, 0, 0, 0, 3, 0));
    assert((x3 * x3) == 1 * mono(a, b, l, x1, y1, x2, y2, 2, 0, 0, 0, 0, 0, 0) + (-2) * mono(a, b, l, x1, y1, x2, y2, 1, 1, 2, 0, 0, 0, 0) + 2 * mono(a, b, l, x1, y1, x2, y2, 1, 0, 0, 1, 0, 0, 0) + 2 * mono(a, b, l, x1, y1, x2, y2, 1, 0, 0, 0, 0, 1, 0) + 1 * mono(a, b, l, x1, y1, x2, y2, 0, 2, 4, 0, 0, 0, 0) + (-2) * mono(a, b, l, x1, y1, x2, y2, 0, 1, 2, 1, 0, 0, 0) + (-2) * mono(a, b, l, x1, y1, x2, y2, 0, 1, 2, 0, 0, 1, 0) + 1 * mono(a, b, l, x1, y1, x2, y2, 0, 0, 0, 2, 0, 0, 0) + 2 * mono(a, b, l, x1, y1, x2, y2, 0, 0, 0, 1, 0, 1, 0) + 1 * mono(a, b, l, x1, y1, x2, y2, 0, 0, 0, 0, 0, 2, 0));
    lemma_mul_is_distributive_add(1 * mono(a, b, l, x1, y1, x2, y2, 1, 0, 0, 0, 0, 0, 0), 1 * mono(a, b, l, x1, y1, x2, y2, 2, 0, 0, 0, 0, 0, 0), (-2) * mono(a, b, l, x1, y1, x2, y2, 1, 1, 2, 0, 0, 0, 0));
    lemma_mul_is_distributive_add(1 * mono(a, b, l, x1, y1, x2, y2, 1, 0, 0, 0, 0, 0, 0), 1 * mono(a, b, l, x1, y1, x2, y2, 2, 0, 0, 0, 0, 0, 0) + (-2) * mono(a, b, l, x1, y1, x2, y2, 1, 1, 2, 0, 0, 0, 0), 2 * mono(a, b, l, x1, y1, x2, y2, 1, 0, 0, 1, 0, 0, 0));
    lemma_mul_is_distributive_add(1 * mono(a, b, l, x1, y1, x2, y2, 1, 0, 0, 0, 0, 0, 0), 1 * mono(a, b, l, x1, y1, x2, y2, 2, 0, 0, 0, 0, 0, 0) + (-2) * mono(a, b, l, x1, y1, x2, y2, 1, 1, 2, 0, 0, 0, 0) + 2 * mono(a, b, l, x1, y1, x2, y2, 1, 0, 0, 1, 0, 0, 0), 2 * mono(a, b, l, x1, y1, x2, y2, 1, 0, 0, 0, 0, 1, 0));
    lemma_mul_is_distributive_add(1 * mono(a, b, l, x1, y1, x2, y2, 1, 0, 0, 0, 0, 0, 0), 1 * mono(a, b, l, x1, y1, x2, y2, 2, 0, 0, 0, 0, 0, 0) + (-2) * mono(a, b, l, x1, y1, x2, y2, 1, 1, 2, 0, 0, 0, 0) + 2 * mono(a, b, l, x1, y1, x2, y2, 1, 0, 0, 1, 0, 0, 0) + 2 * mono(a, b, l, x1, y1, x2, y2, 1, 0, 0, 0, 0, 1, 0), 1 * mono(a, b, l, x1, y1, x2, y2, 0, 2, 4, 0, 0, 0, 0));
    lemma_mul_is_distributive_add(1 * mono(a, b, l, x1, y1, x2, y2, 1, 0, 0, 0, 0, 0, 0), 1 * mono(a, b, l, x1, y1, x2, y2, 2, 0, 0, 0, 0, 0, 0) + (-2) * mono(a, b, l, x1, y1, x2, y2, 1, 1, 2, 0, 0, 0, 0) + 2 * mono(a, b, l, x1, y1, x2, y2, 1, 0, 0, 1, 0, 0, 0) + 2 * mono(a, b, l, x1, y1, x2, y2, 1, 0, 0, 0, 0, 1, 0) + 1 * mono(a, b, l, x1, y1, x2, y2, 0, 2, 4, 0, 0, 0, 0), (-2) * mono(a, b, l, x1, y1, x2, y2, 0, 1, 2, 1, 0, 0, 0));
    lemma_mul_is_distributive_add(1 * mono(a, b, l, x1, y1, x2, y2, 1, 0, 0, 0, 0, 0, 0), 1 * mono(a, b, l, x1, y1, x2, y2, 2, 0, 0, 0, 0, 0, 0) + (-2) * mono(a, b, l, x1, y1, x2, y2, 1, 1, 2, 0, 0, 0, 0) + 2 * mono(a, b, l, x1, y1, x2, y2, 1, 0, 0, 1, 0, 0, 0) + 2 * mono(a, b, l, x1, y1, x2, y2, 1, 0, 0, 0, 0, 1, 0) + 1 * mono(a, b, l, x1, y1, x2, y2, 0, 2, 4, 0, 0, 0, 0) + (-2) * mono(a, b, l, x1, y1, x2, y2, 0, 1, 2, 1, 0, 0, 0), (-2) * mono(a, b, l, x1, y1, x2, y2, 0, 1, 2, 0, 0, 1, 0));
    lemma_mul_is_distributive_add(1 * mono(a, b, l, x1, y1, x2, y2, 1, 0, 0, 0, 0, 0, 0), 1 * mono(a, b, l, x1, y1, x2, y2, 2, 0, 0, 0, 0, 0, 0) + (-2) * mono(a, b, l, x1, y1, x2, y2, 1, 1, 2, 0, 0, 0, 0) + 2 * mono(a, b, l, x1, y1, x2, y2, 1, 0, 0, 1, 0, 0, 0) + 2 * mono(a, b, l, x1, y1, x2, y2, 1, 0, 0, 0, 0, 1, 0) + 1 * mono(a, b, l, x1, y1, x2, y2, 0, 2, 4, 0, 0, 0, 0) + (-2) * mono(a, b, l, x1, y1, x2, y2, 0, 1, 2, 1, 0, 0, 0) + (-2) * mono(a, b, l, x1, y1, x2, y2, 0, 1, 2, 0, 0, 1, 0), 1 * mono(a, b, l, x1, y1, x2, y2, 0, 0, 0, 2, 0, 0, 0));
    lemma_mul_is_distributive_add(1 * mono(a, b, l, x1, y1, x2, y2, 1, 0, 0, 0, 0, 0, 0), 1 * mono(a, b, l, x1, y1, x2, y2, 2, 0, 0, 0, 0, 0, 0) + (-2) * mono(a, b, l, x1, y1, x2, y2, 1, 1, 2, 0, 0, 0, 0) + 2 * mono(a, b, l, x1, y1, x2, y2, 1, 0, 0, 1, 0, 0, 0) + 2 * mono(a, b, l, x1, y1, x2, y2, 1, 0, 0, 0, 0, 1, 0) + 1 * mono(a, b, l, x1, y1, x2, y2, 0, 2, 4, 0, 0, 0, 0) + (-2) * mono(a, b, l, x1, y1, x2, y2, 0, 1, 2, 1, 0, 0, 0) + (-2) * mono(a, b, l, x1, y1, x2, y2, 0, 1, 2, 0, 0, 1, 0) + 1 * mono(a, b, l, x1, y1, x2, y2, 0, 0, 0, 2, 0, 0, 0), 2 * mono(a, b, l, x1, y1, x2, y2, 0, 0, 0, 1, 0, 1, 0));
    lemma_mul_is_distributive_add(1 * mono(a, b, l, x1, y1, x2, y2, 1, 0, 0, 0, 0, 0, 0), 1 * mono(a, b, l, x1, y1, x2, y2, 2, 0, 0, 0, 0, 0, 0) + (-2) * mono(a, b, l, x1, y1, x2, y2, 1, 1, 2, 0, 0, 0, 0) + 2 * mono(a, b, l, x1, y1, x2, y2, 1, 0, 0, 1, 0, 0, 0) + 2 * mono(a, b, l, x1, y1, x2, y2, 1, 0, 0, 0, 0, 1, 0) + 1 * mono(a, b, l, x1, y1, x2, y2, 0, 2, 4, 0, 0, 0, 0) + (-2) * mono(a, b, l, x1, y1, x2, y2, 0, 1, 2, 1, 0, 0, 0) + (-2) * mono(a, b, l, x1, y1, x2, y2, 0, 1, 2, 0, 0, 1, 0) + 1 * mono(a, b, l, x1, y1, x2, y2, 0, 0, 0, 2, 0, 0, 0) + 2 * mono(a, b, l, x1, y1, x2, y2, 0, 0, 0, 1, 0, 1, 0), 1 * mono(a, b, l, x1, y1, x2, y2, 0, 0, 0, 0, 0, 2, 0));
    lemma_term_mul(a, b, l, x1, y1, x2, y2, 1, 1, 0, 0, 0, 0, 0, 0, 1, 2, 0, 0, 0, 0, 0, 0);
    lemma_term_mul(a, b, l, x1, y1, x2, y2, 1, 1, 0, 0, 0, 0, 0, 0, -2, 1, 1, 2, 0, 0, 0, 0);
    lemma_term_mul(a, b, l, x1, y1, x2, y2, 1, 1, 0, 0, 0, 0, 0, 0, 2, 1, 0, 0, 1, 0, 0, 0);
    lemma_term_mul(a, b, l, x1, y1, x2, y2, 1, 1, 0, 0, 0, 0, 0, 0, 2, 1, 0, 0, 0, 0, 1, 0);
    lemma_term_mul(a, b, l, x1, y1, x2, y2, 1, 1, 0, 0, 0, 0, 0, 0, 1, 0, 2, 4, 0, 0, 0, 0);
    lemma_term_mul(a, b, l, x1, y1, x2, y2, 1, 1, 0, 0, 0, 0, 0, 0, -2, 0, 1, 2, 1, 0, 0, 0);
    lemma_term_mul(a, b, l, x1, y1, x2, y2, 1, 1, 0, 0, 0, 0, 0, 0, -2, 0, 1, 2, 0, 0, 1, 0);
    lemma_term_mul(a, b, l, x1, y1, x2, y2, 1, 1, 0, 0, 0, 0, 0, 0, 1, 0, 0, 0, 2, 0, 0, 0);
    lemma_term_mul(a, b, l, x1, y1, x2, y2, 1, 1, 0, 0, 0, 0, 0, 0, 2, 0, 0, 0, 1, 0, 1, 0);
    lemma_term_mul(a, b, l, x1, y1, x2, y2, 1, 1, 0, 0, 0, 0, 0, 0, 1, 0, 0, 0, 0, 0, 2, 0);
    assert((1 * mono(a, b, l, x1, y1, x2, y2, 1, 0, 0, 0, 0, 0, 0)) * (1 * mono(a, b, l, x1, y1, x2, y2, 2, 0, 0, 0, 0, 0, 0) + (-2) * mono(a, b, l, x1, y1, x2, y2, 1, 1, 2, 0, 0, 0, 0) + 2 * mono(a, b, l, x1, y1, x2, y2, 1, 0, 0, 1, 0, 0, 0) + 2 * mono(a, b, l, x1, y1, x2, y2, 1, 0, 0, 0, 0, 1, 0) + 1 * mono(a, b, l, x1, y1, x2, y2, 0, 2, 4, 0, 0, 0, 0) + (-2) * mono(a, b, l, x1, y1, x2, y2, 0, 1, 2, 1, 0, 0, 0) + (-2) * mono(a, b, l, x1, y1, x2, y2, 0, 1, 2, 0, 0, 1, 0) + 1 * mono(a, b, l, x1, y1, x2, y2, 0, 0, 0, 2, 0, 0, 0) + 2 * mono(a, b, l, x1, y1, x2, y2, 0, 0, 0, 1, 0, 1, 0) + 1 * mono(a, b, l, x1, y1, x2, y2, 0, 0, 0, 0, 0, 2, 0)) == 1 * mono(a, b, l, x1, y1, x2, y2, 3, 0, 0, 0, 0, 0, 0) + (-2) * mono(a, b, l, x1, y1, x2, y2, 2, 1, 2, 0, 0, 0, 0) + 2 * mono(a, b, l, x1, y1, x2, y2, 2, 0, 0, 1, 0, 0, 0) + 2 * mono(a, b, l, x1, y1, x2, y2, 2, 0, 0, 0, 0, 1, 0) + 1 * mono(a, b, l, x1, y1, x2, y2, 1, 2, 4, 0, 0, 0, 0) + (-2) * mono(a, b, l, x1, y1, x2, y2, 1, 1, 2, 1, 0, 0, 0) + (-2) * mono(a, b, l, x1, y1, x2, y2, 1, 1, 2, 0, 0, 1, 0) + 1 * mono(a, b, l, x1, y1, x2, y2, 1, 0, 0, 2, 0, 0, 0) + 2 * mono(a, b, l, x1, y1, x2, y2, 1, 0, 0, 1, 0, 1, 0) + 1 * mono(a, b, l, x1, y1, x2, y2, 1, 0, 0, 0, 0, 2, 0));
    assert((a * (x3 * x3)) == 1 * mono(a, b, l, x1, y1, x2, y2, 3, 0, 0, 0, 0, 0, 0) + (-2) * mono(a, b, l, x1, y1, x2, y2, 2, 1, 2, 0, 0, 0, 0) + 2 * mono(a, b, l, x1, y1, x2, y2, 2, 0, 0, 1, 0, 0, 0) + 2 * mono(a, b, l, x1, y1, x2, y2, 2, 0, 0, 0, 0, 1, 0) + 1 * mono(a, b, l, x1, y1, x2, y2, 1, 2, 4, 0, 0, 0, 0) + (-2) * mono(a, b, l, x1, y1, x2, y2, 1, 1, 2, 1, 0, 0, 0) + (-2) * mono(a, b, l, x1, y1, x2, y2, 1, 1, 2, 0, 0, 1, 0) + 1 * mono(a, b, l, x1, y1, x2, y2, 1, 0, 0, 2, 0, 0, 0) + 2 * mono(a, b, l, x1, y1, x2, y2, 1, 0, 0, 1, 0, 1, 0) + 1 * mono(a, b, l, x1, y1, x2, y2, 1, 0, 0, 0, 0, 2, 0));
    assert((((x3 * x3) * x3) + (a * (x3 * x3))) == 1 * mono(a, b, l, x1, y1, x2, y2, 2, 1, 2, 0, 0, 0, 0) + (-1) * mono(a, b, l, x1, y1, x2, y2, 2, 0, 0, 1, 0, 0, 0) + (-1) * mono(a, b, l, x1, y1, x2, y2, 2, 0, 0, 0, 0, 1, 0) + (-2) * mono(a, b, l, x1, y1, x2, y2, 1, 2, 4, 0, 0, 0, 0) + 4 * mono(a, b, l, x1, y1, x2, y2, 1, 1, 2, 1, 0, 0, 0) + 4 * mono(a, b, l, x1, y1, x2, y2, 1, 1, 2, 0, 0, 1, 0) + (-2) * mono(a, b, l, x1, y1, x2, y2, 1, 0, 0, 2, 0, 0, 0) + (-4) * mono(a, b, l, x1, y1, x2, y2, 1, 0, 0, 1, 0, 1, 0) + (-2) * mono(a, b, l, x1, y1, x2, y2, 1, 0, 0, 0, 0, 2, 0) + 1 * mono(a, b, l, x1, y1, x2, y2, 0, 3, 6, 0, 0, 0, 0) + (-3) * mono(a, b, l, x1, y1, x2, y2, 0, 2, 4, 1, 0, 0, 0) + (-3) * mono(a, b, l, x1, y1, x2, y2, 0, 2, 4, 0, 0, 1, 0) + 3 * mono(a, b, l, x1, y1, x2, y2, 0, 1, 2, 2, 0, 0, 0) + 6 * mono(a, b, l, x1, y1, x2, y2, 0, 1, 2, 1, 0, 1, 0) + 3 * mono(a, b, l, x1, y1, x2, y2, 0, 1, 2, 0, 0, 2, 0) + (-1) * mono(a, b, l, x1, y1, x2, y2, 0, 0, 0, 3, 0, 0, 0) + (-3) * mono(a, b, l, x1, y1, x2, y2, 0, 0, 0, 2, 0, 1, 0) + (-3) * mono(a, b, l, x1, y1, x2, y2, 0, 0, 0, 1, 0, 2, 0) + (-1) * mono(a, b, l, x1, y1, x2, y2, 0, 0, 0, 0, 0, 3, 0));
    assert(((((x3 * x3) * x3) + (a * (x3 * x3))) + x3) == 1 * mono(a, b, l, x1, y1, x2, y2, 2, 1, 2, 0, 0, 0, 0) + (-1) * mono(a, b, l, x1, y1, x2, y2, 2, 0, 0, 1, 0, 0, 0) + (-1) * mono(a, b, l, x1, y1, x2, y2, 2, 0, 0, 0, 0, 1, 0) + (-2) * mono(a, b, l, x1, y1, x2, y2, 1, 2, 4, 0, 0, 0, 0) + 4 * mono(a, b, l, x1, y1, x2, y2, 1, 1, 2, 1, 0, 0, 0) + 4 * mono(a, b, l, x1, y1, x2, y2, 1, 1, 2, 0, 0, 1, 0) + (-2) * mono(a, b, l, x1, y1, x2, y2, 1, 0, 0, 2, 0, 0, 0) + (-4) * mono(a, b, l, x1, y1, x2, y2, 1, 0, 0, 1, 0, 1, 0) + (-2) * mono(a, b, l, x1, y1, x2, y2, 1, 0, 0, 0, 0, 2, 0) + (-1) * mono(a, b, l, x1, y1, x2, y2, 1, 0, 0, 0, 0, 0, 0) + 1 * mono(a, b, l, x1, y1, x2, y2, 0, 3, 6, 0, 0, 0, 0) + (-3) * mono(a, b, l, x1, y1, x2, y2, 0, 2, 4, 1, 0, 0, 0) + (-3) * mono(a, b, l, x1, y1, x2, y2, 0, 2, 4, 0, 0, 1, 0) + 3 * mono(a, b, l, x1, y1, x2, y2, 0, 1, 2, 2, 0, 0, 0) + 6 * mono(a, b, l, x1, y1, x2, y2, 0, 1, 2, 1, 0, 1, 0) + 3 * mono(a, b, l, x1, y1, x2, y2, 0, 1, 2, 0, 0, 2, 0) + 1 * mono(a, b, l, x1, y1, x2, y2, 0, 1, 2, 0, 0, 0, 0) + (-1) * mono(a, b, l, x1, y1, x2, y2, 0, 0, 0, 3, 0, 0, 0) + (-3) * mono(a, b, l, x1, y1, x2, y2, 0, 0, 0, 2, 0, 1, 0) + (-3) * mono(a, b, l, x1, y1, x2, y2, 0, 0, 0, 1, 0, 2, 0) + (-1) * mono(a, b, l, x1, y1, x2, y2, 0, 0, 0, 1, 0, 0, 0) + (-1) * mono(a, b, l, x1, y1, x2, y2, 0, 0, 0, 0, 0, 3, 0) + (-1) * mono(a, b, l, x1, y1, x2, y2, 0, 0, 0, 0, 0, 1, 0));
    assert(((b * (y3 * y3)) - ((((x3 * x3) * x3) + (a * (x3 * x3))) + x3)) == 1 * mono(a, b, l, x1, y1, x2, y2, 2, 0, 0, 1, 0, 0, 0) + 1 * mono(a, b, l, x1, y1, x2, y2, 2, 0, 0, 0, 0, 1, 0) + (-2) * mono(a, b, l, x1, y1, x2, y2, 1, 1, 2, 0, 0, 1, 0) + (-2) * mono(a, b, l, x1, y1, x2, y2, 1, 1, 1, 0, 1, 0, 0) + 2 * mono(a, b, l, x1, y1, x2, y2, 1, 0, 0, 2, 0, 0, 0) + 4 * mono(a, b, l, x1, y1, x2, y2, 1, 0, 0, 1, 0, 1, 0) + 2 * mono(a, b, l, x1, y1, x2, y2, 1, 0, 0, 0, 0, 2, 0) + 1 * mono(a, b, l, x1, y1, x2, y2, 1, 0, 0, 0, 0, 0, 0) + (-1) * mono(a, b, l, x1, y1, x2, y2, 0, 2, 4, 1, 0, 0, 0) + 1 * mono(a, b, l, x1, y1, x2, y2, 0, 2, 4, 0, 0, 1, 0) + 2 * mono(a, b, l, x1, y1, x2, y2, 0, 2, 3, 0, 1, 0, 0) + 1 * mono(a, b, l, x1, y1, x2, y2, 0, 1, 2, 2, 0, 0, 0) + (-2) * mono(a, b, l, x1, y1, x2, y2, 0, 1, 2, 1, 0, 1, 0) + (-2) * mono(a, b, l, x1, y1, x2, y2, 0, 1, 2, 0, 0, 2, 0) + (-1) * mono(a, b, l, x1, y1, x2, y2, 0, 1, 2, 0, 0, 0, 0) + (-4) * mono(a, b, l, x1, y1, x2, y2, 0, 1, 1, 1, 1, 0, 0) + (-2) * mono(a, b, l, x1, y1, x2, y2, 0, 1, 1, 0, 1, 1, 0) + 1 * mono(a, b, l, x1, y1, x2, y2, 0, 1, 0, 0, 2, 0, 0) + 1 * mono(a, b, l, x1, y1, x2, y2, 0, 0, 0, 3, 0, 0, 0) + 3 * mono(a, b, l, x1, y1, x2, y2, 0, 0, 0, 2, 0, 1, 0) + 3 * mono(a, b, l, x1, y1, x2, y2, 0, 0, 0, 1, 0, 2, 0) + 1 * mono(a, b, l, x1, y1, x2, y2, 0, 0, 0, 1, 0, 0, 0) + 1 * mono(a, b, l, x1, y1, x2, y2, 0, 0, 0, 0, 0, 3, 0) + 1 * mono(a, b, l, x1, y1, x2, y2, 0, 0, 0, 0, 0, 1, 0));
    assert((x2 - x1) == (-1) * mono(a, b, l, x1, y1, x2, y2, 0, 0, 0, 1, 0, 0, 0) + 1 * mono(a, b, l, x1, y1, x2, y2, 0, 0, 0, 0, 0, 1, 0));
    lemma_mul_is_distributive_add_other_way(((-1) * mono(a, b, l, x1, y1, x2, y2, 0, 0, 0, 1, 0, 0, 0) + 1 * mono(a, b, l, x1, y1, x2, y2, 0, 0, 0, 0, 0, 1, 0)), 1 * mono(a, b, l, x1, y1, x2, y2, 2, 0, 0, 1, 0, 0, 0), 1 * mono(a, b, l, x1, y1, x2, y2, 2, 0, 0, 0, 0, 1, 0));
    lemma_mul_is_distributive_add_other_way(((-1) * mono(a, b, l, x1, y1, x2, y2, 0, 0, 0, 1, 0, 0, 0) + 1 * mono(a, b, l, x1, y1, x2, y2, 0, 0, 0, 0, 0, 1, 0)), 1 * mono(a, b, l, x1, y1, x2, y2, 2, 0, 0, 1, 0, 0, 0) + 1 * mono(a, b, l, x1, y1, x2, y2, 2, 0, 0, 0, 0, 1, 0), (-2) * mono(a, b, l, x1, y1, x2, y2, 1, 1, 2, 0, 0, 1, 0));
    lemma_mul_is_distributive_add_other_way(((-1) * mono(a, b, l, x1, y1, x2, y2, 0, 0, 0, 1, 0, 0, 0) + 1 * mono(a, b, l, x1, y1, x2, y2, 0, 0, 0, 0, 0, 1, 0)), 1 * mono(a, b, l, x1, y1, x2, y2, 2, 0, 0, 1, 0, 0, 0) + 1 * mono(a, b, l, x1, y1, x2, y2, 2, 0, 0, 0, 0, 1, 0) + (-2) * mono(a, b, l, x1, y1, x2, y2, 1, 1, 2, 0, 0, 1, 0), (-2) * mono(a, b, l, x1, y1, x2, y2, 1, 1, 1, 0, 1, 0, 0));
    lemma_mul_is_distributive_add_other_way(((-1) * mono(a, b, l, x1, y1, x2, y2, 0, 0, 0, 1, 0, 0, 0) + 1 * mono(a, b, l, x1, y1, x2, y2, 0, 0, 0, 0, 0, 1, 0)), 1 * mono(a, b, l, x1, y1, x2, y2, 2, 0, 0, 1, 0, 0, 0) + 1 * mono(a, b, l, x1, y1, x2, y2, 2, 0, 0, 0, 0, 1, 0) + (-2) * mono(a, b, l, x1, y1, x2, y2, 1, 1, 2, 0, 0, 1, 0) + (-2) * mono(a, b, l, x1, y1, x2, y2, 1, 1, 1, 0, 1, 0, 0), 2 * mono(a, b, l, x1, y1, x2, y2, 1, 0, 0, 2, 0, 0, 0));
    lemma_mul_is_distributive_add_other_way(((-1) * mono(a, b, l, x1, y1, x2, y2, 0, 0, 0, 1, 0, 0, 0) + 1 * mono(a, b, l, x1, y1, x2, y2, 0, 0, 0, 0, 0, 1, 0)), 1 * mono(a, b, l, x1, y1, x2, y2, 2, 0, 0, 1, 0, 0, 0) + 1 * mono(a, b, l, x1, y1, x2, y2, 2, 0, 0, 0, 0, 1, 0) + (-2) * mono(a, b, l, x1, y1, x2, y2, 1, 1, 2, 0, 0, 1, 0) + (-2) * mono(a, b, l, x1, y1, x2, y2, 1, 1, 1, 0, 1, 0, 0) + 2 * mono(a, b, l, x1, y1, x2, y2, 1, 0, 0, 2, 0, 0, 0), 4 * mono(a, b, l, x1, y1, x2, y2, 1, 0, 0, 1, 0, 1, 0));
    lemma_mul_is_distributive_add_other_way(((-1) * mono(a, b, l, x1, y1, x2, y2, 0, 0, 0, 1, 0, 0, 0) + 1 * mono(a, b, l, x1, y1, x2, y2, 0, 0, 0, 0, 0, 1, 0)), 1 * mono(a, b, l, x1, y1, x2, y2, 2, 0, 0, 1, 0, 0, 0) + 1 * mono(a, b, l, x1, y1, x2, y2, 2, 0, 0, 0, 0, 1, 0) + (-2) * mono(a, b, l, x1, y1, x2, y2, 1, 1, 2, 0, 0, 1, 0) + (-2) * mono(a, b, l, x1, y1, x2, y2, 1, 1, 1, 0, 1, 0, 0) + 2 * mono(a, b, l, x1, y1, x2, y2, 1, 0, 0, 2, 0, 0, 0) + 4 * mono(a, b, l, x1, y1, x2, y2, 1, 0, 0, 1, 0, 1, 0), 2 * mono(a, b, l, x1, y1, x2, y2, 1, 0, 0, 0, 0, 2, 0));
    lemma_mul_is_distributive_add_other_way(((-1) * mono(a, b, l, x1, y1, x2, y2, 0, 0, 0, 1, 0, 0, 0) + 1 * mono(a, b, l, x1, y1, x2, y2, 0, 0, 0, 0, 0, 1, 0)), 1 * mono(a, b, l, x1, y1, x2, y2, 2, 0, 0, 1, 0, 0, 0) + 1 * mono(a, b, l, x1, y1, x2, y2, 2, 0, 0, 0, 0, 1, 0) + (-2) * mono(a, b, l, x1, y1, x2, y2, 1, 1, 2, 0, 0, 1, 0) + (-2) * mono(a, b, l, x1, y1, x2, y2, 1, 1, 1, 0, 1, 0, 0) + 2 * mono(a, b, l, x1, y1, x2, y2, 1, 0, 0, 2, 0, 0, 0) + 4 * mono(a, b, l, x1, y1, x2, y2, 1, 0, 0, 1, 0, 1, 0) + 2 * mono(a, b, l, x1, y1, x2, y2, 1, 0, 0, 0, 0, 2, 0), 1 * mono(a, b, l, x1, y1, x2, y2, 1, 0, 0, 0, 0, 0, 0));
    lemma_mul_is_distributive_add_other_way(((-1) * mono(a, b, l, x1, y1, x2, y2, 0, 0, 0, 1, 0, 0, 0) + 1 * mono(a, b, l, x1, y1, x2, y2, 0, 0, 0, 0, 0, 1, 0)), 1 * mono(a, b, l, x1, y1, x2, y2, 2, 0, 0, 1, 0, 0, 0) + 1 * mono(a, b, l, x1, y1, x2, y2, 2, 0, 0, 0, 0, 1, 0) + (-2) * mono(a, b, l, x1, y1, x2, y2, 1, 1, 2, 0, 0, 1, 0) + (-2) * mono(a, b, l, x1, y1, x2, y2, 1, 1, 1, 0, 1, 0, 0) + 2 * mono(a, b, l, x1, y1, x2, y2, 1, 0, 0, 2, 0, 0, 0) + 4 * mono(a, b, l, x1, y1, x2, y2, 1, 0, 0, 1, 0, 1, 0) + 2 * mono(a, b, l, x1, y1, x2, y2, 1, 0, 0, 0, 0, 2, 0) + 1 * mono(a, b, l, x1, y1, x2, y2, 1, 0, 0, 0, 0, 0, 0), (-1) * mono(a, b, l, x1, y1, x2, y2, 0, 2, 4, 1, 0, 0, 0));
    lemma_mul_is_distributive_add_other_way(((-1) * mono(a, b, l, x1, y1, x2, y2, 0, 0, 0, 1, 0, 0, 0) + 1 * mono(a, b, l, x1, y1, x2, y2, 0, 0, 0, 0, 0, 1, 0)), 1 * mono(a, b, l, x1, y1, x2, y2, 2, 0, 0, 1, 0, 0, 0) + 1 * mono(a, b, l, x1, y1, x2, y2, 2, 0, 0, 0, 0, 1, 0) + (-2) * mono(a, b, l, x1, y1, x2, y2, 1, 1, 2, 0, 0, 1, 0) + (-2) * mono(a, b, l, x1, y1, x2, y2, 1, 1, 1, 0, 1, 0, 0) + 2 * mono(a, b, l, x1, y1, x2, y2, 1, 0, 0, 2, 0, 0, 0) + 4 * mono(a, b, l, x1, y1, x2, y2, 1, 0, 0, 1, 0, 1, 0) + 2 * mono(a, b, l, x1, y1, x2, y2, 1, 0, 0, 0, 0, 2, 0) + 1 * mono(a, b, l, x1, y1, x2, y2, 1, 0, 0, 0, 0, 0, 0) + (-1) * mono(a, b, l, x1, y1, x2, y2, 0, 2, 4, 1, 0, 0, 0), 1 * mono(a, b, l, x1, y1, x2, y2, 0, 2, 4, 0, 0, 1, 0));
    lemma_mul_is_distributive_add_other_way(((-1) * mono(a, b, l, x1, y1, x2, y2, 0, 0, 0, 1, 0, 0, 0) + 1 * mono(a, b, l, x1, y1, x2, y2, 0, 0, 0, 0, 0, 1, 0)), 1 * mono(a, b, l, x1, y1, x2, y2, 2, 0, 0, 1, 0, 0, 0) + 1 * mono(a, b, l, x1, y1, x2, y2, 2, 0, 0, 0, 0, 1, 0) + (-2) * mono(a, b, l, x1, y1, x2, y2, 1, 1, 2, 0, 0, 1, 0) + (-2) * mono(a, b, l, x1, y1, x2, y2, 1, 1, 1, 0, 1, 0, 0) + 2 * mono(a, b, l, x1, y1, x2, y2, 1, 0, 0, 2, 0, 0, 0) + 4 * mono(a, b, l, x1, y1, x2, y2, 1, 0, 0, 1, 0, 1, 0) + 2 * mono(a, b, l, x1, y1, x2, y2, 1, 0, 0, 0, 0, 2, 0) + 1 * mono(a, b, l, x1, y1, x2, y2, 1, 0, 0, 0, 0, 0, 0) + (-1) * mono(a, b, l, x1, y1, x2, y2, 0, 2, 4, 1, 0, 0, 0) + 1 * mono(a, b, l, x1, y1, x2, y2, 0, 2, 4, 0, 0, 1, 0), 2 * mono(a, b, l, x1, y1, x2, y2, 0, 2, 3, 0, 1, 0, 0));
    lemma_mul_is_distributive_add_other_way(((-1) * mono(a, b, l, x1, y1, x2, y2, 0, 0, 0, 1, 0, 0, 0) + 1 * mono(a, b, l, x1, y1, x2, y2, 0, 0, 0, 0, 0, 1, 0)), 1 * mono(a, b, l, x1, y1, x2, y2, 2, 0, 0, 1, 0, 0, 0) + 1 * mono(a, b, l, x1, y1, x2, y2, 2, 0, 0, 0, 0, 1, 0) + (-2) * mono(a, b, l, x1, y1, x2, y2, 1, 1, 2, 0, 0, 1, 0) + (-2) * mono(a, b, l, x1, y1, x2, y2, 1, 1, 1, 0, 1, 0, 0) + 2 * mono(a, b, l, x1, y1, x2, y2, 1, 0, 0, 2, 0, 0, 0) + 4 * mono(a, b, l, x1, y1, x2, y2, 1, 0, 0, 1, 0, 1, 0) + 2 * mono(a, b, l, x1, y1, x2, y2, 1, 0, 0, 0, 0, 2, 0) + 1 * mono(a, b, l, x1, y1, x2, y2, 1, 0, 0, 0, 0, 0, 0) + (-1) * mono(a, b, l, x1, y1, x2, y2, 0, 2, 4, 1, 0, 0, 0) + 1 * mono(a, b, l, x1, y1, x2, y2, 0, 2, 4, 0, 0, 1, 0) + 2 * mono(a, b, l, x1, y1, x2, y2, 0, 2, 3, 0, 1, 0, 0), 1 * mono(a, b, l, x1, y1, x2, y2, 0, 1, 2, 2, 0, 0, 0));
    lemma_mul_is_distributive_add_other_way(((-1) * mono(a, b, l, x1, y1, x2, y2, 0, 0, 0, 1, 0, 0, 0) + 1 * mono(a, b, l, x1, y1, x2, y2, 0, 0, 0, 0, 0, 1, 0)), 1 * mono(a, b, l, x1, y1, x2, y2, 2, 0, 0, 1, 0, 0, 0) + 1 * mono(a, b, l, x1, y1, x2, y2, 2, 0, 0, 0, 0, 1, 0) + (-2) * mono(a, b, l, x1, y1, x2, y2, 1, 1, 2, 0, 0, 1, 0) + (-2) * mono(a, b, l, x1, y1, x2, y2, 1, 1, 1, 0, 1, 0, 0) + 2 * mono(a, b, l, x1, y1, x2, y2, 1, 0, 0, 2, 0, 0, 0) + 4 * mono(a, b, l, x1, y1, x2, y2, 1, 0, 0, 1, 0, 1, 0) + 2 * mono(a, b, l, x1, y1, x2, y2, 1, 0, 0, 0, 0, 2, 0) + 1 * mono(a, b, l, x1, y1, x2, y2, 1, 0, 0, 0, 0, 0, 0) + (-1) * mono(a, b, l, x1, y1, x2, y2, 0, 2, 4, 1, 0, 0, 0) + 1 * mono(a, b, l, x1, y1, x2, y2, 0, 2, 4, 0, 0, 1, 0) + 2 * mono(a, b, l, x1, y1, x2, y2, 0, 2, 3, 0, 1, 0, 0) + 1 * mono(a, b, l, x1, y1, x2, y2, 0, 1, 2, 2, 0, 0, 0), (-2) * mono(a, b, l, x1, y1, x2, y2, 0, 1, 2, 1, 0, 1, 0));
    lemma_mul_is_distributive_add_other_way(((-1) * mono(a, b, l, x1, y1, x2, y2, 0, 0, 0, 1, 0, 0, 0) + 1 * mono(a, b, l, x1, y1, x2, y2, 0, 0, 0, 0, 0, 1, 0)), 1 * mono(a, b, l, x1, y1, x2, y2, 2, 0, 0, 1, 0, 0, 0) + 1 * mono(a, b, l, x1, y1, x2, y2, 2, 0, 0, 0, 0, 1, 0) + (-2) * mono(a, b, l, x1, y1, x2, y2, 1, 1, 2, 0, 0, 1, 0) + (-2) * mono(a, b, l, x1, y1, x2, y2, 1, 1, 1, 0, 1, 0, 0) + 2 * mono(a, b, l, x1, y1, x2, y2, 1, 0, 0, 2, 0, 0, 0) + 4 * mono(a, b, l, x1, y1, x2, y2, 1, 0, 0, 1, 0, 1, 0) + 2 * mono(a, b, l, x1, y1, x2, y2, 1, 0, 0, 0, 0, 2, 0) + 1 * mono(a, b, l, x1, y1, x2, y2, 1, 0, 0, 0, 0, 0, 0) + (-1) * mono(a, b, l, x1, y1, x2, y2, 0, 2, 4, 1, 0, 0, 0) + 1 * mono(a, b, l, x1, y1, x2, y2, 0, 2, 4, 0, 0, 1, 0) + 2 * mono(a, b, l, x1, y1, x2, y2, 0, 2, 3, 0, 1, 0, 0) + 1 * mono(a, b, l, x1, y1, x2, y2, 0, 1, 2, 2, 0, 0, 0) + (-2) * mono(a, b, l, x1, y1, x2, y2, 0, 1, 2, 1, 0, 1, 0), (-2) * mono(a, b, l, x1, y1, x2, y2, 0, 1, 2, 0, 0, 2, 0));
    lemma_mul_is_distributive_add_other_way(((-1) * mono(a, b, l, x1, y1, x2, y2, 0, 0, 0, 1, 0, 0, 0) + 1 * mono(a, b, l, x1, y1, x2, y2, 0, 0, 0, 0, 0, 1, 0)), 1 * mono(a, b, l, x1, y1, x2, y2, 2, 0, 0, 1, 0, 0, 0) + 1 * mono(a, b, l, x1, y1, x2, y2, 2, 0, 0, 0, 0, 1, 0) + (-2) * mono(a, b, l, x1, y1, x2, y2, 1, 1, 2, 0, 0, 1, 0) + (-2) * mono(a, b, l, x1, y1, x2, y2, 1, 1, 1, 0, 1, 0, 0) + 2 * mono(a, b, l, x1, y1, x2, y2, 1, 0, 0, 2, 0, 0, 0) + 4 * mono(a, b, l, x1, y1, x2, y2, 1, 0, 0, 1, 0, 1, 0) + 2 * mono(a, b, l, x1, y1, x2, y2, 1, 0, 0, 0, 0, 2, 0) + 1 * mono(a, b, l, x1, y1, x2, y2, 1, 0, 0, 0, 0, 0, 0) + (-1) * mono(a, b, l, x1, y1, x2, y2, 0, 2, 4, 1, 0, 0, 0) + 1 * mono(a, b, l, x1, y1, x2, y2, 0, 2, 4, 0, 0, 1, 0) + 2 * mono(a, b, l, x1, y1, x2, y2, 0, 2, 3, 0, 1, 0, 0) + 1 * mono(a, b, l, x1, y1, x2, y2, 0, 1, 2, 2, 0, 0, 0) + (-2) * mono(a, b, l, x1, y1, x2, y2, 0, 1, 2, 1, 0, 1, 0) + (-2) * mono(a, b, l, x1, y1, x2, y2, 0, 1, 2, 0, 0, 2, 0), (-1) * mono(a, b, l, x1, y1, x2, y2, 0, 1, 2, 0, 0, 0, 0));
    lemma_mul_is_distributive_add_other_way(((-1) * mono(a, b, l, x1, y1, x2, y2, 0, 0, 0, 1, 0, 0, 0) + 1 * mono(a, b, l, x1, y1, x2, y2, 0, 0, 0, 0, 0, 1, 0)), 1 * mono(a, b, l, x1, y1, x2, y2, 2, 0, 0, 1, 0, 0, 0) + 1 * mono(a, b, l, x1, y1, x2, y2, 2, 0, 0, 0, 0, 1, 0) + (-2) * mono(a, b, l, x1, y1, x2, y2, 1, 1, 2, 0, 0, 1, 0) + (-2) * mono(a, b, l, x1, y1, x2, y2, 1, 1, 1, 0, 1, 0, 0) + 2 * mono(a, b, l, x1, y1, x2, y2, 1, 0, 0, 2, 0, 0, 0) + 4 * mono(a, b, l, x1, y1, x2, y2, 1, 0, 0, 1, 0, 1, 0) + 2 * mono(a, b, l, x1, y1, x2, y2, 1, 0, 0, 0, 0, 2, 0) + 1 * mono(a, b, l, x1, y1, x2, y2, 1, 0, 0, 0, 0, 0, 0) + (-1) * mono(a, b, l, x1, y1, x2, y2, 0, 2, 4, 1, 0, 0, 0) + 1 * mono(a, b, l, x1, y1, x2, y2, 0, 2, 4, 0, 0, 1, 0) + 2 * mono(a, b, l, x1, y1, x2, y2, 0, 2, 3, 0, 1, 0, 0) + 1 * mono(a, b, l, x1, y1, x2, y2, 0, 1, 2, 2, 0, 0, 0) + (-2) * mono(a, b, l, x1, y1, x2, y2, 0, 1, 2, 1, 0, 1, 0) + (-2) * mono(a, b, l, x1, y1, x2, y2, 0, 1, 2, 0, 0, 2, 0) + (-1) * mono(a, b, l, x1, y1, x2, y2, 0, 1, 2, 0, 0, 0, 0), (-4) * mono(a, b, l, x1, y1, x2, y2, 0, 1, 1, 1, 1, 0, 0));
    lemma_mul_is_distributive_add_other_way(((-1) * mono(a, b, l, x1, y1, x2, y2, 0, 0, 0, 1, 0, 0, 0) + 1 * mono(a, b, l, x1, y1, x2, y2, 0, 0, 0, 0, 0, 1, 0)), 1 * mono(a, b, l, x1, y1, x2, y2, 2, 0, 0, 1, 0, 0, 0) + 1 * mono(a, b, l, x1, y1, x2, y2, 2, 0, 0, 0, 0, 1, 0) + (-2) * mono(a, b, l, x1, y1, x2, y2, 1, 1, 2, 0, 0, 1, 0) + (-2) * mono(a, b, l, x1, y1, x2, y2, 1, 1, 1, 0, 1, 0, 0) + 2 * mono(a, b, l, x1, y1, x2, y2, 1, 0, 0, 2, 0, 0, 0) + 4 * mono(a, b, l, x1, y1, x2, y2, 1, 0, 0, 1, 0, 1, 0) + 2 * mono(a, b, l, x1, y1, x2, y2, 1, 0, 0, 0, 0, 2, 0) + 1 * mono(a, b, l, x1, y1, x2, y2, 1, 0, 0, 0, 0, 0, 0) + (-1) * mono(a, b, l, x1, y1, x2, y2, 0, 2, 4, 1, 0, 0, 0) + 1 * mono(a, b, l, x1, y1, x2, y2, 0, 2, 4, 0, 0, 1, 0) + 2 * mono(a, b, l, x1, y1, x2, y2, 0, 2, 3, 0, 1, 0, 0) + 1 * mono(a, b, l, x1, y1, x2, y2, 0, 1, 2, 2, 0, 0, 0) + (-2) * mono(a, b, l, x1, y1, x2, y2, 0, 1, 2, 1, 0, 1, 0) + (-2) * mono(a, b, l, x1, y1, x2, y2, 0, 1, 2, 0, 0, 2, 0) + (-1) * mono(a, b, l, x1, y1, x2, y2, 0, 1, 2, 0, 0, 0, 0) + (-4) * mono(a, b, l, x1, y1, x2, y2, 0, 1, 1, 1, 1, 0, 0), (-2) * mono(a, b, l, x1, y1, x2, y2, 0, 1, 1, 0, 1, 1, 0));
    lemma_mul_is_distributive_add_other_way(((-1) * mono(a, b, l, x1, y1, x2, y2, 0, 0, 0, 1, 0, 0, 0) + 1 * mono(a, b, l, x1, y1, x2, y2, 0, 0, 0, 0, 0, 1, 0)), 1 * mono(a, b, l, x1, y1, x2, y2, 2, 0, 0, 1, 0, 0, 0) + 1 * mono(a, b, l, x1, y1, x2, y2, 2, 0, 0, 0, 0, 1, 0) + (-2) * mono(a, b, l, x1, y1, x2, y2, 1, 1, 2, 0, 0, 1, 0) + (-2) * mono(a, b, l, x1, y1, x2, y2, 1, 1, 1, 0, 1, 0, 0) + 2 * mono(a, b, l, x1, y1, x2, y2, 1, 0, 0, 2, 0, 0, 0) + 4 * mono(a, b, l, x1, y1, x2, y2, 1, 0, 0, 1, 0, 1, 0) + 2 * mono(a, b, l, x1, y1, x2, y2, 1, 0, 0, 0, 0, 2, 0) + 1 * mono(a, b, l, x1, y1, x2, y2, 1, 0, 0, 0, 0, 0, 0) + (-1) * mono(a, b, l, x1, y1, x2, y2, 0, 2, 4, 1, 0, 0, 0) + 1 * mono(a, b, l, x1, y1, x2, y2, 0, 2, 4, 0, 0, 1, 0) + 2 * mono(a, b, l, x1, y1, x2, y2, 0, 2, 3, 0, 1, 0, 0) + 1 * mono(a, b, l, x1, y1, x2, y2, 0, 1, 2, 2, 0, 0, 0) + (-2) * mono(a, b, l, x1, y1, x2, y2, 0, 1, 2, 1, 0, 1, 0) + (-2) * mono(a, b, l, x1, y1, x2, y2, 0, 1, 2, 0, 0, 2, 0) + (-1) * mono(a, b, l, x1, y1, x2, y2, 0, 1, 2, 0, 0, 0, 0) + (-4) * mono(a, b, l, x1, y1, x2, y2, 0, 1, 1, 1, 1, 0, 0) + (-2) * mono(a, b, l, x1, y1, x2, y2, 0, 1, 1, 0, 1, 1, 0), 1 * mono(a, b, l, x1, y1, x2, y2, 0, 1, 0, 0, 2, 0, 0));
    lemma_mul_is_distributive_add_other_way(((-1) * mono(a, b, l, x1, y1, x2, y2, 0, 0, 0, 1, 0, 0, 0) + 1 * mono(a, b, l, x1, y1, x2, y2, 0, 0, 0, 0, 0, 1, 0)), 1 * mono(a, b, l, x1, y1, x2, y2, 2, 0, 0, 1, 0, 0, 0) + 1 * mono(a, b, l, x1, y1, x2, y2, 2, 0, 0, 0, 0, 1, 0) + (-2) * mono(a, b, l, x1, y1, x2, y2, 1, 1, 2, 0, 0, 1, 0) + (-2) * mono(a, b, l, x1, y1, x2, y2, 1, 1, 1, 0, 1, 0, 0) + 2 * mono(a, b, l, x1, y1, x2, y2, 1, 0, 0, 2, 0, 0, 0) + 4 * mono(a, b, l, x1, y1, x2, y2, 1, 0, 0, 1, 0, 1, 0) + 2 * mono(a, b, l, x1, y1, x2, y2, 1, 0, 0, 0, 0, 2, 0) + 1 * mono(a, b, l, x1, y1, x2, y2, 1, 0, 0, 0, 0, 0, 0) + (-1) * mono(a, b, l, x1, y1, x2, y2, 0, 2, 4, 1, 0, 0, 0) + 1 * mono(a, b, l, x1, y1, x2, y2, 0, 2, 4, 0, 0, 1, 0) + 2 * mono(a, b, l, x1, y1, x2, y2, 0, 2, 3, 0, 1, 0, 0) + 1 * mono(a, b, l, x1, y1, x2, y2, 0, 1, 2, 2, 0, 0, 0) + (-2) * mono(a, b, l, x1, y1, x2, y2, 0, 1, 2, 1, 0, 1, 0) + (-2) * mono(a, b, l, x1, y1, x2, y2, 0, 1, 2, 0, 0, 2, 0) + (-1) * mono(a, b, l, x1, y1, x2, y2, 0, 1, 2, 0, 0, 0, 0) + (-4) * mono(a, b, l, x1, y1, x2, y2, 0, 1, 1, 1, 1, 0, 0) + (-2) * mono(a, b, l, x1, y1, x2, y2, 0, 1, 1, 0, 1, 1, 0) + 1 * mono(a, b, l, x1, y1, x2, y2, 0, 1, 0, 0, 2, 0, 0), 1 * mono(a, b, l, x1, y1, x2, y2, 0, 0, 0, 3, 0, 0, 0));
    lemma_mul_is_distributive_add_other_way(((-1) * mono(a, b, l, x1, y1, x2, y2, 0, 0, 0, 1, 0, 0, 0) + 1 * mono(a, b, l, x1, y1, x2, y2, 0, 0, 0, 0, 0, 1, 0)), 1 * mono(a, b, l, x1, y1, x2, y2, 2, 0, 0, 1, 0, 0, 0) + 1 * mono(a, b, l, x1, y1, x2, y2, 2, 0, 0, 0, 0, 1, 0) + (-2) * mono(a, b, l, x1, y1, x2, y2, 1, 1, 2, 0, 0, 1, 0) + (-2) * mono(a, b, l, x1, y1, x2, y2, 1, 1, 1, 0, 1, 0, 0) + 2 * mono(a, b, l, x1, y1, x2, y2, 1, 0, 0, 2, 0, 0, 0) + 4 * mono(a, b, l, x1, y1, x2, y2, 1, 0, 0, 1, 0, 1, 0) + 2 * mono(a, b, l, x1, y1, x2, y2, 1, 0, 0, 0, 0, 2, 0) + 1 * mono(a, b, l, x1, y1, x2, y2, 1, 0, 0, 0, 0, 0, 0) + (-1) * mono(a, b, l, x1, y1, x2, y2, 0, 2, 4, 1, 0, 0, 0) + 1 * mono(a, b, l, x1, y1, x2, y2, 0, 2, 4, 0, 0, 1, 0) + 2 * mono(a, b, l, x1, y1, x2, y2, 0, 2, 3, 0, 1, 0, 0) + 1 * mono(a, b, l, x1, y1, x2, y2, 0, 1, 2, 2, 0, 0, 0) + (-2) * mono(a, b, l, x1, y1, x2, y2, 0, 1, 2, 1, 0, 1, 0) + (-2) * mono(a, b, l, x1, y1, x2, y2, 0, 1, 2, 0, 0, 2, 0) + (-1) * mono(a, b, l, x1, y1, x2, y2, 0, 1, 2, 0, 0, 0, 0) + (-4) * mono(a, b, l, x1, y1, x2, y2, 0, 1, 1, 1, 1, 0, 0) + (-2) * mono(a, b, l, x1, y1, x2, y2, 0, 1, 1, 0, 1, 1, 0) + 1 * mono(a, b, l, x1, y1, x2, y2, 0, 1, 0, 0, 2, 0, 0) + 1 * mono(a, b, l, x1, y1, x2, y2, 0, 0, 0, 3, 0, 0, 0), 3 * mono(a, b, l, x1, y1, x2, y2, 0, 0, 0, 2, 0, 1, 0));
    lemma_mul_is_distributive_add_other_way(((-1) * mono(a, b, l, x1, y1, x2, y2, 0, 0, 0, 1, 0, 0, 0) + 1 * mono(a, b, l, x1, y1, x2, y2, 0, 0, 0, 0, 0, 1, 0)), 1 * mono(a, b, l, x1, y1, x2, y2, 2, 0, 0, 1, 0, 0, 0) + 1 * mono(a, b, l, x1, y1, x2, y2, 2, 0, 0, 0, 0, 1, 0) + (-2) * mono(a, b, l, x1, y1, x2, y2, 1, 1, 2, 0, 0, 1, 0) + (-2) * mono(a, b, l, x1, y1, x2, y2, 1, 1, 1, 0, 1, 0, 0) + 2 * mono(a, b, l, x1, y1, x2, y2, 1, 0, 0, 2, 0, 0, 0) + 4 * mono(a, b, l, x1, y1, x2, y2, 1, 0, 0, 1, 0, 1, 0) + 2 * mono(a, b, l, x1, y1, x2, y2, 1, 0, 0, 0, 0, 2, 0) + 1 * mono(a, b, l, x1, y1, x2, y2, 1, 0, 0, 0, 0, 0, 0) + (-1) * mono(a, b, l, x1, y1, x2, y2, 0, 2, 4, 1, 0, 0, 0) + 1 * mono(a, b, l, x1, y1, x2, y2, 0, 2, 4, 0, 0, 1, 0) + 2 * mono(a, b, l, x1, y1, x2, y2, 0, 2, 3, 0, 1, 0, 0) + 1 * mono(a, b, l, x1, y1, x2, y2, 0, 1, 2, 2, 0, 0, 0) + (-2) * mono(a, b, l, x1, y1, x2, y2, 0, 1, 2, 1, 0, 1, 0) + (-2) * mono(a, b, l, x1, y1, x2, y2, 0, 1, 2, 0, 0, 2, 0) + (-1) * mono(a, b, l, x1, y1, x2, y2, 0, 1, 2, 0, 0, 0, 0) + (-4) * mono(a, b, l, x1, y1, x2, y2, 0, 1, 1, 1, 1, 0, 0) + (-2) * mono(a, b, l, x1, y1, x2, y2, 0, 1, 1, 0, 1, 1, 0) + 1 * mono(a, b, l, x1, y1, x2, y2, 0, 1, 0, 0, 2, 0, 0) + 1 * mono(a, b, l, x1, y1, x2, y2, 0, 0, 0, 3, 0, 0, 0) + 3 * mono(a, b, l, x1, y1, x2, y2, 0, 0, 0, 2, 0, 1, 0), 3 * mono(a, b, l, x1, y1, x2, y2, 0, 0, 0, 1, 0, 2, 0));
    lemma_mul_is_distributive_add_other_way(((-1) * mono(a, b, l, x1, y1, x2, y2, 0, 0, 0, 1, 0, 0, 0) + 1 * mono(a, b, l, x1, y1, x2, y2, 0, 0, 0, 0, 0, 1, 0)), 1 * mono(a, b, l, x1, y1, x2, y2, 2, 0, 0, 1, 0, 0, 0) + 1 * mono(a, b, l, x1, y1, x2, y2, 2, 0, 0, 0, 0, 1, 0) + (-2) * mono(a, b, l, x1, y1, x2, y2, 1, 1, 2, 0, 0, 1, 0) + (-2) * mono(a, b, l, x1, y1, x2, y2, 1, 1, 1, 0, 1, 0, 0) + 2 * mono(a, b, l, x1, y1, x2, y2, 1, 0, 0, 2, 0, 0, 0) + 4 * mono(a, b, l, x1, y1, x2, y2, 1, 0, 0, 1, 0, 1, 0) + 2 * mono(a, b, l, x1, y1, x2, y2, 1, 0, 0, 0, 0, 2, 0) + 1 * mono(a, b, l, x1, y1, x2, y2, 1, 0, 0, 0, 0, 0, 0) + (-1) * mono(a, b, l, x1, y1, x2, y2, 0, 2, 4, 1, 0, 0, 0) + 1 * mono(a, b, l, x1, y1, x2, y2, 0, 2, 4, 0, 0, 1, 0) + 2 * mono(a, b, l, x1, y1, x2, y2, 0, 2, 3, 0, 1, 0, 0) + 1 * mono(a, b, l, x1, y1, x2, y2, 0, 1, 2, 2, 0, 0, 0) + (-2) * mono(a, b, l, x1, y1, x2, y2, 0, 1, 2, 1, 0, 1, 0) + (-2) * mono(a, b, l, x1, y1, x2, y2, 0, 1, 2, 0, 0, 2, 0) + (-1) * mono(a, b, l, x1, y1, x2, y2, 0, 1, 2, 0, 0, 0, 0) + (-4) * mono(a, b, l, x1, y1, x2, y2, 0, 1, 1, 1, 1, 0, 0) + (-2) * mono(a, b, l, x1, y1, x2, y2, 0, 1, 1, 0, 1, 1, 0) + 1 * mono(a, b, l, x1, y1, x2, y2, 0, 1, 0, 0, 2, 0, 0) + 1 * mono(a, b, l, x1, y1, x2, y2, 0, 0, 0, 3, 0, 0, 0) + 3 * mono(a, b, l, x1, y1, x2, y2, 0, 0, 0, 2, 0, 1, 0) + 3 * mono(a, b, l, x1, y1, x2, y2, 0, 0, 0, 1, 0, 2, 0), 1 * mono(a, b, l, x1, y1, x2, y2, 0, 0, 0, 1, 0, 0, 0));
    lemma_mul_is_distributive_add_other_way(((-1) * mono(a, b, l, x1, y1, x2, y2, 0, 0, 0, 1, 0, 0, 0) + 1 * mono(a, b, l, x1, y1, x2, y2, 0, 0, 0, 0, 0, 1, 0)), 1 * mono(a, b, l, x1, y1, x2, y2, 2, 0, 0, 1, 0, 0, 0) + 1 * mono(a, b, l, x1, y1, x2, y2, 2, 0, 0, 0, 0, 1, 0) + (-2) * mono(a, b, l, x1, y1, x2, y2, 1, 1, 2, 0, 0, 1, 0) + (-2) * mono(a, b, l, x1, y1, x2, y2, 1, 1, 1, 0, 1, 0, 0) + 2 * mono(a, b, l, x1, y1, x2, y2, 1, 0, 0, 2, 0, 0, 0) + 4 * mono(a, b, l, x1, y1, x2, y2, 1, 0, 0, 1, 0, 1, 0) + 2 * mono(a, b, l, x1, y1, x2, y2, 1, 0, 0, 0, 0, 2, 0) + 1 * mono(a, b, l, x1, y1, x2, y2, 1, 0, 0, 0, 0, 0, 0) + (-1) * mono(a, b, l, x1, y1, x2, y2, 0, 2, 4, 1, 0, 0, 0) + 1 * mono(a, b, l, x1, y1, x2, y2, 0, 2, 4, 0, 0, 1, 0) + 2 * mono(a, b, l, x1, y1, x2, y2, 0, 2, 3, 0, 1, 0, 0) + 1 * mono(a, b, l, x1, y1, x2, y2, 0, 1, 2, 2, 0, 0, 0) + (-2) * mono(a, b, l, x1, y1, x2, y2, 0, 1, 2, 1, 0, 1, 0) + (-2) * mono(a, b, l, x1, y1, x2, y2, 0, 1, 2, 0, 0, 2, 0) + (-1) * mono(a, b, l, x1, y1, x2, y2, 0, 1, 2, 0, 0, 0, 0) + (-4) * mono(a, b, l, x1, y1, x2, y2, 0, 1, 1, 1, 1, 0, 0) + (-2) * mono(a, b, l, x1, y1, x2, y2, 0, 1, 1, 0, 1, 1, 0) + 1 * mono(a, b, l, x1, y1, x2, y2, 0, 1, 0, 0, 2, 0, 0) + 1 * mono(a, b, l, x1, y1, x2, y2, 0, 0, 0, 3, 0, 0, 0) + 3 * mono(a, b, l, x1, y1, x2, y2, 0, 0, 0, 2, 0, 1, 0) + 3 * mono(a, b, l, x1, y1, x2, y2, 0, 0, 0, 1, 0, 2, 0) + 1 * mono(a, b, l, x1, y1, x2, y2, 0, 0, 0, 1, 0, 0, 0), 1 * mono(a, b, l, x1, y1, x2, y2, 0, 0, 0, 0, 0, 3, 0));
    lemma_mul_is_distributive_add_other_way(((-1) * mono(a, b, l, x1, y1, x2, y2, 0, 0, 0, 1, 0, 0, 0) + 1 * mono(a, b, l, x1, y1, x2, y2, 0, 0, 0, 0, 0, 1, 0)), 1 * mono(a, b, l, x1, y1, x2, y2, 2, 0, 0, 1, 0, 0, 0) + 1 * mono(a, b, l, x1, y1, x2, y2, 2, 0, 0, 0, 0, 1, 0) + (-2) * mono(a, b, l, x1, y1, x2, y2, 1, 1, 2, 0, 0, 1, 0) + (-2) * mono(a, b, l, x1, y1, x2, y2, 1, 1, 1, 0, 1, 0, 0) + 2 * mono(a, b, l, x1, y1, x2, y2, 1, 0, 0, 2, 0, 0, 0) + 4 * mono(a, b, l, x1, y1, x2, y2, 1, 0, 0, 1, 0, 1, 0) + 2 * mono(a, b, l, x1, y1, x2, y2, 1, 0, 0, 0, 0, 2, 0) + 1 * mono(a, b, l, x1, y1, x2, y2, 1, 0, 0, 0, 0, 0, 0) + (-1) * mono(a, b, l, x1, y1, x2, y2, 0, 2, 4, 1, 0, 0, 0) + 1 * mono(a, b, l, x1, y1, x2, y2, 0, 2, 4, 0, 0, 1, 0) + 2 * mono(a, b, l, x1, y1, x2, y2, 0, 2, 3, 0, 1, 0, 0) + 1 * mono(a, b, l, x1, y1, x2, y2, 0, 1, 2, 2, 0, 0, 0) + (-2) * mono(a, b, l, x1, y1, x2, y2, 0, 1, 2, 1, 0, 1, 0) + (-2) * mono(a, b, l, x1, y1, x2, y2, 0, 1, 2, 0, 0, 2, 0) + (-1) * mono(a, b, l, x1, y1, x2, y2, 0, 1, 2, 0, 0, 0, 0) + (-4) * mono(a, b, l, x1, y1, x2, y2, 0, 1, 1, 1, 1, 0, 0) + (-2) * mono(a, b, l, x1, y1, x2, y2, 0, 1, 1, 0, 1, 1, 0) + 1 * mono(a, b, l, x1, y1, x2, y2, 0, 1, 0, 0, 2, 0, 0) + 1 * mono(a, b, l, x1, y1, x2, y2, 0, 0, 0, 3, 0, 0, 0) + 3 * mono(a, b, l, x1, y1, x2, y2, 0, 0, 0, 2, 0, 1, 0) + 3 * mono(a, b, l, x1, y1, x2, y2, 0, 0, 0, 1, 0, 2, 0) + 1 * mono(a, b, l, x1, y1, x2, y2, 0, 0, 0, 1, 0, 0, 0) + 1 * mono(a, b, l, x1, y1, x2, y2, 0, 0, 0, 0, 0, 3, 0), 1 * mono(a, b, l, x1, y1, x2, y2, 0, 0, 0, 0, 0, 1, 0));
    lemma_mul_is_distributive_add(1 * mono(a, b, l, x1, y1, x2, y2, 2, 0, 0, 1, 0, 0, 0), (-1) * mono(a, b, l, x1, y1, x2, y2, 0, 0, 0, 1, 0, 0, 0), 1 * mono(a, b, l, x1, y1, x2, y2, 0, 0, 0, 0, 0, 1, 0));
    lemma_term_mul(a, b, l, x1, y1, x2, y2, 1, 2, 0, 0, 1, 0, 0, 0, -1, 0, 0, 0, 1, 0, 0, 0);
    lemma_term_mul(a, b, l, x1, y1, x2, y2, 1, 2, 0, 0, 1, 0, 0, 0, 1, 0, 0, 0, 0, 0, 1, 0);
    lemma_mul_is_distributive_add(1 * mono(a, b, l, x1, y1, x2, y2, 2, 0, 0, 0, 0, 1, 0), (-1) * mono(a, b, l, x1, y1, x2, y2, 0, 0, 0, 1, 0, 0, 0), 1 * mono(a, b, l, x1, y1, x2, y2, 0, 0, 0, 0, 0, 1, 0));
    lemma_term_mul(a, b, l, x1, y1, x2, y2, 1, 2, 0, 0, 0, 0, 1, 0, -1, 0, 0, 0, 1, 0, 0, 0);
    lemma_term_mul(a, b, l, x1, y1, x2, y2, 1, 2, 0, 0, 0, 0, 1, 0, 1, 0, 0, 0, 0, 0, 1, 0);
    lemma_mul_is_distributive_add((-2) * mono(a, b, l, x1, y1, x2, y2, 1, 1, 2, 0, 0, 1, 0), (-1) * mono(a, b, l, x1, y1, x2, y2, 0, 0, 0, 1, 0, 0, 0), 1 * mono(a, b, l, x1, y1, x2, y2, 0, 0, 0, 0, 0, 1, 0));
    lemma_term_mul(a, b, l, x1, y1, x2, y2, -2, 1, 1, 2, 0, 0, 1, 0, -1, 0, 0, 0, 1, 0, 0, 0);
    lemma_term_mul(a, b, l, x1, y1, x2, y2, -2, 1, 1, 2, 0, 0, 1, 0, 1, 0, 0, 0, 0, 0, 1, 0);
    lemma_mul_is_distributive_add((-2) * mono(a, b, l, x1, y1, x2, y2, 1, 1, 1, 0, 1, 0, 0), (-1) * mono(a, b, l, x1, y1, x2, y2, 0, 0, 0, 1, 0, 0, 0), 1 * mono(a, b, l, x1, y1, x2, y2, 0, 0, 0, 0, 0, 1, 0));
    lemma_term_mul(a, b, l, x1, y1, x2, y2, -2, 1, 1, 1, 0, 1, 0, 0, -1, 0, 0, 0, 1, 0, 0, 0);
    lemma_term_mul(a, b, l, x1, y1, x2, y2, -2, 1, 1, 1, 0, 1, 0, 0, 1, 0, 0, 0, 0, 0, 1, 0);
    lemma_mul_is_distributive_add(2 * mono(a, b, l, x1, y1, x2, y2, 1, 0, 0, 2, 0, 0, 0), (-1) * mono(a, b, l, x1, y1, x2, y2, 0, 0, 0, 1, 0, 0, 0), 1 * mono(a, b, l, x1, y1, x2, y2, 0, 0, 0, 0, 0, 1, 0));
    lemma_term_mul(a, b, l, x1, y1, x2, y2, 2, 1, 0, 0, 2, 0, 0, 0, -1, 0, 0, 0, 1, 0, 0, 0);
    lemma_term_mul(a, b, l, x1, y1, x2, y2, 2, 1, 0, 0, 2, 0, 0, 0, 1, 0, 0, 0, 0, 0, 1, 0);
    lemma_mul_is_distributive_add(4 * mono(a, b, l, x1, y1, x2, y2, 1, 0, 0, 1, 0, 1, 0), (-1) * mono(a, b, l, x1, y1, x2, y2, 0, 0, 0, 1, 0, 0, 0), 1 * mono(a, b, l, x1, y1, x2, y2, 0, 0, 0, 0, 0, 1, 0));
    lemma_term_mul(a, b, l, x1, y1, x2, y2, 4, 1, 0, 0, 1, 0, 1, 0, -1, 0, 0, 0, 1, 0, 0, 0);
    lemma_term_mul(a, b, l, x1, y1, x2, y2, 4, 1, 0, 0, 1, 0, 1, 0, 1, 0, 0, 0, 0, 0, 1, 0);
    lemma_mul_is_distributive_add(2 * mono(a, b, l, x1, y1, x2, y2, 1, 0, 0, 0, 0, 2, 0), (-1) * mono(a, b, l, x1, y1, x2, y2, 0, 0, 0, 1, 0, 0, 0), 1 * mono(a, b, l, x1, y1, x2, y2, 0, 0, 0, 0, 0, 1, 0));
    lemma_term_mul(a, b, l, x1, y1, x2, y2, 2, 1, 0, 0, 0, 0, 2, 0, -1, 0, 0, 0, 1, 0, 0, 0);
    lemma_term_mul(a, b, l, x1, y1, x2, y2, 2, 1, 0, 0, 0, 0, 2, 0, 1, 0, 0, 0, 0, 0, 1, 0);
    lemma_mul_is_distributive_add(1 * mono(a, b, l, x1, y1, x2, y2, 1, 0, 0, 0, 0, 0, 0), (-1) * mono(a, b, l, x1, y1, x2, y2, 0, 0, 0, 1, 0, 0, 0), 1 * mono(a, b, l, x1, y1, x2, y2, 0, 0, 0, 0, 0, 1, 0));
    lemma_term_mul(a, b, l, x1, y1, x2, y2, 1, 1, 0, 0, 0, 0, 0, 0, -1, 0, 0, 0, 1, 0, 0, 0);
    lemma_term_mul(a, b, l, x1, y1, x2, y2, 1, 1, 0, 0, 0, 0, 0, 0, 1, 0, 0, 0, 0, 0, 1, 0);
    lemma_mul_is_distributive_add((-1) * mono(a, b, l, x1, y1, x2, y2, 0, 2, 4, 1, 0, 0, 0), (-1) * mono(a, b, l, x1, y1, x2, y2, 0, 0, 0, 1, 0, 0, 0), 1 * mono(a, b, l, x1, y1, x2, y2, 0, 0, 0, 0, 0, 1, 0));
    lemma_term_mul(a, b, l, x1, y1, x2, y2, -1, 0, 2, 4, 1, 0, 0, 0, -1, 0, 0, 0, 1, 0, 0, 0);
    lemma_term_mul(a, b, l, x1, y1, x2, y2, -1, 0, 2, 4, 1, 0, 0, 0, 1, 0, 0, 0, 0, 0, 1, 0);
    lemma_mul_is_distributive_add(1 * mono(a, b, l, x1, y1, x2, y2, 0, 2, 4, 0, 0, 1, 0), (-1) * mono(a, b, l, x1, y1, x2, y2, 0, 0, 0, 1, 0, 0, 0), 1 * mono(a, b, l, x1, y1, x2, y2, 0, 0, 0, 0, 0, 1, 0));
    lemma_term_mul(a, b, l, x1, y1, x2, y2, 1, 0, 2, 4, 0, 0, 1, 0, -1, 0, 0, 0, 1, 0, 0, 0);
    lemma_term_mul(a, b, l, x1, y1, x2, y2, 1, 0, 2, 4, 0, 0, 1, 0, 1, 0, 0, 0, 0, 0, 1, 0);
    lemma_mul_is_distributive_add(2 * mono(a, b, l, x1, y1, x2, y2, 0, 2, 3, 0, 1, 0, 0), (-1) * mono(a, b, l, x1, y1, x2, y2, 0, 0, 0, 1, 0, 0, 0), 1 * mono(a, b, l, x1, y1, x2, y2, 0, 0, 0, 0, 0, 1, 0));
    lemma_term_mul(a, b, l, x1, y1, x2, y2, 2, 0, 2, 3, 0, 1, 0, 0, -1, 0, 0, 0, 1, 0, 0, 0);
    lemma_term_mul(a, b, l, x1, y1, x2, y2, 2, 0, 2, 3, 0, 1, 0, 0, 1, 0, 0, 0, 0, 0, 1, 0);
    lemma_mul_is_distributive_add(1 * mono(a, b, l, x1, y1, x2, y2, 0, 1, 2, 2, 0, 0, 0), (-1) * mono(a, b, l, x1, y1, x2, y2, 0, 0, 0, 1, 0, 0, 0), 1 * mono(a, b, l, x1, y1, x2, y2, 0, 0, 0, 0, 0, 1, 0));
    lemma_term_mul(a, b, l, x1, y1, x2, y2, 1, 0, 1, 2, 2, 0, 0, 0, -1, 0, 0, 0, 1, 0, 0, 0);
    lemma_term_mul(a, b, l, x1, y1, x2, y2, 1, 0, 1, 2, 2, 0, 0, 0, 1, 0, 0, 0, 0, 0, 1, 0);
    lemma_mul_is_distributive_add((-2) * mono(a, b, l, x1, y1, x2, y2, 0, 1, 2, 1, 0, 1, 0), (-1) * mono(a, b, l, x1, y1, x2, y2, 0, 0, 0, 1, 0, 0, 0), 1 * mono(a, b, l, x1, y1, x2, y2, 0, 0, 0, 0, 0, 1, 0));
    lemma_term_mul(a, b, l, x1, y1, x2, y2, -2, 0, 1, 2, 1, 0, 1, 0, -1, 0, 0, 0, 1, 0, 0, 0);
    lemma_term_mul(a, b, l, x1, y1, x2, y2, -2, 0, 1, 2, 1, 0, 1, 0, 1, 0, 0, 0, 0, 0, 1, 0);
    lemma_mul_is_distributive_add((-2) * mono(a, b, l, x1, y1, x2, y2, 0, 1, 2, 0, 0, 2, 0), (-1) * mono(a, b, l, x1, y1, x2, y2, 0, 0, 0, 1, 0, 0, 0), 1 * mono(a, b, l, x1, y1, x2, y2, 0, 0, 0, 0, 0, 1, 0));
    lemma_term_mul(a, b, l, x1, y1, x2, y2, -2, 0, 1, 2, 0, 0, 2, 0, -1, 0, 0, 0, 1, 0, 0, 0);
    lemma_term_mul(a, b, l, x1, y1, x2, y2, -2, 0, 1, 2, 0, 0, 2, 0, 1, 0, 0, 0, 0, 0, 1, 0);
    lemma_mul_is_distributive_add((-1) * mono(a, b, l, x1, y1, x2, y2, 0, 1, 2, 0, 0, 0, 0), (-1) * mono(a, b, l, x1, y1, x2, y2, 0, 0, 0, 1, 0, 0, 0), 1 * mono(a, b, l, x1, y1, x2, y2, 0, 0, 0, 0, 0, 1, 0));
    lemma_term_mul(a, b, l, x1, y1, x2, y2, -1, 0, 1, 2, 0, 0, 0, 0, -1, 0, 0, 0, 1, 0, 0, 0);
    lemma_term_mul(a, b, l, x1, y1, x2, y2, -1, 0, 1, 2, 0, 0, 0, 0, 1, 0, 0, 0, 0, 0, 1, 0);
    lemma_mul_is_distributive_add((-4) * mono(a, b, l, x1, y1, x2, y2, 0, 1, 1, 1, 1, 0, 0), (-1) * mono(a, b, l, x1, y1, x2, y2, 0, 0, 0, 1, 0, 0, 0), 1 * mono(a, b, l, x1, y1, x2, y2, 0, 0, 0, 0, 0, 1, 0));
    lemma_term_mul(a, b, l, x1, y1, x2, y2, -4, 0, 1, 1, 1, 1, 0, 0, -1, 0, 0, 0, 1, 0, 0, 0);
    lemma_term_mul(a, b, l, x1, y1, x2, y2, -4, 0, 1, 1, 1, 1, 0, 0, 1, 0, 0, 0, 0, 0, 1, 0);
    lemma_mul_is_distributive_add((-2) * mono(a, b, l, x1, y1, x2, y2, 0, 1, 1, 0, 1, 1, 0), (-1) * mono(a, b, l, x1, y1, x2, y2, 0, 0, 0, 1, 0, 0, 0), 1 * mono(a, b, l, x1, y1, x2, y2, 0, 0, 0, 0, 0, 1, 0));
    lemma_term_mul(a, b, l, x1, y1, x2, y2, -2, 0, 1, 1, 0, 1, 1, 0, -1, 0, 0, 0, 1, 0, 0, 0);
    lemma_term_mul(a, b, l, x1, y1, x2, y2, -2, 0, 1, 1, 0, 1, 1, 0, 1, 0, 0, 0, 0, 0, 1, 0);
    lemma_mul_is_distributive_add(1 * mono(a, b, l, x1, y1, x2, y2, 0, 1, 0, 0, 2, 0, 0), (-1) * mono(a, b, l, x1, y1, x2, y2, 0, 0, 0, 1, 0, 0, 0), 1 * mono(a, b, l, x1, y1, x2, y2, 0, 0, 0, 0, 0, 1, 0));
    lemma_term_mul(a, b, l, x1, y1, x2, y2, 1, 0, 1, 0, 0, 2, 0, 0, -1, 0, 0, 0, 1, 0, 0, 0);
    lemma_term_mul(a, b, l, x1, y1, x2, y2, 1, 0, 1, 0, 0, 2, 0, 0, 1, 0, 0, 0, 0, 0, 1, 0);
    lemma_mul_is_distributive_add(1 * mono(a, b, l, x1, y1, x2, y2, 0, 0, 0, 3, 0, 0, 0), (-1) * mono(a, b, l, x1, y1, x2, y2, 0, 0, 0, 1, 0, 0, 0), 1 * mono(a, b, l, x1, y1, x2, y2, 0, 0, 0, 0, 0, 1, 0));
    lemma_term_mul(a, b, l, x1, y1, x2, y2, 1, 0, 0, 0, 3, 0, 0, 0, -1, 0, 0, 0, 1, 0, 0, 0);
    lemma_term_mul(a, b, l, x1, y1, x2, y2, 1, 0, 0, 0, 3, 0, 0, 0, 1, 0, 0, 0, 0, 0, 1, 0);
    lemma_mul_is_distributive_add(3 * mono(a, b, l, x1, y1, x2, y2, 0, 0, 0, 2, 0, 1, 0), (-1) * mono(a, b, l, x1, y1, x2, y2, 0, 0, 0, 1, 0, 0, 0), 1 * mono(a, b, l, x1, y1, x2, y2, 0, 0, 0, 0, 0, 1, 0));
    lemma_term_mul(a, b, l, x1, y1, x2, y2, 3, 0, 0, 0, 2, 0, 1, 0, -1, 0, 0, 0, 1, 0, 0, 0);
    lemma_term_mul(a, b, l, x1, y1, x2, y2, 3, 0, 0, 0, 2, 0, 1, 0, 1, 0, 0, 0, 0, 0, 1, 0);
    lemma_mul_is_distributive_add(3 * mono(a, b, l, x1, y1, x2, y2, 0, 0, 0, 1, 0, 2, 0), (-1) * mono(a, b, l, x1, y1, x2, y2, 0, 0, 0, 1, 0, 0, 0), 1 * mono(a, b, l, x1, y1, x2, y2, 0, 0, 0, 0, 0, 1, 0));
    lemma_term_mul(a, b, l, x1, y1, x2, y2, 3, 0, 0, 0, 1, 0, 2, 0, -1, 0, 0, 0, 1, 0, 0, 0);
    lemma_term_mul(a, b, l, x1, y1, x2, y2, 3, 0, 0, 0, 1, 0, 2, 0, 1, 0, 0, 0, 0, 0, 1, 0);
    lemma_mul_is_distributive_add(1 * mono(a, b, l, x1, y1, x2, y2, 0, 0, 0, 1, 0, 0, 0), (-1) * mono(a, b, l, x1, y1, x2, y2, 0, 0, 0, 1, 0, 0, 0), 1 * mono(a, b, l, x1, y1, x2, y2, 0, 0, 0, 0, 0, 1, 0));
    lemma_term_mul(a, b, l, x1, y1, x2, y2, 1, 0, 0, 0, 1, 0, 0, 0, -1, 0, 0, 0, 1, 0, 0, 0);
    lemma_term_mul(a, b, l, x1, y1, x2, y2, 1, 0, 0, 0, 1, 0, 0, 0, 1, 0, 0, 0, 0, 0, 1, 0);
    lemma_mul_is_distributive_add(1 * mono(a, b, l, x1, y1, x2, y2, 0, 0, 0, 0, 0, 3, 0), (-1) * mono(a, b, l, x1, y1, x2, y2, 0, 0, 0, 1, 0, 0, 0), 1 * mono(a, b, l, x1, y1, x2, y2, 0, 0, 0, 0, 0, 1, 0));
    lemma_term_mul(a, b, l, x1, y1, x2, y2, 1, 0, 0, 0, 0, 0, 3, 0, -1, 0, 0, 0, 1, 0, 0, 0);
    lemma_term_mul(a, b, l, x1, y1, x2, y2, 1, 0, 0, 0, 0, 0, 3, 0, 1, 0, 0, 0, 0, 0, 1, 0);
    lemma_mul_is_distributive_add(1 * mono(a, b, l, x1, y1, x2, y2, 0, 0, 0, 0, 0, 1, 0), (-1) * mono(a, b, l, x1, y1, x2, y2, 0, 0, 0, 1, 0, 0, 0), 1 * mono(a, b, l, x1, y1, x2, y2, 0, 0, 0, 0, 0, 1, 0));
    lemma_term_mul(a, b, l, x1, y1, x2, y2, 1, 0, 0, 0, 0, 0, 1, 0, -1, 0, 0, 0, 1, 0, 0, 0);
    lemma_term_mul(a, b, l, x1, y1, x2, y2, 1, 0, 0, 0, 0, 0, 1, 0, 1, 0, 0, 0, 0, 0, 1, 0);
    assert((1 * mono(a, b, l, x1, y1, x2, y2, 2, 0, 0, 1, 0, 0, 0) + 1 * mono(a, b, l, x1, y1, x2, y2, 2, 0, 0, 0, 0, 1, 0) + (-2) * mono(a, b, l, x1, y1, x2, y2, 1, 1, 2, 0, 0, 1, 0) + (-2) * mono(a, b, l, x1, y1, x2, y2, 1, 1, 1, 0, 1, 0, 0) + 2 * mono(a, b, l, x1, y1, x2, y2, 1, 0, 0, 2, 0, 0, 0) + 4 * mono(a, b, l, x1, y1, x2, y2, 1, 0, 0, 1, 0, 1, 0) + 2 * mono(a, b, l, x1, y1, x2, y2, 1, 0, 0, 0, 0, 2, 0) + 1 * mono(a, b, l, x1, y1, x2, y2, 1, 0, 0, 0, 0, 0, 0) + (-1) * mono(a, b, l, x1, y1, x2, y2, 0, 2, 4, 1, 0, 0, 0) + 1 * mono(a, b, l, x1, y1, x2, y2, 0, 2, 4, 0, 0, 1, 0) + 2 * mono(a, b, l, x1, y1, x2, y2, 0, 2, 3, 0, 1, 0, 0) + 1 * mono(a, b, l, x1, y1, x2, y2, 0, 1, 2, 2, 0, 0, 0) + (-2) * mono(a, b, l, x1, y1, x2, y2, 0, 1, 2, 1, 0, 1, 0) + (-2) * mono(a, b, l, x1, y1, x2, y2, 0, 1, 2, 0, 0, 2, 0) + (-1) * mono(a, b, l, x1, y1, x2, y2, 0, 1, 2, 0, 0, 0, 0) + (-4) * mono(a, b, l, x1, y1, x2, y2, 0, 1, 1, 1, 1, 0, 0) + (-2) * mono(a, b, l, x1, y1, x2, y2, 0, 1, 1, 0, 1, 1, 0) + 1 * mono(a, b, l, x1, y1, x2, y2, 0, 1, 0, 0, 2, 0, 0) + 1 * mono(a, b, l, x1, y1, x2, y2, 0, 0, 0, 3, 0, 0, 0) + 3 * mono(a, b, l, x1, y1, x2, y2, 0, 0, 0, 2, 0, 1, 0) + 3 * mono(a, b, l, x1, y1, x2, y2, 0, 0, 0, 1, 0, 2, 0) + 1 * mono(a, b, l, x1, y1, x2, y2, 0, 0, 0, 1, 0, 0, 0) + 1 * mono(a, b, l, x1, y1, x2, y2, 0, 0, 0, 0, 0, 3, 0) + 1 * mono(a, b, l, x1, y1, x2, y2, 0, 0, 0, 0, 0, 1, 0)) * ((-1) * mono(a, b, l, x1, y1, x2, y2, 0, 0, 0, 1, 0, 0, 0) + 1 * mono(a, b, l, x1, y1, x2, y2, 0, 0, 0, 0, 0, 1, 0)) == (-1) * mono(a, b, l, x1, y1, x2, y2, 2, 0, 0, 2, 0, 0, 0) + 1 * mono(a, b, l, x1, y1, x2, y2, 2, 0, 0, 0, 0, 2, 0) + 2 * mono(a, b, l, x1, y1, x2, y2, 1, 1, 2, 1, 0, 1, 0) + (-2) * mono(a, b, l, x1, y1, x2, y2, 1, 1, 2, 0, 0, 2, 0) + 2 * mono(a, b, l, x1, y1, x2, y2, 1, 1, 1, 1, 1, 0, 0) + (-2) * mono(a, b, l, x1, y1, x2, y2, 1, 1, 1, 0, 1, 1, 0) + (-2) * mono(a, b, l, x1, y1, x2, y2, 1, 0, 0, 3, 0, 0, 0) + (-2) * mono(a, b, l, x1, y1, x2, y2, 1, 0, 0, 2, 0, 1, 0) + 2 * mono(a, b, l, x1, y1, x2, y2, 1, 0, 0, 1, 0, 2, 0) + (-1) * mono(a, b, l, x1, y1, x2, y2, 1, 0, 0, 1, 0, 0, 0) + 2 * mono(a, b, l, x1, y1, x2, y2, 1, 0, 0, 0, 0, 3, 0) + 1 * mono(a, b, l, x1, y1, x2, y2, 1, 0, 0, 0, 0, 1, 0) + 1 * mono(a, b, l, x1, y1, x2, y2, 0, 2, 4, 2, 0, 0, 0) + (-2) * mono(a, b, l, x1, y1, x2, y2, 0, 2, 4, 1, 0, 1, 0) + 1 * mono(a, b, l, x1, y1, x2, y2, 0, 2, 4, 0, 0, 2, 0) + (-2) * mono(a, b, l, x1, y1, x2, y2, 0, 2, 3, 1, 1, 0, 0) + 2 * mono(a, b, l, x1, y1, x2, y2, 0, 2, 3, 0, 1, 1, 0) + (-1) * mono(a, b, l, x1, y1, x2, y2, 0, 1, 2, 3, 0, 0, 0) + 3 * mono(a, b, l, x1, y1, x2, y2, 0, 1, 2, 2, 0, 1, 0) + 1 * mono(a, b, l, x1, y1, x2, y2, 0, 1, 2, 1, 0, 0, 0) + (-2) * mono(a, b, l, x1, y1, x2, y2, 0, 1, 2, 0, 0, 3, 0) + (-1) * mono(a, b, l, x1, y1, x2, y2, 0, 1, 2, 0, 0, 1, 0) + 4 * mono(a, b, l, x1, y1, x2, y2, 0, 1, 1, 2, 1, 0, 0) + (-2) * mono(a, b, l, x1, y1, x2, y2, 0, 1, 1, 1, 1, 1, 0) + (-2) * mono(a, b, l, x1, y1, x2, y2, 0, 1, 1, 0, 1, 2, 0) + (-1) * mono(a, b, l, x1, y1, x2, y2, 0, 1, 0, 1, 2, 0, 0) + 1 * mono(a, b, l, x1, y1, x2, y2, 0, 1, 0, 0, 2, 1, 0) + (-1) * mono(a, b, l, x1, y1, x2, y2, 0, 0, 0, 4, 0, 0, 0) + (-2) * mono(a, b, l, x1, y1, x2, y2, 0, 0, 0, 3, 0, 1, 0) + (-1) * mono(a, b, l, x1, y1, x2, y2, 0, 0, 0, 2, 0, 0, 0) + 2 * mono(a, b, l, x1, y1, x2, y2, 0, 0, 0, 1, 0, 3, 0) + 1 * mono(a, b, l, x1, y1, x2, y2, 0, 0, 0, 0, 0, 4, 0) + 1 * mono(a, b, l, x1, y1, x2, y2, 0, 0, 0, 0, 0, 2, 0));
    assert((((b * (y3 * y3)) - ((((x3 * x3) * x3) + (a * (x3 * x3))) + x3)) * (x2 - x1)) == (-1) * mono(a, b, l, x1, y1, x2, y2, 2, 0, 0, 2, 0, 0, 0) + 1 * mono(a, b, l, x1, y1, x2, y2, 2, 0, 0, 0, 0, 2, 0) + 2 * mono(a, b, l, x1, y1, x2, y2, 1, 1, 2, 1, 0, 1, 0) + (-2) * mono(a, b, l, x1, y1, x2, y2, 1, 1, 2, 0, 0, 2, 0) + 2 * mono(a, b, l, x1, y1, x2, y2, 1, 1, 1, 1, 1, 0, 0) + (-2) * mono(a, b, l, x1, y1, x2, y2, 1, 1, 1, 0, 1, 1, 0) + (-2) * mono(a, b, l, x1, y1, x2, y2, 1, 0, 0, 3, 0, 0, 0) + (-2) * mono(a, b, l, x1, y1, x2, y2, 1, 0, 0, 2, 0, 1, 0) + 2 * mono(a, b, l, x1, y1, x2, y2, 1, 0, 0, 1, 0, 2, 0) + (-1) * mono(a, b, l, x1, y1, x2, y2, 1, 0, 0, 1, 0, 0, 0) + 2 * mono(a, b, l, x1, y1, x2, y2, 1, 0, 0, 0, 0, 3, 0) + 1 * mono(a, b, l, x1, y1, x2, y2, 1, 0, 0, 0, 0, 1, 0) + 1 * mono(a, b, l, x1, y1, x2, y2, 0, 2, 4, 2, 0, 0, 0) + (-2) * mono(a, b, l, x1, y1, x2, y2, 0, 2, 4, 1, 0, 1, 0) + 1 * mono(a, b, l, x1, y1, x2, y2, 0, 2, 4, 0, 0, 2, 0) + (-2) * mono(a, b, l, x1, y1, x2, y2, 0, 2, 3, 1, 1, 0, 0) + 2 * mono(a, b, l, x1, y1, x2, y2, 0, 2, 3, 0, 1, 1, 0) + (-1) * mono(a, b, l, x1, y1, x2, y2, 0, 1, 2, 3, 0, 0, 0) + 3 * mono(a, b, l, x1, y1, x2, y2, 0, 1, 2, 2, 0, 1, 0) + 1 * mono(a, b, l, x1, y1, x2, y2, 0, 1, 2, 1, 0, 0, 0) + (-2) * mono(a, b, l, x1, y1, x2, y2, 0, 1, 2, 0, 0, 3, 0) + (-1) * mono(a, b, l, x1, y1, x2, y2, 0, 1, 2, 0, 0, 1, 0) + 4 * mono(a, b, l, x1, y1, x2, y2, 0, 1, 1, 2, 1, 0, 0) + (-2) * mono(a, b, l, x1, y1, x2, y2, 0, 1, 1, 1, 1, 1, 0) + (-2) * mono(a, b, l, x1, y1, x2, y2, 0, 1, 1, 0, 1, 2, 0) + (-1) * mono(a, b, l, x1, y1, x2, y2, 0, 1, 0, 1, 2, 0, 0) + 1 * mono(a, b, l, x1, y1, x2, y2, 0, 1, 0, 0, 2, 1, 0) + (-1) * mono(a, b, l, x1, y1, x2, y2, 0, 0, 0, 4, 0, 0, 0) + (-2) * mono(a, b, l, x1, y1, x2, y2, 0, 0, 0, 3, 0, 1, 0) + (-1) * mono(a, b, l, x1, y1, x2, y2, 0, 0, 0, 2, 0, 0, 0) + 2 * mono(a, b, l, x1, y1, x2, y2, 0, 0, 0, 1, 0, 3, 0) + 1 * mono(a, b, l, x1, y1, x2, y2, 0, 0, 0, 0, 0, 4, 0) + 1 * mono(a, b, l, x1, y1, x2, y2, 0, 0, 0, 0, 0, 2, 0));
    assert((x2 - x1) == (-1) * mono(a, b, l, x1, y1, x2, y2, 0, 0, 0, 1, 0, 0, 0) + 1 * mono(a, b, l, x1, y1, x2, y2, 0, 0, 0, 0, 0, 1, 0));
    lemma_mul_is_distributive_add(1 * mono(a, b, l, x1, y1, x2, y2, 0, 0, 1, 0, 0, 0, 0), (-1) * mono(a, b, l, x1, y1, x2, y2, 0, 0, 0, 1, 0, 0, 0), 1 * mono(a, b, l, x1, y1, x2, y2, 0, 0, 0, 0, 0, 1, 0));
    lemma_term_mul(a, b, l, x1, y1, x2, y2, 1, 0, 0, 1, 0, 0, 0, 0, -1, 0, 0, 0, 1, 0, 0, 0);
    lemma_term_mul(a, b, l, x1, y1, x2, y2, 1, 0, 0, 1, 0, 0, 0, 0, 1, 0, 0, 0, 0, 0, 1, 0);
    assert((1 * mono(a, b, l, x1, y1, x2, y2, 0, 0, 1, 0, 0, 0, 0)) * ((-1) * mono(a, b, l, x1, y1, x2, y2, 0, 0, 0, 1, 0, 0, 0) + 1 * mono(a, b, l, x1, y1, x2, y2, 0, 0, 0, 0, 0, 1, 0)) == (-1) * mono(a, b, l, x1, y1, x2, y2, 0, 0, 1, 1, 0, 0, 0) + 1 * mono(a, b, l, x1, y1, x2, y2, 0, 0, 1, 0, 0, 1, 0));
    assert((l * (x2 - x1)) == (-1) * mono(a, b, l, x1, y1, x2, y2, 0, 0, 1, 1, 0, 0, 0) + 1 * mono(a, b, l, x1, y1, x2, y2, 0, 0, 1, 0, 0, 1, 0));
    assert((y2 - y1) == (-1) * mono(a, b, l, x1, y1, x2, y2, 0, 0, 0, 0, 1, 0, 0) + 1 * mono(a, b, l, x1, y1, x2, y2, 0, 0, 0, 0, 0, 0, 1));
    assert(((l * (x2 - x1)) - (y2 - y1)) == (-1) * mono(a, b, l, x1, y1, x2, y2, 0, 0, 1, 1, 0, 0, 0) + 1 * mono(a, b, l, x1, y1, x2, y2, 0, 0, 1, 0, 0, 1, 0) + 1 * mono(a, b, l, x1, y1, x2, y2, 0, 0, 0, 0, 1, 0, 0) + (-1) * mono(a, b, l, x1, y1, x2, y2, 0, 0, 0, 0, 0, 0, 1));
    lemma_term_mul(a, b, l, x1, y1, x2, y2, 1, 0, 0, 0, 0, 1, 0, 0, 1, 0, 0, 0, 0, 1, 0, 0);
    assert((1 * mono(a, b, l, x1, y1, x2, y2, 0, 0, 0, 0, 1, 0, 0)) * (1 * mono(a, b, l, x1, y1, x2, y2, 0, 0, 0, 0, 1, 0, 0)) == 1 * mono(a, b, l, x1, y1, x2, y2, 0, 0, 0, 0, 2, 0, 0));
    assert((y1 * y1) == 1 * mono(a, b, l, x1, y1, x2, y2, 0, 0, 0, 0, 2, 0, 0));
    lemma_term_mul(a, b, l, x1, y1, x2, y2, 1, 0, 1, 0, 0, 0, 0, 0, 1, 0, 0, 0, 0, 2, 0, 0);
    assert((1 * mono(a, b, l, x1, y1, x2, y2, 0, 1, 0, 0, 0, 0, 0)) * (1 * mono(a, b, l, x1, y1, x2, y2, 0, 0, 0, 0, 2, 0, 0)) == 1 * mono(a, b, l, x1, y1, x2, y2, 0, 1, 0, 0, 2, 0, 0));
    assert((b * (y1 * y1)) == 1 * mono(a, b, l, x1, y1, x2, y2, 0, 1, 0, 0, 2, 0, 0));
    lemma_term_mul(a, b, l, x1, y1, x2, y2, 1, 0, 0, 0, 1, 0, 0, 0, 1, 0, 0, 0, 1, 0, 0, 0);
    assert((1 * mono(a, b, l, x1, y1, x2, y2, 0, 0, 0, 1, 0, 0, 0)) * (1 * mono(a, b, l, x1, y1, x2, y2, 0, 0, 0, 1, 0, 0, 0)) == 1 * mono(a, b, l, x1, y1, x2, y2, 0, 0, 0, 2, 0, 0, 0));
    assert((x1 * x1) == 1 * mono(a, b, l, x1, y1, x2, y2, 0, 0, 0, 2, 0, 0, 0));
    lemma_term_mul(a, b, l, x1, y1, x2, y2, 1, 0, 0, 0, 2, 0, 0, 0, 1, 0, 0, 0, 1, 0, 0, 0);
    assert((1 * mono(a, b, l, x1, y1, x2, y2, 0, 0, 0, 2, 0, 0, 0)) * (1 * mono(a, b, l, x1, y1, x2, y2, 0, 0, 0, 1, 0, 0, 0)) == 1 * mono(a, b, l, x1, y1, x2, y2, 0, 0, 0, 3, 0, 0, 0));
    assert(((x1 * x1) * x1) == 1 * mono(a, b, l, x1, y1, x2, y2, 0, 0, 0, 3, 0, 0, 0));
    assert((x1 * x1) == 1 * mono(a, b, l, x1, y1, x2, y2, 0, 0, 0, 2, 0, 0, 0));
    lemma_term_mul(a, b, l, x1, y1, x2, y2, 1, 1, 0, 0, 0, 0, 0, 0, 1, 0, 0, 0, 2, 0, 0, 0);
    assert((1 * mono(a, b, l, x1, y1, x2, y2, 1, 0, 0, 0, 0, 0, 0)) * (1 * mono(a, b, l, x1, y1, x2, y2, 0, 0, 0, 2, 0, 0, 0)) == 1 * mono(a, b, l, x1, y1, x2, y2, 1, 0, 0, 2, 0, 0, 0));
    assert((a * (x1 * x1)) == 1 * mono(a, b, l, x1, y1, x2, y2, 1, 0, 0, 2, 0, 0, 0));
    assert((((x1 * x1) * x1) + (a * (x1 * x1))) == 1 * mono(a, b, l, x1, y1, x2, y2, 1, 0, 0, 2, 0, 0, 0) + 1 * mono(a, b, l, x1, y1, x2, y2, 0, 0, 0, 3, 0, 0, 0));
    assert(((((x1 * x1) * x1) + (a * (x1 * x1))) + x1) == 1 * mono(a, b, l, x1, y1, x2, y2, 1, 0, 0, 2, 0, 0, 0) + 1 * mono(a, b, l, x1, y1, x2, y2, 0, 0, 0, 3, 0, 0, 0) + 1 * mono(a, b, l, x1, y1, x2, y2, 0, 0, 0, 1, 0, 0, 0));
    assert(((b * (y1 * y1)) - ((((x1 * x1) * x1) + (a * (x1 * x1))) + x1)) == (-1) * mono(a, b, l, x1, y1, x2, y2, 1, 0, 0, 2, 0, 0, 0) + 1 * mono(a, b, l, x1, y1, x2, y2, 0, 1, 0, 0, 2, 0, 0) + (-1) * mono(a, b, l, x1, y1, x2, y2, 0, 0, 0, 3, 0, 0, 0) + (-1) * mono(a, b, l, x1, y1, x2, y2, 0, 0, 0, 1, 0, 0, 0));
    lemma_term_mul(a, b, l, x1, y1, x2, y2, 1, 0, 0, 0, 0, 0, 0, 1, 1, 0, 0, 0, 0, 0, 0, 1);
    assert((1 * mono(a, b, l, x1, y1, x2, y2, 0, 0, 0, 0, 0, 0, 1)) * (1 * mono(a, b, l, x1, y1, x2, y2, 0, 0, 0, 0, 0, 0, 1)) == 1 * mono(a, b, l, x1, y1, x2, y2, 0, 0, 0, 0, 0, 0, 2));
    assert((y2 * y2) == 1 * mono(a, b, l, x1, y1, x2, y2, 0, 0, 0, 0, 0, 0, 2));
    lemma_term_mul(a, b, l, x1, y1, x2, y2, 1, 0, 1, 0, 0, 0, 0, 0, 1, 0, 0, 0, 0, 0, 0, 2);
    assert((1 * mono(a, b, l, x1, y1, x2, y2, 0, 1, 0, 0, 0, 0, 0)) * (1 * mono(a, b, l, x1, y1, x2, y2, 0, 0, 0, 0, 0, 0, 2)) == 1 * mono(a, b, l, x1, y1, x2, y2, 0, 1, 0, 0, 0, 0, 2));
    assert((b * (y2 * y2)) == 1 * mono(a, b, l, x1, y1, x2, y2, 0, 1, 0, 0, 0, 0, 2));
    lemma_term_mul(a, b, l, x1, y1, x2, y2, 1, 0, 0, 0, 0, 0, 1, 0, 1, 0, 0, 0, 0, 0, 1, 0);
    assert((1 * mono(a, b, l, x1, y1, x2, y2, 0, 0, 0, 0, 0, 1, 0)) * (1 * mono(a, b, l, x1, y1, x2, y2, 0, 0, 0, 0, 0, 1, 0)) == 1 * mono(a, b, l, x1, y1, x2, y2, 0, 0, 0, 0, 0, 2, 0));
    assert((x2 * x2) == 1 * mono(a, b, l, x1, y1, x2, y2, 0, 0, 0, 0, 0, 2, 0));
    lemma_term_mul(a, b, l, x1, y1, x2, y2, 1, 0, 0, 0, 0, 0, 2, 0, 1, 0, 0, 0, 0, 0, 1, 0);
    assert((1 * mono(a, b, l, x1, y1, x2, y2, 0, 0, 0, 0, 0, 2, 0)) * (1 * mono(a, b, l, x1, y1, x2, y2, 0, 0, 0, 0, 0, 1, 0)) == 1 * mono(a, b, l, x1, y1, x2, y2, 0, 0, 0, 0, 0, 3, 0));
    assert(((x2 * x2) * x2) == 1 * mono(a, b, l, x1, y1, x2, y2, 0, 0, 0, 0, 0, 3, 0));
    assert((x2 * x2) == 1 * mono(a, b, l, x1, y1, x2, y2, 0, 0, 0, 0, 0, 2, 0));
    lemma_term_mul(a, b, l, x1, y1, x2, y2, 1, 1, 0, 0, 0, 0, 0, 0, 1, 0, 0, 0, 0, 0, 2, 0);
    assert((1 * mono(a, b, l, x1, y1, x2, y2, 1, 0, 0, 0, 0, 0, 0)) * (1 * mono(a, b, l, x1, y1, x2, y2, 0, 0, 0, 0, 0, 2, 0)) == 1 * mono(a, b, l, x1, y1, x2, y2, 1, 0, 0, 0, 0, 2, 0));
    assert((a * (x2 * x2)) == 1 * mono(a, b, l, x1, y1, x2, y2, 1, 0, 0, 0, 0, 2, 0));
    assert((((x2 * x2) * x2) + (a * (x2 * x2))) == 1 * mono(a, b, l, x1, y1, x2, y2, 1, 0, 0, 0, 0, 2, 0) + 1 * mono(a, b, l, x1, y1, x2, y2, 0, 0, 0, 0, 0, 3, 0));
    assert(((((x2 * x2) * x2) + (a * (x2 * x2))) + x2) == 1 * mono(a, b, l, x1, y1, x2, y2, 1, 0, 0, 0, 0, 2, 0) + 1 * mono(a, b, l, x1, y1, x2, y2, 0, 0, 0, 0, 0, 3, 0) + 1 * mono(a, b, l, x1, y1, x2, y2, 0, 0, 0, 0, 0, 1, 0));
    assert(((b * (y2 * y2)) - ((((x2 * x2) * x2) + (a * (x2 * x2))) + x2)) == (-1) * mono(a, b, l, x1, y1, x2, y2, 1, 0, 0, 0, 0, 2, 0) + 1 * mono(a, b, l, x1, y1, x2, y2, 0, 1, 0, 0, 0, 0, 2) + (-1) * mono(a, b, l, x1, y1, x2, y2, 0, 0, 0, 0, 0, 3, 0) + (-1) * mono(a, b, l, x1, y1, x2, y2, 0, 0, 0, 0, 0, 1, 0));
    lemma_mul_is_distributive_add_other_way(((-1) * mono(a, b, l, x1, y1, x2, y2, 0, 0, 1, 1, 0, 0, 0) + 1 * mono(a, b, l, x1, y1, x2, y2, 0, 0, 1, 0, 0, 1, 0) + 1 * mono(a, b, l, x1, y1, x2, y2, 0, 0, 0, 0, 1, 0, 0) + (-1) * mono(a, b, l, x1, y1, x2, y2, 0, 0, 0, 0, 0, 0, 1)), 1 * mono(a, b, l, x1, y1, x2, y2, 1, 1, 1, 1, 0, 0, 0), (-1) * mono(a, b, l, x1, y1, x2, y2, 1, 1, 1, 0, 0, 1, 0));
    lemma_mul_is_distributive_add_other_way(((-1) * mono(a, b, l, x1, y1, x2, y2, 0, 0, 1, 1, 0, 0, 0) + 1 * mono(a, b, l, x1, y1, x2, y2, 0, 0, 1, 0, 0, 1, 0) + 1 * mono(a, b, l, x1, y1, x2, y2, 0, 0, 0, 0, 1, 0, 0) + (-1) * mono(a, b, l, x1, y1, x2, y2, 0, 0, 0, 0, 0, 0, 1)), 1 * mono(a, b, l, x1, y1, x2, y2, 1, 1, 1, 1, 0, 0, 0) + (-1) * mono(a, b, l, x1, y1, x2, y2, 1, 1, 1, 0, 0, 1, 0), (-1) * mono(a, b, l, x1, y1, x2, y2, 1, 1, 0, 0, 1, 0, 0));
    lemma_mul_is_distributive_add_other_way(((-1) * mono(a, b, l, x1, y1, x2, y2, 0, 0, 1, 1, 0, 0, 0) + 1 * mono(a, b, l, x1, y1, x2, y2, 0, 0, 1, 0, 0, 1, 0) + 1 * mono(a, b, l, x1, y1, x2, y2, 0, 0, 0, 0, 1, 0, 0) + (-1) * mono(a, b, l, x1, y1, x2, y2, 0, 0, 0, 0, 0, 0, 1)), 1 * mono(a, b, l, x1, y1, x2, y2, 1, 1, 1, 1, 0, 0, 0) + (-1) * mono(a, b, l, x1, y1, x2, y2, 1, 1, 1, 0, 0, 1, 0) + (-1) * mono(a, b, l, x1, y1, x2, y2, 1, 1, 0, 0, 1, 0, 0), (-1) * mono(a, b, l, x1, y1, x2, y2, 1, 1, 0, 0, 0, 0, 1));
    lemma_mul_is_distributive_add_other_way(((-1) * mono(a, b, l, x1, y1, x2, y2, 0, 0, 1, 1, 0, 0, 0) + 1 * mono(a, b, l, x1, y1, x2, y2, 0, 0, 1, 0, 0, 1, 0) + 1 * mono(a, b, l, x1, y1, x2, y2, 0, 0, 0, 0, 1, 0, 0) + (-1) * mono(a, b, l, x1, y1, x2, y2, 0, 0, 0, 0, 0, 0, 1)), 1 * mono(a, b, l, x1, y1, x2, y2, 1, 1, 1, 1, 0, 0, 0) + (-1) * mono(a, b, l, x1, y1, x2, y2, 1, 1, 1, 0, 0, 1, 0) + (-1) * mono(a, b, l, x1, y1, x2, y2, 1, 1, 0, 0, 1, 0, 0) + (-1) * mono(a, b, l, x1, y1, x2, y2, 1, 1, 0, 0, 0, 0, 1), (-1) * mono(a, b, l, x1, y1, x2, y2, 0, 2, 3, 1, 0, 0, 0));
    lemma_mul_is_distributive_add_other_way(((-1) * mono(a, b, l, x1, y1, x2, y2, 0, 0, 1, 1, 0, 0, 0) + 1 * mono(a, b, l, x1, y1, x2, y2, 0, 0, 1, 0, 0, 1, 0) + 1 * mono(a, b, l, x1, y1, x2, y2, 0, 0, 0, 0, 1, 0, 0) + (-1) * mono(a, b, l, x1, y1, x2, y2, 0, 0, 0, 0, 0, 0, 1)), 1 * mono(a, b, l, x1, y1, x2, y2, 1, 1, 1, 1, 0, 0, 0) + (-1) * mono(a, b, l, x1, y1, x2, y2, 1, 1, 1, 0, 0, 1, 0) + (-1) * mono(a, b, l, x1, y1, x2, y2, 1, 1, 0, 0, 1, 0, 0) + (-1) * mono(a, b, l, x1, y1, x2, y2, 1, 1, 0, 0, 0, 0, 1) + (-1) * mono(a, b, l, x1, y1, x2, y2, 0, 2, 3, 1, 0, 0, 0), 1 * mono(a, b, l, x1, y1, x2, y2, 0, 2, 3, 0, 0, 1, 0));
    lemma_mul_is_distributive_add_other_way(((-1) * mono(a, b, l, x1, y1, x2, y2, 0, 0, 1, 1, 0, 0, 0) + 1 * mono(a, b, l, x1, y1, x2, y2, 0, 0, 1, 0, 0, 1, 0) + 1 * mono(a, b, l, x1, y1, x2, y2, 0, 0, 0, 0, 1, 0, 0) + (-1) * mono(a, b, l, x1, y1, x2, y2, 0, 0, 0, 0, 0, 0, 1)), 1 * mono(a, b, l, x1, y1, x2, y2, 1, 1, 1, 1, 0, 0, 0) + (-1) * mono(a, b, l, x1, y1, x2, y2, 1, 1, 1, 0, 0, 1, 0) + (-1) * mono(a, b, l, x1, y1, x2, y2, 1, 1, 0, 0, 1, 0, 0) + (-1) * mono(a, b, l, x1, y1, x2, y2, 1, 1, 0, 0, 0, 0, 1) + (-1) * mono(a, b, l, x1, y1, x2, y2, 0, 2, 3, 1, 0, 0, 0) + 1 * mono(a, b, l, x1, y1, x2, y2, 0, 2, 3, 0, 0, 1, 0), 1 * mono(a, b, l, x1, y1, x2, y2, 0, 2, 2, 0, 1, 0, 0));
    lemma_mul_is_distributive_add_other_way(((-1) * mono(a, b, l, x1, y1, x2, y2, 0, 0, 1, 1, 0, 0, 0) + 1 * mono(a, b, l, x1, y1, x2, y2, 0, 0, 1, 0, 0, 1, 0) + 1 * mono(a, b, l, x1, y1, x2, y2, 0, 0, 0, 0, 1, 0, 0) + (-1) * mono(a, b, l, x1, y1, x2, y2, 0, 0, 0, 0, 0, 0, 1)), 1 * mono(a, b, l, x1, y1, x2, y2, 1, 1, 1, 1, 0, 0, 0) + (-1) * mono(a, b, l, x1, y1, x2, y2, 1, 1, 1, 0, 0, 1, 0) + (-1) * mono(a, b, l, x1, y1, x2, y2, 1, 1, 0, 0, 1, 0, 0) + (-1) * mono(a, b, l, x1, y1, x2, y2, 1, 1, 0, 0, 0, 0, 1) + (-1) * mono(a, b, l, x1, y1, x2, y2, 0, 2, 3, 1, 0, 0, 0) + 1 * mono(a, b, l, x1, y1, x2, y2, 0, 2, 3, 0, 0, 1, 0) + 1 * mono(a, b, l, x1, y1, x2, y2, 0, 2, 2, 0, 1, 0, 0), 1 * mono(a, b, l, x1, y1, x2, y2, 0, 2, 2, 0, 0, 0, 1));
    lemma_mul_is_distributive_add_other_way(((-1) * mono(a, b, l, x1, y1, x2, y2, 0, 0, 1, 1, 0, 0, 0) + 1 * mono(a, b, l, x1, y1, x2, y2, 0, 0, 1, 0, 0, 1, 0) + 1 * mono(a, b, l, x1, y1, x2, y2, 0, 0, 0, 0, 1, 0, 0) + (-1) * mono(a, b, l, x1, y1, x2, y2, 0, 0, 0, 0, 0, 0, 1)), 1 * mono(a, b, l, x1, y1, x2, y2, 1, 1, 1, 1, 0, 0, 0) + (-1) * mono(a, b, l, x1, y1, x2, y2, 1, 1, 1, 0, 0, 1, 0) + (-1) * mono(a, b, l, x1, y1, x2, y2, 1, 1, 0, 0, 1, 0, 0) + (-1) * mono(a, b, l, x1, y1, x2, y2, 1, 1, 0, 0, 0, 0, 1) + (-1) * mono(a, b, l, x1, y1, x2, y2, 0, 2, 3, 1, 0, 0, 0) + 1 * mono(a, b, l, x1, y1, x2, y2, 0, 2, 3, 0, 0, 1, 0) + 1 * mono(a, b, l, x1, y1, x2, y2, 0, 2, 2, 0, 1, 0, 0) + 1 * mono(a, b, l, x1, y1, x2, y2, 0, 2, 2, 0, 0, 0, 1), 2 * mono(a, b, l, x1, y1, x2, y2, 0, 1, 1, 2, 0, 0, 0));
    lemma_mul_is_distributive_add_other_way(((-1) * mono(a, b, l, x1, y1, x2, y2, 0, 0, 1, 1, 0, 0, 0) + 1 * mono(a, b, l, x1, y1, x2, y2, 0, 0, 1, 0, 0, 1, 0) + 1 * mono(a, b, l, x1, y1, x2, y2, 0, 0, 0, 0, 1, 0, 0) + (-1) * mono(a, b, l, x1, y1, x2, y2, 0, 0, 0, 0, 0, 0, 1)), 1 * mono(a, b, l, x1, y1, x2, y2, 1, 1, 1, 1, 0, 0, 0) + (-1) * mono(a, b, l, x1, y1, x2, y2, 1, 1, 1, 0, 0, 1, 0) + (-1) * mono(a, b, l, x1, y1, x2, y2, 1, 1, 0, 0, 1, 0, 0) + (-1) * mono(a, b, l, x1, y1, x2, y2, 1, 1, 0, 0, 0, 0, 1) + (-1) * mono(a, b, l, x1, y1, x2, y2, 0, 2, 3, 1, 0, 0, 0) + 1 * mono(a, b, l, x1, y1, x2, y2, 0, 2, 3, 0, 0, 1, 0) + 1 * mono(a, b, l, x1, y1, x2, y2, 0, 2, 2, 0, 1, 0, 0) + 1 * mono(a, b, l, x1, y1, x2, y2, 0, 2, 2, 0, 0, 0, 1) + 2 * mono(a, b, l, x1, y1, x2, y2, 0, 1, 1, 2, 0, 0, 0), (-1) * mono(a, b, l, x1, y1, x2, y2, 0, 1, 1, 1, 0, 1, 0));
    lemma_mul_is_distributive_add_other_way(((-1) * mono(a, b, l, x1, y1, x2, y2, 0, 0, 1, 1, 0, 0, 0) + 1 * mono(a, b, l, x1, y1, x2, y2, 0, 0, 1, 0, 0, 1, 0) + 1 * mono(a, b, l, x1, y1, x2, y2, 0, 0, 0, 0, 1, 0, 0) + (-1) * mono(a, b, l, x1, y1, x2, y2, 0, 0, 0, 0, 0, 0, 1)), 1 * mono(a, b, l, x1, y1, x2, y2, 1, 1, 1, 1, 0, 0, 0) + (-1) * mono(a, b, l, x1, y1, x2, y2, 1, 1, 1, 0, 0, 1, 0) + (-1) * mono(a, b, l, x1, y1, x2, y2, 1, 1, 0, 0, 1, 0, 0) + (-1) * mono(a, b, l, x1, y1, x2, y2, 1, 1, 0, 0, 0, 0, 1) + (-1) * mono(a, b, l, x1, y1, x2, y2, 0, 2, 3, 1, 0, 0, 0) + 1 * mono(a, b, l, x1, y1, x2, y2, 0, 2, 3, 0, 0, 1, 0) + 1 * mono(a, b, l, x1, y1, x2, y2, 0, 2, 2, 0, 1, 0, 0) + 1 * mono(a, b, l, x1, y1, x2, y2, 0, 2, 2, 0, 0, 0, 1) + 2 * mono(a, b, l, x1, y1, x2, y2, 0, 1, 1, 2, 0, 0, 0) + (-1) * mono(a, b, l, x1, y1, x2, y2, 0, 1, 1, 1, 0, 1, 0), (-1) * mono(a, b, l, x1, y1, x2, y2, 0, 1, 1, 0, 0, 2, 0));
    lemma_mul_is_distributive_add_other_way(((-1) * mono(a, b, l, x1, y1, x2, y2, 0, 0, 1, 1, 0, 0, 0) + 1 * mono(a, b, l, x1, y1, x2, y2, 0, 0, 1, 0, 0, 1, 0) + 1 * mono(a, b, l, x1, y1, x2, y2, 0, 0, 0, 0, 1, 0, 0) + (-1) * mono(a, b, l, x1, y1, x2, y2, 0, 0, 0, 0, 0, 0, 1)), 1 * mono(a, b, l, x1, y1, x2, y2, 1, 1, 1, 1, 0, 0, 0) + (-1) * mono(a, b, l, x1, y1, x2, y2, 1, 1, 1, 0, 0, 1, 0) + (-1) * mono(a, b, l, x1, y1, x2, y2, 1, 1, 0, 0, 1, 0, 0) + (-1) * mono(a, b, l, x1, y1, x2, y2, 1, 1, 0, 0, 0, 0, 1) + (-1) * mono(a, b, l, x1, y1, x2, y2, 0, 2, 3, 1, 0, 0, 0) + 1 * mono(a, b, l, x1, y1, x2, y2, 0, 2, 3, 0, 0, 1, 0) + 1 * mono(a, b, l, x1, y1, x2, y2, 0, 2, 2, 0, 1, 0, 0) + 1 * mono(a, b, l, x1, y1, x2, y2, 0, 2, 2, 0, 0, 0, 1) + 2 * mono(a, b, l, x1, y1, x2, y2, 0, 1, 1, 2, 0, 0, 0) + (-1) * mono(a, b, l, x1, y1, x2, y2, 0, 1, 1, 1, 0, 1, 0) + (-1) * mono(a, b, l, x1, y1, x2, y2, 0, 1, 1, 0, 0, 2, 0), (-2) * mono(a, b, l, x1, y1, x2, y2, 0, 1, 0, 1, 1, 0, 0));
    lemma_mul_is_distributive_add_other_way(((-1) * mono(a, b, l, x1, y1, x2, y2, 0, 0, 1, 1, 0, 0, 0) + 1 * mono(a, b, l, x1, y1, x2, y2, 0, 0, 1, 0, 0, 1, 0) + 1 * mono(a, b, l, x1, y1, x2, y2, 0, 0, 0, 0, 1, 0, 0) + (-1) * mono(a, b, l, x1, y1, x2, y2, 0, 0, 0, 0, 0, 0, 1)), 1 * mono(a, b, l, x1, y1, x2, y2, 1, 1, 1, 1, 0, 0, 0) + (-1) * mono(a, b, l, x1, y1, x2, y2, 1, 1, 1, 0, 0, 1, 0) + (-1) * mono(a, b, l, x1, y1, x2, y2, 1, 1, 0, 0, 1, 0, 0) + (-1) * mono(a, b, l, x1, y1, x2, y2, 1, 1, 0, 0, 0, 0, 1) + (-1) * mono(a, b, l, x1, y1, x2, y2, 0, 2, 3, 1, 0, 0, 0) + 1 * mono(a, b, l, x1, y1, x2, y2, 0, 2, 3, 0, 0, 1, 0) + 1 * mono(a, b, l, x1, y1, x2, y2, 0, 2, 2, 0, 1, 0, 0) + 1 * mono(a, b, l, x1, y1, x2, y2, 0, 2, 2, 0, 0, 0, 1) + 2 * mono(a, b, l, x1, y1, x2, y2, 0, 1, 1, 2, 0, 0, 0) + (-1) * mono(a, b, l, x1, y1, x2, y2, 0, 1, 1, 1, 0, 1, 0) + (-1) * mono(a, b, l, x1, y1, x2, y2, 0, 1, 1, 0, 0, 2, 0) + (-2) * mono(a, b, l, x1, y1, x2, y2, 0, 1, 0, 1, 1, 0, 0), (-2) * mono(a, b, l, x1, y1, x2, y2, 0, 1, 0, 1, 0, 0, 1));
    lemma_mul_is_distributive_add_other_way(((-1) * mono(a, b, l, x1, y1, x2, y2, 0, 0, 1, 1, 0, 0, 0) + 1 * mono(a, b, l, x1, y1, x2, y2, 0, 0, 1, 0, 0, 1, 0) + 1 * mono(a, b, l, x1, y1, x2, y2, 0, 0, 0, 0, 1, 0, 0) + (-1) * mono(a, b, l, x1, y1, x2, y2, 0, 0, 0, 0, 0, 0, 1)), 1 * mono(a, b, l, x1, y1, x2, y2, 1, 1, 1, 1, 0, 0, 0) + (-1) * mono(a, b, l, x1, y1, x2, y2, 1, 1, 1, 0, 0, 1, 0) + (-1) * mono(a, b, l, x1, y1, x2, y2, 1, 1, 0, 0, 1, 0, 0) + (-1) * mono(a, b, l, x1, y1, x2, y2, 1, 1, 0, 0, 0, 0, 1) + (-1) * mono(a, b, l, x1, y1, x2, y2, 0, 2, 3, 1, 0, 0, 0) + 1 * mono(a, b, l, x1, y1, x2, y2, 0, 2, 3, 0, 0, 1, 0) + 1 * mono(a, b, l, x1, y1, x2, y2, 0, 2, 2, 0, 1, 0, 0) + 1 * mono(a, b, l, x1, y1, x2, y2, 0, 2, 2, 0, 0, 0, 1) + 2 * mono(a, b, l, x1, y1, x2, y2, 0, 1, 1, 2, 0, 0, 0) + (-1) * mono(a, b, l, x1, y1, x2, y2, 0, 1, 1, 1, 0, 1, 0) + (-1) * mono(a, b, l, x1, y1, x2, y2, 0, 1, 1, 0, 0, 2, 0) + (-2) * mono(a, b, l, x1, y1, x2, y2, 0, 1, 0, 1, 1, 0, 0) + (-2) * mono(a, b, l, x1, y1, x2, y2, 0, 1, 0, 1, 0, 0, 1), (-1) * mono(a, b, l, x1, y1, x2, y2, 0, 1, 0, 0, 1, 1, 0));
    lemma_mul_is_distributive_add_other_way(((-1) * mono(a, b, l, x1, y1, x2, y2, 0, 0, 1, 1, 0, 0, 0) + 1 * mono(a, b, l, x1, y1, x2, y2, 0, 0, 1, 0, 0, 1, 0) + 1 * mono(a, b, l, x1, y1, x2, y2, 0, 0, 0, 0, 1, 0, 0) + (-1) * mono(a, b, l, x1, y1, x2, y2, 0, 0, 0, 0, 0, 0, 1)), 1 * mono(a, b, l, x1, y1, x2, y2, 1, 1, 1, 1, 0, 0, 0) + (-1) * mono(a, b, l, x1, y1, x2, y2, 1, 1, 1, 0, 0, 1, 0) + (-1) * mono(a, b, l, x1, y1, x2, y2, 1, 1, 0, 0, 1, 0, 0) + (-1) * mono(a, b, l, x1, y1, x2, y2, 1, 1, 0, 0, 0, 0, 1) + (-1) * mono(a, b, l, x1, y1, x2, y2, 0, 2, 3, 1, 0, 0, 0) + 1 * mono(a, b, l, x1, y1, x2, y2, 0, 2, 3, 0, 0, 1, 0) + 1 * mono(a, b, l, x1, y1, x2, y2, 0, 2, 2, 0, 1, 0, 0) + 1 * mono(a, b, l, x1, y1, x2, y2, 0, 2, 2, 0, 0, 0, 1) + 2 * mono(a, b, l, x1, y1, x2, y2, 0, 1, 1, 2, 0, 0, 0) + (-1) * mono(a, b, l, x1, y1, x2, y2, 0, 1, 1, 1, 0, 1, 0) + (-1) * mono(a, b, l, x1, y1, x2, y2, 0, 1, 1, 0, 0, 2, 0) + (-2) * mono(a, b, l, x1, y1, x2, y2, 0, 1, 0, 1, 1, 0, 0) + (-2) * mono(a, b, l, x1, y1, x2, y2, 0, 1, 0, 1, 0, 0, 1) + (-1) * mono(a, b, l, x1, y1, x2, y2, 0, 1, 0, 0, 1, 1, 0), (-1) * mono(a, b, l, x1, y1, x2, y2, 0, 1, 0, 0, 0, 1, 1));
    lemma_mul_is_distributive_add(1 * mono(a, b, l, x1, y1, x2, y2, 1, 1, 1, 1, 0, 0, 0), (-1) * mono(a, b, l, x1, y1, x2, y2, 0, 0, 1, 1, 0, 0, 0), 1 * mono(a, b, l, x1, y1, x2, y2, 0, 0, 1, 0, 0, 1, 0));
    lemma_mul_is_distributive_add(1 * mono(a, b, l, x1, y1, x2, y2, 1, 1, 1, 1, 0, 0, 0), (-1) * mono(a, b, l, x1, y1, x2, y2, 0, 0, 1, 1, 0, 0, 0) + 1 * mono(a, b, l, x1, y1, x2, y2, 0, 0, 1, 0, 0, 1, 0), 1 * mono(a, b, l, x1, y1, x2, y2, 0, 0, 0, 0, 1, 0, 0));
    lemma_mul_is_distributive_add(1 * mono(a, b, l, x1, y1, x2, y2, 1, 1, 1, 1, 0, 0, 0), (-1) * mono(a, b, l, x1, y1, x2, y2, 0, 0, 1, 1, 0, 0, 0) + 1 * mono(a, b, l, x1, y1, x2, y2, 0, 0, 1, 0, 0, 1, 0) + 1 * mono(a, b, l, x1, y1, x2, y2, 0, 0, 0, 0, 1, 0, 0), (-1) * mono(a, b, l, x1, y1, x2, y2, 0, 0, 0, 0, 0, 0, 1));
    lemma_term_mul(a, b, l, x1, y1, x2, y2, 1, 1, 1, 1, 1, 0, 0, 0, -1, 0, 0, 1, 1, 0, 0, 0);
    lemma_term_mul(a, b, l, x1, y1, x2, y2, 1, 1, 1, 1, 1, 0, 0, 0, 1, 0, 0, 1, 0, 0, 1, 0);
    lemma_term_mul(a, b, l, x1, y1, x2, y2, 1, 1, 1, 1, 1, 0, 0, 0, 1, 0, 0, 0, 0, 1, 0, 0);
    lemma_term_mul(a, b, l, x1, y1, x2, y2, 1, 1, 1, 1, 1, 0, 0, 0, -1, 0, 0, 0, 0, 0, 0, 1);
    lemma_mul_is_distributive_add((-1) * mono(a, b, l, x1, y1, x2, y2, 1, 1, 1, 0, 0, 1, 0), (-1) * mono(a, b, l, x1, y1, x2, y2, 0, 0, 1, 1, 0, 0, 0), 1 * mono(a, b, l, x1, y1, x2, y2, 0, 0, 1, 0, 0, 1, 0));
    lemma_mul_is_distributive_add((-1) * mono(a, b, l, x1, y1, x2, y2, 1, 1, 1, 0, 0, 1, 0), (-1) * mono(a, b, l, x1, y1, x2, y2, 0, 0, 1, 1, 0, 0, 0) + 1 * mono(a, b, l, x1, y1, x2, y2, 0, 0, 1, 0, 0, 1, 0), 1 * mono(a, b, l, x1, y1, x2, y2, 0, 0, 0, 0, 1, 0, 0));
    lemma_mul_is_distributive_add((-1) * mono(a, b, l, x1, y1, x2, y2, 1, 1, 1, 0, 0, 1, 0), (-1) * mono(a, b, l, x1, y1, x2, y2, 0, 0, 1, 1, 0, 0, 0) + 1 * mono(a, b, l, x1, y1, x2, y2, 0, 0, 1, 0, 0, 1, 0) + 1 * mono(a, b, l, x1, y1, x2, y2, 0, 0, 0, 0, 1, 0, 0), (-1) * mono(a, b, l, x1, y1, x2, y2, 0, 0, 0, 0, 0, 0, 1));
    lemma_term_mul(a, b, l, x1, y1, x2, y2, -1, 1, 1, 1, 0, 0, 1, 0, -1, 0, 0, 1, 1, 0, 0, 0);
    lemma_term_mul(a, b, l, x1, y1, x2, y2, -1, 1, 1, 1, 0, 0, 1, 0, 1, 0, 0, 1, 0, 0, 1, 0);
    lemma_term_mul(a, b, l, x1, y1, x2, y2, -1, 1, 1, 1, 0, 0, 1, 0, 1, 0, 0, 0, 0, 1, 0, 0);
    lemma_term_mul(a, b, l, x1, y1, x2, y2, -1, 1, 1, 1, 0, 0, 1, 0, -1, 0, 0, 0, 0, 0, 0, 1);
    lemma_mul_is_distributive_add((-1) * mono(a, b, l, x1, y1, x2, y2, 1, 1, 0, 0, 1, 0, 0), (-1) * mono(a, b, l, x1, y1, x2, y2, 0, 0, 1, 1, 0, 0, 0), 1 * mono(a, b, l, x1, y1, x2, y2, 0, 0, 1, 0, 0, 1, 0));
    lemma_mul_is_distributive_add((-1) * mono(a, b, l, x1, y1, x2, y2, 1, 1, 0, 0, 1, 0, 0), (-1) * mono(a, b, l, x1, y1, x2, y2, 0, 0, 1, 1, 0, 0, 0) + 1 * mono(a, b, l, x1, y1, x2, y2, 0, 0, 1, 0, 0, 1, 0), 1 * mono(a, b, l, x1, y1, x2, y2, 0, 0, 0, 0, 1, 0, 0));
    lemma_mul_is_distributive_add((-1) * mono(a, b, l, x1, y1, x2, y2, 1, 1, 0, 0, 1, 0, 0), (-1) * mono(a, b, l, x1, y1, x2, y2, 0, 0, 1, 1, 0, 0, 0) + 1 * mono(a, b, l, x1, y1, x2, y2, 0, 0, 1, 0, 0, 1, 0) + 1 * mono(a, b, l, x1, y1, x2, y2, 0, 0, 0, 0, 1, 0, 0), (-1) * mono(a, b, l, x1, y1, x2, y2, 0, 0, 0, 0, 0, 0, 1));
    lemma_term_mul(a, b, l, x1, y1, x2, y2, -1, 1, 1, 0, 0, 1, 0, 0, -1, 0, 0, 1, 1, 0, 0, 0);
    lemma_term_mul(a, b, l, x1, y1, x2, y2, -1, 1, 1, 0, 0, 1, 0, 0, 1, 0, 0, 1, 0, 0, 1, 0);
    lemma_term_mul(a, b, l, x1, y1, x2, y2, -1, 1, 1, 0, 0, 1, 0, 0, 1, 0, 0, 0, 0, 1, 0, 0);
    lemma_term_mul(a, b, l, x1, y1, x2, y2, -1, 1, 1, 0, 0, 1, 0, 0, -1, 0, 0, 0, 0, 0, 0, 1);
    lemma_mul_is_distributive_add((-1) * mono(a, b, l, x1, y1, x2, y2, 1, 1, 0, 0, 0, 0, 1), (-1) * mono(a, b, l, x1, y1, x2, y2, 0, 0, 1, 1, 0, 0, 0), 1 * mono(a, b, l, x1, y1, x2, y2, 0, 0, 1, 0, 0, 1, 0));
    lemma_mul_is_distributive_add((-1) * mono(a, b, l, x1, y1, x2, y2, 1, 1, 0, 0, 0, 0, 1), (-1) * mono(a, b, l, x1, y1, x2, y2, 0, 0, 1, 1, 0, 0, 0) + 1 * mono(a, b, l, x1, y1, x2, y2, 0, 0, 1, 0, 0, 1, 0), 1 * mono(a, b, l, x1, y1, x2, y2, 0, 0, 0, 0, 1, 0, 0));
    lemma_mul_is_distributive_add((-1) * mono(a, b, l, x1, y1, x2, y2, 1, 1, 0, 0, 0, 0, 1), (-1) * mono(a, b, l, x1, y1, x2, y2, 0, 0, 1, 1, 0, 0, 0) + 1 * mono(a, b, l, x1, y1, x2, y2, 0, 0, 1, 0, 0, 1, 0) + 1 * mono(a, b, l, x1, y1, x2, y2, 0, 0, 0, 0, 1, 0, 0), (-1) * mono(a, b, l, x1, y1, x2, y2, 0, 0, 0, 0, 0, 0, 1));
    lemma_term_mul(a, b, l, x1, y1, x2, y2, -1, 1, 1, 0, 0, 0, 0, 1, -1, 0, 0, 1, 1, 0, 0, 0);
    lemma_term_mul(a, b, l, x1, y1, x2, y2, -1, 1, 1, 0, 0, 0, 0, 1, 1, 0, 0, 1, 0, 0, 1, 0);
    lemma_term_mul(a, b, l, x1, y1, x2, y2, -1, 1, 1, 0, 0, 0, 0, 1, 1, 0, 0, 0, 0, 1, 0, 0);
    lemma_term_mul(a, b, l, x1, y1, x2, y2, -1, 1, 1, 0, 0, 0, 0, 1, -1, 0, 0, 0, 0, 0, 0, 1);
    lemma_mul_is_distributive_add((-1) * mono(a, b, l, x1, y1, x2, y2, 0, 2, 3, 1, 0, 0, 0), (-1) * mono(a, b, l, x1, y1, x2, y2, 0, 0, 1, 1, 0, 0, 0), 1 * mono(a, b, l, x1, y1, x2, y2, 0, 0, 1, 0, 0, 1, 0));
    lemma_mul_is_distributive_add((-1) * mono(a, b, l, x1, y1, x2, y2, 0, 2, 3, 1, 0, 0, 0), (-1) * mono(a, b, l, x1, y1, x2, y2, 0, 0, 1, 1, 0, 0, 0) + 1 * mono(a, b, l, x1, y1, x2, y2, 0, 0, 1, 0, 0, 1, 0), 1 * mono(a, b, l, x1, y1, x2, y2, 0, 0, 0, 0, 1, 0, 0));
    lemma_mul_is_distributive_add((-1) * mono(a, b, l, x1, y1, x2, y2, 0, 2, 3, 1, 0, 0, 0), (-1) * mono(a, b, l, x1, y1, x2, y2, 0, 0, 1, 1, 0, 0, 0) + 1 * mono(a, b, l, x1, y1, x2, y2, 0, 0, 1, 0, 0, 1, 0) + 1 * mono(a, b, l, x1, y1, x2, y2, 0, 0, 0, 0, 1, 0, 0), (-1) * mono(a, b, l, x1, y1, x2, y2, 0, 0, 0, 0, 0, 0, 1));
    lemma_term_mul(a, b, l, x1, y1, x2, y2, -1, 0, 2, 3, 1, 0, 0, 0, -1, 0, 0, 1, 1, 0, 0, 0);
    lemma_term_mul(a, b, l, x1, y1, x2, y2, -1, 0, 2, 3, 1, 0, 0, 0, 1, 0, 0, 1, 0, 0, 1, 0);
    lemma_term_mul(a, b, l, x1, y1, x2, y2, -1, 0, 2, 3, 1, 0, 0, 0, 1, 0, 0, 0, 0, 1, 0, 0);
    lemma_term_mul(a, b, l, x1, y1, x2, y2, -1, 0, 2, 3, 1, 0, 0, 0, -1, 0, 0, 0, 0, 0, 0, 1);
    lemma_mul_is_distributive_add(1 * mono(a, b, l, x1, y1, x2, y2, 0, 2, 3, 0, 0, 1, 0), (-1) * mono(a, b, l, x1, y1, x2, y2, 0, 0, 1, 1, 0, 0, 0), 1 * mono(a, b, l, x1, y1, x2, y2, 0, 0, 1, 0, 0, 1, 0));
    lemma_mul_is_distributive_add(1 * mono(a, b, l, x1, y1, x2, y2, 0, 2, 3, 0, 0, 1, 0), (-1) * mono(a, b, l, x1, y1, x2, y2, 0, 0, 1, 1, 0, 0, 0) + 1 * mono(a, b, l, x1, y1, x2, y2, 0, 0, 1, 0, 0, 1, 0), 1 * mono(a, b, l, x1, y1, x2, y2, 0, 0, 0, 0, 1, 0, 0));
    lemma_mul_is_distributive_add(1 * mono(a, b, l, x1, y1, x2, y2, 0, 2, 3, 0, 0, 1, 0), (-1) * mono(a, b, l, x1, y1, x2, y2, 0, 0, 1, 1, 0, 0, 0) + 1 * mono(a, b, l, x1, y1, x2, y2, 0, 0, 1, 0, 0, 1, 0) + 1 * mono(a, b, l, x1, y1, x2, y2, 0, 0, 0, 0, 1, 0, 0), (-1) * mono(a, b, l, x1, y1, x2, y2, 0, 0, 0, 0, 0, 0, 1));
    lemma_term_mul(a, b, l, x1, y1, x2, y2, 1, 0, 2, 3, 0, 0, 1, 0, -1, 0, 0, 1, 1, 0, 0, 0);
    lemma_term_mul(a, b, l, x1, y1, x2, y2, 1, 0, 2, 3, 0, 0, 1, 0, 1, 0, 0, 1, 0, 0, 1, 0);
    lemma_term_mul(a, b, l, x1, y1, x2, y2, 1, 0, 2, 3, 0, 0, 1, 0, 1, 0, 0, 0, 0, 1, 0, 0);
    lemma_term_mul(a, b, l, x1, y1, x2, y2, 1, 0, 2, 3, 0, 0, 1, 0, -1, 0, 0, 0, 0, 0, 0, 1);
    lemma_mul_is_distributive_add(1 * mono(a, b, l, x1, y1, x2, y2, 0, 2, 2, 0, 1, 0, 0), (-1) * mono(a, b, l, x1, y1, x2, y2, 0, 0, 1, 1, 0, 0, 0), 1 * mono(a, b, l, x1, y1, x2, y2, 0, 0, 1, 0, 0, 1, 0));
    lemma_mul_is_distributive_add(1 * mono(a, b, l, x1, y1, x2, y2, 0, 2, 2, 0, 1, 0, 0), (-1) * mono(a, b, l, x1, y1, x2, y2, 0, 0, 1, 1, 0, 0, 0) + 1 * mono(a, b, l, x1, y1, x2, y2, 0, 0, 1, 0, 0, 1, 0), 1 * mono(a, b, l, x1, y1, x2, y2, 0, 0, 0, 0, 1, 0, 0));
    lemma_mul_is_distributive_add(1 * mono(a, b, l, x1, y1, x2, y2, 0, 2, 2, 0, 1, 0, 0), (-1) * mono(a, b, l, x1, y1, x2, y2, 0, 0, 1, 1, 0, 0, 0) + 1 * mono(a, b, l, x1, y1, x2, y2, 0, 0, 1, 0, 0, 1, 0) + 1 * mono(a, b, l, x1, y1, x2, y2, 0, 0, 0, 0, 1, 0, 0), (-1) * mono(a, b, l, x1, y1, x2, y2, 0, 0, 0, 0, 0, 0, 1));
    lemma_term_mul(a, b, l, x1, y1, x2, y2, 1, 0, 2, 2, 0, 1, 0, 0, -1, 0, 0, 1, 1, 0, 0, 0);
    lemma_term_mul(a, b, l, x1, y1, x2, y2, 1, 0, 2, 2, 0, 1, 0, 0, 1, 0, 0, 1, 0, 0, 1, 0);
    lemma_term_mul(a, b, l, x1, y1, x2, y2, 1, 0, 2, 2, 0, 1, 0, 0, 1, 0, 0, 0, 0, 1, 0, 0);
    lemma_term_mul(a, b, l, x1, y1, x2, y2, 1, 0, 2, 2, 0, 1, 0, 0, -1, 0, 0, 0, 0, 0, 0, 1);
    lemma_mul_is_distributive_add(1 * mono(a, b, l, x1, y1, x2, y2, 0, 2, 2, 0, 0, 0, 1), (-1) * mono(a, b, l, x1, y1, x2, y2, 0, 0, 1, 1, 0, 0, 0), 1 * mono(a, b, l, x1, y1, x2, y2, 0, 0, 1, 0, 0, 1, 0));
    lemma_mul_is_distributive_add(1 * mono(a, b, l, x1, y1, x2, y2, 0, 2, 2, 0, 0, 0, 1), (-1) * mono(a, b, l, x1, y1, x2, y2, 0, 0, 1, 1, 0, 0, 0) + 1 * mono(a, b, l, x1, y1, x2, y2, 0, 0, 1, 0, 0, 1, 0), 1 * mono(a, b, l, x1, y1, x2, y2, 0, 0, 0, 0, 1, 0, 0));
    lemma_mul_is_distributive_add(1 * mono(a, b, l, x1, y1, x2, y2, 0, 2, 2, 0, 0, 0, 1), (-1) * mono(a, b, l, x1, y1, x2, y2, 0, 0, 1, 1, 0, 0, 0) + 1 * mono(a, b, l, x1, y1, x2, y2, 0, 0, 1, 0, 0, 1, 0) + 1 * mono(a, b, l, x1, y1, x2, y2, 0, 0, 0, 0, 1, 0, 0), (-1) * mono(a, b, l, x1, y1, x2, y2, 0, 0, 0, 0, 0, 0, 1));
    lemma_term_mul(a, b, l, x1, y1, x2, y2, 1, 0, 2, 2, 0, 0, 0, 1, -1, 0, 0, 1, 1, 0, 0, 0);
    lemma_term_mul(a, b, l, x1, y1, x2, y2, 1, 0, 2, 2, 0, 0, 0, 1, 1, 0, 0, 1, 0, 0, 1, 0);
    lemma_term_mul(a, b, l, x1, y1, x2, y2, 1, 0, 2, 2, 0, 0, 0, 1, 1, 0, 0, 0, 0, 1, 0, 0);
    lemma_term_mul(a, b, l, x1, y1, x2, y2, 1, 0, 2, 2, 0, 0, 0, 1, -1, 0, 0, 0, 0, 0, 0, 1);
    lemma_mul_is_distributive_add(2 * mono(a, b, l, x1, y1, x2, y2, 0, 1, 1, 2, 0, 0, 0), (-1) * mono(a, b, l, x1, y1, x2, y2, 0, 0, 1, 1, 0, 0, 0), 1 * mono(a, b, l, x1, y1, x2, y2, 0, 0, 1, 0, 0, 1, 0));
    lemma_mul_is_distributive_add(2 * mono(a, b, l, x1, y1, x2, y2, 0, 1, 1, 2, 0, 0, 0), (-1) * mono(a, b, l, x1, y1, x2, y2, 0, 0, 1, 1, 0, 0, 0) + 1 * mono(a, b, l, x1, y1, x2, y2, 0, 0, 1, 0, 0, 1, 0), 1 * mono(a, b, l, x1, y1, x2, y2, 0, 0, 0, 0, 1, 0, 0));
    lemma_mul_is_distributive_add(2 * mono(a, b, l, x1, y1, x2, y2, 0, 1, 1, 2, 0, 0, 0), (-1) * mono(a, b, l, x1, y1, x2, y2, 0, 0, 1, 1, 0, 0, 0) + 1 * mono(a, b, l, x1, y1, x2, y2, 0, 0, 1, 0, 0, 1, 0) + 1 * mono(a, b, l, x1, y1, x2, y2, 0, 0, 0, 0, 1, 0, 0), (-1) * mono(a, b, l, x1, y1, x2, y2, 0, 0, 0, 0, 0, 0, 1));
    lemma_term_mul(a, b, l, x1, y1, x2, y2, 2, 0, 1, 1, 2, 0, 0, 0, -1, 0, 0, 1, 1, 0, 0, 0);
    lemma_term_mul(a, b, l, x1, y1, x2, y2, 2, 0, 1, 1, 2, 0, 0, 0, 1, 0, 0, 1, 0, 0, 1, 0);
    lemma_term_mul(a, b, l, x1, y1, x2, y2, 2, 0, 1, 1, 2, 0, 0, 0, 1, 0, 0, 0, 0, 1, 0, 0);
    lemma_term_mul(a, b, l, x1, y1, x2, y2, 2, 0, 1, 1, 2, 0, 0, 0, -1, 0, 0, 0, 0, 0, 0, 1);
    lemma_mul_is_distributive_add((-1) * mono(a, b, l, x1, y1, x2, y2, 0, 1, 1, 1, 0, 1, 0), (-1) * mono(a, b, l, x1, y1, x2, y2, 0, 0, 1, 1, 0, 0, 0), 1 * mono(a, b, l, x1, y1, x2, y2, 0, 0, 1, 0, 0, 1, 0));
    lemma_mul_is_distributive_add((-1) * mono(a, b, l, x1, y1, x2, y2, 0, 1, 1, 1, 0, 1, 0), (-1) * mono(a, b, l, x1, y1, x2, y2, 0, 0, 1, 1, 0, 0, 0) + 1 * mono(a, b, l, x1, y1, x2, y2, 0, 0, 1, 0, 0, 1, 0), 1 * mono(a, b, l, x1, y1, x2, y2, 0, 0, 0, 0, 1, 0, 0));
    lemma_mul_is_distributive_add((-1) * mono(a, b, l, x1, y1, x2, y2, 0, 1, 1, 1, 0, 1, 0), (-1) * mono(a, b, l, x1, y1, x2, y2, 0, 0, 1, 1, 0, 0, 0) + 1 * mono(a, b, l, x1, y1, x2, y2, 0, 0, 1, 0, 0, 1, 0) + 1 * mono(a, b, l, x1, y1, x2, y2, 0, 0, 0, 0, 1, 0, 0), (-1) * mono(a, b, l, x1, y1, x2, y2, 0, 0, 0, 0, 0, 0, 1));
    lemma_term_mul(a, b, l, x1, y1, x2, y2, -1, 0, 1, 1, 1, 0, 1, 0, -1, 0, 0, 1, 1, 0, 0, 0);
    lemma_term_mul(a, b, l, x1, y1, x2, y2, -1, 0, 1, 1, 1, 0, 1, 0, 1, 0, 0, 1, 0, 0, 1, 0);
    lemma_term_mul(a, b, l, x1, y1, x2, y2, -1, 0, 1, 1, 1, 0, 1, 0, 1, 0, 0, 0, 0, 1, 0, 0);
    lemma_term_mul(a, b, l, x1, y1, x2, y2, -1, 0, 1, 1, 1, 0, 1, 0, -1, 0, 0, 0, 0, 0, 0, 1);
    lemma_mul_is_distributive_add((-1) * mono(a, b, l, x1, y1, x2, y2, 0, 1, 1, 0, 0, 2, 0), (-1) * mono(a, b, l, x1, y1, x2, y2, 0, 0, 1, 1, 0, 0, 0), 1 * mono(a, b, l, x1, y1, x2, y2, 0, 0, 1, 0, 0, 1, 0));
    lemma_mul_is_distributive_add((-1) * mono(a, b, l, x1, y1, x2, y2, 0, 1, 1, 0, 0, 2, 0), (-1) * mono(a, b, l, x1, y1, x2, y2, 0, 0, 1, 1, 0, 0, 0) + 1 * mono(a, b, l, x1, y1, x2, y2, 0, 0, 1, 0, 0, 1, 0), 1 * mono(a, b, l, x1, y1, x2, y2, 0, 0, 0, 0, 1, 0, 0));
    lemma_mul_is_distributive_add((-1) * mono(a, b, l, x1, y1, x2, y2, 0, 1, 1, 0, 0, 2, 0), (-1) * mono(a, b, l, x1, y1, x2, y2, 0, 0, 1, 1, 0, 0, 0) + 1 * mono(a, b, l, x1, y1, x2, y2, 0, 0, 1, 0, 0, 1, 0) + 1 * mono(a, b, l, x1, y1, x2, y2, 0, 0, 0, 0, 1, 0, 0), (-1) * mono(a, b, l, x1, y1, x2, y2, 0, 0, 0, 0, 0, 0, 1));
    lemma_term_mul(a, b, l, x1, y1, x2, y2, -1, 0, 1, 1, 0, 0, 2, 0, -1, 0, 0, 1, 1, 0, 0, 0);
    lemma_term_mul(a, b, l, x1, y1, x2, y2, -1, 0, 1, 1, 0, 0, 2, 0, 1, 0, 0, 1, 0, 0, 1, 0);
    lemma_term_mul(a, b, l, x1, y1, x2, y2, -1, 0, 1, 1, 0, 0, 2, 0, 1, 0, 0, 0, 0, 1, 0, 0);
    lemma_term_mul(a, b, l, x1, y1, x2, y2, -1, 0, 1, 1, 0, 0, 2, 0, -1, 0, 0, 0, 0, 0, 0, 1);
    lemma_mul_is_distributive_add((-2) * mono(a, b, l, x1, y1, x2, y2, 0, 1, 0, 1, 1, 0, 0), (-1) * mono(a, b, l, x1, y1, x2, y2, 0, 0, 1, 1, 0, 0, 0), 1 * mono(a, b, l, x1, y1, x2, y2, 0, 0, 1, 0, 0, 1, 0));
    lemma_mul_is_distributive_add((-2) * mono(a, b, l, x1, y1, x2, y2, 0, 1, 0, 1, 1, 0, 0), (-1) * mono(a, b, l, x1, y1, x2, y2, 0, 0, 1, 1, 0, 0, 0) + 1 * mono(a, b, l, x1, y1, x2, y2, 0, 0, 1, 0, 0, 1, 0), 1 * mono(a, b, l, x1, y1, x2, y2, 0, 0, 0, 0, 1, 0, 0));
    lemma_mul_is_distributive_add((-2) * mono(a, b, l, x1, y1, x2, y2, 0, 1, 0, 1, 1, 0, 0), (-1) * mono(a, b, l, x1, y1, x2, y2, 0, 0, 1, 1, 0, 0, 0) + 1 * mono(a, b, l, x1, y1, x2, y2, 0, 0, 1, 0, 0, 1, 0) + 1 * mono(a, b, l, x1, y1, x2, y2, 0, 0, 0, 0, 1, 0, 0), (-1) * mono(a, b, l, x1, y1, x2, y2, 0, 0, 0, 0, 0, 0, 1));
    lemma_term_mul(a, b, l, x1, y1, x2, y2, -2, 0, 1, 0, 1, 1, 0, 0, -1, 0, 0, 1, 1, 0, 0, 0);
    lemma_term_mul(a, b, l, x1, y1, x2, y2, -2, 0, 1, 0, 1, 1, 0, 0, 1, 0, 0, 1, 0, 0, 1, 0);
    lemma_term_mul(a, b, l, x1, y1, x2, y2, -2, 0, 1, 0, 1, 1, 0, 0, 1, 0, 0, 0, 0, 1, 0, 0);
    lemma_term_mul(a, b, l, x1, y1, x2, y2, -2, 0, 1, 0, 1, 1, 0, 0, -1, 0, 0, 0, 0, 0, 0, 1);
    lemma_mul_is_distributive_add((-2) * mono(a, b, l, x1, y1, x2, y2, 0, 1, 0, 1, 0, 0, 1), (-1) * mono(a, b, l, x1, y1, x2, y2, 0, 0, 1, 1, 0, 0, 0), 1 * mono(a, b, l, x1, y1, x2, y2, 0, 0, 1, 0, 0, 1, 0));
    lemma_mul_is_distributive_add((-2) * mono(a, b, l, x1, y1, x2, y2, 0, 1, 0, 1, 0, 0, 1), (-1) * mono(a, b, l, x1, y1, x2, y2, 0, 0, 1, 1, 0, 0, 0) + 1 * mono(a, b, l, x1, y1, x2, y2, 0, 0, 1, 0, 0, 1, 0), 1 * mono(a, b, l, x1, y1, x2, y2, 0, 0, 0, 0, 1, 0, 0));
    lemma_mul_is_distributive_add((-2) * mono(a, b, l, x1, y1, x2, y2, 0, 1, 0, 1, 0, 0, 1), (-1) * mono(a, b, l, x1, y1, x2, y2, 0, 0, 1, 1, 0, 0, 0) + 1 * mono(a, b, l, x1, y1, x2, y2, 0, 0, 1, 0, 0, 1, 0) + 1 * mono(a, b, l, x1, y1, x2, y2, 0, 0, 0, 0, 1, 0, 0), (-1) * mono(a, b, l, x1, y1, x2, y2, 0, 0, 0, 0, 0, 0, 1));
    lemma_term_mul(a, b, l, x1, y1, x2, y2, -2, 0, 1, 0, 1, 0, 0, 1, -1, 0, 0, 1, 1, 0, 0, 0);
    lemma_term_mul(a, b, l, x1, y1, x2, y2, -2, 0, 1, 0, 1, 0, 0, 1, 1, 0, 0, 1, 0, 0, 1, 0);
    lemma_term_mul(a, b, l, x1, y1, x2, y2, -2, 0, 1, 0, 1, 0, 0, 1, 1, 0, 0, 0, 0, 1, 0, 0);
    lemma_term_mul(a, b, l, x1, y1, x2, y2, -2, 0, 1, 0, 1, 0, 0, 1, -1, 0, 0, 0, 0, 0, 0, 1);
    lemma_mul_is_distributive_add((-1) * mono(a, b, l, x1, y1, x2, y2, 0, 1, 0, 0, 1, 1, 0), (-1) * mono(a, b, l, x1, y1, x2, y2, 0, 0, 1, 1, 0, 0, 0), 1 * mono(a, b, l, x1, y1, x2, y2, 0, 0, 1, 0, 0, 1, 0));
    lemma_mul_is_distributive_add((-1) * mono(a, b, l, x1, y1, x2, y2, 0, 1, 0, 0, 1, 1, 0), (-1) * mono(a, b, l, x1, y1, x2, y2, 0, 0, 1, 1, 0, 0, 0) + 1 * mono(a, b, l, x1, y1, x2, y2, 0, 0, 1, 0, 0, 1, 0), 1 * mono(a, b, l, x1, y1, x2, y2, 0, 0, 0, 0, 1, 0, 0));
    lemma_mul_is_distributive_add((-1) * mono(a, b, l, x1, y1, x2, y2, 0, 1, 0, 0, 1, 1, 0), (-1) * mono(a, b, l, x1, y1, x2, y2, 0, 0, 1, 1, 0, 0, 0) + 1 * mono(a, b, l, x1, y1, x2, y2, 0, 0, 1, 0, 0, 1, 0) + 1 * mono(a, b, l, x1, y1, x2, y2, 0, 0, 0, 0, 1, 0, 0), (-1) * mono(a, b, l, x1, y1, x2, y2, 0, 0, 0, 0, 0, 0, 1));
    lemma_term_mul(a, b, l, x1, y1, x2, y2, -1, 0, 1, 0, 0, 1, 1, 0, -1, 0, 0, 1, 1, 0, 0, 0);
    lemma_term_mul(a, b, l, x1, y1, x2, y2, -1, 0, 1, 0, 0, 1, 1, 0, 1, 0, 0, 1, 0, 0, 1, 0);
    lemma_term_mul(a, b, l, x1, y1, x2, y2, -1, 0, 1, 0, 0, 1, 1, 0, 1, 0, 0, 0, 0, 1, 0, 0);
    lemma_term_mul(a, b, l, x1, y1, x2, y2, -1, 0, 1, 0, 0, 1, 1, 0, -1, 0, 0, 0, 0, 0, 0, 1);
    lemma_mul_is_distributive_add((-1) * mono(a, b, l, x1, y1, x2, y2, 0, 1, 0, 0, 0, 1, 1), (-1) * mono(a, b, l, x1, y1, x2, y2, 0, 0, 1, 1, 0, 0, 0), 1 * mono(a, b, l, x1, y1, x2, y2, 0, 0, 1, 0, 0, 1, 0));
    lemma_mul_is_distributive_add((-1) * mono(a, b, l, x1, y1, x2, y2, 0, 1, 0, 0, 0, 1, 1), (-1) * mono(a, b, l, x1, y1, x2, y2, 0, 0, 1, 1, 0, 0, 0) + 1 * mono(a, b, l, x1, y1, x2, y2, 0, 0, 1, 0, 0, 1, 0), 1 * mono(a, b, l, x1, y1, x2, y2, 0, 0, 0, 0, 1, 0, 0));
    lemma_mul_is_distributive_add((-1) * mono(a, b, l, x1, y1, x2, y2, 0, 1, 0, 0, 0, 1, 1), (-1) * mono(a, b, l, x1, y1, x2, y2, 0, 0, 1, 1, 0, 0, 0) + 1 * mono(a, b, l, x1, y1, x2, y2, 0, 0, 1, 0, 0, 1, 0) + 1 * mono(a, b, l, x1, y1, x2, y2, 0, 0, 0, 0, 1, 0, 0), (-1) * mono(a, b, l, x1, y1, x2, y2, 0, 0, 0, 0, 0, 0, 1));
    lemma_term_mul(a, b, l, x1, y1, x2, y2, -1, 0, 1, 0, 0, 0, 1, 1, -1, 0, 0, 1, 1, 0, 0, 0);
    lemma_term_mul(a, b, l, x1, y1, x2, y2, -1, 0, 1, 0, 0, 0, 1, 1, 1, 0, 0, 1, 0, 0, 1, 0);
    lemma_term_mul(a, b, l, x1, y1, x2, y2, -1, 0, 1, 0, 0, 0, 1, 1, 1, 0, 0, 0, 0, 1, 0, 0);
    lemma_term_mul(a, b, l, x1, y1, x2, y2, -1, 0, 1, 0, 0, 0, 1, 1, -1, 0, 0, 0, 0, 0, 0, 1);
    assert((1 * mono(a, b, l, x1, y1, x2, y2, 1, 1, 1, 1, 0, 0, 0) + (-1) * mono(a, b, l, x1, y1, x2, y2, 1, 1, 1, 0, 0, 1, 0) + (-1) * mono(a, b, l, x1, y1, x2, y2, 1, 1, 0, 0, 1, 0, 0) + (-1) * mono(a, b, l, x1, y1, x2, y2, 1, 1, 0, 0, 0, 0, 1) + (-1) * mono(a, b, l, x1, y1, x2, y2, 0, 2, 3, 1, 0, 0, 0) + 1 * mono(a, b, l, x1, y1, x2, y2, 0, 2, 3, 0, 0, 1, 0) + 1 * mono(a, b, l, x1, y1, x2, y2, 0, 2, 2, 0, 1, 0, 0) + 1 * mono(a, b, l, x1, y1, x2, y2, 0, 2, 2, 0, 0, 0, 1) + 2 * mono(a, b, l, x1, y1, x2, y2, 0, 1, 1, 2, 0, 0, 0) + (-1) * mono(a, b, l, x1, y1, x2, y2, 0, 1, 1, 1, 0, 1, 0) + (-1) * mono(a, b, l, x1, y1, x2, y2, 0, 1, 1, 0, 0, 2, 0) + (-2) * mono(a, b, l, x1, y1, x2, y2, 0, 1, 0, 1, 1, 0, 0) + (-2) * mono(a, b, l, x1, y1, x2, y2, 0, 1, 0, 1, 0, 0, 1) + (-1) * mono(a, b, l, x1, y1, x2, y2, 0, 1, 0, 0, 1, 1, 0) + (-1) * mono(a, b, l, x1, y1, x2, y2, 0, 1, 0, 0, 0, 1, 1)) * ((-1) * mono(a, b, l, x1, y1, x2, y2, 0, 0, 1, 1, 0, 0, 0) + 1 * mono(a, b, l, x1, y1, x2, y2, 0, 0, 1, 0, 0, 1, 0) + 1 * mono(a, b, l, x1, y1, x2, y2, 0, 0, 0, 0, 1, 0, 0) + (-1) * mono(a, b, l, x1, y1, x2, y2, 0, 0, 0, 0, 0, 0, 1)) == (-1) * mono(a, b, l, x1, y1, x2, y2, 1, 1, 2, 2, 0, 0, 0) + 2 * mono(a, b, l, x1, y1, x2, y2, 1, 1, 2, 1, 0, 1, 0) + (-1) * mono(a, b, l, x1, y1, x2, y2, 1, 1, 2, 0, 0, 2, 0) + 2 * mono(a, b, l, x1, y1, x2, y2, 1, 1, 1, 1, 1, 0, 0) + (-2) * mono(a, b, l, x1, y1, x2, y2, 1, 1, 1, 0, 1, 1, 0) + (-1) * mono(a, b, l, x1, y1, x2, y2, 1, 1, 0, 0, 2, 0, 0) + 1 * mono(a, b, l, x1, y1, x2, y2, 1, 1, 0, 0, 0, 0, 2) + 1 * mono(a, b, l, x1, y1, x2, y2, 0, 2, 4, 2, 0, 0, 0) + (-2) * mono(a, b, l, x1, y1, x2, y2, 0, 2, 4, 1, 0, 1, 0) + 1 * mono(a, b, l, x1, y1, x2, y2, 0, 2, 4, 0, 0, 2, 0) + (-2) * mono(a, b, l, x1, y1, x2, y2, 0, 2, 3, 1, 1, 0, 0) + 2 * mono(a, b, l, x1, y1, x2, y2, 0, 2, 3, 0, 1, 1, 0) + 1 * mono(a, b, l, x1, y1, x2, y2, 0, 2, 2, 0, 2, 0, 0) + (-1) * mono(a, b, l, x1, y1, x2, y2, 0, 2, 2, 0, 0, 0, 2) + (-2) * mono(a, b, l, x1, y1, x2, y2, 0, 1, 2, 3, 0, 0, 0) + 3 * mono(a, b, l, x1, y1, x2, y2, 0, 1, 2, 2, 0, 1, 0) + (-1) * mono(a, b, l, x1, y1, x2, y2, 0, 1, 2, 0, 0, 3, 0) + 4 * mono(a, b, l, x1, y1, x2, y2, 0, 1, 1, 2, 1, 0, 0) + (-2) * mono(a, b, l, x1, y1, x2, y2, 0, 1, 1, 1, 1, 1, 0) + (-2) * mono(a, b, l, x1, y1, x2, y2, 0, 1, 1, 0, 1, 2, 0) + (-2) * mono(a, b, l, x1, y1, x2, y2, 0, 1, 0, 1, 2, 0, 0) + 2 * mono(a, b, l, x1, y1, x2, y2, 0, 1, 0, 1, 0, 0, 2) + (-1) * mono(a, b, l, x1, y1, x2, y2, 0, 1, 0, 0, 2, 1, 0) + 1 * mono(a, b, l, x1, y1, x2, y2, 0, 1, 0, 0, 0, 1, 2));
    lemma_mul_is_distributive_add_other_way(((-1) * mono(a, b, l, x1, y1, x2, y2, 1, 0, 0, 2, 0, 0, 0) + 1 * mono(a, b, l, x1, y1, x2, y2, 0, 1, 0, 0, 2, 0, 0) + (-1) * mono(a, b, l, x1, y1, x2, y2, 0, 0, 0, 3, 0, 0, 0) + (-1) * mono(a, b, l, x1, y1, x2, y2, 0, 0, 0, 1, 0, 0, 0)), 1 * mono(a, b, l, x1, y1, x2, y2, 1, 0, 0, 0, 0, 0, 0), (-1) * mono(a, b, l, x1, y1, x2, y2, 0, 1, 2, 0, 0, 0, 0));
    lemma_mul_is_distributive_add_other_way(((-1) * mono(a, b, l, x1, y1, x2, y2, 1, 0, 0, 2, 0, 0, 0) + 1 * mono(a, b, l, x1, y1, x2, y2, 0, 1, 0, 0, 2, 0, 0) + (-1) * mono(a, b, l, x1, y1, x2, y2, 0, 0, 0, 3, 0, 0, 0) + (-1) * mono(a, b, l, x1, y1, x2, y2, 0, 0, 0, 1, 0, 0, 0)), 1 * mono(a, b, l, x1, y1, x2, y2, 1, 0, 0, 0, 0, 0, 0) + (-1) * mono(a, b, l, x1, y1, x2, y2, 0, 1, 2, 0, 0, 0, 0), 1 * mono(a, b, l, x1, y1, x2, y2, 0, 0, 0, 1, 0, 0, 0));
    lemma_mul_is_distributive_add_other_way(((-1) * mono(a, b, l, x1, y1, x2, y2, 1, 0, 0, 2, 0, 0, 0) + 1 * mono(a, b, l, x1, y1, x2, y2, 0, 1, 0, 0, 2, 0, 0) + (-1) * mono(a, b, l, x1, y1, x2, y2, 0, 0, 0, 3, 0, 0, 0) + (-1) * mono(a, b, l, x1, y1, x2, y2, 0, 0, 0, 1, 0, 0, 0)), 1 * mono(a, b, l, x1, y1, x2, y2, 1, 0, 0, 0, 0, 0, 0) + (-1) * mono(a, b, l, x1, y1, x2, y2, 0, 1, 2, 0, 0, 0, 0) + 1 * mono(a, b, l, x1, y1, x2, y2, 0, 0, 0, 1, 0, 0, 0), 2 * mono(a, b, l, x1, y1, x2, y2, 0, 0, 0, 0, 0, 1, 0));
    lemma_mul_is_distributive_add(1 * mono(a, b, l, x1, y1, x2, y2, 1, 0, 0, 0, 0, 0, 0), (-1) * mono(a, b, l, x1, y1, x2, y2, 1, 0, 0, 2, 0, 0, 0), 1 * mono(a, b, l, x1, y1, x2, y2, 0, 1, 0, 0, 2, 0, 0));
    lemma_mul_is_distributive_add(1 * mono(a, b, l, x1, y1, x2, y2, 1, 0, 0, 0, 0, 0, 0), (-1) * mono(a, b, l, x1, y1, x2, y2, 1, 0, 0, 2, 0, 0, 0) + 1 * mono(a, b, l, x1, y1, x2, y2, 0, 1, 0, 0, 2, 0, 0), (-1) * mono(a, b, l, x1, y1, x2, y2, 0, 0, 0, 3, 0, 0, 0));
    lemma_mul_is_distributive_add(1 * mono(a, b, l, x1, y1, x2, y2, 1, 0, 0, 0, 0, 0, 0), (-1) * mono(a, b, l, x1, y1, x2, y2, 1, 0, 0, 2, 0, 0, 0) + 1 * mono(a, b, l, x1, y1, x2, y2, 0, 1, 0, 0, 2, 0, 0) + (-1) * mono(a, b, l, x1, y1, x2, y2, 0, 0, 0, 3, 0, 0, 0), (-1) * mono(a, b, l, x1, y1, x2, y2, 0, 0, 0, 1, 0, 0, 0));
    lemma_term_mul(a, b, l, x1, y1, x2, y2, 1, 1, 0, 0, 0, 0, 0, 0, -1, 1, 0, 0, 2, 0, 0, 0);
    lemma_term_mul(a, b, l, x1, y1, x2, y2, 1, 1, 0, 0, 0, 0, 0, 0, 1, 0, 1, 0, 0, 2, 0, 0);
    lemma_term_mul(a, b, l, x1, y1, x2, y2, 1, 1, 0, 0, 0, 0, 0, 0, -1, 0, 0, 0, 3, 0, 0, 0);
    lemma_term_mul(a, b, l, x1, y1, x2, y2, 1, 1, 0, 0, 0, 0, 0, 0, -1, 0, 0, 0, 1, 0, 0, 0);
    lemma_mul_is_distributive_add((-1) * mono(a, b, l, x1, y1, x2, y2, 0, 1, 2, 0, 0, 0, 0), (-1) * mono(a, b, l, x1, y1, x2, y2, 1, 0, 0, 2, 0, 0, 0), 1 * mono(a, b, l, x1, y1, x2, y2, 0, 1, 0, 0, 2, 0, 0));
    lemma_mul_is_distributive_add((-1) * mono(a, b, l, x1, y1, x2, y2, 0, 1, 2, 0, 0, 0, 0), (-1) * mono(a, b, l, x1, y1, x2, y2, 1, 0, 0, 2, 0, 0, 0) + 1 * mono(a, b, l, x1, y1, x2, y2, 0, 1, 0, 0, 2, 0, 0), (-1) * mono(a, b, l, x1, y1, x2, y2, 0, 0, 0, 3, 0, 0, 0));
    lemma_mul_is_distributive_add((-1) * mono(a, b, l, x1, y1, x2, y2, 0, 1, 2, 0, 0, 0, 0), (-1) * mono(a, b, l, x1, y1, x2, y2, 1, 0, 0, 2, 0, 0, 0) + 1 * mono(a, b, l, x1, y1, x2, y2, 0, 1, 0, 0, 2, 0, 0) + (-1) * mono(a, b, l, x1, y1, x2, y2, 0, 0, 0, 3, 0, 0, 0), (-1) * mono(a, b, l, x1, y1, x2, y2, 0, 0, 0, 1, 0, 0, 0));
    lemma_term_mul(a, b, l, x1, y1, x2, y2, -1, 0, 1, 2, 0, 0, 0, 0, -1, 1, 0, 0, 2, 0, 0, 0);
    lemma_term_mul(a, b, l, x1, y1, x2, y2, -1, 0, 1, 2, 0, 0, 0, 0, 1, 0, 1, 0, 0, 2, 0, 0);
    lemma_term_mul(a, b, l, x1, y1, x2, y2, -1, 0, 1, 2, 0, 0, 0, 0, -1, 0, 0, 0, 3, 0, 0, 0);
    lemma_term_mul(a, b, l, x1, y1, x2, y2, -1, 0, 1, 2, 0, 0, 0, 0, -1, 0, 0, 0, 1, 0, 0, 0);
    lemma_mul_is_distributive_add(1 * mono(a, b, l, x1, y1, x2, y2, 0, 0, 0, 1, 0, 0, 0), (-1) * mono(a, b, l, x1, y1, x2, y2, 1, 0, 0, 2, 0, 0, 0), 1 * mono(a, b, l, x1, y1, x2, y2, 0, 1, 0, 0, 2, 0, 0));
    lemma_mul_is_distributive_add(1 * mono(a, b, l, x1, y1, x2, y2, 0, 0, 0, 1, 0, 0, 0), (-1) * mono(a, b, l, x1, y1, x2, y2, 1, 0, 0, 2, 0, 0, 0) + 1 * mono(a, b, l, x1, y1, x2, y2, 0, 1, 0, 0, 2, 0, 0), (-1) * mono(a, b, l, x1, y1, x2, y2, 0, 0, 0, 3, 0, 0, 0));
    lemma_mul_is_distributive_add(1 * mono(a, b, l, x1, y1, x2, y2, 0, 0, 0, 1, 0, 0, 0), (-1) * mono(a, b, l, x1, y1, x2, y2, 1, 0, 0, 2, 0, 0, 0) + 1 * mono(a, b, l, x1, y1, x2, y2, 0, 1, 0, 0, 2, 0, 0) + (-1) * mono(a, b, l, x1, y1, x2, y2, 0, 0, 0, 3, 0, 0, 0), (-1) * mono(a, b, l, x1, y1, x2, y2, 0, 0, 0, 1, 0, 0, 0));
    lemma_term_mul(a, b, l, x1, y1, x2, y2, 1, 0, 0, 0, 1, 0, 0, 0, -1, 1, 0, 0, 2, 0, 0, 0);
    lemma_term_mul(a, b, l, x1, y1, x2, y2, 1, 0, 0, 0, 1, 0, 0, 0, 1, 0, 1, 0, 0, 2, 0, 0);
    lemma_term_mul(a, b, l, x1, y1, x2, y2, 1, 0, 0, 0, 1, 0, 0, 0, -1, 0, 0, 0, 3, 0, 0, 0);
    lemma_term_mul(a, b, l, x1, y1, x2, y2, 1, 0, 0, 0, 1, 0, 0, 0, -1, 0, 0, 0, 1, 0, 0, 0);
    lemma_mul_is_distributive_add(2 * mono(a, b, l, x1, y1, x2, y2, 0, 0, 0, 0, 0, 1, 0), (-1) * mono(a, b, l, x1, y1, x2, y2, 1, 0, 0, 2, 0, 0, 0), 1 * mono(a, b, l, x1, y1, x2, y2, 0, 1, 0, 0, 2, 0, 0));
    lemma_mul_is_distributive_add(2 * mono(a, b, l, x1, y1, x2, y2, 0, 0, 0, 0, 0, 1, 0), (-1) * mono(a, b, l, x1, y1, x2, y2, 1, 0, 0, 2, 0, 0, 0) + 1 * mono(a, b, l, x1, y1, x2, y2, 0, 1, 0, 0, 2, 0, 0), (-1) * mono(a, b, l, x1, y1, x2, y2, 0, 0, 0, 3, 0, 0, 0));
    lemma_mul_is_distributive_add(2 * mono(a, b, l, x1, y1, x2, y2, 0, 0, 0, 0, 0, 1, 0), (-1) * mono(a, b, l, x1, y1, x2, y2, 1, 0, 0, 2, 0, 0, 0) + 1 * mono(a, b, l, x1, y1, x2, y2, 0, 1, 0, 0, 2, 0, 0) + (-1) * mono(a, b, l, x1, y1, x2, y2, 0, 0, 0, 3, 0, 0, 0), (-1) * mono(a, b, l, x1, y1, x2, y2, 0, 0, 0, 1, 0, 0, 0));
    lemma_term_mul(a, b, l, x1, y1, x2, y2, 2, 0, 0, 0, 0, 0, 1, 0, -1, 1, 0, 0, 2, 0, 0, 0);
    lemma_term_mul(a, b, l, x1, y1, x2, y2, 2, 0, 0, 0, 0, 0, 1, 0, 1, 0, 1, 0, 0, 2, 0, 0);
    lemma_term_mul(a, b, l, x1, y1, x2, y2, 2, 0, 0, 0, 0, 0, 1, 0, -1, 0, 0, 0, 3, 0, 0, 0);
    lemma_term_mul(a, b, l, x1, y1, x2, y2, 2, 0, 0, 0, 0, 0, 1, 0, -1, 0, 0, 0, 1, 0, 0, 0);
    assert((1 * mono(a, b, l, x1, y1, x2, y2, 1, 0, 0, 0, 0, 0, 0) + (-1) * mono(a, b, l, x1, y1, x2, y2, 0, 1, 2, 0, 0, 0, 0) + 1 * mono(a, b, l, x1, y1, x2, y2, 0, 0, 0, 1, 0, 0, 0) + 2 * mono(a, b, l, x1, y1, x2, y2, 0, 0, 0, 0, 0, 1, 0)) * ((-1) * mono(a, b, l, x1, y1, x2, y2, 1, 0, 0, 2, 0, 0, 0) + 1 * mono(a, b, l, x1, y1, x2, y2, 0, 1, 0, 0, 2, 0, 0) + (-1) * mono(a, b, l, x1, y1, x2, y2, 0, 0, 0, 3, 0, 0, 0) + (-1) * mono(a, b, l, x1, y1, x2, y2, 0, 0, 0, 1, 0, 0, 0)) == (-1) * mono(a, b, l, x1, y1, x2, y2, 2, 0, 0, 2, 0, 0, 0) + 1 * mono(a, b, l, x1, y1, x2, y2, 1, 1, 2, 2, 0, 0, 0) + 1 * mono(a, b, l, x1, y1, x2, y2, 1, 1, 0, 0, 2, 0, 0) + (-2) * mono(a, b, l, x1, y1, x2, y2, 1, 0, 0, 3, 0, 0, 0) + (-2) * mono(a, b, l, x1, y1, x2, y2, 1, 0, 0, 2, 0, 1, 0) + (-1) * mono(a, b, l, x1, y1, x2, y2, 1, 0, 0, 1, 0, 0, 0) + (-1) * mono(a, b, l, x1, y1, x2, y2, 0, 2, 2, 0, 2, 0, 0) + 1 * mono(a, b, l, x1, y1, x2, y2, 0, 1, 2, 3, 0, 0, 0) + 1 * mono(a, b, l, x1, y1, x2, y2, 0, 1, 2, 1, 0, 0, 0) + 1 * mono(a, b, l, x1, y1, x2, y2, 0, 1, 0, 1, 2, 0, 0) + 2 * mono(a, b, l, x1, y1, x2, y2, 0, 1, 0, 0, 2, 1, 0) + (-1) * mono(a, b, l, x1, y1, x2, y2, 0, 0, 0, 4, 0, 0, 0) + (-2) * mono(a, b, l, x1, y1, x2, y2, 0, 0, 0, 3, 0, 1, 0) + (-1) * mono(a, b, l, x1, y1, x2, y2, 0, 0, 0, 2, 0, 0, 0) + (-2) * mono(a, b, l, x1, y1, x2, y2, 0, 0, 0, 1, 0, 1, 0));
    lemma_mul_is_distributive_add_other_way(((-1) * mono(a, b, l, x1, y1, x2, y2, 1, 0, 0, 0, 0, 2, 0) + 1 * mono(a, b, l, x1, y1, x2, y2, 0, 1, 0, 0, 0, 0, 2) + (-1) * mono(a, b, l, x1, y1, x2, y2, 0, 0, 0, 0, 0, 3, 0) + (-1) * mono(a, b, l, x1, y1, x2, y2, 0, 0, 0, 0, 0, 1, 0)), (-1) * mono(a, b, l, x1, y1, x2, y2, 1, 0, 0, 0, 0, 0, 0), 1 * mono(a, b, l, x1, y1, x2, y2, 0, 1, 2, 0, 0, 0, 0));
    lemma_mul_is_distributive_add_other_way(((-1) * mono(a, b, l, x1, y1, x2, y2, 1, 0, 0, 0, 0, 2, 0) + 1 * mono(a, b, l, x1, y1, x2, y2, 0, 1, 0, 0, 0, 0, 2) + (-1) * mono(a, b, l, x1, y1, x2, y2, 0, 0, 0, 0, 0, 3, 0) + (-1) * mono(a, b, l, x1, y1, x2, y2, 0, 0, 0, 0, 0, 1, 0)), (-1) * mono(a, b, l, x1, y1, x2, y2, 1, 0, 0, 0, 0, 0, 0) + 1 * mono(a, b, l, x1, y1, x2, y2, 0, 1, 2, 0, 0, 0, 0), (-2) * mono(a, b, l, x1, y1, x2, y2, 0, 0, 0, 1, 0, 0, 0));
    lemma_mul_is_distributive_add_other_way(((-1) * mono(a, b, l, x1, y1, x2, y2, 1, 0, 0, 0, 0, 2, 0) + 1 * mono(a, b, l, x1, y1, x2, y2, 0, 1, 0, 0, 0, 0, 2) + (-1) * mono(a, b, l, x1, y1, x2, y2, 0, 0, 0, 0, 0, 3, 0) + (-1) * mono(a, b, l, x1, y1, x2, y2, 0, 0, 0, 0, 0, 1, 0)), (-1) * mono(a, b, l, x1, y1, x2, y2, 1, 0, 0, 0, 0, 0, 0) + 1 * mono(a, b, l, x1, y1, x2, y2, 0, 1, 2, 0, 0, 0, 0) + (-2) * mono(a, b, l, x1, y1, x2, y2, 0, 0, 0, 1, 0, 0, 0), (-1) * mono(a, b, l, x1, y1, x2, y2, 0, 0, 0, 0, 0, 1, 0));
    lemma_mul_is_distributive_add((-1) * mono(a, b, l, x1, y1, x2, y2, 1, 0, 0, 0, 0, 0, 0), (-1) * mono(a, b, l, x1, y1, x2, y2, 1, 0, 0, 0, 0, 2, 0), 1 * mono(a, b, l, x1, y1, x2, y2, 0, 1, 0, 0, 0, 0, 2));
    lemma_mul_is_distributive_add((-1) * mono(a, b, l, x1, y1, x2, y2, 1, 0, 0, 0, 0, 0, 0), (-1) * mono(a, b, l, x1, y1, x2, y2, 1, 0, 0, 0, 0, 2, 0) + 1 * mono(a, b, l, x1, y1, x2, y2, 0, 1, 0, 0, 0, 0, 2), (-1) * mono(a, b, l, x1, y1, x2, y2, 0, 0, 0, 0, 0, 3, 0));
    lemma_mul_is_distributive_add((-1) * mono(a, b, l, x1, y1, x2, y2, 1, 0, 0, 0, 0, 0, 0), (-1) * mono(a, b, l, x1, y1, x2, y2, 1, 0, 0, 0, 0, 2, 0) + 1 * mono(a, b, l, x1, y1, x2, y2, 0, 1, 0, 0, 0, 0, 2) + (-1) * mono(a, b, l, x1, y1, x2, y2, 0, 0, 0, 0, 0, 3, 0), (-1) * mono(a, b, l, x1, y1, x2, y2, 0, 0, 0, 0, 0, 1, 0));
    lemma_term_mul(a, b, l, x1, y1, x2, y2, -1, 1, 0, 0, 0, 0, 0, 0, -1, 1, 0, 0, 0, 0, 2, 0);
    lemma_term_mul(a, b, l, x1, y1, x2, y2, -1, 1, 0, 0, 0, 0, 0, 0, 1, 0, 1, 0, 0, 0, 0, 2);
    lemma_term_mul(a, b, l, x1, y1, x2, y2, -1, 1, 0, 0, 0, 0, 0, 0, -1, 0, 0, 0, 0, 0, 3, 0);
    lemma_term_mul(a, b, l, x1, y1, x2, y2, -1, 1, 0, 0, 0, 0, 0, 0, -1, 0, 0, 0, 0, 0, 1, 0);
    lemma_mul_is_distributive_add(1 * mono(a, b, l, x1, y1, x2, y2, 0, 1, 2, 0, 0, 0, 0), (-1) * mono(a, b, l, x1, y1, x2, y2, 1, 0, 0, 0, 0, 2, 0), 1 * mono(a, b, l, x1, y1, x2, y2, 0, 1, 0, 0, 0, 0, 2));
    lemma_mul_is_distributive_add(1 * mono(a, b, l, x1, y1, x2, y2, 0, 1, 2, 0, 0, 0, 0), (-1) * mono(a, b, l, x1, y1, x2, y2, 1, 0, 0, 0, 0, 2, 0) + 1 * mono(a, b, l, x1, y1, x2, y2, 0, 1, 0, 0, 0, 0, 2), (-1) * mono(a, b, l, x1, y1, x2, y2, 0, 0, 0, 0, 0, 3, 0));
    lemma_mul_is_distributive_add(1 * mono(a, b, l, x1, y1, x2, y2, 0, 1, 2, 0, 0, 0, 0), (-1) * mono(a, b, l, x1, y1, x2, y2, 1, 0, 0, 0, 0, 2, 0) + 1 * mono(a, b, l, x1, y1, x2, y2, 0, 1, 0, 0, 0, 0, 2) + (-1) * mono(a, b, l, x1, y1, x2, y2, 0, 0, 0, 0, 0, 3, 0), (-1) * mono(a, b, l, x1, y1, x2, y2, 0, 0, 0, 0, 0, 1, 0));
    lemma_term_mul(a, b, l, x1, y1, x2, y2, 1, 0, 1, 2, 0, 0, 0, 0, -1, 1, 0, 0, 0, 0, 2, 0);
    lemma_term_mul(a, b, l, x1, y1, x2, y2, 1, 0, 1, 2, 0, 0, 0, 0, 1, 0, 1, 0, 0, 0, 0, 2);
    lemma_term_mul(a, b, l, x1, y1, x2, y2, 1, 0, 1, 2, 0, 0, 0, 0, -1, 0, 0, 0, 0, 0, 3, 0);
    lemma_term_mul(a, b, l, x1, y1, x2, y2, 1, 0, 1, 2, 0, 0, 0, 0, -1, 0, 0, 0, 0, 0, 1, 0);
    lemma_mul_is_distributive_add((-2) * mono(a, b, l, x1, y1, x2, y2, 0, 0, 0, 1, 0, 0, 0), (-1) * mono(a, b, l, x1, y1, x2, y2, 1, 0, 0, 0, 0, 2, 0), 1 * mono(a, b, l, x1, y1, x2, y2, 0, 1, 0, 0, 0, 0, 2));
    lemma_mul_is_distributive_add((-2) * mono(a, b, l, x1, y1, x2, y2, 0, 0, 0, 1, 0, 0, 0), (-1) * mono(a, b, l, x1, y1, x2, y2, 1, 0, 0, 0, 0, 2, 0) + 1 * mono(a, b, l, x1, y1, x2, y2, 0, 1, 0, 0, 0, 0, 2), (-1) * mono(a, b, l, x1, y1, x2, y2, 0, 0, 0, 0, 0, 3, 0));
    lemma_mul_is_distributive_add((-2) * mono(a, b, l, x1, y1, x2, y2, 0, 0, 0, 1, 0, 0, 0), (-1) * mono(a, b, l, x1, y1, x2, y2, 1, 0, 0, 0, 0, 2, 0) + 1 * mono(a, b, l, x1, y1, x2, y2, 0, 1, 0, 0, 0, 0, 2) + (-1) * mono(a, b, l, x1, y1, x2, y2, 0, 0, 0, 0, 0, 3, 0), (-1) * mono(a, b, l, x1, y1, x2, y2, 0, 0, 0, 0, 0, 1, 0));
    lemma_term_mul(a, b, l, x1, y1, x2, y2, -2, 0, 0, 0, 1, 0, 0, 0, -1, 1, 0, 0, 0, 0, 2, 0);
    lemma_term_mul(a, b, l, x1, y1, x2, y2, -2, 0, 0, 0, 1, 0, 0, 0, 1, 0, 1, 0, 0, 0, 0, 2);
    lemma_term_mul(a, b, l, x1, y1, x2, y2, -2, 0, 0, 0, 1, 0, 0, 0, -1, 0, 0, 0, 0, 0, 3, 0);
    lemma_term_mul(a, b, l, x1, y1, x2, y2, -2, 0, 0, 0, 1, 0, 0, 0, -1, 0, 0, 0, 0, 0, 1, 0);
    lemma_mul_is_distributive_add((-1) * mono(a, b, l, x1, y1, x2, y2, 0, 0, 0, 0, 0, 1, 0), (-1) * mono(a, b, l, x1, y1, x2, y2, 1, 0, 0, 0, 0, 2, 0), 1 * mono(a, b, l, x1, y1, x2, y2, 0, 1, 0, 0, 0, 0, 2));
    lemma_mul_is_distributive_add((-1) * mono(a, b, l, x1, y1, x2, y2, 0, 0, 0, 0, 0, 1, 0), (-1) * mono(a, b, l, x1, y1, x2, y2, 1, 0, 0, 0, 0, 2, 0) + 1 * mono(a, b, l, x1, y1, x2, y2, 0, 1, 0, 0, 0, 0, 2), (-1) * mono(a, b, l, x1, y1, x2, y2, 0, 0, 0, 0, 0, 3, 0));
    lemma_mul_is_distributive_add((-1) * mono(a, b, l, x1, y1, x2, y2, 0, 0, 0, 0, 0, 1, 0), (-1) * mono(a, b, l, x1, y1, x2, y2, 1, 0, 0, 0, 0, 2, 0) + 1 * mono(a, b, l, x1, y1, x2, y2, 0, 1, 0, 0, 0, 0, 2) + (-1) * mono(a, b, l, x1, y1, x2, y2, 0, 0, 0, 0, 0, 3, 0), (-1) * mono(a, b, l, x1, y1, x2, y2, 0, 0, 0, 0, 0, 1, 0));
    lemma_term_mul(a, b, l, x1, y1, x2, y2, -1, 0, 0, 0, 0, 0, 1, 0, -1, 1, 0, 0, 0, 0, 2, 0);
    lemma_term_mul(a, b, l, x1, y1, x2, y2, -1, 0, 0, 0, 0, 0, 1, 0, 1, 0, 1, 0, 0, 0, 0, 2);
    lemma_term_mul(a, b, l, x1, y1, x2, y2, -1, 0, 0, 0, 0, 0, 1, 0, -1, 0, 0, 0, 0, 0, 3, 0);
    lemma_term_mul(a, b, l, x1, y1, x2, y2, -1, 0, 0, 0, 0, 0, 1, 0, -1, 0, 0, 0, 0, 0, 1, 0);
    assert(((-1) * mono(a, b, l, x1, y1, x2, y2, 1, 0, 0, 0, 0, 0, 0) + 1 * mono(a, b, l, x1, y1, x2, y2, 0, 1, 2, 0, 0, 0, 0) + (-2) * mono(a, b, l, x1, y1, x2, y2, 0, 0, 0, 1, 0, 0, 0) + (-1) * mono(a, b, l, x1, y1, x2, y2, 0, 0, 0, 0, 0, 1, 0)) * ((-1) * mono(a, b, l, x1, y1, x2, y2, 1, 0, 0, 0, 0, 2, 0) + 1 * mono(a, b, l, x1, y1, x2, y2, 0, 1, 0, 0, 0, 0, 2) + (-1) * mono(a, b, l, x1, y1, x2, y2, 0, 0, 0, 0, 0, 3, 0) + (-1) * mono(a, b, l, x1, y1, x2, y2, 0, 0, 0, 0, 0, 1, 0)) == 1 * mono(a, b, l, x1, y1, x2, y2, 2, 0, 0, 0, 0, 2, 0) + (-1) * mono(a, b, l, x1, y1, x2, y2, 1, 1, 2, 0, 0, 2, 0) + (-1) * mono(a, b, l, x1, y1, x2, y2, 1, 1, 0, 0, 0, 0, 2) + 2 * mono(a, b, l, x1, y1, x2, y2, 1, 0, 0, 1, 0, 2, 0) + 2 * mono(a, b, l, x1, y1, x2, y2, 1, 0, 0, 0, 0, 3, 0) + 1 * mono(a, b, l, x1, y1, x2, y2, 1, 0, 0, 0, 0, 1, 0) + 1 * mono(a, b, l, x1, y1, x2, y2, 0, 2, 2, 0, 0, 0, 2) + (-1) * mono(a, b, l, x1, y1, x2, y2, 0, 1, 2, 0, 0, 3, 0) + (-1) * mono(a, b, l, x1, y1, x2, y2, 0, 1, 2, 0, 0, 1, 0) + (-2) * mono(a, b, l, x1, y1, x2, y2, 0, 1, 0, 1, 0, 0, 2) + (-1) * mono(a, b, l, x1, y1, x2, y2, 0, 1, 0, 0, 0, 1, 2) + 2 * mono(a, b, l, x1, y1, x2, y2, 0, 0, 0, 1, 0, 3, 0) + 2 * mono(a, b, l, x1, y1, x2, y2, 0, 0, 0, 1, 0, 1, 0) + 1 * mono(a, b, l, x1, y1, x2, y2, 0, 0, 0, 0, 0, 4, 0) + 1 * mono(a, b, l, x1, y1, x2, y2, 0, 0, 0, 0, 0, 2, 0));
    (1 * mono(a, b, l, x1, y1, x2, y2, 1, 1, 1, 1, 0, 0, 0) + (-1) * mono(a, b, l, x1, y1, x2, y2, 1, 1, 1, 0, 0, 1, 0) + (-1) * mono(a, b, l, x1, y1, x2, y2, 1, 1, 0, 0, 1, 0, 0) + (-1) * mono(a, b, l, x1, y1, x2, y2, 1, 1, 0, 0, 0, 0, 1) + (-1) * mono(a, b, l, x1, y1, x2, y2, 0, 2, 3, 1, 0, 0, 0) + 1 * mono(a, b, l, x1, y1, x2, y2, 0, 2, 3, 0, 0, 1, 0) + 1 * mono(a, b, l, x1, y1, x2, y2, 0, 2, 2, 0, 1, 0, 0) + 1 * mono(a, b, l, x1, y1, x2, y2, 0, 2, 2, 0, 0, 0, 1) + 2 * mono(a, b, l, x1, y1, x2, y2, 0, 1, 1, 2, 0, 0, 0) + (-1) * mono(a, b, l, x1, y1, x2, y2, 0, 1, 1, 1, 0, 1, 0) + (-1) * mono(a, b, l, x1, y1, x2, y2, 0, 1, 1, 0, 0, 2, 0) + (-2) * mono(a, b, l, x1, y1, x2, y2, 0, 1, 0, 1, 1, 0, 0) + (-2) * mono(a, b, l, x1, y1, x2, y2, 0, 1, 0, 1, 0, 0, 1) + (-1) * mono(a, b, l, x1, y1, x2, y2, 0, 1, 0, 0, 1, 1, 0) + (-1) * mono(a, b, l, x1, y1, x2, y2, 0, 1, 0, 0, 0, 1, 1), 1 * mono(a, b, l, x1, y1, x2, y2, 1, 0, 0, 0, 0, 0, 0) + (-1) * mono(a, b, l, x1, y1, x2, y2, 0, 1, 2, 0, 0, 0, 0) + 1 * mono(a, b, l, x1, y1, x2, y2, 0, 0, 0, 1, 0, 0, 0) + 2 * mono(a, b, l, x1, y1, x2, y2, 0, 0, 0, 0, 0, 1, 0), (-1) * mono(a, b, l, x1, y1, x2, y2, 1, 0, 0, 0, 0, 0, 0) + 1 * mono(a, b, l, x1, y1, x2, y2, 0, 1, 2, 0, 0, 0, 0) + (-2) * mono(a, b, l, x1, y1, x2, y2, 0, 0, 0, 1, 0, 0, 0) + (-1) * mono(a, b, l, x1, y1, x2, y2, 0, 0, 0, 0, 0, 1, 0))
}

/// The polynomial identity behind closure of the tangent rule: with
/// `x3 = l^2 b - (x1 + x1) - a` and `y3 = l (x1 - x3) - y1`, the curve
/// polynomial at `(x3, y3)` is a combination of the slope equation
/// `l (2 b y1) - (3 x1^2 + 2 a x1 + 1)` and the curve polynomial at `(x1, y1)`.
pub proof fn lemma_tangent_identity(a: int, b: int, l: int, x1: int, y1: int) -> (q: (int, int))
    ensures
        ({
            let x3 = ((((l * l) * b) - (x1 + x1)) - a);
            let y3 = ((l * (x1 - x3)) - y1);
            ((b * (y3 * y3)) - ((((x3 * x3) * x3) + (a * (x3 * x3))) + x3)) == q.0 * ((l * ((2 * b) * y1)) - (((3 * (x1 * x1)) + ((2 * a) * x1)) + 1)) + q.1 * ((b * (y1 * y1)) - ((((x1 * x1) * x1) + (a * (x1 * x1))) + x1))
        }),
{
    // the last two monomial variables do not occur here
    let u5: int = 0;
    let u6: int = 0;
    lemma_mono_vars(a, b, l, x1, y1, u5, u6);
    let x3 = ((((l * l) * b) - (x1 + x1)) - a);
    lemma_term_mul(a, b, l, x1, y1, u5, u6, 1, 0, 0, 1, 0, 0, 0, 0, 1, 0, 0, 1, 0, 0, 0, 0);
    assert((1 * mono(a, b, l, x1, y1, u5, u6, 0, 0, 1, 0, 0, 0, 0)) * (1 * mono(a, b, l, x1, y1, u5, u6, 0, 0, 1, 0, 0, 0, 0)) == 1 * mono(a, b, l, x1, y1, u5, u6, 0, 0, 2, 0, 0, 0, 0));
    assert((l * l) == 1 * mono(a, b, l, x1, y1, u5, u6, 0, 0, 2, 0, 0, 0, 0));
    lemma_term_mul(a, b, l, x1, y1, u5, u6, 1, 0, 0, 2, 0, 0, 0, 0, 1, 0, 1, 0, 0, 0, 0, 0);
    assert((1 * mono(a, b, l, x1, y1, u5, u6, 0, 0, 2, 0, 0, 0, 0)) * (1 * mono(a, b, l, x1, y1, u5, u6, 0, 1, 0, 0, 0, 0, 0)) == 1 * mono(a, b, l, x1, y1, u5, u6, 0, 1, 2, 0, 0, 0, 0));
    assert(((l * l) * b) == 1 * mono(a, b, l, x1, y1, u5, u6, 0, 1, 2, 0, 0, 0, 0));
    assert((x1 + x1) == 2 * mono(a, b, l, x1, y1, u5, u6, 0, 0, 0, 1, 0, 0, 0));
    assert((((l * l) * b) - (x1 + x1)) == 1 * mono(a, b, l, x1, y1, u5, u6, 0, 1, 2, 0, 0, 0, 0) + (-2) * mono(a, b, l, x1, y1, u5, u6, 0, 0, 0, 1, 0, 0, 0));
    assert(((((l * l) * b) - (x1 + x1)) - a) == (-1) * mono(a, b, l, x1, y1, u5, u6, 1, 0, 0, 0, 0, 0, 0) + 1 * mono(a, b, l, x1, y1, u5, u6, 0, 1, 2, 0, 0, 0, 0) + (-2) * mono(a, b, l, x1, y1, u5, u6, 0, 0, 0, 1, 0, 0, 0));
    assert(x3 == (-1) * mono(a, b, l, x1, y1, u5, u6, 1, 0, 0, 0, 0, 0, 0) + 1 * mono(a, b, l, x1, y1, u5, u6, 0, 1, 2, 0, 0, 0, 0) + (-2) * mono(a, b, l, x1, y1, u5, u6, 0, 0, 0, 1, 0, 0, 0));
    let y3 = ((l * (x1 - x3)) - y1);
    assert((x1 - x3) == 1 * mono(a, b, l, x1, y1, u5, u6, 1, 0, 0, 0, 0, 0, 0) + (-1) * mono(a, b, l, x1, y1, u5, u6, 0, 1, 2, 0, 0, 0, 0) + 3 * mono(a, b, l, x1, y1, u5, u6, 0, 0, 0, 1, 0, 0, 0));
    lemma_mul_is_distributive_add(1 * mono(a, b, l, x1, y1, u5, u6, 0, 0, 1, 0, 0, 0, 0), 1 * mono(a, b, l, x1, y1, u5, u6, 1, 0, 0, 0, 0, 0, 0), (-1) * mono(a, b, l, x1, y1, u5, u6, 0, 1, 2, 0, 0, 0, 0));
    lemma_mul_is_distributive_add(1 * mono(a, b, l, x1, y1, u5, u6, 0, 0, 1, 0, 0, 0, 0), 1 * mono(a, b, l, x1, y1, u5, u6, 1, 0, 0, 0, 0, 0, 0) + (-1) * mono(a, b, l, x1, y1, u5, u6, 0, 1, 2, 0, 0, 0, 0), 3 * mono(a, b, l, x1, y1, u5, u6, 0, 0, 0, 1, 0, 0, 0));
    lemma_term_mul(a, b, l, x1, y1, u5, u6, 1, 0, 0, 1, 0, 0, 0, 0, 1, 1, 0, 0, 0, 0, 0, 0);
    lemma_term_mul(a, b, l, x1, y1, u5, u6, 1, 0, 0, 1, 0, 0, 0, 0, -1, 0, 1, 2, 0, 0, 0, 0);
    lemma_term_mul(a, b, l, x1, y1, u5, u6, 1, 0, 0, 1, 0, 0, 0, 0, 3, 0, 0, 0, 1, 0, 0, 0);
    assert((1 * mono(a, b, l, x1, y1, u5, u6, 0, 0, 1, 0, 0, 0, 0)) * (1 * mono(a, b, l, x1, y1, u5, u6, 1, 0, 0, 0, 0, 0, 0) + (-1) * mono(a, b, l, x1, y1, u5, u6, 0, 1, 2, 0, 0, 0, 0) + 3 * mono(a, b, l, x1, y1, u5, u6, 0, 0, 0, 1, 0, 0, 0)) == 1 * mono(a, b, l, x1, y1, u5, u6, 1, 0, 1, 0, 0, 0, 0) + (-1) * mono(a, b, l, x1, y1, u5, u6, 0, 1, 3, 0, 0, 0, 0) + 3 * mono(a, b, l, x1, y1, u5, u6, 0, 0, 1, 1, 0, 0, 0));
    assert((l * (x1 - x3)) == 1 * mono(a, b, l, x1, y1, u5, u6, 1, 0, 1, 0, 0, 0, 0) + (-1) * mono(a, b, l, x1, y1, u5, u6, 0, 1, 3, 0, 0, 0, 0) + 3 * mono(a, b, l, x1, y1, u5, u6, 0, 0, 1, 1, 0, 0, 0));
    assert(((l * (x1 - x3)) - y1) == 1 * mono(a, b, l, x1, y1, u5, u6, 1, 0, 1, 0, 0, 0, 0) + (-1) * mono(a, b, l, x1, y1, u5, u6, 0, 1, 3, 0, 0, 0, 0) + 3 * mono(a, b, l, x1, y1, u5, u6, 0, 0, 1, 1, 0, 0, 0) + (-1) * mono(a, b, l, x1, y1, u5, u6, 0, 0, 0, 0, 1, 0, 0));
    assert(y3 == 1 * mono(a, b, l, x1, y1, u5, u6, 1, 0, 1, 0, 0, 0, 0) + (-1) * mono(a, b, l, x1, y1, u5, u6, 0, 1, 3, 0, 0, 0, 0) + 3 * mono(a, b, l, x1, y1, u5, u6, 0, 0, 1, 1, 0, 0, 0) + (-1) * mono(a, b, l, x1, y1, u5, u6, 0, 0, 0, 0, 1, 0, 0));
    lemma_mul_is_distributive_add_other_way((1 * mono(a, b, l, x1, y1, u5, u6, 1, 0, 1, 0, 0, 0, 0) + (-1) * mono(a, b, l, x1, y1, u5, u6, 0, 1, 3, 0, 0, 0, 0) + 3 * mono(a, b, l, x1, y1, u5, u6, 0, 0, 1, 1, 0, 0, 0) + (-1) * mono(a, b, l, x1, y1, u5, u6, 0, 0, 0, 0, 1, 0, 0)), 1 * mono(a, b, l, x1, y1, u5, u6, 1, 0, 1, 0, 0, 0, 0), (-1) * mono(a, b, l, x1, y1, u5, u6, 0, 1, 3, 0, 0, 0, 0));
    lemma_mul_is_distributive_add_other_way((1 * mono(a, b, l, x1, y1, u5, u6, 1, 0, 1, 0, 0, 0, 0) + (-1) * mono(a, b, l, x1, y1, u5, u6, 0, 1, 3, 0, 0, 0, 0) + 3 * mono(a, b, l, x1, y1, u5, u6, 0, 0, 1, 1, 0, 0, 0) + (-1) * mono(a, b, l, x1, y1, u5, u6, 0, 0, 0, 0, 1, 0, 0)), 1 * mono(a, b, l, x1, y1, u5, u6, 1, 0, 1, 0, 0, 0, 0) + (-1) * mono(a, b, l, x1, y1, u5, u6, 0, 1, 3, 0, 0, 0, 0), 3 * mono(a, b, l, x1, y1, u5, u6, 0, 0, 1, 1, 0, 0, 0));
    lemma_mul_is_distributive_add_other_way((1 * mono(a, b, l, x1, y1, u5, u6, 1, 0, 1, 0, 0, 0, 0) + (-1) * mono(a, b, l, x1, y1, u5, u6, 0, 1, 3, 0, 0, 0, 0) + 3 * mono(a, b, l, x1, y1, u5, u6, 0, 0, 1, 1, 0, 0, 0) + (-1) * mono(a, b, l, x1, y1, u5, u6, 0, 0, 0, 0, 1, 0, 0)), 1 * mono(a, b, l, x1, y1, u5, u6, 1, 0, 1, 0, 0, 0, 0) + (-1) * mono(a, b, l, x1, y1, u5, u6, 0, 1, 3, 0, 0, 0, 0) + 3 * mono(a, b, l, x1, y1, u5, u6, 0, 0, 1, 1, 0, 0, 0), (-1) * mono(a, b, l, x1, y1, u5, u6, 0, 0, 0, 0, 1, 0, 0));
    lemma_mul_is_distributive_add(1 * mono(a, b, l, x1, y1, u5, u6, 1, 0, 1, 0, 0, 0, 0), 1 * mono(a, b, l, x1, y1, u5, u6, 1, 0, 1, 0, 0, 0, 0), (-1) * mono(a, b, l, x1, y1, u5, u6, 0, 1, 3, 0, 0, 0, 0));
    lemma_mul_is_distributive_add(1 * mono(a, b, l, x1, y1, u5, u6, 1, 0, 1, 0, 0, 0, 0), 1 * mono(a, b, l, x1, y1, u5, u6, 1, 0, 1, 0, 0, 0, 0) + (-1) * mono(a, b, l, x1, y1, u5, u6, 0, 1, 3, 0, 0, 0, 0), 3 * mono(a, b, l, x1, y1, u5, u6, 0, 0, 1, 1, 0, 0, 0));
    lemma_mul_is_distributive_add(1 * mono(a, b, l, x1, y1, u5, u6, 1, 0, 1, 0, 0, 0, 0), 1 * mono(a, b, l, x1, y1, u5, u6, 1, 0, 1, 0, 0, 0, 0) + (-1) * mono(a, b, l, x1, y1, u5, u6, 0, 1, 3, 0, 0, 0, 0) + 3 * mono(a, b, l, x1, y1, u5, u6, 0, 0, 1, 1, 0, 0, 0), (-1) * mono(a, b, l, x1, y1, u5, u6, 0, 0, 0, 0, 1, 0, 0));
    lemma_term_mul(a, b, l, x1, y1, u5, u6, 1, 1, 0, 1, 0, 0, 0, 0, 1, 1, 0, 1, 0, 0, 0, 0);
    lemma_term_mul(a, b, l, x1, y1, u5, u6, 1, 1, 0, 1, 0, 0, 0, 0, -1, 0, 1, 3, 0, 0, 0, 0);
    lemma_term_mul(a, b, l, x1, y1, u5, u6, 1, 1, 0, 1, 0, 0, 0, 0, 3, 0, 0, 1, 1, 0, 0, 0);
    lemma_term_mul(a, b, l, x1, y1, u5, u6, 1, 1, 0, 1, 0, 0, 0, 0, -1, 0, 0, 0, 0, 1, 0, 0);
    lemma_mul_is_distributive_add((-1) * mono(a, b, l, x1, y1, u5, u6, 0, 1, 3, 0, 0, 0, 0), 1 * mono(a, b, l, x1, y1, u5, u6, 1, 0, 1, 0, 0, 0, 0), (-1) * mono(a, b, l, x1, y1, u5, u6, 0, 1, 3, 0, 0, 0, 0));
    lemma_mul_is_distributive_add((-1) * mono(a, b, l, x1, y1, u5, u6, 0, 1, 3, 0, 0, 0, 0), 1 * mono(a, b, l, x1, y1, u5, u6, 1, 0, 1, 0, 0, 0, 0) + (-1) * mono(a, b, l, x1, y1, u5, u6, 0, 1, 3, 0, 0, 0, 0), 3 * mono(a, b, l, x1, y1, u5, u6, 0, 0, 1, 1, 0, 0, 0));
    lemma_mul_is_distributive_add((-1) * mono(a, b, l, x1, y1, u5, u6, 0, 1, 3, 0, 0, 0, 0), 1 * mono(a, b, l, x1, y1, u5, u6, 1, 0, 1, 0, 0, 0, 0) + (-1) * mono(a, b, l, x1, y1, u5, u6, 0, 1, 3, 0, 0, 0, 0) + 3 * mono(a, b, l, x1, y1, u5, u6, 0, 0, 1, 1, 0, 0, 0), (-1) * mono(a, b, l, x1, y1, u5, u6, 0, 0, 0, 0, 1, 0, 0));
    lemma_term_mul(a, b, l, x1, y1, u5, u6, -1, 0, 1, 3, 0, 0, 0, 0, 1, 1, 0, 1, 0, 0, 0, 0);
    lemma_term_mul(a, b, l, x1, y1, u5, u6, -1, 0, 1, 3, 0, 0, 0, 0, -1, 0, 1, 3, 0, 0, 0, 0);
    lemma_term_mul(a, b, l, x1, y1, u5, u6, -1, 0, 1, 3, 0, 0, 0, 0, 3, 0, 0, 1, 1, 0, 0, 0);
    lemma_term_mul(a, b, l, x1, y1, u5, u6, -1, 0, 1, 3, 0, 0, 0, 0, -1, 0, 0, 0, 0, 1, 0, 0);
    lemma_mul_is_distributive_add(3 * mono(a, b, l, x1, y1, u5, u6, 0, 0, 1, 1, 0, 0, 0), 1 * mono(a, b, l, x1, y1, u5, u6, 1, 0, 1, 0, 0, 0, 0), (-1) * mono(a, b, l, x1, y1, u5, u6, 0, 1, 3, 0, 0, 0, 0));
    lemma_mul_is_distributive_add(3 * mono(a, b, l, x1, y1, u5, u6, 0, 0, 1, 1, 0, 0, 0), 1 * mono(a, b, l, x1, y1, u5, u6, 1, 0, 1, 0, 0, 0, 0) + (-1) * mono(a, b, l, x1, y1, u5, u6, 0, 1, 3, 0, 0, 0, 0), 3 * mono(a, b, l, x1, y1, u5, u6, 0, 0, 1, 1, 0, 0, 0));
    lemma_mul_is_distributive_add(3 * mono(a, b, l, x1, y1, u5, u6, 0, 0, 1, 1, 0, 0, 0), 1 * mono(a, b, l, x1, y1, u5, u6, 1, 0, 1, 0, 0, 0, 0) + (-1) * mono(a, b, l, x1, y1, u5, u6, 0, 1, 3, 0, 0, 0, 0) + 3 * mono(a, b, l, x1, y1, u5, u6, 0, 0, 1, 1, 0, 0, 0), (-1) * mono(a, b, l, x1, y1, u5, u6, 0, 0, 0, 0, 1, 0, 0));
    lemma_term_mul(a, b, l, x1, y1, u5, u6, 3, 0, 0, 1, 1, 0, 0, 0, 1, 1, 0, 1, 0, 0, 0, 0);
    lemma_term_mul(a, b, l, x1, y1, u5, u6, 3, 0, 0, 1, 1, 0, 0, 0, -1, 0, 1, 3, 0, 0, 0, 0);
    lemma_term_mul(a, b, l, x1, y1, u5, u6, 3, 0, 0, 1, 1, 0, 0, 0, 3, 0, 0, 1, 1, 0, 0, 0);
    lemma_term_mul(a, b, l, x1, y1, u5, u6, 3, 0, 0, 1, 1, 0, 0, 0, -1, 0, 0, 0, 0, 1, 0, 0);
    lemma_mul_is_distributive_add((-1) * mono(a, b, l, x1, y1, u5, u6, 0, 0, 0, 0, 1, 0, 0), 1 * mono(a, b, l, x1, y1, u5, u6, 1, 0, 1, 0, 0, 0, 0), (-1) * mono(a, b, l, x1, y1, u5, u6, 0, 1, 3, 0, 0, 0, 0));
    lemma_mul_is_distributive_add((-1) * mono(a, b, l, x1, y1, u5, u6, 0, 0, 0, 0, 1, 0, 0), 1 * mono(a, b, l, x1, y1, u5, u6, 1, 0, 1, 0, 0, 0, 0) + (-1) * mono(a, b, l, x1, y1, u5, u6, 0, 1, 3, 0, 0, 0, 0), 3 * mono(a, b, l, x1, y1, u5, u6, 0, 0, 1, 1, 0, 0, 0));
    lemma_mul_is_distributive_add((-1) * mono(a, b, l, x1, y1, u5, u6, 0, 0, 0, 0, 1, 0, 0), 1 * mono(a, b, l, x1, y1, u5, u6, 1, 0, 1, 0, 0, 0, 0) + (-1) * mono(a, b, l, x1, y1, u5, u6, 0, 1, 3, 0, 0, 0, 0) + 3 * mono(a, b, l, x1, y1, u5, u6, 0, 0, 1, 1, 0, 0, 0), (-1) * mono(a, b, l, x1, y1, u5, u6, 0, 0, 0, 0, 1, 0, 0));
    lemma_term_mul(a, b, l, x1, y1, u5, u6, -1, 0, 0, 0, 0, 1, 0, 0, 1, 1, 0, 1, 0, 0, 0, 0);
    lemma_term_mul(a, b, l, x1, y1, u5, u6, -1, 0, 0, 0, 0, 1, 0, 0, -1, 0, 1, 3, 0, 0, 0, 0);
    lemma_term_mul(a, b, l, x1, y1, u5, u6, -1, 0, 0, 0, 0, 1, 0, 0, 3, 0, 0, 1, 1, 0, 0, 0);
    lemma_term_mul(a, b, l, x1, y1, u5, u6, -1, 0, 0, 0, 0, 1, 0, 0, -1, 0, 0, 0, 0, 1, 0, 0);
    assert((1 * mono(a, b, l, x1, y1, u5, u6, 1, 0, 1, 0, 0, 0, 0) + (-1) * mono(a, b, l, x1, y1, u5, u6, 0, 1, 3, 0, 0, 0, 0) + 3 * mono(a, b, l, x1, y1, u5, u6, 0, 0, 1, 1, 0, 0, 0) + (-1) * mono(a, b, l, x1, y1, u5, u6, 0, 0, 0, 0, 1, 0, 0)) * (1 * mono(a, b, l, x1, y1, u5, u6, 1, 0, 1, 0, 0, 0, 0) + (-1) * mono(a, b, l, x1, y1, u5, u6, 0, 1, 3, 0, 0, 0, 0) + 3 * mono(a, b, l, x1, y1, u5, u6, 0, 0, 1, 1, 0, 0, 0) + (-1) * mono(a, b, l, x1, y1, u5, u6, 0, 0, 0, 0, 1, 0, 0)) == 1 * mono(a, b, l, x1, y1, u5, u6, 2, 0, 2, 0, 0, 0, 0) + (-2) * mono(a, b, l, x1, y1, u5, u6, 1, 1, 4, 0, 0, 0, 0) + 6 * mono(a, b, l, x1, y1, u5, u6, 1, 0, 2, 1, 0, 0, 0) + (-2) * mono(a, b, l, x1, y1, u5, u6, 1, 0, 1, 0, 1, 0, 0) + 1 * mono(a, b, l, x1, y1, u5, u6, 0, 2, 6, 0, 0, 0, 0) + (-6) * mono(a, b, l, x1, y1, u5, u6, 0, 1, 4, 1, 0, 0, 0) + 2 * mono(a, b, l, x1, y1, u5, u6, 0, 1, 3, 0, 1, 0, 0) + 9 * mono(a, b, l, x1, y1, u5, u6, 0, 0, 2, 2, 0, 0, 0) + (-6) * mono(a, b, l, x1, y1, u5, u6, 0, 0, 1, 1, 1, 0, 0) + 1 * mono(a, b, l, x1, y1, u5, u6, 0, 0, 0, 0, 2, 0, 0));
    assert((y3 * y3) == 1 * mono(a, b, l, x1, y1, u5, u6, 2, 0, 2, 0, 0, 0, 0) + (-2) * mono(a, b, l, x1, y1, u5, u6, 1, 1, 4, 0, 0, 0, 0) + 6 * mono(a, b, l, x1, y1, u5, u6, 1, 0, 2, 1, 0, 0, 0) + (-2) * mono(a, b, l, x1, y1, u5, u6, 1, 0, 1, 0, 1, 0, 0) + 1 * mono(a, b, l, x1, y1, u5, u6, 0, 2, 6, 0, 0, 0, 0) + (-6) * mono(a, b, l, x1, y1, u5, u6, 0, 1, 4, 1, 0, 0, 0) + 2 * mono(a, b, l, x1, y1, u5, u6, 0, 1, 3, 0, 1, 0, 0) + 9 * mono(a, b, l, x1, y1, u5, u6, 0, 0, 2, 2, 0, 0, 0) + (-6) * mono(a, b, l, x1, y1, u5, u6, 0, 0, 1, 1, 1, 0, 0) + 1 * mono(a, b, l, x1, y1, u5, u6, 0, 0, 0, 0, 2, 0, 0));
    lemma_mul_is_distributive_add(1 * mono(a, b, l, x1, y1, u5, u6, 0, 1, 0, 0, 0, 0, 0), 1 * mono(a, b, l, x1, y1, u5, u6, 2, 0, 2, 0, 0, 0, 0), (-2) * mono(a, b, l, x1, y1, u5, u6, 1, 1, 4, 0, 0, 0, 0));
    lemma_mul_is_distributive_add(1 * mono(a, b, l, x1, y1, u5, u6, 0, 1, 0, 0, 0, 0, 0), 1 * mono(a, b, l, x1, y1, u5, u6, 2, 0, 2, 0, 0, 0, 0) + (-2) * mono(a, b, l, x1, y1, u5, u6, 1, 1, 4, 0, 0, 0, 0), 6 * mono(a, b, l, x1, y1, u5, u6, 1, 0, 2, 1, 0, 0, 0));
    lemma_mul_is_distributive_add(1 * mono(a, b, l, x1, y1, u5, u6, 0, 1, 0, 0, 0, 0, 0), 1 * mono(a, b, l, x1, y1, u5, u6, 2, 0, 2, 0, 0, 0, 0) + (-2) * mono(a, b, l, x1, y1, u5, u6, 1, 1, 4, 0, 0, 0, 0) + 6 * mono(a, b, l, x1, y1, u5, u6, 1, 0, 2, 1, 0, 0, 0), (-2) * mono(a, b, l, x1, y1, u5, u6, 1, 0, 1, 0, 1, 0, 0));
    lemma_mul_is_distributive_add(1 * mono(a, b, l, x1, y1, u5, u6, 0, 1, 0, 0, 0, 0, 0), 1 * mono(a, b, l, x1, y1, u5, u6, 2, 0, 2, 0, 0, 0, 0) + (-2) * mono(a, b, l, x1, y1, u5, u6, 1, 1, 4, 0, 0, 0, 0) + 6 * mono(a, b, l, x1, y1, u5, u6, 1, 0, 2, 1, 0, 0, 0) + (-2) * mono(a, b, l, x1, y1, u5, u6, 1, 0, 1, 0, 1, 0, 0), 1 * mono(a, b, l, x1, y1, u5, u6, 0, 2, 6, 0, 0, 0, 0));
    lemma_mul_is_distributive_add(1 * mono(a, b, l, x1, y1, u5, u6, 0, 1, 0, 0, 0, 0, 0), 1 * mono(a, b, l, x1, y1, u5, u6, 2, 0, 2, 0, 0, 0, 0) + (-2) * mono(a, b, l, x1, y1, u5, u6, 1, 1, 4, 0, 0, 0, 0) + 6 * mono(a, b, l, x1, y1, u5, u6, 1, 0, 2, 1, 0, 0, 0) + (-2) * mono(a, b, l, x1, y1, u5, u6, 1, 0, 1, 0, 1, 0, 0) + 1 * mono(a, b, l, x1, y1, u5, u6, 0, 2, 6, 0, 0, 0, 0), (-6) * mono(a, b, l, x1, y1, u5, u6, 0, 1, 4, 1, 0, 0, 0));
    lemma_mul_is_distributive_add(1 * mono(a, b, l, x1, y1, u5, u6, 0, 1, 0, 0, 0, 0, 0), 1 * mono(a, b, l, x1, y1, u5, u6, 2, 0, 2, 0, 0, 0, 0) + (-2) * mono(a, b, l, x1, y1, u5, u6, 1, 1, 4, 0, 0, 0, 0) + 6 * mono(a, b, l, x1, y1, u5, u6, 1, 0, 2, 1, 0, 0, 0) + (-2) * mono(a, b, l, x1, y1, u5, u6, 1, 0, 1, 0, 1, 0, 0) + 1 * mono(a, b, l, x1, y1, u5, u6, 0, 2, 6, 0, 0, 0, 0) + (-6) * mono(a, b, l, x1, y1, u5, u6, 0, 1, 4, 1, 0, 0, 0), 2 * mono(a, b, l, x1, y1, u5, u6, 0, 1, 3, 0, 1, 0, 0));
    lemma_mul_is_distributive_add(1 * mono(a, b, l, x1, y1, u5, u6, 0, 1, 0, 0, 0, 0, 0), 1 * mono(a, b, l, x1, y1, u5, u6, 2, 0, 2, 0, 0, 0, 0) + (-2) * mono(a, b, l, x1, y1, u5, u6, 1, 1, 4, 0, 0, 0, 0) + 6 * mono(a, b, l, x1, y1, u5, u6, 1, 0, 2, 1, 0, 0, 0) + (-2) * mono(a, b, l, x1, y1, u5, u6, 1, 0, 1, 0, 1, 0, 0) + 1 * mono(a, b, l, x1, y1, u5, u6, 0, 2, 6, 0, 0, 0, 0) + (-6) * mono(a, b, l, x1, y1, u5, u6, 0, 1, 4, 1, 0, 0, 0) + 2 * mono(a, b, l, x1, y1, u5, u6, 0, 1, 3, 0, 1, 0, 0), 9 * mono(a, b, l, x1, y1, u5, u6, 0, 0, 2, 2, 0, 0, 0));
    lemma_mul_is_distributive_add(1 * mono(a, b, l, x1, y1, u5, u6, 0, 1, 0, 0, 0, 0, 0), 1 * mono(a, b, l, x1, y1, u5, u6, 2, 0, 2, 0, 0, 0, 0) + (-2) * mono(a, b, l, x1, y1, u5, u6, 1, 1, 4, 0, 0, 0, 0) + 6 * mono(a, b, l, x1, y1, u5, u6, 1, 0, 2, 1, 0, 0, 0) + (-2) * mono(a, b, l, x1, y1, u5, u6, 1, 0, 1, 0, 1, 0, 0) + 1 * mono(a, b, l, x1, y1, u5, u6, 0, 2, 6, 0, 0, 0, 0) + (-6) * mono(a, b, l, x1, y1, u5, u6, 0, 1, 4, 1, 0, 0, 0) + 2 * mono(a, b, l, x1, y1, u5, u6, 0, 1, 3, 0, 1, 0, 0) + 9 * mono(a, b, l, x1, y1, u5, u6, 0, 0, 2, 2, 0, 0, 0), (-6) * mono(a, b, l, x1, y1, u5, u6, 0, 0, 1, 1, 1, 0, 0));
    lemma_mul_is_distributive_add(1 * mono(a, b, l, x1, y1, u5, u6, 0, 1, 0, 0, 0, 0, 0), 1 * mono(a, b, l, x1, y1, u5, u6, 2, 0, 2, 0, 0, 0, 0) + (-2) * mono(a, b, l, x1, y1, u5, u6, 1, 1, 4, 0, 0, 0, 0) + 6 * mono(a, b, l, x1, y1, u5, u6, 1, 0, 2, 1, 0, 0, 0) + (-2) * mono(a, b, l, x1, y1, u5, u6, 1, 0, 1, 0, 1, 0, 0) + 1 * mono(a, b, l, x1, y1, u5, u6, 0, 2, 6, 0, 0, 0, 0) + (-6) * mono(a, b, l, x1, y1, u5, u6, 0, 1, 4, 1, 0, 0, 0) + 2 * mono(a, b, l, x1, y1, u5, u6, 0, 1, 3, 0, 1, 0, 0) + 9 * mono(a, b, l, x1, y1, u5, u6, 0, 0, 2, 2, 0, 0, 0) + (-6) * mono(a, b, l, x1, y1, u5, u6, 0, 0, 1, 1, 1, 0, 0), 1 * mono(a, b, l, x1, y1, u5, u6, 0, 0, 0, 0, 2, 0, 0));
    lemma_term_mul(a, b, l, x1, y1, u5, u6, 1, 0, 1, 0, 0, 0, 0, 0, 1, 2, 0, 2, 0, 0, 0, 0);
    lemma_term_mul(a, b, l, x1, y1, u5, u6, 1, 0, 1, 0, 0, 0, 0, 0, -2, 1, 1, 4, 0, 0, 0, 0);
    lemma_term_mul(a, b, l, x1, y1, u5, u6, 1, 0, 1, 0, 0, 0, 0, 0, 6, 1, 0, 2, 1, 0, 0, 0);
    lemma_term_mul(a, b, l, x1, y1, u5, u6, 1, 0, 1, 0, 0, 0, 0, 0, -2, 1, 0, 1, 0, 1, 0, 0);
    lemma_term_mul(a, b, l, x1, y1, u5, u6, 1, 0, 1, 0, 0, 0, 0, 0, 1, 0, 2, 6, 0, 0, 0, 0);
    lemma_term_mul(a, b, l, x1, y1, u5, u6, 1, 0, 1, 0, 0, 0, 0, 0, -6, 0, 1, 4, 1, 0, 0, 0);
    lemma_term_mul(a, b, l, x1, y1, u5, u6, 1, 0, 1, 0, 0, 0, 0, 0, 2, 0, 1, 3, 0, 1, 0, 0);
    lemma_term_mul(a, b, l, x1, y1, u5, u6, 1, 0, 1, 0, 0, 0, 0, 0, 9, 0, 0, 2, 2, 0, 0, 0);
    lemma_term_mul(a, b, l, x1, y1, u5, u6, 1, 0, 1, 0, 0, 0, 0, 0, -6, 0, 0, 1, 1, 1, 0, 0);
    lemma_term_mul(a, b, l, x1, y1, u5, u6, 1, 0, 1, 0, 0, 0, 0, 0, 1, 0, 0, 0, 0, 2, 0, 0);
    assert((1 * mono(a, b, l, x1, y1, u5, u6, 0, 1, 0, 0, 0, 0, 0)) * (1 * mono(a, b, l, x1, y1, u5, u6, 2, 0, 2, 0, 0, 0, 0) + (-2) * mono(a, b, l, x1, y1, u5, u6, 1, 1, 4, 0, 0, 0, 0) + 6 * mono(a, b, l, x1, y1, u5, u6, 1, 0, 2, 1, 0, 0, 0) + (-2) * mono(a, b, l, x1, y1, u5, u6, 1, 0, 1, 0, 1, 0, 0) + 1 * mono(a, b, l, x1, y1, u5, u6, 0, 2, 6, 0, 0, 0, 0) + (-6) * mono(a, b, l, x1, y1, u5, u6, 0, 1, 4, 1, 0, 0, 0) + 2 * mono(a, b, l, x1, y1, u5, u6, 0, 1, 3, 0, 1, 0, 0) + 9 * mono(a, b, l, x1, y1, u5, u6, 0, 0, 2, 2, 0, 0, 0) + (-6) * mono(a, b, l, x1, y1, u5, u6, 0, 0, 1, 1, 1, 0, 0) + 1 * mono(a, b, l, x1, y1, u5, u6, 0, 0, 0, 0, 2, 0, 0)) == 1 * mono(a, b, l, x1, y1, u5, u6, 2, 1, 2, 0, 0, 0, 0) + (-2) * mono(a, b, l, x1, y1, u5, u6, 1, 2, 4, 0, 0, 0, 0) + 6 * mono(a, b, l, x1, y1, u5, u6, 1, 1, 2, 1, 0, 0, 0) + (-2) * mono(a, b, l, x1, y1, u5, u6, 1, 1, 1, 0, 1, 0, 0) + 1 * mono(a, b, l, x1, y1, u5, u6, 0, 3, 6, 0, 0, 0, 0) + (-6) * mono(a, b, l, x1, y1, u5, u6, 0, 2, 4, 1, 0, 0, 0) + 2 * mono(a, b, l, x1, y1, u5, u6, 0, 2, 3, 0, 1, 0, 0) + 9 * mono(a, b, l, x1, y1, u5, u6, 0, 1, 2, 2, 0, 0, 0) + (-6) * mono(a, b, l, x1, y1, u5, u6, 0, 1, 1, 1, 1, 0, 0) + 1 * mono(a, b, l, x1, y1, u5, u6, 0, 1, 0, 0, 2, 0, 0));
    assert((b * (y3 * y3)) == 1 * mono(a, b, l, x1, y1, u5, u6, 2, 1, 2, 0, 0, 0, 0) + (-2) * mono(a, b, l, x1, y1, u5, u6, 1, 2, 4, 0, 0, 0, 0) + 6 * mono(a, b, l, x1, y1, u5, u6, 1, 1, 2, 1, 0, 0, 0) + (-2) * mono(a, b, l, x1, y1, u5, u6, 1, 1, 1, 0, 1, 0, 0) + 1 * mono(a, b, l, x1, y1, u5, u6, 0, 3, 6, 0, 0, 0, 0) + (-6) * mono(a, b, l, x1, y1, u5, u6, 0, 2, 4, 1, 0, 0, 0) + 2 * mono(a, b, l, x1, y1, u5, u6, 0, 2, 3, 0, 1, 0, 0) + 9 * mono(a, b, l, x1, y1, u5, u6, 0, 1, 2, 2, 0, 0, 0) + (-6) * mono(a, b, l, x1, y1, u5, u6, 0, 1, 1, 1, 1, 0, 0) + 1 * mono(a, b, l, x1, y1, u5, u6, 0, 1, 0, 0, 2, 0, 0));
    lemma_mul_is_distributive_add_other_way(((-1) * mono(a, b, l, x1, y1, u5, u6, 1, 0, 0, 0, 0, 0, 0) + 1 * mono(a, b, l, x1, y1, u5, u6, 0, 1, 2, 0, 0, 0, 0) + (-2) * mono(a, b, l, x1, y1, u5, u6, 0, 0, 0, 1, 0, 0, 0)), (-1) * mono(a, b, l, x1, y1, u5, u6, 1, 0, 0, 0, 0, 0, 0), 1 * mono(a, b, l, x1, y1, u5, u6, 0, 1, 2, 0, 0, 0, 0));
    lemma_mul_is_distributive_add_other_way(((-1) * mono(a, b, l, x1, y1, u5, u6, 1, 0, 0, 0, 0, 0, 0) + 1 * mono(a, b, l, x1, y1, u5, u6, 0, 1, 2, 0, 0, 0, 0) + (-2) * mono(a, b, l, x1, y1, u5, u6, 0, 0, 0, 1, 0, 0, 0)), (-1) * mono(a, b, l, x1, y1, u5, u6, 1, 0, 0, 0, 0, 0, 0) + 1 * mono(a, b, l, x1, y1, u5, u6, 0, 1, 2, 0, 0, 0, 0), (-2) * mono(a, b, l, x1, y1, u5, u6, 0, 0, 0, 1, 0, 0, 0));
    lemma_mul_is_distributive_add((-1) * mono(a, b, l, x1, y1, u5, u6, 1, 0, 0, 0, 0, 0, 0), (-1) * mono(a, b, l, x1, y1, u5, u6, 1, 0, 0, 0, 0, 0, 0), 1 * mono(a, b, l, x1, y1, u5, u6, 0, 1, 2, 0, 0, 0, 0));
    lemma_mul_is_distributive_add((-1) * mono(a, b, l, x1, y1, u5, u6, 1, 0, 0, 0, 0, 0, 0), (-1) * mono(a, b, l, x1, y1, u5, u6, 1, 0, 0, 0, 0, 0, 0) + 1 * mono(a, b, l, x1, y1, u5, u6, 0, 1, 2, 0, 0, 0, 0), (-2) * mono(a, b, l, x1, y1, u5, u6, 0, 0, 0, 1, 0, 0, 0));
    lemma_term_mul(a, b, l, x1, y1, u5, u6, -1, 1, 0, 0, 0, 0, 0, 0, -1, 1, 0, 0, 0, 0, 0, 0);
    lemma_term_mul(a, b, l, x1, y1, u5, u6, -1, 1, 0, 0, 0, 0, 0, 0, 1, 0, 1, 2, 0, 0, 0, 0);
    lemma_term_mul(a, b, l, x1, y1, u5, u6, -1, 1, 0, 0, 0, 0, 0, 0, -2, 0, 0, 0, 1, 0, 0, 0);
    lemma_mul_is_distributive_add(1 * mono(a, b, l, x1, y1, u5, u6, 0, 1, 2, 0, 0, 0, 0), (-1) * mono(a, b, l, x1, y1, u5, u6, 1, 0, 0, 0, 0, 0, 0), 1 * mono(a, b, l, x1, y1, u5, u6, 0, 1, 2, 0, 0, 0, 0));
    lemma_mul_is_distributive_add(1 * mono(a, b, l, x1, y1, u5, u6, 0, 1, 2, 0, 0, 0, 0), (-1) * mono(a, b, l, x1, y1, u5, u6, 1, 0, 0, 0, 0, 0, 0) + 1 * mono(a, b, l, x1, y1, u5, u6, 0, 1, 2, 0, 0, 0, 0), (-2) * mono(a, b, l, x1, y1, u5, u6, 0, 0, 0, 1, 0, 0, 0));
    lemma_term_mul(a, b, l, x1, y1, u5, u6, 1, 0, 1, 2, 0, 0, 0, 0, -1, 1, 0, 0, 0, 0, 0, 0);
    lemma_term_mul(a, b, l, x1, y1, u5, u6, 1, 0, 1, 2, 0, 0, 0, 0, 1, 0, 1, 2, 0, 0, 0, 0);
    lemma_term_mul(a, b, l, x1, y1, u5, u6, 1, 0, 1, 2, 0, 0, 0, 0, -2, 0, 0, 0, 1, 0, 0, 0);
    lemma_mul_is_distributive_add((-2) * mono(a, b, l, x1, y1, u5, u6, 0, 0, 0, 1, 0, 0, 0), (-1) * mono(a, b, l, x1, y1, u5, u6, 1, 0, 0, 0, 0, 0, 0), 1 * mono(a, b, l, x1, y1, u5, u6, 0, 1, 2, 0, 0, 0, 0));
    lemma_mul_is_distributive_add((-2) * mono(a, b, l, x1, y1, u5, u6, 0, 0, 0, 1, 0, 0, 0), (-1) * mono(a, b, l, x1, y1, u5, u6, 1, 0, 0, 0, 0, 0, 0) + 1 * mono(a, b, l, x1, y1, u5, u6, 0, 1, 2, 0, 0, 0, 0), (-2) * mono(a, b, l, x1, y1, u5, u6, 0, 0, 0, 1, 0, 0, 0));
    lemma_term_mul(a, b, l, x1, y1, u5, u6, -2, 0, 0, 0, 1, 0, 0, 0, -1, 1, 0, 0, 0, 0, 0, 0);
    lemma_term_mul(a, b, l, x1, y1, u5, u6, -2, 0, 0, 0, 1, 0, 0, 0, 1, 0, 1, 2, 0, 0, 0, 0);
    lemma_term_mul(a, b, l, x1, y1, u5, u6, -2, 0, 0, 0, 1, 0, 0, 0, -2, 0, 0, 0, 1, 0, 0, 0);
    assert(((-1) * mono(a, b, l, x1, y1, u5, u6, 1, 0, 0, 0, 0, 0, 0) + 1 * mono(a, b, l, x1, y1, u5, u6, 0, 1, 2, 0, 0, 0, 0) + (-2) * mono(a, b, l, x1, y1, u5, u6, 0, 0, 0, 1, 0, 0, 0)) * ((-1) * mono(a, b, l, x1, y1, u5, u6, 1, 0, 0, 0, 0, 0, 0) + 1 * mono(a, b, l, x1, y1, u5, u6, 0, 1, 2, 0, 0, 0, 0) + (-2) * mono(a, b, l, x1, y1, u5, u6, 0, 0, 0, 1, 0, 0, 0)) == 1 * mono(a, b, l, x1, y1, u5, u6, 2, 0, 0, 0, 0, 0, 0) + (-2) * mono(a, b, l, x1, y1, u5, u6, 1, 1, 2, 0, 0, 0, 0) + 4 * mono(a, b, l, x1, y1, u5, u6, 1, 0, 0, 1, 0, 0, 0) + 1 * mono(a, b, l, x1, y1, u5, u6, 0, 2, 4, 0, 0, 0, 0) + (-4) * mono(a, b, l, x1, y1, u5, u6, 0, 1, 2, 1, 0, 0, 0) + 4 * mono(a, b, l, x1, y1, u5, u6, 0, 0, 0, 2, 0, 0, 0));
    assert((x3 * x3) == 1 * mono(a, b, l, x1, y1, u5, u6, 2, 0, 0, 0, 0, 0, 0) + (-2) * mono(a, b, l, x1, y1, u5, u6, 1, 1, 2, 0, 0, 0, 0) + 4 * mono(a, b, l, x1, y1, u5, u6, 1, 0, 0, 1, 0, 0, 0) + 1 * mono(a, b, l, x1, y1, u5, u6, 0, 2, 4, 0, 0, 0, 0) + (-4) * mono(a, b, l, x1, y1, u5, u6, 0, 1, 2, 1, 0, 0, 0) + 4 * mono(a, b, l, x1, y1, u5, u6, 0, 0, 0, 2, 0, 0, 0));
    lemma_mul_is_distributive_add_other_way(((-1) * mono(a, b, l, x1, y1, u5, u6, 1, 0, 0, 0, 0, 0, 0) + 1 * mono(a, b, l, x1, y1, u5, u6, 0, 1, 2, 0, 0, 0, 0) + (-2) * mono(a, b, l, x1, y1, u5, u6, 0, 0, 0, 1, 0, 0, 0)), 1 * mono(a, b, l, x1, y1, u5, u6, 2, 0, 0, 0, 0, 0, 0), (-2) * mono(a, b, l, x1, y1, u5, u6, 1, 1, 2, 0, 0, 0, 0));
    lemma_mul_is_distributive_add_other_way(((-1) * mono(a, b, l, x1, y1, u5, u6, 1, 0, 0, 0, 0, 0, 0) + 1 * mono(a, b, l, x1, y1, u5, u6, 0, 1, 2, 0, 0, 0, 0) + (-2) * mono(a, b, l, x1, y1, u5, u6, 0, 0, 0, 1, 0, 0, 0)), 1 * mono(a, b, l, x1, y1, u5, u6, 2, 0, 0, 0, 0, 0, 0) + (-2) * mono(a, b, l, x1, y1, u5, u6, 1, 1, 2, 0, 0, 0, 0), 4 * mono(a, b, l, x1, y1, u5, u6, 1, 0, 0, 1, 0, 0, 0));
    lemma_mul_is_distributive_add_other_way(((-1) * mono(a, b, l, x1, y1, u5, u6, 1, 0, 0, 0, 0, 0, 0) + 1 * mono(a, b, l, x1, y1, u5, u6, 0, 1, 2, 0, 0, 0, 0) + (-2) * mono(a, b, l, x1, y1, u5, u6, 0, 0, 0, 1, 0, 0, 0)), 1 * mono(a, b, l, x1, y1, u5, u6, 2, 0, 0, 0, 0, 0, 0) + (-2) * mono(a, b, l, x1, y1, u5, u6, 1, 1, 2, 0, 0, 0, 0) + 4 * mono(a, b, l, x1, y1, u5, u6, 1, 0, 0, 1, 0, 0, 0), 1 * mono(a, b, l, x1, y1, u5, u6, 0, 2, 4, 0, 0, 0, 0));
    lemma_mul_is_distributive_add_other_way(((-1) * mono(a, b, l, x1, y1, u5, u6, 1, 0, 0, 0, 0, 0, 0) + 1 * mono(a, b, l, x1, y1, u5, u6, 0, 1, 2, 0, 0, 0, 0) + (-2) * mono(a, b, l, x1, y1, u5, u6, 0, 0, 0, 1, 0, 0, 0)), 1 * mono(a, b, l, x1, y1, u5, u6, 2, 0, 0, 0, 0, 0, 0) + (-2) * mono(a, b, l, x1, y1, u5, u6, 1, 1, 2, 0, 0, 0, 0) + 4 * mono(a, b, l, x1, y1, u5, u6, 1, 0, 0, 1, 0, 0, 0) + 1 * mono(a, b, l, x1, y1, u5, u6, 0, 2, 4, 0, 0, 0, 0), (-4) * mono(a, b, l, x1, y1, u5, u6, 0, 1, 2, 1, 0, 0, 0));
    lemma_mul_is_distributive_add_other_way(((-1) * mono(a, b, l, x1, y1, u5, u6, 1, 0, 0, 0, 0, 0, 0) + 1 * mono(a, b, l, x1, y1, u5, u6, 0, 1, 2, 0, 0, 0, 0) + (-2) * mono(a, b, l, x1, y1, u5, u6, 0, 0, 0, 1, 0, 0, 0)), 1 * mono(a, b, l, x1, y1, u5, u6, 2, 0, 0, 0, 0, 0, 0) + (-2) * mono(a, b, l, x1, y1, u5, u6, 1, 1, 2, 0, 0, 0, 0) + 4 * mono(a, b, l, x1, y1, u5, u6, 1, 0, 0, 1, 0, 0, 0) + 1 * mono(a, b, l, x1, y1, u5, u6, 0, 2, 4, 0, 0, 0, 0) + (-4) * mono(a, b, l, x1, y1, u5, u6, 0, 1, 2, 1, 0, 0, 0), 4 * mono(a, b, l, x1, y1, u5, u6, 0, 0, 0, 2, 0, 0, 0));
    lemma_mul_is_distributive_add(1 * mono(a, b, l, x1, y1, u5, u6, 2, 0, 0, 0, 0, 0, 0), (-1) * mono(a, b, l, x1, y1, u5, u6, 1, 0, 0, 0, 0, 0, 0), 1 * mono(a, b, l, x1, y1, u5, u6, 0, 1, 2, 0, 0, 0, 0));
    lemma_mul_is_distributive_add(1 * mono(a, b, l, x1, y1, u5, u6, 2, 0, 0, 0, 0, 0, 0), (-1) * mono(a, b, l, x1, y1, u5, u6, 1, 0, 0, 0, 0, 0, 0) + 1 * mono(a, b, l, x1, y1, u5, u6, 0, 1, 2, 0, 0, 0, 0), (-2) * mono(a, b, l, x1, y1, u5, u6, 0, 0, 0, 1, 0, 0, 0));
    lemma_term_mul(a, b, l, x1, y1, u5, u6, 1, 2, 0, 0, 0, 0, 0, 0, -1, 1, 0, 0, 0, 0, 0, 0);
    lemma_term_mul(a, b, l, x1, y1, u5, u6, 1, 2, 0, 0, 0, 0, 0, 0, 1, 0, 1, 2, 0, 0, 0, 0);
    lemma_term_mul(a, b, l, x1, y1, u5, u6, 1, 2, 0, 0, 0, 0, 0, 0, -2, 0, 0, 0, 1, 0, 0, 0);
    lemma_mul_is_distributive_add((-2) * mono(a, b, l, x1, y1, u5, u6, 1, 1, 2, 0, 0, 0, 0), (-1) * mono(a, b, l, x1, y1, u5, u6, 1, 0, 0, 0, 0, 0, 0), 1 * mono(a, b, l, x1, y1, u5, u6, 0, 1, 2, 0, 0, 0, 0));
    lemma_mul_is_distributive_add((-2) * mono(a, b, l, x1, y1, u5, u6, 1, 1, 2, 0, 0, 0, 0), (-1) * mono(a, b, l, x1, y1, u5, u6, 1, 0, 0, 0, 0, 0, 0) + 1 * mono(a, b, l, x1, y1, u5, u6, 0, 1, 2, 0, 0, 0, 0), (-2) * mono(a, b, l, x1, y1, u5, u6, 0, 0, 0, 1, 0, 0, 0));
    lemma_term_mul(a, b, l, x1, y1, u5, u6, -2, 1, 1, 2, 0, 0, 0, 0, -1, 1, 0, 0, 0, 0, 0, 0);
    lemma_term_mul(a, b, l, x1, y1, u5, u6, -2, 1, 1, 2, 0, 0, 0, 0, 1, 0, 1, 2, 0, 0, 0, 0);
    lemma_term_mul(a, b, l, x1, y1, u5, u6, -2, 1, 1, 2, 0, 0, 0, 0, -2, 0, 0, 0, 1, 0, 0, 0);
    lemma_mul_is_distributive_add(4 * mono(a, b, l, x1, y1, u5, u6, 1, 0, 0, 1, 0, 0, 0), (-1) * mono(a, b, l, x1, y1, u5, u6, 1, 0, 0, 0, 0, 0, 0), 1 * mono(a, b, l, x1, y1, u5, u6, 0, 1, 2, 0, 0, 0, 0));
    lemma_mul_is_distributive_add(4 * mono(a, b, l, x1, y1, u5, u6, 1, 0, 0, 1, 0, 0, 0), (-1) * mono(a, b, l, x1, y1, u5, u6, 1, 0, 0, 0, 0, 0, 0) + 1 * mono(a, b, l, x1, y1, u5, u6, 0, 1, 2, 0, 0, 0, 0), (-2) * mono(a, b, l, x1, y1, u5, u6, 0, 0, 0, 1, 0, 0, 0));
    lemma_term_mul(a, b, l, x1, y1, u5, u6, 4, 1, 0, 0, 1, 0, 0, 0, -1, 1, 0, 0, 0, 0, 0, 0);
    lemma_term_mul(a, b, l, x1, y1, u5, u6, 4, 1, 0, 0, 1, 0, 0, 0, 1, 0, 1, 2, 0, 0, 0, 0);
    lemma_term_mul(a, b, l, x1, y1, u5, u6, 4, 1, 0, 0, 1, 0, 0, 0, -2, 0, 0, 0, 1, 0, 0, 0);
    lemma_mul_is_distributive_add(1 * mono(a, b, l, x1, y1, u5, u6, 0, 2, 4, 0, 0, 0, 0), (-1) * mono(a, b, l, x1, y1, u5, u6, 1, 0, 0, 0, 0, 0, 0), 1 * mono(a, b, l, x1, y1, u5, u6, 0, 1, 2, 0, 0, 0, 0));
    lemma_mul_is_distributive_add(1 * mono(a, b, l, x1, y1, u5, u6, 0, 2, 4, 0, 0, 0, 0), (-1) * mono(a, b, l, x1, y1, u5, u6, 1, 0, 0, 0, 0, 0, 0) + 1 * mono(a, b, l, x1, y1, u5, u6, 0, 1, 2, 0, 0, 0, 0), (-2) * mono(a, b, l, x1, y1, u5, u6, 0, 0, 0, 1, 0, 0, 0));
    lemma_term_mul(a, b, l, x1, y1, u5, u6, 1, 0, 2, 4, 0, 0, 0, 0, -1, 1, 0, 0, 0, 0, 0, 0);
    lemma_term_mul(a, b, l, x1, y1, u5, u6, 1, 0, 2, 4, 0, 0, 0, 0, 1, 0, 1, 2, 0, 0, 0, 0);
    lemma_term_mul(a, b, l, x1, y1, u5, u6, 1, 0, 2, 4, 0, 0, 0, 0, -2, 0, 0, 0, 1, 0, 0, 0);
    lemma_mul_is_distributive_add((-4) * mono(a, b, l, x1, y1, u5, u6, 0, 1, 2, 1, 0, 0, 0), (-1) * mono(a, b, l, x1, y1, u5, u6, 1, 0, 0, 0, 0, 0, 0), 1 * mono(a, b, l, x1, y1, u5, u6, 0, 1, 2, 0, 0, 0, 0));
    lemma_mul_is_distributive_add((-4) * mono(a, b, l, x1, y1, u5, u6, 0, 1, 2, 1, 0, 0, 0), (-1) * mono(a, b, l, x1, y1, u5, u6, 1, 0, 0, 0, 0, 0, 0) + 1 * mono(a, b, l, x1, y1, u5, u6, 0, 1, 2, 0, 0, 0, 0), (-2) * mono(a, b, l, x1, y1, u5, u6, 0, 0, 0, 1, 0, 0, 0));
    lemma_term_mul(a, b, l, x1, y1, u5, u6, -4, 0, 1, 2, 1, 0, 0, 0, -1, 1, 0, 0, 0, 0, 0, 0);
    lemma_term_mul(a, b, l, x1, y1, u5, u6, -4, 0, 1, 2, 1, 0, 0, 0, 1, 0, 1, 2, 0, 0, 0, 0);
    lemma_term_mul(a, b, l, x1, y1, u5, u6, -4, 0, 1, 2, 1, 0, 0, 0, -2, 0, 0, 0, 1, 0, 0, 0);
    lemma_mul_is_distributive_add(4 * mono(a, b, l, x1, y1, u5, u6, 0, 0, 0, 2, 0, 0, 0), (-1) * mono(a, b, l, x1, y1, u5, u6, 1, 0, 0, 0, 0, 0, 0), 1 * mono(a, b, l, x1, y1, u5, u6, 0, 1, 2, 0, 0, 0, 0));
    lemma_mul_is_distributive_add(4 * mono(a, b, l, x1, y1, u5, u6, 0, 0, 0, 2, 0, 0, 0), (-1) * mono(a, b, l, x1, y1, u5, u6, 1, 0, 0, 0, 0, 0, 0) + 1 * mono(a, b, l, x1, y1, u5, u6, 0, 1, 2, 0, 0, 0, 0), (-2) * mono(a, b, l, x1, y1, u5, u6, 0, 0, 0, 1, 0, 0, 0));
    lemma_term_mul(a, b, l, x1, y1, u5, u6, 4, 0, 0, 0, 2, 0, 0, 0, -1, 1, 0, 0, 0, 0, 0, 0);
    lemma_term_mul(a, b, l, x1, y1, u5, u6, 4, 0, 0, 0, 2, 0, 0, 0, 1, 0, 1, 2, 0, 0, 0, 0);
    lemma_term_mul(a, b, l, x1, y1, u5, u6, 4, 0, 0, 0, 2, 0, 0, 0, -2, 0, 0, 0, 1, 0, 0, 0);
    assert((1 * mono(a, b, l, x1, y1, u5, u6, 2, 0, 0, 0, 0, 0, 0) + (-2) * mono(a, b, l, x1, y1, u5, u6, 1, 1, 2, 0, 0, 0, 0) + 4 * mono(a, b, l, x1, y1, u5, u6, 1, 0, 0, 1, 0, 0, 0) + 1 * mono(a, b, l, x1, y1, u5, u6, 0, 2, 4, 0, 0, 0, 0) + (-4) * mono(a, b, l, x1, y1, u5, u6, 0, 1, 2, 1, 0, 0, 0) + 4 * mono(a, b, l, x1, y1, u5, u6, 0, 0, 0, 2, 0, 0, 0)) * ((-1) * mono(a, b, l, x1, y1, u5, u6, 1, 0, 0, 0, 0, 0, 0) + 1 * mono(a, b, l, x1, y1, u5, u6, 0, 1, 2, 0, 0, 0, 0) + (-2) * mono(a, b, l, x1, y1, u5, u6, 0, 0, 0, 1, 0, 0, 0)) == (-1) * mono(a, b, l, x1, y1, u5, u6, 3, 0, 0, 0, 0, 0, 0) + 3 * mono(a, b, l, x1, y1, u5, u6, 2, 1, 2, 0, 0, 0, 0) + (-6) * mono(a, b, l, x1, y1, u5, u6, 2, 0, 0, 1, 0, 0, 0) + (-3) * mono(a, b, l, x1, y1, u5, u6, 1, 2, 4, 0, 0, 0, 0) + 12 * mono(a, b, l, x1, y1, u5, u6, 1, 1, 2, 1, 0, 0, 0) + (-12) * mono(a, b, l, x1, y1, u5, u6, 1, 0, 0, 2, 0, 0, 0) + 1 * mono(a, b, l, x1, y1, u5, u6, 0, 3, 6, 0, 0, 0, 0) + (-6) * mono(a, b, l, x1, y1, u5, u6, 0, 2, 4, 1, 0, 0, 0) + 12 * mono(a, b, l, x1, y1, u5, u6, 0, 1, 2, 2, 0, 0, 0) + (-8) * mono(a, b, l, x1, y1, u5, u6, 0, 0, 0, 3, 0, 0, 0));
    assert(((x3 * x3) * x3) == (-1) * mono(a, b, l, x1, y1, u5, u6, 3, 0, 0, 0, 0, 0, 0) + 3 * mono(a, b, l, x1, y1, u5, u6, 2, 1, 2, 0, 0, 0, 0) + (-6) * mono(a, b, l, x1, y1, u5, u6, 2, 0, 0, 1, 0, 0, 0) + (-3) * mono(a, b, l, x1, y1, u5, u6, 1, 2, 4, 0, 0, 0, 0) + 12 * mono(a, b, l, x1, y1, u5, u6, 1, 1, 2, 1, 0, 0, 0) + (-12) * mono(a, b, l, x1, y1, u5, u6, 1, 0, 0, 2, 0, 0, 0) + 1 * mono(a, b, l, x1, y1, u5, u6, 0, 3, 6, 0, 0, 0, 0) + (-6) * mono(a, b, l, x1, y1, u5, u6, 0, 2, 4, 1, 0, 0, 0) + 12 * mono(a, b, l, x1, y1, u5, u6, 0, 1, 2, 2, 0, 0, 0) + (-8) * mono(a, b, l, x1, y1, u5, u6, 0, 0, 0, 3, 0, 0, 0));
    assert((x3 * x3) == 1 * mono(a, b, l, x1, y1, u5, u6, 2, 0, 0, 0, 0, 0, 0) + (-2) * mono(a, b, l, x1, y1, u5, u6, 1, 1, 2, 0, 0, 0, 0) + 4 * mono(a, b, l, x1, y1, u5, u6, 1, 0, 0, 1, 0, 0, 0) + 1 * mono(a, b, l, x1, y1, u5, u6, 0, 2, 4, 0, 0, 0, 0) + (-4) * mono(a, b, l, x1, y1, u5, u6, 0, 1, 2, 1, 0, 0, 0) + 4 * mono(a, b, l, x1, y1, u5, u6, 0, 0, 0, 2, 0, 0, 0));
    lemma_mul_is_distributive_add(1 * mono(a, b, l, x1, y1, u5, u6, 1, 0, 0, 0, 0, 0, 0), 1 * mono(a, b, l, x1, y1, u5, u6, 2, 0, 0, 0, 0, 0, 0), (-2) * mono(a, b, l, x1, y1, u5, u6, 1, 1, 2, 0, 0, 0, 0));
    lemma_mul_is_distributive_add(1 * mono(a, b, l, x1, y1, u5, u6, 1, 0, 0, 0, 0, 0, 0), 1 * mono(a, b, l, x1, y1, u5, u6, 2, 0, 0, 0, 0, 0, 0) + (-2) * mono(a, b, l, x1, y1, u5, u6, 1, 1, 2, 0, 0, 0, 0), 4 * mono(a, b, l, x1, y1, u5, u6, 1, 0, 0, 1, 0, 0, 0));
    lemma_mul_is_distributive_add(1 * mono(a, b, l, x1, y1, u5, u6, 1, 0, 0, 0, 0, 0, 0), 1 * mono(a, b, l, x1, y1, u5, u6, 2, 0, 0, 0, 0, 0, 0) + (-2) * mono(a, b, l, x1, y1, u5, u6, 1, 1, 2, 0, 0, 0, 0) + 4 * mono(a, b, l, x1, y1, u5, u6, 1, 0, 0, 1, 0, 0, 0), 1 * mono(a, b, l, x1, y1, u5, u6, 0, 2, 4, 0, 0, 0, 0));
    lemma_mul_is_distributive_add(1 * mono(a, b, l, x1, y1, u5, u6, 1, 0, 0, 0, 0, 0, 0), 1 * mono(a, b, l, x1, y1, u5, u6, 2, 0, 0, 0, 0, 0, 0) + (-2) * mono(a, b, l, x1, y1, u5, u6, 1, 1, 2, 0, 0, 0, 0) + 4 * mono(a, b, l, x1, y1, u5, u6, 1, 0, 0, 1, 0, 0, 0) + 1 * mono(a, b, l, x1, y1, u5, u6, 0, 2, 4, 0, 0, 0, 0), (-4) * mono(a, b, l, x1, y1, u5, u6, 0, 1, 2, 1, 0, 0, 0));
    lemma_mul_is_distributive_add(1 * mono(a, b, l, x1, y1, u5, u6, 1, 0, 0, 0, 0, 0, 0), 1 * mono(a, b, l, x1, y1, u5, u6, 2, 0, 0, 0, 0, 0, 0) + (-2) * mono(a, b, l, x1, y1, u5, u6, 1, 1, 2, 0, 0, 0, 0) + 4 * mono(a, b, l, x1, y1, u5, u6, 1, 0, 0, 1, 0, 0, 0) + 1 * mono(a, b, l, x1, y1, u5, u6, 0, 2, 4, 0, 0, 0, 0) + (-4) * mono(a, b, l, x1, y1, u5, u6, 0, 1, 2, 1, 0, 0, 0), 4 * mono(a, b, l, x1, y1, u5, u6, 0, 0, 0, 2, 0, 0, 0));
    lemma_term_mul(a, b, l, x1, y1, u5, u6, 1, 1, 0, 0, 0, 0, 0, 0, 1, 2, 0, 0, 0, 0, 0, 0);
    lemma_term_mul(a, b, l, x1, y1, u5, u6, 1, 1, 0, 0, 0, 0, 0, 0, -2, 1, 1, 2, 0, 0, 0, 0);
    lemma_term_mul(a, b, l, x1, y1, u5, u6, 1, 1, 0, 0, 0, 0, 0, 0, 4, 1, 0, 0, 1, 0, 0, 0);
    lemma_term_mul(a, b, l, x1, y1, u5, u6, 1, 1, 0, 0, 0, 0, 0, 0, 1, 0, 2, 4, 0, 0, 0, 0);
    lemma_term_mul(a, b, l, x1, y1, u5, u6, 1, 1, 0, 0, 0, 0, 0, 0, -4, 0, 1, 2, 1, 0, 0, 0);
    lemma_term_mul(a, b, l, x1, y1, u5, u6, 1, 1, 0, 0, 0, 0, 0, 0, 4, 0, 0, 0, 2, 0, 0, 0);
    assert((1 * mono(a, b, l, x1, y1, u5, u6, 1, 0, 0, 0, 0, 0, 0)) * (1 * mono(a, b, l, x1, y1, u5, u6, 2, 0, 0, 0, 0, 0, 0) + (-2) * mono(a, b, l, x1, y1, u5, u6, 1, 1, 2, 0, 0, 0, 0) + 4 * mono(a, b, l, x1, y1, u5, u6, 1, 0, 0, 1, 0, 0, 0) + 1 * mono(a, b, l, x1, y1, u5, u6, 0, 2, 4, 0, 0, 0, 0) + (-4) * mono(a, b, l, x1, y1, u5, u6, 0, 1, 2, 1, 0, 0, 0) + 4 * mono(a, b, l, x1, y1, u5, u6, 0, 0, 0, 2, 0, 0, 0)) == 1 * mono(a, b, l, x1, y1, u5, u6, 3, 0, 0, 0, 0, 0, 0) + (-2) * mono(a, b, l, x1, y1, u5, u6, 2, 1, 2, 0, 0, 0, 0) + 4 * mono(a, b, l, x1, y1, u5, u6, 2, 0, 0, 1, 0, 0, 0) + 1 * mono(a, b, l, x1, y1, u5, u6, 1, 2, 4, 0, 0, 0, 0) + (-4) * mono(a, b, l, x1, y1, u5, u6, 1, 1, 2, 1, 0, 0, 0) + 4 * mono(a, b, l, x1, y1, u5, u6, 1, 0, 0, 2, 0, 0, 0));
    assert((a * (x3 * x3)) == 1 * mono(a, b, l, x1, y1, u5, u6, 3, 0, 0, 0, 0, 0, 0) + (-2) * mono(a, b, l, x1, y1, u5, u6, 2, 1, 2, 0, 0, 0, 0) + 4 * mono(a, b, l, x1, y1, u5, u6, 2, 0, 0, 1, 0, 0, 0) + 1 * mono(a, b, l, x1, y1, u5, u6, 1, 2, 4, 0, 0, 0, 0) + (-4) * mono(a, b, l, x1, y1, u5, u6, 1, 1, 2, 1, 0, 0, 0) + 4 * mono(a, b, l, x1, y1, u5, u6, 1, 0, 0, 2, 0, 0, 0));
    assert((((x3 * x3) * x3) + (a * (x3 * x3))) == 1 * mono(a, b, l, x1, y1, u5, u6, 2, 1, 2, 0, 0, 0, 0) + (-2) * mono(a, b, l, x1, y1, u5, u6, 2, 0, 0, 1, 0, 0, 0) + (-2) * mono(a, b, l, x1, y1, u5, u6, 1, 2, 4, 0, 0, 0, 0) + 8 * mono(a, b, l, x1, y1, u5, u6, 1, 1, 2, 1, 0, 0, 0) + (-8) * mono(a, b, l, x1, y1, u5, u6, 1, 0, 0, 2, 0, 0, 0) + 1 * mono(a, b, l, x1, y1, u5, u6, 0, 3, 6, 0, 0, 0, 0) + (-6) * mono(a, b, l, x1, y1, u5, u6, 0, 2, 4, 1, 0, 0, 0) + 12 * mono(a, b, l, x1, y1, u5, u6, 0, 1, 2, 2, 0, 0, 0) + (-8) * mono(a, b, l, x1, y1, u5, u6, 0, 0, 0, 3, 0, 0, 0));
    assert(((((x3 * x3) * x3) + (a * (x3 * x3))) + x3) == 1 * mono(a, b, l, x1, y1, u5, u6, 2, 1, 2, 0, 0, 0, 0) + (-2) * mono(a, b, l, x1, y1, u5, u6, 2, 0, 0, 1, 0, 0, 0) + (-2) * mono(a, b, l, x1, y1, u5, u6, 1, 2, 4, 0, 0, 0, 0) + 8 * mono(a, b, l, x1, y1, u5, u6, 1, 1, 2, 1, 0, 0, 0) + (-8) * mono(a, b, l, x1, y1, u5, u6, 1, 0, 0, 2, 0, 0, 0) + (-1) * mono(a, b, l, x1, y1, u5, u6, 1, 0, 0, 0, 0, 0, 0) + 1 * mono(a, b, l, x1, y1, u5, u6, 0, 3, 6, 0, 0, 0, 0) + (-6) * mono(a, b, l, x1, y1, u5, u6, 0, 2, 4, 1, 0, 0, 0) + 12 * mono(a, b, l, x1, y1, u5, u6, 0, 1, 2, 2, 0, 0, 0) + 1 * mono(a, b, l, x1, y1, u5, u6, 0, 1, 2, 0, 0, 0, 0) + (-8) * mono(a, b, l, x1, y1, u5, u6, 0, 0, 0, 3, 0, 0, 0) + (-2) * mono(a, b, l, x1, y1, u5, u6, 0, 0, 0, 1, 0, 0, 0));
    assert(((b * (y3 * y3)) - ((((x3 * x3) * x3) + (a * (x3 * x3))) + x3)) == 2 * mono(a, b, l, x1, y1, u5, u6, 2, 0, 0, 1, 0, 0, 0) + (-2) * mono(a, b, l, x1, y1, u5, u6, 1, 1, 2, 1, 0, 0, 0) + (-2) * mono(a, b, l, x1, y1, u5, u6, 1, 1, 1, 0, 1, 0, 0) + 8 * mono(a, b, l, x1, y1, u5, u6, 1, 0, 0, 2, 0, 0, 0) + 1 * mono(a, b, l, x1, y1, u5, u6, 1, 0, 0, 0, 0, 0, 0) + 2 * mono(a, b, l, x1, y1, u5, u6, 0, 2, 3, 0, 1, 0, 0) + (-3) * mono(a, b, l, x1, y1, u5, u6, 0, 1, 2, 2, 0, 0, 0) + (-1) * mono(a, b, l, x1, y1, u5, u6, 0, 1, 2, 0, 0, 0, 0) + (-6) * mono(a, b, l, x1, y1, u5, u6, 0, 1, 1, 1, 1, 0, 0) + 1 * mono(a, b, l, x1, y1, u5, u6, 0, 1, 0, 0, 2, 0, 0) + 8 * mono(a, b, l, x1, y1, u5, u6, 0, 0, 0, 3, 0, 0, 0) + 2 * mono(a, b, l, x1, y1, u5, u6, 0, 0, 0, 1, 0, 0, 0));
    lemma_term_mul(a, b, l, x1, y1, u5, u6, 2, 0, 0, 0, 0, 0, 0, 0, 1, 0, 1, 0, 0, 0, 0, 0);
    assert((2 * mono(a, b, l, x1, y1, u5, u6, 0, 0, 0, 0, 0, 0, 0)) * (1 * mono(a, b, l, x1, y1, u5, u6, 0, 1, 0, 0, 0, 0, 0)) == 2 * mono(a, b, l, x1, y1, u5, u6, 0, 1, 0, 0, 0, 0, 0));
    assert((2 * b) == 2 * mono(a, b, l, x1, y1, u5, u6, 0, 1, 0, 0, 0, 0, 0));
    lemma_term_mul(a, b, l, x1, y1, u5, u6, 2, 0, 1, 0, 0, 0, 0, 0, 1, 0, 0, 0, 0, 1, 0, 0);
    assert((2 * mono(a, b, l, x1, y1, u5, u6, 0, 1, 0, 0, 0, 0, 0)) * (1 * mono(a, b, l, x1, y1, u5, u6, 0, 0, 0, 0, 1, 0, 0)) == 2 * mono(a, b, l, x1, y1, u5, u6, 0, 1, 0, 0, 1, 0, 0));
    assert(((2 * b) * y1) == 2 * mono(a, b, l, x1, y1, u5, u6, 0, 1, 0, 0, 1, 0, 0));
    lemma_term_mul(a, b, l, x1, y1, u5, u6, 1, 0, 0, 1, 0, 0, 0, 0, 2, 0, 1, 0, 0, 1, 0, 0);
    assert((1 * mono(a, b, l, x1, y1, u5, u6, 0, 0, 1, 0, 0, 0, 0)) * (2 * mono(a, b, l, x1, y1, u5, u6, 0, 1, 0, 0, 1, 0, 0)) == 2 * mono(a, b, l, x1, y1, u5, u6, 0, 1, 1, 0, 1, 0, 0));
    assert((l * ((2 * b) * y1)) == 2 * mono(a, b, l, x1, y1, u5, u6, 0, 1, 1, 0, 1, 0, 0));
    lemma_term_mul(a, b, l, x1, y1, u5, u6, 1, 0, 0, 0, 1, 0, 0, 0, 1, 0, 0, 0, 1, 0, 0, 0);
    assert((1 * mono(a, b, l, x1, y1, u5, u6, 0, 0, 0, 1, 0, 0, 0)) * (1 * mono(a, b, l, x1, y1, u5, u6, 0, 0, 0, 1, 0, 0, 0)) == 1 * mono(a, b, l, x1, y1, u5, u6, 0, 0, 0, 2, 0, 0, 0));
    assert((x1 * x1) == 1 * mono(a, b, l, x1, y1, u5, u6, 0, 0, 0, 2, 0, 0, 0));
    lemma_term_mul(a, b, l, x1, y1, u5, u6, 3, 0, 0, 0, 0, 0, 0, 0, 1, 0, 0, 0, 2, 0, 0, 0);
    assert((3 * mono(a, b, l, x1, y1, u5, u6, 0, 0, 0, 0, 0, 0, 0)) * (1 * mono(a, b, l, x1, y1, u5, u6, 0, 0, 0, 2, 0, 0, 0)) == 3 * mono(a, b, l, x1, y1, u5, u6, 0, 0, 0, 2, 0, 0, 0));
    assert((3 * (x1 * x1)) == 3 * mono(a, b, l, x1, y1, u5, u6, 0, 0, 0, 2, 0, 0, 0));
    lemma_term_mul(a, b, l, x1, y1, u5, u6, 2, 0, 0, 0, 0, 0, 0, 0, 1, 1, 0, 0, 0, 0, 0, 0);
    assert((2 * mono(a, b, l, x1, y1, u5, u6, 0, 0, 0, 0, 0, 0, 0)) * (1 * mono(a, b, l, x1, y1, u5, u6, 1, 0, 0, 0, 0, 0, 0)) == 2 * mono(a, b, l, x1, y1, u5, u6, 1, 0, 0, 0, 0, 0, 0));
    assert((2 * a) == 2 * mono(a, b, l, x1, y1, u5, u6, 1, 0, 0, 0, 0, 0, 0));
    lemma_term_mul(a, b, l, x1, y1, u5, u6, 2, 1, 0, 0, 0, 0, 0, 0, 1, 0, 0, 0, 1, 0, 0, 0);
    assert((2 * mono(a, b, l, x1, y1, u5, u6, 1, 0, 0, 0, 0, 0, 0)) * (1 * mono(a, b, l, x1, y1, u5, u6, 0, 0, 0, 1, 0, 0, 0)) == 2 * mono(a, b, l, x1, y1, u5, u6, 1, 0, 0, 1, 0, 0, 0));
    assert(((2 * a) * x1) == 2 * mono(a, b, l, x1, y1, u5, u6, 1, 0, 0, 1, 0, 0, 0));
    assert(((3 * (x1 * x1)) + ((2 * a) * x1)) == 2 * mono(a, b, l, x1, y1, u5, u6, 1, 0, 0, 1, 0, 0, 0) + 3 * mono(a, b, l, x1, y1, u5, u6, 0, 0, 0, 2, 0, 0, 0));
    assert((((3 * (x1 * x1)) + ((2 * a) * x1)) + 1) == 2 * mono(a, b, l, x1, y1, u5, u6, 1, 0, 0, 1, 0, 0, 0) + 3 * mono(a, b, l, x1, y1, u5, u6, 0, 0, 0, 2, 0, 0, 0) + 1 * mono(a, b, l, x1, y1, u5, u6, 0, 0, 0, 0, 0, 0, 0));
    assert(((l * ((2 * b) * y1)) - (((3 * (x1 * x1)) + ((2 * a) * x1)) + 1)) == (-2) * mono(a, b, l, x1, y1, u5, u6, 1, 0, 0, 1, 0, 0, 0) + 2 * mono(a, b, l, x1, y1, u5, u6, 0, 1, 1, 0, 1, 0, 0) + (-3) * mono(a, b, l, x1, y1, u5, u6, 0, 0, 0, 2, 0, 0, 0) + (-1) * mono(a, b, l, x1, y1, u5, u6, 0, 0, 0, 0, 0, 0, 0));
    lemma_term_mul(a, b, l, x1, y1, u5, u6, 1, 0, 0, 0, 0, 1, 0, 0, 1, 0, 0, 0, 0, 1, 0, 0);
    assert((1 * mono(a, b, l, x1, y1, u5, u6, 0, 0, 0, 0, 1, 0, 0)) * (1 * mono(a, b, l, x1, y1, u5, u6, 0, 0, 0, 0, 1, 0, 0)) == 1 * mono(a, b, l, x1, y1, u5, u6, 0, 0, 0, 0, 2, 0, 0));
    assert((y1 * y1) == 1 * mono(a, b, l, x1, y1, u5, u6, 0, 0, 0, 0, 2, 0, 0));
    lemma_term_mul(a, b, l, x1, y1, u5, u6, 1, 0, 1, 0, 0, 0, 0, 0, 1, 0, 0, 0, 0, 2, 0, 0);
    assert((1 * mono(a, b, l, x1, y1, u5, u6, 0, 1, 0, 0, 0, 0, 0)) * (1 * mono(a, b, l, x1, y1, u5, u6, 0, 0, 0, 0, 2, 0, 0)) == 1 * mono(a, b, l, x1, y1, u5, u6, 0, 1, 0, 0, 2, 0, 0));
    assert((b * (y1 * y1)) == 1 * mono(a, b, l, x1, y1, u5, u6, 0, 1, 0, 0, 2, 0, 0));
    assert((x1 * x1) == 1 * mono(a, b, l, x1, y1, u5, u6, 0, 0, 0, 2, 0, 0, 0));
    lemma_term_mul(a, b, l, x1, y1, u5, u6, 1, 0, 0, 0, 2, 0, 0, 0, 1, 0, 0, 0, 1, 0, 0, 0);
    assert((1 * mono(a, b, l, x1, y1, u5, u6, 0, 0, 0, 2, 0, 0, 0)) * (1 * mono(a, b, l, x1, y1, u5, u6, 0, 0, 0, 1, 0, 0, 0)) == 1 * mono(a, b, l, x1, y1, u5, u6, 0, 0, 0, 3, 0, 0, 0));
    assert(((x1 * x1) * x1) == 1 * mono(a, b, l, x1, y1, u5, u6, 0, 0, 0, 3, 0, 0, 0));
    assert((x1 * x1) == 1 * mono(a, b, l, x1, y1, u5, u6, 0, 0, 0, 2, 0, 0, 0));
    lemma_term_mul(a, b, l, x1, y1, u5, u6, 1, 1, 0, 0, 0, 0, 0, 0, 1, 0, 0, 0, 2, 0, 0, 0);
    assert((1 * mono(a, b, l, x1, y1, u5, u6, 1, 0, 0, 0, 0, 0, 0)) * (1 * mono(a, b, l, x1, y1, u5, u6, 0, 0, 0, 2, 0, 0, 0)) == 1 * mono(a, b, l, x1, y1, u5, u6, 1, 0, 0, 2, 0, 0, 0));
    assert((a * (x1 * x1)) == 1 * mono(a, b, l, x1, y1, u5, u6, 1, 0, 0, 2, 0, 0, 0));
    assert((((x1 * x1) * x1) + (a * (x1 * x1))) == 1 * mono(a, b, l, x1, y1, u5, u6, 1, 0, 0, 2, 0, 0, 0) + 1 * mono(a, b, l, x1, y1, u5, u6, 0, 0, 0, 3, 0, 0, 0));
    assert(((((x1 * x1) * x1) + (a * (x1 * x1))) + x1) == 1 * mono(a, b, l, x1, y1, u5, u6, 1, 0, 0, 2, 0, 0, 0) + 1 * mono(a, b, l, x1, y1, u5, u6, 0, 0, 0, 3, 0, 0, 0) + 1 * mono(a, b, l, x1, y1, u5, u6, 0, 0, 0, 1, 0, 0, 0));
    assert(((b * (y1 * y1)) - ((((x1 * x1) * x1) + (a * (x1 * x1))) + x1)) == (-1) * mono(a, b, l, x1, y1, u5, u6, 1, 0, 0, 2, 0, 0, 0) + 1 * mono(a, b, l, x1, y1, u5, u6, 0, 1, 0, 0, 2, 0, 0) + (-1) * mono(a, b, l, x1, y1, u5, u6, 0, 0, 0, 3, 0, 0, 0) + (-1) * mono(a, b, l, x1, y1, u5, u6, 0, 0, 0, 1, 0, 0, 0));
    lemma_mul_is_distributive_add_other_way(((-2) * mono(a, b, l, x1, y1, u5, u6, 1, 0, 0, 1, 0, 0, 0) + 2 * mono(a, b, l, x1, y1, u5, u6, 0, 1, 1, 0, 1, 0, 0) + (-3) * mono(a, b, l, x1, y1, u5, u6, 0, 0, 0, 2, 0, 0, 0) + (-1) * mono(a, b, l, x1, y1, u5, u6, 0, 0, 0, 0, 0, 0, 0)), (-1) * mono(a, b, l, x1, y1, u5, u6, 1, 0, 0, 0, 0, 0, 0), 1 * mono(a, b, l, x1, y1, u5, u6, 0, 1, 2, 0, 0, 0, 0));
    lemma_mul_is_distributive_add_other_way(((-2) * mono(a, b, l, x1, y1, u5, u6, 1, 0, 0, 1, 0, 0, 0) + 2 * mono(a, b, l, x1, y1, u5, u6, 0, 1, 1, 0, 1, 0, 0) + (-3) * mono(a, b, l, x1, y1, u5, u6, 0, 0, 0, 2, 0, 0, 0) + (-1) * mono(a, b, l, x1, y1, u5, u6, 0, 0, 0, 0, 0, 0, 0)), (-1) * mono(a, b, l, x1, y1, u5, u6, 1, 0, 0, 0, 0, 0, 0) + 1 * mono(a, b, l, x1, y1, u5, u6, 0, 1, 2, 0, 0, 0, 0), (-3) * mono(a, b, l, x1, y1, u5, u6, 0, 0, 0, 1, 0, 0, 0));
    lemma_mul_is_distributive_add((-1) * mono(a, b, l, x1, y1, u5, u6, 1, 0, 0, 0, 0, 0, 0), (-2) * mono(a, b, l, x1, y1, u5, u6, 1, 0, 0, 1, 0, 0, 0), 2 * mono(a, b, l, x1, y1, u5, u6, 0, 1, 1, 0, 1, 0, 0));
    lemma_mul_is_distributive_add((-1) * mono(a, b, l, x1, y1, u5, u6, 1, 0, 0, 0, 0, 0, 0), (-2) * mono(a, b, l, x1, y1, u5, u6, 1, 0, 0, 1, 0, 0, 0) + 2 * mono(a, b, l, x1, y1, u5, u6, 0, 1, 1, 0, 1, 0, 0), (-3) * mono(a, b, l, x1, y1, u5, u6, 0, 0, 0, 2, 0, 0, 0));
    lemma_mul_is_distributive_add((-1) * mono(a, b, l, x1, y1, u5, u6, 1, 0, 0, 0, 0, 0, 0), (-2) * mono(a, b, l, x1, y1, u5, u6, 1, 0, 0, 1, 0, 0, 0) + 2 * mono(a, b, l, x1, y1, u5, u6, 0, 1, 1, 0, 1, 0, 0) + (-3) * mono(a, b, l, x1, y1, u5, u6, 0, 0, 0, 2, 0, 0, 0), (-1) * mono(a, b, l, x1, y1, u5, u6, 0, 0, 0, 0, 0, 0, 0));
    lemma_term_mul(a, b, l, x1, y1, u5, u6, -1, 1, 0, 0, 0, 0, 0, 0, -2, 1, 0, 0, 1, 0, 0, 0);
    lemma_term_mul(a, b, l, x1, y1, u5, u6, -1, 1, 0, 0, 0, 0, 0, 0, 2, 0, 1, 1, 0, 1, 0, 0);
    lemma_term_mul(a, b, l, x1, y1, u5, u6, -1, 1, 0, 0, 0, 0, 0, 0, -3, 0, 0, 0, 2, 0, 0, 0);
    lemma_term_mul(a, b, l, x1, y1, u5, u6, -1, 1, 0, 0, 0, 0, 0, 0, -1, 0, 0, 0, 0, 0, 0, 0);
    lemma_mul_is_distributive_add(1 * mono(a, b, l, x1, y1, u5, u6, 0, 1, 2, 0, 0, 0, 0), (-2) * mono(a, b, l, x1, y1, u5, u6, 1, 0, 0, 1, 0, 0, 0), 2 * mono(a, b, l, x1, y1, u5, u6, 0, 1, 1, 0, 1, 0, 0));
    lemma_mul_is_distributive_add(1 * mono(a, b, l, x1, y1, u5, u6, 0, 1, 2, 0, 0, 0, 0), (-2) * mono(a, b, l, x1, y1, u5, u6, 1, 0, 0, 1, 0, 0, 0) + 2 * mono(a, b, l, x1, y1, u5, u6, 0, 1, 1, 0, 1, 0, 0), (-3) * mono(a, b, l, x1, y1, u5, u6, 0, 0, 0, 2, 0, 0, 0));
    lemma_mul_is_distributive_add(1 * mono(a, b, l, x1, y1, u5, u6, 0, 1, 2, 0, 0, 0, 0), (-2) * mono(a, b, l, x1, y1, u5, u6, 1, 0, 0, 1, 0, 0, 0) + 2 * mono(a, b, l, x1, y1, u5, u6, 0, 1, 1, 0, 1, 0, 0) + (-3) * mono(a, b, l, x1, y1, u5, u6, 0, 0, 0, 2, 0, 0, 0), (-1) * mono(a, b, l, x1, y1, u5, u6, 0, 0, 0, 0, 0, 0, 0));
    lemma_term_mul(a, b, l, x1, y1, u5, u6, 1, 0, 1, 2, 0, 0, 0, 0, -2, 1, 0, 0, 1, 0, 0, 0);
    lemma_term_mul(a, b, l, x1, y1, u5, u6, 1, 0, 1, 2, 0, 0, 0, 0, 2, 0, 1, 1, 0, 1, 0, 0);
    lemma_term_mul(a, b, l, x1, y1, u5, u6, 1, 0, 1, 2, 0, 0, 0, 0, -3, 0, 0, 0, 2, 0, 0, 0);
    lemma_term_mul(a, b, l, x1, y1, u5, u6, 1, 0, 1, 2, 0, 0, 0, 0, -1, 0, 0, 0, 0, 0, 0, 0);
    lemma_mul_is_distributive_add((-3) * mono(a, b, l, x1, y1, u5, u6, 0, 0, 0, 1, 0, 0, 0), (-2) * mono(a, b, l, x1, y1, u5, u6, 1, 0, 0, 1, 0, 0, 0), 2 * mono(a, b, l, x1, y1, u5, u6, 0, 1, 1, 0, 1, 0, 0));
    lemma_mul_is_distributive_add((-3) * mono(a, b, l, x1, y1, u5, u6, 0, 0, 0, 1, 0, 0, 0), (-2) * mono(a, b, l, x1, y1, u5, u6, 1, 0, 0, 1, 0, 0, 0) + 2 * mono(a, b, l, x1, y1, u5, u6, 0, 1, 1, 0, 1, 0, 0), (-3) * mono(a, b, l, x1, y1, u5, u6, 0, 0, 0, 2, 0, 0, 0));
    lemma_mul_is_distributive_add((-3) * mono(a, b, l, x1, y1, u5, u6, 0, 0, 0, 1, 0, 0, 0), (-2) * mono(a, b, l, x1, y1, u5, u6, 1, 0, 0, 1, 0, 0, 0) + 2 * mono(a, b, l, x1, y1, u5, u6, 0, 1, 1, 0, 1, 0, 0) + (-3) * mono(a, b, l, x1, y1, u5, u6, 0, 0, 0, 2, 0, 0, 0), (-1) * mono(a, b, l, x1, y1, u5, u6, 0, 0, 0, 0, 0, 0, 0));
    lemma_term_mul(a, b, l, x1, y1, u5, u6, -3, 0, 0, 0, 1, 0, 0, 0, -2, 1, 0, 0, 1, 0, 0, 0);
    lemma_term_mul(a, b, l, x1, y1, u5, u6, -3, 0, 0, 0, 1, 0, 0, 0, 2, 0, 1, 1, 0, 1, 0, 0);
    lemma_term_mul(a, b, l, x1, y1, u5, u6, -3, 0, 0, 0, 1, 0, 0, 0, -3, 0, 0, 0, 2, 0, 0, 0);
    lemma_term_mul(a, b, l, x1, y1, u5, u6, -3, 0, 0, 0, 1, 0, 0, 0, -1, 0, 0, 0, 0, 0, 0, 0);
    assert(((-1) * mono(a, b, l, x1, y1, u5, u6, 1, 0, 0, 0, 0, 0, 0) + 1 * mono(a, b, l, x1, y1, u5, u6, 0, 1, 2, 0, 0, 0, 0) + (-3) * mono(a, b, l, x1, y1, u5, u6, 0, 0, 0, 1, 0, 0, 0)) * ((-2) * mono(a, b, l, x1, y1, u5, u6, 1, 0, 0, 1, 0, 0, 0) + 2 * mono(a, b, l, x1, y1, u5, u6, 0, 1, 1, 0, 1, 0, 0) + (-3) * mono(a, b, l, x1, y1, u5, u6, 0, 0, 0, 2, 0, 0, 0) + (-1) * mono(a, b, l, x1, y1, u5, u6, 0, 0, 0, 0, 0, 0, 0)) == 2 * mono(a, b, l, x1, y1, u5, u6, 2, 0, 0, 1, 0, 0, 0) + (-2) * mono(a, b, l, x1, y1, u5, u6, 1, 1, 2, 1, 0, 0, 0) + (-2) * mono(a, b, l, x1, y1, u5, u6, 1, 1, 1, 0, 1, 0, 0) + 9 * mono(a, b, l, x1, y1, u5, u6, 1, 0, 0, 2, 0, 0, 0) + 1 * mono(a, b, l, x1, y1, u5, u6, 1, 0, 0, 0, 0, 0, 0) + 2 * mono(a, b, l, x1, y1, u5, u6, 0, 2, 3, 0, 1, 0, 0) + (-3) * mono(a, b, l, x1, y1, u5, u6, 0, 1, 2, 2, 0, 0, 0) + (-1) * mono(a, b, l, x1, y1, u5, u6, 0, 1, 2, 0, 0, 0, 0) + (-6) * mono(a, b, l, x1, y1, u5, u6, 0, 1, 1, 1, 1, 0, 0) + 9 * mono(a, b, l, x1, y1, u5, u6, 0, 0, 0, 3, 0, 0, 0) + 3 * mono(a, b, l, x1, y1, u5, u6, 0, 0, 0, 1, 0, 0, 0));
    lemma_mul_is_distributive_add(1 * mono(a, b, l, x1, y1, u5, u6, 0, 0, 0, 0, 0, 0, 0), (-1) * mono(a, b, l, x1, y1, u5, u6, 1, 0, 0, 2, 0, 0, 0), 1 * mono(a, b, l, x1, y1, u5, u6, 0, 1, 0, 0, 2, 0, 0));
    lemma_mul_is_distributive_add(1 * mono(a, b, l, x1, y1, u5, u6, 0, 0, 0, 0, 0, 0, 0), (-1) * mono(a, b, l, x1, y1, u5, u6, 1, 0, 0, 2, 0, 0, 0) + 1 * mono(a, b, l, x1, y1, u5, u6, 0, 1, 0, 0, 2, 0, 0), (-1) * mono(a, b, l, x1, y1, u5, u6, 0, 0, 0, 3, 0, 0, 0));
    lemma_mul_is_distributive_add(1 * mono(a, b, l, x1, y1, u5, u6, 0, 0, 0, 0, 0, 0, 0), (-1) * mono(a, b, l, x1, y1, u5, u6, 1, 0, 0, 2, 0, 0, 0) + 1 * mono(a, b, l, x1, y1, u5, u6, 0, 1, 0, 0, 2, 0, 0) + (-1) * mono(a, b, l, x1, y1, u5, u6, 0, 0, 0, 3, 0, 0, 0), (-1) * mono(a, b, l, x1, y1, u5, u6, 0, 0, 0, 1, 0, 0, 0));
    lemma_term_mul(a, b, l, x1, y1, u5, u6, 1, 0, 0, 0, 0, 0, 0, 0, -1, 1, 0, 0, 2, 0, 0, 0);
    lemma_term_mul(a, b, l, x1, y1, u5, u6, 1, 0, 0, 0, 0, 0, 0, 0, 1, 0, 1, 0, 0, 2, 0, 0);
    lemma_term_mul(a, b, l, x1, y1, u5, u6, 1, 0, 0, 0, 0, 0, 0, 0, -1, 0, 0, 0, 3, 0, 0, 0);
    lemma_term_mul(a, b, l, x1, y1, u5, u6, 1, 0, 0, 0, 0, 0, 0, 0, -1, 0, 0, 0, 1, 0, 0, 0);
    assert((1 * mono(a, b, l, x1, y1, u5, u6, 0, 0, 0, 0, 0, 0, 0)) * ((-1) * mono(a, b, l, x1, y1, u5, u6, 1, 0, 0, 2, 0, 0, 0) + 1 * mono(a, b, l, x1, y1, u5, u6, 0, 1, 0, 0, 2, 0, 0) + (-1) * mono(a, b, l, x1, y1, u5, u6, 0, 0, 0, 3, 0, 0, 0) + (-1) * mono(a, b, l, x1, y1, u5, u6, 0, 0, 0, 1, 0, 0, 0)) == (-1) * mono(a, b, l, x1, y1, u5, u6, 1, 0, 0, 2, 0, 0, 0) + 1 * mono(a, b, l, x1, y1, u5, u6, 0, 1, 0, 0, 2, 0, 0) + (-1) * mono(a, b, l, x1, y1, u5, u6, 0, 0, 0, 3, 0, 0, 0) + (-1) * mono(a, b, l, x1, y1, u5, u6, 0, 0, 0, 1, 0, 0, 0));
    ((-1) * mono(a, b, l, x1, y1, u5, u6, 1, 0, 0, 0, 0, 0, 0) + 1 * mono(a, b, l, x1, y1, u5, u6, 0, 1, 2, 0, 0, 0, 0) + (-3) * mono(a, b, l, x1, y1, u5, u6, 0, 0, 0, 1, 0, 0, 0), 1 * mono(a, b, l, x1, y1, u5, u6, 0, 0, 0, 0, 0, 0, 0))
}

} // verus!
