//! Monomials in seven integer variables, and the facts that let a product
//! of sums of monomials be expanded term by term.
use vstd::arithmetic::power::{lemma_pow0, lemma_pow1, lemma_pow_adds, pow};
use vstd::prelude::*;

verus! {

/// The monomial `v0^e0 v1^e1 ... v6^e6`.
pub open spec fn mono(
    v0: int,
    v1: int,
    v2: int,
    v3: int,
    v4: int,
    v5: int,
    v6: int,
    e0: nat,
    e1: nat,
    e2: nat,
    e3: nat,
    e4: nat,
    e5: nat,
    e6: nat,
) -> int {
    pow(v0, e0) * pow(v1, e1) * pow(v2, e2) * pow(v3, e3) * pow(v4, e4) * pow(v5, e5) * pow(v6, e6)
}

/// `(p q)(r s) = (p r)(q s)`.
pub proof fn lemma_swap4(p: int, q: int, r: int, s: int)
    ensures
        (p * q) * (r * s) == (p * r) * (q * s),
{
    assert((p * q) * (r * s) == (p * r) * (q * s)) by (nonlinear_arith);
}

/// Multiplying monomials adds exponents.
pub proof fn lemma_mono_mul(
    v0: int,
    v1: int,
    v2: int,
    v3: int,
    v4: int,
    v5: int,
    v6: int,
    e0: nat,
    e1: nat,
    e2: nat,
    e3: nat,
    e4: nat,
    e5: nat,
    e6: nat,
    f0: nat,
    f1: nat,
    f2: nat,
    f3: nat,
    f4: nat,
    f5: nat,
    f6: nat,
)
    ensures
        mono(v0, v1, v2, v3, v4, v5, v6, e0, e1, e2, e3, e4, e5, e6) * mono(v0, v1, v2, v3, v4, v5, v6, f0, f1, f2, f3, f4, f5, f6) == mono(v0, v1, v2, v3, v4, v5, v6, e0 + f0, e1 + f1, e2 + f2, e3 + f3, e4 + f4, e5 + f5, e6 + f6),
{
    let a0 = pow(v0, e0);
    let b0 = pow(v0, f0);
    let a1 = pow(v1, e1);
    let b1 = pow(v1, f1);
    let a2 = pow(v2, e2);
    let b2 = pow(v2, f2);
    let a3 = pow(v3, e3);
    let b3 = pow(v3, f3);
    let a4 = pow(v4, e4);
    let b4 = pow(v4, f4);
    let a5 = pow(v5, e5);
    let b5 = pow(v5, f5);
    let a6 = pow(v6, e6);
    let b6 = pow(v6, f6);
    lemma_swap4(a0, a1, b0, b1);
    lemma_swap4(a0 * a1, a2, b0 * b1, b2);
    lemma_swap4(a0 * a1 * a2, a3, b0 * b1 * b2, b3);
    lemma_swap4(a0 * a1 * a2 * a3, a4, b0 * b1 * b2 * b3, b4);
    lemma_swap4(a0 * a1 * a2 * a3 * a4, a5, b0 * b1 * b2 * b3 * b4, b5);
    lemma_swap4(a0 * a1 * a2 * a3 * a4 * a5, a6, b0 * b1 * b2 * b3 * b4 * b5, b6);
    lemma_pow_adds(v0, e0, f0);
    lemma_pow_adds(v1, e1, f1);
    lemma_pow_adds(v2, e2, f2);
    lemma_pow_adds(v3, e3, f3);
    lemma_pow_adds(v4, e4, f4);
    lemma_pow_adds(v5, e5, f5);
    lemma_pow_adds(v6, e6, f6);
}

/// Multiplying two terms multiplies their coefficients and monomials.
pub proof fn lemma_term_mul(
    v0: int,
    v1: int,
    v2: int,
    v3: int,
    v4: int,
    v5: int,
    v6: int,
    c: int,
    e0: nat,
    e1: nat,
    e2: nat,
    e3: nat,
    e4: nat,
    e5: nat,
    e6: nat,
    k: int,
    f0: nat,
    f1: nat,
    f2: nat,
    f3: nat,
    f4: nat,
    f5: nat,
    f6: nat,
)
    ensures
        (c * mono(v0, v1, v2, v3, v4, v5, v6, e0, e1, e2, e3, e4, e5, e6)) * (k * mono(v0, v1, v2, v3, v4, v5, v6, f0, f1, f2, f3, f4, f5, f6)) == (c * k) * mono(v0, v1, v2, v3, v4, v5, v6, e0 + f0, e1 + f1, e2 + f2, e3 + f3, e4 + f4, e5 + f5, e6 + f6),
{
    lemma_mono_mul(v0, v1, v2, v3, v4, v5, v6, e0, e1, e2, e3, e4, e5, e6, f0, f1, f2, f3, f4, f5, f6);
    lemma_swap4(c, mono(v0, v1, v2, v3, v4, v5, v6, e0, e1, e2, e3, e4, e5, e6), k, mono(v0, v1, v2, v3, v4, v5, v6, f0, f1, f2, f3, f4, f5, f6));
}

/// Each variable, and the constant one, as a monomial.
pub proof fn lemma_mono_vars(v0: int, v1: int, v2: int, v3: int, v4: int, v5: int, v6: int)
    ensures
        1 == 1 * mono(v0, v1, v2, v3, v4, v5, v6, 0, 0, 0, 0, 0, 0, 0),
        v0 == 1 * mono(v0, v1, v2, v3, v4, v5, v6, 1, 0, 0, 0, 0, 0, 0),
        v1 == 1 * mono(v0, v1, v2, v3, v4, v5, v6, 0, 1, 0, 0, 0, 0, 0),
        v2 == 1 * mono(v0, v1, v2, v3, v4, v5, v6, 0, 0, 1, 0, 0, 0, 0),
        v3 == 1 * mono(v0, v1, v2, v3, v4, v5, v6, 0, 0, 0, 1, 0, 0, 0),
        v4 == 1 * mono(v0, v1, v2, v3, v4, v5, v6, 0, 0, 0, 0, 1, 0, 0),
        v5 == 1 * mono(v0, v1, v2, v3, v4, v5, v6, 0, 0, 0, 0, 0, 1, 0),
        v6 == 1 * mono(v0, v1, v2, v3, v4, v5, v6, 0, 0, 0, 0, 0, 0, 1),
{
    lemma_pow0(v0);
    lemma_pow1(v0);
    lemma_pow0(v1);
    lemma_pow1(v1);
    lemma_pow0(v2);
    lemma_pow1(v2);
    lemma_pow0(v3);
    lemma_pow1(v3);
    lemma_pow0(v4);
    lemma_pow1(v4);
    lemma_pow0(v5);
    lemma_pow1(v5);
    lemma_pow0(v6);
    lemma_pow1(v6);
}

} // verus!
