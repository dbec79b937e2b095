//! Arithmetic modulo a prime, stated over mathematical integers.
//!
//! Every field value is modelled as an integer in `[0, p)`; the functions
//! below give the result of each field operation in that model, and the
//! lemmas collect the algebraic facts the curve proofs rely on.
use vstd::arithmetic::div_mod::*;
use vstd::arithmetic::mul::*;
use vstd::prelude::*;

verus! {

/// `p` is a prime number.
pub open spec fn is_prime(p: int) -> bool {
    &&& p > 1
    &&& forall|d: int| 1 < d < p ==> #[trigger] (p % d) != 0
}

/// `v` is a square modulo `p`.
pub open spec fn is_square(v: int, p: int) -> bool {
    exists|t: int| #[trigger] ((t * t) % p) == v % p
}

/// Sum in the field of integers modulo `p`.
pub open spec fn fadd(a: int, b: int, p: int) -> int {
    (a + b) % p
}

/// Difference in the field of integers modulo `p`.
pub open spec fn fsub(a: int, b: int, p: int) -> int {
    (a - b) % p
}

/// Additive inverse modulo `p`.
pub open spec fn fneg(a: int, p: int) -> int {
    (0 - a) % p
}

/// Product modulo `p`.
pub open spec fn fmul(a: int, b: int, p: int) -> int {
    (a * b) % p
}

/// `c` is a multiplicative inverse of `a` modulo `p`.
pub open spec fn is_inverse(a: int, c: int, p: int) -> bool {
    0 <= c < p && (a * c) % p == 1
}

/// The multiplicative inverse of `a` modulo `p` (unique when `p` is prime and
/// `a` is not a multiple of `p`).
pub open spec fn finv(a: int, p: int) -> int {
    choose|c: int| is_inverse(a, c, p)
}

/// Quotient modulo `p`: `a` times the inverse of `b`.
pub open spec fn fdiv(a: int, b: int, p: int) -> int {
    fmul(a, finv(b, p), p)
}

/// Two multiplicative inverses of the same value coincide.
pub proof fn lemma_inverse_unique(a: int, c1: int, c2: int, p: int)
    requires
        p > 1,
        is_inverse(a, c1, p),
        is_inverse(a, c2, p),
    ensures
        c1 == c2,
{
    // c1 = c1 * (a * c2) = c2 * (a * c1) = c2   (mod p)
    lemma_mul_mod_noop_right(c1, a * c2, p);
    lemma_mul_mod_noop_right(c2, a * c1, p);
    assert(c1 * (a * c2) == c2 * (a * c1)) by (nonlinear_arith);
    lemma_small_mod(c1 as nat, p as nat);
    lemma_small_mod(c2 as nat, p as nat);
    assert(c1 * 1 == c1);
    assert(c2 * 1 == c2);
}

/// An inverse exists for every value not divisible by a prime modulus
/// is shown by the executable inversion; this lemma turns a computed
/// inverse into a statement about `finv`.
pub proof fn lemma_finv_is(a: int, c: int, p: int)
    requires
        p > 1,
        is_inverse(a, c, p),
    ensures
        finv(a, p) == c,
        is_inverse(a, finv(a, p), p),
{
    let w = finv(a, p);
    assert(is_inverse(a, w, p));
    lemma_inverse_unique(a, c, w, p);
}

/// `r0 = q * r1 + rem` with `d` dividing `r1` and `rem` means `d` divides `r0`.
pub proof fn lemma_divides_combination(r0: int, r1: int, q: int, rem: int, d: int)
    requires
        d > 0,
        r0 == q * r1 + rem,
        r1 % d == 0,
        rem % d == 0,
    ensures
        r0 % d == 0,
{
    lemma_fundamental_div_mod(r1, d);
    lemma_fundamental_div_mod(rem, d);
    let k = q * (r1 / d) + rem / d;
    assert(r0 == d * k + 0) by (nonlinear_arith)
        requires
            r0 == q * r1 + rem,
            r1 == d * (r1 / d),
            rem == d * (rem / d),
            k == q * (r1 / d) + rem / d,
    ;
    lemma_mod_multiples_vanish(k, 0, d);
    lemma_small_mod(0, d as nat);
}

/// One step of the extended Euclidean algorithm keeps `s * a = r (mod p)`.
pub proof fn lemma_euclid_coefficient(
    a: int,
    p: int,
    r0: int,
    r1: int,
    s0: int,
    s1: int,
    q: int,
    rem: int,
    qs: int,
    s_new: int,
)
    requires
        p > 0,
        (s0 * a) % p == r0 % p,
        (s1 * a) % p == r1 % p,
        r0 == q * r1 + rem,
        qs == (q * s1) % p,
        s_new % p == (s0 - qs) % p,
    ensures
        (s_new * a) % p == rem % p,
{
    // s_new * a = (s0 - q * s1) * a = s0 * a - q * (s1 * a) = r0 - q * r1 = rem  (mod p)
    lemma_sub_mod_noop_right(s0, q * s1, p);
    lemma_mul_mod_noop_left(s_new, a, p);
    lemma_mul_mod_noop_left(s0 - q * s1, a, p);
    assert((s0 - q * s1) * a == s0 * a - q * (s1 * a)) by (nonlinear_arith);
    lemma_sub_mod_noop(s0 * a, q * (s1 * a), p);
    lemma_mul_mod_noop_right(q, s1 * a, p);
    lemma_mul_mod_noop_right(q, r1, p);
    lemma_sub_mod_noop(r0, q * r1, p);
    assert(r0 - q * r1 == rem);
}

/// The extended Euclidean algorithm, run on `(r0, r1)` with Bezout
/// coefficients `(s0, s1)` for `a` modulo `p`, reaches an inverse of `a`.
proof fn lemma_euclid_reaches_inverse(a: int, p: int, r0: int, r1: int, s0: int, s1: int) -> (c: int)
    requires
        is_prime(p),
        0 < a < p,
        0 < r0 <= p,
        0 <= r1 < p,
        (s0 * a) % p == r0 % p,
        (s1 * a) % p == r1 % p,
        forall|d: int|
            d > 0 && #[trigger] (r0 % d) == 0 && r1 % d == 0 ==> p % d == 0 && a % d == 0,
    ensures
        is_inverse(a, c, p),
    decreases r1,
{
    if r1 == 0 {
        lemma_mod_self_0(r0);
        lemma_small_mod(0, r0 as nat);
        if r0 > a {
            lemma_small_mod(a as nat, r0 as nat);
        }
        assert(r0 == 1);
        lemma_small_mod(1, p as nat);
        lemma_mul_mod_noop_left(s0, a, p);
        lemma_mul_is_commutative(s0 % p, a);
        lemma_mod_bound(s0, p);
        s0 % p
    } else {
        let q = r0 / r1;
        let rem = r0 % r1;
        lemma_fundamental_div_mod(r0, r1);
        lemma_mod_bound(r0, r1);
        let s_new = s0 - q * s1;
        lemma_sub_mod_noop_right(s0, q * s1, p);
        lemma_euclid_coefficient(a, p, r0, r1, s0, s1, q, rem, (q * s1) % p, s_new);
        assert forall|d: int| d > 0 && #[trigger] (r1 % d) == 0 && rem % d == 0 implies p % d == 0
            && a % d == 0 by {
            lemma_divides_combination(r0, r1, q, rem, d);
        }
        lemma_euclid_reaches_inverse(a, p, r1, rem, s1, s_new)
    }
}

/// Modulo a prime, every value that is not a multiple of the modulus has an
/// inverse, and `finv` picks it.
pub proof fn lemma_finv_exists(a: int, p: int)
    requires
        is_prime(p),
        a % p != 0,
    ensures
        is_inverse(a, finv(a, p), p),
        is_inverse(a % p, finv(a, p), p),
{
    let b = a % p;
    lemma_mod_bound(a, p);
    lemma_small_mod(b as nat, p as nat);
    lemma_small_mod(1, p as nat);
    lemma_small_mod(0, p as nat);
    lemma_mod_self_0(p);
    assert(0 * b == 0);
    assert(1 * b == b);
    let c = lemma_euclid_reaches_inverse(b, p, p, b, 0, 1);
    lemma_mul_mod_noop_left(a, c, p);
    lemma_finv_is(a, c, p);
}

/// Values modulo `p` lie in `[0, p)`.
pub proof fn lemma_mod_range(a: int, p: int)
    requires
        p > 0,
    ensures
        0 <= a % p < p,
{
    lemma_mod_bound(a, p);
}

/// Reducing a value already in range changes nothing.
pub proof fn lemma_mod_small(a: int, p: int)
    requires
        0 <= a < p,
    ensures
        a % p == a,
{
    lemma_small_mod(a as nat, p as nat);
}

/// Multiplication modulo `p` is commutative.
pub proof fn lemma_fmul_comm(a: int, b: int, p: int)
    ensures
        fmul(a, b, p) == fmul(b, a, p),
{
    lemma_mul_is_commutative(a, b);
}

/// Reducing either factor first does not change a product modulo `p`.
pub proof fn lemma_fmul_mod(a: int, b: int, p: int)
    requires
        p > 0,
    ensures
        fmul(a % p, b, p) == fmul(a, b, p),
        fmul(a, b % p, p) == fmul(a, b, p),
{
    lemma_mul_mod_noop_left(a, b, p);
    lemma_mul_mod_noop_right(a, b, p);
}

/// Multiplication modulo `p` is associative.
pub proof fn lemma_fmul_assoc(a: int, b: int, c: int, p: int)
    requires
        p > 0,
    ensures
        fmul(fmul(a, b, p), c, p) == fmul(a, fmul(b, c, p), p),
        fmul(fmul(a, b, p), c, p) == (a * b * c) % p,
{
    lemma_mul_mod_noop_left(a * b, c, p);
    lemma_mul_mod_noop_right(a, b * c, p);
    lemma_mul_is_associative(a, b, c);
}

/// Reducing either term first does not change a sum or difference modulo `p`.
pub proof fn lemma_fadd_fsub_mod(a: int, b: int, p: int)
    requires
        p > 0,
    ensures
        fadd(a % p, b, p) == fadd(a, b, p),
        fadd(a, b % p, p) == fadd(a, b, p),
        fsub(a % p, b, p) == fsub(a, b, p),
        fsub(a, b % p, p) == fsub(a, b, p),
{
    lemma_add_mod_noop(a, b, p);
    lemma_add_mod_noop(a % p, b, p);
    lemma_mod_twice(a, p);
    lemma_add_mod_noop_right(a, b, p);
    lemma_sub_mod_noop(a, b, p);
    lemma_sub_mod_noop(a % p, b, p);
    lemma_sub_mod_noop_right(a, b, p);
}

/// `a * x = a * y` with `a` invertible forces `x = y` (all values reduced).
pub proof fn lemma_fmul_cancel(a: int, x: int, y: int, p: int)
    requires
        p > 1,
        is_inverse(a, finv(a, p), p),
        0 <= x < p,
        0 <= y < p,
        fmul(a, x, p) == fmul(a, y, p),
    ensures
        x == y,
{
    let w = finv(a, p);
    // x = (w * a) * x = w * (a * x) = w * (a * y) = y
    lemma_fmul_assoc(w, a, x, p);
    lemma_fmul_assoc(w, a, y, p);
    lemma_fmul_mod(w, a * x, p);
    lemma_fmul_mod(w, a * y, p);
    lemma_fmul_comm(w, a, p);
    lemma_fmul_mod(1, x, p);
    lemma_fmul_mod(1, y, p);
    lemma_fmul_mod(w * a, x, p);
    lemma_fmul_mod(w * a, y, p);
    lemma_mod_small(x, p);
    lemma_mod_small(y, p);
    lemma_mod_small(1, p);
    assert(fmul(1, x, p) == x);
    assert(fmul(1, y, p) == y);
}

/// Dividing `a * b` by `b` gives back `a` (reduced).
pub proof fn lemma_fdiv_mul_cancel(a: int, b: int, p: int)
    requires
        p > 1,
        is_inverse(b, finv(b, p), p),
    ensures
        fdiv(fmul(a, b, p), b, p) == a % p,
        fmul(fdiv(a, b, p), b, p) == a % p,
{
    let w = finv(b, p);
    lemma_fmul_mod(a * b, w, p);
    lemma_fmul_assoc(a, b, w, p);
    lemma_fmul_mod(a, b * w, p);
    lemma_mul_is_commutative(b, w);
    lemma_fmul_assoc(a, w, b, p);
    lemma_fmul_mod(a * w, b, p);
    lemma_fmul_mod(a, w * b, p);
    assert(a * 1 == a);
}

/// A quotient with numerator equal to its denominator is one.
pub proof fn lemma_fdiv_self(b: int, p: int)
    requires
        p > 1,
        is_inverse(b, finv(b, p), p),
    ensures
        fdiv(b, b, p) == 1,
{
}

/// Zero divided by anything is zero.
pub proof fn lemma_fdiv_zero(b: int, p: int)
    requires
        p > 1,
    ensures
        fdiv(0, b, p) == 0,
{
    lemma_mod_small(0, p);
}

/// Negating twice gives back the reduced value.
pub proof fn lemma_fneg_fneg(a: int, p: int)
    requires
        p > 0,
    ensures
        fneg(fneg(a, p), p) == a % p,
{
    lemma_sub_mod_noop_right(0, 0 - a, p);
}

/// `x * y + y * (-x) = 0`.
pub proof fn lemma_cross_with_neg(x: int, y: int, p: int)
    requires
        p > 0,
    ensures
        fadd(fmul(x, y, p), fmul(y, fneg(x, p), p), p) == 0,
{
    lemma_fmul_mod(y, 0 - x, p);
    lemma_add_mod_noop(x * y, y * (0 - x), p);
    assert(x * y + y * (0 - x) == 0) by (nonlinear_arith);
    lemma_mod_small(0, p);
}

/// `c * (-x) = -(c * x)`.
pub proof fn lemma_fmul_neg_right(c: int, x: int, p: int)
    requires
        p > 0,
    ensures
        fmul(c, fneg(x, p), p) == fneg(fmul(c, x, p), p),
{
    lemma_fmul_mod(c, 0 - x, p);
    lemma_sub_mod_noop_right(0, c * x, p);
    assert(c * (0 - x) == 0 - c * x) by (nonlinear_arith);
}

/// `(-x)^2 = x^2`.
pub proof fn lemma_fneg_square(x: int, p: int)
    requires
        p > 0,
    ensures
        fmul(fneg(x, p), fneg(x, p), p) == fmul(x, x, p),
{
    lemma_fmul_mod(0 - x, 0 - x, p);
    lemma_fmul_mod(0 - x, (0 - x) % p, p);
    assert((0 - x) * (0 - x) == x * x) by (nonlinear_arith);
}

/// `(-u) * v = -(u * v)`.
pub proof fn lemma_fmul_neg_left(u: int, v: int, p: int)
    requires
        p > 0,
    ensures
        fmul(fneg(u, p), v, p) == fneg(fmul(u, v, p), p),
{
    lemma_fmul_comm(fneg(u, p), v, p);
    lemma_fmul_neg_right(v, u, p);
    lemma_fmul_comm(v, u, p);
}

/// `a - (-b) = a + b`.
pub proof fn lemma_fsub_fneg(a: int, b: int, p: int)
    requires
        p > 0,
    ensures
        fsub(a, fneg(b, p), p) == fadd(a, b, p),
        fadd(a, fneg(b, p), p) == fsub(a, b, p),
{
    lemma_sub_mod_noop_right(a, 0 - b, p);
    lemma_add_mod_noop_right(a, 0 - b, p);
}

/// Addition modulo `p` is commutative.
pub proof fn lemma_fadd_comm(a: int, b: int, p: int)
    ensures
        fadd(a, b, p) == fadd(b, a, p),
{
}

/// `1` is its own inverse.
pub proof fn lemma_finv_one(p: int)
    requires
        p > 1,
    ensures
        finv(1, p) == 1,
{
    lemma_mod_small(1, p);
    lemma_finv_is(1, 1, p);
}

/// Multiplying a reduced value by one or zero.
pub proof fn lemma_fmul_one_zero(x: int, p: int)
    requires
        p > 1,
        0 <= x < p,
    ensures
        fmul(x, 1, p) == x,
        fmul(1, x, p) == x,
        fmul(x, 0, p) == 0,
        fmul(0, x, p) == 0,
        fdiv(x, 1, p) == x,
        fadd(x, 0, p) == x,
        fadd(0, x, p) == x,
        fsub(x, 0, p) == x,
{
    lemma_mod_small(x, p);
    lemma_mod_small(0, p);
    lemma_finv_one(p);
}

/// `(x * w) * z = x` when `w` is the inverse of `z`.
pub proof fn lemma_fmul_inv_cancel(x: int, z: int, p: int)
    requires
        p > 1,
        0 <= x < p,
        is_inverse(z, finv(z, p), p),
    ensures
        fmul(fmul(x, finv(z, p), p), z, p) == x,
{
    lemma_fdiv_mul_cancel(x, z, p);
    lemma_mod_small(x, p);
}

/// `(-u) * (-v) = u * v`.
pub proof fn lemma_fmul_neg_both(u: int, v: int, p: int)
    requires
        p > 0,
    ensures
        fmul(fneg(u, p), fneg(v, p), p) == fmul(u, v, p),
{
    lemma_fmul_mod(0 - u, 0 - v, p);
    lemma_fmul_mod(0 - u, (0 - v) % p, p);
    assert((0 - u) * (0 - v) == u * v) by (nonlinear_arith);
}

/// `(-n) / (-m) = n / m` for `m` not a multiple of the prime `p`.
pub proof fn lemma_fdiv_neg_neg(n: int, m: int, p: int)
    requires
        is_prime(p),
        m % p != 0,
    ensures
        fdiv(fneg(n, p), fneg(m, p), p) == fdiv(n, m, p),
{
    lemma_finv_exists(m, p);
    let w = finv(m, p);
    lemma_fmul_neg_both(m, w, p);
    lemma_mod_range(0 - w, p);
    lemma_finv_is(fneg(m, p), fneg(w, p), p);
    lemma_fmul_neg_both(n, w, p);
}

/// `-y + y = 0`.
pub proof fn lemma_fneg_add_self(y: int, p: int)
    requires
        p > 0,
    ensures
        fadd(fneg(y, p), y, p) == 0,
        fadd(y, fneg(y, p), p) == 0,
{
    lemma_fadd_fsub_mod(0 - y, y, p);
    lemma_fadd_fsub_mod(y, 0 - y, p);
    lemma_mod_small(0, p);
}

/// Modulo a prime, a product of non-multiples of `p` is not a multiple of `p`.
pub proof fn lemma_fmul_nonzero(u: int, v: int, p: int)
    requires
        is_prime(p),
        u % p != 0,
        v % p != 0,
    ensures
        fmul(u, v, p) != 0,
{
    if fmul(u, v, p) == 0 {
        lemma_finv_exists(u, p);
        let w = finv(u, p);
        // v = (w * u) * v = w * (u * v) = 0
        lemma_fmul_assoc(w, u, v, p);
        lemma_fmul_mod(w, u * v, p);
        lemma_fmul_comm(w, u, p);
        lemma_fmul_mod(w * u, v, p);
        lemma_mod_small(0, p);
        assert(w * 0 == 0);
        assert(1 * v == v);
    }
}

/// Modulo a prime, equal squares come from equal or opposite roots.
pub proof fn lemma_equal_squares(y1: int, y2: int, p: int)
    requires
        is_prime(p),
        fmul(y1, y1, p) == fmul(y2, y2, p),
    ensures
        fsub(y1, y2, p) == 0 || fadd(y1, y2, p) == 0,
{
    assert((y1 - y2) * (y1 + y2) == y1 * y1 - y2 * y2) by (nonlinear_arith);
    lemma_mod_equivalence(y1 * y1, y2 * y2, p);
    if fsub(y1, y2, p) != 0 && fadd(y1, y2, p) != 0 {
        lemma_fmul_nonzero(y1 - y2, y1 + y2, p);
    }
}

} // verus!
