//! Prime fields whose modulus fits in a `u64`.
use crate::field::arithmetic::{
    fadd, fmul, fsub, is_inverse, is_prime, lemma_divides_combination, lemma_euclid_coefficient, lemma_finv_is, lemma_mod_small,
};
use crate::field::traits::{IsField, IsPrimeField};
use vstd::arithmetic::div_mod::*;
use vstd::prelude::*;

verus! {

/// The field of integers modulo `MODULUS`, each element stored as a `u64`.
#[derive(Clone, Copy, Debug)]
pub struct U64PrimeField<const MODULUS: u64>;

impl<const MODULUS: u64> IsField for U64PrimeField<MODULUS> {
    type BaseType = u64;

    open spec fn modulus() -> int {
        MODULUS as int
    }

    open spec fn as_int(x: u64) -> int {
        x as int
    }
}

impl<const MODULUS: u64> U64PrimeField<MODULUS> {
    /// Inverse of `a` modulo the prime `MODULUS`, by the extended Euclidean
    /// algorithm with the Bezout coefficient kept reduced.
    fn inv_reduced(a: u64) -> (r: u64)
        requires
            is_prime(MODULUS as int),
            0 < a < MODULUS,
        ensures
            is_inverse(a as int, r as int, MODULUS as int),
    {
        let p = MODULUS;
        let mut r0: u64 = p;
        let mut r1: u64 = a;
        let mut s0: u64 = 0;
        let mut s1: u64 = 1;
        proof {
            lemma_small_mod(1, p as nat);
            lemma_small_mod(0, p as nat);
            lemma_mod_self_0(p as int);
        }
        while r1 != 0
            invariant
                is_prime(p as int),
                p == MODULUS,
                0 < a < p,
                0 < r0 <= p,
                r1 < p,
                s0 < p,
                s1 < p,
                ((s0 as int) * (a as int)) % (p as int) == (r0 as int) % (p as int),
                ((s1 as int) * (a as int)) % (p as int) == (r1 as int) % (p as int),
                forall|d: int|
                    d > 0 && #[trigger] ((r0 as int) % d) == 0 && (r1 as int) % d == 0 ==> (
                    p as int) % d == 0 && (a as int) % d == 0,
            decreases r1,
        {
            let q = r0 / r1;
            let rem = r0 % r1;
            assert(q <= r0) by {
                lemma_div_is_ordered_by_denominator(r0 as int, 1, r1 as int);
            }
            assert((q as u128) * (s1 as u128) < 0x1_0000_0000_0000_0000_0000_0000_0000_0000)
                by (nonlinear_arith)
                requires
                    q <= r0,
                    r0 <= p,
                    s1 < p,
            ;
            let qs: u64 = ((q as u128 * s1 as u128) % (p as u128)) as u64;
            let s_new: u64 = if s0 >= qs {
                s0 - qs
            } else {
                s0 + (p - qs)
            };
            proof {
                lemma_fundamental_div_mod(r0 as int, r1 as int);
                let qi = q as int;
                assert(r0 as int == qi * (r1 as int) + rem as int);
                if s0 >= qs {
                } else {
                    lemma_mod_add_multiples_vanish(s0 - qs, p as int);
                }
                lemma_euclid_coefficient(
                    a as int,
                    p as int,
                    r0 as int,
                    r1 as int,
                    s0 as int,
                    s1 as int,
                    qi,
                    rem as int,
                    qs as int,
                    s_new as int,
                );
                assert forall|d: int|
                    d > 0 && #[trigger] ((r1 as int) % d) == 0 && (rem as int) % d == 0 implies (
                    p as int) % d == 0 && (a as int) % d == 0 by {
                    lemma_divides_combination(r0 as int, r1 as int, qi, rem as int, d);
                }
            }
            r0 = r1;
            r1 = rem;
            s0 = s1;
            s1 = s_new;
        }
        proof {
            lemma_mod_self_0(r0 as int);
            lemma_small_mod(0, r0 as nat);
            assert((r0 as int) % (r0 as int) == 0);
            assert((p as int) % (r0 as int) == 0 && (a as int) % (r0 as int) == 0);
            if r0 > a {
                lemma_small_mod(a as nat, r0 as nat);
            }
            assert(r0 <= a);
            assert(r0 == 1);
            lemma_small_mod(1, p as nat);
        }
        s0
    }

    fn reduce(a: u64) -> (r: u64)
        requires
            MODULUS > 1,
        ensures
            r < MODULUS,
            r as int == (a as int) % (MODULUS as int),
    {
        a % MODULUS
    }

    fn add_reduced(a: u64, b: u64) -> (r: u64)
        requires
            MODULUS > 1,
        ensures
            r as int == fadd((a as int) % (MODULUS as int), (b as int) % (MODULUS as int), MODULUS as int),
    {
        let x = a % MODULUS;
        let y = b % MODULUS;
        (((x as u128) + (y as u128)) % (MODULUS as u128)) as u64
    }

    fn sub_reduced(a: u64, b: u64) -> (r: u64)
        requires
            MODULUS > 1,
        ensures
            r as int == fsub((a as int) % (MODULUS as int), (b as int) % (MODULUS as int), MODULUS as int),
    {
        let x = a % MODULUS;
        let y = b % MODULUS;
        proof {
            let m = MODULUS as int;
            if x >= y {
                lemma_mod_small(x - y, m);
            } else {
                lemma_mod_add_multiples_vanish(x - y, m);
                lemma_mod_small(x - y + m, m);
            }
        }
        if x >= y {
            x - y
        } else {
            x + (MODULUS - y)
        }
    }

    fn mul_reduced(a: u64, b: u64) -> (r: u64)
        requires
            MODULUS > 1,
        ensures
            r as int == fmul((a as int) % (MODULUS as int), (b as int) % (MODULUS as int), MODULUS as int),
    {
        let x = a % MODULUS;
        let y = b % MODULUS;
        assert((x as u128) * (y as u128) < 0x1_0000_0000_0000_0000_0000_0000_0000_0000)
            by (nonlinear_arith)
            requires
                x < 0x1_0000_0000_0000_0000,
                y < 0x1_0000_0000_0000_0000,
        ;
        (((x as u128) * (y as u128)) % (MODULUS as u128)) as u64
    }
}

/// `13` is prime.
proof fn lemma_thirteen_is_prime()
    ensures
        is_prime(13),
{
    assert forall|d: int| 1 < d < 13 implies #[trigger] (13int % d) != 0 by {
        if d == 2 {
        } else if d == 3 {
        } else if d == 4 {
        } else if d == 5 {
        } else if d == 6 {
        } else if d == 7 {
        } else if d == 8 {
        } else if d == 9 {
        } else if d == 10 {
        } else if d == 11 {
        } else {
            assert(d == 12);
        }
    }
}

impl IsPrimeField for U64PrimeField<13> {
    proof fn lemma_modulus_is_prime() {
        lemma_thirteen_is_prime();
    }

    open spec fn spec_from_u64(x: u64) -> u64 {
        x % 13
    }

    proof fn lemma_from_u64(x: u64) {
        lemma_mod_twice(x as int, 13);
    }

    fn from_u64(x: u64) -> (r: u64) {
        x % 13
    }

    fn add(a: &u64, b: &u64) -> (r: u64) {
        Self::add_reduced(*a, *b)
    }

    fn sub(a: &u64, b: &u64) -> (r: u64) {
        Self::sub_reduced(*a, *b)
    }

    fn neg(a: &u64) -> (r: u64) {
        proof {
            lemma_mod_small(0, 13);
        }
        Self::sub_reduced(0, *a)
    }

    fn mul(a: &u64, b: &u64) -> (r: u64) {
        Self::mul_reduced(*a, *b)
    }

    fn inv(a: &u64) -> (r: u64) {
        let x = Self::reduce(*a);
        proof {
            lemma_thirteen_is_prime();
        }
        let r = Self::inv_reduced(x);
        proof {
            lemma_mod_small(r as int, 13);
            lemma_finv_is(x as int, r as int, 13);
        }
        r
    }

    fn eq(a: &u64, b: &u64) -> (r: bool) {
        *a % 13 == *b % 13
    }
}

} // verus!
