//! The group of TinyJubJub points in Edwards form. The curve has twenty
//! points, each a multiple of `(1, 2)`; the sum of the `i`-th and `j`-th
//! multiples is the `(i + j) mod 20`-th. From that addition table follow
//! associativity and the agreement of double-and-add with repeated addition.
use crate::cyclic_group::{double_and_add, double_and_add_multiple, scalar_multiple, IsGroup};
use crate::elliptic_curve::edwards::curves::tiny_jub_jub::TinyJubJubEdwards;
use crate::elliptic_curve::order_twenty::index_sum;
use crate::elliptic_curve::edwards::point::{
    edwards_add, edwards_add_affine, edwards_den_x, edwards_den_y, edwards_neutral, EdwardsProjectivePoint,
};
use crate::elliptic_curve::edwards::traits::{edwards_affine_on_curve, edwards_on_curve};
use crate::elliptic_curve::point::{
    affine_of, coordinates_in_range, lemma_affine_of_same_point, Coordinates,
};
use crate::field::arithmetic::{
    fadd, fmul, fsub, is_inverse, lemma_finv_is, lemma_finv_one, lemma_fmul_one_zero,
};
use crate::field::fields::u64_prime_field::U64PrimeField;
use crate::field::traits::IsPrimeField;
use vstd::arithmetic::div_mod::{
    lemma_add_mod_noop, lemma_mod_add_multiples_vanish, lemma_mod_bound, lemma_mod_multiples_vanish,
    lemma_small_mod,
};
use vstd::prelude::*;

verus! {

/// The `x` coordinate of the `i`-th multiple of `(1, 2)`, for `0 <= i < 20`.
pub open spec fn tiny_edwards_x(i: int) -> int {
    if i == 0 {
        0
    } else if i == 1 {
        1
    } else if i == 2 {
        8
    } else if i == 3 {
        2
    } else if i == 4 {
        6
    } else if i == 5 {
        3
    } else if i == 6 {
        6
    } else if i == 7 {
        2
    } else if i == 8 {
        8
    } else if i == 9 {
        1
    } else if i == 10 {
        0
    } else if i == 11 {
        12
    } else if i == 12 {
        5
    } else if i == 13 {
        11
    } else if i == 14 {
        7
    } else if i == 15 {
        10
    } else if i == 16 {
        7
    } else if i == 17 {
        11
    } else if i == 18 {
        5
    } else {
        12
    }
}

/// The `y` coordinate of the `i`-th multiple of `(1, 2)`, for `0 <= i < 20`.
pub open spec fn tiny_edwards_y(i: int) -> int {
    if i == 0 {
        1
    } else if i == 1 {
        2
    } else if i == 2 {
        5
    } else if i == 3 {
        7
    } else if i == 4 {
        9
    } else if i == 5 {
        0
    } else if i == 6 {
        4
    } else if i == 7 {
        6
    } else if i == 8 {
        8
    } else if i == 9 {
        11
    } else if i == 10 {
        12
    } else if i == 11 {
        11
    } else if i == 12 {
        8
    } else if i == 13 {
        6
    } else if i == 14 {
        4
    } else if i == 15 {
        0
    } else if i == 16 {
        9
    } else if i == 17 {
        7
    } else if i == 18 {
        5
    } else {
        2
    }
}

/// The `i`-th multiple of `(1, 2)` on TinyJubJub in Edwards form, as
/// projective coordinates `[x: y: 1]`.
pub open spec fn tiny_edwards_point(i: int) -> Coordinates {
    (tiny_edwards_x(i), tiny_edwards_y(i), 1)
}

/// The position of the affine point `(x, y)` among the multiples of `(1, 2)`;
/// twenty when it is not one of them.
pub open spec fn tiny_edwards_index(x: int, y: int) -> int {
    if x == 0 && y == 1 {
        0
    } else if x == 1 && y == 2 {
        1
    } else if x == 8 && y == 5 {
        2
    } else if x == 2 && y == 7 {
        3
    } else if x == 6 && y == 9 {
        4
    } else if x == 3 && y == 0 {
        5
    } else if x == 6 && y == 4 {
        6
    } else if x == 2 && y == 6 {
        7
    } else if x == 8 && y == 8 {
        8
    } else if x == 1 && y == 11 {
        9
    } else if x == 0 && y == 12 {
        10
    } else if x == 12 && y == 11 {
        11
    } else if x == 5 && y == 8 {
        12
    } else if x == 11 && y == 6 {
        13
    } else if x == 7 && y == 4 {
        14
    } else if x == 10 && y == 0 {
        15
    } else if x == 7 && y == 9 {
        16
    } else if x == 11 && y == 7 {
        17
    } else if x == 5 && y == 5 {
        18
    } else if x == 12 && y == 2 {
        19
    } else {
        20
    }
}

/// One entry of the addition table, on its coordinates: `ix` and `iy`
/// invert the two denominators of the sum of `(x1, y1)` and `(x2, y2)`, and
/// the quotients come out as `(x3, y3)`.
spec fn sum_entry_ok(x1: int, y1: int, x2: int, y2: int, x3: int, y3: int, ix: int, iy: int) -> bool {
    &&& is_inverse(edwards_den_x(8, x1, y1, x2, y2, 13), ix, 13)
    &&& is_inverse(edwards_den_y(8, x1, y1, x2, y2, 13), iy, 13)
    &&& fmul(fadd(fmul(x1, y2, 13), fmul(y1, x2, 13), 13), ix, 13) == x3
    &&& fmul(fsub(fmul(y1, y2, 13), fmul(fmul(3, x1, 13), x2, 13), 13), iy, 13) == y3
}

/// A checked entry of the addition table: the Edwards sum of `(x1, y1)` and
/// `(x2, y2)` is `[x3: y3: 1]`.
proof fn lemma_sum_entry(x1: int, y1: int, x2: int, y2: int, x3: int, y3: int, ix: int, iy: int)
    requires
        sum_entry_ok(x1, y1, x2, y2, x3, y3, ix, iy),
    ensures
        edwards_add_affine(3, 8, x1, y1, x2, y2, 13) == (x3, y3, 1int),
{
    lemma_finv_is(edwards_den_x(8, x1, y1, x2, y2, 13), ix, 13);
    lemma_finv_is(edwards_den_y(8, x1, y1, x2, y2, 13), iy, 13);
}


/// Row 0 of the addition table.
#[verifier::rlimit(40)]
proof fn lemma_table_row_0(j: int)
    requires
        0 <= j < 20,
    ensures
        edwards_add_affine(3, 8, 0, 1, tiny_edwards_x(j), tiny_edwards_y(j), 13)
            == tiny_edwards_point(index_sum(0, j)),
{
    if j == 0 {
        assert(sum_entry_ok(0, 1, 0, 1, 0, 1, 1, 1)) by (nonlinear_arith);
        lemma_sum_entry(0, 1, 0, 1, 0, 1, 1, 1);
    } else if j == 1 {
        assert(sum_entry_ok(0, 1, 1, 2, 1, 2, 1, 1)) by (nonlinear_arith);
        lemma_sum_entry(0, 1, 1, 2, 1, 2, 1, 1);
    } else if j == 2 {
        assert(sum_entry_ok(0, 1, 8, 5, 8, 5, 1, 1)) by (nonlinear_arith);
        lemma_sum_entry(0, 1, 8, 5, 8, 5, 1, 1);
    } else if j == 3 {
        assert(sum_entry_ok(0, 1, 2, 7, 2, 7, 1, 1)) by (nonlinear_arith);
        lemma_sum_entry(0, 1, 2, 7, 2, 7, 1, 1);
    } else if j == 4 {
        assert(sum_entry_ok(0, 1, 6, 9, 6, 9, 1, 1)) by (nonlinear_arith);
        lemma_sum_entry(0, 1, 6, 9, 6, 9, 1, 1);
    } else if j == 5 {
        assert(sum_entry_ok(0, 1, 3, 0, 3, 0, 1, 1)) by (nonlinear_arith);
        lemma_sum_entry(0, 1, 3, 0, 3, 0, 1, 1);
    } else if j == 6 {
        assert(sum_entry_ok(0, 1, 6, 4, 6, 4, 1, 1)) by (nonlinear_arith);
        lemma_sum_entry(0, 1, 6, 4, 6, 4, 1, 1);
    } else if j == 7 {
        assert(sum_entry_ok(0, 1, 2, 6, 2, 6, 1, 1)) by (nonlinear_arith);
        lemma_sum_entry(0, 1, 2, 6, 2, 6, 1, 1);
    } else if j == 8 {
        assert(sum_entry_ok(0, 1, 8, 8, 8, 8, 1, 1)) by (nonlinear_arith);
        lemma_sum_entry(0, 1, 8, 8, 8, 8, 1, 1);
    } else if j == 9 {
        assert(sum_entry_ok(0, 1, 1, 11, 1, 11, 1, 1)) by (nonlinear_arith);
        lemma_sum_entry(0, 1, 1, 11, 1, 11, 1, 1);
    } else if j == 10 {
        assert(sum_entry_ok(0, 1, 0, 12, 0, 12, 1, 1)) by (nonlinear_arith);
        lemma_sum_entry(0, 1, 0, 12, 0, 12, 1, 1);
    } else if j == 11 {
        assert(sum_entry_ok(0, 1, 12, 11, 12, 11, 1, 1)) by (nonlinear_arith);
        lemma_sum_entry(0, 1, 12, 11, 12, 11, 1, 1);
    } else if j == 12 {
        assert(sum_entry_ok(0, 1, 5, 8, 5, 8, 1, 1)) by (nonlinear_arith);
        lemma_sum_entry(0, 1, 5, 8, 5, 8, 1, 1);
    } else if j == 13 {
        assert(sum_entry_ok(0, 1, 11, 6, 11, 6, 1, 1)) by (nonlinear_arith);
        lemma_sum_entry(0, 1, 11, 6, 11, 6, 1, 1);
    } else if j == 14 {
        assert(sum_entry_ok(0, 1, 7, 4, 7, 4, 1, 1)) by (nonlinear_arith);
        lemma_sum_entry(0, 1, 7, 4, 7, 4, 1, 1);
    } else if j == 15 {
        assert(sum_entry_ok(0, 1, 10, 0, 10, 0, 1, 1)) by (nonlinear_arith);
        lemma_sum_entry(0, 1, 10, 0, 10, 0, 1, 1);
    } else if j == 16 {
        assert(sum_entry_ok(0, 1, 7, 9, 7, 9, 1, 1)) by (nonlinear_arith);
        lemma_sum_entry(0, 1, 7, 9, 7, 9, 1, 1);
    } else if j == 17 {
        assert(sum_entry_ok(0, 1, 11, 7, 11, 7, 1, 1)) by (nonlinear_arith);
        lemma_sum_entry(0, 1, 11, 7, 11, 7, 1, 1);
    } else if j == 18 {
        assert(sum_entry_ok(0, 1, 5, 5, 5, 5, 1, 1)) by (nonlinear_arith);
        lemma_sum_entry(0, 1, 5, 5, 5, 5, 1, 1);
    } else {
        assert(j == 19);
        assert(sum_entry_ok(0, 1, 12, 2, 12, 2, 1, 1)) by (nonlinear_arith);
        lemma_sum_entry(0, 1, 12, 2, 12, 2, 1, 1);
    }
}

/// Row 1 of the addition table.
#[verifier::rlimit(40)]
proof fn lemma_table_row_1(j: int)
    requires
        0 <= j < 20,
    ensures
        edwards_add_affine(3, 8, 1, 2, tiny_edwards_x(j), tiny_edwards_y(j), 13)
            == tiny_edwards_point(index_sum(1, j)),
{
    if j == 0 {
        assert(sum_entry_ok(1, 2, 0, 1, 1, 2, 1, 1)) by (nonlinear_arith);
        lemma_sum_entry(1, 2, 0, 1, 1, 2, 1, 1);
    } else if j == 1 {
        assert(sum_entry_ok(1, 2, 1, 2, 8, 5, 2, 5)) by (nonlinear_arith);
        lemma_sum_entry(1, 2, 1, 2, 8, 5, 2, 5);
    } else if j == 2 {
        assert(sum_entry_ok(1, 2, 8, 5, 2, 7, 10, 6)) by (nonlinear_arith);
        lemma_sum_entry(1, 2, 8, 5, 2, 7, 10, 6);
    } else if j == 3 {
        assert(sum_entry_ok(1, 2, 2, 7, 6, 9, 10, 6)) by (nonlinear_arith);
        lemma_sum_entry(1, 2, 2, 7, 6, 9, 10, 6);
    } else if j == 4 {
        assert(sum_entry_ok(1, 2, 6, 9, 3, 0, 2, 5)) by (nonlinear_arith);
        lemma_sum_entry(1, 2, 6, 9, 3, 0, 2, 5);
    } else if j == 5 {
        assert(sum_entry_ok(1, 2, 3, 0, 6, 4, 1, 1)) by (nonlinear_arith);
        lemma_sum_entry(1, 2, 3, 0, 6, 4, 1, 1);
    } else if j == 6 {
        assert(sum_entry_ok(1, 2, 6, 4, 2, 6, 5, 2)) by (nonlinear_arith);
        lemma_sum_entry(1, 2, 6, 4, 2, 6, 5, 2);
    } else if j == 7 {
        assert(sum_entry_ok(1, 2, 2, 6, 8, 8, 6, 10)) by (nonlinear_arith);
        lemma_sum_entry(1, 2, 2, 6, 8, 8, 6, 10);
    } else if j == 8 {
        assert(sum_entry_ok(1, 2, 8, 8, 1, 11, 6, 10)) by (nonlinear_arith);
        lemma_sum_entry(1, 2, 8, 8, 1, 11, 6, 10);
    } else if j == 9 {
        assert(sum_entry_ok(1, 2, 1, 11, 0, 12, 5, 2)) by (nonlinear_arith);
        lemma_sum_entry(1, 2, 1, 11, 0, 12, 5, 2);
    } else if j == 10 {
        assert(sum_entry_ok(1, 2, 0, 12, 12, 11, 1, 1)) by (nonlinear_arith);
        lemma_sum_entry(1, 2, 0, 12, 12, 11, 1, 1);
    } else if j == 11 {
        assert(sum_entry_ok(1, 2, 12, 11, 5, 8, 2, 5)) by (nonlinear_arith);
        lemma_sum_entry(1, 2, 12, 11, 5, 8, 2, 5);
    } else if j == 12 {
        assert(sum_entry_ok(1, 2, 5, 8, 11, 6, 10, 6)) by (nonlinear_arith);
        lemma_sum_entry(1, 2, 5, 8, 11, 6, 10, 6);
    } else if j == 13 {
        assert(sum_entry_ok(1, 2, 11, 6, 7, 4, 10, 6)) by (nonlinear_arith);
        lemma_sum_entry(1, 2, 11, 6, 7, 4, 10, 6);
    } else if j == 14 {
        assert(sum_entry_ok(1, 2, 7, 4, 10, 0, 2, 5)) by (nonlinear_arith);
        lemma_sum_entry(1, 2, 7, 4, 10, 0, 2, 5);
    } else if j == 15 {
        assert(sum_entry_ok(1, 2, 10, 0, 7, 9, 1, 1)) by (nonlinear_arith);
        lemma_sum_entry(1, 2, 10, 0, 7, 9, 1, 1);
    } else if j == 16 {
        assert(sum_entry_ok(1, 2, 7, 9, 11, 7, 5, 2)) by (nonlinear_arith);
        lemma_sum_entry(1, 2, 7, 9, 11, 7, 5, 2);
    } else if j == 17 {
        assert(sum_entry_ok(1, 2, 11, 7, 5, 5, 6, 10)) by (nonlinear_arith);
        lemma_sum_entry(1, 2, 11, 7, 5, 5, 6, 10);
    } else if j == 18 {
        assert(sum_entry_ok(1, 2, 5, 5, 12, 2, 6, 10)) by (nonlinear_arith);
        lemma_sum_entry(1, 2, 5, 5, 12, 2, 6, 10);
    } else {
        assert(j == 19);
        assert(sum_entry_ok(1, 2, 12, 2, 0, 1, 5, 2)) by (nonlinear_arith);
        lemma_sum_entry(1, 2, 12, 2, 0, 1, 5, 2);
    }
}

/// Row 2 of the addition table.
#[verifier::rlimit(40)]
proof fn lemma_table_row_2(j: int)
    requires
        0 <= j < 20,
    ensures
        edwards_add_affine(3, 8, 8, 5, tiny_edwards_x(j), tiny_edwards_y(j), 13)
            == tiny_edwards_point(index_sum(2, j)),
{
    if j == 0 {
        assert(sum_entry_ok(8, 5, 0, 1, 8, 5, 1, 1)) by (nonlinear_arith);
        lemma_sum_entry(8, 5, 0, 1, 8, 5, 1, 1);
    } else if j == 1 {
        assert(sum_entry_ok(8, 5, 1, 2, 2, 7, 10, 6)) by (nonlinear_arith);
        lemma_sum_entry(8, 5, 1, 2, 2, 7, 10, 6);
    } else if j == 2 {
        assert(sum_entry_ok(8, 5, 8, 5, 6, 9, 3, 11)) by (nonlinear_arith);
        lemma_sum_entry(8, 5, 8, 5, 6, 9, 3, 11);
    } else if j == 3 {
        assert(sum_entry_ok(8, 5, 2, 7, 3, 0, 3, 11)) by (nonlinear_arith);
        lemma_sum_entry(8, 5, 2, 7, 3, 0, 3, 11);
    } else if j == 4 {
        assert(sum_entry_ok(8, 5, 6, 9, 6, 4, 10, 6)) by (nonlinear_arith);
        lemma_sum_entry(8, 5, 6, 9, 6, 4, 10, 6);
    } else if j == 5 {
        assert(sum_entry_ok(8, 5, 3, 0, 2, 6, 1, 1)) by (nonlinear_arith);
        lemma_sum_entry(8, 5, 3, 0, 2, 6, 1, 1);
    } else if j == 6 {
        assert(sum_entry_ok(8, 5, 6, 4, 8, 8, 6, 10)) by (nonlinear_arith);
        lemma_sum_entry(8, 5, 6, 4, 8, 8, 6, 10);
    } else if j == 7 {
        assert(sum_entry_ok(8, 5, 2, 6, 1, 11, 11, 3)) by (nonlinear_arith);
        lemma_sum_entry(8, 5, 2, 6, 1, 11, 11, 3);
    } else if j == 8 {
        assert(sum_entry_ok(8, 5, 8, 8, 0, 12, 11, 3)) by (nonlinear_arith);
        lemma_sum_entry(8, 5, 8, 8, 0, 12, 11, 3);
    } else if j == 9 {
        assert(sum_entry_ok(8, 5, 1, 11, 12, 11, 6, 10)) by (nonlinear_arith);
        lemma_sum_entry(8, 5, 1, 11, 12, 11, 6, 10);
    } else if j == 10 {
        assert(sum_entry_ok(8, 5, 0, 12, 5, 8, 1, 1)) by (nonlinear_arith);
        lemma_sum_entry(8, 5, 0, 12, 5, 8, 1, 1);
    } else if j == 11 {
        assert(sum_entry_ok(8, 5, 12, 11, 11, 6, 10, 6)) by (nonlinear_arith);
        lemma_sum_entry(8, 5, 12, 11, 11, 6, 10, 6);
    } else if j == 12 {
        assert(sum_entry_ok(8, 5, 5, 8, 7, 4, 3, 11)) by (nonlinear_arith);
        lemma_sum_entry(8, 5, 5, 8, 7, 4, 3, 11);
    } else if j == 13 {
        assert(sum_entry_ok(8, 5, 11, 6, 10, 0, 3, 11)) by (nonlinear_arith);
        lemma_sum_entry(8, 5, 11, 6, 10, 0, 3, 11);
    } else if j == 14 {
        assert(sum_entry_ok(8, 5, 7, 4, 7, 9, 10, 6)) by (nonlinear_arith);
        lemma_sum_entry(8, 5, 7, 4, 7, 9, 10, 6);
    } else if j == 15 {
        assert(sum_entry_ok(8, 5, 10, 0, 11, 7, 1, 1)) by (nonlinear_arith);
        lemma_sum_entry(8, 5, 10, 0, 11, 7, 1, 1);
    } else if j == 16 {
        assert(sum_entry_ok(8, 5, 7, 9, 5, 5, 6, 10)) by (nonlinear_arith);
        lemma_sum_entry(8, 5, 7, 9, 5, 5, 6, 10);
    } else if j == 17 {
        assert(sum_entry_ok(8, 5, 11, 7, 12, 2, 11, 3)) by (nonlinear_arith);
        lemma_sum_entry(8, 5, 11, 7, 12, 2, 11, 3);
    } else if j == 18 {
        assert(sum_entry_ok(8, 5, 5, 5, 0, 1, 11, 3)) by (nonlinear_arith);
        lemma_sum_entry(8, 5, 5, 5, 0, 1, 11, 3);
    } else {
        assert(j == 19);
        assert(sum_entry_ok(8, 5, 12, 2, 1, 2, 6, 10)) by (nonlinear_arith);
        lemma_sum_entry(8, 5, 12, 2, 1, 2, 6, 10);
    }
}

/// Row 3 of the addition table.
#[verifier::rlimit(40)]
proof fn lemma_table_row_3(j: int)
    requires
        0 <= j < 20,
    ensures
        edwards_add_affine(3, 8, 2, 7, tiny_edwards_x(j), tiny_edwards_y(j), 13)
            == tiny_edwards_point(index_sum(3, j)),
{
    if j == 0 {
        assert(sum_entry_ok(2, 7, 0, 1, 2, 7, 1, 1)) by (nonlinear_arith);
        lemma_sum_entry(2, 7, 0, 1, 2, 7, 1, 1);
    } else if j == 1 {
        assert(sum_entry_ok(2, 7, 1, 2, 6, 9, 10, 6)) by (nonlinear_arith);
        lemma_sum_entry(2, 7, 1, 2, 6, 9, 10, 6);
    } else if j == 2 {
        assert(sum_entry_ok(2, 7, 8, 5, 3, 0, 3, 11)) by (nonlinear_arith);
        lemma_sum_entry(2, 7, 8, 5, 3, 0, 3, 11);
    } else if j == 3 {
        assert(sum_entry_ok(2, 7, 2, 7, 6, 4, 3, 11)) by (nonlinear_arith);
        lemma_sum_entry(2, 7, 2, 7, 6, 4, 3, 11);
    } else if j == 4 {
        assert(sum_entry_ok(2, 7, 6, 9, 2, 6, 10, 6)) by (nonlinear_arith);
        lemma_sum_entry(2, 7, 6, 9, 2, 6, 10, 6);
    } else if j == 5 {
        assert(sum_entry_ok(2, 7, 3, 0, 8, 8, 1, 1)) by (nonlinear_arith);
        lemma_sum_entry(2, 7, 3, 0, 8, 8, 1, 1);
    } else if j == 6 {
        assert(sum_entry_ok(2, 7, 6, 4, 1, 11, 6, 10)) by (nonlinear_arith);
        lemma_sum_entry(2, 7, 6, 4, 1, 11, 6, 10);
    } else if j == 7 {
        assert(sum_entry_ok(2, 7, 2, 6, 0, 12, 11, 3)) by (nonlinear_arith);
        lemma_sum_entry(2, 7, 2, 6, 0, 12, 11, 3);
    } else if j == 8 {
        assert(sum_entry_ok(2, 7, 8, 8, 12, 11, 11, 3)) by (nonlinear_arith);
        lemma_sum_entry(2, 7, 8, 8, 12, 11, 11, 3);
    } else if j == 9 {
        assert(sum_entry_ok(2, 7, 1, 11, 5, 8, 6, 10)) by (nonlinear_arith);
        lemma_sum_entry(2, 7, 1, 11, 5, 8, 6, 10);
    } else if j == 10 {
        assert(sum_entry_ok(2, 7, 0, 12, 11, 6, 1, 1)) by (nonlinear_arith);
        lemma_sum_entry(2, 7, 0, 12, 11, 6, 1, 1);
    } else if j == 11 {
        assert(sum_entry_ok(2, 7, 12, 11, 7, 4, 10, 6)) by (nonlinear_arith);
        lemma_sum_entry(2, 7, 12, 11, 7, 4, 10, 6);
    } else if j == 12 {
        assert(sum_entry_ok(2, 7, 5, 8, 10, 0, 3, 11)) by (nonlinear_arith);
        lemma_sum_entry(2, 7, 5, 8, 10, 0, 3, 11);
    } else if j == 13 {
        assert(sum_entry_ok(2, 7, 11, 6, 7, 9, 3, 11)) by (nonlinear_arith);
        lemma_sum_entry(2, 7, 11, 6, 7, 9, 3, 11);
    } else if j == 14 {
        assert(sum_entry_ok(2, 7, 7, 4, 11, 7, 10, 6)) by (nonlinear_arith);
        lemma_sum_entry(2, 7, 7, 4, 11, 7, 10, 6);
    } else if j == 15 {
        assert(sum_entry_ok(2, 7, 10, 0, 5, 5, 1, 1)) by (nonlinear_arith);
        lemma_sum_entry(2, 7, 10, 0, 5, 5, 1, 1);
    } else if j == 16 {
        assert(sum_entry_ok(2, 7, 7, 9, 12, 2, 6, 10)) by (nonlinear_arith);
        lemma_sum_entry(2, 7, 7, 9, 12, 2, 6, 10);
    } else if j == 17 {
        assert(sum_entry_ok(2, 7, 11, 7, 0, 1, 11, 3)) by (nonlinear_arith);
        lemma_sum_entry(2, 7, 11, 7, 0, 1, 11, 3);
    } else if j == 18 {
        assert(sum_entry_ok(2, 7, 5, 5, 1, 2, 11, 3)) by (nonlinear_arith);
        lemma_sum_entry(2, 7, 5, 5, 1, 2, 11, 3);
    } else {
        assert(j == 19);
        assert(sum_entry_ok(2, 7, 12, 2, 8, 5, 6, 10)) by (nonlinear_arith);
        lemma_sum_entry(2, 7, 12, 2, 8, 5, 6, 10);
    }
}

/// Row 4 of the addition table.
#[verifier::rlimit(40)]
proof fn lemma_table_row_4(j: int)
    requires
        0 <= j < 20,
    ensures
        edwards_add_affine(3, 8, 6, 9, tiny_edwards_x(j), tiny_edwards_y(j), 13)
            == tiny_edwards_point(index_sum(4, j)),
{
    if j == 0 {
        assert(sum_entry_ok(6, 9, 0, 1, 6, 9, 1, 1)) by (nonlinear_arith);
        lemma_sum_entry(6, 9, 0, 1, 6, 9, 1, 1);
    } else if j == 1 {
        assert(sum_entry_ok(6, 9, 1, 2, 3, 0, 2, 5)) by (nonlinear_arith);
        lemma_sum_entry(6, 9, 1, 2, 3, 0, 2, 5);
    } else if j == 2 {
        assert(sum_entry_ok(6, 9, 8, 5, 6, 4, 10, 6)) by (nonlinear_arith);
        lemma_sum_entry(6, 9, 8, 5, 6, 4, 10, 6);
    } else if j == 3 {
        assert(sum_entry_ok(6, 9, 2, 7, 2, 6, 10, 6)) by (nonlinear_arith);
        lemma_sum_entry(6, 9, 2, 7, 2, 6, 10, 6);
    } else if j == 4 {
        assert(sum_entry_ok(6, 9, 6, 9, 8, 8, 2, 5)) by (nonlinear_arith);
        lemma_sum_entry(6, 9, 6, 9, 8, 8, 2, 5);
    } else if j == 5 {
        assert(sum_entry_ok(6, 9, 3, 0, 1, 11, 1, 1)) by (nonlinear_arith);
        lemma_sum_entry(6, 9, 3, 0, 1, 11, 1, 1);
    } else if j == 6 {
        assert(sum_entry_ok(6, 9, 6, 4, 0, 12, 5, 2)) by (nonlinear_arith);
        lemma_sum_entry(6, 9, 6, 4, 0, 12, 5, 2);
    } else if j == 7 {
        assert(sum_entry_ok(6, 9, 2, 6, 12, 11, 6, 10)) by (nonlinear_arith);
        lemma_sum_entry(6, 9, 2, 6, 12, 11, 6, 10);
    } else if j == 8 {
        assert(sum_entry_ok(6, 9, 8, 8, 5, 8, 6, 10)) by (nonlinear_arith);
        lemma_sum_entry(6, 9, 8, 8, 5, 8, 6, 10);
    } else if j == 9 {
        assert(sum_entry_ok(6, 9, 1, 11, 11, 6, 5, 2)) by (nonlinear_arith);
        lemma_sum_entry(6, 9, 1, 11, 11, 6, 5, 2);
    } else if j == 10 {
        assert(sum_entry_ok(6, 9, 0, 12, 7, 4, 1, 1)) by (nonlinear_arith);
        lemma_sum_entry(6, 9, 0, 12, 7, 4, 1, 1);
    } else if j == 11 {
        assert(sum_entry_ok(6, 9, 12, 11, 10, 0, 2, 5)) by (nonlinear_arith);
        lemma_sum_entry(6, 9, 12, 11, 10, 0, 2, 5);
    } else if j == 12 {
        assert(sum_entry_ok(6, 9, 5, 8, 7, 9, 10, 6)) by (nonlinear_arith);
        lemma_sum_entry(6, 9, 5, 8, 7, 9, 10, 6);
    } else if j == 13 {
        assert(sum_entry_ok(6, 9, 11, 6, 11, 7, 10, 6)) by (nonlinear_arith);
        lemma_sum_entry(6, 9, 11, 6, 11, 7, 10, 6);
    } else if j == 14 {
        assert(sum_entry_ok(6, 9, 7, 4, 5, 5, 2, 5)) by (nonlinear_arith);
        lemma_sum_entry(6, 9, 7, 4, 5, 5, 2, 5);
    } else if j == 15 {
        assert(sum_entry_ok(6, 9, 10, 0, 12, 2, 1, 1)) by (nonlinear_arith);
        lemma_sum_entry(6, 9, 10, 0, 12, 2, 1, 1);
    } else if j == 16 {
        assert(sum_entry_ok(6, 9, 7, 9, 0, 1, 5, 2)) by (nonlinear_arith);
        lemma_sum_entry(6, 9, 7, 9, 0, 1, 5, 2);
    } else if j == 17 {
        assert(sum_entry_ok(6, 9, 11, 7, 1, 2, 6, 10)) by (nonlinear_arith);
        lemma_sum_entry(6, 9, 11, 7, 1, 2, 6, 10);
    } else if j == 18 {
        assert(sum_entry_ok(6, 9, 5, 5, 8, 5, 6, 10)) by (nonlinear_arith);
        lemma_sum_entry(6, 9, 5, 5, 8, 5, 6, 10);
    } else {
        assert(j == 19);
        assert(sum_entry_ok(6, 9, 12, 2, 2, 7, 5, 2)) by (nonlinear_arith);
        lemma_sum_entry(6, 9, 12, 2, 2, 7, 5, 2);
    }
}

/// Row 5 of the addition table.
#[verifier::rlimit(40)]
proof fn lemma_table_row_5(j: int)
    requires
        0 <= j < 20,
    ensures
        edwards_add_affine(3, 8, 3, 0, tiny_edwards_x(j), tiny_edwards_y(j), 13)
            == tiny_edwards_point(index_sum(5, j)),
{
    if j == 0 {
        assert(sum_entry_ok(3, 0, 0, 1, 3, 0, 1, 1)) by (nonlinear_arith);
        lemma_sum_entry(3, 0, 0, 1, 3, 0, 1, 1);
    } else if j == 1 {
        assert(sum_entry_ok(3, 0, 1, 2, 6, 4, 1, 1)) by (nonlinear_arith);
        lemma_sum_entry(3, 0, 1, 2, 6, 4, 1, 1);
    } else if j == 2 {
        assert(sum_entry_ok(3, 0, 8, 5, 2, 6, 1, 1)) by (nonlinear_arith);
        lemma_sum_entry(3, 0, 8, 5, 2, 6, 1, 1);
    } else if j == 3 {
        assert(sum_entry_ok(3, 0, 2, 7, 8, 8, 1, 1)) by (nonlinear_arith);
        lemma_sum_entry(3, 0, 2, 7, 8, 8, 1, 1);
    } else if j == 4 {
        assert(sum_entry_ok(3, 0, 6, 9, 1, 11, 1, 1)) by (nonlinear_arith);
        lemma_sum_entry(3, 0, 6, 9, 1, 11, 1, 1);
    } else if j == 5 {
        assert(sum_entry_ok(3, 0, 3, 0, 0, 12, 1, 1)) by (nonlinear_arith);
        lemma_sum_entry(3, 0, 3, 0, 0, 12, 1, 1);
    } else if j == 6 {
        assert(sum_entry_ok(3, 0, 6, 4, 12, 11, 1, 1)) by (nonlinear_arith);
        lemma_sum_entry(3, 0, 6, 4, 12, 11, 1, 1);
    } else if j == 7 {
        assert(sum_entry_ok(3, 0, 2, 6, 5, 8, 1, 1)) by (nonlinear_arith);
        lemma_sum_entry(3, 0, 2, 6, 5, 8, 1, 1);
    } else if j == 8 {
        assert(sum_entry_ok(3, 0, 8, 8, 11, 6, 1, 1)) by (nonlinear_arith);
        lemma_sum_entry(3, 0, 8, 8, 11, 6, 1, 1);
    } else if j == 9 {
        assert(sum_entry_ok(3, 0, 1, 11, 7, 4, 1, 1)) by (nonlinear_arith);
        lemma_sum_entry(3, 0, 1, 11, 7, 4, 1, 1);
    } else if j == 10 {
        assert(sum_entry_ok(3, 0, 0, 12, 10, 0, 1, 1)) by (nonlinear_arith);
        lemma_sum_entry(3, 0, 0, 12, 10, 0, 1, 1);
    } else if j == 11 {
        assert(sum_entry_ok(3, 0, 12, 11, 7, 9, 1, 1)) by (nonlinear_arith);
        lemma_sum_entry(3, 0, 12, 11, 7, 9, 1, 1);
    } else if j == 12 {
        assert(sum_entry_ok(3, 0, 5, 8, 11, 7, 1, 1)) by (nonlinear_arith);
        lemma_sum_entry(3, 0, 5, 8, 11, 7, 1, 1);
    } else if j == 13 {
        assert(sum_entry_ok(3, 0, 11, 6, 5, 5, 1, 1)) by (nonlinear_arith);
        lemma_sum_entry(3, 0, 11, 6, 5, 5, 1, 1);
    } else if j == 14 {
        assert(sum_entry_ok(3, 0, 7, 4, 12, 2, 1, 1)) by (nonlinear_arith);
        lemma_sum_entry(3, 0, 7, 4, 12, 2, 1, 1);
    } else if j == 15 {
        assert(sum_entry_ok(3, 0, 10, 0, 0, 1, 1, 1)) by (nonlinear_arith);
        lemma_sum_entry(3, 0, 10, 0, 0, 1, 1, 1);
    } else if j == 16 {
        assert(sum_entry_ok(3, 0, 7, 9, 1, 2, 1, 1)) by (nonlinear_arith);
        lemma_sum_entry(3, 0, 7, 9, 1, 2, 1, 1);
    } else if j == 17 {
        assert(sum_entry_ok(3, 0, 11, 7, 8, 5, 1, 1)) by (nonlinear_arith);
        lemma_sum_entry(3, 0, 11, 7, 8, 5, 1, 1);
    } else if j == 18 {
        assert(sum_entry_ok(3, 0, 5, 5, 2, 7, 1, 1)) by (nonlinear_arith);
        lemma_sum_entry(3, 0, 5, 5, 2, 7, 1, 1);
    } else {
        assert(j == 19);
        assert(sum_entry_ok(3, 0, 12, 2, 6, 9, 1, 1)) by (nonlinear_arith);
        lemma_sum_entry(3, 0, 12, 2, 6, 9, 1, 1);
    }
}

/// Row 6 of the addition table.
#[verifier::rlimit(40)]
proof fn lemma_table_row_6(j: int)
    requires
        0 <= j < 20,
    ensures
        edwards_add_affine(3, 8, 6, 4, tiny_edwards_x(j), tiny_edwards_y(j), 13)
            == tiny_edwards_point(index_sum(6, j)),
{
    if j == 0 {
        assert(sum_entry_ok(6, 4, 0, 1, 6, 4, 1, 1)) by (nonlinear_arith);
        lemma_sum_entry(6, 4, 0, 1, 6, 4, 1, 1);
    } else if j == 1 {
        assert(sum_entry_ok(6, 4, 1, 2, 2, 6, 5, 2)) by (nonlinear_arith);
        lemma_sum_entry(6, 4, 1, 2, 2, 6, 5, 2);
    } else if j == 2 {
        assert(sum_entry_ok(6, 4, 8, 5, 8, 8, 6, 10)) by (nonlinear_arith);
        lemma_sum_entry(6, 4, 8, 5, 8, 8, 6, 10);
    } else if j == 3 {
        assert(sum_entry_ok(6, 4, 2, 7, 1, 11, 6, 10)) by (nonlinear_arith);
        lemma_sum_entry(6, 4, 2, 7, 1, 11, 6, 10);
    } else if j == 4 {
        assert(sum_entry_ok(6, 4, 6, 9, 0, 12, 5, 2)) by (nonlinear_arith);
        lemma_sum_entry(6, 4, 6, 9, 0, 12, 5, 2);
    } else if j == 5 {
        assert(sum_entry_ok(6, 4, 3, 0, 12, 11, 1, 1)) by (nonlinear_arith);
        lemma_sum_entry(6, 4, 3, 0, 12, 11, 1, 1);
    } else if j == 6 {
        assert(sum_entry_ok(6, 4, 6, 4, 5, 8, 2, 5)) by (nonlinear_arith);
        lemma_sum_entry(6, 4, 6, 4, 5, 8, 2, 5);
    } else if j == 7 {
        assert(sum_entry_ok(6, 4, 2, 6, 11, 6, 10, 6)) by (nonlinear_arith);
        lemma_sum_entry(6, 4, 2, 6, 11, 6, 10, 6);
    } else if j == 8 {
        assert(sum_entry_ok(6, 4, 8, 8, 7, 4, 10, 6)) by (nonlinear_arith);
        lemma_sum_entry(6, 4, 8, 8, 7, 4, 10, 6);
    } else if j == 9 {
        assert(sum_entry_ok(6, 4, 1, 11, 10, 0, 2, 5)) by (nonlinear_arith);
        lemma_sum_entry(6, 4, 1, 11, 10, 0, 2, 5);
    } else if j == 10 {
        assert(sum_entry_ok(6, 4, 0, 12, 7, 9, 1, 1)) by (nonlinear_arith);
        lemma_sum_entry(6, 4, 0, 12, 7, 9, 1, 1);
    } else if j == 11 {
        assert(sum_entry_ok(6, 4, 12, 11, 11, 7, 5, 2)) by (nonlinear_arith);
        lemma_sum_entry(6, 4, 12, 11, 11, 7, 5, 2);
    } else if j == 12 {
        assert(sum_entry_ok(6, 4, 5, 8, 5, 5, 6, 10)) by (nonlinear_arith);
        lemma_sum_entry(6, 4, 5, 8, 5, 5, 6, 10);
    } else if j == 13 {
        assert(sum_entry_ok(6, 4, 11, 6, 12, 2, 6, 10)) by (nonlinear_arith);
        lemma_sum_entry(6, 4, 11, 6, 12, 2, 6, 10);
    } else if j == 14 {
        assert(sum_entry_ok(6, 4, 7, 4, 0, 1, 5, 2)) by (nonlinear_arith);
        lemma_sum_entry(6, 4, 7, 4, 0, 1, 5, 2);
    } else if j == 15 {
        assert(sum_entry_ok(6, 4, 10, 0, 1, 2, 1, 1)) by (nonlinear_arith);
        lemma_sum_entry(6, 4, 10, 0, 1, 2, 1, 1);
    } else if j == 16 {
        assert(sum_entry_ok(6, 4, 7, 9, 8, 5, 2, 5)) by (nonlinear_arith);
        lemma_sum_entry(6, 4, 7, 9, 8, 5, 2, 5);
    } else if j == 17 {
        assert(sum_entry_ok(6, 4, 11, 7, 2, 7, 10, 6)) by (nonlinear_arith);
        lemma_sum_entry(6, 4, 11, 7, 2, 7, 10, 6);
    } else if j == 18 {
        assert(sum_entry_ok(6, 4, 5, 5, 6, 9, 10, 6)) by (nonlinear_arith);
        lemma_sum_entry(6, 4, 5, 5, 6, 9, 10, 6);
    } else {
        assert(j == 19);
        assert(sum_entry_ok(6, 4, 12, 2, 3, 0, 2, 5)) by (nonlinear_arith);
        lemma_sum_entry(6, 4, 12, 2, 3, 0, 2, 5);
    }
}

/// Row 7 of the addition table.
#[verifier::rlimit(40)]
proof fn lemma_table_row_7(j: int)
    requires
        0 <= j < 20,
    ensures
        edwards_add_affine(3, 8, 2, 6, tiny_edwards_x(j), tiny_edwards_y(j), 13)
            == tiny_edwards_point(index_sum(7, j)),
{
    if j == 0 {
        assert(sum_entry_ok(2, 6, 0, 1, 2, 6, 1, 1)) by (nonlinear_arith);
        lemma_sum_entry(2, 6, 0, 1, 2, 6, 1, 1);
    } else if j == 1 {
        assert(sum_entry_ok(2, 6, 1, 2, 8, 8, 6, 10)) by (nonlinear_arith);
        lemma_sum_entry(2, 6, 1, 2, 8, 8, 6, 10);
    } else if j == 2 {
        assert(sum_entry_ok(2, 6, 8, 5, 1, 11, 11, 3)) by (nonlinear_arith);
        lemma_sum_entry(2, 6, 8, 5, 1, 11, 11, 3);
    } else if j == 3 {
        assert(sum_entry_ok(2, 6, 2, 7, 0, 12, 11, 3)) by (nonlinear_arith);
        lemma_sum_entry(2, 6, 2, 7, 0, 12, 11, 3);
    } else if j == 4 {
        assert(sum_entry_ok(2, 6, 6, 9, 12, 11, 6, 10)) by (nonlinear_arith);
        lemma_sum_entry(2, 6, 6, 9, 12, 11, 6, 10);
    } else if j == 5 {
        assert(sum_entry_ok(2, 6, 3, 0, 5, 8, 1, 1)) by (nonlinear_arith);
        lemma_sum_entry(2, 6, 3, 0, 5, 8, 1, 1);
    } else if j == 6 {
        assert(sum_entry_ok(2, 6, 6, 4, 11, 6, 10, 6)) by (nonlinear_arith);
        lemma_sum_entry(2, 6, 6, 4, 11, 6, 10, 6);
    } else if j == 7 {
        assert(sum_entry_ok(2, 6, 2, 6, 7, 4, 3, 11)) by (nonlinear_arith);
        lemma_sum_entry(2, 6, 2, 6, 7, 4, 3, 11);
    } else if j == 8 {
        assert(sum_entry_ok(2, 6, 8, 8, 10, 0, 3, 11)) by (nonlinear_arith);
        lemma_sum_entry(2, 6, 8, 8, 10, 0, 3, 11);
    } else if j == 9 {
        assert(sum_entry_ok(2, 6, 1, 11, 7, 9, 10, 6)) by (nonlinear_arith);
        lemma_sum_entry(2, 6, 1, 11, 7, 9, 10, 6);
    } else if j == 10 {
        assert(sum_entry_ok(2, 6, 0, 12, 11, 7, 1, 1)) by (nonlinear_arith);
        lemma_sum_entry(2, 6, 0, 12, 11, 7, 1, 1);
    } else if j == 11 {
        assert(sum_entry_ok(2, 6, 12, 11, 5, 5, 6, 10)) by (nonlinear_arith);
        lemma_sum_entry(2, 6, 12, 11, 5, 5, 6, 10);
    } else if j == 12 {
        assert(sum_entry_ok(2, 6, 5, 8, 12, 2, 11, 3)) by (nonlinear_arith);
        lemma_sum_entry(2, 6, 5, 8, 12, 2, 11, 3);
    } else if j == 13 {
        assert(sum_entry_ok(2, 6, 11, 6, 0, 1, 11, 3)) by (nonlinear_arith);
        lemma_sum_entry(2, 6, 11, 6, 0, 1, 11, 3);
    } else if j == 14 {
        assert(sum_entry_ok(2, 6, 7, 4, 1, 2, 6, 10)) by (nonlinear_arith);
        lemma_sum_entry(2, 6, 7, 4, 1, 2, 6, 10);
    } else if j == 15 {
        assert(sum_entry_ok(2, 6, 10, 0, 8, 5, 1, 1)) by (nonlinear_arith);
        lemma_sum_entry(2, 6, 10, 0, 8, 5, 1, 1);
    } else if j == 16 {
        assert(sum_entry_ok(2, 6, 7, 9, 2, 7, 10, 6)) by (nonlinear_arith);
        lemma_sum_entry(2, 6, 7, 9, 2, 7, 10, 6);
    } else if j == 17 {
        assert(sum_entry_ok(2, 6, 11, 7, 6, 9, 3, 11)) by (nonlinear_arith);
        lemma_sum_entry(2, 6, 11, 7, 6, 9, 3, 11);
    } else if j == 18 {
        assert(sum_entry_ok(2, 6, 5, 5, 3, 0, 3, 11)) by (nonlinear_arith);
        lemma_sum_entry(2, 6, 5, 5, 3, 0, 3, 11);
    } else {
        assert(j == 19);
        assert(sum_entry_ok(2, 6, 12, 2, 6, 4, 10, 6)) by (nonlinear_arith);
        lemma_sum_entry(2, 6, 12, 2, 6, 4, 10, 6);
    }
}

/// Row 8 of the addition table.
#[verifier::rlimit(40)]
proof fn lemma_table_row_8(j: int)
    requires
        0 <= j < 20,
    ensures
        edwards_add_affine(3, 8, 8, 8, tiny_edwards_x(j), tiny_edwards_y(j), 13)
            == tiny_edwards_point(index_sum(8, j)),
{
    if j == 0 {
        assert(sum_entry_ok(8, 8, 0, 1, 8, 8, 1, 1)) by (nonlinear_arith);
        lemma_sum_entry(8, 8, 0, 1, 8, 8, 1, 1);
    } else if j == 1 {
        assert(sum_entry_ok(8, 8, 1, 2, 1, 11, 6, 10)) by (nonlinear_arith);
        lemma_sum_entry(8, 8, 1, 2, 1, 11, 6, 10);
    } else if j == 2 {
        assert(sum_entry_ok(8, 8, 8, 5, 0, 12, 11, 3)) by (nonlinear_arith);
        lemma_sum_entry(8, 8, 8, 5, 0, 12, 11, 3);
    } else if j == 3 {
        assert(sum_entry_ok(8, 8, 2, 7, 12, 11, 11, 3)) by (nonlinear_arith);
        lemma_sum_entry(8, 8, 2, 7, 12, 11, 11, 3);
    } else if j == 4 {
        assert(sum_entry_ok(8, 8, 6, 9, 5, 8, 6, 10)) by (nonlinear_arith);
        lemma_sum_entry(8, 8, 6, 9, 5, 8, 6, 10);
    } else if j == 5 {
        assert(sum_entry_ok(8, 8, 3, 0, 11, 6, 1, 1)) by (nonlinear_arith);
        lemma_sum_entry(8, 8, 3, 0, 11, 6, 1, 1);
    } else if j == 6 {
        assert(sum_entry_ok(8, 8, 6, 4, 7, 4, 10, 6)) by (nonlinear_arith);
        lemma_sum_entry(8, 8, 6, 4, 7, 4, 10, 6);
    } else if j == 7 {
        assert(sum_entry_ok(8, 8, 2, 6, 10, 0, 3, 11)) by (nonlinear_arith);
        lemma_sum_entry(8, 8, 2, 6, 10, 0, 3, 11);
    } else if j == 8 {
        assert(sum_entry_ok(8, 8, 8, 8, 7, 9, 3, 11)) by (nonlinear_arith);
        lemma_sum_entry(8, 8, 8, 8, 7, 9, 3, 11);
    } else if j == 9 {
        assert(sum_entry_ok(8, 8, 1, 11, 11, 7, 10, 6)) by (nonlinear_arith);
        lemma_sum_entry(8, 8, 1, 11, 11, 7, 10, 6);
    } else if j == 10 {
        assert(sum_entry_ok(8, 8, 0, 12, 5, 5, 1, 1)) by (nonlinear_arith);
        lemma_sum_entry(8, 8, 0, 12, 5, 5, 1, 1);
    } else if j == 11 {
        assert(sum_entry_ok(8, 8, 12, 11, 12, 2, 6, 10)) by (nonlinear_arith);
        lemma_sum_entry(8, 8, 12, 11, 12, 2, 6, 10);
    } else if j == 12 {
        assert(sum_entry_ok(8, 8, 5, 8, 0, 1, 11, 3)) by (nonlinear_arith);
        lemma_sum_entry(8, 8, 5, 8, 0, 1, 11, 3);
    } else if j == 13 {
        assert(sum_entry_ok(8, 8, 11, 6, 1, 2, 11, 3)) by (nonlinear_arith);
        lemma_sum_entry(8, 8, 11, 6, 1, 2, 11, 3);
    } else if j == 14 {
        assert(sum_entry_ok(8, 8, 7, 4, 8, 5, 6, 10)) by (nonlinear_arith);
        lemma_sum_entry(8, 8, 7, 4, 8, 5, 6, 10);
    } else if j == 15 {
        assert(sum_entry_ok(8, 8, 10, 0, 2, 7, 1, 1)) by (nonlinear_arith);
        lemma_sum_entry(8, 8, 10, 0, 2, 7, 1, 1);
    } else if j == 16 {
        assert(sum_entry_ok(8, 8, 7, 9, 6, 9, 10, 6)) by (nonlinear_arith);
        lemma_sum_entry(8, 8, 7, 9, 6, 9, 10, 6);
    } else if j == 17 {
        assert(sum_entry_ok(8, 8, 11, 7, 3, 0, 3, 11)) by (nonlinear_arith);
        lemma_sum_entry(8, 8, 11, 7, 3, 0, 3, 11);
    } else if j == 18 {
        assert(sum_entry_ok(8, 8, 5, 5, 6, 4, 3, 11)) by (nonlinear_arith);
        lemma_sum_entry(8, 8, 5, 5, 6, 4, 3, 11);
    } else {
        assert(j == 19);
        assert(sum_entry_ok(8, 8, 12, 2, 2, 6, 10, 6)) by (nonlinear_arith);
        lemma_sum_entry(8, 8, 12, 2, 2, 6, 10, 6);
    }
}

/// Row 9 of the addition table.
#[verifier::rlimit(40)]
proof fn lemma_table_row_9(j: int)
    requires
        0 <= j < 20,
    ensures
        edwards_add_affine(3, 8, 1, 11, tiny_edwards_x(j), tiny_edwards_y(j), 13)
            == tiny_edwards_point(index_sum(9, j)),
{
    if j == 0 {
        assert(sum_entry_ok(1, 11, 0, 1, 1, 11, 1, 1)) by (nonlinear_arith);
        lemma_sum_entry(1, 11, 0, 1, 1, 11, 1, 1);
    } else if j == 1 {
        assert(sum_entry_ok(1, 11, 1, 2, 0, 12, 5, 2)) by (nonlinear_arith);
        lemma_sum_entry(1, 11, 1, 2, 0, 12, 5, 2);
    } else if j == 2 {
        assert(sum_entry_ok(1, 11, 8, 5, 12, 11, 6, 10)) by (nonlinear_arith);
        lemma_sum_entry(1, 11, 8, 5, 12, 11, 6, 10);
    } else if j == 3 {
        assert(sum_entry_ok(1, 11, 2, 7, 5, 8, 6, 10)) by (nonlinear_arith);
        lemma_sum_entry(1, 11, 2, 7, 5, 8, 6, 10);
    } else if j == 4 {
        assert(sum_entry_ok(1, 11, 6, 9, 11, 6, 5, 2)) by (nonlinear_arith);
        lemma_sum_entry(1, 11, 6, 9, 11, 6, 5, 2);
    } else if j == 5 {
        assert(sum_entry_ok(1, 11, 3, 0, 7, 4, 1, 1)) by (nonlinear_arith);
        lemma_sum_entry(1, 11, 3, 0, 7, 4, 1, 1);
    } else if j == 6 {
        assert(sum_entry_ok(1, 11, 6, 4, 10, 0, 2, 5)) by (nonlinear_arith);
        lemma_sum_entry(1, 11, 6, 4, 10, 0, 2, 5);
    } else if j == 7 {
        assert(sum_entry_ok(1, 11, 2, 6, 7, 9, 10, 6)) by (nonlinear_arith);
        lemma_sum_entry(1, 11, 2, 6, 7, 9, 10, 6);
    } else if j == 8 {
        assert(sum_entry_ok(1, 11, 8, 8, 11, 7, 10, 6)) by (nonlinear_arith);
        lemma_sum_entry(1, 11, 8, 8, 11, 7, 10, 6);
    } else if j == 9 {
        assert(sum_entry_ok(1, 11, 1, 11, 5, 5, 2, 5)) by (nonlinear_arith);
        lemma_sum_entry(1, 11, 1, 11, 5, 5, 2, 5);
    } else if j == 10 {
        assert(sum_entry_ok(1, 11, 0, 12, 12, 2, 1, 1)) by (nonlinear_arith);
        lemma_sum_entry(1, 11, 0, 12, 12, 2, 1, 1);
    } else if j == 11 {
        assert(sum_entry_ok(1, 11, 12, 11, 0, 1, 5, 2)) by (nonlinear_arith);
        lemma_sum_entry(1, 11, 12, 11, 0, 1, 5, 2);
    } else if j == 12 {
        assert(sum_entry_ok(1, 11, 5, 8, 1, 2, 6, 10)) by (nonlinear_arith);
        lemma_sum_entry(1, 11, 5, 8, 1, 2, 6, 10);
    } else if j == 13 {
        assert(sum_entry_ok(1, 11, 11, 6, 8, 5, 6, 10)) by (nonlinear_arith);
        lemma_sum_entry(1, 11, 11, 6, 8, 5, 6, 10);
    } else if j == 14 {
        assert(sum_entry_ok(1, 11, 7, 4, 2, 7, 5, 2)) by (nonlinear_arith);
        lemma_sum_entry(1, 11, 7, 4, 2, 7, 5, 2);
    } else if j == 15 {
        assert(sum_entry_ok(1, 11, 10, 0, 6, 9, 1, 1)) by (nonlinear_arith);
        lemma_sum_entry(1, 11, 10, 0, 6, 9, 1, 1);
    } else if j == 16 {
        assert(sum_entry_ok(1, 11, 7, 9, 3, 0, 2, 5)) by (nonlinear_arith);
        lemma_sum_entry(1, 11, 7, 9, 3, 0, 2, 5);
    } else if j == 17 {
        assert(sum_entry_ok(1, 11, 11, 7, 6, 4, 10, 6)) by (nonlinear_arith);
        lemma_sum_entry(1, 11, 11, 7, 6, 4, 10, 6);
    } else if j == 18 {
        assert(sum_entry_ok(1, 11, 5, 5, 2, 6, 10, 6)) by (nonlinear_arith);
        lemma_sum_entry(1, 11, 5, 5, 2, 6, 10, 6);
    } else {
        assert(j == 19);
        assert(sum_entry_ok(1, 11, 12, 2, 8, 8, 2, 5)) by (nonlinear_arith);
        lemma_sum_entry(1, 11, 12, 2, 8, 8, 2, 5);
    }
}

/// Row 10 of the addition table.
#[verifier::rlimit(40)]
proof fn lemma_table_row_10(j: int)
    requires
        0 <= j < 20,
    ensures
        edwards_add_affine(3, 8, 0, 12, tiny_edwards_x(j), tiny_edwards_y(j), 13)
            == tiny_edwards_point(index_sum(10, j)),
{
    if j == 0 {
        assert(sum_entry_ok(0, 12, 0, 1, 0, 12, 1, 1)) by (nonlinear_arith);
        lemma_sum_entry(0, 12, 0, 1, 0, 12, 1, 1);
    } else if j == 1 {
        assert(sum_entry_ok(0, 12, 1, 2, 12, 11, 1, 1)) by (nonlinear_arith);
        lemma_sum_entry(0, 12, 1, 2, 12, 11, 1, 1);
    } else if j == 2 {
        assert(sum_entry_ok(0, 12, 8, 5, 5, 8, 1, 1)) by (nonlinear_arith);
        lemma_sum_entry(0, 12, 8, 5, 5, 8, 1, 1);
    } else if j == 3 {
        assert(sum_entry_ok(0, 12, 2, 7, 11, 6, 1, 1)) by (nonlinear_arith);
        lemma_sum_entry(0, 12, 2, 7, 11, 6, 1, 1);
    } else if j == 4 {
        assert(sum_entry_ok(0, 12, 6, 9, 7, 4, 1, 1)) by (nonlinear_arith);
        lemma_sum_entry(0, 12, 6, 9, 7, 4, 1, 1);
    } else if j == 5 {
        assert(sum_entry_ok(0, 12, 3, 0, 10, 0, 1, 1)) by (nonlinear_arith);
        lemma_sum_entry(0, 12, 3, 0, 10, 0, 1, 1);
    } else if j == 6 {
        assert(sum_entry_ok(0, 12, 6, 4, 7, 9, 1, 1)) by (nonlinear_arith);
        lemma_sum_entry(0, 12, 6, 4, 7, 9, 1, 1);
    } else if j == 7 {
        assert(sum_entry_ok(0, 12, 2, 6, 11, 7, 1, 1)) by (nonlinear_arith);
        lemma_sum_entry(0, 12, 2, 6, 11, 7, 1, 1);
    } else if j == 8 {
        assert(sum_entry_ok(0, 12, 8, 8, 5, 5, 1, 1)) by (nonlinear_arith);
        lemma_sum_entry(0, 12, 8, 8, 5, 5, 1, 1);
    } else if j == 9 {
        assert(sum_entry_ok(0, 12, 1, 11, 12, 2, 1, 1)) by (nonlinear_arith);
        lemma_sum_entry(0, 12, 1, 11, 12, 2, 1, 1);
    } else if j == 10 {
        assert(sum_entry_ok(0, 12, 0, 12, 0, 1, 1, 1)) by (nonlinear_arith);
        lemma_sum_entry(0, 12, 0, 12, 0, 1, 1, 1);
    } else if j == 11 {
        assert(sum_entry_ok(0, 12, 12, 11, 1, 2, 1, 1)) by (nonlinear_arith);
        lemma_sum_entry(0, 12, 12, 11, 1, 2, 1, 1);
    } else if j == 12 {
        assert(sum_entry_ok(0, 12, 5, 8, 8, 5, 1, 1)) by (nonlinear_arith);
        lemma_sum_entry(0, 12, 5, 8, 8, 5, 1, 1);
    } else if j == 13 {
        assert(sum_entry_ok(0, 12, 11, 6, 2, 7, 1, 1)) by (nonlinear_arith);
        lemma_sum_entry(0, 12, 11, 6, 2, 7, 1, 1);
    } else if j == 14 {
        assert(sum_entry_ok(0, 12, 7, 4, 6, 9, 1, 1)) by (nonlinear_arith);
        lemma_sum_entry(0, 12, 7, 4, 6, 9, 1, 1);
    } else if j == 15 {
        assert(sum_entry_ok(0, 12, 10, 0, 3, 0, 1, 1)) by (nonlinear_arith);
        lemma_sum_entry(0, 12, 10, 0, 3, 0, 1, 1);
    } else if j == 16 {
        assert(sum_entry_ok(0, 12, 7, 9, 6, 4, 1, 1)) by (nonlinear_arith);
        lemma_sum_entry(0, 12, 7, 9, 6, 4, 1, 1);
    } else if j == 17 {
        assert(sum_entry_ok(0, 12, 11, 7, 2, 6, 1, 1)) by (nonlinear_arith);
        lemma_sum_entry(0, 12, 11, 7, 2, 6, 1, 1);
    } else if j == 18 {
        assert(sum_entry_ok(0, 12, 5, 5, 8, 8, 1, 1)) by (nonlinear_arith);
        lemma_sum_entry(0, 12, 5, 5, 8, 8, 1, 1);
    } else {
        assert(j == 19);
        assert(sum_entry_ok(0, 12, 12, 2, 1, 11, 1, 1)) by (nonlinear_arith);
        lemma_sum_entry(0, 12, 12, 2, 1, 11, 1, 1);
    }
}

/// Row 11 of the addition table.
#[verifier::rlimit(40)]
proof fn lemma_table_row_11(j: int)
    requires
        0 <= j < 20,
    ensures
        edwards_add_affine(3, 8, 12, 11, tiny_edwards_x(j), tiny_edwards_y(j), 13)
            == tiny_edwards_point(index_sum(11, j)),
{
    if j == 0 {
        assert(sum_entry_ok(12, 11, 0, 1, 12, 11, 1, 1)) by (nonlinear_arith);
        lemma_sum_entry(12, 11, 0, 1, 12, 11, 1, 1);
    } else if j == 1 {
        assert(sum_entry_ok(12, 11, 1, 2, 5, 8, 2, 5)) by (nonlinear_arith);
        lemma_sum_entry(12, 11, 1, 2, 5, 8, 2, 5);
    } else if j == 2 {
        assert(sum_entry_ok(12, 11, 8, 5, 11, 6, 10, 6)) by (nonlinear_arith);
        lemma_sum_entry(12, 11, 8, 5, 11, 6, 10, 6);
    } else if j == 3 {
        assert(sum_entry_ok(12, 11, 2, 7, 7, 4, 10, 6)) by (nonlinear_arith);
        lemma_sum_entry(12, 11, 2, 7, 7, 4, 10, 6);
    } else if j == 4 {
        assert(sum_entry_ok(12, 11, 6, 9, 10, 0, 2, 5)) by (nonlinear_arith);
        lemma_sum_entry(12, 11, 6, 9, 10, 0, 2, 5);
    } else if j == 5 {
        assert(sum_entry_ok(12, 11, 3, 0, 7, 9, 1, 1)) by (nonlinear_arith);
        lemma_sum_entry(12, 11, 3, 0, 7, 9, 1, 1);
    } else if j == 6 {
        assert(sum_entry_ok(12, 11, 6, 4, 11, 7, 5, 2)) by (nonlinear_arith);
        lemma_sum_entry(12, 11, 6, 4, 11, 7, 5, 2);
    } else if j == 7 {
        assert(sum_entry_ok(12, 11, 2, 6, 5, 5, 6, 10)) by (nonlinear_arith);
        lemma_sum_entry(12, 11, 2, 6, 5, 5, 6, 10);
    } else if j == 8 {
        assert(sum_entry_ok(12, 11, 8, 8, 12, 2, 6, 10)) by (nonlinear_arith);
        lemma_sum_entry(12, 11, 8, 8, 12, 2, 6, 10);
    } else if j == 9 {
        assert(sum_entry_ok(12, 11, 1, 11, 0, 1, 5, 2)) by (nonlinear_arith);
        lemma_sum_entry(12, 11, 1, 11, 0, 1, 5, 2);
    } else if j == 10 {
        assert(sum_entry_ok(12, 11, 0, 12, 1, 2, 1, 1)) by (nonlinear_arith);
        lemma_sum_entry(12, 11, 0, 12, 1, 2, 1, 1);
    } else if j == 11 {
        assert(sum_entry_ok(12, 11, 12, 11, 8, 5, 2, 5)) by (nonlinear_arith);
        lemma_sum_entry(12, 11, 12, 11, 8, 5, 2, 5);
    } else if j == 12 {
        assert(sum_entry_ok(12, 11, 5, 8, 2, 7, 10, 6)) by (nonlinear_arith);
        lemma_sum_entry(12, 11, 5, 8, 2, 7, 10, 6);
    } else if j == 13 {
        assert(sum_entry_ok(12, 11, 11, 6, 6, 9, 10, 6)) by (nonlinear_arith);
        lemma_sum_entry(12, 11, 11, 6, 6, 9, 10, 6);
    } else if j == 14 {
        assert(sum_entry_ok(12, 11, 7, 4, 3, 0, 2, 5)) by (nonlinear_arith);
        lemma_sum_entry(12, 11, 7, 4, 3, 0, 2, 5);
    } else if j == 15 {
        assert(sum_entry_ok(12, 11, 10, 0, 6, 4, 1, 1)) by (nonlinear_arith);
        lemma_sum_entry(12, 11, 10, 0, 6, 4, 1, 1);
    } else if j == 16 {
        assert(sum_entry_ok(12, 11, 7, 9, 2, 6, 5, 2)) by (nonlinear_arith);
        lemma_sum_entry(12, 11, 7, 9, 2, 6, 5, 2);
    } else if j == 17 {
        assert(sum_entry_ok(12, 11, 11, 7, 8, 8, 6, 10)) by (nonlinear_arith);
        lemma_sum_entry(12, 11, 11, 7, 8, 8, 6, 10);
    } else if j == 18 {
        assert(sum_entry_ok(12, 11, 5, 5, 1, 11, 6, 10)) by (nonlinear_arith);
        lemma_sum_entry(12, 11, 5, 5, 1, 11, 6, 10);
    } else {
        assert(j == 19);
        assert(sum_entry_ok(12, 11, 12, 2, 0, 12, 5, 2)) by (nonlinear_arith);
        lemma_sum_entry(12, 11, 12, 2, 0, 12, 5, 2);
    }
}

/// Row 12 of the addition table.
#[verifier::rlimit(40)]
proof fn lemma_table_row_12(j: int)
    requires
        0 <= j < 20,
    ensures
        edwards_add_affine(3, 8, 5, 8, tiny_edwards_x(j), tiny_edwards_y(j), 13)
            == tiny_edwards_point(index_sum(12, j)),
{
    if j == 0 {
        assert(sum_entry_ok(5, 8, 0, 1, 5, 8, 1, 1)) by (nonlinear_arith);
        lemma_sum_entry(5, 8, 0, 1, 5, 8, 1, 1);
    } else if j == 1 {
        assert(sum_entry_ok(5, 8, 1, 2, 11, 6, 10, 6)) by (nonlinear_arith);
        lemma_sum_entry(5, 8, 1, 2, 11, 6, 10, 6);
    } else if j == 2 {
        assert(sum_entry_ok(5, 8, 8, 5, 7, 4, 3, 11)) by (nonlinear_arith);
        lemma_sum_entry(5, 8, 8, 5, 7, 4, 3, 11);
    } else if j == 3 {
        assert(sum_entry_ok(5, 8, 2, 7, 10, 0, 3, 11)) by (nonlinear_arith);
        lemma_sum_entry(5, 8, 2, 7, 10, 0, 3, 11);
    } else if j == 4 {
        assert(sum_entry_ok(5, 8, 6, 9, 7, 9, 10, 6)) by (nonlinear_arith);
        lemma_sum_entry(5, 8, 6, 9, 7, 9, 10, 6);
    } else if j == 5 {
        assert(sum_entry_ok(5, 8, 3, 0, 11, 7, 1, 1)) by (nonlinear_arith);
        lemma_sum_entry(5, 8, 3, 0, 11, 7, 1, 1);
    } else if j == 6 {
        assert(sum_entry_ok(5, 8, 6, 4, 5, 5, 6, 10)) by (nonlinear_arith);
        lemma_sum_entry(5, 8, 6, 4, 5, 5, 6, 10);
    } else if j == 7 {
        assert(sum_entry_ok(5, 8, 2, 6, 12, 2, 11, 3)) by (nonlinear_arith);
        lemma_sum_entry(5, 8, 2, 6, 12, 2, 11, 3);
    } else if j == 8 {
        assert(sum_entry_ok(5, 8, 8, 8, 0, 1, 11, 3)) by (nonlinear_arith);
        lemma_sum_entry(5, 8, 8, 8, 0, 1, 11, 3);
    } else if j == 9 {
        assert(sum_entry_ok(5, 8, 1, 11, 1, 2, 6, 10)) by (nonlinear_arith);
        lemma_sum_entry(5, 8, 1, 11, 1, 2, 6, 10);
    } else if j == 10 {
        assert(sum_entry_ok(5, 8, 0, 12, 8, 5, 1, 1)) by (nonlinear_arith);
        lemma_sum_entry(5, 8, 0, 12, 8, 5, 1, 1);
    } else if j == 11 {
        assert(sum_entry_ok(5, 8, 12, 11, 2, 7, 10, 6)) by (nonlinear_arith);
        lemma_sum_entry(5, 8, 12, 11, 2, 7, 10, 6);
    } else if j == 12 {
        assert(sum_entry_ok(5, 8, 5, 8, 6, 9, 3, 11)) by (nonlinear_arith);
        lemma_sum_entry(5, 8, 5, 8, 6, 9, 3, 11);
    } else if j == 13 {
        assert(sum_entry_ok(5, 8, 11, 6, 3, 0, 3, 11)) by (nonlinear_arith);
        lemma_sum_entry(5, 8, 11, 6, 3, 0, 3, 11);
    } else if j == 14 {
        assert(sum_entry_ok(5, 8, 7, 4, 6, 4, 10, 6)) by (nonlinear_arith);
        lemma_sum_entry(5, 8, 7, 4, 6, 4, 10, 6);
    } else if j == 15 {
        assert(sum_entry_ok(5, 8, 10, 0, 2, 6, 1, 1)) by (nonlinear_arith);
        lemma_sum_entry(5, 8, 10, 0, 2, 6, 1, 1);
    } else if j == 16 {
        assert(sum_entry_ok(5, 8, 7, 9, 8, 8, 6, 10)) by (nonlinear_arith);
        lemma_sum_entry(5, 8, 7, 9, 8, 8, 6, 10);
    } else if j == 17 {
        assert(sum_entry_ok(5, 8, 11, 7, 1, 11, 11, 3)) by (nonlinear_arith);
        lemma_sum_entry(5, 8, 11, 7, 1, 11, 11, 3);
    } else if j == 18 {
        assert(sum_entry_ok(5, 8, 5, 5, 0, 12, 11, 3)) by (nonlinear_arith);
        lemma_sum_entry(5, 8, 5, 5, 0, 12, 11, 3);
    } else {
        assert(j == 19);
        assert(sum_entry_ok(5, 8, 12, 2, 12, 11, 6, 10)) by (nonlinear_arith);
        lemma_sum_entry(5, 8, 12, 2, 12, 11, 6, 10);
    }
}

/// Row 13 of the addition table.
#[verifier::rlimit(40)]
proof fn lemma_table_row_13(j: int)
    requires
        0 <= j < 20,
    ensures
        edwards_add_affine(3, 8, 11, 6, tiny_edwards_x(j), tiny_edwards_y(j), 13)
            == tiny_edwards_point(index_sum(13, j)),
{
    if j == 0 {
        assert(sum_entry_ok(11, 6, 0, 1, 11, 6, 1, 1)) by (nonlinear_arith);
        lemma_sum_entry(11, 6, 0, 1, 11, 6, 1, 1);
    } else if j == 1 {
        assert(sum_entry_ok(11, 6, 1, 2, 7, 4, 10, 6)) by (nonlinear_arith);
        lemma_sum_entry(11, 6, 1, 2, 7, 4, 10, 6);
    } else if j == 2 {
        assert(sum_entry_ok(11, 6, 8, 5, 10, 0, 3, 11)) by (nonlinear_arith);
        lemma_sum_entry(11, 6, 8, 5, 10, 0, 3, 11);
    } else if j == 3 {
        assert(sum_entry_ok(11, 6, 2, 7, 7, 9, 3, 11)) by (nonlinear_arith);
        lemma_sum_entry(11, 6, 2, 7, 7, 9, 3, 11);
    } else if j == 4 {
        assert(sum_entry_ok(11, 6, 6, 9, 11, 7, 10, 6)) by (nonlinear_arith);
        lemma_sum_entry(11, 6, 6, 9, 11, 7, 10, 6);
    } else if j == 5 {
        assert(sum_entry_ok(11, 6, 3, 0, 5, 5, 1, 1)) by (nonlinear_arith);
        lemma_sum_entry(11, 6, 3, 0, 5, 5, 1, 1);
    } else if j == 6 {
        assert(sum_entry_ok(11, 6, 6, 4, 12, 2, 6, 10)) by (nonlinear_arith);
        lemma_sum_entry(11, 6, 6, 4, 12, 2, 6, 10);
    } else if j == 7 {
        assert(sum_entry_ok(11, 6, 2, 6, 0, 1, 11, 3)) by (nonlinear_arith);
        lemma_sum_entry(11, 6, 2, 6, 0, 1, 11, 3);
    } else if j == 8 {
        assert(sum_entry_ok(11, 6, 8, 8, 1, 2, 11, 3)) by (nonlinear_arith);
        lemma_sum_entry(11, 6, 8, 8, 1, 2, 11, 3);
    } else if j == 9 {
        assert(sum_entry_ok(11, 6, 1, 11, 8, 5, 6, 10)) by (nonlinear_arith);
        lemma_sum_entry(11, 6, 1, 11, 8, 5, 6, 10);
    } else if j == 10 {
        assert(sum_entry_ok(11, 6, 0, 12, 2, 7, 1, 1)) by (nonlinear_arith);
        lemma_sum_entry(11, 6, 0, 12, 2, 7, 1, 1);
    } else if j == 11 {
        assert(sum_entry_ok(11, 6, 12, 11, 6, 9, 10, 6)) by (nonlinear_arith);
        lemma_sum_entry(11, 6, 12, 11, 6, 9, 10, 6);
    } else if j == 12 {
        assert(sum_entry_ok(11, 6, 5, 8, 3, 0, 3, 11)) by (nonlinear_arith);
        lemma_sum_entry(11, 6, 5, 8, 3, 0, 3, 11);
    } else if j == 13 {
        assert(sum_entry_ok(11, 6, 11, 6, 6, 4, 3, 11)) by (nonlinear_arith);
        lemma_sum_entry(11, 6, 11, 6, 6, 4, 3, 11);
    } else if j == 14 {
        assert(sum_entry_ok(11, 6, 7, 4, 2, 6, 10, 6)) by (nonlinear_arith);
        lemma_sum_entry(11, 6, 7, 4, 2, 6, 10, 6);
    } else if j == 15 {
        assert(sum_entry_ok(11, 6, 10, 0, 8, 8, 1, 1)) by (nonlinear_arith);
        lemma_sum_entry(11, 6, 10, 0, 8, 8, 1, 1);
    } else if j == 16 {
        assert(sum_entry_ok(11, 6, 7, 9, 1, 11, 6, 10)) by (nonlinear_arith);
        lemma_sum_entry(11, 6, 7, 9, 1, 11, 6, 10);
    } else if j == 17 {
        assert(sum_entry_ok(11, 6, 11, 7, 0, 12, 11, 3)) by (nonlinear_arith);
        lemma_sum_entry(11, 6, 11, 7, 0, 12, 11, 3);
    } else if j == 18 {
        assert(sum_entry_ok(11, 6, 5, 5, 12, 11, 11, 3)) by (nonlinear_arith);
        lemma_sum_entry(11, 6, 5, 5, 12, 11, 11, 3);
    } else {
        assert(j == 19);
        assert(sum_entry_ok(11, 6, 12, 2, 5, 8, 6, 10)) by (nonlinear_arith);
        lemma_sum_entry(11, 6, 12, 2, 5, 8, 6, 10);
    }
}

/// Row 14 of the addition table.
#[verifier::rlimit(40)]
proof fn lemma_table_row_14(j: int)
    requires
        0 <= j < 20,
    ensures
        edwards_add_affine(3, 8, 7, 4, tiny_edwards_x(j), tiny_edwards_y(j), 13)
            == tiny_edwards_point(index_sum(14, j)),
{
    if j == 0 {
        assert(sum_entry_ok(7, 4, 0, 1, 7, 4, 1, 1)) by (nonlinear_arith);
        lemma_sum_entry(7, 4, 0, 1, 7, 4, 1, 1);
    } else if j == 1 {
        assert(sum_entry_ok(7, 4, 1, 2, 10, 0, 2, 5)) by (nonlinear_arith);
        lemma_sum_entry(7, 4, 1, 2, 10, 0, 2, 5);
    } else if j == 2 {
        assert(sum_entry_ok(7, 4, 8, 5, 7, 9, 10, 6)) by (nonlinear_arith);
        lemma_sum_entry(7, 4, 8, 5, 7, 9, 10, 6);
    } else if j == 3 {
        assert(sum_entry_ok(7, 4, 2, 7, 11, 7, 10, 6)) by (nonlinear_arith);
        lemma_sum_entry(7, 4, 2, 7, 11, 7, 10, 6);
    } else if j == 4 {
        assert(sum_entry_ok(7, 4, 6, 9, 5, 5, 2, 5)) by (nonlinear_arith);
        lemma_sum_entry(7, 4, 6, 9, 5, 5, 2, 5);
    } else if j == 5 {
        assert(sum_entry_ok(7, 4, 3, 0, 12, 2, 1, 1)) by (nonlinear_arith);
        lemma_sum_entry(7, 4, 3, 0, 12, 2, 1, 1);
    } else if j == 6 {
        assert(sum_entry_ok(7, 4, 6, 4, 0, 1, 5, 2)) by (nonlinear_arith);
        lemma_sum_entry(7, 4, 6, 4, 0, 1, 5, 2);
    } else if j == 7 {
        assert(sum_entry_ok(7, 4, 2, 6, 1, 2, 6, 10)) by (nonlinear_arith);
        lemma_sum_entry(7, 4, 2, 6, 1, 2, 6, 10);
    } else if j == 8 {
        assert(sum_entry_ok(7, 4, 8, 8, 8, 5, 6, 10)) by (nonlinear_arith);
        lemma_sum_entry(7, 4, 8, 8, 8, 5, 6, 10);
    } else if j == 9 {
        assert(sum_entry_ok(7, 4, 1, 11, 2, 7, 5, 2)) by (nonlinear_arith);
        lemma_sum_entry(7, 4, 1, 11, 2, 7, 5, 2);
    } else if j == 10 {
        assert(sum_entry_ok(7, 4, 0, 12, 6, 9, 1, 1)) by (nonlinear_arith);
        lemma_sum_entry(7, 4, 0, 12, 6, 9, 1, 1);
    } else if j == 11 {
        assert(sum_entry_ok(7, 4, 12, 11, 3, 0, 2, 5)) by (nonlinear_arith);
        lemma_sum_entry(7, 4, 12, 11, 3, 0, 2, 5);
    } else if j == 12 {
        assert(sum_entry_ok(7, 4, 5, 8, 6, 4, 10, 6)) by (nonlinear_arith);
        lemma_sum_entry(7, 4, 5, 8, 6, 4, 10, 6);
    } else if j == 13 {
        assert(sum_entry_ok(7, 4, 11, 6, 2, 6, 10, 6)) by (nonlinear_arith);
        lemma_sum_entry(7, 4, 11, 6, 2, 6, 10, 6);
    } else if j == 14 {
        assert(sum_entry_ok(7, 4, 7, 4, 8, 8, 2, 5)) by (nonlinear_arith);
        lemma_sum_entry(7, 4, 7, 4, 8, 8, 2, 5);
    } else if j == 15 {
        assert(sum_entry_ok(7, 4, 10, 0, 1, 11, 1, 1)) by (nonlinear_arith);
        lemma_sum_entry(7, 4, 10, 0, 1, 11, 1, 1);
    } else if j == 16 {
        assert(sum_entry_ok(7, 4, 7, 9, 0, 12, 5, 2)) by (nonlinear_arith);
        lemma_sum_entry(7, 4, 7, 9, 0, 12, 5, 2);
    } else if j == 17 {
        assert(sum_entry_ok(7, 4, 11, 7, 12, 11, 6, 10)) by (nonlinear_arith);
        lemma_sum_entry(7, 4, 11, 7, 12, 11, 6, 10);
    } else if j == 18 {
        assert(sum_entry_ok(7, 4, 5, 5, 5, 8, 6, 10)) by (nonlinear_arith);
        lemma_sum_entry(7, 4, 5, 5, 5, 8, 6, 10);
    } else {
        assert(j == 19);
        assert(sum_entry_ok(7, 4, 12, 2, 11, 6, 5, 2)) by (nonlinear_arith);
        lemma_sum_entry(7, 4, 12, 2, 11, 6, 5, 2);
    }
}

/// Row 15 of the addition table.
#[verifier::rlimit(40)]
proof fn lemma_table_row_15(j: int)
    requires
        0 <= j < 20,
    ensures
        edwards_add_affine(3, 8, 10, 0, tiny_edwards_x(j), tiny_edwards_y(j), 13)
            == tiny_edwards_point(index_sum(15, j)),
{
    if j == 0 {
        assert(sum_entry_ok(10, 0, 0, 1, 10, 0, 1, 1)) by (nonlinear_arith);
        lemma_sum_entry(10, 0, 0, 1, 10, 0, 1, 1);
    } else if j == 1 {
        assert(sum_entry_ok(10, 0, 1, 2, 7, 9, 1, 1)) by (nonlinear_arith);
        lemma_sum_entry(10, 0, 1, 2, 7, 9, 1, 1);
    } else if j == 2 {
        assert(sum_entry_ok(10, 0, 8, 5, 11, 7, 1, 1)) by (nonlinear_arith);
        lemma_sum_entry(10, 0, 8, 5, 11, 7, 1, 1);
    } else if j == 3 {
        assert(sum_entry_ok(10, 0, 2, 7, 5, 5, 1, 1)) by (nonlinear_arith);
        lemma_sum_entry(10, 0, 2, 7, 5, 5, 1, 1);
    } else if j == 4 {
        assert(sum_entry_ok(10, 0, 6, 9, 12, 2, 1, 1)) by (nonlinear_arith);
        lemma_sum_entry(10, 0, 6, 9, 12, 2, 1, 1);
    } else if j == 5 {
        assert(sum_entry_ok(10, 0, 3, 0, 0, 1, 1, 1)) by (nonlinear_arith);
        lemma_sum_entry(10, 0, 3, 0, 0, 1, 1, 1);
    } else if j == 6 {
        assert(sum_entry_ok(10, 0, 6, 4, 1, 2, 1, 1)) by (nonlinear_arith);
        lemma_sum_entry(10, 0, 6, 4, 1, 2, 1, 1);
    } else if j == 7 {
        assert(sum_entry_ok(10, 0, 2, 6, 8, 5, 1, 1)) by (nonlinear_arith);
        lemma_sum_entry(10, 0, 2, 6, 8, 5, 1, 1);
    } else if j == 8 {
        assert(sum_entry_ok(10, 0, 8, 8, 2, 7, 1, 1)) by (nonlinear_arith);
        lemma_sum_entry(10, 0, 8, 8, 2, 7, 1, 1);
    } else if j == 9 {
        assert(sum_entry_ok(10, 0, 1, 11, 6, 9, 1, 1)) by (nonlinear_arith);
        lemma_sum_entry(10, 0, 1, 11, 6, 9, 1, 1);
    } else if j == 10 {
        assert(sum_entry_ok(10, 0, 0, 12, 3, 0, 1, 1)) by (nonlinear_arith);
        lemma_sum_entry(10, 0, 0, 12, 3, 0, 1, 1);
    } else if j == 11 {
        assert(sum_entry_ok(10, 0, 12, 11, 6, 4, 1, 1)) by (nonlinear_arith);
        lemma_sum_entry(10, 0, 12, 11, 6, 4, 1, 1);
    } else if j == 12 {
        assert(sum_entry_ok(10, 0, 5, 8, 2, 6, 1, 1)) by (nonlinear_arith);
        lemma_sum_entry(10, 0, 5, 8, 2, 6, 1, 1);
    } else if j == 13 {
        assert(sum_entry_ok(10, 0, 11, 6, 8, 8, 1, 1)) by (nonlinear_arith);
        lemma_sum_entry(10, 0, 11, 6, 8, 8, 1, 1);
    } else if j == 14 {
        assert(sum_entry_ok(10, 0, 7, 4, 1, 11, 1, 1)) by (nonlinear_arith);
        lemma_sum_entry(10, 0, 7, 4, 1, 11, 1, 1);
    } else if j == 15 {
        assert(sum_entry_ok(10, 0, 10, 0, 0, 12, 1, 1)) by (nonlinear_arith);
        lemma_sum_entry(10, 0, 10, 0, 0, 12, 1, 1);
    } else if j == 16 {
        assert(sum_entry_ok(10, 0, 7, 9, 12, 11, 1, 1)) by (nonlinear_arith);
        lemma_sum_entry(10, 0, 7, 9, 12, 11, 1, 1);
    } else if j == 17 {
        assert(sum_entry_ok(10, 0, 11, 7, 5, 8, 1, 1)) by (nonlinear_arith);
        lemma_sum_entry(10, 0, 11, 7, 5, 8, 1, 1);
    } else if j == 18 {
        assert(sum_entry_ok(10, 0, 5, 5, 11, 6, 1, 1)) by (nonlinear_arith);
        lemma_sum_entry(10, 0, 5, 5, 11, 6, 1, 1);
    } else {
        assert(j == 19);
        assert(sum_entry_ok(10, 0, 12, 2, 7, 4, 1, 1)) by (nonlinear_arith);
        lemma_sum_entry(10, 0, 12, 2, 7, 4, 1, 1);
    }
}

/// Row 16 of the addition table.
#[verifier::rlimit(40)]
proof fn lemma_table_row_16(j: int)
    requires
        0 <= j < 20,
    ensures
        edwards_add_affine(3, 8, 7, 9, tiny_edwards_x(j), tiny_edwards_y(j), 13)
            == tiny_edwards_point(index_sum(16, j)),
{
    if j == 0 {
        assert(sum_entry_ok(7, 9, 0, 1, 7, 9, 1, 1)) by (nonlinear_arith);
        lemma_sum_entry(7, 9, 0, 1, 7, 9, 1, 1);
    } else if j == 1 {
        assert(sum_entry_ok(7, 9, 1, 2, 11, 7, 5, 2)) by (nonlinear_arith);
        lemma_sum_entry(7, 9, 1, 2, 11, 7, 5, 2);
    } else if j == 2 {
        assert(sum_entry_ok(7, 9, 8, 5, 5, 5, 6, 10)) by (nonlinear_arith);
        lemma_sum_entry(7, 9, 8, 5, 5, 5, 6, 10);
    } else if j == 3 {
        assert(sum_entry_ok(7, 9, 2, 7, 12, 2, 6, 10)) by (nonlinear_arith);
        lemma_sum_entry(7, 9, 2, 7, 12, 2, 6, 10);
    } else if j == 4 {
        assert(sum_entry_ok(7, 9, 6, 9, 0, 1, 5, 2)) by (nonlinear_arith);
        lemma_sum_entry(7, 9, 6, 9, 0, 1, 5, 2);
    } else if j == 5 {
        assert(sum_entry_ok(7, 9, 3, 0, 1, 2, 1, 1)) by (nonlinear_arith);
        lemma_sum_entry(7, 9, 3, 0, 1, 2, 1, 1);
    } else if j == 6 {
        assert(sum_entry_ok(7, 9, 6, 4, 8, 5, 2, 5)) by (nonlinear_arith);
        lemma_sum_entry(7, 9, 6, 4, 8, 5, 2, 5);
    } else if j == 7 {
        assert(sum_entry_ok(7, 9, 2, 6, 2, 7, 10, 6)) by (nonlinear_arith);
        lemma_sum_entry(7, 9, 2, 6, 2, 7, 10, 6);
    } else if j == 8 {
        assert(sum_entry_ok(7, 9, 8, 8, 6, 9, 10, 6)) by (nonlinear_arith);
        lemma_sum_entry(7, 9, 8, 8, 6, 9, 10, 6);
    } else if j == 9 {
        assert(sum_entry_ok(7, 9, 1, 11, 3, 0, 2, 5)) by (nonlinear_arith);
        lemma_sum_entry(7, 9, 1, 11, 3, 0, 2, 5);
    } else if j == 10 {
        assert(sum_entry_ok(7, 9, 0, 12, 6, 4, 1, 1)) by (nonlinear_arith);
        lemma_sum_entry(7, 9, 0, 12, 6, 4, 1, 1);
    } else if j == 11 {
        assert(sum_entry_ok(7, 9, 12, 11, 2, 6, 5, 2)) by (nonlinear_arith);
        lemma_sum_entry(7, 9, 12, 11, 2, 6, 5, 2);
    } else if j == 12 {
        assert(sum_entry_ok(7, 9, 5, 8, 8, 8, 6, 10)) by (nonlinear_arith);
        lemma_sum_entry(7, 9, 5, 8, 8, 8, 6, 10);
    } else if j == 13 {
        assert(sum_entry_ok(7, 9, 11, 6, 1, 11, 6, 10)) by (nonlinear_arith);
        lemma_sum_entry(7, 9, 11, 6, 1, 11, 6, 10);
    } else if j == 14 {
        assert(sum_entry_ok(7, 9, 7, 4, 0, 12, 5, 2)) by (nonlinear_arith);
        lemma_sum_entry(7, 9, 7, 4, 0, 12, 5, 2);
    } else if j == 15 {
        assert(sum_entry_ok(7, 9, 10, 0, 12, 11, 1, 1)) by (nonlinear_arith);
        lemma_sum_entry(7, 9, 10, 0, 12, 11, 1, 1);
    } else if j == 16 {
        assert(sum_entry_ok(7, 9, 7, 9, 5, 8, 2, 5)) by (nonlinear_arith);
        lemma_sum_entry(7, 9, 7, 9, 5, 8, 2, 5);
    } else if j == 17 {
        assert(sum_entry_ok(7, 9, 11, 7, 11, 6, 10, 6)) by (nonlinear_arith);
        lemma_sum_entry(7, 9, 11, 7, 11, 6, 10, 6);
    } else if j == 18 {
        assert(sum_entry_ok(7, 9, 5, 5, 7, 4, 10, 6)) by (nonlinear_arith);
        lemma_sum_entry(7, 9, 5, 5, 7, 4, 10, 6);
    } else {
        assert(j == 19);
        assert(sum_entry_ok(7, 9, 12, 2, 10, 0, 2, 5)) by (nonlinear_arith);
        lemma_sum_entry(7, 9, 12, 2, 10, 0, 2, 5);
    }
}

/// Row 17 of the addition table.
#[verifier::rlimit(40)]
proof fn lemma_table_row_17(j: int)
    requires
        0 <= j < 20,
    ensures
        edwards_add_affine(3, 8, 11, 7, tiny_edwards_x(j), tiny_edwards_y(j), 13)
            == tiny_edwards_point(index_sum(17, j)),
{
    if j == 0 {
        assert(sum_entry_ok(11, 7, 0, 1, 11, 7, 1, 1)) by (nonlinear_arith);
        lemma_sum_entry(11, 7, 0, 1, 11, 7, 1, 1);
    } else if j == 1 {
        assert(sum_entry_ok(11, 7, 1, 2, 5, 5, 6, 10)) by (nonlinear_arith);
        lemma_sum_entry(11, 7, 1, 2, 5, 5, 6, 10);
    } else if j == 2 {
        assert(sum_entry_ok(11, 7, 8, 5, 12, 2, 11, 3)) by (nonlinear_arith);
        lemma_sum_entry(11, 7, 8, 5, 12, 2, 11, 3);
    } else if j == 3 {
        assert(sum_entry_ok(11, 7, 2, 7, 0, 1, 11, 3)) by (nonlinear_arith);
        lemma_sum_entry(11, 7, 2, 7, 0, 1, 11, 3);
    } else if j == 4 {
        assert(sum_entry_ok(11, 7, 6, 9, 1, 2, 6, 10)) by (nonlinear_arith);
        lemma_sum_entry(11, 7, 6, 9, 1, 2, 6, 10);
    } else if j == 5 {
        assert(sum_entry_ok(11, 7, 3, 0, 8, 5, 1, 1)) by (nonlinear_arith);
        lemma_sum_entry(11, 7, 3, 0, 8, 5, 1, 1);
    } else if j == 6 {
        assert(sum_entry_ok(11, 7, 6, 4, 2, 7, 10, 6)) by (nonlinear_arith);
        lemma_sum_entry(11, 7, 6, 4, 2, 7, 10, 6);
    } else if j == 7 {
        assert(sum_entry_ok(11, 7, 2, 6, 6, 9, 3, 11)) by (nonlinear_arith);
        lemma_sum_entry(11, 7, 2, 6, 6, 9, 3, 11);
    } else if j == 8 {
        assert(sum_entry_ok(11, 7, 8, 8, 3, 0, 3, 11)) by (nonlinear_arith);
        lemma_sum_entry(11, 7, 8, 8, 3, 0, 3, 11);
    } else if j == 9 {
        assert(sum_entry_ok(11, 7, 1, 11, 6, 4, 10, 6)) by (nonlinear_arith);
        lemma_sum_entry(11, 7, 1, 11, 6, 4, 10, 6);
    } else if j == 10 {
        assert(sum_entry_ok(11, 7, 0, 12, 2, 6, 1, 1)) by (nonlinear_arith);
        lemma_sum_entry(11, 7, 0, 12, 2, 6, 1, 1);
    } else if j == 11 {
        assert(sum_entry_ok(11, 7, 12, 11, 8, 8, 6, 10)) by (nonlinear_arith);
        lemma_sum_entry(11, 7, 12, 11, 8, 8, 6, 10);
    } else if j == 12 {
        assert(sum_entry_ok(11, 7, 5, 8, 1, 11, 11, 3)) by (nonlinear_arith);
        lemma_sum_entry(11, 7, 5, 8, 1, 11, 11, 3);
    } else if j == 13 {
        assert(sum_entry_ok(11, 7, 11, 6, 0, 12, 11, 3)) by (nonlinear_arith);
        lemma_sum_entry(11, 7, 11, 6, 0, 12, 11, 3);
    } else if j == 14 {
        assert(sum_entry_ok(11, 7, 7, 4, 12, 11, 6, 10)) by (nonlinear_arith);
        lemma_sum_entry(11, 7, 7, 4, 12, 11, 6, 10);
    } else if j == 15 {
        assert(sum_entry_ok(11, 7, 10, 0, 5, 8, 1, 1)) by (nonlinear_arith);
        lemma_sum_entry(11, 7, 10, 0, 5, 8, 1, 1);
    } else if j == 16 {
        assert(sum_entry_ok(11, 7, 7, 9, 11, 6, 10, 6)) by (nonlinear_arith);
        lemma_sum_entry(11, 7, 7, 9, 11, 6, 10, 6);
    } else if j == 17 {
        assert(sum_entry_ok(11, 7, 11, 7, 7, 4, 3, 11)) by (nonlinear_arith);
        lemma_sum_entry(11, 7, 11, 7, 7, 4, 3, 11);
    } else if j == 18 {
        assert(sum_entry_ok(11, 7, 5, 5, 10, 0, 3, 11)) by (nonlinear_arith);
        lemma_sum_entry(11, 7, 5, 5, 10, 0, 3, 11);
    } else {
        assert(j == 19);
        assert(sum_entry_ok(11, 7, 12, 2, 7, 9, 10, 6)) by (nonlinear_arith);
        lemma_sum_entry(11, 7, 12, 2, 7, 9, 10, 6);
    }
}

/// Row 18 of the addition table.
#[verifier::rlimit(40)]
proof fn lemma_table_row_18(j: int)
    requires
        0 <= j < 20,
    ensures
        edwards_add_affine(3, 8, 5, 5, tiny_edwards_x(j), tiny_edwards_y(j), 13)
            == tiny_edwards_point(index_sum(18, j)),
{
    if j == 0 {
        assert(sum_entry_ok(5, 5, 0, 1, 5, 5, 1, 1)) by (nonlinear_arith);
        lemma_sum_entry(5, 5, 0, 1, 5, 5, 1, 1);
    } else if j == 1 {
        assert(sum_entry_ok(5, 5, 1, 2, 12, 2, 6, 10)) by (nonlinear_arith);
        lemma_sum_entry(5, 5, 1, 2, 12, 2, 6, 10);
    } else if j == 2 {
        assert(sum_entry_ok(5, 5, 8, 5, 0, 1, 11, 3)) by (nonlinear_arith);
        lemma_sum_entry(5, 5, 8, 5, 0, 1, 11, 3);
    } else if j == 3 {
        assert(sum_entry_ok(5, 5, 2, 7, 1, 2, 11, 3)) by (nonlinear_arith);
        lemma_sum_entry(5, 5, 2, 7, 1, 2, 11, 3);
    } else if j == 4 {
        assert(sum_entry_ok(5, 5, 6, 9, 8, 5, 6, 10)) by (nonlinear_arith);
        lemma_sum_entry(5, 5, 6, 9, 8, 5, 6, 10);
    } else if j == 5 {
        assert(sum_entry_ok(5, 5, 3, 0, 2, 7, 1, 1)) by (nonlinear_arith);
        lemma_sum_entry(5, 5, 3, 0, 2, 7, 1, 1);
    } else if j == 6 {
        assert(sum_entry_ok(5, 5, 6, 4, 6, 9, 10, 6)) by (nonlinear_arith);
        lemma_sum_entry(5, 5, 6, 4, 6, 9, 10, 6);
    } else if j == 7 {
        assert(sum_entry_ok(5, 5, 2, 6, 3, 0, 3, 11)) by (nonlinear_arith);
        lemma_sum_entry(5, 5, 2, 6, 3, 0, 3, 11);
    } else if j == 8 {
        assert(sum_entry_ok(5, 5, 8, 8, 6, 4, 3, 11)) by (nonlinear_arith);
        lemma_sum_entry(5, 5, 8, 8, 6, 4, 3, 11);
    } else if j == 9 {
        assert(sum_entry_ok(5, 5, 1, 11, 2, 6, 10, 6)) by (nonlinear_arith);
        lemma_sum_entry(5, 5, 1, 11, 2, 6, 10, 6);
    } else if j == 10 {
        assert(sum_entry_ok(5, 5, 0, 12, 8, 8, 1, 1)) by (nonlinear_arith);
        lemma_sum_entry(5, 5, 0, 12, 8, 8, 1, 1);
    } else if j == 11 {
        assert(sum_entry_ok(5, 5, 12, 11, 1, 11, 6, 10)) by (nonlinear_arith);
        lemma_sum_entry(5, 5, 12, 11, 1, 11, 6, 10);
    } else if j == 12 {
        assert(sum_entry_ok(5, 5, 5, 8, 0, 12, 11, 3)) by (nonlinear_arith);
        lemma_sum_entry(5, 5, 5, 8, 0, 12, 11, 3);
    } else if j == 13 {
        assert(sum_entry_ok(5, 5, 11, 6, 12, 11, 11, 3)) by (nonlinear_arith);
        lemma_sum_entry(5, 5, 11, 6, 12, 11, 11, 3);
    } else if j == 14 {
        assert(sum_entry_ok(5, 5, 7, 4, 5, 8, 6, 10)) by (nonlinear_arith);
        lemma_sum_entry(5, 5, 7, 4, 5, 8, 6, 10);
    } else if j == 15 {
        assert(sum_entry_ok(5, 5, 10, 0, 11, 6, 1, 1)) by (nonlinear_arith);
        lemma_sum_entry(5, 5, 10, 0, 11, 6, 1, 1);
    } else if j == 16 {
        assert(sum_entry_ok(5, 5, 7, 9, 7, 4, 10, 6)) by (nonlinear_arith);
        lemma_sum_entry(5, 5, 7, 9, 7, 4, 10, 6);
    } else if j == 17 {
        assert(sum_entry_ok(5, 5, 11, 7, 10, 0, 3, 11)) by (nonlinear_arith);
        lemma_sum_entry(5, 5, 11, 7, 10, 0, 3, 11);
    } else if j == 18 {
        assert(sum_entry_ok(5, 5, 5, 5, 7, 9, 3, 11)) by (nonlinear_arith);
        lemma_sum_entry(5, 5, 5, 5, 7, 9, 3, 11);
    } else {
        assert(j == 19);
        assert(sum_entry_ok(5, 5, 12, 2, 11, 7, 10, 6)) by (nonlinear_arith);
        lemma_sum_entry(5, 5, 12, 2, 11, 7, 10, 6);
    }
}

/// Row 19 of the addition table.
#[verifier::rlimit(40)]
proof fn lemma_table_row_19(j: int)
    requires
        0 <= j < 20,
    ensures
        edwards_add_affine(3, 8, 12, 2, tiny_edwards_x(j), tiny_edwards_y(j), 13)
            == tiny_edwards_point(index_sum(19, j)),
{
    if j == 0 {
        assert(sum_entry_ok(12, 2, 0, 1, 12, 2, 1, 1)) by (nonlinear_arith);
        lemma_sum_entry(12, 2, 0, 1, 12, 2, 1, 1);
    } else if j == 1 {
        assert(sum_entry_ok(12, 2, 1, 2, 0, 1, 5, 2)) by (nonlinear_arith);
        lemma_sum_entry(12, 2, 1, 2, 0, 1, 5, 2);
    } else if j == 2 {
        assert(sum_entry_ok(12, 2, 8, 5, 1, 2, 6, 10)) by (nonlinear_arith);
        lemma_sum_entry(12, 2, 8, 5, 1, 2, 6, 10);
    } else if j == 3 {
        assert(sum_entry_ok(12, 2, 2, 7, 8, 5, 6, 10)) by (nonlinear_arith);
        lemma_sum_entry(12, 2, 2, 7, 8, 5, 6, 10);
    } else if j == 4 {
        assert(sum_entry_ok(12, 2, 6, 9, 2, 7, 5, 2)) by (nonlinear_arith);
        lemma_sum_entry(12, 2, 6, 9, 2, 7, 5, 2);
    } else if j == 5 {
        assert(sum_entry_ok(12, 2, 3, 0, 6, 9, 1, 1)) by (nonlinear_arith);
        lemma_sum_entry(12, 2, 3, 0, 6, 9, 1, 1);
    } else if j == 6 {
        assert(sum_entry_ok(12, 2, 6, 4, 3, 0, 2, 5)) by (nonlinear_arith);
        lemma_sum_entry(12, 2, 6, 4, 3, 0, 2, 5);
    } else if j == 7 {
        assert(sum_entry_ok(12, 2, 2, 6, 6, 4, 10, 6)) by (nonlinear_arith);
        lemma_sum_entry(12, 2, 2, 6, 6, 4, 10, 6);
    } else if j == 8 {
        assert(sum_entry_ok(12, 2, 8, 8, 2, 6, 10, 6)) by (nonlinear_arith);
        lemma_sum_entry(12, 2, 8, 8, 2, 6, 10, 6);
    } else if j == 9 {
        assert(sum_entry_ok(12, 2, 1, 11, 8, 8, 2, 5)) by (nonlinear_arith);
        lemma_sum_entry(12, 2, 1, 11, 8, 8, 2, 5);
    } else if j == 10 {
        assert(sum_entry_ok(12, 2, 0, 12, 1, 11, 1, 1)) by (nonlinear_arith);
        lemma_sum_entry(12, 2, 0, 12, 1, 11, 1, 1);
    } else if j == 11 {
        assert(sum_entry_ok(12, 2, 12, 11, 0, 12, 5, 2)) by (nonlinear_arith);
        lemma_sum_entry(12, 2, 12, 11, 0, 12, 5, 2);
    } else if j == 12 {
        assert(sum_entry_ok(12, 2, 5, 8, 12, 11, 6, 10)) by (nonlinear_arith);
        lemma_sum_entry(12, 2, 5, 8, 12, 11, 6, 10);
    } else if j == 13 {
        assert(sum_entry_ok(12, 2, 11, 6, 5, 8, 6, 10)) by (nonlinear_arith);
        lemma_sum_entry(12, 2, 11, 6, 5, 8, 6, 10);
    } else if j == 14 {
        assert(sum_entry_ok(12, 2, 7, 4, 11, 6, 5, 2)) by (nonlinear_arith);
        lemma_sum_entry(12, 2, 7, 4, 11, 6, 5, 2);
    } else if j == 15 {
        assert(sum_entry_ok(12, 2, 10, 0, 7, 4, 1, 1)) by (nonlinear_arith);
        lemma_sum_entry(12, 2, 10, 0, 7, 4, 1, 1);
    } else if j == 16 {
        assert(sum_entry_ok(12, 2, 7, 9, 10, 0, 2, 5)) by (nonlinear_arith);
        lemma_sum_entry(12, 2, 7, 9, 10, 0, 2, 5);
    } else if j == 17 {
        assert(sum_entry_ok(12, 2, 11, 7, 7, 9, 10, 6)) by (nonlinear_arith);
        lemma_sum_entry(12, 2, 11, 7, 7, 9, 10, 6);
    } else if j == 18 {
        assert(sum_entry_ok(12, 2, 5, 5, 11, 7, 10, 6)) by (nonlinear_arith);
        lemma_sum_entry(12, 2, 5, 5, 11, 7, 10, 6);
    } else {
        assert(j == 19);
        assert(sum_entry_ok(12, 2, 12, 2, 5, 5, 2, 5)) by (nonlinear_arith);
        lemma_sum_entry(12, 2, 12, 2, 5, 5, 2, 5);
    }
}

/// Every entry of the addition table holds.
proof fn lemma_table_entry(i: int, j: int)
    requires
        0 <= i < 20,
        0 <= j < 20,
    ensures
        edwards_add_affine(
            3,
            8,
            tiny_edwards_x(i),
            tiny_edwards_y(i),
            tiny_edwards_x(j),
            tiny_edwards_y(j),
            13,
        ) == tiny_edwards_point(index_sum(i, j)),
{
    if i == 0 {
        lemma_table_row_0(j);
    } else if i == 1 {
        lemma_table_row_1(j);
    } else if i == 2 {
        lemma_table_row_2(j);
    } else if i == 3 {
        lemma_table_row_3(j);
    } else if i == 4 {
        lemma_table_row_4(j);
    } else if i == 5 {
        lemma_table_row_5(j);
    } else if i == 6 {
        lemma_table_row_6(j);
    } else if i == 7 {
        lemma_table_row_7(j);
    } else if i == 8 {
        lemma_table_row_8(j);
    } else if i == 9 {
        lemma_table_row_9(j);
    } else if i == 10 {
        lemma_table_row_10(j);
    } else if i == 11 {
        lemma_table_row_11(j);
    } else if i == 12 {
        lemma_table_row_12(j);
    } else if i == 13 {
        lemma_table_row_13(j);
    } else if i == 14 {
        lemma_table_row_14(j);
    } else if i == 15 {
        lemma_table_row_15(j);
    } else if i == 16 {
        lemma_table_row_16(j);
    } else if i == 17 {
        lemma_table_row_17(j);
    } else if i == 18 {
        lemma_table_row_18(j);
    } else {
        assert(i == 19);
        lemma_table_row_19(j);
    }
}

/// The points of the curve with `x = 0` are listed.
proof fn lemma_listed_column_0(y: int)
    requires
        0 <= y < 13,
        edwards_affine_on_curve(3, 8, 0, y, 13),
    ensures
        0 <= tiny_edwards_index(0, y) < 20,
        tiny_edwards_point(tiny_edwards_index(0, y)) == (0int, y, 1int),
{
    if y == 0 {
        assert(!edwards_affine_on_curve(3, 8, 0, 0, 13)) by (nonlinear_arith);
    } else if y == 1 {
    } else if y == 2 {
        assert(!edwards_affine_on_curve(3, 8, 0, 2, 13)) by (nonlinear_arith);
    } else if y == 3 {
        assert(!edwards_affine_on_curve(3, 8, 0, 3, 13)) by (nonlinear_arith);
    } else if y == 4 {
        assert(!edwards_affine_on_curve(3, 8, 0, 4, 13)) by (nonlinear_arith);
    } else if y == 5 {
        assert(!edwards_affine_on_curve(3, 8, 0, 5, 13)) by (nonlinear_arith);
    } else if y == 6 {
        assert(!edwards_affine_on_curve(3, 8, 0, 6, 13)) by (nonlinear_arith);
    } else if y == 7 {
        assert(!edwards_affine_on_curve(3, 8, 0, 7, 13)) by (nonlinear_arith);
    } else if y == 8 {
        assert(!edwards_affine_on_curve(3, 8, 0, 8, 13)) by (nonlinear_arith);
    } else if y == 9 {
        assert(!edwards_affine_on_curve(3, 8, 0, 9, 13)) by (nonlinear_arith);
    } else if y == 10 {
        assert(!edwards_affine_on_curve(3, 8, 0, 10, 13)) by (nonlinear_arith);
    } else if y == 11 {
        assert(!edwards_affine_on_curve(3, 8, 0, 11, 13)) by (nonlinear_arith);
    } else {
        assert(y == 12);
    }
}

/// The points of the curve with `x = 1` are listed.
proof fn lemma_listed_column_1(y: int)
    requires
        0 <= y < 13,
        edwards_affine_on_curve(3, 8, 1, y, 13),
    ensures
        0 <= tiny_edwards_index(1, y) < 20,
        tiny_edwards_point(tiny_edwards_index(1, y)) == (1int, y, 1int),
{
    if y == 0 {
        assert(!edwards_affine_on_curve(3, 8, 1, 0, 13)) by (nonlinear_arith);
    } else if y == 1 {
        assert(!edwards_affine_on_curve(3, 8, 1, 1, 13)) by (nonlinear_arith);
    } else if y == 2 {
    } else if y == 3 {
        assert(!edwards_affine_on_curve(3, 8, 1, 3, 13)) by (nonlinear_arith);
    } else if y == 4 {
        assert(!edwards_affine_on_curve(3, 8, 1, 4, 13)) by (nonlinear_arith);
    } else if y == 5 {
        assert(!edwards_affine_on_curve(3, 8, 1, 5, 13)) by (nonlinear_arith);
    } else if y == 6 {
        assert(!edwards_affine_on_curve(3, 8, 1, 6, 13)) by (nonlinear_arith);
    } else if y == 7 {
        assert(!edwards_affine_on_curve(3, 8, 1, 7, 13)) by (nonlinear_arith);
    } else if y == 8 {
        assert(!edwards_affine_on_curve(3, 8, 1, 8, 13)) by (nonlinear_arith);
    } else if y == 9 {
        assert(!edwards_affine_on_curve(3, 8, 1, 9, 13)) by (nonlinear_arith);
    } else if y == 10 {
        assert(!edwards_affine_on_curve(3, 8, 1, 10, 13)) by (nonlinear_arith);
    } else if y == 11 {
    } else {
        assert(y == 12);
        assert(!edwards_affine_on_curve(3, 8, 1, 12, 13)) by (nonlinear_arith);
    }
}

/// The points of the curve with `x = 2` are listed.
proof fn lemma_listed_column_2(y: int)
    requires
        0 <= y < 13,
        edwards_affine_on_curve(3, 8, 2, y, 13),
    ensures
        0 <= tiny_edwards_index(2, y) < 20,
        tiny_edwards_point(tiny_edwards_index(2, y)) == (2int, y, 1int),
{
    if y == 0 {
        assert(!edwards_affine_on_curve(3, 8, 2, 0, 13)) by (nonlinear_arith);
    } else if y == 1 {
        assert(!edwards_affine_on_curve(3, 8, 2, 1, 13)) by (nonlinear_arith);
    } else if y == 2 {
        assert(!edwards_affine_on_curve(3, 8, 2, 2, 13)) by (nonlinear_arith);
    } else if y == 3 {
        assert(!edwards_affine_on_curve(3, 8, 2, 3, 13)) by (nonlinear_arith);
    } else if y == 4 {
        assert(!edwards_affine_on_curve(3, 8, 2, 4, 13)) by (nonlinear_arith);
    } else if y == 5 {
        assert(!edwards_affine_on_curve(3, 8, 2, 5, 13)) by (nonlinear_arith);
    } else if y == 6 {
    } else if y == 7 {
    } else if y == 8 {
        assert(!edwards_affine_on_curve(3, 8, 2, 8, 13)) by (nonlinear_arith);
    } else if y == 9 {
        assert(!edwards_affine_on_curve(3, 8, 2, 9, 13)) by (nonlinear_arith);
    } else if y == 10 {
        assert(!edwards_affine_on_curve(3, 8, 2, 10, 13)) by (nonlinear_arith);
    } else if y == 11 {
        assert(!edwards_affine_on_curve(3, 8, 2, 11, 13)) by (nonlinear_arith);
    } else {
        assert(y == 12);
        assert(!edwards_affine_on_curve(3, 8, 2, 12, 13)) by (nonlinear_arith);
    }
}

/// The points of the curve with `x = 3` are listed.
proof fn lemma_listed_column_3(y: int)
    requires
        0 <= y < 13,
        edwards_affine_on_curve(3, 8, 3, y, 13),
    ensures
        0 <= tiny_edwards_index(3, y) < 20,
        tiny_edwards_point(tiny_edwards_index(3, y)) == (3int, y, 1int),
{
    if y == 0 {
    } else if y == 1 {
        assert(!edwards_affine_on_curve(3, 8, 3, 1, 13)) by (nonlinear_arith);
    } else if y == 2 {
        assert(!edwards_affine_on_curve(3, 8, 3, 2, 13)) by (nonlinear_arith);
    } else if y == 3 {
        assert(!edwards_affine_on_curve(3, 8, 3, 3, 13)) by (nonlinear_arith);
    } else if y == 4 {
        assert(!edwards_affine_on_curve(3, 8, 3, 4, 13)) by (nonlinear_arith);
    } else if y == 5 {
        assert(!edwards_affine_on_curve(3, 8, 3, 5, 13)) by (nonlinear_arith);
    } else if y == 6 {
        assert(!edwards_affine_on_curve(3, 8, 3, 6, 13)) by (nonlinear_arith);
    } else if y == 7 {
        assert(!edwards_affine_on_curve(3, 8, 3, 7, 13)) by (nonlinear_arith);
    } else if y == 8 {
        assert(!edwards_affine_on_curve(3, 8, 3, 8, 13)) by (nonlinear_arith);
    } else if y == 9 {
        assert(!edwards_affine_on_curve(3, 8, 3, 9, 13)) by (nonlinear_arith);
    } else if y == 10 {
        assert(!edwards_affine_on_curve(3, 8, 3, 10, 13)) by (nonlinear_arith);
    } else if y == 11 {
        assert(!edwards_affine_on_curve(3, 8, 3, 11, 13)) by (nonlinear_arith);
    } else {
        assert(y == 12);
        assert(!edwards_affine_on_curve(3, 8, 3, 12, 13)) by (nonlinear_arith);
    }
}

/// The points of the curve with `x = 4` are listed.
proof fn lemma_listed_column_4(y: int)
    requires
        0 <= y < 13,
        edwards_affine_on_curve(3, 8, 4, y, 13),
    ensures
        0 <= tiny_edwards_index(4, y) < 20,
        tiny_edwards_point(tiny_edwards_index(4, y)) == (4int, y, 1int),
{
    if y == 0 {
        assert(!edwards_affine_on_curve(3, 8, 4, 0, 13)) by (nonlinear_arith);
    } else if y == 1 {
        assert(!edwards_affine_on_curve(3, 8, 4, 1, 13)) by (nonlinear_arith);
    } else if y == 2 {
        assert(!edwards_affine_on_curve(3, 8, 4, 2, 13)) by (nonlinear_arith);
    } else if y == 3 {
        assert(!edwards_affine_on_curve(3, 8, 4, 3, 13)) by (nonlinear_arith);
    } else if y == 4 {
        assert(!edwards_affine_on_curve(3, 8, 4, 4, 13)) by (nonlinear_arith);
    } else if y == 5 {
        assert(!edwards_affine_on_curve(3, 8, 4, 5, 13)) by (nonlinear_arith);
    } else if y == 6 {
        assert(!edwards_affine_on_curve(3, 8, 4, 6, 13)) by (nonlinear_arith);
    } else if y == 7 {
        assert(!edwards_affine_on_curve(3, 8, 4, 7, 13)) by (nonlinear_arith);
    } else if y == 8 {
        assert(!edwards_affine_on_curve(3, 8, 4, 8, 13)) by (nonlinear_arith);
    } else if y == 9 {
        assert(!edwards_affine_on_curve(3, 8, 4, 9, 13)) by (nonlinear_arith);
    } else if y == 10 {
        assert(!edwards_affine_on_curve(3, 8, 4, 10, 13)) by (nonlinear_arith);
    } else if y == 11 {
        assert(!edwards_affine_on_curve(3, 8, 4, 11, 13)) by (nonlinear_arith);
    } else {
        assert(y == 12);
        assert(!edwards_affine_on_curve(3, 8, 4, 12, 13)) by (nonlinear_arith);
    }
}

/// The points of the curve with `x = 5` are listed.
proof fn lemma_listed_column_5(y: int)
    requires
        0 <= y < 13,
        edwards_affine_on_curve(3, 8, 5, y, 13),
    ensures
        0 <= tiny_edwards_index(5, y) < 20,
        tiny_edwards_point(tiny_edwards_index(5, y)) == (5int, y, 1int),
{
    if y == 0 {
        assert(!edwards_affine_on_curve(3, 8, 5, 0, 13)) by (nonlinear_arith);
    } else if y == 1 {
        assert(!edwards_affine_on_curve(3, 8, 5, 1, 13)) by (nonlinear_arith);
    } else if y == 2 {
        assert(!edwards_affine_on_curve(3, 8, 5, 2, 13)) by (nonlinear_arith);
    } else if y == 3 {
        assert(!edwards_affine_on_curve(3, 8, 5, 3, 13)) by (nonlinear_arith);
    } else if y == 4 {
        assert(!edwards_affine_on_curve(3, 8, 5, 4, 13)) by (nonlinear_arith);
    } else if y == 5 {
    } else if y == 6 {
        assert(!edwards_affine_on_curve(3, 8, 5, 6, 13)) by (nonlinear_arith);
    } else if y == 7 {
        assert(!edwards_affine_on_curve(3, 8, 5, 7, 13)) by (nonlinear_arith);
    } else if y == 8 {
    } else if y == 9 {
        assert(!edwards_affine_on_curve(3, 8, 5, 9, 13)) by (nonlinear_arith);
    } else if y == 10 {
        assert(!edwards_affine_on_curve(3, 8, 5, 10, 13)) by (nonlinear_arith);
    } else if y == 11 {
        assert(!edwards_affine_on_curve(3, 8, 5, 11, 13)) by (nonlinear_arith);
    } else {
        assert(y == 12);
        assert(!edwards_affine_on_curve(3, 8, 5, 12, 13)) by (nonlinear_arith);
    }
}

/// The points of the curve with `x = 6` are listed.
proof fn lemma_listed_column_6(y: int)
    requires
        0 <= y < 13,
        edwards_affine_on_curve(3, 8, 6, y, 13),
    ensures
        0 <= tiny_edwards_index(6, y) < 20,
        tiny_edwards_point(tiny_edwards_index(6, y)) == (6int, y, 1int),
{
    if y == 0 {
        assert(!edwards_affine_on_curve(3, 8, 6, 0, 13)) by (nonlinear_arith);
    } else if y == 1 {
        assert(!edwards_affine_on_curve(3, 8, 6, 1, 13)) by (nonlinear_arith);
    } else if y == 2 {
        assert(!edwards_affine_on_curve(3, 8, 6, 2, 13)) by (nonlinear_arith);
    } else if y == 3 {
        assert(!edwards_affine_on_curve(3, 8, 6, 3, 13)) by (nonlinear_arith);
    } else if y == 4 {
    } else if y == 5 {
        assert(!edwards_affine_on_curve(3, 8, 6, 5, 13)) by (nonlinear_arith);
    } else if y == 6 {
        assert(!edwards_affine_on_curve(3, 8, 6, 6, 13)) by (nonlinear_arith);
    } else if y == 7 {
        assert(!edwards_affine_on_curve(3, 8, 6, 7, 13)) by (nonlinear_arith);
    } else if y == 8 {
        assert(!edwards_affine_on_curve(3, 8, 6, 8, 13)) by (nonlinear_arith);
    } else if y == 9 {
    } else if y == 10 {
        assert(!edwards_affine_on_curve(3, 8, 6, 10, 13)) by (nonlinear_arith);
    } else if y == 11 {
        assert(!edwards_affine_on_curve(3, 8, 6, 11, 13)) by (nonlinear_arith);
    } else {
        assert(y == 12);
        assert(!edwards_affine_on_curve(3, 8, 6, 12, 13)) by (nonlinear_arith);
    }
}

/// The points of the curve with `x = 7` are listed.
proof fn lemma_listed_column_7(y: int)
    requires
        0 <= y < 13,
        edwards_affine_on_curve(3, 8, 7, y, 13),
    ensures
        0 <= tiny_edwards_index(7, y) < 20,
        tiny_edwards_point(tiny_edwards_index(7, y)) == (7int, y, 1int),
{
    if y == 0 {
        assert(!edwards_affine_on_curve(3, 8, 7, 0, 13)) by (nonlinear_arith);
    } else if y == 1 {
        assert(!edwards_affine_on_curve(3, 8, 7, 1, 13)) by (nonlinear_arith);
    } else if y == 2 {
        assert(!edwards_affine_on_curve(3, 8, 7, 2, 13)) by (nonlinear_arith);
    } else if y == 3 {
        assert(!edwards_affine_on_curve(3, 8, 7, 3, 13)) by (nonlinear_arith);
    } else if y == 4 {
    } else if y == 5 {
        assert(!edwards_affine_on_curve(3, 8, 7, 5, 13)) by (nonlinear_arith);
    } else if y == 6 {
        assert(!edwards_affine_on_curve(3, 8, 7, 6, 13)) by (nonlinear_arith);
    } else if y == 7 {
        assert(!edwards_affine_on_curve(3, 8, 7, 7, 13)) by (nonlinear_arith);
    } else if y == 8 {
        assert(!edwards_affine_on_curve(3, 8, 7, 8, 13)) by (nonlinear_arith);
    } else if y == 9 {
    } else if y == 10 {
        assert(!edwards_affine_on_curve(3, 8, 7, 10, 13)) by (nonlinear_arith);
    } else if y == 11 {
        assert(!edwards_affine_on_curve(3, 8, 7, 11, 13)) by (nonlinear_arith);
    } else {
        assert(y == 12);
        assert(!edwards_affine_on_curve(3, 8, 7, 12, 13)) by (nonlinear_arith);
    }
}

/// The points of the curve with `x = 8` are listed.
proof fn lemma_listed_column_8(y: int)
    requires
        0 <= y < 13,
        edwards_affine_on_curve(3, 8, 8, y, 13),
    ensures
        0 <= tiny_edwards_index(8, y) < 20,
        tiny_edwards_point(tiny_edwards_index(8, y)) == (8int, y, 1int),
{
    if y == 0 {
        assert(!edwards_affine_on_curve(3, 8, 8, 0, 13)) by (nonlinear_arith);
    } else if y == 1 {
        assert(!edwards_affine_on_curve(3, 8, 8, 1, 13)) by (nonlinear_arith);
    } else if y == 2 {
        assert(!edwards_affine_on_curve(3, 8, 8, 2, 13)) by (nonlinear_arith);
    } else if y == 3 {
        assert(!edwards_affine_on_curve(3, 8, 8, 3, 13)) by (nonlinear_arith);
    } else if y == 4 {
        assert(!edwards_affine_on_curve(3, 8, 8, 4, 13)) by (nonlinear_arith);
    } else if y == 5 {
    } else if y == 6 {
        assert(!edwards_affine_on_curve(3, 8, 8, 6, 13)) by (nonlinear_arith);
    } else if y == 7 {
        assert(!edwards_affine_on_curve(3, 8, 8, 7, 13)) by (nonlinear_arith);
    } else if y == 8 {
    } else if y == 9 {
        assert(!edwards_affine_on_curve(3, 8, 8, 9, 13)) by (nonlinear_arith);
    } else if y == 10 {
        assert(!edwards_affine_on_curve(3, 8, 8, 10, 13)) by (nonlinear_arith);
    } else if y == 11 {
        assert(!edwards_affine_on_curve(3, 8, 8, 11, 13)) by (nonlinear_arith);
    } else {
        assert(y == 12);
        assert(!edwards_affine_on_curve(3, 8, 8, 12, 13)) by (nonlinear_arith);
    }
}

/// The points of the curve with `x = 9` are listed.
proof fn lemma_listed_column_9(y: int)
    requires
        0 <= y < 13,
        edwards_affine_on_curve(3, 8, 9, y, 13),
    ensures
        0 <= tiny_edwards_index(9, y) < 20,
        tiny_edwards_point(tiny_edwards_index(9, y)) == (9int, y, 1int),
{
    if y == 0 {
        assert(!edwards_affine_on_curve(3, 8, 9, 0, 13)) by (nonlinear_arith);
    } else if y == 1 {
        assert(!edwards_affine_on_curve(3, 8, 9, 1, 13)) by (nonlinear_arith);
    } else if y == 2 {
        assert(!edwards_affine_on_curve(3, 8, 9, 2, 13)) by (nonlinear_arith);
    } else if y == 3 {
        assert(!edwards_affine_on_curve(3, 8, 9, 3, 13)) by (nonlinear_arith);
    } else if y == 4 {
        assert(!edwards_affine_on_curve(3, 8, 9, 4, 13)) by (nonlinear_arith);
    } else if y == 5 {
        assert(!edwards_affine_on_curve(3, 8, 9, 5, 13)) by (nonlinear_arith);
    } else if y == 6 {
        assert(!edwards_affine_on_curve(3, 8, 9, 6, 13)) by (nonlinear_arith);
    } else if y == 7 {
        assert(!edwards_affine_on_curve(3, 8, 9, 7, 13)) by (nonlinear_arith);
    } else if y == 8 {
        assert(!edwards_affine_on_curve(3, 8, 9, 8, 13)) by (nonlinear_arith);
    } else if y == 9 {
        assert(!edwards_affine_on_curve(3, 8, 9, 9, 13)) by (nonlinear_arith);
    } else if y == 10 {
        assert(!edwards_affine_on_curve(3, 8, 9, 10, 13)) by (nonlinear_arith);
    } else if y == 11 {
        assert(!edwards_affine_on_curve(3, 8, 9, 11, 13)) by (nonlinear_arith);
    } else {
        assert(y == 12);
        assert(!edwards_affine_on_curve(3, 8, 9, 12, 13)) by (nonlinear_arith);
    }
}

/// The points of the curve with `x = 10` are listed.
proof fn lemma_listed_column_10(y: int)
    requires
        0 <= y < 13,
        edwards_affine_on_curve(3, 8, 10, y, 13),
    ensures
        0 <= tiny_edwards_index(10, y) < 20,
        tiny_edwards_point(tiny_edwards_index(10, y)) == (10int, y, 1int),
{
    if y == 0 {
    } else if y == 1 {
        assert(!edwards_affine_on_curve(3, 8, 10, 1, 13)) by (nonlinear_arith);
    } else if y == 2 {
        assert(!edwards_affine_on_curve(3, 8, 10, 2, 13)) by (nonlinear_arith);
    } else if y == 3 {
        assert(!edwards_affine_on_curve(3, 8, 10, 3, 13)) by (nonlinear_arith);
    } else if y == 4 {
        assert(!edwards_affine_on_curve(3, 8, 10, 4, 13)) by (nonlinear_arith);
    } else if y == 5 {
        assert(!edwards_affine_on_curve(3, 8, 10, 5, 13)) by (nonlinear_arith);
    } else if y == 6 {
        assert(!edwards_affine_on_curve(3, 8, 10, 6, 13)) by (nonlinear_arith);
    } else if y == 7 {
        assert(!edwards_affine_on_curve(3, 8, 10, 7, 13)) by (nonlinear_arith);
    } else if y == 8 {
        assert(!edwards_affine_on_curve(3, 8, 10, 8, 13)) by (nonlinear_arith);
    } else if y == 9 {
        assert(!edwards_affine_on_curve(3, 8, 10, 9, 13)) by (nonlinear_arith);
    } else if y == 10 {
        assert(!edwards_affine_on_curve(3, 8, 10, 10, 13)) by (nonlinear_arith);
    } else if y == 11 {
        assert(!edwards_affine_on_curve(3, 8, 10, 11, 13)) by (nonlinear_arith);
    } else {
        assert(y == 12);
        assert(!edwards_affine_on_curve(3, 8, 10, 12, 13)) by (nonlinear_arith);
    }
}

/// The points of the curve with `x = 11` are listed.
proof fn lemma_listed_column_11(y: int)
    requires
        0 <= y < 13,
        edwards_affine_on_curve(3, 8, 11, y, 13),
    ensures
        0 <= tiny_edwards_index(11, y) < 20,
        tiny_edwards_point(tiny_edwards_index(11, y)) == (11int, y, 1int),
{
    if y == 0 {
        assert(!edwards_affine_on_curve(3, 8, 11, 0, 13)) by (nonlinear_arith);
    } else if y == 1 {
        assert(!edwards_affine_on_curve(3, 8, 11, 1, 13)) by (nonlinear_arith);
    } else if y == 2 {
        assert(!edwards_affine_on_curve(3, 8, 11, 2, 13)) by (nonlinear_arith);
    } else if y == 3 {
        assert(!edwards_affine_on_curve(3, 8, 11, 3, 13)) by (nonlinear_arith);
    } else if y == 4 {
        assert(!edwards_affine_on_curve(3, 8, 11, 4, 13)) by (nonlinear_arith);
    } else if y == 5 {
        assert(!edwards_affine_on_curve(3, 8, 11, 5, 13)) by (nonlinear_arith);
    } else if y == 6 {
    } else if y == 7 {
    } else if y == 8 {
        assert(!edwards_affine_on_curve(3, 8, 11, 8, 13)) by (nonlinear_arith);
    } else if y == 9 {
        assert(!edwards_affine_on_curve(3, 8, 11, 9, 13)) by (nonlinear_arith);
    } else if y == 10 {
        assert(!edwards_affine_on_curve(3, 8, 11, 10, 13)) by (nonlinear_arith);
    } else if y == 11 {
        assert(!edwards_affine_on_curve(3, 8, 11, 11, 13)) by (nonlinear_arith);
    } else {
        assert(y == 12);
        assert(!edwards_affine_on_curve(3, 8, 11, 12, 13)) by (nonlinear_arith);
    }
}

/// The points of the curve with `x = 12` are listed.
proof fn lemma_listed_column_12(y: int)
    requires
        0 <= y < 13,
        edwards_affine_on_curve(3, 8, 12, y, 13),
    ensures
        0 <= tiny_edwards_index(12, y) < 20,
        tiny_edwards_point(tiny_edwards_index(12, y)) == (12int, y, 1int),
{
    if y == 0 {
        assert(!edwards_affine_on_curve(3, 8, 12, 0, 13)) by (nonlinear_arith);
    } else if y == 1 {
        assert(!edwards_affine_on_curve(3, 8, 12, 1, 13)) by (nonlinear_arith);
    } else if y == 2 {
    } else if y == 3 {
        assert(!edwards_affine_on_curve(3, 8, 12, 3, 13)) by (nonlinear_arith);
    } else if y == 4 {
        assert(!edwards_affine_on_curve(3, 8, 12, 4, 13)) by (nonlinear_arith);
    } else if y == 5 {
        assert(!edwards_affine_on_curve(3, 8, 12, 5, 13)) by (nonlinear_arith);
    } else if y == 6 {
        assert(!edwards_affine_on_curve(3, 8, 12, 6, 13)) by (nonlinear_arith);
    } else if y == 7 {
        assert(!edwards_affine_on_curve(3, 8, 12, 7, 13)) by (nonlinear_arith);
    } else if y == 8 {
        assert(!edwards_affine_on_curve(3, 8, 12, 8, 13)) by (nonlinear_arith);
    } else if y == 9 {
        assert(!edwards_affine_on_curve(3, 8, 12, 9, 13)) by (nonlinear_arith);
    } else if y == 10 {
        assert(!edwards_affine_on_curve(3, 8, 12, 10, 13)) by (nonlinear_arith);
    } else if y == 11 {
    } else {
        assert(y == 12);
        assert(!edwards_affine_on_curve(3, 8, 12, 12, 13)) by (nonlinear_arith);
    }
}

/// Every point of the curve with coordinates in `[0, 13)` is listed.
proof fn lemma_listed(x: int, y: int)
    requires
        0 <= x < 13,
        0 <= y < 13,
        edwards_affine_on_curve(3, 8, x, y, 13),
    ensures
        0 <= tiny_edwards_index(x, y) < 20,
        tiny_edwards_point(tiny_edwards_index(x, y)) == (x, y, 1int),
{
    if x == 0 {
        lemma_listed_column_0(y);
    } else if x == 1 {
        lemma_listed_column_1(y);
    } else if x == 2 {
        lemma_listed_column_2(y);
    } else if x == 3 {
        lemma_listed_column_3(y);
    } else if x == 4 {
        lemma_listed_column_4(y);
    } else if x == 5 {
        lemma_listed_column_5(y);
    } else if x == 6 {
        lemma_listed_column_6(y);
    } else if x == 7 {
        lemma_listed_column_7(y);
    } else if x == 8 {
        lemma_listed_column_8(y);
    } else if x == 9 {
        lemma_listed_column_9(y);
    } else if x == 10 {
        lemma_listed_column_10(y);
    } else if x == 11 {
        lemma_listed_column_11(y);
    } else {
        assert(x == 12);
        lemma_listed_column_12(y);
    }
}

/// A listed point is its own affine form.
proof fn lemma_point_affine(i: int)
    requires
        0 <= i < 20,
    ensures
        affine_of(tiny_edwards_point(i), 13) == tiny_edwards_point(i),
{
    lemma_finv_one(13);
    if i == 0 {
        lemma_fmul_one_zero(0, 13);
        lemma_fmul_one_zero(1, 13);
    } else if i == 1 {
        lemma_fmul_one_zero(1, 13);
        lemma_fmul_one_zero(2, 13);
    } else if i == 2 {
        lemma_fmul_one_zero(8, 13);
        lemma_fmul_one_zero(5, 13);
    } else if i == 3 {
        lemma_fmul_one_zero(2, 13);
        lemma_fmul_one_zero(7, 13);
    } else if i == 4 {
        lemma_fmul_one_zero(6, 13);
        lemma_fmul_one_zero(9, 13);
    } else if i == 5 {
        lemma_fmul_one_zero(3, 13);
        lemma_fmul_one_zero(0, 13);
    } else if i == 6 {
        lemma_fmul_one_zero(6, 13);
        lemma_fmul_one_zero(4, 13);
    } else if i == 7 {
        lemma_fmul_one_zero(2, 13);
        lemma_fmul_one_zero(6, 13);
    } else if i == 8 {
        lemma_fmul_one_zero(8, 13);
        lemma_fmul_one_zero(8, 13);
    } else if i == 9 {
        lemma_fmul_one_zero(1, 13);
        lemma_fmul_one_zero(11, 13);
    } else if i == 10 {
        lemma_fmul_one_zero(0, 13);
        lemma_fmul_one_zero(12, 13);
    } else if i == 11 {
        lemma_fmul_one_zero(12, 13);
        lemma_fmul_one_zero(11, 13);
    } else if i == 12 {
        lemma_fmul_one_zero(5, 13);
        lemma_fmul_one_zero(8, 13);
    } else if i == 13 {
        lemma_fmul_one_zero(11, 13);
        lemma_fmul_one_zero(6, 13);
    } else if i == 14 {
        lemma_fmul_one_zero(7, 13);
        lemma_fmul_one_zero(4, 13);
    } else if i == 15 {
        lemma_fmul_one_zero(10, 13);
        lemma_fmul_one_zero(0, 13);
    } else if i == 16 {
        lemma_fmul_one_zero(7, 13);
        lemma_fmul_one_zero(9, 13);
    } else if i == 17 {
        lemma_fmul_one_zero(11, 13);
        lemma_fmul_one_zero(7, 13);
    } else if i == 18 {
        lemma_fmul_one_zero(5, 13);
        lemma_fmul_one_zero(5, 13);
    } else {
        assert(i == 19);
        lemma_fmul_one_zero(12, 13);
        lemma_fmul_one_zero(2, 13);
    }
}

/// The sum of two listed points is listed, at the sum of their indices.
proof fn lemma_sum_of_points(i: int, j: int)
    requires
        0 <= i < 20,
        0 <= j < 20,
    ensures
        edwards_add(3, 8, tiny_edwards_point(i), tiny_edwards_point(j), 13)
            == tiny_edwards_point(index_sum(i, j)),
{
    lemma_point_affine(i);
    lemma_point_affine(j);
    lemma_table_entry(i, j);
}

/// The affine form of a point of the curve is a listed point.
proof fn lemma_index_of(c: Coordinates) -> (i: int)
    requires
        coordinates_in_range(c, 13),
        edwards_on_curve(3, 8, c, 13),
    ensures
        0 <= i < 20,
        affine_of(c, 13) == tiny_edwards_point(i),
{
    U64PrimeField::<13>::lemma_modulus_is_prime();
    lemma_affine_of_same_point(c, 13);
    let a = affine_of(c, 13);
    lemma_listed(a.0, a.1);
    tiny_edwards_index(a.0, a.1)
}

/// The sum of points whose affine forms are the `i`-th and `j`-th listed
/// points is the `(i + j) mod 20`-th.
proof fn lemma_sum_by_index(c1: Coordinates, c2: Coordinates, i: int, j: int)
    requires
        0 <= i < 20,
        0 <= j < 20,
        affine_of(c1, 13) == tiny_edwards_point(i),
        affine_of(c2, 13) == tiny_edwards_point(j),
    ensures
        edwards_add(3, 8, c1, c2, 13) == tiny_edwards_point(index_sum(i, j)),
{
    lemma_point_affine(i);
    lemma_point_affine(j);
    lemma_sum_of_points(i, j);
}

/// Law: addition of points of TinyJubJub in Edwards form is associative:
/// `(p + q) + r = p + (q + r)`.
pub proof fn lemma_add_associative(
    pt: EdwardsProjectivePoint<TinyJubJubEdwards>,
    qt: EdwardsProjectivePoint<TinyJubJubEdwards>,
    rt: EdwardsProjectivePoint<TinyJubJubEdwards>,
)
    requires
        edwards_on_curve(3, 8, pt@, 13),
        edwards_on_curve(3, 8, qt@, 13),
        edwards_on_curve(3, 8, rt@, 13),
    ensures
        EdwardsProjectivePoint::<TinyJubJubEdwards>::spec_operate(
            EdwardsProjectivePoint::<TinyJubJubEdwards>::spec_operate(pt@, qt@),
            rt@,
        ) == EdwardsProjectivePoint::<TinyJubJubEdwards>::spec_operate(
            pt@,
            EdwardsProjectivePoint::<TinyJubJubEdwards>::spec_operate(qt@, rt@),
        ),
{
    pt.lemma_range();
    qt.lemma_range();
    rt.lemma_range();
    let i = lemma_index_of(pt@);
    let j = lemma_index_of(qt@);
    let k = lemma_index_of(rt@);
    lemma_sum_by_index(pt@, qt@, i, j);
    lemma_sum_by_index(qt@, rt@, j, k);
    let ij = index_sum(i, j);
    let jk = index_sum(j, k);
    lemma_point_affine(ij);
    lemma_point_affine(jk);
    lemma_sum_by_index(tiny_edwards_point(ij), rt@, ij, k);
    lemma_sum_by_index(pt@, tiny_edwards_point(jk), i, jk);
    assert(index_sum(ij, k) == index_sum(i, jk));
}

/// The index of `n` times the `i`-th point: `n i mod 20`, by repeated
/// index sums.
pub open spec fn index_times(i: int, n: nat) -> int
    decreases n,
{
    if n == 0 {
        0
    } else {
        index_sum(index_times(i, (n - 1) as nat), i)
    }
}

/// `index_sum` and `index_times` are addition and multiplication modulo 20.
proof fn lemma_index_arithmetic(i: int, n: nat)
    requires
        0 <= i < 20,
    ensures
        index_times(i, n) == (i * n) % 20,
    decreases n,
{
    if n > 0 {
        lemma_index_arithmetic(i, (n - 1) as nat);
        let t = index_times(i, (n - 1) as nat);
        assert(i * n == i * (n - 1) + i) by (nonlinear_arith);
        lemma_add_mod_noop(i * (n - 1), i, 20);
        lemma_small_mod(i as nat, 20);
        lemma_mod_bound(i * (n - 1), 20);
        if t + i < 20 {
            lemma_small_mod((t + i) as nat, 20);
        } else {
            lemma_mod_add_multiples_vanish(t + i - 20, 20);
            lemma_small_mod((t + i - 20) as nat, 20);
        }
        assert((i * n) % 20 == (t + i) % 20);
    } else {
        assert(i * n == 0) by (nonlinear_arith)
            requires
                n == 0,
        ;
        lemma_small_mod(0, 20);
    }
}

/// Repeated addition of a point of the curve lands on the listed point at
/// the repeated index sum.
proof fn lemma_scalar_multiple_index(g: Coordinates, i: int, n: nat)
    requires
        0 <= i < 20,
        affine_of(g, 13) == tiny_edwards_point(i),
    ensures
        scalar_multiple::<EdwardsProjectivePoint<TinyJubJubEdwards>>(g, n)
            == tiny_edwards_point(index_times(i, n)),
        0 <= index_times(i, n) < 20,
    decreases n,
{
    if n > 0 {
        lemma_scalar_multiple_index(g, i, (n - 1) as nat);
        let t = index_times(i, (n - 1) as nat);
        lemma_point_affine(t);
        lemma_sum_by_index(tiny_edwards_point(t), g, t, i);
    }
}

/// Double-and-add from a listed accumulator lands on the listed point at
/// the accumulator's index plus the exponent times the base's index.
proof fn lemma_double_and_add_index(a: int, base: Coordinates, b: int, e: nat)
    requires
        0 <= a < 20,
        0 <= b < 20,
        affine_of(base, 13) == tiny_edwards_point(b),
    ensures
        double_and_add::<EdwardsProjectivePoint<TinyJubJubEdwards>>(
            tiny_edwards_point(a),
            base,
            e,
        ) == tiny_edwards_point((a + b * e) % 20),
    decreases e,
{
    lemma_point_affine(a);
    if e == 0 {
        lemma_small_mod(a as nat, 20);
    } else {
        let b2 = index_sum(b, b);
        lemma_sum_by_index(base, base, b, b);
        lemma_point_affine(b2);
        let a2 = if e % 2 == 1 { index_sum(a, b) } else { a };
        if e % 2 == 1 {
            lemma_sum_by_index(tiny_edwards_point(a), base, a, b);
        }
        lemma_double_and_add_index(a2, tiny_edwards_point(b2), b2, e / 2);
        lemma_index_step(a, b, e);
    }
}

/// The index identity behind one step of double-and-add:
/// `a' + 2b (e / 2) = a + b e (mod 20)`, with `a' = a + b` for odd `e`.
proof fn lemma_index_step(a: int, b: int, e: nat)
    requires
        0 <= a < 20,
        0 <= b < 20,
        e > 0,
    ensures
        ((if e % 2 == 1 { index_sum(a, b) } else { a }) + index_sum(b, b) * (e / 2)) % 20
            == (a + b * e) % 20,
{
    let h = e / 2;
    let r = e % 2;
    assert(e == 2 * h + r);
    let a2 = if r == 1 { index_sum(a, b) } else { a };
    let b2 = index_sum(b, b);
    assert(a2 == a + b * r || a2 == a + b * r - 20);
    assert(b2 == 2 * b || b2 == 2 * b - 20);
    assert(a + b * e == a + b * r + (2 * b) * h) by (nonlinear_arith)
        requires
            e == 2 * h + r,
    ;
    if a2 == a + b * r {
        if b2 == 2 * b {
        } else {
            assert(a2 + b2 * h == a + b * e - 20 * h) by (nonlinear_arith)
                requires
                    b2 == 2 * b - 20,
                    a2 == a + b * r,
                    a + b * e == a + b * r + (2 * b) * h,
            ;
            lemma_mod_sub_multiples_vanish_20(a + b * e, h as int);
        }
    } else {
        if b2 == 2 * b {
            assert(a2 + b2 * h == a + b * e - 20) by (nonlinear_arith)
                requires
                    b2 == 2 * b,
                    a2 == a + b * r - 20,
                    a + b * e == a + b * r + (2 * b) * h,
            ;
            lemma_mod_sub_multiples_vanish_20(a + b * e, 1);
        } else {
            assert(a2 + b2 * h == a + b * e - 20 * (h + 1)) by (nonlinear_arith)
                requires
                    b2 == 2 * b - 20,
                    a2 == a + b * r - 20,
                    a + b * e == a + b * r + (2 * b) * h,
            ;
            lemma_mod_sub_multiples_vanish_20(a + b * e, h + 1int);
        }
    }
}

/// Taking away a multiple of 20 leaves the residue modulo 20 unchanged.
proof fn lemma_mod_sub_multiples_vanish_20(x: int, k: int)
    ensures
        (x - 20 * k) % 20 == x % 20,
{
    lemma_mod_multiples_vanish(-k, x, 20);
    assert(20 * -k + x == x - 20 * k) by (nonlinear_arith);
}

/// Law: on TinyJubJub in Edwards form, double-and-add computes the scalar
/// multiple: for every point `g` of the curve and every `n`, it gives
/// `g + g + ... + g` (`n` copies), the same as repeated addition.
pub proof fn lemma_double_and_add_is_scalar_multiple(
    pt: EdwardsProjectivePoint<TinyJubJubEdwards>,
    n: nat,
)
    requires
        edwards_on_curve(3, 8, pt@, 13),
    ensures
        double_and_add_multiple::<EdwardsProjectivePoint<TinyJubJubEdwards>>(pt@, n)
            == scalar_multiple::<EdwardsProjectivePoint<TinyJubJubEdwards>>(pt@, n),
{
    pt.lemma_range();
    let i = lemma_index_of(pt@);
    assert(edwards_neutral() == tiny_edwards_point(0));
    lemma_double_and_add_index(0, pt@, i, n);
    lemma_scalar_multiple_index(pt@, i, n);
    lemma_index_arithmetic(i, n);
    assert(0 + i * n == i * n);
}

} // verus!
