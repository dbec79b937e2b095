//! The group of TinyJubJub points in Montgomery form. Besides the point at
//! infinity the curve has nineteen points; all twenty are the multiples of
//! `(3, 5)`, and the sum of the `i`-th and `j`-th multiples is the
//! `(i + j) mod 20`-th. From that addition table follows associativity.
use crate::cyclic_group::IsGroup;
use crate::elliptic_curve::montgomery::curves::tiny_jub_jub::TinyJubJubMontgomery;
use crate::elliptic_curve::montgomery::point::{
    montgomery_add, montgomery_line_sum, montgomery_neutral, montgomery_tangent_den,
    montgomery_tangent_num, MontgomeryProjectivePoint,
};
use crate::elliptic_curve::order_twenty::index_sum;
use crate::elliptic_curve::montgomery::traits::{montgomery_affine_on_curve, montgomery_on_curve};
use crate::elliptic_curve::point::{
    affine_of, coordinates_in_range, lemma_affine_of_same_point, lemma_projective_eq_reflexive,
    lemma_projective_eq_same_affine, lemma_same_affine_projective_eq, projective_eq, Coordinates,
};
use crate::field::arithmetic::{
    fadd, fdiv, fmul, fsub, is_inverse, lemma_finv_is, lemma_finv_one, lemma_fmul_one_zero,
};
use crate::field::fields::u64_prime_field::U64PrimeField;
use crate::field::traits::IsPrimeField;
use vstd::prelude::*;

verus! {

/// The `x` coordinate of the `i`-th multiple of `(3, 5)`, for `0 <= i < 20`
/// (the zeroth is the point at infinity `[0: 1: 0]`).
pub open spec fn tiny_montgomery_x(i: int) -> int {
    if i == 0 {
        0
    } else if i == 1 {
        3
    } else if i == 2 {
        7
    } else if i == 3 {
        4
    } else if i == 4 {
        8
    } else if i == 5 {
        1
    } else if i == 6 {
        5
    } else if i == 7 {
        10
    } else if i == 8 {
        2
    } else if i == 9 {
        9
    } else if i == 10 {
        0
    } else if i == 11 {
        9
    } else if i == 12 {
        2
    } else if i == 13 {
        10
    } else if i == 14 {
        5
    } else if i == 15 {
        1
    } else if i == 16 {
        8
    } else if i == 17 {
        4
    } else if i == 18 {
        7
    } else {
        3
    }
}

/// The `y` coordinate of the `i`-th multiple of `(3, 5)`, for `0 <= i < 20`.
pub open spec fn tiny_montgomery_y(i: int) -> int {
    if i == 0 {
        1
    } else if i == 1 {
        5
    } else if i == 2 {
        1
    } else if i == 3 {
        9
    } else if i == 4 {
        1
    } else if i == 5 {
        9
    } else if i == 6 {
        12
    } else if i == 7 {
        3
    } else if i == 8 {
        4
    } else if i == 9 {
        2
    } else if i == 10 {
        0
    } else if i == 11 {
        11
    } else if i == 12 {
        9
    } else if i == 13 {
        10
    } else if i == 14 {
        1
    } else if i == 15 {
        4
    } else if i == 16 {
        12
    } else if i == 17 {
        4
    } else if i == 18 {
        12
    } else {
        8
    }
}

/// The `i`-th multiple of `(3, 5)` on TinyJubJub in Montgomery form: the
/// point at infinity for `i = 0`, else `[x: y: 1]`.
pub open spec fn tiny_montgomery_point(i: int) -> Coordinates {
    if i == 0 {
        montgomery_neutral()
    } else {
        (tiny_montgomery_x(i), tiny_montgomery_y(i), 1)
    }
}

/// The position of the affine point `(x, y)` among the finite multiples of
/// `(3, 5)`; twenty when it is not one of them.
pub open spec fn tiny_montgomery_index(x: int, y: int) -> int {
    if x == 3 && y == 5 {
        1
    } else if x == 7 && y == 1 {
        2
    } else if x == 4 && y == 9 {
        3
    } else if x == 8 && y == 1 {
        4
    } else if x == 1 && y == 9 {
        5
    } else if x == 5 && y == 12 {
        6
    } else if x == 10 && y == 3 {
        7
    } else if x == 2 && y == 4 {
        8
    } else if x == 9 && y == 2 {
        9
    } else if x == 0 && y == 0 {
        10
    } else if x == 9 && y == 11 {
        11
    } else if x == 2 && y == 9 {
        12
    } else if x == 10 && y == 10 {
        13
    } else if x == 5 && y == 1 {
        14
    } else if x == 1 && y == 4 {
        15
    } else if x == 8 && y == 12 {
        16
    } else if x == 4 && y == 4 {
        17
    } else if x == 7 && y == 12 {
        18
    } else if x == 3 && y == 8 {
        19
    } else {
        20
    }
}

/// The sum of the finite affine points `(x1, y1)` and `(x2, y2)` by the
/// chord-and-tangent rule, `same` telling whether they are the same point.
pub open spec fn finite_sum(x1: int, y1: int, x2: int, y2: int, same: bool) -> Coordinates {
    if x2 == x1 && fadd(y2, y1, 13) == 0 {
        montgomery_neutral()
    } else if same {
        let lambda = fdiv(montgomery_tangent_num(6, x1, 13), montgomery_tangent_den(7, y1, 13), 13);
        montgomery_line_sum(6, 7, lambda, x1, y1, x2, 13)
    } else {
        let lambda = fdiv(fsub(y2, y1, 13), fsub(x2, x1, 13), 13);
        montgomery_line_sum(6, 7, lambda, x1, y1, x2, 13)
    }
}

/// `(x1, y1)` and `(x2, y2)` are inverse to each other.
spec fn inverse_pair(x1: int, y1: int, x2: int, y2: int) -> bool {
    x2 == x1 && fadd(y2, y1, 13) == 0
}

/// A chord entry of the addition table, on its coordinates: the points are
/// not inverse, `w` inverts `x2 - x1` and the chord gives `(x3, y3)`.
spec fn chord_entry_ok(x1: int, y1: int, x2: int, y2: int, x3: int, y3: int, w: int) -> bool {
    &&& !inverse_pair(x1, y1, x2, y2)
    &&& is_inverse(fsub(x2, x1, 13), w, 13)
    &&& montgomery_line_sum(6, 7, fmul(fsub(y2, y1, 13), w, 13), x1, y1, x2, 13) == (x3, y3, 1int)
}

/// A tangent entry of the addition table, on its coordinates: the point is
/// not its own inverse, `w` inverts `2 b y1` and the tangent gives `(x3, y3)`.
spec fn tangent_entry_ok(x1: int, y1: int, x3: int, y3: int, w: int) -> bool {
    &&& !inverse_pair(x1, y1, x1, y1)
    &&& is_inverse(montgomery_tangent_den(7, y1, 13), w, 13)
    &&& montgomery_line_sum(6, 7, fmul(montgomery_tangent_num(6, x1, 13), w, 13), x1, y1, x1, 13)
        == (x3, y3, 1int)
}

/// A checked chord entry: the sum of two different points is `[x3: y3: 1]`.
proof fn lemma_chord_entry(x1: int, y1: int, x2: int, y2: int, x3: int, y3: int, w: int)
    requires
        chord_entry_ok(x1, y1, x2, y2, x3, y3, w),
    ensures
        finite_sum(x1, y1, x2, y2, false) == (x3, y3, 1int),
{
    lemma_finv_is(fsub(x2, x1, 13), w, 13);
}

/// A checked tangent entry: the double of `(x1, y1)` is `[x3: y3: 1]`.
proof fn lemma_tangent_entry(x1: int, y1: int, x3: int, y3: int, w: int)
    requires
        tangent_entry_ok(x1, y1, x3, y3, w),
    ensures
        finite_sum(x1, y1, x1, y1, true) == (x3, y3, 1int),
{
    lemma_finv_is(montgomery_tangent_den(7, y1, 13), w, 13);
}


/// Row 1 of the addition table.
#[verifier::rlimit(40)]
proof fn lemma_table_row_1(j: int)
    requires
        1 <= j < 20,
    ensures
        finite_sum(3, 5, tiny_montgomery_x(j), tiny_montgomery_y(j), 1 == j)
            == tiny_montgomery_point(index_sum(1, j)),
{
    if j == 1 {
        assert(tangent_entry_ok(3, 5, 7, 1, 8)) by (nonlinear_arith);
        lemma_tangent_entry(3, 5, 7, 1, 8);
    } else if j == 2 {
        assert(chord_entry_ok(3, 5, 7, 1, 4, 9, 10)) by (nonlinear_arith);
        lemma_chord_entry(3, 5, 7, 1, 4, 9, 10);
    } else if j == 3 {
        assert(chord_entry_ok(3, 5, 4, 9, 8, 1, 1)) by (nonlinear_arith);
        lemma_chord_entry(3, 5, 4, 9, 8, 1, 1);
    } else if j == 4 {
        assert(chord_entry_ok(3, 5, 8, 1, 1, 9, 8)) by (nonlinear_arith);
        lemma_chord_entry(3, 5, 8, 1, 1, 9, 8);
    } else if j == 5 {
        assert(chord_entry_ok(3, 5, 1, 9, 5, 12, 6)) by (nonlinear_arith);
        lemma_chord_entry(3, 5, 1, 9, 5, 12, 6);
    } else if j == 6 {
        assert(chord_entry_ok(3, 5, 5, 12, 10, 3, 7)) by (nonlinear_arith);
        lemma_chord_entry(3, 5, 5, 12, 10, 3, 7);
    } else if j == 7 {
        assert(chord_entry_ok(3, 5, 10, 3, 2, 4, 2)) by (nonlinear_arith);
        lemma_chord_entry(3, 5, 10, 3, 2, 4, 2);
    } else if j == 8 {
        assert(chord_entry_ok(3, 5, 2, 4, 9, 2, 12)) by (nonlinear_arith);
        lemma_chord_entry(3, 5, 2, 4, 9, 2, 12);
    } else if j == 9 {
        assert(chord_entry_ok(3, 5, 9, 2, 0, 0, 11)) by (nonlinear_arith);
        lemma_chord_entry(3, 5, 9, 2, 0, 0, 11);
    } else if j == 10 {
        assert(chord_entry_ok(3, 5, 0, 0, 9, 11, 4)) by (nonlinear_arith);
        lemma_chord_entry(3, 5, 0, 0, 9, 11, 4);
    } else if j == 11 {
        assert(chord_entry_ok(3, 5, 9, 11, 2, 9, 11)) by (nonlinear_arith);
        lemma_chord_entry(3, 5, 9, 11, 2, 9, 11);
    } else if j == 12 {
        assert(chord_entry_ok(3, 5, 2, 9, 10, 10, 12)) by (nonlinear_arith);
        lemma_chord_entry(3, 5, 2, 9, 10, 10, 12);
    } else if j == 13 {
        assert(chord_entry_ok(3, 5, 10, 10, 5, 1, 2)) by (nonlinear_arith);
        lemma_chord_entry(3, 5, 10, 10, 5, 1, 2);
    } else if j == 14 {
        assert(chord_entry_ok(3, 5, 5, 1, 1, 4, 7)) by (nonlinear_arith);
        lemma_chord_entry(3, 5, 5, 1, 1, 4, 7);
    } else if j == 15 {
        assert(chord_entry_ok(3, 5, 1, 4, 8, 12, 6)) by (nonlinear_arith);
        lemma_chord_entry(3, 5, 1, 4, 8, 12, 6);
    } else if j == 16 {
        assert(chord_entry_ok(3, 5, 8, 12, 4, 4, 8)) by (nonlinear_arith);
        lemma_chord_entry(3, 5, 8, 12, 4, 4, 8);
    } else if j == 17 {
        assert(chord_entry_ok(3, 5, 4, 4, 7, 12, 1)) by (nonlinear_arith);
        lemma_chord_entry(3, 5, 4, 4, 7, 12, 1);
    } else if j == 18 {
        assert(chord_entry_ok(3, 5, 7, 12, 3, 8, 10)) by (nonlinear_arith);
        lemma_chord_entry(3, 5, 7, 12, 3, 8, 10);
    } else {
        assert(j == 19);
        assert(inverse_pair(3, 5, 3, 8)) by (nonlinear_arith);
    }
}

/// Row 2 of the addition table.
#[verifier::rlimit(40)]
proof fn lemma_table_row_2(j: int)
    requires
        1 <= j < 20,
    ensures
        finite_sum(7, 1, tiny_montgomery_x(j), tiny_montgomery_y(j), 2 == j)
            == tiny_montgomery_point(index_sum(2, j)),
{
    if j == 1 {
        assert(chord_entry_ok(7, 1, 3, 5, 4, 9, 3)) by (nonlinear_arith);
        lemma_chord_entry(7, 1, 3, 5, 4, 9, 3);
    } else if j == 2 {
        assert(tangent_entry_ok(7, 1, 8, 1, 1)) by (nonlinear_arith);
        lemma_tangent_entry(7, 1, 8, 1, 1);
    } else if j == 3 {
        assert(chord_entry_ok(7, 1, 4, 9, 1, 9, 4)) by (nonlinear_arith);
        lemma_chord_entry(7, 1, 4, 9, 1, 9, 4);
    } else if j == 4 {
        assert(chord_entry_ok(7, 1, 8, 1, 5, 12, 1)) by (nonlinear_arith);
        lemma_chord_entry(7, 1, 8, 1, 5, 12, 1);
    } else if j == 5 {
        assert(chord_entry_ok(7, 1, 1, 9, 10, 3, 2)) by (nonlinear_arith);
        lemma_chord_entry(7, 1, 1, 9, 10, 3, 2);
    } else if j == 6 {
        assert(chord_entry_ok(7, 1, 5, 12, 2, 4, 6)) by (nonlinear_arith);
        lemma_chord_entry(7, 1, 5, 12, 2, 4, 6);
    } else if j == 7 {
        assert(chord_entry_ok(7, 1, 10, 3, 9, 2, 9)) by (nonlinear_arith);
        lemma_chord_entry(7, 1, 10, 3, 9, 2, 9);
    } else if j == 8 {
        assert(chord_entry_ok(7, 1, 2, 4, 0, 0, 5)) by (nonlinear_arith);
        lemma_chord_entry(7, 1, 2, 4, 0, 0, 5);
    } else if j == 9 {
        assert(chord_entry_ok(7, 1, 9, 2, 9, 11, 7)) by (nonlinear_arith);
        lemma_chord_entry(7, 1, 9, 2, 9, 11, 7);
    } else if j == 10 {
        assert(chord_entry_ok(7, 1, 0, 0, 2, 9, 11)) by (nonlinear_arith);
        lemma_chord_entry(7, 1, 0, 0, 2, 9, 11);
    } else if j == 11 {
        assert(chord_entry_ok(7, 1, 9, 11, 10, 10, 7)) by (nonlinear_arith);
        lemma_chord_entry(7, 1, 9, 11, 10, 10, 7);
    } else if j == 12 {
        assert(chord_entry_ok(7, 1, 2, 9, 5, 1, 5)) by (nonlinear_arith);
        lemma_chord_entry(7, 1, 2, 9, 5, 1, 5);
    } else if j == 13 {
        assert(chord_entry_ok(7, 1, 10, 10, 1, 4, 9)) by (nonlinear_arith);
        lemma_chord_entry(7, 1, 10, 10, 1, 4, 9);
    } else if j == 14 {
        assert(chord_entry_ok(7, 1, 5, 1, 8, 12, 6)) by (nonlinear_arith);
        lemma_chord_entry(7, 1, 5, 1, 8, 12, 6);
    } else if j == 15 {
        assert(chord_entry_ok(7, 1, 1, 4, 4, 4, 2)) by (nonlinear_arith);
        lemma_chord_entry(7, 1, 1, 4, 4, 4, 2);
    } else if j == 16 {
        assert(chord_entry_ok(7, 1, 8, 12, 7, 12, 1)) by (nonlinear_arith);
        lemma_chord_entry(7, 1, 8, 12, 7, 12, 1);
    } else if j == 17 {
        assert(chord_entry_ok(7, 1, 4, 4, 3, 8, 4)) by (nonlinear_arith);
        lemma_chord_entry(7, 1, 4, 4, 3, 8, 4);
    } else if j == 18 {
        assert(inverse_pair(7, 1, 7, 12)) by (nonlinear_arith);
    } else {
        assert(j == 19);
        assert(chord_entry_ok(7, 1, 3, 8, 3, 5, 3)) by (nonlinear_arith);
        lemma_chord_entry(7, 1, 3, 8, 3, 5, 3);
    }
}

/// Row 3 of the addition table.
#[verifier::rlimit(40)]
proof fn lemma_table_row_3(j: int)
    requires
        1 <= j < 20,
    ensures
        finite_sum(4, 9, tiny_montgomery_x(j), tiny_montgomery_y(j), 3 == j)
            == tiny_montgomery_point(index_sum(3, j)),
{
    if j == 1 {
        assert(chord_entry_ok(4, 9, 3, 5, 8, 1, 12)) by (nonlinear_arith);
        lemma_chord_entry(4, 9, 3, 5, 8, 1, 12);
    } else if j == 2 {
        assert(chord_entry_ok(4, 9, 7, 1, 1, 9, 9)) by (nonlinear_arith);
        lemma_chord_entry(4, 9, 7, 1, 1, 9, 9);
    } else if j == 3 {
        assert(tangent_entry_ok(4, 9, 5, 12, 3)) by (nonlinear_arith);
        lemma_tangent_entry(4, 9, 5, 12, 3);
    } else if j == 4 {
        assert(chord_entry_ok(4, 9, 8, 1, 10, 3, 10)) by (nonlinear_arith);
        lemma_chord_entry(4, 9, 8, 1, 10, 3, 10);
    } else if j == 5 {
        assert(chord_entry_ok(4, 9, 1, 9, 2, 4, 4)) by (nonlinear_arith);
        lemma_chord_entry(4, 9, 1, 9, 2, 4, 4);
    } else if j == 6 {
        assert(chord_entry_ok(4, 9, 5, 12, 9, 2, 1)) by (nonlinear_arith);
        lemma_chord_entry(4, 9, 5, 12, 9, 2, 1);
    } else if j == 7 {
        assert(chord_entry_ok(4, 9, 10, 3, 0, 0, 11)) by (nonlinear_arith);
        lemma_chord_entry(4, 9, 10, 3, 0, 0, 11);
    } else if j == 8 {
        assert(chord_entry_ok(4, 9, 2, 4, 9, 11, 6)) by (nonlinear_arith);
        lemma_chord_entry(4, 9, 2, 4, 9, 11, 6);
    } else if j == 9 {
        assert(chord_entry_ok(4, 9, 9, 2, 2, 9, 8)) by (nonlinear_arith);
        lemma_chord_entry(4, 9, 9, 2, 2, 9, 8);
    } else if j == 10 {
        assert(chord_entry_ok(4, 9, 0, 0, 10, 10, 3)) by (nonlinear_arith);
        lemma_chord_entry(4, 9, 0, 0, 10, 10, 3);
    } else if j == 11 {
        assert(chord_entry_ok(4, 9, 9, 11, 5, 1, 8)) by (nonlinear_arith);
        lemma_chord_entry(4, 9, 9, 11, 5, 1, 8);
    } else if j == 12 {
        assert(chord_entry_ok(4, 9, 2, 9, 1, 4, 6)) by (nonlinear_arith);
        lemma_chord_entry(4, 9, 2, 9, 1, 4, 6);
    } else if j == 13 {
        assert(chord_entry_ok(4, 9, 10, 10, 8, 12, 11)) by (nonlinear_arith);
        lemma_chord_entry(4, 9, 10, 10, 8, 12, 11);
    } else if j == 14 {
        assert(chord_entry_ok(4, 9, 5, 1, 4, 4, 1)) by (nonlinear_arith);
        lemma_chord_entry(4, 9, 5, 1, 4, 4, 1);
    } else if j == 15 {
        assert(chord_entry_ok(4, 9, 1, 4, 7, 12, 4)) by (nonlinear_arith);
        lemma_chord_entry(4, 9, 1, 4, 7, 12, 4);
    } else if j == 16 {
        assert(chord_entry_ok(4, 9, 8, 12, 3, 8, 10)) by (nonlinear_arith);
        lemma_chord_entry(4, 9, 8, 12, 3, 8, 10);
    } else if j == 17 {
        assert(inverse_pair(4, 9, 4, 4)) by (nonlinear_arith);
    } else if j == 18 {
        assert(chord_entry_ok(4, 9, 7, 12, 3, 5, 9)) by (nonlinear_arith);
        lemma_chord_entry(4, 9, 7, 12, 3, 5, 9);
    } else {
        assert(j == 19);
        assert(chord_entry_ok(4, 9, 3, 8, 7, 1, 12)) by (nonlinear_arith);
        lemma_chord_entry(4, 9, 3, 8, 7, 1, 12);
    }
}

/// Row 4 of the addition table.
#[verifier::rlimit(40)]
proof fn lemma_table_row_4(j: int)
    requires
        1 <= j < 20,
    ensures
        finite_sum(8, 1, tiny_montgomery_x(j), tiny_montgomery_y(j), 4 == j)
            == tiny_montgomery_point(index_sum(4, j)),
{
    if j == 1 {
        assert(chord_entry_ok(8, 1, 3, 5, 1, 9, 5)) by (nonlinear_arith);
        lemma_chord_entry(8, 1, 3, 5, 1, 9, 5);
    } else if j == 2 {
        assert(chord_entry_ok(8, 1, 7, 1, 5, 12, 12)) by (nonlinear_arith);
        lemma_chord_entry(8, 1, 7, 1, 5, 12, 12);
    } else if j == 3 {
        assert(chord_entry_ok(8, 1, 4, 9, 10, 3, 3)) by (nonlinear_arith);
        lemma_chord_entry(8, 1, 4, 9, 10, 3, 3);
    } else if j == 4 {
        assert(tangent_entry_ok(8, 1, 2, 4, 1)) by (nonlinear_arith);
        lemma_tangent_entry(8, 1, 2, 4, 1);
    } else if j == 5 {
        assert(chord_entry_ok(8, 1, 1, 9, 9, 2, 11)) by (nonlinear_arith);
        lemma_chord_entry(8, 1, 1, 9, 9, 2, 11);
    } else if j == 6 {
        assert(chord_entry_ok(8, 1, 5, 12, 0, 0, 4)) by (nonlinear_arith);
        lemma_chord_entry(8, 1, 5, 12, 0, 0, 4);
    } else if j == 7 {
        assert(chord_entry_ok(8, 1, 10, 3, 9, 11, 7)) by (nonlinear_arith);
        lemma_chord_entry(8, 1, 10, 3, 9, 11, 7);
    } else if j == 8 {
        assert(chord_entry_ok(8, 1, 2, 4, 2, 9, 2)) by (nonlinear_arith);
        lemma_chord_entry(8, 1, 2, 4, 2, 9, 2);
    } else if j == 9 {
        assert(chord_entry_ok(8, 1, 9, 2, 10, 10, 1)) by (nonlinear_arith);
        lemma_chord_entry(8, 1, 9, 2, 10, 10, 1);
    } else if j == 10 {
        assert(chord_entry_ok(8, 1, 0, 0, 5, 1, 8)) by (nonlinear_arith);
        lemma_chord_entry(8, 1, 0, 0, 5, 1, 8);
    } else if j == 11 {
        assert(chord_entry_ok(8, 1, 9, 11, 1, 4, 1)) by (nonlinear_arith);
        lemma_chord_entry(8, 1, 9, 11, 1, 4, 1);
    } else if j == 12 {
        assert(chord_entry_ok(8, 1, 2, 9, 8, 12, 2)) by (nonlinear_arith);
        lemma_chord_entry(8, 1, 2, 9, 8, 12, 2);
    } else if j == 13 {
        assert(chord_entry_ok(8, 1, 10, 10, 4, 4, 7)) by (nonlinear_arith);
        lemma_chord_entry(8, 1, 10, 10, 4, 4, 7);
    } else if j == 14 {
        assert(chord_entry_ok(8, 1, 5, 1, 7, 12, 4)) by (nonlinear_arith);
        lemma_chord_entry(8, 1, 5, 1, 7, 12, 4);
    } else if j == 15 {
        assert(chord_entry_ok(8, 1, 1, 4, 3, 8, 11)) by (nonlinear_arith);
        lemma_chord_entry(8, 1, 1, 4, 3, 8, 11);
    } else if j == 16 {
        assert(inverse_pair(8, 1, 8, 12)) by (nonlinear_arith);
    } else if j == 17 {
        assert(chord_entry_ok(8, 1, 4, 4, 3, 5, 3)) by (nonlinear_arith);
        lemma_chord_entry(8, 1, 4, 4, 3, 5, 3);
    } else if j == 18 {
        assert(chord_entry_ok(8, 1, 7, 12, 7, 1, 12)) by (nonlinear_arith);
        lemma_chord_entry(8, 1, 7, 12, 7, 1, 12);
    } else {
        assert(j == 19);
        assert(chord_entry_ok(8, 1, 3, 8, 4, 9, 5)) by (nonlinear_arith);
        lemma_chord_entry(8, 1, 3, 8, 4, 9, 5);
    }
}

/// Row 5 of the addition table.
#[verifier::rlimit(40)]
proof fn lemma_table_row_5(j: int)
    requires
        1 <= j < 20,
    ensures
        finite_sum(1, 9, tiny_montgomery_x(j), tiny_montgomery_y(j), 5 == j)
            == tiny_montgomery_point(index_sum(5, j)),
{
    if j == 1 {
        assert(chord_entry_ok(1, 9, 3, 5, 5, 12, 7)) by (nonlinear_arith);
        lemma_chord_entry(1, 9, 3, 5, 5, 12, 7);
    } else if j == 2 {
        assert(chord_entry_ok(1, 9, 7, 1, 10, 3, 11)) by (nonlinear_arith);
        lemma_chord_entry(1, 9, 7, 1, 10, 3, 11);
    } else if j == 3 {
        assert(chord_entry_ok(1, 9, 4, 9, 2, 4, 9)) by (nonlinear_arith);
        lemma_chord_entry(1, 9, 4, 9, 2, 4, 9);
    } else if j == 4 {
        assert(chord_entry_ok(1, 9, 8, 1, 9, 2, 2)) by (nonlinear_arith);
        lemma_chord_entry(1, 9, 8, 1, 9, 2, 2);
    } else if j == 5 {
        assert(tangent_entry_ok(1, 9, 0, 0, 3)) by (nonlinear_arith);
        lemma_tangent_entry(1, 9, 0, 0, 3);
    } else if j == 6 {
        assert(chord_entry_ok(1, 9, 5, 12, 9, 11, 10)) by (nonlinear_arith);
        lemma_chord_entry(1, 9, 5, 12, 9, 11, 10);
    } else if j == 7 {
        assert(chord_entry_ok(1, 9, 10, 3, 2, 9, 3)) by (nonlinear_arith);
        lemma_chord_entry(1, 9, 10, 3, 2, 9, 3);
    } else if j == 8 {
        assert(chord_entry_ok(1, 9, 2, 4, 10, 10, 1)) by (nonlinear_arith);
        lemma_chord_entry(1, 9, 2, 4, 10, 10, 1);
    } else if j == 9 {
        assert(chord_entry_ok(1, 9, 9, 2, 5, 1, 5)) by (nonlinear_arith);
        lemma_chord_entry(1, 9, 9, 2, 5, 1, 5);
    } else if j == 10 {
        assert(chord_entry_ok(1, 9, 0, 0, 1, 4, 12)) by (nonlinear_arith);
        lemma_chord_entry(1, 9, 0, 0, 1, 4, 12);
    } else if j == 11 {
        assert(chord_entry_ok(1, 9, 9, 11, 8, 12, 5)) by (nonlinear_arith);
        lemma_chord_entry(1, 9, 9, 11, 8, 12, 5);
    } else if j == 12 {
        assert(chord_entry_ok(1, 9, 2, 9, 4, 4, 1)) by (nonlinear_arith);
        lemma_chord_entry(1, 9, 2, 9, 4, 4, 1);
    } else if j == 13 {
        assert(chord_entry_ok(1, 9, 10, 10, 7, 12, 3)) by (nonlinear_arith);
        lemma_chord_entry(1, 9, 10, 10, 7, 12, 3);
    } else if j == 14 {
        assert(chord_entry_ok(1, 9, 5, 1, 3, 8, 10)) by (nonlinear_arith);
        lemma_chord_entry(1, 9, 5, 1, 3, 8, 10);
    } else if j == 15 {
        assert(inverse_pair(1, 9, 1, 4)) by (nonlinear_arith);
    } else if j == 16 {
        assert(chord_entry_ok(1, 9, 8, 12, 3, 5, 2)) by (nonlinear_arith);
        lemma_chord_entry(1, 9, 8, 12, 3, 5, 2);
    } else if j == 17 {
        assert(chord_entry_ok(1, 9, 4, 4, 7, 1, 9)) by (nonlinear_arith);
        lemma_chord_entry(1, 9, 4, 4, 7, 1, 9);
    } else if j == 18 {
        assert(chord_entry_ok(1, 9, 7, 12, 4, 9, 11)) by (nonlinear_arith);
        lemma_chord_entry(1, 9, 7, 12, 4, 9, 11);
    } else {
        assert(j == 19);
        assert(chord_entry_ok(1, 9, 3, 8, 8, 1, 7)) by (nonlinear_arith);
        lemma_chord_entry(1, 9, 3, 8, 8, 1, 7);
    }
}

/// Row 6 of the addition table.
#[verifier::rlimit(40)]
proof fn lemma_table_row_6(j: int)
    requires
        1 <= j < 20,
    ensures
        finite_sum(5, 12, tiny_montgomery_x(j), tiny_montgomery_y(j), 6 == j)
            == tiny_montgomery_point(index_sum(6, j)),
{
    if j == 1 {
        assert(chord_entry_ok(5, 12, 3, 5, 10, 3, 6)) by (nonlinear_arith);
        lemma_chord_entry(5, 12, 3, 5, 10, 3, 6);
    } else if j == 2 {
        assert(chord_entry_ok(5, 12, 7, 1, 2, 4, 7)) by (nonlinear_arith);
        lemma_chord_entry(5, 12, 7, 1, 2, 4, 7);
    } else if j == 3 {
        assert(chord_entry_ok(5, 12, 4, 9, 9, 2, 12)) by (nonlinear_arith);
        lemma_chord_entry(5, 12, 4, 9, 9, 2, 12);
    } else if j == 4 {
        assert(chord_entry_ok(5, 12, 8, 1, 0, 0, 9)) by (nonlinear_arith);
        lemma_chord_entry(5, 12, 8, 1, 0, 0, 9);
    } else if j == 5 {
        assert(chord_entry_ok(5, 12, 1, 9, 9, 11, 3)) by (nonlinear_arith);
        lemma_chord_entry(5, 12, 1, 9, 9, 11, 3);
    } else if j == 6 {
        assert(tangent_entry_ok(5, 12, 2, 9, 12)) by (nonlinear_arith);
        lemma_tangent_entry(5, 12, 2, 9, 12);
    } else if j == 7 {
        assert(chord_entry_ok(5, 12, 10, 3, 10, 10, 8)) by (nonlinear_arith);
        lemma_chord_entry(5, 12, 10, 3, 10, 10, 8);
    } else if j == 8 {
        assert(chord_entry_ok(5, 12, 2, 4, 5, 1, 4)) by (nonlinear_arith);
        lemma_chord_entry(5, 12, 2, 4, 5, 1, 4);
    } else if j == 9 {
        assert(chord_entry_ok(5, 12, 9, 2, 1, 4, 10)) by (nonlinear_arith);
        lemma_chord_entry(5, 12, 9, 2, 1, 4, 10);
    } else if j == 10 {
        assert(chord_entry_ok(5, 12, 0, 0, 8, 12, 5)) by (nonlinear_arith);
        lemma_chord_entry(5, 12, 0, 0, 8, 12, 5);
    } else if j == 11 {
        assert(chord_entry_ok(5, 12, 9, 11, 4, 4, 10)) by (nonlinear_arith);
        lemma_chord_entry(5, 12, 9, 11, 4, 4, 10);
    } else if j == 12 {
        assert(chord_entry_ok(5, 12, 2, 9, 7, 12, 4)) by (nonlinear_arith);
        lemma_chord_entry(5, 12, 2, 9, 7, 12, 4);
    } else if j == 13 {
        assert(chord_entry_ok(5, 12, 10, 10, 3, 8, 8)) by (nonlinear_arith);
        lemma_chord_entry(5, 12, 10, 10, 3, 8, 8);
    } else if j == 14 {
        assert(inverse_pair(5, 12, 5, 1)) by (nonlinear_arith);
    } else if j == 15 {
        assert(chord_entry_ok(5, 12, 1, 4, 3, 5, 3)) by (nonlinear_arith);
        lemma_chord_entry(5, 12, 1, 4, 3, 5, 3);
    } else if j == 16 {
        assert(chord_entry_ok(5, 12, 8, 12, 7, 1, 9)) by (nonlinear_arith);
        lemma_chord_entry(5, 12, 8, 12, 7, 1, 9);
    } else if j == 17 {
        assert(chord_entry_ok(5, 12, 4, 4, 4, 9, 12)) by (nonlinear_arith);
        lemma_chord_entry(5, 12, 4, 4, 4, 9, 12);
    } else if j == 18 {
        assert(chord_entry_ok(5, 12, 7, 12, 8, 1, 7)) by (nonlinear_arith);
        lemma_chord_entry(5, 12, 7, 12, 8, 1, 7);
    } else {
        assert(j == 19);
        assert(chord_entry_ok(5, 12, 3, 8, 1, 9, 6)) by (nonlinear_arith);
        lemma_chord_entry(5, 12, 3, 8, 1, 9, 6);
    }
}

/// Row 7 of the addition table.
#[verifier::rlimit(40)]
proof fn lemma_table_row_7(j: int)
    requires
        1 <= j < 20,
    ensures
        finite_sum(10, 3, tiny_montgomery_x(j), tiny_montgomery_y(j), 7 == j)
            == tiny_montgomery_point(index_sum(7, j)),
{
    if j == 1 {
        assert(chord_entry_ok(10, 3, 3, 5, 2, 4, 11)) by (nonlinear_arith);
        lemma_chord_entry(10, 3, 3, 5, 2, 4, 11);
    } else if j == 2 {
        assert(chord_entry_ok(10, 3, 7, 1, 9, 2, 4)) by (nonlinear_arith);
        lemma_chord_entry(10, 3, 7, 1, 9, 2, 4);
    } else if j == 3 {
        assert(chord_entry_ok(10, 3, 4, 9, 0, 0, 2)) by (nonlinear_arith);
        lemma_chord_entry(10, 3, 4, 9, 0, 0, 2);
    } else if j == 4 {
        assert(chord_entry_ok(10, 3, 8, 1, 9, 11, 6)) by (nonlinear_arith);
        lemma_chord_entry(10, 3, 8, 1, 9, 11, 6);
    } else if j == 5 {
        assert(chord_entry_ok(10, 3, 1, 9, 2, 9, 10)) by (nonlinear_arith);
        lemma_chord_entry(10, 3, 1, 9, 2, 9, 10);
    } else if j == 6 {
        assert(chord_entry_ok(10, 3, 5, 12, 10, 10, 5)) by (nonlinear_arith);
        lemma_chord_entry(10, 3, 5, 12, 10, 10, 5);
    } else if j == 7 {
        assert(tangent_entry_ok(10, 3, 5, 1, 9)) by (nonlinear_arith);
        lemma_tangent_entry(10, 3, 5, 1, 9);
    } else if j == 8 {
        assert(chord_entry_ok(10, 3, 2, 4, 1, 4, 8)) by (nonlinear_arith);
        lemma_chord_entry(10, 3, 2, 4, 1, 4, 8);
    } else if j == 9 {
        assert(chord_entry_ok(10, 3, 9, 2, 8, 12, 12)) by (nonlinear_arith);
        lemma_chord_entry(10, 3, 9, 2, 8, 12, 12);
    } else if j == 10 {
        assert(chord_entry_ok(10, 3, 0, 0, 4, 4, 9)) by (nonlinear_arith);
        lemma_chord_entry(10, 3, 0, 0, 4, 4, 9);
    } else if j == 11 {
        assert(chord_entry_ok(10, 3, 9, 11, 7, 12, 12)) by (nonlinear_arith);
        lemma_chord_entry(10, 3, 9, 11, 7, 12, 12);
    } else if j == 12 {
        assert(chord_entry_ok(10, 3, 2, 9, 3, 8, 8)) by (nonlinear_arith);
        lemma_chord_entry(10, 3, 2, 9, 3, 8, 8);
    } else if j == 13 {
        assert(inverse_pair(10, 3, 10, 10)) by (nonlinear_arith);
    } else if j == 14 {
        assert(chord_entry_ok(10, 3, 5, 1, 3, 5, 5)) by (nonlinear_arith);
        lemma_chord_entry(10, 3, 5, 1, 3, 5, 5);
    } else if j == 15 {
        assert(chord_entry_ok(10, 3, 1, 4, 7, 1, 10)) by (nonlinear_arith);
        lemma_chord_entry(10, 3, 1, 4, 7, 1, 10);
    } else if j == 16 {
        assert(chord_entry_ok(10, 3, 8, 12, 4, 9, 6)) by (nonlinear_arith);
        lemma_chord_entry(10, 3, 8, 12, 4, 9, 6);
    } else if j == 17 {
        assert(chord_entry_ok(10, 3, 4, 4, 8, 1, 2)) by (nonlinear_arith);
        lemma_chord_entry(10, 3, 4, 4, 8, 1, 2);
    } else if j == 18 {
        assert(chord_entry_ok(10, 3, 7, 12, 1, 9, 4)) by (nonlinear_arith);
        lemma_chord_entry(10, 3, 7, 12, 1, 9, 4);
    } else {
        assert(j == 19);
        assert(chord_entry_ok(10, 3, 3, 8, 5, 12, 11)) by (nonlinear_arith);
        lemma_chord_entry(10, 3, 3, 8, 5, 12, 11);
    }
}

/// Row 8 of the addition table.
#[verifier::rlimit(40)]
proof fn lemma_table_row_8(j: int)
    requires
        1 <= j < 20,
    ensures
        finite_sum(2, 4, tiny_montgomery_x(j), tiny_montgomery_y(j), 8 == j)
            == tiny_montgomery_point(index_sum(8, j)),
{
    if j == 1 {
        assert(chord_entry_ok(2, 4, 3, 5, 9, 2, 1)) by (nonlinear_arith);
        lemma_chord_entry(2, 4, 3, 5, 9, 2, 1);
    } else if j == 2 {
        assert(chord_entry_ok(2, 4, 7, 1, 0, 0, 8)) by (nonlinear_arith);
        lemma_chord_entry(2, 4, 7, 1, 0, 0, 8);
    } else if j == 3 {
        assert(chord_entry_ok(2, 4, 4, 9, 9, 11, 7)) by (nonlinear_arith);
        lemma_chord_entry(2, 4, 4, 9, 9, 11, 7);
    } else if j == 4 {
        assert(chord_entry_ok(2, 4, 8, 1, 2, 9, 11)) by (nonlinear_arith);
        lemma_chord_entry(2, 4, 8, 1, 2, 9, 11);
    } else if j == 5 {
        assert(chord_entry_ok(2, 4, 1, 9, 10, 10, 12)) by (nonlinear_arith);
        lemma_chord_entry(2, 4, 1, 9, 10, 10, 12);
    } else if j == 6 {
        assert(chord_entry_ok(2, 4, 5, 12, 5, 1, 9)) by (nonlinear_arith);
        lemma_chord_entry(2, 4, 5, 12, 5, 1, 9);
    } else if j == 7 {
        assert(chord_entry_ok(2, 4, 10, 3, 1, 4, 5)) by (nonlinear_arith);
        lemma_chord_entry(2, 4, 10, 3, 1, 4, 5);
    } else if j == 8 {
        assert(tangent_entry_ok(2, 4, 8, 12, 10)) by (nonlinear_arith);
        lemma_tangent_entry(2, 4, 8, 12, 10);
    } else if j == 9 {
        assert(chord_entry_ok(2, 4, 9, 2, 4, 4, 2)) by (nonlinear_arith);
        lemma_chord_entry(2, 4, 9, 2, 4, 4, 2);
    } else if j == 10 {
        assert(chord_entry_ok(2, 4, 0, 0, 7, 12, 6)) by (nonlinear_arith);
        lemma_chord_entry(2, 4, 0, 0, 7, 12, 6);
    } else if j == 11 {
        assert(chord_entry_ok(2, 4, 9, 11, 3, 8, 2)) by (nonlinear_arith);
        lemma_chord_entry(2, 4, 9, 11, 3, 8, 2);
    } else if j == 12 {
        assert(inverse_pair(2, 4, 2, 9)) by (nonlinear_arith);
    } else if j == 13 {
        assert(chord_entry_ok(2, 4, 10, 10, 3, 5, 5)) by (nonlinear_arith);
        lemma_chord_entry(2, 4, 10, 10, 3, 5, 5);
    } else if j == 14 {
        assert(chord_entry_ok(2, 4, 5, 1, 7, 1, 9)) by (nonlinear_arith);
        lemma_chord_entry(2, 4, 5, 1, 7, 1, 9);
    } else if j == 15 {
        assert(chord_entry_ok(2, 4, 1, 4, 4, 9, 12)) by (nonlinear_arith);
        lemma_chord_entry(2, 4, 1, 4, 4, 9, 12);
    } else if j == 16 {
        assert(chord_entry_ok(2, 4, 8, 12, 8, 1, 11)) by (nonlinear_arith);
        lemma_chord_entry(2, 4, 8, 12, 8, 1, 11);
    } else if j == 17 {
        assert(chord_entry_ok(2, 4, 4, 4, 1, 9, 7)) by (nonlinear_arith);
        lemma_chord_entry(2, 4, 4, 4, 1, 9, 7);
    } else if j == 18 {
        assert(chord_entry_ok(2, 4, 7, 12, 5, 12, 8)) by (nonlinear_arith);
        lemma_chord_entry(2, 4, 7, 12, 5, 12, 8);
    } else {
        assert(j == 19);
        assert(chord_entry_ok(2, 4, 3, 8, 10, 3, 1)) by (nonlinear_arith);
        lemma_chord_entry(2, 4, 3, 8, 10, 3, 1);
    }
}

/// Row 9 of the addition table.
#[verifier::rlimit(40)]
proof fn lemma_table_row_9(j: int)
    requires
        1 <= j < 20,
    ensures
        finite_sum(9, 2, tiny_montgomery_x(j), tiny_montgomery_y(j), 9 == j)
            == tiny_montgomery_point(index_sum(9, j)),
{
    if j == 1 {
        assert(chord_entry_ok(9, 2, 3, 5, 0, 0, 2)) by (nonlinear_arith);
        lemma_chord_entry(9, 2, 3, 5, 0, 0, 2);
    } else if j == 2 {
        assert(chord_entry_ok(9, 2, 7, 1, 9, 11, 6)) by (nonlinear_arith);
        lemma_chord_entry(9, 2, 7, 1, 9, 11, 6);
    } else if j == 3 {
        assert(chord_entry_ok(9, 2, 4, 9, 2, 9, 5)) by (nonlinear_arith);
        lemma_chord_entry(9, 2, 4, 9, 2, 9, 5);
    } else if j == 4 {
        assert(chord_entry_ok(9, 2, 8, 1, 10, 10, 12)) by (nonlinear_arith);
        lemma_chord_entry(9, 2, 8, 1, 10, 10, 12);
    } else if j == 5 {
        assert(chord_entry_ok(9, 2, 1, 9, 5, 1, 8)) by (nonlinear_arith);
        lemma_chord_entry(9, 2, 1, 9, 5, 1, 8);
    } else if j == 6 {
        assert(chord_entry_ok(9, 2, 5, 12, 1, 4, 3)) by (nonlinear_arith);
        lemma_chord_entry(9, 2, 5, 12, 1, 4, 3);
    } else if j == 7 {
        assert(chord_entry_ok(9, 2, 10, 3, 8, 12, 1)) by (nonlinear_arith);
        lemma_chord_entry(9, 2, 10, 3, 8, 12, 1);
    } else if j == 8 {
        assert(chord_entry_ok(9, 2, 2, 4, 4, 4, 11)) by (nonlinear_arith);
        lemma_chord_entry(9, 2, 2, 4, 4, 4, 11);
    } else if j == 9 {
        assert(tangent_entry_ok(9, 2, 7, 12, 7)) by (nonlinear_arith);
        lemma_tangent_entry(9, 2, 7, 12, 7);
    } else if j == 10 {
        assert(chord_entry_ok(9, 2, 0, 0, 3, 8, 10)) by (nonlinear_arith);
        lemma_chord_entry(9, 2, 0, 0, 3, 8, 10);
    } else if j == 11 {
        assert(inverse_pair(9, 2, 9, 11)) by (nonlinear_arith);
    } else if j == 12 {
        assert(chord_entry_ok(9, 2, 2, 9, 3, 5, 11)) by (nonlinear_arith);
        lemma_chord_entry(9, 2, 2, 9, 3, 5, 11);
    } else if j == 13 {
        assert(chord_entry_ok(9, 2, 10, 10, 7, 1, 1)) by (nonlinear_arith);
        lemma_chord_entry(9, 2, 10, 10, 7, 1, 1);
    } else if j == 14 {
        assert(chord_entry_ok(9, 2, 5, 1, 4, 9, 3)) by (nonlinear_arith);
        lemma_chord_entry(9, 2, 5, 1, 4, 9, 3);
    } else if j == 15 {
        assert(chord_entry_ok(9, 2, 1, 4, 8, 1, 8)) by (nonlinear_arith);
        lemma_chord_entry(9, 2, 1, 4, 8, 1, 8);
    } else if j == 16 {
        assert(chord_entry_ok(9, 2, 8, 12, 1, 9, 12)) by (nonlinear_arith);
        lemma_chord_entry(9, 2, 8, 12, 1, 9, 12);
    } else if j == 17 {
        assert(chord_entry_ok(9, 2, 4, 4, 5, 12, 5)) by (nonlinear_arith);
        lemma_chord_entry(9, 2, 4, 4, 5, 12, 5);
    } else if j == 18 {
        assert(chord_entry_ok(9, 2, 7, 12, 10, 3, 6)) by (nonlinear_arith);
        lemma_chord_entry(9, 2, 7, 12, 10, 3, 6);
    } else {
        assert(j == 19);
        assert(chord_entry_ok(9, 2, 3, 8, 2, 4, 2)) by (nonlinear_arith);
        lemma_chord_entry(9, 2, 3, 8, 2, 4, 2);
    }
}

/// Row 10 of the addition table.
#[verifier::rlimit(40)]
proof fn lemma_table_row_10(j: int)
    requires
        1 <= j < 20,
    ensures
        finite_sum(0, 0, tiny_montgomery_x(j), tiny_montgomery_y(j), 10 == j)
            == tiny_montgomery_point(index_sum(10, j)),
{
    if j == 1 {
        assert(chord_entry_ok(0, 0, 3, 5, 9, 11, 9)) by (nonlinear_arith);
        lemma_chord_entry(0, 0, 3, 5, 9, 11, 9);
    } else if j == 2 {
        assert(chord_entry_ok(0, 0, 7, 1, 2, 9, 2)) by (nonlinear_arith);
        lemma_chord_entry(0, 0, 7, 1, 2, 9, 2);
    } else if j == 3 {
        assert(chord_entry_ok(0, 0, 4, 9, 10, 10, 10)) by (nonlinear_arith);
        lemma_chord_entry(0, 0, 4, 9, 10, 10, 10);
    } else if j == 4 {
        assert(chord_entry_ok(0, 0, 8, 1, 5, 1, 5)) by (nonlinear_arith);
        lemma_chord_entry(0, 0, 8, 1, 5, 1, 5);
    } else if j == 5 {
        assert(chord_entry_ok(0, 0, 1, 9, 1, 4, 1)) by (nonlinear_arith);
        lemma_chord_entry(0, 0, 1, 9, 1, 4, 1);
    } else if j == 6 {
        assert(chord_entry_ok(0, 0, 5, 12, 8, 12, 8)) by (nonlinear_arith);
        lemma_chord_entry(0, 0, 5, 12, 8, 12, 8);
    } else if j == 7 {
        assert(chord_entry_ok(0, 0, 10, 3, 4, 4, 4)) by (nonlinear_arith);
        lemma_chord_entry(0, 0, 10, 3, 4, 4, 4);
    } else if j == 8 {
        assert(chord_entry_ok(0, 0, 2, 4, 7, 12, 7)) by (nonlinear_arith);
        lemma_chord_entry(0, 0, 2, 4, 7, 12, 7);
    } else if j == 9 {
        assert(chord_entry_ok(0, 0, 9, 2, 3, 8, 3)) by (nonlinear_arith);
        lemma_chord_entry(0, 0, 9, 2, 3, 8, 3);
    } else if j == 10 {
        assert(inverse_pair(0, 0, 0, 0)) by (nonlinear_arith);
    } else if j == 11 {
        assert(chord_entry_ok(0, 0, 9, 11, 3, 5, 3)) by (nonlinear_arith);
        lemma_chord_entry(0, 0, 9, 11, 3, 5, 3);
    } else if j == 12 {
        assert(chord_entry_ok(0, 0, 2, 9, 7, 1, 7)) by (nonlinear_arith);
        lemma_chord_entry(0, 0, 2, 9, 7, 1, 7);
    } else if j == 13 {
        assert(chord_entry_ok(0, 0, 10, 10, 4, 9, 4)) by (nonlinear_arith);
        lemma_chord_entry(0, 0, 10, 10, 4, 9, 4);
    } else if j == 14 {
        assert(chord_entry_ok(0, 0, 5, 1, 8, 1, 8)) by (nonlinear_arith);
        lemma_chord_entry(0, 0, 5, 1, 8, 1, 8);
    } else if j == 15 {
        assert(chord_entry_ok(0, 0, 1, 4, 1, 9, 1)) by (nonlinear_arith);
        lemma_chord_entry(0, 0, 1, 4, 1, 9, 1);
    } else if j == 16 {
        assert(chord_entry_ok(0, 0, 8, 12, 5, 12, 5)) by (nonlinear_arith);
        lemma_chord_entry(0, 0, 8, 12, 5, 12, 5);
    } else if j == 17 {
        assert(chord_entry_ok(0, 0, 4, 4, 10, 3, 10)) by (nonlinear_arith);
        lemma_chord_entry(0, 0, 4, 4, 10, 3, 10);
    } else if j == 18 {
        assert(chord_entry_ok(0, 0, 7, 12, 2, 4, 2)) by (nonlinear_arith);
        lemma_chord_entry(0, 0, 7, 12, 2, 4, 2);
    } else {
        assert(j == 19);
        assert(chord_entry_ok(0, 0, 3, 8, 9, 2, 9)) by (nonlinear_arith);
        lemma_chord_entry(0, 0, 3, 8, 9, 2, 9);
    }
}

/// Row 11 of the addition table.
#[verifier::rlimit(40)]
proof fn lemma_table_row_11(j: int)
    requires
        1 <= j < 20,
    ensures
        finite_sum(9, 11, tiny_montgomery_x(j), tiny_montgomery_y(j), 11 == j)
            == tiny_montgomery_point(index_sum(11, j)),
{
    if j == 1 {
        assert(chord_entry_ok(9, 11, 3, 5, 2, 9, 2)) by (nonlinear_arith);
        lemma_chord_entry(9, 11, 3, 5, 2, 9, 2);
    } else if j == 2 {
        assert(chord_entry_ok(9, 11, 7, 1, 10, 10, 6)) by (nonlinear_arith);
        lemma_chord_entry(9, 11, 7, 1, 10, 10, 6);
    } else if j == 3 {
        assert(chord_entry_ok(9, 11, 4, 9, 5, 1, 5)) by (nonlinear_arith);
        lemma_chord_entry(9, 11, 4, 9, 5, 1, 5);
    } else if j == 4 {
        assert(chord_entry_ok(9, 11, 8, 1, 1, 4, 12)) by (nonlinear_arith);
        lemma_chord_entry(9, 11, 8, 1, 1, 4, 12);
    } else if j == 5 {
        assert(chord_entry_ok(9, 11, 1, 9, 8, 12, 8)) by (nonlinear_arith);
        lemma_chord_entry(9, 11, 1, 9, 8, 12, 8);
    } else if j == 6 {
        assert(chord_entry_ok(9, 11, 5, 12, 4, 4, 3)) by (nonlinear_arith);
        lemma_chord_entry(9, 11, 5, 12, 4, 4, 3);
    } else if j == 7 {
        assert(chord_entry_ok(9, 11, 10, 3, 7, 12, 1)) by (nonlinear_arith);
        lemma_chord_entry(9, 11, 10, 3, 7, 12, 1);
    } else if j == 8 {
        assert(chord_entry_ok(9, 11, 2, 4, 3, 8, 11)) by (nonlinear_arith);
        lemma_chord_entry(9, 11, 2, 4, 3, 8, 11);
    } else if j == 9 {
        assert(inverse_pair(9, 11, 9, 2)) by (nonlinear_arith);
    } else if j == 10 {
        assert(chord_entry_ok(9, 11, 0, 0, 3, 5, 10)) by (nonlinear_arith);
        lemma_chord_entry(9, 11, 0, 0, 3, 5, 10);
    } else if j == 11 {
        assert(tangent_entry_ok(9, 11, 7, 1, 6)) by (nonlinear_arith);
        lemma_tangent_entry(9, 11, 7, 1, 6);
    } else if j == 12 {
        assert(chord_entry_ok(9, 11, 2, 9, 4, 9, 11)) by (nonlinear_arith);
        lemma_chord_entry(9, 11, 2, 9, 4, 9, 11);
    } else if j == 13 {
        assert(chord_entry_ok(9, 11, 10, 10, 8, 1, 1)) by (nonlinear_arith);
        lemma_chord_entry(9, 11, 10, 10, 8, 1, 1);
    } else if j == 14 {
        assert(chord_entry_ok(9, 11, 5, 1, 1, 9, 3)) by (nonlinear_arith);
        lemma_chord_entry(9, 11, 5, 1, 1, 9, 3);
    } else if j == 15 {
        assert(chord_entry_ok(9, 11, 1, 4, 5, 12, 8)) by (nonlinear_arith);
        lemma_chord_entry(9, 11, 1, 4, 5, 12, 8);
    } else if j == 16 {
        assert(chord_entry_ok(9, 11, 8, 12, 10, 3, 12)) by (nonlinear_arith);
        lemma_chord_entry(9, 11, 8, 12, 10, 3, 12);
    } else if j == 17 {
        assert(chord_entry_ok(9, 11, 4, 4, 2, 4, 5)) by (nonlinear_arith);
        lemma_chord_entry(9, 11, 4, 4, 2, 4, 5);
    } else if j == 18 {
        assert(chord_entry_ok(9, 11, 7, 12, 9, 2, 6)) by (nonlinear_arith);
        lemma_chord_entry(9, 11, 7, 12, 9, 2, 6);
    } else {
        assert(j == 19);
        assert(chord_entry_ok(9, 11, 3, 8, 0, 0, 2)) by (nonlinear_arith);
        lemma_chord_entry(9, 11, 3, 8, 0, 0, 2);
    }
}

/// Row 12 of the addition table.
#[verifier::rlimit(40)]
proof fn lemma_table_row_12(j: int)
    requires
        1 <= j < 20,
    ensures
        finite_sum(2, 9, tiny_montgomery_x(j), tiny_montgomery_y(j), 12 == j)
            == tiny_montgomery_point(index_sum(12, j)),
{
    if j == 1 {
        assert(chord_entry_ok(2, 9, 3, 5, 10, 10, 1)) by (nonlinear_arith);
        lemma_chord_entry(2, 9, 3, 5, 10, 10, 1);
    } else if j == 2 {
        assert(chord_entry_ok(2, 9, 7, 1, 5, 1, 8)) by (nonlinear_arith);
        lemma_chord_entry(2, 9, 7, 1, 5, 1, 8);
    } else if j == 3 {
        assert(chord_entry_ok(2, 9, 4, 9, 1, 4, 7)) by (nonlinear_arith);
        lemma_chord_entry(2, 9, 4, 9, 1, 4, 7);
    } else if j == 4 {
        assert(chord_entry_ok(2, 9, 8, 1, 8, 12, 11)) by (nonlinear_arith);
        lemma_chord_entry(2, 9, 8, 1, 8, 12, 11);
    } else if j == 5 {
        assert(chord_entry_ok(2, 9, 1, 9, 4, 4, 12)) by (nonlinear_arith);
        lemma_chord_entry(2, 9, 1, 9, 4, 4, 12);
    } else if j == 6 {
        assert(chord_entry_ok(2, 9, 5, 12, 7, 12, 9)) by (nonlinear_arith);
        lemma_chord_entry(2, 9, 5, 12, 7, 12, 9);
    } else if j == 7 {
        assert(chord_entry_ok(2, 9, 10, 3, 3, 8, 5)) by (nonlinear_arith);
        lemma_chord_entry(2, 9, 10, 3, 3, 8, 5);
    } else if j == 8 {
        assert(inverse_pair(2, 9, 2, 4)) by (nonlinear_arith);
    } else if j == 9 {
        assert(chord_entry_ok(2, 9, 9, 2, 3, 5, 2)) by (nonlinear_arith);
        lemma_chord_entry(2, 9, 9, 2, 3, 5, 2);
    } else if j == 10 {
        assert(chord_entry_ok(2, 9, 0, 0, 7, 1, 6)) by (nonlinear_arith);
        lemma_chord_entry(2, 9, 0, 0, 7, 1, 6);
    } else if j == 11 {
        assert(chord_entry_ok(2, 9, 9, 11, 4, 9, 2)) by (nonlinear_arith);
        lemma_chord_entry(2, 9, 9, 11, 4, 9, 2);
    } else if j == 12 {
        assert(tangent_entry_ok(2, 9, 8, 1, 3)) by (nonlinear_arith);
        lemma_tangent_entry(2, 9, 8, 1, 3);
    } else if j == 13 {
        assert(chord_entry_ok(2, 9, 10, 10, 1, 9, 5)) by (nonlinear_arith);
        lemma_chord_entry(2, 9, 10, 10, 1, 9, 5);
    } else if j == 14 {
        assert(chord_entry_ok(2, 9, 5, 1, 5, 12, 9)) by (nonlinear_arith);
        lemma_chord_entry(2, 9, 5, 1, 5, 12, 9);
    } else if j == 15 {
        assert(chord_entry_ok(2, 9, 1, 4, 10, 3, 12)) by (nonlinear_arith);
        lemma_chord_entry(2, 9, 1, 4, 10, 3, 12);
    } else if j == 16 {
        assert(chord_entry_ok(2, 9, 8, 12, 2, 4, 11)) by (nonlinear_arith);
        lemma_chord_entry(2, 9, 8, 12, 2, 4, 11);
    } else if j == 17 {
        assert(chord_entry_ok(2, 9, 4, 4, 9, 2, 7)) by (nonlinear_arith);
        lemma_chord_entry(2, 9, 4, 4, 9, 2, 7);
    } else if j == 18 {
        assert(chord_entry_ok(2, 9, 7, 12, 0, 0, 8)) by (nonlinear_arith);
        lemma_chord_entry(2, 9, 7, 12, 0, 0, 8);
    } else {
        assert(j == 19);
        assert(chord_entry_ok(2, 9, 3, 8, 9, 11, 1)) by (nonlinear_arith);
        lemma_chord_entry(2, 9, 3, 8, 9, 11, 1);
    }
}

/// Row 13 of the addition table.
#[verifier::rlimit(40)]
proof fn lemma_table_row_13(j: int)
    requires
        1 <= j < 20,
    ensures
        finite_sum(10, 10, tiny_montgomery_x(j), tiny_montgomery_y(j), 13 == j)
            == tiny_montgomery_point(index_sum(13, j)),
{
    if j == 1 {
        assert(chord_entry_ok(10, 10, 3, 5, 5, 1, 11)) by (nonlinear_arith);
        lemma_chord_entry(10, 10, 3, 5, 5, 1, 11);
    } else if j == 2 {
        assert(chord_entry_ok(10, 10, 7, 1, 1, 4, 4)) by (nonlinear_arith);
        lemma_chord_entry(10, 10, 7, 1, 1, 4, 4);
    } else if j == 3 {
        assert(chord_entry_ok(10, 10, 4, 9, 8, 12, 2)) by (nonlinear_arith);
        lemma_chord_entry(10, 10, 4, 9, 8, 12, 2);
    } else if j == 4 {
        assert(chord_entry_ok(10, 10, 8, 1, 4, 4, 6)) by (nonlinear_arith);
        lemma_chord_entry(10, 10, 8, 1, 4, 4, 6);
    } else if j == 5 {
        assert(chord_entry_ok(10, 10, 1, 9, 7, 12, 10)) by (nonlinear_arith);
        lemma_chord_entry(10, 10, 1, 9, 7, 12, 10);
    } else if j == 6 {
        assert(chord_entry_ok(10, 10, 5, 12, 3, 8, 5)) by (nonlinear_arith);
        lemma_chord_entry(10, 10, 5, 12, 3, 8, 5);
    } else if j == 7 {
        assert(inverse_pair(10, 10, 10, 3)) by (nonlinear_arith);
    } else if j == 8 {
        assert(chord_entry_ok(10, 10, 2, 4, 3, 5, 8)) by (nonlinear_arith);
        lemma_chord_entry(10, 10, 2, 4, 3, 5, 8);
    } else if j == 9 {
        assert(chord_entry_ok(10, 10, 9, 2, 7, 1, 12)) by (nonlinear_arith);
        lemma_chord_entry(10, 10, 9, 2, 7, 1, 12);
    } else if j == 10 {
        assert(chord_entry_ok(10, 10, 0, 0, 4, 9, 9)) by (nonlinear_arith);
        lemma_chord_entry(10, 10, 0, 0, 4, 9, 9);
    } else if j == 11 {
        assert(chord_entry_ok(10, 10, 9, 11, 8, 1, 12)) by (nonlinear_arith);
        lemma_chord_entry(10, 10, 9, 11, 8, 1, 12);
    } else if j == 12 {
        assert(chord_entry_ok(10, 10, 2, 9, 1, 9, 8)) by (nonlinear_arith);
        lemma_chord_entry(10, 10, 2, 9, 1, 9, 8);
    } else if j == 13 {
        assert(tangent_entry_ok(10, 10, 5, 12, 4)) by (nonlinear_arith);
        lemma_tangent_entry(10, 10, 5, 12, 4);
    } else if j == 14 {
        assert(chord_entry_ok(10, 10, 5, 1, 10, 3, 5)) by (nonlinear_arith);
        lemma_chord_entry(10, 10, 5, 1, 10, 3, 5);
    } else if j == 15 {
        assert(chord_entry_ok(10, 10, 1, 4, 2, 4, 10)) by (nonlinear_arith);
        lemma_chord_entry(10, 10, 1, 4, 2, 4, 10);
    } else if j == 16 {
        assert(chord_entry_ok(10, 10, 8, 12, 9, 2, 6)) by (nonlinear_arith);
        lemma_chord_entry(10, 10, 8, 12, 9, 2, 6);
    } else if j == 17 {
        assert(chord_entry_ok(10, 10, 4, 4, 0, 0, 2)) by (nonlinear_arith);
        lemma_chord_entry(10, 10, 4, 4, 0, 0, 2);
    } else if j == 18 {
        assert(chord_entry_ok(10, 10, 7, 12, 9, 11, 4)) by (nonlinear_arith);
        lemma_chord_entry(10, 10, 7, 12, 9, 11, 4);
    } else {
        assert(j == 19);
        assert(chord_entry_ok(10, 10, 3, 8, 2, 9, 11)) by (nonlinear_arith);
        lemma_chord_entry(10, 10, 3, 8, 2, 9, 11);
    }
}

/// Row 14 of the addition table.
#[verifier::rlimit(40)]
proof fn lemma_table_row_14(j: int)
    requires
        1 <= j < 20,
    ensures
        finite_sum(5, 1, tiny_montgomery_x(j), tiny_montgomery_y(j), 14 == j)
            == tiny_montgomery_point(index_sum(14, j)),
{
    if j == 1 {
        assert(chord_entry_ok(5, 1, 3, 5, 1, 4, 6)) by (nonlinear_arith);
        lemma_chord_entry(5, 1, 3, 5, 1, 4, 6);
    } else if j == 2 {
        assert(chord_entry_ok(5, 1, 7, 1, 8, 12, 7)) by (nonlinear_arith);
        lemma_chord_entry(5, 1, 7, 1, 8, 12, 7);
    } else if j == 3 {
        assert(chord_entry_ok(5, 1, 4, 9, 4, 4, 12)) by (nonlinear_arith);
        lemma_chord_entry(5, 1, 4, 9, 4, 4, 12);
    } else if j == 4 {
        assert(chord_entry_ok(5, 1, 8, 1, 7, 12, 9)) by (nonlinear_arith);
        lemma_chord_entry(5, 1, 8, 1, 7, 12, 9);
    } else if j == 5 {
        assert(chord_entry_ok(5, 1, 1, 9, 3, 8, 3)) by (nonlinear_arith);
        lemma_chord_entry(5, 1, 1, 9, 3, 8, 3);
    } else if j == 6 {
        assert(inverse_pair(5, 1, 5, 12)) by (nonlinear_arith);
    } else if j == 7 {
        assert(chord_entry_ok(5, 1, 10, 3, 3, 5, 8)) by (nonlinear_arith);
        lemma_chord_entry(5, 1, 10, 3, 3, 5, 8);
    } else if j == 8 {
        assert(chord_entry_ok(5, 1, 2, 4, 7, 1, 4)) by (nonlinear_arith);
        lemma_chord_entry(5, 1, 2, 4, 7, 1, 4);
    } else if j == 9 {
        assert(chord_entry_ok(5, 1, 9, 2, 4, 9, 10)) by (nonlinear_arith);
        lemma_chord_entry(5, 1, 9, 2, 4, 9, 10);
    } else if j == 10 {
        assert(chord_entry_ok(5, 1, 0, 0, 8, 1, 5)) by (nonlinear_arith);
        lemma_chord_entry(5, 1, 0, 0, 8, 1, 5);
    } else if j == 11 {
        assert(chord_entry_ok(5, 1, 9, 11, 1, 9, 10)) by (nonlinear_arith);
        lemma_chord_entry(5, 1, 9, 11, 1, 9, 10);
    } else if j == 12 {
        assert(chord_entry_ok(5, 1, 2, 9, 5, 12, 4)) by (nonlinear_arith);
        lemma_chord_entry(5, 1, 2, 9, 5, 12, 4);
    } else if j == 13 {
        assert(chord_entry_ok(5, 1, 10, 10, 10, 3, 8)) by (nonlinear_arith);
        lemma_chord_entry(5, 1, 10, 10, 10, 3, 8);
    } else if j == 14 {
        assert(tangent_entry_ok(5, 1, 2, 4, 1)) by (nonlinear_arith);
        lemma_tangent_entry(5, 1, 2, 4, 1);
    } else if j == 15 {
        assert(chord_entry_ok(5, 1, 1, 4, 9, 2, 3)) by (nonlinear_arith);
        lemma_chord_entry(5, 1, 1, 4, 9, 2, 3);
    } else if j == 16 {
        assert(chord_entry_ok(5, 1, 8, 12, 0, 0, 9)) by (nonlinear_arith);
        lemma_chord_entry(5, 1, 8, 12, 0, 0, 9);
    } else if j == 17 {
        assert(chord_entry_ok(5, 1, 4, 4, 9, 11, 12)) by (nonlinear_arith);
        lemma_chord_entry(5, 1, 4, 4, 9, 11, 12);
    } else if j == 18 {
        assert(chord_entry_ok(5, 1, 7, 12, 2, 9, 7)) by (nonlinear_arith);
        lemma_chord_entry(5, 1, 7, 12, 2, 9, 7);
    } else {
        assert(j == 19);
        assert(chord_entry_ok(5, 1, 3, 8, 10, 10, 6)) by (nonlinear_arith);
        lemma_chord_entry(5, 1, 3, 8, 10, 10, 6);
    }
}

/// Row 15 of the addition table.
#[verifier::rlimit(40)]
proof fn lemma_table_row_15(j: int)
    requires
        1 <= j < 20,
    ensures
        finite_sum(1, 4, tiny_montgomery_x(j), tiny_montgomery_y(j), 15 == j)
            == tiny_montgomery_point(index_sum(15, j)),
{
    if j == 1 {
        assert(chord_entry_ok(1, 4, 3, 5, 8, 12, 7)) by (nonlinear_arith);
        lemma_chord_entry(1, 4, 3, 5, 8, 12, 7);
    } else if j == 2 {
        assert(chord_entry_ok(1, 4, 7, 1, 4, 4, 11)) by (nonlinear_arith);
        lemma_chord_entry(1, 4, 7, 1, 4, 4, 11);
    } else if j == 3 {
        assert(chord_entry_ok(1, 4, 4, 9, 7, 12, 9)) by (nonlinear_arith);
        lemma_chord_entry(1, 4, 4, 9, 7, 12, 9);
    } else if j == 4 {
        assert(chord_entry_ok(1, 4, 8, 1, 3, 8, 2)) by (nonlinear_arith);
        lemma_chord_entry(1, 4, 8, 1, 3, 8, 2);
    } else if j == 5 {
        assert(inverse_pair(1, 4, 1, 9)) by (nonlinear_arith);
    } else if j == 6 {
        assert(chord_entry_ok(1, 4, 5, 12, 3, 5, 10)) by (nonlinear_arith);
        lemma_chord_entry(1, 4, 5, 12, 3, 5, 10);
    } else if j == 7 {
        assert(chord_entry_ok(1, 4, 10, 3, 7, 1, 3)) by (nonlinear_arith);
        lemma_chord_entry(1, 4, 10, 3, 7, 1, 3);
    } else if j == 8 {
        assert(chord_entry_ok(1, 4, 2, 4, 4, 9, 1)) by (nonlinear_arith);
        lemma_chord_entry(1, 4, 2, 4, 4, 9, 1);
    } else if j == 9 {
        assert(chord_entry_ok(1, 4, 9, 2, 8, 1, 5)) by (nonlinear_arith);
        lemma_chord_entry(1, 4, 9, 2, 8, 1, 5);
    } else if j == 10 {
        assert(chord_entry_ok(1, 4, 0, 0, 1, 9, 12)) by (nonlinear_arith);
        lemma_chord_entry(1, 4, 0, 0, 1, 9, 12);
    } else if j == 11 {
        assert(chord_entry_ok(1, 4, 9, 11, 5, 12, 5)) by (nonlinear_arith);
        lemma_chord_entry(1, 4, 9, 11, 5, 12, 5);
    } else if j == 12 {
        assert(chord_entry_ok(1, 4, 2, 9, 10, 3, 1)) by (nonlinear_arith);
        lemma_chord_entry(1, 4, 2, 9, 10, 3, 1);
    } else if j == 13 {
        assert(chord_entry_ok(1, 4, 10, 10, 2, 4, 3)) by (nonlinear_arith);
        lemma_chord_entry(1, 4, 10, 10, 2, 4, 3);
    } else if j == 14 {
        assert(chord_entry_ok(1, 4, 5, 1, 9, 2, 10)) by (nonlinear_arith);
        lemma_chord_entry(1, 4, 5, 1, 9, 2, 10);
    } else if j == 15 {
        assert(tangent_entry_ok(1, 4, 0, 0, 10)) by (nonlinear_arith);
        lemma_tangent_entry(1, 4, 0, 0, 10);
    } else if j == 16 {
        assert(chord_entry_ok(1, 4, 8, 12, 9, 11, 2)) by (nonlinear_arith);
        lemma_chord_entry(1, 4, 8, 12, 9, 11, 2);
    } else if j == 17 {
        assert(chord_entry_ok(1, 4, 4, 4, 2, 9, 9)) by (nonlinear_arith);
        lemma_chord_entry(1, 4, 4, 4, 2, 9, 9);
    } else if j == 18 {
        assert(chord_entry_ok(1, 4, 7, 12, 10, 10, 11)) by (nonlinear_arith);
        lemma_chord_entry(1, 4, 7, 12, 10, 10, 11);
    } else {
        assert(j == 19);
        assert(chord_entry_ok(1, 4, 3, 8, 5, 1, 7)) by (nonlinear_arith);
        lemma_chord_entry(1, 4, 3, 8, 5, 1, 7);
    }
}

/// Row 16 of the addition table.
#[verifier::rlimit(40)]
proof fn lemma_table_row_16(j: int)
    requires
        1 <= j < 20,
    ensures
        finite_sum(8, 12, tiny_montgomery_x(j), tiny_montgomery_y(j), 16 == j)
            == tiny_montgomery_point(index_sum(16, j)),
{
    if j == 1 {
        assert(chord_entry_ok(8, 12, 3, 5, 4, 4, 5)) by (nonlinear_arith);
        lemma_chord_entry(8, 12, 3, 5, 4, 4, 5);
    } else if j == 2 {
        assert(chord_entry_ok(8, 12, 7, 1, 7, 12, 12)) by (nonlinear_arith);
        lemma_chord_entry(8, 12, 7, 1, 7, 12, 12);
    } else if j == 3 {
        assert(chord_entry_ok(8, 12, 4, 9, 3, 8, 3)) by (nonlinear_arith);
        lemma_chord_entry(8, 12, 4, 9, 3, 8, 3);
    } else if j == 4 {
        assert(inverse_pair(8, 12, 8, 1)) by (nonlinear_arith);
    } else if j == 5 {
        assert(chord_entry_ok(8, 12, 1, 9, 3, 5, 11)) by (nonlinear_arith);
        lemma_chord_entry(8, 12, 1, 9, 3, 5, 11);
    } else if j == 6 {
        assert(chord_entry_ok(8, 12, 5, 12, 7, 1, 4)) by (nonlinear_arith);
        lemma_chord_entry(8, 12, 5, 12, 7, 1, 4);
    } else if j == 7 {
        assert(chord_entry_ok(8, 12, 10, 3, 4, 9, 7)) by (nonlinear_arith);
        lemma_chord_entry(8, 12, 10, 3, 4, 9, 7);
    } else if j == 8 {
        assert(chord_entry_ok(8, 12, 2, 4, 8, 1, 2)) by (nonlinear_arith);
        lemma_chord_entry(8, 12, 2, 4, 8, 1, 2);
    } else if j == 9 {
        assert(chord_entry_ok(8, 12, 9, 2, 1, 9, 1)) by (nonlinear_arith);
        lemma_chord_entry(8, 12, 9, 2, 1, 9, 1);
    } else if j == 10 {
        assert(chord_entry_ok(8, 12, 0, 0, 5, 12, 8)) by (nonlinear_arith);
        lemma_chord_entry(8, 12, 0, 0, 5, 12, 8);
    } else if j == 11 {
        assert(chord_entry_ok(8, 12, 9, 11, 10, 3, 1)) by (nonlinear_arith);
        lemma_chord_entry(8, 12, 9, 11, 10, 3, 1);
    } else if j == 12 {
        assert(chord_entry_ok(8, 12, 2, 9, 2, 4, 2)) by (nonlinear_arith);
        lemma_chord_entry(8, 12, 2, 9, 2, 4, 2);
    } else if j == 13 {
        assert(chord_entry_ok(8, 12, 10, 10, 9, 2, 7)) by (nonlinear_arith);
        lemma_chord_entry(8, 12, 10, 10, 9, 2, 7);
    } else if j == 14 {
        assert(chord_entry_ok(8, 12, 5, 1, 0, 0, 4)) by (nonlinear_arith);
        lemma_chord_entry(8, 12, 5, 1, 0, 0, 4);
    } else if j == 15 {
        assert(chord_entry_ok(8, 12, 1, 4, 9, 11, 11)) by (nonlinear_arith);
        lemma_chord_entry(8, 12, 1, 4, 9, 11, 11);
    } else if j == 16 {
        assert(tangent_entry_ok(8, 12, 2, 9, 12)) by (nonlinear_arith);
        lemma_tangent_entry(8, 12, 2, 9, 12);
    } else if j == 17 {
        assert(chord_entry_ok(8, 12, 4, 4, 10, 10, 3)) by (nonlinear_arith);
        lemma_chord_entry(8, 12, 4, 4, 10, 10, 3);
    } else if j == 18 {
        assert(chord_entry_ok(8, 12, 7, 12, 5, 1, 12)) by (nonlinear_arith);
        lemma_chord_entry(8, 12, 7, 12, 5, 1, 12);
    } else {
        assert(j == 19);
        assert(chord_entry_ok(8, 12, 3, 8, 1, 4, 5)) by (nonlinear_arith);
        lemma_chord_entry(8, 12, 3, 8, 1, 4, 5);
    }
}

/// Row 17 of the addition table.
#[verifier::rlimit(40)]
proof fn lemma_table_row_17(j: int)
    requires
        1 <= j < 20,
    ensures
        finite_sum(4, 4, tiny_montgomery_x(j), tiny_montgomery_y(j), 17 == j)
            == tiny_montgomery_point(index_sum(17, j)),
{
    if j == 1 {
        assert(chord_entry_ok(4, 4, 3, 5, 7, 12, 12)) by (nonlinear_arith);
        lemma_chord_entry(4, 4, 3, 5, 7, 12, 12);
    } else if j == 2 {
        assert(chord_entry_ok(4, 4, 7, 1, 3, 8, 9)) by (nonlinear_arith);
        lemma_chord_entry(4, 4, 7, 1, 3, 8, 9);
    } else if j == 3 {
        assert(inverse_pair(4, 4, 4, 9)) by (nonlinear_arith);
    } else if j == 4 {
        assert(chord_entry_ok(4, 4, 8, 1, 3, 5, 10)) by (nonlinear_arith);
        lemma_chord_entry(4, 4, 8, 1, 3, 5, 10);
    } else if j == 5 {
        assert(chord_entry_ok(4, 4, 1, 9, 7, 1, 4)) by (nonlinear_arith);
        lemma_chord_entry(4, 4, 1, 9, 7, 1, 4);
    } else if j == 6 {
        assert(chord_entry_ok(4, 4, 5, 12, 4, 9, 1)) by (nonlinear_arith);
        lemma_chord_entry(4, 4, 5, 12, 4, 9, 1);
    } else if j == 7 {
        assert(chord_entry_ok(4, 4, 10, 3, 8, 1, 11)) by (nonlinear_arith);
        lemma_chord_entry(4, 4, 10, 3, 8, 1, 11);
    } else if j == 8 {
        assert(chord_entry_ok(4, 4, 2, 4, 1, 9, 6)) by (nonlinear_arith);
        lemma_chord_entry(4, 4, 2, 4, 1, 9, 6);
    } else if j == 9 {
        assert(chord_entry_ok(4, 4, 9, 2, 5, 12, 8)) by (nonlinear_arith);
        lemma_chord_entry(4, 4, 9, 2, 5, 12, 8);
    } else if j == 10 {
        assert(chord_entry_ok(4, 4, 0, 0, 10, 3, 3)) by (nonlinear_arith);
        lemma_chord_entry(4, 4, 0, 0, 10, 3, 3);
    } else if j == 11 {
        assert(chord_entry_ok(4, 4, 9, 11, 2, 4, 8)) by (nonlinear_arith);
        lemma_chord_entry(4, 4, 9, 11, 2, 4, 8);
    } else if j == 12 {
        assert(chord_entry_ok(4, 4, 2, 9, 9, 2, 6)) by (nonlinear_arith);
        lemma_chord_entry(4, 4, 2, 9, 9, 2, 6);
    } else if j == 13 {
        assert(chord_entry_ok(4, 4, 10, 10, 0, 0, 11)) by (nonlinear_arith);
        lemma_chord_entry(4, 4, 10, 10, 0, 0, 11);
    } else if j == 14 {
        assert(chord_entry_ok(4, 4, 5, 1, 9, 11, 1)) by (nonlinear_arith);
        lemma_chord_entry(4, 4, 5, 1, 9, 11, 1);
    } else if j == 15 {
        assert(chord_entry_ok(4, 4, 1, 4, 2, 9, 4)) by (nonlinear_arith);
        lemma_chord_entry(4, 4, 1, 4, 2, 9, 4);
    } else if j == 16 {
        assert(chord_entry_ok(4, 4, 8, 12, 10, 10, 10)) by (nonlinear_arith);
        lemma_chord_entry(4, 4, 8, 12, 10, 10, 10);
    } else if j == 17 {
        assert(tangent_entry_ok(4, 4, 5, 1, 10)) by (nonlinear_arith);
        lemma_tangent_entry(4, 4, 5, 1, 10);
    } else if j == 18 {
        assert(chord_entry_ok(4, 4, 7, 12, 1, 4, 9)) by (nonlinear_arith);
        lemma_chord_entry(4, 4, 7, 12, 1, 4, 9);
    } else {
        assert(j == 19);
        assert(chord_entry_ok(4, 4, 3, 8, 8, 12, 12)) by (nonlinear_arith);
        lemma_chord_entry(4, 4, 3, 8, 8, 12, 12);
    }
}

/// Row 18 of the addition table.
#[verifier::rlimit(40)]
proof fn lemma_table_row_18(j: int)
    requires
        1 <= j < 20,
    ensures
        finite_sum(7, 12, tiny_montgomery_x(j), tiny_montgomery_y(j), 18 == j)
            == tiny_montgomery_point(index_sum(18, j)),
{
    if j == 1 {
        assert(chord_entry_ok(7, 12, 3, 5, 3, 8, 3)) by (nonlinear_arith);
        lemma_chord_entry(7, 12, 3, 5, 3, 8, 3);
    } else if j == 2 {
        assert(inverse_pair(7, 12, 7, 1)) by (nonlinear_arith);
    } else if j == 3 {
        assert(chord_entry_ok(7, 12, 4, 9, 3, 5, 4)) by (nonlinear_arith);
        lemma_chord_entry(7, 12, 4, 9, 3, 5, 4);
    } else if j == 4 {
        assert(chord_entry_ok(7, 12, 8, 1, 7, 1, 1)) by (nonlinear_arith);
        lemma_chord_entry(7, 12, 8, 1, 7, 1, 1);
    } else if j == 5 {
        assert(chord_entry_ok(7, 12, 1, 9, 4, 9, 2)) by (nonlinear_arith);
        lemma_chord_entry(7, 12, 1, 9, 4, 9, 2);
    } else if j == 6 {
        assert(chord_entry_ok(7, 12, 5, 12, 8, 1, 6)) by (nonlinear_arith);
        lemma_chord_entry(7, 12, 5, 12, 8, 1, 6);
    } else if j == 7 {
        assert(chord_entry_ok(7, 12, 10, 3, 1, 9, 9)) by (nonlinear_arith);
        lemma_chord_entry(7, 12, 10, 3, 1, 9, 9);
    } else if j == 8 {
        assert(chord_entry_ok(7, 12, 2, 4, 5, 12, 5)) by (nonlinear_arith);
        lemma_chord_entry(7, 12, 2, 4, 5, 12, 5);
    } else if j == 9 {
        assert(chord_entry_ok(7, 12, 9, 2, 10, 3, 7)) by (nonlinear_arith);
        lemma_chord_entry(7, 12, 9, 2, 10, 3, 7);
    } else if j == 10 {
        assert(chord_entry_ok(7, 12, 0, 0, 2, 4, 11)) by (nonlinear_arith);
        lemma_chord_entry(7, 12, 0, 0, 2, 4, 11);
    } else if j == 11 {
        assert(chord_entry_ok(7, 12, 9, 11, 9, 2, 7)) by (nonlinear_arith);
        lemma_chord_entry(7, 12, 9, 11, 9, 2, 7);
    } else if j == 12 {
        assert(chord_entry_ok(7, 12, 2, 9, 0, 0, 5)) by (nonlinear_arith);
        lemma_chord_entry(7, 12, 2, 9, 0, 0, 5);
    } else if j == 13 {
        assert(chord_entry_ok(7, 12, 10, 10, 9, 11, 9)) by (nonlinear_arith);
        lemma_chord_entry(7, 12, 10, 10, 9, 11, 9);
    } else if j == 14 {
        assert(chord_entry_ok(7, 12, 5, 1, 2, 9, 6)) by (nonlinear_arith);
        lemma_chord_entry(7, 12, 5, 1, 2, 9, 6);
    } else if j == 15 {
        assert(chord_entry_ok(7, 12, 1, 4, 10, 10, 2)) by (nonlinear_arith);
        lemma_chord_entry(7, 12, 1, 4, 10, 10, 2);
    } else if j == 16 {
        assert(chord_entry_ok(7, 12, 8, 12, 5, 1, 1)) by (nonlinear_arith);
        lemma_chord_entry(7, 12, 8, 12, 5, 1, 1);
    } else if j == 17 {
        assert(chord_entry_ok(7, 12, 4, 4, 1, 4, 4)) by (nonlinear_arith);
        lemma_chord_entry(7, 12, 4, 4, 1, 4, 4);
    } else if j == 18 {
        assert(tangent_entry_ok(7, 12, 8, 12, 12)) by (nonlinear_arith);
        lemma_tangent_entry(7, 12, 8, 12, 12);
    } else {
        assert(j == 19);
        assert(chord_entry_ok(7, 12, 3, 8, 4, 4, 3)) by (nonlinear_arith);
        lemma_chord_entry(7, 12, 3, 8, 4, 4, 3);
    }
}

/// Row 19 of the addition table.
#[verifier::rlimit(40)]
proof fn lemma_table_row_19(j: int)
    requires
        1 <= j < 20,
    ensures
        finite_sum(3, 8, tiny_montgomery_x(j), tiny_montgomery_y(j), 19 == j)
            == tiny_montgomery_point(index_sum(19, j)),
{
    if j == 1 {
        assert(inverse_pair(3, 8, 3, 5)) by (nonlinear_arith);
    } else if j == 2 {
        assert(chord_entry_ok(3, 8, 7, 1, 3, 5, 10)) by (nonlinear_arith);
        lemma_chord_entry(3, 8, 7, 1, 3, 5, 10);
    } else if j == 3 {
        assert(chord_entry_ok(3, 8, 4, 9, 7, 1, 1)) by (nonlinear_arith);
        lemma_chord_entry(3, 8, 4, 9, 7, 1, 1);
    } else if j == 4 {
        assert(chord_entry_ok(3, 8, 8, 1, 4, 9, 8)) by (nonlinear_arith);
        lemma_chord_entry(3, 8, 8, 1, 4, 9, 8);
    } else if j == 5 {
        assert(chord_entry_ok(3, 8, 1, 9, 8, 1, 6)) by (nonlinear_arith);
        lemma_chord_entry(3, 8, 1, 9, 8, 1, 6);
    } else if j == 6 {
        assert(chord_entry_ok(3, 8, 5, 12, 1, 9, 7)) by (nonlinear_arith);
        lemma_chord_entry(3, 8, 5, 12, 1, 9, 7);
    } else if j == 7 {
        assert(chord_entry_ok(3, 8, 10, 3, 5, 12, 2)) by (nonlinear_arith);
        lemma_chord_entry(3, 8, 10, 3, 5, 12, 2);
    } else if j == 8 {
        assert(chord_entry_ok(3, 8, 2, 4, 10, 3, 12)) by (nonlinear_arith);
        lemma_chord_entry(3, 8, 2, 4, 10, 3, 12);
    } else if j == 9 {
        assert(chord_entry_ok(3, 8, 9, 2, 2, 4, 11)) by (nonlinear_arith);
        lemma_chord_entry(3, 8, 9, 2, 2, 4, 11);
    } else if j == 10 {
        assert(chord_entry_ok(3, 8, 0, 0, 9, 2, 4)) by (nonlinear_arith);
        lemma_chord_entry(3, 8, 0, 0, 9, 2, 4);
    } else if j == 11 {
        assert(chord_entry_ok(3, 8, 9, 11, 0, 0, 11)) by (nonlinear_arith);
        lemma_chord_entry(3, 8, 9, 11, 0, 0, 11);
    } else if j == 12 {
        assert(chord_entry_ok(3, 8, 2, 9, 9, 11, 12)) by (nonlinear_arith);
        lemma_chord_entry(3, 8, 2, 9, 9, 11, 12);
    } else if j == 13 {
        assert(chord_entry_ok(3, 8, 10, 10, 2, 9, 2)) by (nonlinear_arith);
        lemma_chord_entry(3, 8, 10, 10, 2, 9, 2);
    } else if j == 14 {
        assert(chord_entry_ok(3, 8, 5, 1, 10, 10, 7)) by (nonlinear_arith);
        lemma_chord_entry(3, 8, 5, 1, 10, 10, 7);
    } else if j == 15 {
        assert(chord_entry_ok(3, 8, 1, 4, 5, 1, 6)) by (nonlinear_arith);
        lemma_chord_entry(3, 8, 1, 4, 5, 1, 6);
    } else if j == 16 {
        assert(chord_entry_ok(3, 8, 8, 12, 1, 4, 8)) by (nonlinear_arith);
        lemma_chord_entry(3, 8, 8, 12, 1, 4, 8);
    } else if j == 17 {
        assert(chord_entry_ok(3, 8, 4, 4, 8, 12, 1)) by (nonlinear_arith);
        lemma_chord_entry(3, 8, 4, 4, 8, 12, 1);
    } else if j == 18 {
        assert(chord_entry_ok(3, 8, 7, 12, 4, 4, 10)) by (nonlinear_arith);
        lemma_chord_entry(3, 8, 7, 12, 4, 4, 10);
    } else {
        assert(j == 19);
        assert(tangent_entry_ok(3, 8, 7, 12, 5)) by (nonlinear_arith);
        lemma_tangent_entry(3, 8, 7, 12, 5);
    }
}

/// Every entry of the addition table of finite points holds.
proof fn lemma_table_entry(i: int, j: int)
    requires
        1 <= i < 20,
        1 <= j < 20,
    ensures
        finite_sum(
            tiny_montgomery_x(i),
            tiny_montgomery_y(i),
            tiny_montgomery_x(j),
            tiny_montgomery_y(j),
            i == j,
        ) == tiny_montgomery_point(index_sum(i, j)),
{
    if i == 1 {
        lemma_table_row_1(j);
    } else if i == 2 {
        lemma_table_row_2(j);
    } else if i == 3 {
        lemma_table_row_3(j);
    } else if i == 4 {
        lemma_table_row_4(j);
    } else if i == 5 {
        lemma_table_row_5(j);
    } else if i == 6 {
        lemma_table_row_6(j);
    } else if i == 7 {
        lemma_table_row_7(j);
    } else if i == 8 {
        lemma_table_row_8(j);
    } else if i == 9 {
        lemma_table_row_9(j);
    } else if i == 10 {
        lemma_table_row_10(j);
    } else if i == 11 {
        lemma_table_row_11(j);
    } else if i == 12 {
        lemma_table_row_12(j);
    } else if i == 13 {
        lemma_table_row_13(j);
    } else if i == 14 {
        lemma_table_row_14(j);
    } else if i == 15 {
        lemma_table_row_15(j);
    } else if i == 16 {
        lemma_table_row_16(j);
    } else if i == 17 {
        lemma_table_row_17(j);
    } else if i == 18 {
        lemma_table_row_18(j);
    } else {
        assert(i == 19);
        lemma_table_row_19(j);
    }
}

/// The points of the curve with `x = 0` are listed.
proof fn lemma_listed_column_0(y: int)
    requires
        0 <= y < 13,
        montgomery_affine_on_curve(6, 7, 0, y, 13),
    ensures
        1 <= tiny_montgomery_index(0, y) < 20,
        tiny_montgomery_point(tiny_montgomery_index(0, y)) == (0int, y, 1int),
{
    if y == 0 {
    } else if y == 1 {
        assert(!montgomery_affine_on_curve(6, 7, 0, 1, 13)) by (nonlinear_arith);
    } else if y == 2 {
        assert(!montgomery_affine_on_curve(6, 7, 0, 2, 13)) by (nonlinear_arith);
    } else if y == 3 {
        assert(!montgomery_affine_on_curve(6, 7, 0, 3, 13)) by (nonlinear_arith);
    } else if y == 4 {
        assert(!montgomery_affine_on_curve(6, 7, 0, 4, 13)) by (nonlinear_arith);
    } else if y == 5 {
        assert(!montgomery_affine_on_curve(6, 7, 0, 5, 13)) by (nonlinear_arith);
    } else if y == 6 {
        assert(!montgomery_affine_on_curve(6, 7, 0, 6, 13)) by (nonlinear_arith);
    } else if y == 7 {
        assert(!montgomery_affine_on_curve(6, 7, 0, 7, 13)) by (nonlinear_arith);
    } else if y == 8 {
        assert(!montgomery_affine_on_curve(6, 7, 0, 8, 13)) by (nonlinear_arith);
    } else if y == 9 {
        assert(!montgomery_affine_on_curve(6, 7, 0, 9, 13)) by (nonlinear_arith);
    } else if y == 10 {
        assert(!montgomery_affine_on_curve(6, 7, 0, 10, 13)) by (nonlinear_arith);
    } else if y == 11 {
        assert(!montgomery_affine_on_curve(6, 7, 0, 11, 13)) by (nonlinear_arith);
    } else {
        assert(y == 12);
        assert(!montgomery_affine_on_curve(6, 7, 0, 12, 13)) by (nonlinear_arith);
    }
}

/// The points of the curve with `x = 1` are listed.
proof fn lemma_listed_column_1(y: int)
    requires
        0 <= y < 13,
        montgomery_affine_on_curve(6, 7, 1, y, 13),
    ensures
        1 <= tiny_montgomery_index(1, y) < 20,
        tiny_montgomery_point(tiny_montgomery_index(1, y)) == (1int, y, 1int),
{
    if y == 0 {
        assert(!montgomery_affine_on_curve(6, 7, 1, 0, 13)) by (nonlinear_arith);
    } else if y == 1 {
        assert(!montgomery_affine_on_curve(6, 7, 1, 1, 13)) by (nonlinear_arith);
    } else if y == 2 {
        assert(!montgomery_affine_on_curve(6, 7, 1, 2, 13)) by (nonlinear_arith);
    } else if y == 3 {
        assert(!montgomery_affine_on_curve(6, 7, 1, 3, 13)) by (nonlinear_arith);
    } else if y == 4 {
    } else if y == 5 {
        assert(!montgomery_affine_on_curve(6, 7, 1, 5, 13)) by (nonlinear_arith);
    } else if y == 6 {
        assert(!montgomery_affine_on_curve(6, 7, 1, 6, 13)) by (nonlinear_arith);
    } else if y == 7 {
        assert(!montgomery_affine_on_curve(6, 7, 1, 7, 13)) by (nonlinear_arith);
    } else if y == 8 {
        assert(!montgomery_affine_on_curve(6, 7, 1, 8, 13)) by (nonlinear_arith);
    } else if y == 9 {
    } else if y == 10 {
        assert(!montgomery_affine_on_curve(6, 7, 1, 10, 13)) by (nonlinear_arith);
    } else if y == 11 {
        assert(!montgomery_affine_on_curve(6, 7, 1, 11, 13)) by (nonlinear_arith);
    } else {
        assert(y == 12);
        assert(!montgomery_affine_on_curve(6, 7, 1, 12, 13)) by (nonlinear_arith);
    }
}

/// The points of the curve with `x = 2` are listed.
proof fn lemma_listed_column_2(y: int)
    requires
        0 <= y < 13,
        montgomery_affine_on_curve(6, 7, 2, y, 13),
    ensures
        1 <= tiny_montgomery_index(2, y) < 20,
        tiny_montgomery_point(tiny_montgomery_index(2, y)) == (2int, y, 1int),
{
    if y == 0 {
        assert(!montgomery_affine_on_curve(6, 7, 2, 0, 13)) by (nonlinear_arith);
    } else if y == 1 {
        assert(!montgomery_affine_on_curve(6, 7, 2, 1, 13)) by (nonlinear_arith);
    } else if y == 2 {
        assert(!montgomery_affine_on_curve(6, 7, 2, 2, 13)) by (nonlinear_arith);
    } else if y == 3 {
        assert(!montgomery_affine_on_curve(6, 7, 2, 3, 13)) by (nonlinear_arith);
    } else if y == 4 {
    } else if y == 5 {
        assert(!montgomery_affine_on_curve(6, 7, 2, 5, 13)) by (nonlinear_arith);
    } else if y == 6 {
        assert(!montgomery_affine_on_curve(6, 7, 2, 6, 13)) by (nonlinear_arith);
    } else if y == 7 {
        assert(!montgomery_affine_on_curve(6, 7, 2, 7, 13)) by (nonlinear_arith);
    } else if y == 8 {
        assert(!montgomery_affine_on_curve(6, 7, 2, 8, 13)) by (nonlinear_arith);
    } else if y == 9 {
    } else if y == 10 {
        assert(!montgomery_affine_on_curve(6, 7, 2, 10, 13)) by (nonlinear_arith);
    } else if y == 11 {
        assert(!montgomery_affine_on_curve(6, 7, 2, 11, 13)) by (nonlinear_arith);
    } else {
        assert(y == 12);
        assert(!montgomery_affine_on_curve(6, 7, 2, 12, 13)) by (nonlinear_arith);
    }
}

/// The points of the curve with `x = 3` are listed.
proof fn lemma_listed_column_3(y: int)
    requires
        0 <= y < 13,
        montgomery_affine_on_curve(6, 7, 3, y, 13),
    ensures
        1 <= tiny_montgomery_index(3, y) < 20,
        tiny_montgomery_point(tiny_montgomery_index(3, y)) == (3int, y, 1int),
{
    if y == 0 {
        assert(!montgomery_affine_on_curve(6, 7, 3, 0, 13)) by (nonlinear_arith);
    } else if y == 1 {
        assert(!montgomery_affine_on_curve(6, 7, 3, 1, 13)) by (nonlinear_arith);
    } else if y == 2 {
        assert(!montgomery_affine_on_curve(6, 7, 3, 2, 13)) by (nonlinear_arith);
    } else if y == 3 {
        assert(!montgomery_affine_on_curve(6, 7, 3, 3, 13)) by (nonlinear_arith);
    } else if y == 4 {
        assert(!montgomery_affine_on_curve(6, 7, 3, 4, 13)) by (nonlinear_arith);
    } else if y == 5 {
    } else if y == 6 {
        assert(!montgomery_affine_on_curve(6, 7, 3, 6, 13)) by (nonlinear_arith);
    } else if y == 7 {
        assert(!montgomery_affine_on_curve(6, 7, 3, 7, 13)) by (nonlinear_arith);
    } else if y == 8 {
    } else if y == 9 {
        assert(!montgomery_affine_on_curve(6, 7, 3, 9, 13)) by (nonlinear_arith);
    } else if y == 10 {
        assert(!montgomery_affine_on_curve(6, 7, 3, 10, 13)) by (nonlinear_arith);
    } else if y == 11 {
        assert(!montgomery_affine_on_curve(6, 7, 3, 11, 13)) by (nonlinear_arith);
    } else {
        assert(y == 12);
        assert(!montgomery_affine_on_curve(6, 7, 3, 12, 13)) by (nonlinear_arith);
    }
}

/// The points of the curve with `x = 4` are listed.
proof fn lemma_listed_column_4(y: int)
    requires
        0 <= y < 13,
        montgomery_affine_on_curve(6, 7, 4, y, 13),
    ensures
        1 <= tiny_montgomery_index(4, y) < 20,
        tiny_montgomery_point(tiny_montgomery_index(4, y)) == (4int, y, 1int),
{
    if y == 0 {
        assert(!montgomery_affine_on_curve(6, 7, 4, 0, 13)) by (nonlinear_arith);
    } else if y == 1 {
        assert(!montgomery_affine_on_curve(6, 7, 4, 1, 13)) by (nonlinear_arith);
    } else if y == 2 {
        assert(!montgomery_affine_on_curve(6, 7, 4, 2, 13)) by (nonlinear_arith);
    } else if y == 3 {
        assert(!montgomery_affine_on_curve(6, 7, 4, 3, 13)) by (nonlinear_arith);
    } else if y == 4 {
    } else if y == 5 {
        assert(!montgomery_affine_on_curve(6, 7, 4, 5, 13)) by (nonlinear_arith);
    } else if y == 6 {
        assert(!montgomery_affine_on_curve(6, 7, 4, 6, 13)) by (nonlinear_arith);
    } else if y == 7 {
        assert(!montgomery_affine_on_curve(6, 7, 4, 7, 13)) by (nonlinear_arith);
    } else if y == 8 {
        assert(!montgomery_affine_on_curve(6, 7, 4, 8, 13)) by (nonlinear_arith);
    } else if y == 9 {
    } else if y == 10 {
        assert(!montgomery_affine_on_curve(6, 7, 4, 10, 13)) by (nonlinear_arith);
    } else if y == 11 {
        assert(!montgomery_affine_on_curve(6, 7, 4, 11, 13)) by (nonlinear_arith);
    } else {
        assert(y == 12);
        assert(!montgomery_affine_on_curve(6, 7, 4, 12, 13)) by (nonlinear_arith);
    }
}

/// The points of the curve with `x = 5` are listed.
proof fn lemma_listed_column_5(y: int)
    requires
        0 <= y < 13,
        montgomery_affine_on_curve(6, 7, 5, y, 13),
    ensures
        1 <= tiny_montgomery_index(5, y) < 20,
        tiny_montgomery_point(tiny_montgomery_index(5, y)) == (5int, y, 1int),
{
    if y == 0 {
        assert(!montgomery_affine_on_curve(6, 7, 5, 0, 13)) by (nonlinear_arith);
    } else if y == 1 {
    } else if y == 2 {
        assert(!montgomery_affine_on_curve(6, 7, 5, 2, 13)) by (nonlinear_arith);
    } else if y == 3 {
        assert(!montgomery_affine_on_curve(6, 7, 5, 3, 13)) by (nonlinear_arith);
    } else if y == 4 {
        assert(!montgomery_affine_on_curve(6, 7, 5, 4, 13)) by (nonlinear_arith);
    } else if y == 5 {
        assert(!montgomery_affine_on_curve(6, 7, 5, 5, 13)) by (nonlinear_arith);
    } else if y == 6 {
        assert(!montgomery_affine_on_curve(6, 7, 5, 6, 13)) by (nonlinear_arith);
    } else if y == 7 {
        assert(!montgomery_affine_on_curve(6, 7, 5, 7, 13)) by (nonlinear_arith);
    } else if y == 8 {
        assert(!montgomery_affine_on_curve(6, 7, 5, 8, 13)) by (nonlinear_arith);
    } else if y == 9 {
        assert(!montgomery_affine_on_curve(6, 7, 5, 9, 13)) by (nonlinear_arith);
    } else if y == 10 {
        assert(!montgomery_affine_on_curve(6, 7, 5, 10, 13)) by (nonlinear_arith);
    } else if y == 11 {
        assert(!montgomery_affine_on_curve(6, 7, 5, 11, 13)) by (nonlinear_arith);
    } else {
        assert(y == 12);
    }
}

/// The points of the curve with `x = 6` are listed.
proof fn lemma_listed_column_6(y: int)
    requires
        0 <= y < 13,
        montgomery_affine_on_curve(6, 7, 6, y, 13),
    ensures
        1 <= tiny_montgomery_index(6, y) < 20,
        tiny_montgomery_point(tiny_montgomery_index(6, y)) == (6int, y, 1int),
{
    if y == 0 {
        assert(!montgomery_affine_on_curve(6, 7, 6, 0, 13)) by (nonlinear_arith);
    } else if y == 1 {
        assert(!montgomery_affine_on_curve(6, 7, 6, 1, 13)) by (nonlinear_arith);
    } else if y == 2 {
        assert(!montgomery_affine_on_curve(6, 7, 6, 2, 13)) by (nonlinear_arith);
    } else if y == 3 {
        assert(!montgomery_affine_on_curve(6, 7, 6, 3, 13)) by (nonlinear_arith);
    } else if y == 4 {
        assert(!montgomery_affine_on_curve(6, 7, 6, 4, 13)) by (nonlinear_arith);
    } else if y == 5 {
        assert(!montgomery_affine_on_curve(6, 7, 6, 5, 13)) by (nonlinear_arith);
    } else if y == 6 {
        assert(!montgomery_affine_on_curve(6, 7, 6, 6, 13)) by (nonlinear_arith);
    } else if y == 7 {
        assert(!montgomery_affine_on_curve(6, 7, 6, 7, 13)) by (nonlinear_arith);
    } else if y == 8 {
        assert(!montgomery_affine_on_curve(6, 7, 6, 8, 13)) by (nonlinear_arith);
    } else if y == 9 {
        assert(!montgomery_affine_on_curve(6, 7, 6, 9, 13)) by (nonlinear_arith);
    } else if y == 10 {
        assert(!montgomery_affine_on_curve(6, 7, 6, 10, 13)) by (nonlinear_arith);
    } else if y == 11 {
        assert(!montgomery_affine_on_curve(6, 7, 6, 11, 13)) by (nonlinear_arith);
    } else {
        assert(y == 12);
        assert(!montgomery_affine_on_curve(6, 7, 6, 12, 13)) by (nonlinear_arith);
    }
}

/// The points of the curve with `x = 7` are listed.
proof fn lemma_listed_column_7(y: int)
    requires
        0 <= y < 13,
        montgomery_affine_on_curve(6, 7, 7, y, 13),
    ensures
        1 <= tiny_montgomery_index(7, y) < 20,
        tiny_montgomery_point(tiny_montgomery_index(7, y)) == (7int, y, 1int),
{
    if y == 0 {
        assert(!montgomery_affine_on_curve(6, 7, 7, 0, 13)) by (nonlinear_arith);
    } else if y == 1 {
    } else if y == 2 {
        assert(!montgomery_affine_on_curve(6, 7, 7, 2, 13)) by (nonlinear_arith);
    } else if y == 3 {
        assert(!montgomery_affine_on_curve(6, 7, 7, 3, 13)) by (nonlinear_arith);
    } else if y == 4 {
        assert(!montgomery_affine_on_curve(6, 7, 7, 4, 13)) by (nonlinear_arith);
    } else if y == 5 {
        assert(!montgomery_affine_on_curve(6, 7, 7, 5, 13)) by (nonlinear_arith);
    } else if y == 6 {
        assert(!montgomery_affine_on_curve(6, 7, 7, 6, 13)) by (nonlinear_arith);
    } else if y == 7 {
        assert(!montgomery_affine_on_curve(6, 7, 7, 7, 13)) by (nonlinear_arith);
    } else if y == 8 {
        assert(!montgomery_affine_on_curve(6, 7, 7, 8, 13)) by (nonlinear_arith);
    } else if y == 9 {
        assert(!montgomery_affine_on_curve(6, 7, 7, 9, 13)) by (nonlinear_arith);
    } else if y == 10 {
        assert(!montgomery_affine_on_curve(6, 7, 7, 10, 13)) by (nonlinear_arith);
    } else if y == 11 {
        assert(!montgomery_affine_on_curve(6, 7, 7, 11, 13)) by (nonlinear_arith);
    } else {
        assert(y == 12);
    }
}

/// The points of the curve with `x = 8` are listed.
proof fn lemma_listed_column_8(y: int)
    requires
        0 <= y < 13,
        montgomery_affine_on_curve(6, 7, 8, y, 13),
    ensures
        1 <= tiny_montgomery_index(8, y) < 20,
        tiny_montgomery_point(tiny_montgomery_index(8, y)) == (8int, y, 1int),
{
    if y == 0 {
        assert(!montgomery_affine_on_curve(6, 7, 8, 0, 13)) by (nonlinear_arith);
    } else if y == 1 {
    } else if y == 2 {
        assert(!montgomery_affine_on_curve(6, 7, 8, 2, 13)) by (nonlinear_arith);
    } else if y == 3 {
        assert(!montgomery_affine_on_curve(6, 7, 8, 3, 13)) by (nonlinear_arith);
    } else if y == 4 {
        assert(!montgomery_affine_on_curve(6, 7, 8, 4, 13)) by (nonlinear_arith);
    } else if y == 5 {
        assert(!montgomery_affine_on_curve(6, 7, 8, 5, 13)) by (nonlinear_arith);
    } else if y == 6 {
        assert(!montgomery_affine_on_curve(6, 7, 8, 6, 13)) by (nonlinear_arith);
    } else if y == 7 {
        assert(!montgomery_affine_on_curve(6, 7, 8, 7, 13)) by (nonlinear_arith);
    } else if y == 8 {
        assert(!montgomery_affine_on_curve(6, 7, 8, 8, 13)) by (nonlinear_arith);
    } else if y == 9 {
        assert(!montgomery_affine_on_curve(6, 7, 8, 9, 13)) by (nonlinear_arith);
    } else if y == 10 {
        assert(!montgomery_affine_on_curve(6, 7, 8, 10, 13)) by (nonlinear_arith);
    } else if y == 11 {
        assert(!montgomery_affine_on_curve(6, 7, 8, 11, 13)) by (nonlinear_arith);
    } else {
        assert(y == 12);
    }
}

/// The points of the curve with `x = 9` are listed.
proof fn lemma_listed_column_9(y: int)
    requires
        0 <= y < 13,
        montgomery_affine_on_curve(6, 7, 9, y, 13),
    ensures
        1 <= tiny_montgomery_index(9, y) < 20,
        tiny_montgomery_point(tiny_montgomery_index(9, y)) == (9int, y, 1int),
{
    if y == 0 {
        assert(!montgomery_affine_on_curve(6, 7, 9, 0, 13)) by (nonlinear_arith);
    } else if y == 1 {
        assert(!montgomery_affine_on_curve(6, 7, 9, 1, 13)) by (nonlinear_arith);
    } else if y == 2 {
    } else if y == 3 {
        assert(!montgomery_affine_on_curve(6, 7, 9, 3, 13)) by (nonlinear_arith);
    } else if y == 4 {
        assert(!montgomery_affine_on_curve(6, 7, 9, 4, 13)) by (nonlinear_arith);
    } else if y == 5 {
        assert(!montgomery_affine_on_curve(6, 7, 9, 5, 13)) by (nonlinear_arith);
    } else if y == 6 {
        assert(!montgomery_affine_on_curve(6, 7, 9, 6, 13)) by (nonlinear_arith);
    } else if y == 7 {
        assert(!montgomery_affine_on_curve(6, 7, 9, 7, 13)) by (nonlinear_arith);
    } else if y == 8 {
        assert(!montgomery_affine_on_curve(6, 7, 9, 8, 13)) by (nonlinear_arith);
    } else if y == 9 {
        assert(!montgomery_affine_on_curve(6, 7, 9, 9, 13)) by (nonlinear_arith);
    } else if y == 10 {
        assert(!montgomery_affine_on_curve(6, 7, 9, 10, 13)) by (nonlinear_arith);
    } else if y == 11 {
    } else {
        assert(y == 12);
        assert(!montgomery_affine_on_curve(6, 7, 9, 12, 13)) by (nonlinear_arith);
    }
}

/// The points of the curve with `x = 10` are listed.
proof fn lemma_listed_column_10(y: int)
    requires
        0 <= y < 13,
        montgomery_affine_on_curve(6, 7, 10, y, 13),
    ensures
        1 <= tiny_montgomery_index(10, y) < 20,
        tiny_montgomery_point(tiny_montgomery_index(10, y)) == (10int, y, 1int),
{
    if y == 0 {
        assert(!montgomery_affine_on_curve(6, 7, 10, 0, 13)) by (nonlinear_arith);
    } else if y == 1 {
        assert(!montgomery_affine_on_curve(6, 7, 10, 1, 13)) by (nonlinear_arith);
    } else if y == 2 {
        assert(!montgomery_affine_on_curve(6, 7, 10, 2, 13)) by (nonlinear_arith);
    } else if y == 3 {
    } else if y == 4 {
        assert(!montgomery_affine_on_curve(6, 7, 10, 4, 13)) by (nonlinear_arith);
    } else if y == 5 {
        assert(!montgomery_affine_on_curve(6, 7, 10, 5, 13)) by (nonlinear_arith);
    } else if y == 6 {
        assert(!montgomery_affine_on_curve(6, 7, 10, 6, 13)) by (nonlinear_arith);
    } else if y == 7 {
        assert(!montgomery_affine_on_curve(6, 7, 10, 7, 13)) by (nonlinear_arith);
    } else if y == 8 {
        assert(!montgomery_affine_on_curve(6, 7, 10, 8, 13)) by (nonlinear_arith);
    } else if y == 9 {
        assert(!montgomery_affine_on_curve(6, 7, 10, 9, 13)) by (nonlinear_arith);
    } else if y == 10 {
    } else if y == 11 {
        assert(!montgomery_affine_on_curve(6, 7, 10, 11, 13)) by (nonlinear_arith);
    } else {
        assert(y == 12);
        assert(!montgomery_affine_on_curve(6, 7, 10, 12, 13)) by (nonlinear_arith);
    }
}

/// The points of the curve with `x = 11` are listed.
proof fn lemma_listed_column_11(y: int)
    requires
        0 <= y < 13,
        montgomery_affine_on_curve(6, 7, 11, y, 13),
    ensures
        1 <= tiny_montgomery_index(11, y) < 20,
        tiny_montgomery_point(tiny_montgomery_index(11, y)) == (11int, y, 1int),
{
    if y == 0 {
        assert(!montgomery_affine_on_curve(6, 7, 11, 0, 13)) by (nonlinear_arith);
    } else if y == 1 {
        assert(!montgomery_affine_on_curve(6, 7, 11, 1, 13)) by (nonlinear_arith);
    } else if y == 2 {
        assert(!montgomery_affine_on_curve(6, 7, 11, 2, 13)) by (nonlinear_arith);
    } else if y == 3 {
        assert(!montgomery_affine_on_curve(6, 7, 11, 3, 13)) by (nonlinear_arith);
    } else if y == 4 {
        assert(!montgomery_affine_on_curve(6, 7, 11, 4, 13)) by (nonlinear_arith);
    } else if y == 5 {
        assert(!montgomery_affine_on_curve(6, 7, 11, 5, 13)) by (nonlinear_arith);
    } else if y == 6 {
        assert(!montgomery_affine_on_curve(6, 7, 11, 6, 13)) by (nonlinear_arith);
    } else if y == 7 {
        assert(!montgomery_affine_on_curve(6, 7, 11, 7, 13)) by (nonlinear_arith);
    } else if y == 8 {
        assert(!montgomery_affine_on_curve(6, 7, 11, 8, 13)) by (nonlinear_arith);
    } else if y == 9 {
        assert(!montgomery_affine_on_curve(6, 7, 11, 9, 13)) by (nonlinear_arith);
    } else if y == 10 {
        assert(!montgomery_affine_on_curve(6, 7, 11, 10, 13)) by (nonlinear_arith);
    } else if y == 11 {
        assert(!montgomery_affine_on_curve(6, 7, 11, 11, 13)) by (nonlinear_arith);
    } else {
        assert(y == 12);
        assert(!montgomery_affine_on_curve(6, 7, 11, 12, 13)) by (nonlinear_arith);
    }
}

/// The points of the curve with `x = 12` are listed.
proof fn lemma_listed_column_12(y: int)
    requires
        0 <= y < 13,
        montgomery_affine_on_curve(6, 7, 12, y, 13),
    ensures
        1 <= tiny_montgomery_index(12, y) < 20,
        tiny_montgomery_point(tiny_montgomery_index(12, y)) == (12int, y, 1int),
{
    if y == 0 {
        assert(!montgomery_affine_on_curve(6, 7, 12, 0, 13)) by (nonlinear_arith);
    } else if y == 1 {
        assert(!montgomery_affine_on_curve(6, 7, 12, 1, 13)) by (nonlinear_arith);
    } else if y == 2 {
        assert(!montgomery_affine_on_curve(6, 7, 12, 2, 13)) by (nonlinear_arith);
    } else if y == 3 {
        assert(!montgomery_affine_on_curve(6, 7, 12, 3, 13)) by (nonlinear_arith);
    } else if y == 4 {
        assert(!montgomery_affine_on_curve(6, 7, 12, 4, 13)) by (nonlinear_arith);
    } else if y == 5 {
        assert(!montgomery_affine_on_curve(6, 7, 12, 5, 13)) by (nonlinear_arith);
    } else if y == 6 {
        assert(!montgomery_affine_on_curve(6, 7, 12, 6, 13)) by (nonlinear_arith);
    } else if y == 7 {
        assert(!montgomery_affine_on_curve(6, 7, 12, 7, 13)) by (nonlinear_arith);
    } else if y == 8 {
        assert(!montgomery_affine_on_curve(6, 7, 12, 8, 13)) by (nonlinear_arith);
    } else if y == 9 {
        assert(!montgomery_affine_on_curve(6, 7, 12, 9, 13)) by (nonlinear_arith);
    } else if y == 10 {
        assert(!montgomery_affine_on_curve(6, 7, 12, 10, 13)) by (nonlinear_arith);
    } else if y == 11 {
        assert(!montgomery_affine_on_curve(6, 7, 12, 11, 13)) by (nonlinear_arith);
    } else {
        assert(y == 12);
        assert(!montgomery_affine_on_curve(6, 7, 12, 12, 13)) by (nonlinear_arith);
    }
}

/// Every finite point of the curve with coordinates in `[0, 13)` is listed.
proof fn lemma_listed(x: int, y: int)
    requires
        0 <= x < 13,
        0 <= y < 13,
        montgomery_affine_on_curve(6, 7, x, y, 13),
    ensures
        1 <= tiny_montgomery_index(x, y) < 20,
        tiny_montgomery_point(tiny_montgomery_index(x, y)) == (x, y, 1int),
{
    if x == 0 {
        lemma_listed_column_0(y);
    } else if x == 1 {
        lemma_listed_column_1(y);
    } else if x == 2 {
        lemma_listed_column_2(y);
    } else if x == 3 {
        lemma_listed_column_3(y);
    } else if x == 4 {
        lemma_listed_column_4(y);
    } else if x == 5 {
        lemma_listed_column_5(y);
    } else if x == 6 {
        lemma_listed_column_6(y);
    } else if x == 7 {
        lemma_listed_column_7(y);
    } else if x == 8 {
        lemma_listed_column_8(y);
    } else if x == 9 {
        lemma_listed_column_9(y);
    } else if x == 10 {
        lemma_listed_column_10(y);
    } else if x == 11 {
        lemma_listed_column_11(y);
    } else {
        assert(x == 12);
        lemma_listed_column_12(y);
    }
}

/// A finite listed point is its own affine form, has coordinates in
/// `[0, 13)` and is found again at its own index.
proof fn lemma_point_facts(i: int)
    requires
        1 <= i < 20,
    ensures
        affine_of(tiny_montgomery_point(i), 13) == tiny_montgomery_point(i),
        coordinates_in_range(tiny_montgomery_point(i), 13),
        tiny_montgomery_index(tiny_montgomery_x(i), tiny_montgomery_y(i)) == i,
{
    lemma_finv_one(13);
    if i == 1 {
        lemma_fmul_one_zero(3, 13);
        lemma_fmul_one_zero(5, 13);
    } else if i == 2 {
        lemma_fmul_one_zero(7, 13);
        lemma_fmul_one_zero(1, 13);
    } else if i == 3 {
        lemma_fmul_one_zero(4, 13);
        lemma_fmul_one_zero(9, 13);
    } else if i == 4 {
        lemma_fmul_one_zero(8, 13);
        lemma_fmul_one_zero(1, 13);
    } else if i == 5 {
        lemma_fmul_one_zero(1, 13);
        lemma_fmul_one_zero(9, 13);
    } else if i == 6 {
        lemma_fmul_one_zero(5, 13);
        lemma_fmul_one_zero(12, 13);
    } else if i == 7 {
        lemma_fmul_one_zero(10, 13);
        lemma_fmul_one_zero(3, 13);
    } else if i == 8 {
        lemma_fmul_one_zero(2, 13);
        lemma_fmul_one_zero(4, 13);
    } else if i == 9 {
        lemma_fmul_one_zero(9, 13);
        lemma_fmul_one_zero(2, 13);
    } else if i == 10 {
        lemma_fmul_one_zero(0, 13);
        lemma_fmul_one_zero(0, 13);
    } else if i == 11 {
        lemma_fmul_one_zero(9, 13);
        lemma_fmul_one_zero(11, 13);
    } else if i == 12 {
        lemma_fmul_one_zero(2, 13);
        lemma_fmul_one_zero(9, 13);
    } else if i == 13 {
        lemma_fmul_one_zero(10, 13);
        lemma_fmul_one_zero(10, 13);
    } else if i == 14 {
        lemma_fmul_one_zero(5, 13);
        lemma_fmul_one_zero(1, 13);
    } else if i == 15 {
        lemma_fmul_one_zero(1, 13);
        lemma_fmul_one_zero(4, 13);
    } else if i == 16 {
        lemma_fmul_one_zero(8, 13);
        lemma_fmul_one_zero(12, 13);
    } else if i == 17 {
        lemma_fmul_one_zero(4, 13);
        lemma_fmul_one_zero(4, 13);
    } else if i == 18 {
        lemma_fmul_one_zero(7, 13);
        lemma_fmul_one_zero(12, 13);
    } else {
        assert(i == 19);
        lemma_fmul_one_zero(3, 13);
        lemma_fmul_one_zero(8, 13);
    }
}

/// `c` stands for the `m`-th multiple of `(3, 5)`: the point at infinity
/// `[0: 1: 0]` itself for `m = 0`, else a finite point with coordinates in
/// `[0, 13)` whose affine form is the `m`-th point.
spec fn represents(c: Coordinates, m: int) -> bool {
    &&& 0 <= m < 20
    &&& if m == 0 {
        c == montgomery_neutral()
    } else {
        &&& coordinates_in_range(c, 13)
        &&& c.2 != 0
        &&& affine_of(c, 13) == tiny_montgomery_point(m)
    }
}

/// A listed point stands for itself.
proof fn lemma_point_represents(m: int)
    requires
        0 <= m < 20,
    ensures
        represents(tiny_montgomery_point(m), m),
{
    if m != 0 {
        lemma_point_facts(m);
    }
}

/// A finite point with coordinates in `[0, 13)` is not at infinity.
proof fn lemma_finite_not_neutral(c: Coordinates)
    requires
        coordinates_in_range(c, 13),
        c.2 != 0,
    ensures
        !projective_eq(c, montgomery_neutral(), 13),
{
    lemma_fmul_one_zero(c.1, 13);
    lemma_fmul_one_zero(c.2, 13);
}

/// The sum of points standing for the `i`-th and `j`-th multiples stands for
/// the `(i + j) mod 20`-th.
proof fn lemma_sum_represents(c1: Coordinates, c2: Coordinates, i: int, j: int)
    requires
        represents(c1, i),
        represents(c2, j),
    ensures
        represents(montgomery_add(6, 7, c1, c2, 13), index_sum(i, j)),
{
    U64PrimeField::<13>::lemma_modulus_is_prime();
    lemma_projective_eq_reflexive(montgomery_neutral(), 13);
    if i == 0 {
    } else if j == 0 {
        lemma_finite_not_neutral(c1);
    } else {
        lemma_finite_not_neutral(c1);
        lemma_finite_not_neutral(c2);
        lemma_point_facts(i);
        lemma_point_facts(j);
        if i == j {
            lemma_same_affine_projective_eq(c1, c2, 13);
        } else if projective_eq(c1, c2, 13) {
            lemma_projective_eq_same_affine(c1, c2, 13);
        }
        assert(projective_eq(c1, c2, 13) == (i == j));
        lemma_table_entry(i, j);
        lemma_point_represents(index_sum(i, j));
    }
}

/// A finite point of the curve stands for one of the listed points.
proof fn lemma_index_of(c: Coordinates) -> (i: int)
    requires
        coordinates_in_range(c, 13),
        montgomery_on_curve(6, 7, c, 13),
    ensures
        represents(c, i),
{
    U64PrimeField::<13>::lemma_modulus_is_prime();
    lemma_affine_of_same_point(c, 13);
    let a = affine_of(c, 13);
    lemma_listed(a.0, a.1);
    tiny_montgomery_index(a.0, a.1)
}

/// Law: addition of points of TinyJubJub in Montgomery form is associative
/// up to projective equality: `(p + q) + r` and `p + (q + r)` stand for the
/// same point.
pub proof fn lemma_add_associative(
    pt: MontgomeryProjectivePoint<TinyJubJubMontgomery>,
    qt: MontgomeryProjectivePoint<TinyJubJubMontgomery>,
    rt: MontgomeryProjectivePoint<TinyJubJubMontgomery>,
)
    requires
        montgomery_on_curve(6, 7, pt@, 13),
        montgomery_on_curve(6, 7, qt@, 13),
        montgomery_on_curve(6, 7, rt@, 13),
    ensures
        projective_eq(
            MontgomeryProjectivePoint::<TinyJubJubMontgomery>::spec_operate(
                MontgomeryProjectivePoint::<TinyJubJubMontgomery>::spec_operate(pt@, qt@),
                rt@,
            ),
            MontgomeryProjectivePoint::<TinyJubJubMontgomery>::spec_operate(
                pt@,
                MontgomeryProjectivePoint::<TinyJubJubMontgomery>::spec_operate(qt@, rt@),
            ),
            13,
        ),
{
    pt.lemma_range();
    qt.lemma_range();
    rt.lemma_range();
    let i = lemma_index_of(pt@);
    let j = lemma_index_of(qt@);
    let k = lemma_index_of(rt@);
    let pq = montgomery_add(6, 7, pt@, qt@, 13);
    let qr = montgomery_add(6, 7, qt@, rt@, 13);
    lemma_sum_represents(pt@, qt@, i, j);
    lemma_sum_represents(qt@, rt@, j, k);
    lemma_sum_represents(pq, rt@, index_sum(i, j), k);
    lemma_sum_represents(pt@, qr, i, index_sum(j, k));
    let left = montgomery_add(6, 7, pq, rt@, 13);
    let right = montgomery_add(6, 7, pt@, qr, 13);
    let m = index_sum(index_sum(i, j), k);
    assert(m == index_sum(i, index_sum(j, k)));
    if m == 0 {
        lemma_projective_eq_reflexive(left, 13);
    } else {
        U64PrimeField::<13>::lemma_modulus_is_prime();
        lemma_same_affine_projective_eq(left, right, 13);
    }
}

} // verus!
