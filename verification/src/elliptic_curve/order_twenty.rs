//! Indices of the elements of a cyclic group of order twenty, the order of
//! both TinyJubJub curves: the `i`-th element is `i` times a generator.
use vstd::prelude::*;

verus! {

/// The index of the sum of the `i`-th and `j`-th multiples of a generator of
/// a cyclic group of order twenty: `(i + j) mod 20` for `0 <= i, j < 20`.
pub open spec fn index_sum(i: int, j: int) -> int {
    if i + j < 20 {
        i + j
    } else {
        i + j - 20
    }
}

} // verus!
