//! Groups written additively: a neutral element, an operation and repeated
//! application of the operation to one element.
use vstd::prelude::*;

verus! {

/// The value that repeated doubling and adding reaches from `acc` and `base`
/// when the remaining exponent is `e`: at each step, the least significant
/// bit of `e` decides whether `base` is added to the accumulator, then `base`
/// is doubled and the bit dropped.
pub open spec fn double_and_add<G: IsGroup>(acc: G::V, base: G::V, e: nat) -> G::V
    decreases e,
{
    if e == 0 {
        acc
    } else {
        let next_acc = if e % 2 == 1 {
            G::spec_operate(acc, base)
        } else {
            acc
        };
        double_and_add::<G>(next_acc, G::spec_operate(base, base), e / 2)
    }
}

/// Every operation that `double_and_add(acc, base, e)` performs is defined.
pub open spec fn double_and_add_defined<G: IsGroup>(acc: G::V, base: G::V, e: nat) -> bool
    decreases e,
{
    if e == 0 {
        true
    } else {
        let next_acc = if e % 2 == 1 {
            G::spec_operate(acc, base)
        } else {
            acc
        };
        &&& (e % 2 == 1 ==> G::spec_defined(acc, base))
        &&& G::spec_defined(base, base)
        &&& double_and_add_defined::<G>(next_acc, G::spec_operate(base, base), e / 2)
    }
}

/// `exponent` copies of `g` combined one at a time:
/// `(..((0 + g) + g) + ..) + g`, starting from the neutral element.
pub open spec fn scalar_multiple<G: IsGroup>(g: G::V, exponent: nat) -> G::V
    decreases exponent,
{
    if exponent == 0 {
        G::spec_neutral()
    } else {
        G::spec_operate(scalar_multiple::<G>(g, (exponent - 1) as nat), g)
    }
}

/// What double-and-add computes for `g` and `exponent`, from the neutral
/// element. Where the operation is associative this is
/// `scalar_multiple(g, exponent)`.
pub open spec fn double_and_add_multiple<G: IsGroup>(g: G::V, exponent: nat) -> G::V {
    double_and_add::<G>(G::spec_neutral(), g, exponent)
}

/// Law: double-and-add with exponent zero gives the neutral element, and
/// performs no operation.
pub proof fn lemma_double_and_add_zero<G: IsGroup>(g: G::V)
    ensures
        double_and_add_multiple::<G>(g, 0) == G::spec_neutral(),
        double_and_add_multiple::<G>(g, 0) == scalar_multiple::<G>(g, 0),
        double_and_add_defined::<G>(G::spec_neutral(), g, 0),
{
}

/// Law: double-and-add with exponent one gives the neutral element combined
/// with the element, as one step of repeated addition does; it takes the
/// operation on the neutral element and the element, and the element doubled.
pub proof fn lemma_double_and_add_one<G: IsGroup>(g: G::V)
    ensures
        double_and_add_multiple::<G>(g, 1) == G::spec_operate(G::spec_neutral(), g),
        double_and_add_multiple::<G>(g, 1) == scalar_multiple::<G>(g, 1),
        double_and_add_defined::<G>(G::spec_neutral(), g, 1) == (G::spec_defined(
            G::spec_neutral(),
            g,
        ) && G::spec_defined(g, g)),
{
    let n = G::spec_neutral();
    assert(double_and_add::<G>(G::spec_operate(n, g), G::spec_operate(g, g), 0) == G::spec_operate(
        n,
        g,
    ));
    assert(double_and_add_defined::<G>(G::spec_operate(n, g), G::spec_operate(g, g), 0));
    assert(scalar_multiple::<G>(g, 0) == n);
}

/// Law: double-and-add with an even exponent equals double-and-add with half
/// the exponent on the element doubled: `(2 n) g = n (g + g)`.
pub proof fn lemma_double_and_add_even<G: IsGroup>(g: G::V, n: nat)
    ensures
        double_and_add_multiple::<G>(g, 2 * n) == double_and_add_multiple::<G>(
            G::spec_operate(g, g),
            n,
        ),
{
    if n > 0 {
        assert((2 * n) / 2 == n);
        assert((2 * n) % 2 == 0);
    }
}

/// A group written additively, whose elements are viewed as values of `Self::V`.
pub trait IsGroup: Sized + Copy + View {
    /// The neutral element.
    spec fn spec_neutral() -> Self::V;

    /// `a` is (equal to) the neutral element.
    spec fn spec_is_neutral(a: Self::V) -> bool;

    /// The operation is defined on `a` and `b`.
    spec fn spec_defined(a: Self::V, b: Self::V) -> bool;

    /// The result of the operation on `a` and `b`.
    spec fn spec_operate(a: Self::V, b: Self::V) -> Self::V;

    fn neutral_element() -> (r: Self)
        ensures
            r@ == Self::spec_neutral(),
    ;

    fn is_neutral_element(&self) -> (r: bool)
        ensures
            r == Self::spec_is_neutral(self@),
    ;

    fn operate_with(&self, other: &Self) -> (r: Self)
        requires
            Self::spec_defined(self@, other@),
        ensures
            r@ == Self::spec_operate(self@, other@),
    ;
}

/// `g` combined with itself `exponent` times, by double-and-add.
pub fn operate_with_self<G: IsGroup>(g: &G, exponent: u64) -> (r: G)
    requires
        double_and_add_defined::<G>(G::spec_neutral(), g@, exponent as nat),
    ensures
        r@ == double_and_add_multiple::<G>(g@, exponent as nat),
{
    let mut result = G::neutral_element();
    let mut base = *g;
    let mut e = exponent;
    while e > 0
        invariant
            double_and_add::<G>(result@, base@, e as nat) == double_and_add_multiple::<G>(
                g@,
                exponent as nat,
            ),
            double_and_add_defined::<G>(result@, base@, e as nat),
        decreases e,
    {
        if e % 2 == 1 {
            result = result.operate_with(&base);
        }
        e = e / 2;
        base = base.operate_with(&base);
    }
    result
}

} // verus!
