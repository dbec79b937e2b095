//! Fixed-size unsigned integers made of 64-bit limbs, most significant first.
use vstd::arithmetic::power::{
    lemma_pow1, lemma_pow_adds, lemma_pow_increases, lemma_pow_multiplies, pow,
};
use vstd::arithmetic::power2::lemma2_to64;
use vstd::prelude::*;
use vstd::string::StringSliceAdditionalSpecFns;

verus! {

/// `2^64`, the base of the limbs.
pub open spec fn limb_base() -> int {
    0x1_0000_0000_0000_0000
}

/// The number whose base-`2^64` digits, most significant first, are `s`.
pub open spec fn limbs_value(s: Seq<u64>) -> int
    decreases s.len(),
{
    if s.len() == 0 {
        0
    } else {
        limbs_value(s.drop_last()) * limb_base() + s.last()
    }
}

/// `c` is the ASCII code of a hexadecimal digit (`0-9`, `a-f`, `A-F`).
pub open spec fn is_hex_digit(c: u8) -> bool {
    ||| 48 <= c <= 57
    ||| 97 <= c <= 102
    ||| 65 <= c <= 70
}

/// The value of the hexadecimal digit `c`.
pub open spec fn hex_digit_value(c: u8) -> int {
    if 48 <= c <= 57 {
        c - 48
    } else if 97 <= c <= 102 {
        c - 87
    } else {
        c - 55
    }
}

/// The number written by the hexadecimal digits `s`, most significant first.
pub open spec fn hex_value(s: Seq<u8>) -> int
    decreases s.len(),
{
    if s.len() == 0 {
        0
    } else {
        hex_value(s.drop_last()) * 16 + hex_digit_value(s.last())
    }
}

/// Every byte of `s` is a hexadecimal digit.
pub open spec fn all_hex_digits(s: Seq<u8>) -> bool {
    forall|i: int| 0 <= i < s.len() ==> is_hex_digit(#[trigger] s[i])
}

/// Writing `b` after `a` multiplies the value of `a` by `16^|b|`.
proof fn lemma_hex_value_concat(a: Seq<u8>, b: Seq<u8>)
    ensures
        hex_value(a + b) == hex_value(a) * pow(16, b.len()) + hex_value(b),
    decreases b.len(),
{
    if b.len() == 0 {
        assert(a + b =~= a);
        lemma_pow_adds(16, 0, 0);
        reveal(pow);
    } else {
        let b1 = b.drop_last();
        assert((a + b).drop_last() =~= a + b1);
        lemma_hex_value_concat(a, b1);
        lemma_pow_adds(16, b1.len(), 1);
        lemma_pow1(16);
        let h = hex_value(a);
        let q = pow(16, b1.len());
        assert((h * q + hex_value(b1)) * 16 == h * (q * 16) + hex_value(b1) * 16) by (nonlinear_arith);
    }
}

/// Putting the limb `c` in front of `t` adds `c * (2^64)^|t|`.
proof fn lemma_limbs_value_prepend(c: u64, t: Seq<u64>)
    ensures
        limbs_value(seq![c] + t) == c * pow(limb_base(), t.len()) + limbs_value(t),
    decreases t.len(),
{
    if t.len() == 0 {
        assert(seq![c] + t =~= seq![c]);
        let s1 = seq![c];
        assert(s1.drop_last() =~= Seq::<u64>::empty());
        assert(limbs_value(Seq::<u64>::empty()) == 0);
        assert(s1.last() == c);
        assert(limbs_value(s1) == c);
        assert(limbs_value(t) == 0);
        vstd::arithmetic::power::lemma_pow0(limb_base());
    } else {
        let t1 = t.drop_last();
        assert((seq![c] + t).drop_last() =~= seq![c] + t1);
        lemma_limbs_value_prepend(c, t1);
        lemma_pow_adds(limb_base(), t1.len(), 1);
        lemma_pow1(limb_base());
        let q = pow(limb_base(), t1.len());
        assert((c * q + limbs_value(t1)) * limb_base() == c * (q * limb_base()) + limbs_value(t1)
            * limb_base()) by (nonlinear_arith);
    }
}

/// Sixteen hexadecimal digits make one limb: `16^(16 k) = (2^64)^k`.
proof fn lemma_pow16_limbs(k: nat)
    ensures
        pow(16, 16 * k) == pow(limb_base(), k),
        pow(16, 15) == 0x1000_0000_0000_0000,
{
    lemma2_to64();
    vstd::arithmetic::power2::lemma2_to64_rest();
    vstd::arithmetic::power::lemma_pow_positive(2, 4);
    vstd::arithmetic::power::lemma_pow_positive(2, 60);
    vstd::arithmetic::power::lemma_pow_positive(2, 64);
    assert(pow(2, 4) == 16);
    assert(pow(2, 64) == limb_base());
    assert(pow(2, 60) == 0x1000_0000_0000_0000);
    lemma_pow_multiplies(2, 4, 16);
    lemma_pow_multiplies(2, 4, 15);
    assert(pow(16, 16) == limb_base());
    assert(pow(16, 15) == 0x1000_0000_0000_0000);
    lemma_pow_multiplies(16, 16, k);
}

/// The value of one hexadecimal digit.
fn hex_digit(c: u8) -> (r: u64)
    requires
        is_hex_digit(c),
    ensures
        r == hex_digit_value(c),
        r < 16,
{
    if 48 <= c && c <= 57 {
        (c - 48) as u64
    } else if 97 <= c && c <= 102 {
        (c - 87) as u64
    } else {
        (c - 55) as u64
    }
}

/// The value of at most sixteen hexadecimal digits `bytes[start..end]`.
fn parse_hex_chunk(bytes: &[u8], start: usize, end: usize) -> (r: u64)
    requires
        start <= end <= bytes@.len(),
        end - start <= 16,
        all_hex_digits(bytes@),
    ensures
        r == hex_value(bytes@.subrange(start as int, end as int)),
{
    let mut value: u64 = 0;
    let mut i = start;
    proof {
        assert(bytes@.subrange(start as int, start as int) =~= Seq::<u8>::empty());
        reveal(pow);
    }
    while i < end
        invariant
            start <= i <= end <= bytes@.len(),
            end - start <= 16,
            all_hex_digits(bytes@),
            value == hex_value(bytes@.subrange(start as int, i as int)),
            value < pow(16, (i - start) as nat),
        decreases end - i,
    {
        let d = hex_digit(bytes[i]);
        proof {
            let k = (i - start) as nat;
            lemma_pow16_limbs(0);
            lemma_pow_increases(16, k, 15);
            lemma_pow_adds(16, k, 1);
            lemma_pow1(16);
            assert(bytes@.subrange(start as int, i + 1).drop_last() =~= bytes@.subrange(
                start as int,
                i as int,
            ));
        }
        value = value * 16 + d;
        i = i + 1;
    }
    value
}

/// An unsigned integer of `NUM_LIMBS` 64-bit limbs, most significant first.
#[derive(Clone, Copy, Debug, PartialEq, Eq)]
pub struct UnsignedInteger<const NUM_LIMBS: usize> {
    pub limbs: [u64; NUM_LIMBS],
}

/// A 384-bit unsigned integer.
pub type U384 = UnsignedInteger<6>;

impl<const NUM_LIMBS: usize> View for UnsignedInteger<NUM_LIMBS> {
    type V = int;

    open spec fn view(&self) -> int {
        limbs_value(self.limbs@)
    }
}

impl<const NUM_LIMBS: usize> UnsignedInteger<NUM_LIMBS> {
    /// The number written in hexadecimal by `value` (digits `0-9`, `a-f`,
    /// `A-F`, no prefix), which must fit in `NUM_LIMBS` limbs.
    pub fn from_hex(value: &str) -> (r: Self)
        requires
            all_hex_digits(value.spec_bytes()),
            value.spec_bytes().len() <= 16 * NUM_LIMBS,
        ensures
            r@ == hex_value(value.spec_bytes()),
    {
        let bytes = value.as_bytes();
        let len = bytes.len();
        let mut limbs = [0u64; NUM_LIMBS];
        let mut end = len;
        let mut j = NUM_LIMBS;
        proof {
            assert(limbs@.subrange(NUM_LIMBS as int, NUM_LIMBS as int) =~= Seq::<u64>::empty());
            assert(bytes@.subrange(len as int, len as int) =~= Seq::<u8>::empty());
        }
        while j > 0
            invariant
                bytes@ == value.spec_bytes(),
                len == bytes@.len(),
                len <= 16 * NUM_LIMBS,
                all_hex_digits(bytes@),
                j <= NUM_LIMBS,
                limbs@.len() == NUM_LIMBS,
                end <= len,
                end == 0 || len - end == 16 * (NUM_LIMBS - j),
                forall|k: int| 0 <= k < j ==> limbs@[k] == 0,
                limbs_value(limbs@.subrange(j as int, NUM_LIMBS as int)) == hex_value(
                    bytes@.subrange(end as int, len as int),
                ),
            decreases j,
        {
            j = j - 1;
            let start = if end >= 16 {
                end - 16
            } else {
                0
            };
            let c = parse_hex_chunk(bytes, start, end);
            let ghost old_limbs = limbs@;
            limbs[j] = c;
            proof {
                let tail = old_limbs.subrange(j + 1, NUM_LIMBS as int);
                assert(limbs@.subrange(j as int, NUM_LIMBS as int) =~= seq![c] + tail);
                assert(limbs@.subrange(j + 1, NUM_LIMBS as int) =~= tail);
                lemma_limbs_value_prepend(c, tail);
                let chunk = bytes@.subrange(start as int, end as int);
                let rest = bytes@.subrange(end as int, len as int);
                assert(bytes@.subrange(start as int, len as int) =~= chunk + rest);
                lemma_hex_value_concat(chunk, rest);
                if end > 0 {
                    lemma_pow16_limbs((NUM_LIMBS - j - 1) as nat);
                    assert(16 * ((NUM_LIMBS - j - 1) as nat) == len - end);
                } else {
                    assert(chunk =~= Seq::<u8>::empty());
                }
            }
            end = start;
        }
        proof {
            assert(limbs@.subrange(0, NUM_LIMBS as int) =~= limbs@);
            assert(bytes@.subrange(0, len as int) =~= bytes@);
        }
        UnsignedInteger { limbs }
    }
}

} // verus!
