//! 256-bit amounts as 32 bytes, highest byte first.

use vstd::prelude::*;
use vstd::arithmetic::power::{pow, lemma_pow0, lemma_pow_positive, lemma_pow_increases};
use crate::registry::Amount;

verus! {

/// The number that some bytes spell, highest byte first.
pub open spec fn be_value(s: Seq<u8>) -> nat
    decreases s.len(),
{
    if s.len() == 0 {
        0
    } else {
        (s[0] as nat) * (pow(256, (s.len() - 1) as nat) as nat) + be_value(s.skip(1))
    }
}

/// 256^(n+1) = 256 * 256^n.
proof fn lemma_pow256_step(n: nat)
    ensures
        pow(256, n + 1) == 256 * pow(256, n),
        pow(256, n) > 0,
{
    reveal_with_fuel(pow, 2);
    lemma_pow_positive(256, n);
}

/// 256^16 = 2^128.
proof fn lemma_pow256_16()
    ensures
        pow(256, 16) == 0x1_0000_0000_0000_0000_0000_0000_0000_0000,
{
    lemma_pow0(256);
    lemma_pow256_step(0);
    lemma_pow256_step(1);
    lemma_pow256_step(2);
    lemma_pow256_step(3);
    lemma_pow256_step(4);
    lemma_pow256_step(5);
    lemma_pow256_step(6);
    lemma_pow256_step(7);
    lemma_pow256_step(8);
    lemma_pow256_step(9);
    lemma_pow256_step(10);
    lemma_pow256_step(11);
    lemma_pow256_step(12);
    lemma_pow256_step(13);
    lemma_pow256_step(14);
    lemma_pow256_step(15);
}

/// A byte more at the low end: the number times 256, plus the byte.
pub proof fn lemma_be_value_push(s: Seq<u8>, b: u8)
    ensures
        be_value(s.push(b)) == be_value(s) * 256 + b,
    decreases s.len(),
{
    let t = s.push(b);
    if s.len() == 0 {
        lemma_pow0(256);
        assert(t.skip(1) =~= Seq::<u8>::empty());
        assert(be_value(t.skip(1)) == 0);
        assert(t[0] == b);
        assert(be_value(t) == (t[0] as nat) * (pow(256, 0) as nat) + be_value(t.skip(1)));
        assert(be_value(s) == 0);
    } else {
        assert(t.skip(1) =~= s.skip(1).push(b));
        lemma_be_value_push(s.skip(1), b);
        lemma_pow256_step((s.len() - 1) as nat);
        let p = pow(256, (s.len() - 1) as nat);
        let h = s[0] as int;
        let r = be_value(s.skip(1)) as int;
        assert(t[0] == s[0]);
        assert(t.len() - 1 == s.len());
        assert(pow(256, s.len()) == 256 * p);
        assert(be_value(t) == h * (256 * p) + (r * 256 + b));
        assert(be_value(s) == h * p + r);
        assert(h * (256 * p) + (r * 256 + b) == (h * p + r) * 256 + b) by (nonlinear_arith);
    }
}

/// Bytes spell a number below 256 to the power of their count.
pub proof fn lemma_be_value_bound(s: Seq<u8>)
    ensures
        be_value(s) < pow(256, s.len()),
    decreases s.len(),
{
    if s.len() == 0 {
        lemma_pow0(256);
    } else {
        lemma_be_value_bound(s.skip(1));
        lemma_pow256_step((s.len() - 1) as nat);
        let p = pow(256, (s.len() - 1) as nat);
        let h = s[0] as int;
        assert(h * p + p <= 256 * p) by (nonlinear_arith)
            requires
                0 <= h <= 255,
                p > 0,
        ;
    }
}

/// Zero bytes at the high end do not count.
pub proof fn lemma_be_value_skip_zeros(s: Seq<u8>, k: nat)
    requires
        k <= s.len(),
        forall|j: int| 0 <= j < k ==> s[j] == 0,
    ensures
        be_value(s) == be_value(s.skip(k as int)),
    decreases k,
{
    if k == 0 {
        assert(s.skip(0) =~= s);
    } else {
        lemma_be_value_skip_zeros(s.skip(1), (k - 1) as nat);
        assert(s.skip(1).skip(k - 1) =~= s.skip(k as int));
        assert(s[0] == 0);
        assert(0 * pow(256, (s.len() - 1) as nat) == 0);
    }
}

/// A byte that is not zero makes the number at least as large as the
/// weight of its place.
pub proof fn lemma_be_value_at_least(s: Seq<u8>, j: int)
    requires
        0 <= j < s.len(),
        s[j] != 0,
    ensures
        be_value(s) >= pow(256, (s.len() - 1 - j) as nat),
    decreases j,
{
    let p = pow(256, (s.len() - 1) as nat);
    lemma_pow_positive(256, (s.len() - 1) as nat);
    if j == 0 {
        let h = s[0] as int;
        assert(h * p >= p) by (nonlinear_arith)
            requires
                h >= 1,
                p > 0,
        ;
    } else {
        lemma_be_value_at_least(s.skip(1), j - 1);
        let h = s[0] as int;
        assert(h * p >= 0) by (nonlinear_arith)
            requires
                h >= 0,
                p > 0,
        ;
    }
}

/// The amount that spells `x`.
pub fn u128_to_amount(x: u128) -> (a: Amount)
    ensures
        be_value(a@) == x,
{
    let mut a: Amount = [0u8; 32];
    let mut rem: u128 = x;
    let mut i: usize = 0;
    proof {
        lemma_pow0(256);
        assert(a@.skip(32) =~= Seq::<u8>::empty());
    }
    while i < 32
        invariant
            i <= 32,
            be_value(a@.skip(32 - i)) + rem * pow(256, i as nat) == x,
        decreases 32 - i,
    {
        let byte: u8 = (rem % 256) as u8;
        let ghost before = a@;
        let ghost rem_before = rem;
        a[31 - i] = byte;
        rem = rem / 256;
        proof {
            let suffix = a@.skip(31 - i);
            assert(suffix.skip(1) =~= before.skip(32 - i));
            assert(suffix[0] == byte);
            assert(suffix.len() == i + 1);
            lemma_pow256_step(i as nat);
            let p = pow(256, i as nat);
            let bv = be_value(before.skip(32 - i)) as int;
            assert(rem_before == rem * 256 + byte);
            assert(byte * p + bv + rem * (256 * p) == bv + (rem * 256 + byte) * p)
                by (nonlinear_arith);
        }
        i = i + 1;
    }
    proof {
        assert(a@.skip(0) =~= a@);
        lemma_pow256_16();
        lemma_pow_increases(256, 16, 32);
        let p = pow(256, 32);
        assert(rem == 0) by (nonlinear_arith)
            requires
                rem * p <= x,
                x < p,
                rem >= 0,
                p > 0,
        ;
        assert(rem * p == 0);
    }
    a
}

/// The amount as a number of 128 bits, where it is one.
pub fn amount_to_u128(a: &Amount) -> (r: Option<u128>)
    ensures
        r is Some <==> be_value(a@) <= u128::MAX,
        r matches Some(v) ==> v == be_value(a@),
{
    let mut i: usize = 0;
    while i < 16
        invariant
            i <= 16,
            forall|j: int| 0 <= j < i ==> a@[j] == 0,
        decreases 16 - i,
    {
        if a[i] != 0 {
            proof {
                lemma_be_value_at_least(a@, i as int);
                lemma_pow256_16();
                if i < 15 {
                    lemma_pow_increases(256, 16, (31 - i) as nat);
                }
            }
            return None;
        }
        i = i + 1;
    }
    let ghost low = a@.skip(16);
    let mut acc: u128 = 0;
    proof {
        lemma_be_value_skip_zeros(a@, 16);
        assert(low.take(0) =~= Seq::<u8>::empty());
        lemma_pow0(256);
    }
    while i < 32
        invariant
            16 <= i <= 32,
            low == a@.skip(16),
            acc == be_value(low.take(i - 16)),
            acc < pow(256, (i - 16) as nat),
        decreases 32 - i,
    {
        proof {
            let k = (i - 16) as nat;
            assert(low.take(k as int + 1) =~= low.take(k as int).push(a@[i as int]));
            lemma_be_value_push(low.take(k as int), a@[i as int]);
            lemma_be_value_bound(low.take(k as int + 1));
            lemma_pow256_16();
            if k + 1 < 16 {
                lemma_pow_increases(256, k + 1, 16);
            }
        }
        acc = acc * 256 + a[i] as u128;
        i = i + 1;
    }
    proof {
        assert(low.take(16) =~= low);
    }
    Some(acc)
}

/// The amount that spells `x`.
pub fn u64_to_amount(x: u64) -> (a: Amount)
    ensures
        be_value(a@) == x,
{
    u128_to_amount(x as u128)
}

} // verus!
