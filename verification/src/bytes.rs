//! Little-endian byte strings as natural numbers, and small executable
//! helpers for building and comparing byte vectors.

use vstd::prelude::*;

use vstd::arithmetic::div_mod::lemma_multiply_divide_lt;
use vstd::arithmetic::div_mod::lemma_small_mod;
use vstd::arithmetic::power::lemma_pow0;
use vstd::arithmetic::power::lemma_pow1;
use vstd::arithmetic::power::lemma_pow_adds;
use vstd::arithmetic::power::lemma_pow_positive;
use vstd::arithmetic::power::pow;

verus! {

/// The order of the Ed25519 basepoint, `2^252 + 27742317777372353535851937790883648493`.
/// Every scalar that enters a multiplication is reduced modulo this number.
pub open spec fn group_order() -> nat {
    7237005577332262213973186563042994240857116359379907606001950938285454250989nat
}

/// The natural number that a little-endian byte string stands for.
pub open spec fn le_bytes_to_nat(s: Seq<u8>) -> nat
    decreases s.len(),
{
    if s.len() == 0 {
        0
    } else {
        s[0] as nat + 256 * le_bytes_to_nat(s.drop_first())
    }
}

/// The `len`-byte little-endian encoding of `n` (truncated above `256^len`).
pub open spec fn nat_to_le_bytes(n: nat, len: nat) -> Seq<u8>
    decreases len,
{
    if len == 0 {
        Seq::empty()
    } else {
        seq![(n % 256) as u8] + nat_to_le_bytes(n / 256, (len - 1) as nat)
    }
}

/// The canonical 32-byte encoding of a scalar: `n` reduced modulo the group
/// order, little-endian.
pub open spec fn reduced_scalar_bytes(n: nat) -> Seq<u8> {
    nat_to_le_bytes(n % group_order(), 32)
}

pub proof fn lemma_nat_to_le_bytes_len(n: nat, len: nat)
    ensures
        nat_to_le_bytes(n, len).len() == len,
    decreases len,
{
    if len > 0 {
        lemma_nat_to_le_bytes_len(n / 256, (len - 1) as nat);
    }
}

pub proof fn lemma_reduced_scalar_bytes_len(n: nat)
    ensures
        reduced_scalar_bytes(n).len() == 32,
{
    lemma_nat_to_le_bytes_len(n % group_order(), 32);
}

proof fn lemma_pow_256_31_concrete()
    ensures
        pow(256, 31) == 0x100000000000000000000000000000000000000000000000000000000000000,
{
    lemma_pow1(256);
    assert(pow(256, 1) == 0x100);
    lemma_pow_adds(256, 1, 1);
    assert(pow(256, 2) == 0x10000);
    lemma_pow_adds(256, 2, 2);
    assert(pow(256, 4) == 0x100000000);
    lemma_pow_adds(256, 4, 4);
    assert(pow(256, 8) == 0x10000000000000000);
    lemma_pow_adds(256, 8, 8);
    assert(pow(256, 16) == 0x100000000000000000000000000000000);
    lemma_pow_adds(256, 16, 8);
    assert(pow(256, 24) == 0x1000000000000000000000000000000000000000000000000);
    lemma_pow_adds(256, 24, 4);
    assert(pow(256, 28) == 0x100000000000000000000000000000000000000000000000000000000);
    lemma_pow_adds(256, 28, 2);
    assert(pow(256, 30) == 0x1000000000000000000000000000000000000000000000000000000000000);
    lemma_pow_adds(256, 30, 1);
}

proof fn lemma_nat_to_le_bytes_last_small(m: nat, len: nat)
    requires
        1 <= len,
        m < pow(256, (len - 1) as nat) * 32,
    ensures
        nat_to_le_bytes(m, len)[len - 1] < 32,
    decreases len,
{
    lemma_nat_to_le_bytes_len(m / 256, (len - 1) as nat);
    if len == 1 {
        lemma_pow0(256);
        lemma_small_mod(m, 256);
        assert(nat_to_le_bytes(m, 1)[0] == (m % 256) as u8);
    } else {
        let rest = nat_to_le_bytes(m / 256, (len - 1) as nat);
        assert(nat_to_le_bytes(m, len)[len - 1] == rest[len - 2]);
        lemma_pow1(256);
        lemma_pow_adds(256, 1, (len - 2) as nat);
        assert(pow(256, (len - 1) as nat) == 256 * pow(256, (len - 2) as nat));
        lemma_pow_positive(256, (len - 2) as nat);
        lemma_multiply_divide_lt(m as int, 256, pow(256, (len - 2) as nat) * 32);
        lemma_nat_to_le_bytes_last_small(m / 256, (len - 1) as nat);
    }
}

/// A canonical scalar is below `2^253`, so the top three bits of its last
/// byte are clear: in particular, bit 7 is free to carry the sign bit.
pub proof fn lemma_reduced_scalar_top_bits(n: nat)
    ensures
        reduced_scalar_bytes(n)[31] < 32,
{
    lemma_pow_256_31_concrete();
    lemma_nat_to_le_bytes_last_small(n % group_order(), 32);
}

/// Append every byte of `s` to `v`.
pub fn append_bytes(v: &mut Vec<u8>, s: &[u8])
    ensures
        final(v)@ == old(v)@ + s@,
{
    let mut i: usize = 0;
    while i < s.len()
        invariant
            i <= s@.len(),
            v@ == old(v)@ + s@.take(i as int),
        decreases s@.len() - i,
    {
        proof {
            assert(s@.take(i + 1) =~= s@.take(i as int) + seq![s@[i as int]]);
        }
        v.push(s[i]);
        i += 1;
    }
    proof {
        assert(s@.take(s@.len() as int) =~= s@);
    }
}

/// A fresh vector holding `s[start..end]`.
pub fn copy_range(s: &[u8], start: usize, end: usize) -> (r: Vec<u8>)
    requires
        start <= end <= s@.len(),
    ensures
        r@ == s@.subrange(start as int, end as int),
{
    let mut r: Vec<u8> = Vec::new();
    let mut i: usize = start;
    while i < end
        invariant
            start <= i <= end <= s@.len(),
            r@ == s@.subrange(start as int, i as int),
        decreases end - i,
    {
        proof {
            assert(s@.subrange(start as int, i + 1)
                =~= s@.subrange(start as int, i as int) + seq![s@[i as int]]);
        }
        r.push(s[i]);
        i += 1;
    }
    r
}

/// Byte-for-byte equality of two slices.
pub fn bytes_eq(a: &[u8], b: &[u8]) -> (r: bool)
    ensures
        r == (a@ == b@),
{
    if a.len() != b.len() {
        return false;
    }
    let mut i: usize = 0;
    while i < a.len()
        invariant
            i <= a@.len(),
            a@.len() == b@.len(),
            forall|j: int| 0 <= j < i ==> a@[j] == b@[j],
        decreases a@.len() - i,
    {
        if a[i] != b[i] {
            return false;
        }
        i += 1;
    }
    proof {
        assert(a@ =~= b@);
    }
    true
}

} // verus!
