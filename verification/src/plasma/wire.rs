//! Byte layouts: little-endian integers and raw keys, as the Borsh format and
//! SPL token accounts lay them out.
use vstd::prelude::*;
use vstd::arithmetic::div_mod::{lemma_mod_breakdown, lemma_div_pos_is_pos};

verus! {

/// `256^n`.
pub open spec fn pow256(n: nat) -> nat
    decreases n,
{
    if n == 0 {
        1
    } else {
        256 * pow256((n - 1) as nat)
    }
}

/// The unsigned integer that the bytes `s` encode, least significant first.
pub open spec fn le_value(s: Seq<u8>) -> nat
    decreases s.len(),
{
    if s.len() == 0 {
        0
    } else {
        s[0] as nat + 256 * le_value(s.drop_first())
    }
}

/// The `n` least significant bytes of `v`, least significant first.
pub open spec fn le_bytes(v: nat, n: nat) -> Seq<u8>
    decreases n,
{
    if n == 0 {
        Seq::empty()
    } else {
        seq![(v % 256) as u8] + le_bytes(v / 256, (n - 1) as nat)
    }
}

/// The eight bytes of a `u64` in the Borsh format: little-endian.
pub open spec fn u64_bytes(v: u64) -> Seq<u8> {
    le_bytes(v as nat, 8)
}

/// `borsh::to_vec` on a `u64`: the Borsh format writes integers as their
/// little-endian bytes, and writing into a `Vec` cannot fail.
#[verifier::external_body]
fn borsh_u64(value: u64) -> (bytes: Vec<u8>)
    ensures
        bytes@ == u64_bytes(value),
{
    borsh::to_vec(&value).unwrap()
}

/// Appends the Borsh bytes of `value` to `buf`.
pub fn append_u64(buf: &mut Vec<u8>, value: u64)
    ensures
        final(buf)@ == old(buf)@ + u64_bytes(value),
{
    let mut bytes = borsh_u64(value);
    buf.append(&mut bytes);
}

/// Appends the 32 bytes of `key` to `buf` (Borsh writes a byte array as is).
pub fn append_key(buf: &mut Vec<u8>, key: &[u8; 32])
    ensures
        final(buf)@ == old(buf)@ + key@,
{
    let ghost start = buf@;
    let mut i: usize = 0;
    while i < 32
        invariant
            0 <= i <= 32,
            buf@ == start + key@.subrange(0, i as int),
        decreases 32 - i,
    {
        buf.push(key[i]);
        proof {
            assert(key@.subrange(0, i + 1) =~= key@.subrange(0, i as int).push(key@[i as int]));
        }
        i = i + 1;
    }
    proof {
        assert(key@.subrange(0, 32) =~= key@);
    }
}

/// Unfolds the value of eight bytes.
proof fn lemma_le_value_8(s: Seq<u8>)
    requires
        s.len() == 8,
    ensures
        le_value(s) == s[0] + 256 * (s[1] + 256 * (s[2] + 256 * (s[3] + 256 * (s[4] + 256 * (s[5]
            + 256 * (s[6] + 256 * s[7])))))),
{
    let s1 = s.drop_first();
    let s2 = s1.drop_first();
    let s3 = s2.drop_first();
    let s4 = s3.drop_first();
    let s5 = s4.drop_first();
    let s6 = s5.drop_first();
    let s7 = s6.drop_first();
    let s8 = s7.drop_first();
    assert(s8.len() == 0);
    assert(le_value(s7) == s7[0] + 256 * le_value(s8));
    assert(le_value(s6) == s6[0] + 256 * le_value(s7));
    assert(le_value(s5) == s5[0] + 256 * le_value(s6));
    assert(le_value(s4) == s4[0] + 256 * le_value(s5));
    assert(le_value(s3) == s3[0] + 256 * le_value(s4));
    assert(le_value(s2) == s2[0] + 256 * le_value(s3));
    assert(le_value(s1) == s1[0] + 256 * le_value(s2));
}

/// Unfolds the value of four bytes.
proof fn lemma_le_value_4(s: Seq<u8>)
    requires
        s.len() == 4,
    ensures
        le_value(s) == s[0] + 256 * (s[1] + 256 * (s[2] + 256 * s[3])),
{
    let s1 = s.drop_first();
    let s2 = s1.drop_first();
    let s3 = s2.drop_first();
    let s4 = s3.drop_first();
    assert(s4.len() == 0);
    assert(le_value(s3) == s3[0] + 256 * le_value(s4));
    assert(le_value(s2) == s2[0] + 256 * le_value(s3));
    assert(le_value(s1) == s1[0] + 256 * le_value(s2));
}

/// Reads the little-endian `u64` at `offset`.
pub fn read_u64_le(data: &[u8], offset: usize) -> (value: u64)
    requires
        offset + 8 <= data@.len(),
    ensures
        value == le_value(data@.subrange(offset as int, offset + 8)),
{
    let b0 = data[offset] as u64;
    let b1 = data[offset + 1] as u64;
    let b2 = data[offset + 2] as u64;
    let b3 = data[offset + 3] as u64;
    let b4 = data[offset + 4] as u64;
    let b5 = data[offset + 5] as u64;
    let b6 = data[offset + 6] as u64;
    let b7 = data[offset + 7] as u64;
    proof {
        lemma_le_value_8(data@.subrange(offset as int, offset + 8));
    }
    b0 + 256 * (b1 + 256 * (b2 + 256 * (b3 + 256 * (b4 + 256 * (b5 + 256 * (b6 + 256 * b7))))))
}

/// Reads the little-endian `u32` at `offset`.
pub fn read_u32_le(data: &[u8], offset: usize) -> (value: u32)
    requires
        offset + 4 <= data@.len(),
    ensures
        value == le_value(data@.subrange(offset as int, offset + 4)),
{
    let b0 = data[offset] as u32;
    let b1 = data[offset + 1] as u32;
    let b2 = data[offset + 2] as u32;
    let b3 = data[offset + 3] as u32;
    proof {
        lemma_le_value_4(data@.subrange(offset as int, offset + 4));
    }
    b0 + 256 * (b1 + 256 * (b2 + 256 * b3))
}

/// Reads the 32-byte key at `offset`.
pub fn read_key(data: &[u8], offset: usize) -> (key: [u8; 32])
    requires
        offset + 32 <= data@.len(),
    ensures
        key@ == data@.subrange(offset as int, offset + 32),
{
    let mut key = [0u8; 32];
    let mut i: usize = 0;
    while i < 32
        invariant
            0 <= i <= 32,
            offset + 32 <= data.len(),
            forall|j: int| 0 <= j < i ==> key@[j] == data@[offset + j],
        decreases 32 - i,
    {
        key[i] = data[offset + i];
        i = i + 1;
    }
    proof {
        assert(key@ =~= data@.subrange(offset as int, offset + 32));
    }
    key
}

/// Decoding the little-endian bytes of `v` gives `v` back, reduced modulo
/// `256^n`.
pub proof fn lemma_le_round_trip(v: nat, n: nat)
    ensures
        le_bytes(v, n).len() == n,
        le_value(le_bytes(v, n)) == v % pow256(n),
    decreases n,
{
    if n == 0 {
    } else {
        let rest = le_bytes(v / 256, (n - 1) as nat);
        lemma_le_round_trip(v / 256, (n - 1) as nat);
        assert((seq![(v % 256) as u8] + rest).drop_first() =~= rest);
        lemma_pow256_positive((n - 1) as nat);
        lemma_mod_breakdown(v as int, 256, pow256((n - 1) as nat) as int);
        lemma_div_pos_is_pos(v as int, 256);
    }
}

/// `256^n` is positive.
pub proof fn lemma_pow256_positive(n: nat)
    ensures
        pow256(n) > 0,
    decreases n,
{
    if n > 0 {
        lemma_pow256_positive((n - 1) as nat);
    }
}

/// Reading back the Borsh bytes of a `u64` gives the `u64`.
pub proof fn law_u64_bytes_round_trip(v: u64)
    ensures
        u64_bytes(v).len() == 8,
        le_value(u64_bytes(v)) == v,
{
    lemma_le_round_trip(v as nat, 8);
    assert(pow256(8) == 0x1_0000_0000_0000_0000) by {
        reveal_with_fuel(pow256, 9);
    }
}

} // verus!
