//! Little-endian integer codecs and fixed-size byte blocks.
//!
//! Every record and argument block is a fixed number of bytes; integers in
//! them are 64 bits wide, least significant byte first.

use vstd::prelude::*;

verus! {

/// A 32-byte ledger address.
pub type Pubkey = [u8; 32];

/// The number that eight bytes spell, least significant byte first.
#[verifier::opaque]
pub open spec fn le_u64(b: Seq<u8>) -> nat
    recommends
        b.len() == 8,
{
    (b[0] as nat) + (b[1] as nat) * 0x100 + (b[2] as nat) * 0x1_0000 + (b[3] as nat) * 0x100_0000
        + (b[4] as nat) * 0x1_0000_0000 + (b[5] as nat) * 0x100_0000_0000 + (b[6] as nat)
        * 0x1_0000_0000_0000 + (b[7] as nat) * 0x100_0000_0000_0000
}

/// The eight bytes that spell `x`, least significant byte first.
#[verifier::opaque]
pub open spec fn u64_le(x: u64) -> Seq<u8> {
    seq![
        (x % 0x100) as u8,
        (x / 0x100 % 0x100) as u8,
        (x / 0x1_0000 % 0x100) as u8,
        (x / 0x100_0000 % 0x100) as u8,
        (x / 0x1_0000_0000 % 0x100) as u8,
        (x / 0x100_0000_0000 % 0x100) as u8,
        (x / 0x1_0000_0000_0000 % 0x100) as u8,
        (x / 0x100_0000_0000_0000 % 0x100) as u8,
    ]
}

/// The signed number that eight bytes spell in two's complement.
pub open spec fn le_i64(b: Seq<u8>) -> int
    recommends
        b.len() == 8,
{
    if le_u64(b) < 0x8000_0000_0000_0000 {
        le_u64(b) as int
    } else {
        le_u64(b) - 0x1_0000_0000_0000_0000
    }
}

/// The eight bytes that spell `x` in two's complement.
pub open spec fn i64_le(x: i64) -> Seq<u8> {
    if x >= 0 {
        u64_le(x as u64)
    } else {
        u64_le((x + 0x1_0000_0000_0000_0000) as u64)
    }
}

/// The address whose 32 bytes are `s`.
pub open spec fn key_of(s: Seq<u8>) -> Pubkey
    recommends
        s.len() == 32,
{
    choose|key: Pubkey| key@ == s
}

/// An address is the address of its own bytes.
pub proof fn lemma_key_of_view(key: Pubkey)
    ensures
        key_of(key@) == key,
{
    assert(key_of(key@)@ == key@);
    assert(key_of(key@) =~= key);
}

/// Dividing by a power of 256 is dividing by 256 that many times.
proof fn lemma_shift_by_bytes(x: u64)
    ensures
        x / 0x1_0000 == x / 0x100 / 0x100,
        x / 0x100_0000 == x / 0x1_0000 / 0x100,
        x / 0x1_0000_0000 == x / 0x100_0000 / 0x100,
        x / 0x100_0000_0000 == x / 0x1_0000_0000 / 0x100,
        x / 0x1_0000_0000_0000 == x / 0x100_0000_0000 / 0x100,
        x / 0x100_0000_0000_0000 == x / 0x1_0000_0000_0000 / 0x100,
        x / 0x100_0000_0000_0000 < 0x100,
{
    assert(x / 0x1_0000 == x / 0x100 / 0x100) by (bit_vector);
    assert(x / 0x100_0000 == x / 0x1_0000 / 0x100) by (bit_vector);
    assert(x / 0x1_0000_0000 == x / 0x100_0000 / 0x100) by (bit_vector);
    assert(x / 0x100_0000_0000 == x / 0x1_0000_0000 / 0x100) by (bit_vector);
    assert(x / 0x1_0000_0000_0000 == x / 0x100_0000_0000 / 0x100) by (bit_vector);
    assert(x / 0x100_0000_0000_0000 == x / 0x1_0000_0000_0000 / 0x100) by (bit_vector);
    assert(x / 0x100_0000_0000_0000 < 0x100) by (bit_vector);
}

/// Decoding undoes encoding.
pub proof fn lemma_le_u64_of_u64_le(x: u64)
    ensures
        u64_le(x).len() == 8,
        le_u64(u64_le(x)) == x,
{
    reveal(le_u64);
    reveal(u64_le);
    lemma_shift_by_bytes(x);
}

/// Encoding undoes decoding, and eight bytes spell a number below 2^64.
pub proof fn lemma_u64_le_of_le_u64(b: Seq<u8>)
    requires
        b.len() == 8,
    ensures
        le_u64(b) <= u64::MAX,
        u64_le(le_u64(b) as u64) == b,
{
    reveal(le_u64);
    reveal(u64_le);
    let x = le_u64(b) as u64;
    lemma_shift_by_bytes(x);
    let r7 = b[7] as int;
    let r6 = b[6] + 0x100 * r7;
    let r5 = b[5] + 0x100 * r6;
    let r4 = b[4] + 0x100 * r5;
    let r3 = b[3] + 0x100 * r4;
    let r2 = b[2] + 0x100 * r3;
    let r1 = b[1] + 0x100 * r2;
    assert(x == b[0] + 0x100 * r1);
    assert(x / 0x100 == r1);
    assert(x / 0x1_0000 == r2);
    assert(x / 0x100_0000 == r3);
    assert(x / 0x1_0000_0000 == r4);
    assert(x / 0x100_0000_0000 == r5);
    assert(x / 0x1_0000_0000_0000 == r6);
    assert(x / 0x100_0000_0000_0000 == r7);
    assert(u64_le(x) =~= b);
}

/// Decoding undoes encoding for signed numbers.
pub proof fn lemma_le_i64_of_i64_le(x: i64)
    ensures
        i64_le(x).len() == 8,
        le_i64(i64_le(x)) == x,
{
    if x >= 0 {
        lemma_le_u64_of_u64_le(x as u64);
    } else {
        lemma_le_u64_of_u64_le((x + 0x1_0000_0000_0000_0000) as u64);
    }
}

/// Encoding undoes decoding for signed numbers, and eight bytes spell a
/// number that fits in 64 bits.
pub proof fn lemma_i64_le_of_le_i64(b: Seq<u8>)
    requires
        b.len() == 8,
    ensures
        i64::MIN <= le_i64(b) <= i64::MAX,
        i64_le(le_i64(b) as i64) == b,
{
    lemma_u64_le_of_le_u64(b);
}

/// Reads the unsigned integer that starts at byte `at`.
pub fn u64_at(bytes: &[u8], at: usize) -> (x: u64)
    requires
        at + 8 <= bytes@.len(),
    ensures
        x == le_u64(bytes@.subrange(at as int, at + 8)),
{
    proof {
        reveal(le_u64);
    }
    let b0: u64 = bytes[at] as u64;
    let b1: u64 = bytes[at + 1] as u64;
    let b2: u64 = bytes[at + 2] as u64;
    let b3: u64 = bytes[at + 3] as u64;
    let b4: u64 = bytes[at + 4] as u64;
    let b5: u64 = bytes[at + 5] as u64;
    let b6: u64 = bytes[at + 6] as u64;
    let b7: u64 = bytes[at + 7] as u64;
    b0 + b1 * 0x100 + b2 * 0x1_0000 + b3 * 0x100_0000 + b4 * 0x1_0000_0000 + b5 * 0x100_0000_0000
        + b6 * 0x1_0000_0000_0000 + b7 * 0x100_0000_0000_0000
}

/// Reads the signed integer that starts at byte `at`.
pub fn i64_at(bytes: &[u8], at: usize) -> (x: i64)
    requires
        at + 8 <= bytes@.len(),
    ensures
        x == le_i64(bytes@.subrange(at as int, at + 8)),
{
    let u: u64 = u64_at(bytes, at);
    if u < 0x8000_0000_0000_0000 {
        u as i64
    } else {
        let low: i64 = (u - 0x8000_0000_0000_0000) as i64;
        low + i64::MIN
    }
}

/// Reads the address that starts at byte `at`.
pub fn key_at(bytes: &[u8], at: usize) -> (key: Pubkey)
    requires
        at + 32 <= bytes@.len(),
    ensures
        key@ == bytes@.subrange(at as int, at + 32),
{
    let mut key: Pubkey = [0u8; 32];
    let len: usize = bytes.len();
    let mut i: usize = 0;
    while i < 32
        invariant
            i <= 32,
            at + 32 <= len == bytes@.len(),
            forall|j: int| 0 <= j < i ==> key@[j] == bytes@[at + j],
        decreases 32 - i,
    {
        key[i] = bytes[at + i];
        i += 1;
    }
    assert(key@ =~= bytes@.subrange(at as int, at + 32));
    key
}

/// Appends the eight bytes of `x`.
pub fn put_u64(out: &mut Vec<u8>, x: u64)
    ensures
        final(out)@ == old(out)@ + u64_le(x),
{
    proof {
        reveal(u64_le);
    }
    out.push((x % 0x100) as u8);
    out.push((x / 0x100 % 0x100) as u8);
    out.push((x / 0x1_0000 % 0x100) as u8);
    out.push((x / 0x100_0000 % 0x100) as u8);
    out.push((x / 0x1_0000_0000 % 0x100) as u8);
    out.push((x / 0x100_0000_0000 % 0x100) as u8);
    out.push((x / 0x1_0000_0000_0000 % 0x100) as u8);
    out.push((x / 0x100_0000_0000_0000 % 0x100) as u8);
    assert(out@ =~= old(out)@ + u64_le(x));
}

/// Appends the eight bytes of `x` in two's complement.
pub fn put_i64(out: &mut Vec<u8>, x: i64)
    ensures
        final(out)@ == old(out)@ + i64_le(x),
{
    if x >= 0 {
        put_u64(out, x as u64);
    } else {
        let low: u64 = (x - i64::MIN) as u64;
        put_u64(out, low + 0x8000_0000_0000_0000);
    }
}

/// Appends the 32 bytes of `key`.
pub fn put_key(out: &mut Vec<u8>, key: &Pubkey)
    ensures
        final(out)@ == old(out)@ + key@,
{
    let mut i: usize = 0;
    while i < 32
        invariant
            i <= 32,
            out@ == old(out)@ + key@.subrange(0, i as int),
        decreases 32 - i,
    {
        out.push(key[i]);
        i += 1;
        assert(out@ =~= old(out)@ + key@.subrange(0, i as int));
    }
    assert(key@.subrange(0, 32) =~= key@);
}

/// Whether two addresses are the same 32 bytes.
pub fn same_key(a: &Pubkey, b: &Pubkey) -> (same: bool)
    ensures
        same == (*a == *b),
{
    let mut i: usize = 0;
    while i < 32
        invariant
            i <= 32,
            forall|j: int| 0 <= j < i ==> a[j] == b[j],
        decreases 32 - i,
    {
        if a[i] != b[i] {
            return false;
        }
        i += 1;
    }
    assert(*a =~= *b);
    true
}

/// The reason that `bytemuck` gives for a failed cast. Nothing is read
/// from it: a failed cast is a block of the wrong size.
#[verifier::external_type_specification]
#[verifier::external_body]
pub struct ExPodCastError(bytemuck::PodCastError);

/// Takes a byte slice as a block of exactly `N` bytes.
///
/// This is `bytemuck::try_from_bytes` at the type `[u8; N]`, with the
/// array copied out of the reference that it returns. It is believed, not
/// proved, that the cast fails on a slice of any other length than the
/// type's size `N`, cannot fail on the type's alignment, which is 1, and
/// otherwise gives the slice's own bytes in order.
#[verifier::external_body]
pub(crate) fn cast_exact<const N: usize>(bytes: &[u8]) -> (block: Result<
    [u8; N],
    bytemuck::PodCastError,
>)
    ensures
        block.is_ok() <==> bytes@.len() == N,
        block matches Ok(array) ==> array@ == bytes@,
{
    bytemuck::try_from_bytes::<[u8; N]>(bytes).copied()
}

} // verus!
