//! Little-endian encodings of integers, and the functions that append them
//! to a byte buffer.

use vstd::prelude::*;

verus! {

/// The two bytes of a 16-bit value, low byte first.
#[verifier::opaque]
pub open spec fn le16(v: nat) -> Seq<u8> {
    seq![(v % 256) as u8, (v / 256 % 256) as u8]
}

/// The four bytes of a 32-bit value, low byte first.
#[verifier::opaque]
pub open spec fn le32(v: nat) -> Seq<u8> {
    seq![
        (v % 256) as u8,
        (v / 0x100 % 256) as u8,
        (v / 0x1_0000 % 256) as u8,
        (v / 0x100_0000 % 256) as u8,
    ]
}

/// The eight bytes of a 64-bit value, low byte first.
#[verifier::opaque]
pub open spec fn le64(v: nat) -> Seq<u8> {
    le32(v % 0x1_0000_0000) + le32(v / 0x1_0000_0000)
}

/// The unsigned value with the same two's-complement pattern as the signed
/// value `v`, where `modulus` is two to the number of bits.
pub open spec fn unsigned(v: int, modulus: nat) -> nat {
    if v < 0 {
        (v + modulus) as nat
    } else {
        v as nat
    }
}

/// `n` zero bytes.
pub open spec fn zeros(n: nat) -> Seq<u8> {
    Seq::new(n, |i: int| 0u8)
}

/// Appends a 16-bit value, low byte first.
pub fn put_u16(out: &mut Vec<u8>, v: u16)
    ensures
        final(out)@ == old(out)@ + le16(v as nat),
{
    out.push((v % 256) as u8);
    out.push((v / 256) as u8);
    assert(final(out)@ =~= old(out)@ + le16(v as nat)) by {
        reveal(le16);
    }
}

/// Appends a 32-bit value, low byte first.
pub fn put_u32(out: &mut Vec<u8>, v: u32)
    ensures
        final(out)@ == old(out)@ + le32(v as nat),
{
    out.push((v % 256) as u8);
    out.push((v / 0x100 % 256) as u8);
    out.push((v / 0x1_0000 % 256) as u8);
    out.push((v / 0x100_0000) as u8);
    assert(final(out)@ =~= old(out)@ + le32(v as nat)) by {
        reveal(le32);
    }
}

/// Appends a 64-bit value, low byte first.
pub fn put_u64(out: &mut Vec<u8>, v: u64)
    ensures
        final(out)@ == old(out)@ + le64(v as nat),
{
    let low: u32 = (v % 0x1_0000_0000) as u32;
    let high: u32 = (v / 0x1_0000_0000) as u32;
    put_u32(out, low);
    put_u32(out, high);
    assert(final(out)@ =~= old(out)@ + le64(v as nat)) by {
        reveal(le64);
    }
}

/// Appends a signed 8-bit value in two's complement.
pub fn put_i8(out: &mut Vec<u8>, v: i8)
    ensures
        final(out)@ == old(out)@.push(unsigned(v as int, 0x100) as u8),
{
    let u: u8 = if v < 0 {
        (v as i16 + 0x100) as u8
    } else {
        v as u8
    };
    out.push(u);
}

/// Appends a signed 16-bit value in two's complement, low byte first.
pub fn put_i16(out: &mut Vec<u8>, v: i16)
    ensures
        final(out)@ == old(out)@ + le16(unsigned(v as int, 0x1_0000)),
{
    let u: u16 = if v < 0 {
        (v as i32 + 0x1_0000) as u16
    } else {
        v as u16
    };
    put_u16(out, u);
}

/// Appends a signed 32-bit value in two's complement, low byte first.
pub fn put_i32(out: &mut Vec<u8>, v: i32)
    ensures
        final(out)@ == old(out)@ + le32(unsigned(v as int, 0x1_0000_0000)),
{
    let u: u32 = if v < 0 {
        (v as i64 + 0x1_0000_0000) as u32
    } else {
        v as u32
    };
    put_u32(out, u);
}

/// Appends `n` zero bytes.
pub fn put_zeros(out: &mut Vec<u8>, n: usize)
    ensures
        final(out)@ == old(out)@ + zeros(n as nat),
{
    let mut i: usize = 0;
    while i < n
        invariant
            i <= n,
            out@ == old(out)@ + zeros(i as nat),
        decreases n - i,
    {
        out.push(0u8);
        i += 1;
        assert(out@ =~= old(out)@ + zeros(i as nat));
    }
}

/// Appends the bytes of a slice.
pub fn put_slice(out: &mut Vec<u8>, bytes: &[u8])
    ensures
        final(out)@ == old(out)@ + bytes@,
{
    out.extend_from_slice(bytes);
}

/// A 16-bit value takes two bytes.
pub broadcast proof fn lemma_le16_len(v: nat)
    ensures
        (#[trigger] le16(v)).len() == 2,
{
    reveal(le16);
}

/// A 32-bit value takes four bytes.
pub broadcast proof fn lemma_le32_len(v: nat)
    ensures
        (#[trigger] le32(v)).len() == 4,
{
    reveal(le32);
}

/// A 64-bit value takes eight bytes.
pub broadcast proof fn lemma_le64_len(v: nat)
    ensures
        (#[trigger] le64(v)).len() == 8,
{
    reveal(le64);
    reveal(le32);
}

pub broadcast group group_le_len {
    lemma_le16_len,
    lemma_le32_len,
    lemma_le64_len,
}

/// Two zero bytes are the 16-bit value zero.
pub proof fn lemma_le16_zero()
    ensures
        le16(0) == zeros(2),
{
    reveal(le16);
    assert(le16(0) =~= zeros(2));
}

/// The number that bytes stand for when read low byte first.
pub open spec fn from_le(bytes: Seq<u8>) -> nat
    decreases bytes.len(),
{
    if bytes.len() == 0 {
        0
    } else {
        bytes[0] as nat + 256 * from_le(bytes.drop_first())
    }
}

proof fn lemma_from_le_one(b: u8)
    ensures
        from_le(seq![b]) == b,
{
    reveal_with_fuel(from_le, 2);
    assert(seq![b].drop_first() =~= Seq::<u8>::empty());
}

proof fn lemma_from_le_two(b0: u8, b1: u8)
    ensures
        from_le(seq![b0, b1]) == b0 + 0x100 * b1,
{
    lemma_from_le_one(b1);
    assert(seq![b0, b1].drop_first() =~= seq![b1]);
}

proof fn lemma_from_le_four(b0: u8, b1: u8, b2: u8, b3: u8)
    ensures
        from_le(seq![b0, b1, b2, b3]) == b0 + 0x100 * b1 + 0x1_0000 * b2 + 0x100_0000 * b3,
{
    lemma_from_le_two(b2, b3);
    let three = seq![b1, b2, b3];
    let four = seq![b0, b1, b2, b3];
    assert(three.drop_first() =~= seq![b2, b3]);
    assert(four.drop_first() =~= three);
    assert(from_le(three) == b1 + 256 * from_le(seq![b2, b3]));
    assert(from_le(four) == b0 + 256 * from_le(three));
}

/// Reading bytes that are followed by four more: the four count
/// `256^n` times their own value, where `n` is the number of bytes before
/// them.
proof fn lemma_from_le_append(front: Seq<u8>, back: Seq<u8>)
    requires
        front.len() == 4,
    ensures
        from_le(front + back) == from_le(front) + 0x1_0000_0000 * from_le(back),
{
    let all = front + back;
    let a1 = all.drop_first();
    let a2 = a1.drop_first();
    let a3 = a2.drop_first();
    let f1 = front.drop_first();
    let f2 = f1.drop_first();
    let f3 = f2.drop_first();
    assert(a3.drop_first() =~= back);
    assert(f3.drop_first() =~= Seq::<u8>::empty());
    assert(all[0] == front[0] && a1[0] == front[1] && a2[0] == front[2] && a3[0] == front[3]);
    assert(f1[0] == front[1] && f2[0] == front[2] && f3[0] == front[3]);
    reveal_with_fuel(from_le, 6);
}

/// Two bytes written low byte first read back as the value that was
/// written.
pub proof fn lemma_le16_value(v: nat)
    requires
        v <= u16::MAX,
    ensures
        le16(v).len() == 2,
        from_le(le16(v)) == v,
{
    reveal(le16);
    lemma_from_le_two((v % 256) as u8, (v / 256 % 256) as u8);
}

/// Four bytes written low byte first read back as the value that was
/// written.
pub proof fn lemma_le32_value(v: nat)
    requires
        v <= u32::MAX,
    ensures
        le32(v).len() == 4,
        from_le(le32(v)) == v,
{
    reveal(le32);
    lemma_from_le_four(
        (v % 256) as u8,
        (v / 0x100 % 256) as u8,
        (v / 0x1_0000 % 256) as u8,
        (v / 0x100_0000 % 256) as u8,
    );
}

/// Eight bytes written low byte first read back as the value that was
/// written.
pub proof fn lemma_le64_value(v: nat)
    requires
        v <= u64::MAX,
    ensures
        le64(v).len() == 8,
        from_le(le64(v)) == v,
{
    reveal(le64);
    let low = v % 0x1_0000_0000;
    let high = v / 0x1_0000_0000;
    lemma_le32_value(low);
    lemma_le32_value(high);
    lemma_from_le_append(le32(low), le32(high));
}

} // verus!
