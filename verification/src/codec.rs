use vstd::prelude::*;

verus! {

/// The number that two bytes spell in little-endian order.
pub open spec fn le_u16(s: Seq<u8>) -> int
    recommends
        s.len() == 2,
{
    s[0] + 256 * s[1]
}

/// The number that eight bytes spell in little-endian order.
pub open spec fn le_u64(s: Seq<u8>) -> int
    recommends
        s.len() == 8,
{
    s[0] + 0x100 * s[1] + 0x1_0000 * s[2] + 0x100_0000 * s[3] + 0x1_0000_0000 * s[4]
        + 0x100_0000_0000 * s[5] + 0x1_0000_0000_0000 * s[6] + 0x100_0000_0000_0000 * s[7]
}

/// Eight little-endian bytes read as a signed number in two's complement.
pub open spec fn le_i64(s: Seq<u8>) -> int
    recommends
        s.len() == 8,
{
    if le_u64(s) < 0x8000_0000_0000_0000 {
        le_u64(s)
    } else {
        le_u64(s) - 0x1_0000_0000_0000_0000
    }
}

/// The two little-endian bytes of a number.
pub open spec fn u16_le_bytes(v: u16) -> Seq<u8> {
    seq![(v % 256) as u8, (v / 256) as u8]
}

/// The eight little-endian bytes of a number: each byte is the remainder
/// by 256 of what the bytes before it left over.
pub open spec fn u64_le_bytes(v: u64) -> Seq<u8> {
    let q1 = v / 256;
    let q2 = q1 / 256;
    let q3 = q2 / 256;
    let q4 = q3 / 256;
    let q5 = q4 / 256;
    let q6 = q5 / 256;
    let q7 = q6 / 256;
    seq![
        (v % 256) as u8,
        (q1 % 256) as u8,
        (q2 % 256) as u8,
        (q3 % 256) as u8,
        (q4 % 256) as u8,
        (q5 % 256) as u8,
        (q6 % 256) as u8,
        q7 as u8,
    ]
}

/// Decoding the bytes of a 16-bit number gives the number back.
pub proof fn lemma_u16_round_trip(v: u16)
    ensures
        u16_le_bytes(v).len() == 2,
        le_u16(u16_le_bytes(v)) == v,
{
}

/// Decoding the bytes of a 64-bit number gives the number back.
pub proof fn lemma_u64_round_trip(v: u64)
    ensures
        u64_le_bytes(v).len() == 8,
        le_u64(u64_le_bytes(v)) == v,
{
    let q1 = v / 256;
    let q2 = q1 / 256;
    let q3 = q2 / 256;
    let q4 = q3 / 256;
    let q5 = q4 / 256;
    let q6 = q5 / 256;
    let q7 = q6 / 256;
    assert(v == v % 256 + 256 * q1);
    assert(q1 == q1 % 256 + 256 * q2);
    assert(q2 == q2 % 256 + 256 * q3);
    assert(q3 == q3 % 256 + 256 * q4);
    assert(q4 == q4 % 256 + 256 * q5);
    assert(q5 == q5 % 256 + 256 * q6);
    assert(q6 == q6 % 256 + 256 * q7);
    assert(q7 < 256);
}

/// Reads a little-endian `u16` at `offset`.
pub fn read_u16(bytes: &[u8], offset: usize) -> (v: u16)
    requires
        offset + 2 <= bytes@.len(),
    ensures
        v == le_u16(bytes@.subrange(offset as int, offset + 2)),
{
    let len: usize = bytes.len();
    let b0: u16 = bytes[offset] as u16;
    let b1: u16 = bytes[offset + 1] as u16;
    b0 + 256 * b1
}

/// Reads a little-endian `u64` at `offset`.
pub fn read_u64(bytes: &[u8], offset: usize) -> (v: u64)
    requires
        offset + 8 <= bytes@.len(),
    ensures
        v == le_u64(bytes@.subrange(offset as int, offset + 8)),
{
    let len: usize = bytes.len();
    let b0: u64 = bytes[offset] as u64;
    let b1: u64 = bytes[offset + 1] as u64;
    let b2: u64 = bytes[offset + 2] as u64;
    let b3: u64 = bytes[offset + 3] as u64;
    let b4: u64 = bytes[offset + 4] as u64;
    let b5: u64 = bytes[offset + 5] as u64;
    let b6: u64 = bytes[offset + 6] as u64;
    let b7: u64 = bytes[offset + 7] as u64;
    b0 + 0x100 * b1 + 0x1_0000 * b2 + 0x100_0000 * b3 + 0x1_0000_0000 * b4 + 0x100_0000_0000 * b5
        + 0x1_0000_0000_0000 * b6 + 0x100_0000_0000_0000 * b7
}

/// Reads a little-endian two's-complement `i64` at `offset`.
pub fn read_i64(bytes: &[u8], offset: usize) -> (v: i64)
    requires
        offset + 8 <= bytes@.len(),
    ensures
        v == le_i64(bytes@.subrange(offset as int, offset + 8)),
{
    let raw: u64 = read_u64(bytes, offset);
    if raw < 0x8000_0000_0000_0000 {
        raw as i64
    } else {
        let low: u64 = raw - 0x8000_0000_0000_0000;
        (low as i64) + i64::MIN
    }
}

/// Appends the two little-endian bytes of `v`.
pub fn push_u16(out: &mut Vec<u8>, v: u16)
    ensures
        final(out)@ == old(out)@ + u16_le_bytes(v),
{
    out.push((v % 256) as u8);
    out.push((v / 256) as u8);
    assert(out@ =~= old(out)@ + u16_le_bytes(v));
}

/// Appends the eight little-endian bytes of `v`.
pub fn push_u64(out: &mut Vec<u8>, v: u64)
    ensures
        final(out)@ == old(out)@ + u64_le_bytes(v),
{
    let q1: u64 = v / 256;
    let q2: u64 = q1 / 256;
    let q3: u64 = q2 / 256;
    let q4: u64 = q3 / 256;
    let q5: u64 = q4 / 256;
    let q6: u64 = q5 / 256;
    let q7: u64 = q6 / 256;
    out.push((v % 256) as u8);
    out.push((q1 % 256) as u8);
    out.push((q2 % 256) as u8);
    out.push((q3 % 256) as u8);
    out.push((q4 % 256) as u8);
    out.push((q5 % 256) as u8);
    out.push((q6 % 256) as u8);
    out.push(q7 as u8);
    assert(out@ =~= old(out)@ + u64_le_bytes(v));
}

/// Appends the bytes of `src`.
pub fn push_bytes(out: &mut Vec<u8>, src: &[u8])
    ensures
        final(out)@ == old(out)@ + src@,
{
    let n: usize = src.len();
    let mut i: usize = 0;
    while i < n
        invariant
            i <= n,
            n == src@.len(),
            out@ == old(out)@ + src@.subrange(0, i as int),
        decreases n - i,
    {
        out.push(src[i]);
        i += 1;
        assert(out@ =~= old(out)@ + src@.subrange(0, i as int));
    }
    assert(src@.subrange(0, n as int) =~= src@);
}

} // verus!
