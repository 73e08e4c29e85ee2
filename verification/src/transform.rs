//! The reversible byte transform applied to data in flight.
//!
//! On the write path every byte of the caller's buffer is encoded into one
//! transient buffer of the same length; on the read path the buffer filled
//! by the backing VFS is decoded in place. The transform is a fixed additive
//! byte shift: it never fails, never changes the transfer length, and is
//! exactly inverted by the decoding direction.

use vstd::prelude::*;

verus! {

/// The additive shift applied to each byte on the write path.
pub const TRANSFORM_SHIFT: u8 = 13;

/// What encoding does to a single byte: add the shift, wrapping around.
pub open spec fn enc_byte(b: u8) -> u8 {
    if b + TRANSFORM_SHIFT <= u8::MAX {
        (b + TRANSFORM_SHIFT) as u8
    } else {
        (b + TRANSFORM_SHIFT - 256) as u8
    }
}

/// What decoding does to a single byte: subtract the shift, wrapping around.
pub open spec fn dec_byte(b: u8) -> u8 {
    if b >= TRANSFORM_SHIFT {
        (b - TRANSFORM_SHIFT) as u8
    } else {
        (b + 256 - TRANSFORM_SHIFT) as u8
    }
}

/// The encoded image of a whole byte sequence.
pub open spec fn encode_seq(s: Seq<u8>) -> Seq<u8> {
    s.map(|i: int, b: u8| enc_byte(b))
}

/// The decoded image of a whole byte sequence.
pub open spec fn decode_seq(s: Seq<u8>) -> Seq<u8> {
    s.map(|i: int, b: u8| dec_byte(b))
}

/// Law: decoding inverts encoding on every byte sequence, whatever its
/// length and contents.
pub proof fn lemma_round_trip(s: Seq<u8>)
    ensures
        decode_seq(encode_seq(s)) == s,
{
    assert(decode_seq(encode_seq(s)) =~= s);
}

/// Encoding a byte twice never gives the byte back: the transform is a
/// genuine shift, not an involution, so the two directions really differ.
pub proof fn lemma_double_encode_moves(b: u8)
    ensures
        enc_byte(enc_byte(b)) != b,
{
}

/// Encode a buffer into a fresh buffer of the same length, leaving the
/// source untouched; this is the transform half of the write path.
pub fn encode_bytes(src: &Vec<u8>) -> (out: Vec<u8>)
    ensures
        out@ == encode_seq(src@),
        out@.len() == src@.len(),
{
    let mut out: Vec<u8> = Vec::new();
    let mut i: usize = 0;
    while i < src.len()
        invariant
            i <= src@.len(),
            out@ == encode_seq(src@).take(i as int),
        decreases src@.len() - i,
    {
        let b = src[i];
        let e = if b <= u8::MAX - TRANSFORM_SHIFT {
            b + TRANSFORM_SHIFT
        } else {
            b - (u8::MAX - TRANSFORM_SHIFT + 1)
        };
        out.push(e);
        i = i + 1;
        assert(out@ =~= encode_seq(src@).take(i as int));
    }
    assert(out@ =~= encode_seq(src@));
    out
}

/// Decode a buffer in place; this is the transform half of the read path.
pub fn decode_bytes(buf: &mut Vec<u8>)
    ensures
        final(buf)@ == decode_seq(old(buf)@),
        final(buf)@.len() == old(buf)@.len(),
{
    let n = buf.len();
    let mut i: usize = 0;
    while i < n
        invariant
            i <= n,
            n == old(buf)@.len(),
            buf@.len() == n,
            forall|j: int| 0 <= j < i ==> buf@[j] == dec_byte(old(buf)@[j]),
            forall|j: int| i <= j < n ==> buf@[j] == old(buf)@[j],
        decreases n - i,
    {
        let b = buf[i];
        let d = if b >= TRANSFORM_SHIFT {
            b - TRANSFORM_SHIFT
        } else {
            b + (u8::MAX - TRANSFORM_SHIFT + 1)
        };
        buf[i] = d;
        i = i + 1;
    }
    assert(buf@ =~= decode_seq(old(buf)@));
}

/// The tail of the shim's read path: the backing read has filled `buf`
/// and answered `backing_status`; decode the buffer in place and pass the
/// backing's result code through unchanged — the transform itself cannot
/// fail and adds no failure mode of its own.
pub fn finish_read(backing_status: i32, buf: &mut Vec<u8>) -> (r: i32)
    ensures
        r == backing_status,
        final(buf)@ == decode_seq(old(buf)@),
{
    decode_bytes(buf);
    backing_status
}

} // verus!
