//! Endianness-aware primitive fields of the EWKB format: single bytes,
//! 32-bit words, and 64-bit words (the IEEE-754 bit pattern of a coordinate).

use crate::error::Error;
use vstd::prelude::*;

verus! {

// --- Mathematical byte layout of the primitive fields ---

/// The `u32` assembled from four bytes, least significant first.
pub open spec fn u32_from(b0: u8, b1: u8, b2: u8, b3: u8) -> u32 {
    (b0 as u32) | (b1 as u32) << 8 | (b2 as u32) << 16 | (b3 as u32) << 24
}

/// The `u64` assembled from eight bytes, least significant first.
pub open spec fn u64_from(b0: u8, b1: u8, b2: u8, b3: u8, b4: u8, b5: u8, b6: u8, b7: u8) -> u64 {
    (b0 as u64) | (b1 as u64) << 8 | (b2 as u64) << 16 | (b3 as u64) << 24 | (b4 as u64) << 32
        | (b5 as u64) << 40 | (b6 as u64) << 48 | (b7 as u64) << 56
}

/// The little-endian byte layout of a `u32`.
pub open spec fn u32_le_bytes(v: u32) -> Seq<u8> {
    seq![
        (v & 0xff) as u8,
        ((v >> 8) & 0xff) as u8,
        ((v >> 16) & 0xff) as u8,
        ((v >> 24) & 0xff) as u8,
    ]
}

/// The little-endian byte layout of a `u64`.
pub open spec fn u64_le_bytes(v: u64) -> Seq<u8> {
    seq![
        (v & 0xff) as u8,
        ((v >> 8) & 0xff) as u8,
        ((v >> 16) & 0xff) as u8,
        ((v >> 24) & 0xff) as u8,
        ((v >> 32) & 0xff) as u8,
        ((v >> 40) & 0xff) as u8,
        ((v >> 48) & 0xff) as u8,
        ((v >> 56) & 0xff) as u8,
    ]
}

/// The little-endian byte layout of an `i32` (two's complement).
pub open spec fn i32_le_bytes(v: i32) -> Seq<u8> {
    u32_le_bytes(v as u32)
}

// --- Specification of the readers ---
//
// Each reader yields the decoded value and the position just past the field,
// or `Error::Read` when the stream is exhausted before the field is complete.

/// One byte at `pos`.
pub open spec fn spec_read_byte(bytes: Seq<u8>, pos: int) -> Result<(u8, int), Error> {
    if 0 <= pos && pos + 1 <= bytes.len() {
        Ok((bytes[pos], pos + 1))
    } else {
        Err(Error::Read)
    }
}

/// A 32-bit unsigned word at `pos`, big- or little-endian.
pub open spec fn spec_read_u32(bytes: Seq<u8>, pos: int, is_be: bool) -> Result<(u32, int), Error> {
    if 0 <= pos && pos + 4 <= bytes.len() {
        let v = if is_be {
            u32_from(bytes[pos + 3], bytes[pos + 2], bytes[pos + 1], bytes[pos])
        } else {
            u32_from(bytes[pos], bytes[pos + 1], bytes[pos + 2], bytes[pos + 3])
        };
        Ok((v, pos + 4))
    } else {
        Err(Error::Read)
    }
}

/// A 32-bit signed word at `pos`: the unsigned word reinterpreted.
pub open spec fn spec_read_i32(bytes: Seq<u8>, pos: int, is_be: bool) -> Result<(i32, int), Error> {
    match spec_read_u32(bytes, pos, is_be) {
        Ok((v, p)) => Ok((v as i32, p)),
        Err(e) => Err(e),
    }
}

/// A 64-bit word at `pos`, big- or little-endian.
pub open spec fn spec_read_u64(bytes: Seq<u8>, pos: int, is_be: bool) -> Result<(u64, int), Error> {
    if 0 <= pos && pos + 8 <= bytes.len() {
        let v = if is_be {
            u64_from(
                bytes[pos + 7],
                bytes[pos + 6],
                bytes[pos + 5],
                bytes[pos + 4],
                bytes[pos + 3],
                bytes[pos + 2],
                bytes[pos + 1],
                bytes[pos],
            )
        } else {
            u64_from(
                bytes[pos],
                bytes[pos + 1],
                bytes[pos + 2],
                bytes[pos + 3],
                bytes[pos + 4],
                bytes[pos + 5],
                bytes[pos + 6],
                bytes[pos + 7],
            )
        };
        Ok((v, pos + 8))
    } else {
        Err(Error::Read)
    }
}

// --- Executable readers ---

/// Reads one byte and advances the cursor.
pub fn read_byte(raw: &Vec<u8>, pos: &mut usize) -> (r: Result<u8, Error>)
    requires
        *old(pos) <= raw@.len(),
    ensures
        match spec_read_byte(raw@, *old(pos) as int) {
            Ok(vp) => r == Ok::<u8, Error>(vp.0) && *final(pos) as int == vp.1,
            Err(e) => r == Err::<u8, Error>(e) && *final(pos) == *old(pos),
        },
        *old(pos) <= *final(pos) <= raw@.len(),
{
    if raw.len() >= 1 && *pos <= raw.len() - 1 {
        let b = raw[*pos];
        *pos = *pos + 1;
        Ok(b)
    } else {
        Err(Error::Read)
    }
}

/// Reads a 32-bit unsigned word in the given byte order and advances the cursor.
pub fn read_u32(raw: &Vec<u8>, pos: &mut usize, is_be: bool) -> (r: Result<u32, Error>)
    requires
        *old(pos) <= raw@.len(),
    ensures
        match spec_read_u32(raw@, *old(pos) as int, is_be) {
            Ok(vp) => r == Ok::<u32, Error>(vp.0) && *final(pos) as int == vp.1,
            Err(e) => r == Err::<u32, Error>(e) && *final(pos) == *old(pos),
        },
        *old(pos) <= *final(pos) <= raw@.len(),
{
    if raw.len() >= 4 && *pos <= raw.len() - 4 {
        let b0 = raw[*pos];
        let b1 = raw[*pos + 1];
        let b2 = raw[*pos + 2];
        let b3 = raw[*pos + 3];
        *pos = *pos + 4;
        if is_be {
            Ok((b3 as u32) | (b2 as u32) << 8 | (b1 as u32) << 16 | (b0 as u32) << 24)
        } else {
            Ok((b0 as u32) | (b1 as u32) << 8 | (b2 as u32) << 16 | (b3 as u32) << 24)
        }
    } else {
        Err(Error::Read)
    }
}

/// Reads a 32-bit signed word in the given byte order and advances the cursor.
pub fn read_i32(raw: &Vec<u8>, pos: &mut usize, is_be: bool) -> (r: Result<i32, Error>)
    requires
        *old(pos) <= raw@.len(),
    ensures
        match spec_read_i32(raw@, *old(pos) as int, is_be) {
            Ok(vp) => r == Ok::<i32, Error>(vp.0) && *final(pos) as int == vp.1,
            Err(e) => r == Err::<i32, Error>(e) && *final(pos) == *old(pos),
        },
        *old(pos) <= *final(pos) <= raw@.len(),
{
    match read_u32(raw, pos, is_be) {
        Ok(v) => Ok(#[verifier::truncate] (v as i32)),
        Err(e) => Err(e),
    }
}

/// Reads a 64-bit word (a coordinate's IEEE-754 bit pattern) in the given
/// byte order and advances the cursor.
pub fn read_u64(raw: &Vec<u8>, pos: &mut usize, is_be: bool) -> (r: Result<u64, Error>)
    requires
        *old(pos) <= raw@.len(),
    ensures
        match spec_read_u64(raw@, *old(pos) as int, is_be) {
            Ok(vp) => r == Ok::<u64, Error>(vp.0) && *final(pos) as int == vp.1,
            Err(e) => r == Err::<u64, Error>(e) && *final(pos) == *old(pos),
        },
        *old(pos) <= *final(pos) <= raw@.len(),
{
    if raw.len() >= 8 && *pos <= raw.len() - 8 {
        let b0 = raw[*pos];
        let b1 = raw[*pos + 1];
        let b2 = raw[*pos + 2];
        let b3 = raw[*pos + 3];
        let b4 = raw[*pos + 4];
        let b5 = raw[*pos + 5];
        let b6 = raw[*pos + 6];
        let b7 = raw[*pos + 7];
        *pos = *pos + 8;
        if is_be {
            Ok(
                (b7 as u64) | (b6 as u64) << 8 | (b5 as u64) << 16 | (b4 as u64) << 24 | (b3
                    as u64) << 32 | (b2 as u64) << 40 | (b1 as u64) << 48 | (b0 as u64) << 56,
            )
        } else {
            Ok(
                (b0 as u64) | (b1 as u64) << 8 | (b2 as u64) << 16 | (b3 as u64) << 24 | (b4
                    as u64) << 32 | (b5 as u64) << 40 | (b6 as u64) << 48 | (b7 as u64) << 56,
            )
        }
    } else {
        Err(Error::Read)
    }
}

// --- Executable writers (always little-endian, as every writer of this
// format is) ---

/// Appends the little-endian bytes of a `u32`.
pub fn write_u32_le(out: &mut Vec<u8>, v: u32)
    ensures
        final(out)@ == old(out)@ + u32_le_bytes(v),
{
    proof {
        assert(v & 0xff < 256 && (v >> 8) & 0xff < 256 && (v >> 16) & 0xff < 256 && (v >> 24)
            & 0xff < 256) by (bit_vector);
    }
    out.push((v & 0xff) as u8);
    out.push(((v >> 8) & 0xff) as u8);
    out.push(((v >> 16) & 0xff) as u8);
    out.push(((v >> 24) & 0xff) as u8);
    proof {
        assert(out@ =~= old(out)@ + u32_le_bytes(v));
    }
}

/// Appends the little-endian bytes of a `u64`.
pub fn write_u64_le(out: &mut Vec<u8>, v: u64)
    ensures
        final(out)@ == old(out)@ + u64_le_bytes(v),
{
    proof {
        assert(v & 0xff < 256 && (v >> 8) & 0xff < 256 && (v >> 16) & 0xff < 256 && (v >> 24)
            & 0xff < 256 && (v >> 32) & 0xff < 256 && (v >> 40) & 0xff < 256 && (v >> 48) & 0xff
            < 256 && (v >> 56) & 0xff < 256) by (bit_vector);
    }
    out.push((v & 0xff) as u8);
    out.push(((v >> 8) & 0xff) as u8);
    out.push(((v >> 16) & 0xff) as u8);
    out.push(((v >> 24) & 0xff) as u8);
    out.push(((v >> 32) & 0xff) as u8);
    out.push(((v >> 40) & 0xff) as u8);
    out.push(((v >> 48) & 0xff) as u8);
    out.push(((v >> 56) & 0xff) as u8);
    proof {
        assert(out@ =~= old(out)@ + u64_le_bytes(v));
    }
}

/// Appends the little-endian bytes of an `i32` (two's complement).
pub fn write_i32_le(out: &mut Vec<u8>, v: i32)
    ensures
        final(out)@ == old(out)@ + i32_le_bytes(v),
{
    write_u32_le(out, #[verifier::truncate] (v as u32));
}

// --- Round-trip facts about the primitive fields ---

/// Reading back the little-endian bytes of a `u32` yields the value itself.
pub proof fn lemma_u32_le_roundtrip(v: u32)
    ensures
        u32_from(
            (v & 0xff) as u8,
            ((v >> 8) & 0xff) as u8,
            ((v >> 16) & 0xff) as u8,
            ((v >> 24) & 0xff) as u8,
        ) == v,
{
    assert(((v & 0xff) as u8 as u32) | (((v >> 8) & 0xff) as u8 as u32) << 8 | (((v >> 16)
        & 0xff) as u8 as u32) << 16 | (((v >> 24) & 0xff) as u8 as u32) << 24 == v)
        by (bit_vector);
}

/// Reading back the little-endian bytes of a `u64` yields the value itself.
pub proof fn lemma_u64_le_roundtrip(v: u64)
    ensures
        u64_from(
            (v & 0xff) as u8,
            ((v >> 8) & 0xff) as u8,
            ((v >> 16) & 0xff) as u8,
            ((v >> 24) & 0xff) as u8,
            ((v >> 32) & 0xff) as u8,
            ((v >> 40) & 0xff) as u8,
            ((v >> 48) & 0xff) as u8,
            ((v >> 56) & 0xff) as u8,
        ) == v,
{
    assert(((v & 0xff) as u8 as u64) | (((v >> 8) & 0xff) as u8 as u64) << 8 | (((v >> 16)
        & 0xff) as u8 as u64) << 16 | (((v >> 24) & 0xff) as u8 as u64) << 24 | (((v >> 32)
        & 0xff) as u8 as u64) << 32 | (((v >> 40) & 0xff) as u8 as u64) << 40 | (((v >> 48)
        & 0xff) as u8 as u64) << 48 | (((v >> 56) & 0xff) as u8 as u64) << 56 == v)
        by (bit_vector);
}

/// Reading back the little-endian bytes of an `i32` yields the value itself.
pub proof fn lemma_i32_le_roundtrip(v: i32)
    ensures
        (u32_from(
            ((v as u32) & 0xff) as u8,
            (((v as u32) >> 8) & 0xff) as u8,
            (((v as u32) >> 16) & 0xff) as u8,
            (((v as u32) >> 24) & 0xff) as u8,
        ) as i32) == v,
{
    lemma_u32_le_roundtrip(v as u32);
    assert((v as u32) as i32 == v) by (bit_vector);
}

} // verus!
