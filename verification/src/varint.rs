//! Variable-length integer and string decoding for attribute values:
//! LEB128-style varints (7 payload bits per byte, continuation in bit 7)
//! and varint-length-prefixed UTF-8 strings. Decoding fails — it never
//! panics — on truncated input or on exceeding the target integer width.
use vstd::prelude::*;

use vstd::utf8::{decode_utf8, valid_utf8};

verus! {

/// Why a decode of an attribute value failed.
#[derive(Debug, Clone, Copy, PartialEq, Eq, Structural)]
pub enum DecodeError {
    /// The input held no bytes at all.
    EmptyData,
    /// The last byte still had its continuation bit set.
    IncompleteVarint,
    /// More bits accumulated than the target integer width holds.
    VarintTooLarge,
    /// The declared string length runs past the end of the input.
    StringLength,
    /// The string bytes are not valid UTF-8.
    StringUtf8,
}

/// Decode a varint from `data` starting at index `i`, with `shift` bits
/// already consumed into `acc`; at most `width` bits (64 or 32) may
/// accumulate. Gives the value and the index just past the varint.
pub open spec fn spec_varint_from(
    data: Seq<u8>,
    i: int,
    shift: u64,
    acc: u64,
    width: u64,
) -> Result<(u64, int), DecodeError>
    decreases data.len() - i,
    when 0 <= i
{
    if i >= data.len() {
        Err(DecodeError::IncompleteVarint)
    } else {
        let b = data[i];
        let acc2 = acc | (((b & 0x7f) as u64) << shift);
        if b & 0x80 == 0 {
            Ok((acc2, i + 1))
        } else if shift + 7 >= width {
            Err(DecodeError::VarintTooLarge)
        } else {
            spec_varint_from(data, i + 1, (shift + 7) as u64, acc2, width)
        }
    }
}

/// The 64-bit varint at the start of `data`: empty input is rejected, then
/// the bytes decode as `spec_varint_from` says.
pub open spec fn spec_varint64(data: Seq<u8>) -> Result<u64, DecodeError> {
    if data.len() == 0 {
        Err(DecodeError::EmptyData)
    } else {
        match spec_varint_from(data, 0, 0, 0, 64) {
            Ok(p) => Ok(p.0),
            Err(e) => Err(e),
        }
    }
}

/// The string at the start of `data`: a 32-bit varint length, then that
/// many bytes of UTF-8.
pub open spec fn spec_decode_string(data: Seq<u8>) -> Result<Seq<char>, DecodeError> {
    if data.len() == 0 {
        Err(DecodeError::EmptyData)
    } else {
        match spec_varint_from(data, 0, 0, 0, 32) {
            Ok((len, end)) => {
                if end + len > data.len() {
                    Err(DecodeError::StringLength)
                } else {
                    let bytes = data.subrange(end, end + len);
                    if valid_utf8(bytes) {
                        Ok(decode_utf8(bytes))
                    } else {
                        Err(DecodeError::StringUtf8)
                    }
                }
            },
            Err(e) => Err(e),
        }
    }
}

/// Relies on String::from_utf8: it succeeds exactly on valid UTF-8 input
/// and then returns that input decoded, as vstd's UTF-8 model states it.
#[verifier::external_body]
fn bytes_to_utf8(bytes: Vec<u8>) -> (r: Option<String>)
    ensures
        r is Some <==> valid_utf8(bytes@),
        r is Some ==> r->0@ == decode_utf8(bytes@),
{
    match String::from_utf8(bytes) {
        Ok(s) => Some(s),
        Err(_) => None,
    }
}

/// Decode the varint at the start of `data`, accumulating into a 64-bit
/// value with at most `width` bits (a named width keeps the 64- and 32-bit
/// decoders one code path, as the wire format treats them alike).
fn decode_varint(data: &[u8], width: u64) -> (r: Result<(u64, usize), DecodeError>)
    requires
        width == 64 || width == 32,
    ensures
        match r {
            Ok(p) => spec_varint_from(data@, 0, 0, 0, width) == Ok::<_, DecodeError>(
                (p.0, p.1 as int),
            ) && p.1 <= data@.len(),
            Err(e) => spec_varint_from(data@, 0, 0, 0, width) == Err::<(u64, int), _>(e),
        },
{
    let mut cursor: usize = 0;
    let mut value: u64 = 0;
    let mut shift: u64 = 0;
    loop
        invariant
            width == 64 || width == 32,
            cursor <= data@.len(),
            shift < width,
            spec_varint_from(data@, cursor as int, shift, value, width) == spec_varint_from(
                data@,
                0,
                0,
                0,
                width,
            ),
        decreases data@.len() - cursor,
    {
        if cursor >= data.len() {
            return Err(DecodeError::IncompleteVarint);
        }
        let b = data[cursor];
        cursor = cursor + 1;
        value = value | (((b & 0x7f) as u64) << shift);
        if b & 0x80 == 0 {
            return Ok((value, cursor));
        }
        if shift + 7 >= width {
            return Err(DecodeError::VarintTooLarge);
        }
        shift = shift + 7;
    }
}

/// Decode a varint-encoded 64-bit integer from raw attribute bytes.
pub fn decode_protobuf_int64(data: &[u8]) -> (r: Result<i64, DecodeError>)
    ensures
        match r {
            Ok(v) => spec_varint64(data@) matches Ok(u) && v == u as i64,
            Err(e) => spec_varint64(data@) == Err::<u64, _>(e),
        },
{
    if data.len() == 0 {
        return Err(DecodeError::EmptyData);
    }
    match decode_varint(data, 64) {
        Ok((value, _)) => Ok(
            #[verifier::truncate]
            (value as i64),
        ),
        Err(e) => Err(e),
    }
}

/// Decode a varint-encoded 32-bit integer from raw attribute bytes. As on
/// the wire, up to 64 bits are accumulated and the low 32 kept.
pub fn decode_protobuf_int32(data: &[u8]) -> (r: Result<i32, DecodeError>)
    ensures
        match r {
            Ok(v) => spec_varint64(data@) matches Ok(u) && v == u as i32,
            Err(e) => spec_varint64(data@) == Err::<u64, _>(e),
        },
{
    if data.len() == 0 {
        return Err(DecodeError::EmptyData);
    }
    match decode_varint(data, 64) {
        Ok((value, _)) => Ok(
            #[verifier::truncate]
            (value as i32),
        ),
        Err(e) => Err(e),
    }
}

/// Decode a varint-length-prefixed UTF-8 string from raw attribute bytes.
pub fn decode_protobuf_string(data: &[u8]) -> (r: Result<String, DecodeError>)
    ensures
        match r {
            Ok(s) => spec_decode_string(data@) matches Ok(cs) && s@ == cs,
            Err(e) => spec_decode_string(data@) == Err::<Seq<char>, _>(e),
        },
{
    if data.len() == 0 {
        return Err(DecodeError::EmptyData);
    }
    match decode_varint(data, 32) {
        Ok((length, end)) => {
            if length > (data.len() - end) as u64 {
                return Err(DecodeError::StringLength);
            }
            let length_us = length as usize;
            let bytes_slice = vstd::slice::slice_subrange(data, end, end + length_us);
            let bytes = vstd::slice::slice_to_vec(bytes_slice);
            match bytes_to_utf8(bytes) {
                Some(s) => Ok(s),
                None => Err(DecodeError::StringUtf8),
            }
        },
        Err(e) => Err(e),
    }
}

} // verus!
