use bptimer_core::varint::decode_protobuf_int32;
use bptimer_core::varint::decode_protobuf_int64;
use bptimer_core::varint::decode_protobuf_string;
use bptimer_core::varint::DecodeError;

#[test]
fn varint_two_bytes_decode_to_300() {
    assert_eq!(decode_protobuf_int64(&[0xAC, 0x02]), Ok(300));
    assert_eq!(decode_protobuf_int32(&[0xAC, 0x02]), Ok(300));
}

#[test]
fn varint_single_byte_values() {
    assert_eq!(decode_protobuf_int64(&[0x00]), Ok(0));
    assert_eq!(decode_protobuf_int64(&[0x7F]), Ok(127));
}

#[test]
fn varint_missing_continuation_fails() {
    assert_eq!(
        decode_protobuf_int64(&[0x80, 0x80]),
        Err(DecodeError::IncompleteVarint)
    );
    assert_eq!(
        decode_protobuf_int64(&[0x80; 9]),
        Err(DecodeError::IncompleteVarint)
    );
}

#[test]
fn varint_empty_input_fails() {
    assert_eq!(decode_protobuf_int64(&[]), Err(DecodeError::EmptyData));
    assert_eq!(decode_protobuf_int32(&[]), Err(DecodeError::EmptyData));
    assert_eq!(
        decode_protobuf_string(&[]).unwrap_err(),
        DecodeError::EmptyData
    );
}

#[test]
fn varint_overlong_input_fails() {
    assert_eq!(
        decode_protobuf_int64(&[0x80; 10]),
        Err(DecodeError::VarintTooLarge)
    );
}

#[test]
fn varint_int32_keeps_low_bits() {
    // 2^32 + 1: the 64-bit decode keeps it whole, the 32-bit decode
    // keeps the low 32 bits.
    let bytes = [0x81, 0x80, 0x80, 0x80, 0x10];
    assert_eq!(decode_protobuf_int64(&bytes), Ok(4_294_967_297));
    assert_eq!(decode_protobuf_int32(&bytes), Ok(1));
}

#[test]
fn string_decodes_length_prefixed_utf8() {
    let mut bytes = vec![5u8];
    bytes.extend_from_slice(b"Alice");
    assert_eq!(decode_protobuf_string(&bytes).unwrap(), "Alice");
}

#[test]
fn string_length_past_end_fails() {
    assert_eq!(
        decode_protobuf_string(&[10, b'A']).unwrap_err(),
        DecodeError::StringLength
    );
}

#[test]
fn string_invalid_utf8_fails() {
    assert_eq!(
        decode_protobuf_string(&[2, 0xFF, 0xFE]).unwrap_err(),
        DecodeError::StringUtf8
    );
}

#[test]
fn string_empty_value_decodes_to_empty() {
    assert_eq!(decode_protobuf_string(&[0]).unwrap(), "");
}
