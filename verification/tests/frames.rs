use bptimer_core::frames::process_bp_packet;
use bptimer_core::protocol::MessageMethod;

const NOTIFY: u16 = 2;
const FRAME_DOWN: u16 = 6;
const COMPRESSED: u16 = 0x8000;
const SERVICE_UUID: u64 = 0x63335342;
const METHOD_NEAR_DELTA: u32 = 0x2D;

fn frame(packet_type: u16, body: &[u8]) -> Vec<u8> {
    let len = (body.len() + 6) as u32;
    let mut f = len.to_be_bytes().to_vec();
    f.extend_from_slice(&packet_type.to_be_bytes());
    f.extend_from_slice(body);
    f
}

fn notify_frame(method_id: u32, payload: &[u8], compressed: bool) -> Vec<u8> {
    let mut body = SERVICE_UUID.to_be_bytes().to_vec();
    body.extend_from_slice(&[0, 0, 0, 0]);
    body.extend_from_slice(&method_id.to_be_bytes());
    if compressed {
        body.extend_from_slice(&zstd::encode_all(payload, 0).unwrap());
    } else {
        body.extend_from_slice(payload);
    }
    frame(if compressed { NOTIFY | COMPRESSED } else { NOTIFY }, body.as_slice())
}

fn frame_down(nested: &[u8], compressed: bool) -> Vec<u8> {
    let mut body = vec![0u8; 4];
    if compressed {
        body.extend_from_slice(&zstd::encode_all(nested, 0).unwrap());
    } else {
        body.extend_from_slice(nested);
    }
    frame(if compressed { FRAME_DOWN | COMPRESSED } else { FRAME_DOWN }, body.as_slice())
}

#[test]
fn notify_frame_yields_its_method_and_payload() {
    let f = notify_frame(METHOD_NEAR_DELTA, b"payload", false);
    let msgs = process_bp_packet(&f);
    assert_eq!(msgs.len(), 1);
    assert_eq!(msgs[0].method, MessageMethod::SyncNearDeltaInfo);
    assert_eq!(msgs[0].payload, b"payload".to_vec());
}

#[test]
fn compressed_notify_payload_is_decompressed() {
    let plain: Vec<u8> = (0..200u8).cycle().take(1000).collect();
    let f = notify_frame(0x06, &plain, true);
    let msgs = process_bp_packet(&f);
    assert_eq!(msgs.len(), 1);
    assert_eq!(msgs[0].method, MessageMethod::SyncNearEntities);
    assert_eq!(msgs[0].payload, plain);
}

#[test]
fn unknown_method_is_ignored() {
    let f = notify_frame(0x99, b"payload", false);
    assert!(process_bp_packet(&f).is_empty());
}

#[test]
fn wrong_service_identifier_is_ignored() {
    let mut body = 0x1111_1111_u64.to_be_bytes().to_vec();
    body.extend_from_slice(&[0, 0, 0, 0]);
    body.extend_from_slice(&METHOD_NEAR_DELTA.to_be_bytes());
    body.extend_from_slice(b"payload");
    let f = frame(NOTIFY, body.as_slice());
    assert!(process_bp_packet(&f).is_empty());
}

#[test]
fn other_message_types_are_ignored() {
    let f = frame(3, b"anything at all");
    assert!(process_bp_packet(&f).is_empty());
    let f = frame(4, b"anything at all");
    assert!(process_bp_packet(&f).is_empty());
}

#[test]
fn corrupt_compressed_payload_drops_the_frame() {
    let mut body = SERVICE_UUID.to_be_bytes().to_vec();
    body.extend_from_slice(&[0, 0, 0, 0]);
    body.extend_from_slice(&METHOD_NEAR_DELTA.to_be_bytes());
    body.extend_from_slice(b"this is not a zstd frame");
    let f = frame(NOTIFY | COMPRESSED, body.as_slice());
    assert!(process_bp_packet(&f).is_empty());
}

#[test]
fn frame_down_unwraps_nested_notify_frames() {
    let inner1 = notify_frame(METHOD_NEAR_DELTA, b"one", false);
    let inner2 = notify_frame(0x2E, b"two", false);
    let mut nested = inner1.clone();
    nested.extend_from_slice(&inner2);
    let f = frame_down(&nested, false);
    let msgs = process_bp_packet(&f);
    assert_eq!(msgs.len(), 2);
    assert_eq!(msgs[0].method, MessageMethod::SyncNearDeltaInfo);
    assert_eq!(msgs[0].payload, b"one".to_vec());
    assert_eq!(msgs[1].method, MessageMethod::SyncToMeDeltaInfo);
    assert_eq!(msgs[1].payload, b"two".to_vec());
}

#[test]
fn compressed_frame_down_is_decompressed_before_scanning() {
    let inner = notify_frame(METHOD_NEAR_DELTA, b"deep", false);
    let f = frame_down(&inner, true);
    let msgs = process_bp_packet(&f);
    assert_eq!(msgs.len(), 1);
    assert_eq!(msgs[0].payload, b"deep".to_vec());
}

#[test]
fn ten_levels_of_nesting_still_reach_the_content() {
    let mut f = notify_frame(METHOD_NEAR_DELTA, b"kernel", false);
    for _ in 0..10 {
        f = frame_down(&f, false);
    }
    let msgs = process_bp_packet(&f);
    assert_eq!(msgs.len(), 1);
    assert_eq!(msgs[0].payload, b"kernel".to_vec());
}

#[test]
fn eleven_levels_of_nesting_drop_the_innermost_content() {
    let mut f = notify_frame(METHOD_NEAR_DELTA, b"kernel", false);
    for _ in 0..11 {
        f = frame_down(&f, false);
    }
    assert!(process_bp_packet(&f).is_empty());
}

#[test]
fn truncated_frames_yield_nothing() {
    assert!(process_bp_packet(&[]).is_empty());
    assert!(process_bp_packet(&[0, 0, 0, 6, 0]).is_empty());
    // A notify frame cut before its envelope ends is dropped.
    let f = frame(NOTIFY, &[1, 2, 3]);
    assert!(process_bp_packet(&f).is_empty());
}
