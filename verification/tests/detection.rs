use bptimer_core::detector::detect_server_in_packet;

const LOGIN_PREFIX: [u8; 10] = [0x00, 0x00, 0x00, 0x62, 0x00, 0x03, 0x00, 0x00, 0x00, 0x01];
const LOGIN_MID: [u8; 6] = [0x00, 0x00, 0x00, 0x00, 0x0a, 0x4e];
const SERVER_SIGNATURE: [u8; 6] = [0x00, 0x63, 0x33, 0x53, 0x42, 0x00];

fn login_return_payload(len: usize) -> Vec<u8> {
    let mut p = vec![0u8; len];
    p[..10].copy_from_slice(&LOGIN_PREFIX);
    p[14..20].copy_from_slice(&LOGIN_MID);
    p
}

#[test]
fn exact_login_return_literal_is_detected() {
    let p = login_return_payload(98);
    assert!(detect_server_in_packet(&p));
}

#[test]
fn login_prefix_at_wrong_length_is_not_detected() {
    // 97 and 99 bytes with the identical prefix bytes fail the
    // fixed-length path, and their zero padding offers no sub-packet.
    assert!(!detect_server_in_packet(&login_return_payload(97)));
    assert!(!detect_server_in_packet(&login_return_payload(99)));
}

#[test]
fn corrupt_login_literal_is_not_detected() {
    let mut p = login_return_payload(98);
    p[1] = 0x01;
    assert!(!detect_server_in_packet(&p));
    let mut p = login_return_payload(98);
    p[19] = 0x4f;
    assert!(!detect_server_in_packet(&p));
}

fn embedded_payload(sub_packets: &[Vec<u8>]) -> Vec<u8> {
    let mut p = vec![0u8; 10];
    for sp in sub_packets {
        p.extend_from_slice(sp);
    }
    p
}

fn sub_packet(body: &[u8]) -> Vec<u8> {
    let len = (body.len() + 4) as u32;
    let mut sp = len.to_be_bytes().to_vec();
    sp.extend_from_slice(body);
    sp
}

#[test]
fn embedded_signature_is_detected_after_unrelated_sub_packets() {
    let mut body = vec![0u8; 11];
    body[5..11].copy_from_slice(&SERVER_SIGNATURE);
    let payload = embedded_payload(&[sub_packet(&[]), sub_packet(&[7, 7, 7]), sub_packet(&body)]);
    assert!(detect_server_in_packet(&payload));
}

#[test]
fn signature_at_wrong_offset_is_not_detected() {
    let mut body = vec![0u8; 12];
    body[6..12].copy_from_slice(&SERVER_SIGNATURE);
    let payload = embedded_payload(&[sub_packet(&body)]);
    assert!(!detect_server_in_packet(&payload));
}

#[test]
fn implausible_sub_packet_length_ends_the_scan() {
    let mut body = vec![0u8; 11];
    body[5..11].copy_from_slice(&SERVER_SIGNATURE);
    // A sub-packet declaring less than its own prefix stops the walk
    // before the signature-bearing packet is reached.
    let mut bad = vec![0, 0, 0, 2];
    bad.extend_from_slice(&sub_packet(&body));
    let payload = embedded_payload(&[bad]);
    assert!(!detect_server_in_packet(&payload));
}

#[test]
fn nonzero_header_byte_disables_the_embedded_path() {
    let mut body = vec![0u8; 11];
    body[5..11].copy_from_slice(&SERVER_SIGNATURE);
    let mut payload = embedded_payload(&[sub_packet(&body)]);
    payload[4] = 1;
    assert!(!detect_server_in_packet(&payload));
}
