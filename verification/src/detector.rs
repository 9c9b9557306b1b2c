//! Stateless server detection: decides from a TCP payload alone whether the
//! conversation speaks the game protocol, by two independent signatures: a
//! fixed-size login-return frame, and a short literal embedded in framed
//! sub-packets.
use vstd::prelude::*;

use crate::reassembly::spec_be32;

verus! {

/// Exact length of a login-return frame.
pub const LOGIN_RETURN_SIGNATURE_SIZE: usize = 0x62;

/// Offset of the embedded server signature within a sub-packet's body.
pub const SERVER_SIGNATURE_OFFSET: usize = 5;

/// Bytes [0,10) of the login-return signature.
pub open spec fn spec_login_prefix() -> Seq<u8> {
    seq![0x00u8, 0x00, 0x00, 0x62, 0x00, 0x03, 0x00, 0x00, 0x00, 0x01]
}

/// Bytes [14,20) of the login-return signature.
pub open spec fn spec_login_mid() -> Seq<u8> {
    seq![0x00u8, 0x00, 0x00, 0x00, 0x0a, 0x4e]
}

/// The 6-byte embedded server signature.
pub open spec fn spec_server_signature() -> Seq<u8> {
    seq![0x00u8, 0x63, 0x33, 0x53, 0x42, 0x00]
}

/// Whether a payload is a login-return frame: exactly the known length,
/// with the known literal at bytes [0,10) and [14,20).
pub open spec fn spec_login_signature_match(p: Seq<u8>) -> bool {
    &&& p.len() == LOGIN_RETURN_SIGNATURE_SIZE
    &&& p.subrange(0, 10) == spec_login_prefix()
    &&& p.subrange(14, 20) == spec_login_mid()
}

/// Scan the 4-byte-length-prefixed sub-packets of `data` from `pos` on:
/// true when some internally consistent sub-packet carries the server
/// signature at the fixed offset within its body. An implausible declared
/// length ends the scan.
pub open spec fn spec_scan_sub_packets(data: Seq<u8>, pos: int) -> bool
    decreases data.len() - pos,
    when 0 <= pos
{
    if pos + 4 <= data.len() {
        let packet_len = spec_be32(data.subrange(pos, pos + 4));
        if packet_len < 4 || packet_len > data.len() - pos + 4 {
            false
        } else if pos + packet_len > data.len() {
            false
        } else if packet_len - 4 >= SERVER_SIGNATURE_OFFSET + spec_server_signature().len()
            && data.subrange(pos + 4 + 5, pos + 4 + 11) == spec_server_signature() {
            true
        } else {
            spec_scan_sub_packets(data, pos + packet_len)
        }
    } else {
        false
    }
}

/// Whether a payload identifies the game server: either it is the exact
/// login-return frame, or (when longer than 10 bytes with byte 4 zero) one
/// of the sub-packets framed from byte 10 on carries the embedded server
/// signature.
pub open spec fn spec_detect_server(p: Seq<u8>) -> bool {
    ||| spec_login_signature_match(p)
    ||| (p.len() > 10 && p[4] == 0 && spec_scan_sub_packets(p.skip(10), 0))
}

/// Whether the first ten payload bytes match the login-return literal.
fn login_prefix_matches(payload: &[u8]) -> (r: bool)
    requires
        payload@.len() >= 10,
    ensures
        r == (payload@.subrange(0, 10) == spec_login_prefix()),
{
    let r = payload[0] == 0x00 && payload[1] == 0x00 && payload[2] == 0x00 && payload[3] == 0x62
        && payload[4] == 0x00 && payload[5] == 0x03 && payload[6] == 0x00 && payload[7] == 0x00
        && payload[8] == 0x00 && payload[9] == 0x01;
    proof {
        if r {
            assert(payload@.subrange(0, 10) =~= spec_login_prefix());
        } else {
            assert(payload@.subrange(0, 10) != spec_login_prefix());
        }
    }
    r
}

/// Whether payload bytes [14,20) match the login-return literal.
fn login_mid_matches(payload: &[u8]) -> (r: bool)
    requires
        payload@.len() >= 20,
    ensures
        r == (payload@.subrange(14, 20) == spec_login_mid()),
{
    let r = payload[14] == 0x00 && payload[15] == 0x00 && payload[16] == 0x00 && payload[17]
        == 0x00 && payload[18] == 0x0a && payload[19] == 0x4e;
    proof {
        if r {
            assert(payload@.subrange(14, 20) =~= spec_login_mid());
        } else {
            assert(payload@.subrange(14, 20) != spec_login_mid());
        }
    }
    r
}

/// Whether the six bytes of `data` starting at `at` are the embedded
/// server signature.
fn signature_at(data: &[u8], at: usize) -> (r: bool)
    requires
        at + 6 <= data@.len(),
    ensures
        r == (data@.subrange(at as int, at as int + 6) == spec_server_signature()),
{
    let r = data[at] == 0x00 && data[at + 1] == 0x63 && data[at + 2] == 0x33 && data[at + 3]
        == 0x53 && data[at + 4] == 0x42 && data[at + 5] == 0x00;
    proof {
        if r {
            assert(data@.subrange(at as int, at as int + 6) =~= spec_server_signature());
        } else {
            assert(data@.subrange(at as int, at as int + 6) != spec_server_signature());
        }
    }
    r
}

/// Whether this TCP payload identifies the game-server conversation, by
/// either detection signature.
pub fn detect_server_in_packet(payload: &[u8]) -> (r: bool)
    ensures
        r == spec_detect_server(payload@),
{
    if payload.len() == LOGIN_RETURN_SIGNATURE_SIZE {
        if login_prefix_matches(payload) && login_mid_matches(payload) {
            return true;
        }
    }
    if payload.len() > 10 && payload[4] == 0 {
        let data = vstd::slice::slice_subrange(payload, 10, payload.len());
        let ghost dv = data@;
        let mut pos: usize = 0;
        loop
            invariant
                dv == data@,
                dv == payload@.skip(10),
                payload@.len() > 10,
                payload@[4] == 0,
                pos <= dv.len(),
                spec_scan_sub_packets(dv, pos as int) == spec_scan_sub_packets(dv, 0),
            ensures
                spec_scan_sub_packets(dv, 0) == false,
            decreases dv.len() - pos,
        {
            if data.len() - pos < 4 {
                break ;
            }
            let four = vstd::slice::slice_subrange(data, pos, pos + 4);
            let packet_len_u32 = crate::reassembly::read_be32_of(four);
            let packet_len = packet_len_u32 as usize;
            if packet_len < 4 || packet_len - 4 > data.len() - pos {
                break ;
            }
            if packet_len > data.len() - pos {
                break ;
            }
            if packet_len - 4 >= SERVER_SIGNATURE_OFFSET + 6 {
                let signature_start = pos + 4 + SERVER_SIGNATURE_OFFSET;
                if signature_at(data, signature_start) {
                    proof {
                        assert(spec_server_signature().len() == 6);
                        assert(spec_scan_sub_packets(dv, pos as int) == true);
                        assert(spec_detect_server(payload@));
                    }
                    return true;
                }
            }
            pos = pos + packet_len;
        }
        return false;
    }
    false
}

} // verus!
