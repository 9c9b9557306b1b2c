//! Recursive unwrapping of application frames: reading the packet-type
//! word, checking the service identifier, mapping method ids, zstd
//! decompression where flagged, and bounded recursion through nested
//! frame-down payloads. The result of a frame is the list of notify
//! messages it carries, each a known method with its payload bytes.
use vstd::prelude::*;

use crate::protocol::MessageMethod;
use crate::protocol::MessageType;
use crate::protocol::SERVICE_UUID;
use crate::protocol::spec_extract_type;
use crate::protocol::spec_is_compressed;
use crate::protocol::spec_message_method;
use crate::protocol::spec_message_type;
use crate::reassembly::read_be32_of;
use crate::reassembly::spec_be32;

verus! {

/// How deep nested frame-down payloads are followed; frames nested beyond
/// this are silently dropped.
pub const FRAME_RECURSION_CAP: usize = 10;

/// What a zstd frame decompresses to, when it is well-formed: a function
/// of the compressed bytes alone.
pub uninterp spec fn zstd_inflated(b: Seq<u8>) -> Option<Seq<u8>>;

/// Relies on zstd::decode_all: whether a byte sequence is a well-formed
/// zstd frame, and what it decompresses to, depend on the bytes alone.
#[verifier::external_body]
fn zstd_decode(data: &[u8]) -> (r: Option<Vec<u8>>)
    ensures
        match r {
            Some(v) => zstd_inflated(data@) == Some(v@),
            None => zstd_inflated(data@) is None,
        },
{
    match zstd::decode_all(data) {
        Ok(v) => Some(v),
        Err(_) => None,
    }
}

/// One notify message carried by a frame: a known method and its payload,
/// decompressed where the frame was flagged compressed.
#[derive(Debug, Clone)]
pub struct NotifyMessage {
    /// The method the payload belongs to.
    pub method: MessageMethod,
    /// The method payload bytes.
    pub payload: Vec<u8>,
}

/// The contents of a list of notify messages.
pub open spec fn notify_model(msgs: Seq<NotifyMessage>) -> Seq<(MessageMethod, Seq<u8>)> {
    msgs.map_values(|m: NotifyMessage| (m.method, m.payload@))
}

/// The big-endian 64-bit integer formed by bytes [6,14) of a frame.
pub open spec fn spec_service_id(data: Seq<u8>) -> int
    recommends
        data.len() >= 14,
{
    ((((((data[6] * 0x100 + data[7]) * 0x100 + data[8]) * 0x100 + data[9]) * 0x100 + data[10])
        * 0x100 + data[11]) * 0x100 + data[12]) * 0x100 + data[13]
}

/// The notify messages of one notify frame: at least 22 bytes, the known
/// service identifier at [6,14), a known method id at [18,22), and a
/// non-empty payload from 22 on, decompressed when flagged — a
/// decompression failure drops the frame.
pub open spec fn spec_decode_notify(data: Seq<u8>, compressed: bool) -> Seq<
    (MessageMethod, Seq<u8>),
> {
    if data.len() < 22 {
        Seq::empty()
    } else if spec_service_id(data) != SERVICE_UUID {
        Seq::empty()
    } else {
        let method_id = spec_be32(data.subrange(18, 22));
        match spec_message_method(method_id as u32) {
            Option::None => Seq::empty(),
            Option::Some(method) => {
                if data.len() == 22 {
                    Seq::empty()
                } else {
                    let payload = data.skip(22);
                    let plain = if compressed {
                        zstd_inflated(payload)
                    } else {
                        Some(payload)
                    };
                    match plain {
                        Option::None => Seq::empty(),
                        Option::Some(p) => seq![(method, p)],
                    }
                }
            },
        }
    }
}

/// The notify messages of one frame at nesting depth `depth`: a notify
/// frame yields its message, a frame-down frame yields the messages of
/// its nested frames (decompressed where flagged, recursion capped), and
/// every other frame yields nothing.
pub open spec fn spec_decode_frame(data: Seq<u8>, depth: int) -> Seq<(MessageMethod, Seq<u8>)>
    decreases FRAME_RECURSION_CAP - depth, 1int, 0int,
    when 0 <= depth <= FRAME_RECURSION_CAP
{
    if data.len() < 6 {
        Seq::empty()
    } else {
        let packet_type = (data[4] * 0x100 + data[5]) as u16;
        let compressed = spec_is_compressed(packet_type);
        let msg_type = spec_message_type(spec_extract_type(packet_type));
        if msg_type == MessageType::Notify {
            spec_decode_notify(data, compressed)
        } else if msg_type == MessageType::FrameDown {
            if data.len() < 10 {
                Seq::empty()
            } else {
                let nested = if compressed {
                    zstd_inflated(data.skip(10))
                } else {
                    Some(data.skip(10))
                };
                match nested {
                    Option::None => Seq::empty(),
                    Option::Some(nb) => spec_scan_nested(nb, 0, depth),
                }
            }
        } else {
            Seq::empty()
        }
    }
}

/// The notify messages of the 4-byte-length-prefixed nested frames of
/// `nb` from `pos` on; a nested frame is followed only while the
/// recursion cap is not reached, and an implausible declared length ends
/// the scan.
pub open spec fn spec_scan_nested(nb: Seq<u8>, pos: int, depth: int) -> Seq<
    (MessageMethod, Seq<u8>),
>
    decreases FRAME_RECURSION_CAP - depth, 0int, nb.len() - pos,
    when 0 <= depth <= FRAME_RECURSION_CAP && 0 <= pos
{
    if pos + 4 <= nb.len() {
        let size = spec_be32(nb.subrange(pos, pos + 4));
        if size < 6 || size > nb.len() - pos {
            Seq::empty()
        } else {
            let inner = if depth < FRAME_RECURSION_CAP {
                spec_decode_frame(nb.subrange(pos, pos + size), depth + 1)
            } else {
                Seq::empty()
            };
            inner + spec_scan_nested(nb, pos + size, depth)
        }
    } else {
        Seq::empty()
    }
}

/// The packet-type word at bytes [4,6) of a frame.
fn read_packet_type(data: &[u8]) -> (r: u16)
    requires
        data@.len() >= 6,
    ensures
        r == (data@[4] * 0x100 + data@[5]) as u16,
{
    (data[4] as u16) * 0x100 + (data[5] as u16)
}

/// The service identifier at bytes [6,14) of a frame.
fn read_service_id(data: &[u8]) -> (r: u64)
    requires
        data@.len() >= 14,
    ensures
        r as int == spec_service_id(data@),
{
    (((((((data[6] as u64) * 0x100 + (data[7] as u64)) * 0x100 + (data[8] as u64)) * 0x100 + (
    data[9] as u64)) * 0x100 + (data[10] as u64)) * 0x100 + (data[11] as u64)) * 0x100 + (
    data[12] as u64)) * 0x100 + (data[13] as u64)
}

/// Decode one notify frame into its message, if it carries one.
fn process_notify_packet(data: &[u8], is_compressed: bool, msgs: &mut Vec<NotifyMessage>)
    ensures
        notify_model(final(msgs)@) =~= notify_model(old(msgs)@) + spec_decode_notify(
            data@,
            is_compressed,
        ),
{
    if data.len() < 22 {
        return ;
    }
    let service_uuid = read_service_id(data);
    if service_uuid != SERVICE_UUID {
        return ;
    }
    let method_slice = vstd::slice::slice_subrange(data, 18, 22);
    let method_id = read_be32_of(method_slice);
    let method = match MessageMethod::from_u32(method_id) {
        Some(m) => m,
        None => {
            return ;
        },
    };
    if data.len() == 22 {
        return ;
    }
    let payload = vstd::slice::slice_subrange(data, 22, data.len());
    let final_payload: Vec<u8> = if is_compressed {
        match zstd_decode(payload) {
            Some(decompressed) => decompressed,
            None => {
                return ;
            },
        }
    } else {
        vstd::slice::slice_to_vec(payload)
    };
    msgs.push(NotifyMessage { method, payload: final_payload });
}

/// Decode one frame at nesting depth `depth` into the notify messages it
/// carries, appending them to `msgs`.
fn process_bp_packet_recursive(data: &[u8], depth: usize, msgs: &mut Vec<NotifyMessage>)
    requires
        depth <= FRAME_RECURSION_CAP,
    ensures
        notify_model(final(msgs)@) =~= notify_model(old(msgs)@) + spec_decode_frame(
            data@,
            depth as int,
        ),
    decreases FRAME_RECURSION_CAP - depth, 1int, 0int,
{
    if data.len() < 6 {
        return ;
    }
    let packet_type = read_packet_type(data);
    let is_compressed = crate::protocol::is_compressed(packet_type);
    let msg_type = MessageType::from_u16(crate::protocol::extract_type(packet_type));
    match msg_type {
        MessageType::Notify => {
            process_notify_packet(data, is_compressed, msgs);
        },
        MessageType::FrameDown => {
            if data.len() < 10 {
                return ;
            }
            let nested_data = vstd::slice::slice_subrange(data, 10, data.len());
            let final_nested_data: Vec<u8> = if is_compressed {
                match zstd_decode(nested_data) {
                    Some(decompressed) => decompressed,
                    None => {
                        return ;
                    },
                }
            } else {
                vstd::slice::slice_to_vec(nested_data)
            };
            scan_nested_packets(&final_nested_data, depth, msgs);
        },
        _ => {},
    }
}

/// Decode the nested frames of a frame-down payload, appending their
/// notify messages to `msgs`.
fn scan_nested_packets(nb: &Vec<u8>, depth: usize, msgs: &mut Vec<NotifyMessage>)
    requires
        depth <= FRAME_RECURSION_CAP,
    ensures
        notify_model(final(msgs)@) =~= notify_model(old(msgs)@) + spec_scan_nested(
            nb@,
            0,
            depth as int,
        ),
    decreases FRAME_RECURSION_CAP - depth, 0int, nb@.len(),
{
    let mut pos: usize = 0;
    loop
        invariant
            depth <= FRAME_RECURSION_CAP,
            pos <= nb@.len(),
            notify_model(msgs@) + spec_scan_nested(nb@, pos as int, depth as int) =~= notify_model(
                old(msgs)@,
            ) + spec_scan_nested(nb@, 0, depth as int),
        ensures
            spec_scan_nested(nb@, pos as int, depth as int) =~= Seq::<
                (MessageMethod, Seq<u8>),
            >::empty(),
        decreases FRAME_RECURSION_CAP - depth, 0int, nb@.len() - pos,
    {
        if nb.len() - pos < 4 {
            break ;
        }
        let four = vstd::slice::slice_subrange(nb.as_slice(), pos, pos + 4);
        let nested_packet_size_u32 = read_be32_of(four);
        let nested_packet_size = nested_packet_size_u32 as usize;
        if nested_packet_size < 6 || nested_packet_size > nb.len() - pos {
            break ;
        }
        let ghost pre_msgs = msgs@;
        let nested_packet = vstd::slice::slice_subrange(
            nb.as_slice(),
            pos,
            pos + nested_packet_size,
        );
        if depth < FRAME_RECURSION_CAP {
            process_bp_packet_recursive(nested_packet, depth + 1, msgs);
        }
        proof {
            assert(notify_model(msgs@) =~= notify_model(pre_msgs) + (if depth
                < FRAME_RECURSION_CAP {
                spec_decode_frame(
                    nb@.subrange(pos as int, pos + nested_packet_size),
                    depth + 1,
                )
            } else {
                Seq::<(MessageMethod, Seq<u8>)>::empty()
            }));
        }
        pos = pos + nested_packet_size;
    }
}

/// Decode one complete application frame into the notify messages it
/// carries, recursively unwrapping nested frame-down payloads up to the
/// recursion cap.
pub fn process_bp_packet(data: &[u8]) -> (msgs: Vec<NotifyMessage>)
    ensures
        notify_model(msgs@) =~= spec_decode_frame(data@, 0),
{
    let mut msgs: Vec<NotifyMessage> = Vec::new();
    process_bp_packet_recursive(data, 0, &mut msgs);
    msgs
}

} // verus!
