use bptimer_core::reassembly::TcpStreamProcessor;

fn fresh_at(seq: u32) -> TcpStreamProcessor {
    let mut p = TcpStreamProcessor::new();
    p.force_resync_to(seq, 0);
    p
}

#[test]
fn seq_cmp_sign_matches_ahead_behind_across_wrap() {
    assert!(TcpStreamProcessor::seq_cmp(5, 0xFFFF_FFF0) > 0);
    assert_eq!(TcpStreamProcessor::seq_cmp(5, 0xFFFF_FFF0), 21);
    assert!(TcpStreamProcessor::seq_cmp(0xFFFF_FFF0, 5) < 0);
    assert_eq!(TcpStreamProcessor::seq_cmp(0xFFFF_FFF0, 5), -21);
    assert_eq!(TcpStreamProcessor::seq_cmp(700, 700), 0);
    assert_eq!(TcpStreamProcessor::seq_cmp(101, 100), 1);
    assert_eq!(TcpStreamProcessor::seq_cmp(100, 101), -1);
    assert_eq!(TcpStreamProcessor::seq_cmp(0, 0x8000_0000), i32::MIN);
}

#[test]
fn reassembly_in_order_yields_contiguous_stream() {
    let mut p = fresh_at(100);
    p.ingest_segment(100, b"AB", 0);
    p.ingest_segment(102, b"CD", 0);
    p.ingest_segment(104, b"EF", 0);
    assert_eq!(p.stream_buffer, b"ABCDEF".to_vec());
    assert_eq!(p.next_seq, Some(106));
}

#[test]
fn reassembly_reversed_order_yields_same_stream() {
    let mut p = fresh_at(100);
    p.ingest_segment(104, b"EF", 0);
    p.ingest_segment(102, b"CD", 0);
    p.ingest_segment(100, b"AB", 0);
    assert_eq!(p.stream_buffer, b"ABCDEF".to_vec());
    assert_eq!(p.next_seq, Some(106));
}

#[test]
fn reassembly_with_duplicate_yields_same_stream() {
    let mut p = fresh_at(100);
    p.ingest_segment(102, b"CD", 0);
    p.ingest_segment(102, b"CD", 0);
    p.ingest_segment(100, b"AB", 0);
    p.ingest_segment(104, b"EF", 0);
    assert_eq!(p.stream_buffer, b"ABCDEF".to_vec());
    assert_eq!(p.next_seq, Some(106));
}

#[test]
fn reassembly_mixed_order_yields_same_stream() {
    let mut p = fresh_at(100);
    p.ingest_segment(102, b"CD", 0);
    p.ingest_segment(104, b"EF", 0);
    p.ingest_segment(100, b"AB", 0);
    assert_eq!(p.stream_buffer, b"ABCDEF".to_vec());
    assert_eq!(p.next_seq, Some(106));
}

#[test]
fn duplicate_of_consumed_segment_is_discarded() {
    let mut p = fresh_at(100);
    p.ingest_segment(100, b"AB", 0);
    p.ingest_segment(100, b"AB", 0);
    assert_eq!(p.stream_buffer, b"AB".to_vec());
    assert_eq!(p.next_seq, Some(102));
}

#[test]
fn gap_resync_rebases_on_new_segment_after_timeout() {
    let mut p = fresh_at(100);
    p.stream_buffer = b"XY".to_vec();
    p.ingest_segment(200, b"AB", 0);
    // The gap is open but young: nothing is rebased yet.
    assert_eq!(p.next_seq, Some(100));
    p.ingest_segment(200, b"AB", 1500);
    assert_eq!(p.next_seq, Some(100));
    // Beyond two seconds the stream is rebased on the new segment and
    // all earlier data is gone.
    p.ingest_segment(200, b"AB", 2501);
    assert_eq!(p.next_seq, Some(202));
    assert_eq!(p.stream_buffer, b"AB".to_vec());
    assert_eq!(p.tcp_cache.len(), 0);
}

#[test]
fn declared_length_at_most_four_drops_one_byte() {
    let mut p = fresh_at(100);
    let frames = p.process_segment(100, &[0, 0, 0, 4], 0);
    assert!(frames.is_empty());
    assert_eq!(p.stream_buffer, vec![0, 0, 4]);
}

#[test]
fn partial_frame_waits_for_remaining_bytes() {
    let mut p = fresh_at(100);
    let frames = p.process_segment(100, &[0, 0, 0, 10, 1, 2], 0);
    assert!(frames.is_empty());
    assert_eq!(p.stream_buffer, vec![0, 0, 0, 10, 1, 2]);
    let frames = p.process_segment(106, &[3, 4, 5, 6], 0);
    assert_eq!(frames, vec![vec![0, 0, 0, 10, 1, 2, 3, 4, 5, 6]]);
    assert!(p.stream_buffer.is_empty());
}

#[test]
fn sequence_numbers_advance_across_the_wrap() {
    let mut p = fresh_at(0xFFFF_FFFE);
    p.ingest_segment(0xFFFF_FFFE, &[9, 9, 9, 9], 0);
    assert_eq!(p.next_seq, Some(2));
    p.ingest_segment(2, &[8, 8], 0);
    assert_eq!(p.next_seq, Some(4));
    assert_eq!(p.stream_buffer, vec![9, 9, 9, 9, 8, 8]);
}

#[test]
fn overlapping_stale_cache_entry_is_discarded() {
    let mut p = fresh_at(100);
    p.ingest_segment(102, b"XY", 0);
    assert_eq!(p.tcp_cache.len(), 1);
    // The four-byte segment at 100 swallows sequence 102; the stale
    // cached segment can never be consumed and is dropped.
    p.ingest_segment(100, b"ABCD", 0);
    assert_eq!(p.stream_buffer, b"ABCD".to_vec());
    assert_eq!(p.next_seq, Some(104));
    assert_eq!(p.tcp_cache.len(), 0);
}

#[test]
fn bootstrap_adopts_plausible_frame_header() {
    let mut p = TcpStreamProcessor::new();
    // Implausible declared length: no bootstrap happens.
    p.ingest_segment(500, &[0xFF, 0xFF, 0xFF, 0xFF, 0x00], 0);
    assert_eq!(p.next_seq, None);
    let mut p = TcpStreamProcessor::new();
    p.ingest_segment(500, &[0, 0, 0, 8, 0], 0);
    assert_eq!(p.next_seq, Some(505));
    assert_eq!(p.stream_buffer, vec![0, 0, 0, 8, 0]);
}

#[test]
fn reset_clears_all_state() {
    let mut p = fresh_at(100);
    p.ingest_segment(100, b"ABCDEF", 5);
    p.ingest_segment(200, b"ahead", 5);
    p.reset();
    assert_eq!(p.next_seq, None);
    assert!(p.stream_buffer.is_empty());
    assert_eq!(p.tcp_cache.len(), 0);
    assert!(p.current_server.is_none());
}

#[test]
fn largest_plausible_frame_is_waited_for() {
    let mut p = fresh_at(100);
    // Declared length exactly at the sanity bound: kept, waiting for
    // the rest of the frame.
    let frames = p.process_segment(100, &[0x00, 0x0f, 0xff, 0xff, 1, 2], 0);
    assert!(frames.is_empty());
    assert_eq!(p.stream_buffer.len(), 6);
}

#[test]
fn implausibly_large_declared_length_drops_bytes_until_plausible() {
    let mut p = fresh_at(100);
    // The first two headers read as lengths above the sanity bound, so
    // one byte goes each time; the remaining four read as a plausible
    // length still awaiting its body.
    let frames = p.process_segment(100, &[0x00, 0x10, 0x00, 0x00, 1, 2], 0);
    assert!(frames.is_empty());
    assert_eq!(p.stream_buffer, vec![0x00, 0x00, 1, 2]);
}
