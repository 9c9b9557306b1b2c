//! Per-conversation TCP stream reassembly: orders and buffers segments by
//! their 32-bit wrapping sequence number, recovers from sustained gaps by a
//! forced resync, and slices the contiguous byte stream into length-prefixed
//! application frames.
use vstd::prelude::*;

use crate::endpoint::ServerEndpoint;

verus! {

/// Sanity bound on a frame's declared length; anything above is treated as
/// stream corruption.
pub const MAX_FRAME_SIZE: u32 = 0x0fffff;

/// How long a sequence gap may persist, in milliseconds, before the stream
/// is forcibly resynchronised on the newest segment.
pub const GAP_TIMEOUT_MS: u64 = 2000;

/// How long a conversation may stay silent, in milliseconds, before it is
/// abandoned and server detection starts over.
pub const IDLE_TIMEOUT_MS: u64 = 10000;

/// One out-of-order TCP segment held until the stream catches up to it.
pub struct Segment {
    /// TCP sequence number of the first payload byte.
    pub seq_no: u32,
    /// The segment's payload.
    pub data: Vec<u8>,
}

/// The signed wraparound distance from `b` to `a` in the 32-bit sequence
/// space: positive when `a` is ahead of `b`, negative when behind, zero when
/// equal. Distances of 2^31 or more appear negative, as in TCP practice.
pub open spec fn seq_delta(a: u32, b: u32) -> int {
    let d = if a >= b {
        a - b
    } else {
        a - b + 0x1_0000_0000
    };
    if d < 0x8000_0000 {
        d
    } else {
        d - 0x1_0000_0000
    }
}

/// `a` advanced by `len` bytes in the wrapping 32-bit sequence space.
pub open spec fn wrap_add(a: u32, len: int) -> u32 {
    if a + len > u32::MAX {
        (a + len - 0x1_0000_0000) as u32
    } else {
        (a + len) as u32
    }
}

/// The big-endian 32-bit integer formed by the first four bytes of `b`.
pub open spec fn spec_be32(b: Seq<u8>) -> int
    recommends
        b.len() >= 4,
{
    b[0] * 0x100_0000 + b[1] * 0x1_0000 + b[2] * 0x100 + b[3]
}

/// The contents of the out-of-order cache, as a sequence of
/// (sequence number, payload) pairs in insertion order.
pub open spec fn cache_model(cache: Seq<Segment>) -> Seq<(u32, Seq<u8>)> {
    cache.map_values(|s: Segment| (s.seq_no, s.data@))
}

/// Index of the first entry with the given sequence number, or -1.
pub open spec fn first_key_idx(c: Seq<(u32, Seq<u8>)>, key: u32) -> int
    decreases c.len(),
{
    if c.len() == 0 {
        -1
    } else if c[0].0 == key {
        0
    } else {
        let r = first_key_idx(c.subrange(1, c.len() as int), key);
        if r < 0 {
            -1
        } else {
            1 + r
        }
    }
}

/// The cache after inserting `data` under `key`: an existing entry with the
/// same key is replaced in place, otherwise the pair is appended.
pub open spec fn cache_insert(c: Seq<(u32, Seq<u8>)>, key: u32, data: Seq<u8>) -> Seq<(u32, Seq<u8>)> {
    let i = first_key_idx(c, key);
    if i >= 0 {
        c.update(i, (key, data))
    } else {
        c.push((key, data))
    }
}

/// Repeatedly consume from the cache the entry holding exactly the next
/// expected sequence number, appending its bytes to the stream buffer and
/// advancing the expectation by their length, until no entry matches.
pub open spec fn spec_drain(c: Seq<(u32, Seq<u8>)>, next: u32, buf: Seq<u8>) -> (Seq<(u32, Seq<u8>)>, u32, Seq<u8>)
    decreases c.len(),
{
    let i = first_key_idx(c, next);
    if 0 <= i < c.len() {
        spec_drain(c.remove(i), wrap_add(next, c[i].1.len() as int), buf + c[i].1)
    } else {
        (c, next, buf)
    }
}

/// The frames that length-prefixed extraction slices off the front of
/// `buf`, together with the bytes it leaves behind. A declared length of at
/// most 4 or above the sanity bound drops one byte and retries; a declared
/// length not yet fully buffered stops extraction.
pub open spec fn spec_extract_frames(buf: Seq<u8>) -> (Seq<Seq<u8>>, Seq<u8>)
    decreases buf.len(),
{
    if buf.len() < 4 {
        (Seq::<Seq<u8>>::empty(), buf)
    } else {
        let size = spec_be32(buf);
        if size <= 4 || size > MAX_FRAME_SIZE {
            spec_extract_frames(buf.skip(1))
        } else if buf.len() < size {
            (Seq::<Seq<u8>>::empty(), buf)
        } else {
            let r = spec_extract_frames(buf.skip(size));
            (seq![buf.take(size)] + r.0, r.1)
        }
    }
}

/// All cached segments carry distinct sequence numbers.
pub open spec fn cache_distinct(c: Seq<Segment>) -> bool {
    forall|i: int, j: int|
        0 <= i < j < c.len() ==> (#[trigger] c[i]).seq_no != (#[trigger] c[j]).seq_no
}

/// Every cached payload fits the 32-bit sequence space.
pub open spec fn cache_lens_ok(c: Seq<Segment>) -> bool {
    forall|i: int| 0 <= i < c.len() ==> (#[trigger] c[i]).data@.len() <= u32::MAX
}

/// Every cached segment lies strictly ahead of the expectation `next`.
pub open spec fn cache_ahead(c: Seq<Segment>, next: u32) -> bool {
    forall|i: int| 0 <= i < c.len() ==> seq_delta((#[trigger] c[i]).seq_no, next) > 0
}

/// The reassembly state of one conversation, as plain mathematical values.
#[verifier::ext_equal]
pub ghost struct ReassemblyModel {
    /// The next expected sequence number, once known.
    pub next_seq: Option<u32>,
    /// Segments seen ahead of expectation, keyed by sequence number.
    pub cache: Seq<(u32, Seq<u8>)>,
    /// The contiguous reassembled byte stream awaiting frame extraction.
    pub buffer: Seq<u8>,
    /// When bytes last reached the contiguous buffer, in milliseconds.
    pub last_packet_time: Option<u64>,
    /// When any segment of the conversation last arrived, in milliseconds.
    pub last_any_packet_time: Option<u64>,
    /// When the currently open sequence gap was first observed.
    pub waiting_gap_since: Option<u64>,
}

/// The predicate that keeps a cache entry: it lies strictly ahead of the
/// next expected sequence number.
pub open spec fn ahead_of(next: u32) -> spec_fn((u32, Seq<u8>)) -> bool {
    |p: (u32, Seq<u8>)| seq_delta(p.0, next) > 0
}

/// Milliseconds elapsed from `since` to `now`; zero if the clock stepped
/// backwards.
pub open spec fn spec_elapsed(now: u64, since: u64) -> u64 {
    if now >= since {
        (now - since) as u64
    } else {
        0
    }
}

/// Whether a segment may bootstrap sequence tracking: its first four bytes
/// must declare a plausible frame length.
pub open spec fn spec_bootstrap(next_seq: Option<u32>, seq_no: u32, payload: Seq<u8>) -> Option<u32> {
    if next_seq is None && payload.len() > 4 && spec_be32(payload) < MAX_FRAME_SIZE {
        Some(seq_no)
    } else {
        next_seq
    }
}

/// What one ingested segment does to the reassembly state, before frame
/// extraction: update arrival time, bootstrap the expectation if unset,
/// run the gap timer (forcing a resync once a gap has persisted beyond
/// the timeout), cache the segment unless already consumed, drain every
/// contiguous cached segment into the buffer, and discard cache entries
/// left at or behind the expectation.
pub open spec fn spec_ingest_segment(m0: ReassemblyModel, seq_no: u32, payload: Seq<u8>, now_ms: u64) -> ReassemblyModel {
    let next1 = spec_bootstrap(m0.next_seq, seq_no, payload);
    let gap1 = if next1 is Some {
        let d = seq_delta(seq_no, next1->0);
        if d > 0 {
            if m0.waiting_gap_since is None {
                Some(now_ms)
            } else {
                m0.waiting_gap_since
            }
        } else if d == 0 {
            None
        } else {
            m0.waiting_gap_since
        }
    } else {
        m0.waiting_gap_since
    };
    let resync = next1 is Some && seq_delta(seq_no, next1->0) > 0 && m0.waiting_gap_since is Some
        && spec_elapsed(now_ms, m0.waiting_gap_since->0) > GAP_TIMEOUT_MS;
    let next2 = if resync {
        Some(seq_no)
    } else {
        next1
    };
    let cache2 = if resync {
        Seq::<(u32, Seq<u8>)>::empty()
    } else {
        m0.cache
    };
    let buf2 = if resync {
        Seq::<u8>::empty()
    } else {
        m0.buffer
    };
    let gap2 = if resync {
        None
    } else {
        gap1
    };
    let cache3 = if next2 is None || seq_delta(seq_no, next2->0) >= 0 {
        cache_insert(cache2, seq_no, payload)
    } else {
        cache2
    };
    let drained = if next2 is Some {
        spec_drain(cache3, next2->0, buf2)
    } else {
        (cache3, 0u32, buf2)
    };
    let cache4 = drained.0;
    let next3 = if next2 is Some {
        Some(drained.1)
    } else {
        next2
    };
    let buf3 = drained.2;
    let consumed_any = cache4.len() != cache3.len();
    let cache5 = if next3 is Some {
        cache4.filter(ahead_of(next3->0))
    } else {
        cache4
    };
    ReassemblyModel {
        next_seq: next3,
        cache: cache5,
        buffer: buf3,
        last_packet_time: if resync || consumed_any {
            Some(now_ms)
        } else {
            m0.last_packet_time
        },
        last_any_packet_time: Some(now_ms),
        waiting_gap_since: gap2,
    }
}

/// What one call of `process_segment` does to the reassembly state, and
/// the frames it yields: the ingested state of `spec_ingest_segment`,
/// with every complete frame extracted from its buffer.
pub open spec fn spec_process_segment(m0: ReassemblyModel, seq_no: u32, payload: Seq<u8>, now_ms: u64) -> (ReassemblyModel, Seq<Seq<u8>>) {
    let m1 = spec_ingest_segment(m0, seq_no, payload, now_ms);
    let extracted = spec_extract_frames(m1.buffer);
    (ReassemblyModel { buffer: extracted.1, ..m1 }, extracted.0)
}

/// Per-conversation reassembler: orders segments, recovers from gaps, and
/// slices the reassembled stream into application frames.
pub struct TcpStreamProcessor {
    /// The conversation currently accepted as the game server, if any.
    pub current_server: Option<ServerEndpoint>,
    /// The next expected sequence number, once known.
    pub next_seq: Option<u32>,
    /// Segments seen ahead of expectation, keyed by sequence number.
    pub tcp_cache: Vec<Segment>,
    /// The contiguous reassembled byte stream awaiting frame extraction.
    pub stream_buffer: Vec<u8>,
    /// When bytes last reached the contiguous buffer, in milliseconds.
    pub last_packet_time: Option<u64>,
    /// When any segment of the conversation last arrived, in milliseconds.
    pub last_any_packet_time: Option<u64>,
    /// When the currently open sequence gap was first observed.
    pub waiting_gap_since: Option<u64>,
}

impl TcpStreamProcessor {
    /// The reassembly state as plain mathematical values.
    pub open spec fn model(&self) -> ReassemblyModel {
        ReassemblyModel {
            next_seq: self.next_seq,
            cache: cache_model(self.tcp_cache@),
            buffer: self.stream_buffer@,
            last_packet_time: self.last_packet_time,
            last_any_packet_time: self.last_any_packet_time,
            waiting_gap_since: self.waiting_gap_since,
        }
    }

    /// Well-formedness: cached sequence numbers are distinct, every cached
    /// payload fits the 32-bit sequence space, and once the expectation is
    /// known the cache holds only segments strictly ahead of it.
    pub open spec fn wf(&self) -> bool {
        &&& cache_distinct(self.tcp_cache@)
        &&& cache_lens_ok(self.tcp_cache@)
        &&& self.next_seq is Some ==> cache_ahead(self.tcp_cache@, self.next_seq->0)
    }

    /// Signed comparison of two sequence numbers in the wrapping 32-bit
    /// space: positive when `a` is ahead of `b`, zero when equal, negative
    /// when behind (or ahead by 2^31 or more).
    pub fn seq_cmp(a: u32, b: u32) -> (r: i32)
        ensures
            r as int == seq_delta(a, b),
    {
        let d = a.wrapping_sub(b);
        if d < 0x8000_0000 {
            d as i32
        } else if d == 0x8000_0000 {
            i32::MIN
        } else {
            let m = 0u32.wrapping_sub(d);
            -(m as i32)
        }
    }

    /// A fresh reassembler with no conversation and no buffered data.
    pub fn new() -> (r: TcpStreamProcessor)
        ensures
            r.wf(),
            r.current_server is None,
            r.model() =~= (ReassemblyModel {
                next_seq: None,
                cache: Seq::empty(),
                buffer: Seq::empty(),
                last_packet_time: None,
                last_any_packet_time: None,
                waiting_gap_since: None,
            }),
    {
        TcpStreamProcessor {
            current_server: None,
            next_seq: None,
            tcp_cache: Vec::new(),
            stream_buffer: Vec::new(),
            last_packet_time: None,
            last_any_packet_time: None,
            waiting_gap_since: None,
        }
    }

    /// Drop the conversation and all reassembly state.
    pub fn reset(&mut self)
        ensures
            final(self).wf(),
            final(self).current_server is None,
            final(self).model() =~= (ReassemblyModel {
                next_seq: None,
                cache: Seq::empty(),
                buffer: Seq::empty(),
                last_packet_time: None,
                last_any_packet_time: None,
                waiting_gap_since: None,
            }),
    {
        self.current_server = None;
        self.next_seq = None;
        self.last_packet_time = None;
        self.last_any_packet_time = None;
        self.waiting_gap_since = None;
        self.tcp_cache.clear();
        self.stream_buffer.clear();
    }

    /// Drop the conversation and all reassembly state, e.g. after an idle
    /// timeout.
    pub fn force_reconnect(&mut self)
        ensures
            final(self).wf(),
            final(self).current_server is None,
            final(self).model() =~= (ReassemblyModel {
                next_seq: None,
                cache: Seq::empty(),
                buffer: Seq::empty(),
                last_packet_time: None,
                last_any_packet_time: None,
                waiting_gap_since: None,
            }),
    {
        self.reset();
    }

    /// Rebase sequence tracking on `seq_no`, discarding all cached and
    /// buffered data; data between the old and new baseline is lost.
    pub fn force_resync_to(&mut self, seq_no: u32, now_ms: u64)
        ensures
            final(self).wf(),
            final(self).current_server == old(self).current_server,
            final(self).model() =~= (ReassemblyModel {
                next_seq: Some(seq_no),
                cache: Seq::empty(),
                buffer: Seq::empty(),
                last_packet_time: Some(now_ms),
                last_any_packet_time: old(self).last_any_packet_time,
                waiting_gap_since: None,
            }),
    {
        self.tcp_cache.clear();
        self.stream_buffer.clear();
        self.next_seq = Some(seq_no);
        self.waiting_gap_since = None;
        self.last_packet_time = Some(now_ms);
    }
}

/// The big-endian 32-bit value formed by the first four bytes of `data`.
pub fn read_be32_of(data: &[u8]) -> (r: u32)
    requires
        data@.len() >= 4,
    ensures
        r as int == spec_be32(data@),
{
    (data[0] as u32) * 0x100_0000 + (data[1] as u32) * 0x1_0000 + (data[2] as u32) * 0x100 + (
    data[3] as u32)
}

/// The views of a list of extracted frames.
pub open spec fn frames_model(frames: Seq<Vec<u8>>) -> Seq<Seq<u8>> {
    frames.map_values(|v: Vec<u8>| v@)
}

/// `first_key_idx` finds the first entry with the given key, and -1 exactly
/// when no entry has it.
pub proof fn lemma_first_key_idx(c: Seq<(u32, Seq<u8>)>, key: u32)
    ensures
        first_key_idx(c, key) == -1 ==> forall|j: int| 0 <= j < c.len() ==> (#[trigger] c[j]).0 != key,
        first_key_idx(c, key) != -1 ==> {
            let i = first_key_idx(c, key);
            &&& 0 <= i < c.len()
            &&& c[i].0 == key
            &&& forall|j: int| 0 <= j < i ==> (#[trigger] c[j]).0 != key
        },
    decreases c.len(),
{
    if c.len() == 0 {
    } else if c[0].0 == key {
    } else {
        let tail = c.subrange(1, c.len() as int);
        lemma_first_key_idx(tail, key);
        assert(forall|j: int| 1 <= j < c.len() ==> (#[trigger] c[j]) == tail[j - 1]);
        let r = first_key_idx(tail, key);
        if r < 0 {
            assert forall|j: int| 0 <= j < c.len() implies (#[trigger] c[j]).0 != key by {
                if j >= 1 {
                    assert(c[j] == tail[j - 1]);
                }
            }
        } else {
            assert(first_key_idx(c, key) == 1 + r);
            assert(c[1 + r] == tail[r]);
            assert forall|j: int| 0 <= j < 1 + r implies (#[trigger] c[j]).0 != key by {
                if j >= 1 {
                    assert(tail[j - 1].0 != key);
                }
            }
        }
    }
}

/// The sign of the wraparound comparison matches the intuitive ahead/behind
/// relationship for every base, even across the wrap at 2^32: a number `k`
/// bytes ahead compares positive (for k below 2^31), `k` bytes behind
/// compares negative (for k up to 2^31), and only equality compares zero.
pub proof fn lemma_seq_delta_sign(b: u32, k: u32)
    ensures
        seq_delta(b, b) == 0,
        0 < k < 0x8000_0000 ==> seq_delta(wrap_add(b, k as int), b) == k,
        0 < k <= 0x8000_0000 ==> seq_delta(b, wrap_add(b, k as int)) == -(k as int),
{
}

impl TcpStreamProcessor {
    /// Index of the first cached segment holding `key`, if any.
    fn find_cached(cache: &Vec<Segment>, key: u32) -> (r: Option<usize>)
        ensures
            match r {
                Some(i) => first_key_idx(cache_model(cache@), key) == i && i < cache@.len()
                    && cache@[i as int].seq_no == key,
                None => first_key_idx(cache_model(cache@), key) == -1,
            },
    {
        let ghost c = cache_model(cache@);
        proof {
            lemma_first_key_idx(c, key);
        }
        let n = cache.len();
        let mut i: usize = 0;
        while i < n
            invariant
                n == cache@.len(),
                i <= n,
                c == cache_model(cache@),
                forall|j: int| 0 <= j < i ==> (#[trigger] c[j]).0 != key,
            decreases n - i,
        {
            if cache[i].seq_no == key {
                proof {
                    lemma_first_key_idx(c, key);
                    assert(c[i as int] == (cache@[i as int].seq_no, cache@[i as int].data@));
                    assert(c[i as int].0 == key);
                    assert(first_key_idx(c, key) != -1);
                }
                return Some(i);
            }
            i += 1;
        }
        None
    }

    /// One step of frame extraction on the stream buffer, as the contract
    /// describes: with fewer than 4 bytes buffered nothing happens; with an
    /// implausible declared length one byte is dropped for resynchronisation;
    /// with a plausible length not yet fully buffered nothing happens; and
    /// otherwise exactly that many bytes leave the buffer as one frame.
    /// Returns whether the buffer changed.
    fn try_extract_packet(&mut self, complete_packets: &mut Vec<Vec<u8>>) -> (progressed: bool)
        ensures
            final(self).current_server == old(self).current_server,
            final(self).next_seq == old(self).next_seq,
            final(self).tcp_cache@ == old(self).tcp_cache@,
            final(self).last_packet_time == old(self).last_packet_time,
            final(self).last_any_packet_time == old(self).last_any_packet_time,
            final(self).waiting_gap_since == old(self).waiting_gap_since,
            ({
                let buf = old(self).stream_buffer@;
                if buf.len() < 4 {
                    !progressed && final(self).stream_buffer@ == buf && final(complete_packets)@
                        == old(complete_packets)@
                } else {
                    let size = spec_be32(buf);
                    if size <= 4 || size > MAX_FRAME_SIZE {
                        progressed && final(self).stream_buffer@ == buf.skip(1) && final(complete_packets)@ == old(complete_packets)@
                    } else if buf.len() < size {
                        !progressed && final(self).stream_buffer@ == buf && final(complete_packets)@
                            == old(complete_packets)@
                    } else {
                        progressed && final(self).stream_buffer@ == buf.skip(size) && final(complete_packets)@ == old(complete_packets)@.push(final(complete_packets)@.last()) && final(complete_packets)@.last()@ == buf.take(size)
                    }
                }
            }),
    {
        let ghost buf = self.stream_buffer@;
        if self.stream_buffer.len() < 4 {
            return false;
        }
        let packet_size = read_be32_of(self.stream_buffer.as_slice());
        if packet_size <= 4 || packet_size > MAX_FRAME_SIZE {
            self.stream_buffer.remove(0);
            proof {
                assert(self.stream_buffer@ =~= buf.skip(1));
            }
            return true;
        }
        let size: usize = packet_size as usize;
        if self.stream_buffer.len() < size {
            return false;
        }
        let mut tail = self.stream_buffer.split_off(size);
        core::mem::swap(&mut self.stream_buffer, &mut tail);
        proof {
            assert(self.stream_buffer@ =~= buf.skip(size as int));
            assert(tail@ =~= buf.take(size as int));
        }
        complete_packets.push(tail);
        true
    }

    /// Extract every complete frame from the stream buffer into
    /// `complete_packets`, leaving exactly the unextractable remainder.
    fn extract_all_frames(&mut self, complete_packets: &mut Vec<Vec<u8>>)
        ensures
            final(self).current_server == old(self).current_server,
            final(self).next_seq == old(self).next_seq,
            final(self).tcp_cache@ == old(self).tcp_cache@,
            final(self).last_packet_time == old(self).last_packet_time,
            final(self).last_any_packet_time == old(self).last_any_packet_time,
            final(self).waiting_gap_since == old(self).waiting_gap_since,
            final(self).stream_buffer@ == spec_extract_frames(old(self).stream_buffer@).1,
            frames_model(final(complete_packets)@) =~= frames_model(old(complete_packets)@)
                + spec_extract_frames(old(self).stream_buffer@).0,
    {
        let ghost buf0 = self.stream_buffer@;
        let ghost packets0 = complete_packets@;
        loop
            invariant
                self.current_server == old(self).current_server,
                self.next_seq == old(self).next_seq,
                self.tcp_cache@ == old(self).tcp_cache@,
                self.last_packet_time == old(self).last_packet_time,
                self.last_any_packet_time == old(self).last_any_packet_time,
                self.waiting_gap_since == old(self).waiting_gap_since,
                spec_extract_frames(self.stream_buffer@).1 == spec_extract_frames(buf0).1,
                frames_model(complete_packets@) + spec_extract_frames(self.stream_buffer@).0
                    =~= frames_model(packets0) + spec_extract_frames(buf0).0,
            ensures
                self.stream_buffer@ == spec_extract_frames(buf0).1,
                frames_model(complete_packets@) =~= frames_model(packets0) + spec_extract_frames(
                    buf0,
                ).0,
            decreases self.stream_buffer@.len(),
        {
            let ghost buf = self.stream_buffer@;
            let ghost packets = complete_packets@;
            let progressed = self.try_extract_packet(complete_packets);
            proof {
                if !progressed {
                    assert(spec_extract_frames(buf) == (Seq::<Seq<u8>>::empty(), buf));
                    assert(frames_model(packets) + spec_extract_frames(buf).0 =~= frames_model(
                        packets,
                    ));
                } else {
                    if buf.len() >= 4 && 4 < spec_be32(buf) <= MAX_FRAME_SIZE {
                        let size = spec_be32(buf);
                        assert(frames_model(complete_packets@) =~= frames_model(packets).push(
                            buf.take(size),
                        ));
                        assert(spec_extract_frames(buf).0 =~= seq![buf.take(size)]
                            + spec_extract_frames(buf.skip(size)).0);
                        assert(frames_model(complete_packets@) + spec_extract_frames(
                            self.stream_buffer@,
                        ).0 =~= frames_model(packets) + spec_extract_frames(buf).0);
                    }
                }
            }
            if !progressed {
                break ;
            }
        }
    }
}

impl TcpStreamProcessor {
    /// Feed one TCP segment of the current conversation into reassembly,
    /// without extracting frames yet: arrival bookkeeping, bootstrap, gap
    /// timing, forced resync, caching, draining and pruning, as
    /// `spec_ingest_segment` states.
    pub fn ingest_segment(&mut self, seq_no: u32, payload: &[u8], now_ms: u64)
        requires
            old(self).wf(),
            payload@.len() <= u32::MAX,
        ensures
            final(self).wf(),
            final(self).current_server == old(self).current_server,
            final(self).model() =~= spec_ingest_segment(
                old(self).model(),
                seq_no,
                payload@,
                now_ms,
            ),
    {
        let ghost m0 = old(self).model();

        self.last_any_packet_time = Some(now_ms);

        // Bootstrap the expectation from a plausible frame header.
        if self.next_seq.is_none() && payload.len() > 4 {
            let declared = read_be32_of(payload);
            if declared < MAX_FRAME_SIZE {
                self.next_seq = Some(seq_no);
            }
        }
        proof {
            assert(self.next_seq == spec_bootstrap(m0.next_seq, seq_no, payload@));
        }
        let ghost next1 = spec_bootstrap(m0.next_seq, seq_no, payload@);
        let ghost resync = next1 is Some && seq_delta(seq_no, next1->0) > 0
            && m0.waiting_gap_since is Some && spec_elapsed(now_ms, m0.waiting_gap_since->0)
            > GAP_TIMEOUT_MS;

        // Gap timer; a gap that has persisted beyond the timeout forces a
        // resync on the arriving segment.
        if let Some(next_seq) = self.next_seq {
            let cmp = Self::seq_cmp(seq_no, next_seq);
            if cmp > 0 {
                match self.waiting_gap_since {
                    None => {
                        self.waiting_gap_since = Some(now_ms);
                    },
                    Some(gap_since) => {
                        let elapsed = if now_ms >= gap_since {
                            now_ms - gap_since
                        } else {
                            0
                        };
                        if elapsed > GAP_TIMEOUT_MS {
                            self.force_resync_to(seq_no, now_ms);
                        }
                    },
                }
            } else if cmp == 0 {
                self.waiting_gap_since = None;
            }
        }
        let ghost next2 = if resync {
            Some(seq_no)
        } else {
            next1
        };
        let ghost cache2 = if resync {
            Seq::<(u32, Seq<u8>)>::empty()
        } else {
            m0.cache
        };
        let ghost buf2 = if resync {
            Seq::<u8>::empty()
        } else {
            m0.buffer
        };
        proof {
            assert(self.next_seq == next2);
            if resync {
                assert(cache_model(self.tcp_cache@) =~= cache2);
            }
            assert(cache_model(self.tcp_cache@) == cache2);
            assert(self.stream_buffer@ == buf2);
        }

        // Cache the segment unless it lies behind the expectation.
        let keep_segment = match self.next_seq {
            None => true,
            Some(n) => Self::seq_cmp(seq_no, n) >= 0,
        };
        if keep_segment {
            let ghost oldv = self.tcp_cache@;
            let data = vstd::slice::slice_to_vec(payload);
            match Self::find_cached(&self.tcp_cache, seq_no) {
                Some(i) => {
                    self.tcp_cache.remove(i);
                    self.tcp_cache.insert(i, Segment { seq_no, data });
                    proof {
                        assert(cache_model(self.tcp_cache@) =~= cache2.update(
                            i as int,
                            (seq_no, payload@),
                        ));
                        assert forall|j: int| 0 <= j < self.tcp_cache@.len() implies (
                        #[trigger] self.tcp_cache@[j]).seq_no == oldv[j].seq_no by {
                            if j < i {
                            } else if j == i as int {
                                assert(oldv[j].seq_no == seq_no);
                            } else {
                                assert(self.tcp_cache@[j] == oldv[j]);
                            }
                        }
                        assert(cache_distinct(self.tcp_cache@));
                    }
                },
                None => {
                    proof {
                        lemma_first_key_idx(cache2, seq_no);
                        assert forall|j: int| 0 <= j < oldv.len() implies (
                        #[trigger] oldv[j]).seq_no != seq_no by {
                            assert(cache2[j] == (oldv[j].seq_no, oldv[j].data@));
                        }
                    }
                    self.tcp_cache.push(Segment { seq_no, data });
                    proof {
                        assert(cache_model(self.tcp_cache@) =~= cache2.push((seq_no, payload@)));
                        assert(cache_distinct(self.tcp_cache@));
                    }
                },
            }
        }
        let ghost cache3 = if next2 is None || seq_delta(seq_no, next2->0) >= 0 {
            cache_insert(cache2, seq_no, payload@)
        } else {
            cache2
        };
        proof {
            assert(cache_model(self.tcp_cache@) == cache3);
            assert(cache_distinct(self.tcp_cache@));
            assert(cache_lens_ok(self.tcp_cache@));
        }
        let ghost lp2 = self.last_packet_time;
        let ghost gap2 = self.waiting_gap_since;

        // Drain every contiguous cached segment into the stream buffer.
        if self.next_seq.is_some() {
            let ghost target = spec_drain(cache3, self.next_seq->0, buf2);
            loop
                invariant
                    self.next_seq is Some,
                    cache_distinct(self.tcp_cache@),
                    cache_lens_ok(self.tcp_cache@),
                    cache_model(self.tcp_cache@).len() <= cache3.len(),
                    spec_drain(
                        cache_model(self.tcp_cache@),
                        self.next_seq->0,
                        self.stream_buffer@,
                    ) == target,
                    self.last_packet_time == if cache_model(self.tcp_cache@).len() != cache3.len() {
                        Some(now_ms)
                    } else {
                        lp2
                    },
                    self.current_server == old(self).current_server,
                    self.last_any_packet_time == Some(now_ms),
                    self.waiting_gap_since == gap2,
                ensures
                    self.next_seq is Some,
                    cache_distinct(self.tcp_cache@),
                    cache_lens_ok(self.tcp_cache@),
                    cache_model(self.tcp_cache@) == target.0,
                    self.next_seq->0 == target.1,
                    self.stream_buffer@ == target.2,
                    self.last_packet_time == if target.0.len() != cache3.len() {
                        Some(now_ms)
                    } else {
                        lp2
                    },
                    self.current_server == old(self).current_server,
                    self.last_any_packet_time == Some(now_ms),
                    self.waiting_gap_since == gap2,
                decreases self.tcp_cache@.len(),
            {
                let ghost pre_cache = cache_model(self.tcp_cache@);
                let ghost pre_buf = self.stream_buffer@;
                let next_seq = match self.next_seq {
                    Some(n) => n,
                    // Unreachable: the loop invariant keeps the
                    // expectation set.
                    None => {
                        proof {
                            assert(false);
                        }
                        0
                    },
                };
                match Self::find_cached(&self.tcp_cache, next_seq) {
                    Some(i) => {
                        let ghost oldv = self.tcp_cache@;
                        let seg = self.tcp_cache.remove(i);
                        let seg_len = seg.data.len();
                        let mut d = seg.data;
                        self.stream_buffer.append(&mut d);
                        self.next_seq = Some(next_seq.wrapping_add(seg_len as u32));
                        self.last_packet_time = Some(now_ms);
                        proof {
                            assert(pre_cache[i as int] == (seg.seq_no, seg.data@));
                            assert(cache_model(self.tcp_cache@) =~= pre_cache.remove(i as int));
                            assert(self.stream_buffer@ == pre_buf + pre_cache[i as int].1);
                            assert(self.next_seq->0 == wrap_add(
                                next_seq,
                                pre_cache[i as int].1.len() as int,
                            ));
                            assert(spec_drain(pre_cache, next_seq, pre_buf) == spec_drain(
                                cache_model(self.tcp_cache@),
                                self.next_seq->0,
                                self.stream_buffer@,
                            ));
                            assert forall|a: int, b: int|
                                0 <= a < b < self.tcp_cache@.len() implies (
                            #[trigger] self.tcp_cache@[a]).seq_no != (
                            #[trigger] self.tcp_cache@[b]).seq_no by {
                                let a0 = if a < i as int {
                                    a
                                } else {
                                    a + 1
                                };
                                let b0 = if b < i as int {
                                    b
                                } else {
                                    b + 1
                                };
                                assert(self.tcp_cache@[a] == oldv[a0]);
                                assert(self.tcp_cache@[b] == oldv[b0]);
                            }
                            assert(cache_lens_ok(self.tcp_cache@)) by {
                                assert forall|j: int|
                                    0 <= j < self.tcp_cache@.len() implies (
                                #[trigger] self.tcp_cache@[j]).data@.len() <= u32::MAX by {
                                    let j0 = if j < i as int {
                                        j
                                    } else {
                                        j + 1
                                    };
                                    assert(self.tcp_cache@[j] == oldv[j0]);
                                }
                            }
                        }
                    },
                    None => {
                        proof {
                            assert(spec_drain(pre_cache, next_seq, pre_buf) == (
                                pre_cache,
                                next_seq,
                                pre_buf,
                            ));
                        }
                        break ;
                    },
                }
            }
        }
        let ghost drained = if next2 is Some {
            spec_drain(cache3, next2->0, buf2)
        } else {
            (cache3, 0u32, buf2)
        };
        let ghost cache4 = drained.0;
        let ghost next3 = if next2 is Some {
            Some(drained.1)
        } else {
            next2
        };
        let ghost buf3 = drained.2;
        let ghost consumed_any = cache4.len() != cache3.len();
        proof {
            assert(cache_model(self.tcp_cache@) == cache4);
            assert(self.next_seq == next3);
            assert(self.stream_buffer@ == buf3);
        }

        // Discard cache entries left at or behind the expectation: they can
        // never be consumed and would otherwise linger forever.
        if let Some(next_seq) = self.next_seq {
            let ghost orig = cache_model(self.tcp_cache@);
            let ghost pred = ahead_of(next_seq);
            let mut kept: Vec<Segment> = Vec::new();
            let ghost mut k: int = 0;
            loop
                invariant
                    0 <= k <= orig.len(),
                    orig.len() == cache4.len(),
                    cache_model(self.tcp_cache@) == orig.skip(k),
                    cache_model(kept@) == orig.take(k).filter(pred),
                    pred == ahead_of(next_seq),
                    orig == cache4,
                    cache_distinct(self.tcp_cache@),
                    cache_lens_ok(self.tcp_cache@),
                    cache_distinct(kept@),
                    cache_lens_ok(kept@),
                    cache_ahead(kept@, next_seq),
                    forall|a: int, b: int|
                        0 <= a < kept@.len() && 0 <= b < self.tcp_cache@.len() ==> (
                        #[trigger] kept@[a]).seq_no != (#[trigger] self.tcp_cache@[b]).seq_no,
                    self.current_server == old(self).current_server,
                    self.next_seq == Some(next_seq),
                    self.stream_buffer@ == buf3,
                    self.last_packet_time == if consumed_any {
                        Some(now_ms)
                    } else {
                        lp2
                    },
                    self.last_any_packet_time == Some(now_ms),
                    self.waiting_gap_since == gap2,
                ensures
                    cache_model(kept@) == cache4.filter(pred),
                    cache_distinct(kept@),
                    cache_lens_ok(kept@),
                    cache_ahead(kept@, next_seq),
                    self.current_server == old(self).current_server,
                    self.next_seq == Some(next_seq),
                    self.stream_buffer@ == buf3,
                    self.last_packet_time == if consumed_any {
                        Some(now_ms)
                    } else {
                        lp2
                    },
                    self.last_any_packet_time == Some(now_ms),
                    self.waiting_gap_since == gap2,
                decreases self.tcp_cache@.len(),
            {
                if self.tcp_cache.len() == 0 {
                    proof {
                        assert(cache_model(self.tcp_cache@).len() == 0);
                        assert(orig.skip(k).len() == orig.len() - k);
                        assert(k == orig.len());
                        assert(orig.take(k) =~= orig);
                    }
                    break ;
                }
                let ghost pre_cache = cache_model(self.tcp_cache@);
                proof {
                    assert(pre_cache.len() == self.tcp_cache@.len());
                    assert(pre_cache == orig.skip(k));
                    assert(orig.skip(k).len() == orig.len() - k);
                    assert(k < orig.len());
                }
                let ghost oldvec = self.tcp_cache@;
                let s = self.tcp_cache.remove(0);
                let keep = Self::seq_cmp(s.seq_no, next_seq) > 0;
                proof {
                    assert(pre_cache[0] == (s.seq_no, s.data@));
                    assert(orig.skip(k)[0] == orig[0 + k]);
                    assert forall|j: int| 0 <= j < self.tcp_cache@.len() implies cache_model(
                        self.tcp_cache@,
                    )[j] == orig.skip(k + 1)[j] by {
                        assert(self.tcp_cache@[j] == oldvec[j + 1]);
                        assert(pre_cache[j + 1] == orig.skip(k)[j + 1]);
                        assert(orig.skip(k)[j + 1] == orig[k + 1 + j]);
                        assert(orig.skip(k + 1)[j] == orig[k + 1 + j]);
                    }
                    assert(cache_model(self.tcp_cache@) =~= orig.skip(k + 1));
                    assert(orig.take(k + 1) =~= orig.take(k).push(orig[k]));
                    orig.take(k).lemma_filter_push(orig[k], pred);
                }
                if keep {
                    kept.push(s);
                    proof {
                        assert(cache_model(kept@) =~= orig.take(k).filter(pred).push(orig[k]));
                    }
                }
                proof {
                    k = k + 1;
                }
            }
            self.tcp_cache = kept;
        }
        let ghost cache5 = if next3 is Some {
            cache4.filter(ahead_of(next3->0))
        } else {
            cache4
        };
        proof {
            assert(cache_model(self.tcp_cache@) == cache5);
        }

        proof {
            let r = spec_ingest_segment(m0, seq_no, payload@, now_ms);
            assert(self.model() =~= r);
            if self.next_seq is Some {
                assert forall|i: int|
                    0 <= i < self.tcp_cache@.len() implies seq_delta(
                    (#[trigger] self.tcp_cache@[i]).seq_no,
                    self.next_seq->0,
                ) > 0 by {
                    assert(cache5[i] == (self.tcp_cache@[i].seq_no, self.tcp_cache@[i].data@));
                }
            }
        }
    }

    /// Feed one TCP segment of the current conversation into reassembly and
    /// return every application frame that becomes complete. The whole
    /// behaviour — ingestion as `spec_ingest_segment` states it, then
    /// frame extraction — is the one `spec_process_segment` states.
    pub fn process_segment(&mut self, seq_no: u32, payload: &[u8], now_ms: u64) -> (frames: Vec<
        Vec<u8>,
    >)
        requires
            old(self).wf(),
            payload@.len() <= u32::MAX,
        ensures
            final(self).wf(),
            final(self).current_server == old(self).current_server,
            final(self).model() =~= spec_process_segment(
                old(self).model(),
                seq_no,
                payload@,
                now_ms,
            ).0,
            frames_model(frames@) =~= spec_process_segment(
                old(self).model(),
                seq_no,
                payload@,
                now_ms,
            ).1,
    {
        self.ingest_segment(seq_no, payload, now_ms);
        let mut complete_packets: Vec<Vec<u8>> = Vec::new();
        self.extract_all_frames(&mut complete_packets);
        proof {
            let r = spec_process_segment(old(self).model(), seq_no, payload@, now_ms);
            assert(self.model() =~= r.0);
            assert(frames_model(complete_packets@) =~= r.1);
        }
        complete_packets
    }
}

/// The whole processor state, as plain mathematical values.
#[verifier::ext_equal]
pub ghost struct ProcessorModel {
    /// The conversation currently accepted as the game server, if any.
    pub current_server: Option<crate::endpoint::EndpointModel>,
    /// The reassembly state.
    pub reassembly: ReassemblyModel,
}

/// What one packet produced: the frames that became complete, and the
/// server-change notice when a new conversation was accepted.
pub struct PacketOutcome {
    /// The complete application frames, in stream order.
    pub frames: Vec<Vec<u8>>,
    /// The server-change notice, when a new conversation was accepted.
    pub server_change: Option<crate::events::ServerChangeUpdate>,
}

/// A reassembly state holding nothing at all.
pub open spec fn spec_empty_reassembly() -> ReassemblyModel {
    ReassemblyModel {
        next_seq: None,
        cache: Seq::empty(),
        buffer: Seq::empty(),
        last_packet_time: None,
        last_any_packet_time: None,
        waiting_gap_since: None,
    }
}

/// A reassembly state freshly accepted from a detection packet: empty,
/// expecting the byte just after that packet.
pub open spec fn spec_detected_reassembly(seq_no: u32, payload_len: int, now_ms: u64) -> ReassemblyModel {
    ReassemblyModel {
        next_seq: Some(wrap_add(seq_no, payload_len)),
        cache: Seq::empty(),
        buffer: Seq::empty(),
        last_packet_time: None,
        last_any_packet_time: Some(now_ms),
        waiting_gap_since: None,
    }
}

/// Whether a payload may be offered to server detection at all: between
/// 10 and 2000 bytes, header byte 4 zero, and not a large record on port
/// 443 (those are almost surely TLS).
pub open spec fn spec_detection_prefilter(payload: Seq<u8>, src_port: u16, dst_port: u16) -> bool {
    &&& payload.len() >= 10
    &&& payload.len() < 2000
    &&& payload[4] == 0
    &&& !((src_port == 443 || dst_port == 443) && payload.len() >= 1400)
}

/// What one observed TCP packet does to the processor, and what it
/// yields, as (state, frames, server-change text). An empty payload does
/// nothing. While no conversation is current, a payload that passes the
/// pre-filter and carries a detection signature makes its endpoint
/// current, reinitialises reassembly just past it, and announces the
/// change. A packet of the current conversation first runs the idle
/// check: silence beyond the timeout drops the conversation and
/// re-detects on this packet alone (without the pre-filter); otherwise
/// the segment feeds reassembly.
pub open spec fn spec_process_packet(
    pm: ProcessorModel,
    endpoint: crate::endpoint::EndpointModel,
    seq_no: u32,
    payload: Seq<u8>,
    now_ms: u64,
) -> (ProcessorModel, Seq<Seq<u8>>, Option<Seq<char>>) {
    if payload.len() == 0 {
        (pm, Seq::empty(), None)
    } else {
        let matches = pm.current_server is Some && spec_models_same_conversation(
            endpoint,
            pm.current_server->0,
        );
        if !matches {
            let eligible = pm.current_server is None && spec_detection_prefilter(
                payload,
                endpoint.src_port,
                endpoint.dst_port,
            );
            if eligible && crate::detector::spec_detect_server(payload) {
                let r = spec_process_segment(
                    spec_detected_reassembly(seq_no, payload.len() as int, now_ms),
                    seq_no,
                    payload,
                    now_ms,
                );
                (
                    ProcessorModel { current_server: Some(endpoint), reassembly: r.0 },
                    r.1,
                    Some(spec_model_to_string(endpoint)),
                )
            } else {
                (pm, Seq::empty(), None)
            }
        } else {
            if pm.reassembly.last_any_packet_time is Some && spec_elapsed(
                now_ms,
                pm.reassembly.last_any_packet_time->0,
            ) > IDLE_TIMEOUT_MS {
                if crate::detector::spec_detect_server(payload) {
                    let r = spec_process_segment(
                        spec_detected_reassembly(seq_no, payload.len() as int, now_ms),
                        seq_no,
                        payload,
                        now_ms,
                    );
                    (
                        ProcessorModel { current_server: Some(endpoint), reassembly: r.0 },
                        r.1,
                        Some(spec_model_to_string(endpoint)),
                    )
                } else {
                    (
                        ProcessorModel { current_server: None, reassembly: spec_empty_reassembly() },
                        Seq::empty(),
                        None,
                    )
                }
            } else {
                let r = spec_process_segment(pm.reassembly, seq_no, payload, now_ms);
                (ProcessorModel { current_server: pm.current_server, reassembly: r.0 }, r.1, None)
            }
        }
    }
}

/// Whether two endpoint models denote the same bidirectional
/// conversation.
pub open spec fn spec_models_same_conversation(
    a: crate::endpoint::EndpointModel,
    b: crate::endpoint::EndpointModel,
) -> bool {
    ||| (a.src_addr == b.src_addr && a.src_port == b.src_port && a.dst_addr == b.dst_addr
        && a.dst_port == b.dst_port)
    ||| (a.src_addr == b.dst_addr && a.src_port == b.dst_port && a.dst_addr == b.src_addr
        && a.dst_port == b.src_port)
}

/// An endpoint model rendered as text, as `ServerEndpoint::to_string`
/// renders the endpoint.
pub open spec fn spec_model_to_string(e: crate::endpoint::EndpointModel) -> Seq<char> {
    e.src_addr + seq![':'] + crate::text::spec_dec(e.src_port as int) + seq![' ', '-', '>', ' ']
        + e.dst_addr + seq![':'] + crate::text::spec_dec(e.dst_port as int)
}

impl TcpStreamProcessor {
    /// The whole processor state as plain mathematical values.
    pub open spec fn full_model(&self) -> ProcessorModel {
        ProcessorModel {
            current_server: match self.current_server {
                Option::Some(e) => Some(e.model()),
                Option::None => None,
            },
            reassembly: self.model(),
        }
    }

    /// Accept `endpoint` as the current conversation, reinitialise
    /// reassembly just past the detection packet, and feed that packet
    /// through.
    fn accept_conversation(
        &mut self,
        endpoint: &ServerEndpoint,
        seq_no: u32,
        payload: &[u8],
        now_ms: u64,
    ) -> (outcome: (Vec<Vec<u8>>, crate::events::ServerChangeUpdate))
        requires
            payload@.len() <= u32::MAX,
        ensures
            final(self).wf(),
            ({
                let r = spec_process_segment(
                    spec_detected_reassembly(seq_no, payload@.len() as int, now_ms),
                    seq_no,
                    payload@,
                    now_ms,
                );
                &&& final(self).full_model() =~= (ProcessorModel {
                    current_server: Some(endpoint.model()),
                    reassembly: r.0,
                })
                &&& frames_model(outcome.0@) =~= r.1
                &&& outcome.1.server_endpoint@ == spec_model_to_string(endpoint.model())
            }),
    {
        self.reset();
        self.current_server = Some(endpoint.clone_endpoint());
        self.next_seq = Some(seq_no.wrapping_add(payload.len() as u32));
        self.last_any_packet_time = Some(now_ms);
        proof {
            assert(self.model() =~= spec_detected_reassembly(
                seq_no,
                payload@.len() as int,
                now_ms,
            ));
        }
        let frames = self.process_segment(seq_no, payload, now_ms);
        let notice = crate::events::ServerChangeUpdate { server_endpoint: endpoint.to_string() };
        (frames, notice)
    }

    /// Feed one observed TCP packet into the processor: server detection
    /// while no conversation is current, the idle-timeout check and
    /// reassembly for the current one. Gives the frames that became
    /// complete and the server-change notice, if a new conversation was
    /// accepted.
    pub fn process_packet(
        &mut self,
        endpoint: &ServerEndpoint,
        seq_no: u32,
        payload: &[u8],
        now_ms: u64,
    ) -> (outcome: PacketOutcome)
        requires
            old(self).wf(),
            payload@.len() <= u32::MAX,
        ensures
            final(self).wf(),
            ({
                let r = spec_process_packet(
                    old(self).full_model(),
                    endpoint.model(),
                    seq_no,
                    payload@,
                    now_ms,
                );
                &&& final(self).full_model() =~= r.0
                &&& frames_model(outcome.frames@) =~= r.1
                &&& match outcome.server_change {
                    Some(u) => r.2 == Some(u.server_endpoint@),
                    None => r.2 is None,
                }
            }),
    {
        if payload.is_empty() {
            return PacketOutcome { frames: Vec::new(), server_change: None };
        }
        let is_match = match &self.current_server {
            Some(server) => endpoint.same_conversation(server),
            None => false,
        };
        if !is_match {
            let eligible = self.current_server.is_none() && payload.len() >= 10 && payload.len()
                < 2000 && payload[4] == 0 && !((endpoint.src_port == 443 || endpoint.dst_port
                == 443) && payload.len() >= 1400);
            if eligible && crate::detector::detect_server_in_packet(payload) {
                let (frames, notice) = self.accept_conversation(endpoint, seq_no, payload, now_ms);
                return PacketOutcome { frames, server_change: Some(notice) };
            }
            return PacketOutcome { frames: Vec::new(), server_change: None };
        }
        let idle = match self.last_any_packet_time {
            Some(last_any) => {
                let elapsed = if now_ms >= last_any {
                    now_ms - last_any
                } else {
                    0
                };
                elapsed > IDLE_TIMEOUT_MS
            },
            None => false,
        };
        if idle {
            self.force_reconnect();
            if crate::detector::detect_server_in_packet(payload) {
                let (frames, notice) = self.accept_conversation(endpoint, seq_no, payload, now_ms);
                return PacketOutcome { frames, server_change: Some(notice) };
            }
            return PacketOutcome { frames: Vec::new(), server_change: None };
        }
        let frames = self.process_segment(seq_no, payload, now_ms);
        PacketOutcome { frames, server_change: None }
    }
}

} // verus!
