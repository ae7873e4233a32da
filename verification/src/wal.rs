//! The ingest write-ahead log: each record is a 4-byte little-endian
//! length followed by that many payload bytes. Batches are appended as
//! records before they are queued and replayed from the log's cursor
//! after a restart; a record cut short at the end of the log is dropped.
use vstd::prelude::*;

verus! {

/// Bytes of a record's length header.
pub const WAL_HEADER_BYTES: usize = 4;

/// Little-endian bytes of a 32-bit length.
pub open spec fn le32(n: u32) -> Seq<u8> {
    seq![(n & 0xff) as u8, ((n >> 8u32) & 0xff) as u8, ((n >> 16u32) & 0xff) as u8, (n >> 24u32) as u8]
}

/// The 32-bit length read little-endian from four bytes.
pub open spec fn read_le32(b0: u8, b1: u8, b2: u8, b3: u8) -> u32 {
    (b0 as u32) | ((b1 as u32) << 8u32) | ((b2 as u32) << 16u32) | ((b3 as u32) << 24u32)
}

/// Length header at `offset` of the log.
pub open spec fn header_at(bytes: Seq<u8>, offset: int) -> u32 {
    read_le32(bytes[offset], bytes[offset + 1], bytes[offset + 2], bytes[offset + 3])
}

/// A record holding `payload`.
pub open spec fn wal_record(payload: Seq<u8>) -> Seq<u8> {
    le32(payload.len() as u32) + payload
}

/// Encodes a record; `None` when the payload is too long for its header.
pub fn encode_wal_record(payload: &[u8]) -> (r: Option<Vec<u8>>)
    ensures
        payload@.len() > u32::MAX ==> r is None,
        payload@.len() <= u32::MAX ==> (r matches Some(v) && v@ == wal_record(payload@)),
{
    if payload.len() > 0xffff_ffff {
        return None;
    }
    let n = payload.len() as u32;
    let mut out: Vec<u8> = Vec::new();
    out.push((n & 0xff) as u8);
    out.push(((n >> 8u32) & 0xff) as u8);
    out.push(((n >> 16u32) & 0xff) as u8);
    out.push((n >> 24u32) as u8);
    let mut i: usize = 0;
    while i < payload.len()
        invariant
            i <= payload@.len(),
            n == payload@.len(),
            out@ == le32(n) + payload@.take(i as int),
        decreases payload@.len() - i,
    {
        out.push(payload[i]);
        i = i + 1;
        assert(out@ =~= le32(n) + payload@.take(i as int));
    }
    assert(payload@.take(i as int) =~= payload@);
    Some(out)
}

/// What the log holds at an offset, scanning no further than `upper`.
#[derive(Clone, Copy, Debug, PartialEq, Eq, Structural)]
pub enum WalFrame {
    /// A whole record whose payload spans `payload_start..payload_end`.
    Record { payload_start: usize, payload_end: usize },
    /// A header whose payload runs past the end of the log.
    PartialTail,
    /// A record that ends past the scan bound.
    PastBound,
    /// No header fits before the end of the log or the bound is reached.
    End,
}

/// The frame at `offset` of the log, scanning no further than `upper`.
pub open spec fn frame_of(bytes: Seq<u8>, offset: int, upper: int) -> WalFrame {
    if offset + 4 > bytes.len() || offset >= upper {
        WalFrame::End
    } else {
        let ps = offset + 4;
        let pe = ps + header_at(bytes, offset);
        if pe > bytes.len() {
            WalFrame::PartialTail
        } else if pe > upper {
            WalFrame::PastBound
        } else {
            WalFrame::Record { payload_start: ps as usize, payload_end: pe as usize }
        }
    }
}

/// Reads the frame at `offset` of the log.
pub fn wal_frame_at(bytes: &[u8], offset: usize, upper: u64) -> (f: WalFrame)
    requires
        offset <= bytes@.len(),
    ensures
        f == frame_of(bytes@, offset as int, upper as int),
{
    if bytes.len() - offset < 4 || (offset as u64) >= upper {
        return WalFrame::End;
    }
    let b0 = bytes[offset];
    let b1 = bytes[offset + 1];
    let b2 = bytes[offset + 2];
    let b3 = bytes[offset + 3];
    let len: u32 = (b0 as u32) | ((b1 as u32) << 8u32) | ((b2 as u32) << 16u32) | ((b3 as u32)
        << 24u32);
    let ps = offset + 4;
    if (len as u64) > ((bytes.len() - ps) as u64) {
        return WalFrame::PartialTail;
    }
    let pe = ps + len as usize;
    if (pe as u64) > upper {
        return WalFrame::PastBound;
    }
    WalFrame::Record { payload_start: ps, payload_end: pe }
}

/// Reading a header gives back the length written into it.
pub proof fn lemma_le32_round_trip(n: u32)
    ensures
        read_le32(le32(n)[0], le32(n)[1], le32(n)[2], le32(n)[3]) == n,
{
    assert(((((n & 0xff) as u8) as u32) | (((((n >> 8u32) & 0xff) as u8) as u32) << 8u32) | (((((n
        >> 16u32) & 0xff) as u8) as u32) << 16u32) | ((((n >> 24u32) as u8) as u32) << 24u32))
        == n) by (bit_vector);
}

/// A record read back at the offset where it was written, in a log that
/// may hold anything before and after it, yields its payload, provided
/// the scan bound reaches past it.
pub proof fn lemma_record_reads_back(prefix: Seq<u8>, payload: Seq<u8>, rest: Seq<u8>, upper: int)
    requires
        payload.len() <= u32::MAX,
        prefix.len() + 4 + payload.len() <= upper,
        prefix.len() + 4 + payload.len() + rest.len() <= usize::MAX,
    ensures
        ({
            let log = prefix + wal_record(payload) + rest;
            let off = prefix.len() as int;
            &&& frame_of(log, off, upper) == WalFrame::Record {
                payload_start: (off + 4) as usize,
                payload_end: (off + 4 + payload.len()) as usize,
            }
            &&& log.subrange(off + 4, off + 4 + payload.len()) == payload
        }),
{
    let log = prefix + wal_record(payload) + rest;
    let off = prefix.len() as int;
    let n = payload.len() as u32;
    lemma_le32_round_trip(n);
    assert(log[off] == le32(n)[0]);
    assert(log[off + 1] == le32(n)[1]);
    assert(log[off + 2] == le32(n)[2]);
    assert(log[off + 3] == le32(n)[3]);
    assert(header_at(log, off) == n);
    assert(log.subrange(off + 4, off + 4 + payload.len()) =~= payload);
}

/// What replay does with a record, from the number of events its payload
/// decodes to (`None` when it does not decode), the events already queued
/// or restored, and the queue's capacity: a record that does not decode,
/// holds no events, or could never fit is skipped; one that does not fit
/// now stops the replay.
#[derive(Clone, Copy, Debug, PartialEq, Eq, Structural)]
pub enum ReplayStep {
    Skip,
    Take,
    Stop,
}

/// The replay decision for one record.
pub open spec fn replay_step_of(decoded: Option<usize>, queued: usize, restored: usize, capacity: usize) -> ReplayStep {
    match decoded {
        None => ReplayStep::Skip,
        Some(n) => if n == 0 {
            ReplayStep::Skip
        } else {
            let current = crate::ingest::sat_add(queued, restored);
            if crate::ingest::sat_add(current, n) > capacity {
                if n > capacity {
                    ReplayStep::Skip
                } else {
                    ReplayStep::Stop
                }
            } else {
                ReplayStep::Take
            }
        },
    }
}

/// Decides what replay does with a record.
pub fn replay_step(decoded: Option<usize>, queued: usize, restored: usize, capacity: usize) -> (s: ReplayStep)
    ensures
        s == replay_step_of(decoded, queued, restored, capacity),
{
    match decoded {
        None => ReplayStep::Skip,
        Some(n) => {
            if n == 0 {
                return ReplayStep::Skip;
            }
            let current = queued.saturating_add(restored);
            if current.saturating_add(n) > capacity {
                if n > capacity {
                    ReplayStep::Skip
                } else {
                    ReplayStep::Stop
                }
            } else {
                ReplayStep::Take
            }
        },
    }
}

/// Whether replay must cut the log at `offset`: a partial record was
/// found, or, when the whole log was scanned, fewer than four bytes (a
/// header's worth) remain after the last record.
pub open spec fn must_truncate(partial_found: bool, scanned_to_end: bool, offset: int, len: int) -> bool {
    partial_found || (scanned_to_end && offset < len && len - offset < 4)
}

/// Decides whether replay cuts the log's tail.
pub fn truncate_tail(partial_found: bool, scanned_to_end: bool, offset: usize, len: usize) -> (b: bool)
    ensures
        b == must_truncate(partial_found, scanned_to_end, offset as int, len as int),
{
    partial_found || (scanned_to_end && offset < len && len - offset < 4)
}

/// The cursor after a restart: the stored one, never past the log's end.
pub fn clamp_cursor(stored: u64, log_len: u64) -> (c: u64)
    ensures
        c == (if stored < log_len {
            stored
        } else {
            log_len
        }),
{
    if stored < log_len {
        stored
    } else {
        log_len
    }
}

/// The cursor read at start-up: the stored text, trimmed, as a number
/// (zero when the file is missing or does not hold one), never past the
/// log's end.
pub fn cursor_from_text(stored: Option<&str>, log_len: u64) -> (c: u64)
    ensures
        c == ({
            let v = match stored {
                Some(t) => match crate::scheduler::u64_text(crate::text::trim(t@)) {
                    Some(v) => v,
                    None => 0u64,
                },
                None => 0u64,
            };
            if v < log_len {
                v
            } else {
                log_len
            }
        }),
{
    let v: u64 = match stored {
        Some(t) => {
            let tc = crate::text::trim_str(t);
            let ts = crate::text::string_of(tc.as_slice());
            match crate::scheduler::parse_u64_text(ts.as_str()) {
                Some(v) => v,
                None => 0,
            }
        },
        None => 0,
    };
    clamp_cursor(v, log_len)
}

/// Whether the log may be emptied: nothing is queued and the cursor has
/// caught up with the end of the log.
pub fn may_compact(queued_events: usize, cursor: u64, next_offset: u64) -> (b: bool)
    ensures
        b == (queued_events == 0 && cursor >= next_offset),
{
    queued_events == 0 && cursor >= next_offset
}

/// Name for the number of elements of the JSON array a record's payload
/// holds (`serde_json::from_slice::<Vec<serde_json::Value>>`), or `None`
/// when the payload is not a JSON array.
pub uninterp spec fn json_array_len(payload: Seq<u8>) -> Option<usize>;

/// Counts the events of a record's payload (a JSON array); named by
/// [`json_array_len`].
#[verifier::external_body]
fn decoded_event_count(payload: &[u8]) -> (n: Option<usize>)
    ensures
        n == json_array_len(payload@),
{
    serde_json::from_slice::<Vec<serde_json::Value>>(payload).ok().map(|v| v.len())
}

/// A record restored by replay: its span in the log and its number of
/// events (its payload is the span less the four-byte header).
#[derive(Clone, Copy, Debug, PartialEq, Eq, Structural)]
pub struct ReplayedRecord {
    pub wal_start_offset: u64,
    pub wal_end_offset: u64,
    pub event_count: usize,
}

/// What replay found: the records to queue again (in log order), the
/// cursor past the records it skipped, and where the log must be cut, if
/// anywhere.
pub struct Replay {
    pub records: Vec<ReplayedRecord>,
    pub cursor: u64,
    pub truncate_at: Option<u64>,
}

/// Replay from `offset` on: the records taken, the cursor, where the scan
/// stopped, and whether it stopped at a partial record. A record that does
/// not decode, holds no events or could never fit is skipped (the cursor
/// moves past it); one that fits is taken; one that does not fit now stops
/// the scan, as does the end of the log or of the bound.
pub open spec fn replay_scan(
    bytes: Seq<u8>,
    offset: int,
    cursor: u64,
    upper: u64,
    queued: usize,
    capacity: usize,
    restored: usize,
    records: Seq<ReplayedRecord>,
) -> (Seq<ReplayedRecord>, u64, int, bool)
    decreases bytes.len() - offset,
{
    match frame_of(bytes, offset, upper as int) {
        WalFrame::Record { payload_start, payload_end } => if offset < payload_end <= bytes.len() {
            let d = json_array_len(bytes.subrange(payload_start as int, payload_end as int));
            match replay_step_of(d, queued, restored, capacity) {
                ReplayStep::Skip => replay_scan(
                    bytes,
                    payload_end as int,
                    payload_end as u64,
                    upper,
                    queued,
                    capacity,
                    restored,
                    records,
                ),
                ReplayStep::Take => replay_scan(
                    bytes,
                    payload_end as int,
                    cursor,
                    upper,
                    queued,
                    capacity,
                    crate::ingest::sat_add(restored, d.unwrap()),
                    records.push(
                        ReplayedRecord {
                            wal_start_offset: offset as u64,
                            wal_end_offset: payload_end as u64,
                            event_count: d.unwrap(),
                        },
                    ),
                ),
                ReplayStep::Stop => (records, cursor, offset, false),
            }
        } else {
            (records, cursor, offset, false)
        },
        WalFrame::PartialTail => (records, cursor, offset, true),
        _ => (records, cursor, offset, false),
    }
}

/// The replay of a log from its cursor (clamped to the log's length) up to
/// `upper` (the start of the first queued batch, or the log's end), with
/// `queued` events already queued and room for `capacity`: the records it
/// takes, the cursor after the records it skips, and the length the log is
/// cut to when a partial record, or a tail too short for a header, ends it.
/// Nothing happens when the cursor is already at the bound.
pub open spec fn replay_of(bytes: Seq<u8>, cursor: u64, upper: u64, queued: usize, capacity: usize) -> (
    Seq<ReplayedRecord>,
    u64,
    Option<u64>,
) {
    let start: u64 = if cursor < bytes.len() {
        cursor
    } else {
        bytes.len() as u64
    };
    if start >= upper {
        (Seq::empty(), start, None)
    } else {
        let (recs, cur, off, partial) = replay_scan(bytes, start as int, start, upper, queued, capacity, 0, Seq::empty());
        (recs, cur, if must_truncate(partial, upper == bytes.len(), off, bytes.len() as int) {
            Some(off as u64)
        } else {
            None
        })
    }
}

/// Replays the log: which records go back into the queue, where the cursor
/// ends, and whether the tail is cut.
pub fn replay_log(bytes: &[u8], cursor: u64, upper: u64, queued: usize, capacity: usize) -> (r: Replay)
    requires
        bytes@.len() <= u64::MAX,
    ensures
        (r.records@, r.cursor, r.truncate_at) == replay_of(bytes@, cursor, upper, queued, capacity),
{
    let len = bytes.len();
    let start: u64 = if cursor < len as u64 {
        cursor
    } else {
        len as u64
    };
    if start >= upper {
        return Replay { records: Vec::new(), cursor: start, truncate_at: None };
    }
    let ghost target = replay_scan(bytes@, start as int, start, upper, queued, capacity, 0, Seq::empty());
    let mut offset: usize = start as usize;
    let mut cur: u64 = start;
    let mut restored: usize = 0;
    let mut records: Vec<ReplayedRecord> = Vec::new();
    let mut partial = false;
    loop
        invariant_except_break
            !partial,
        invariant
            offset <= len,
            len == bytes@.len(),
            len <= u64::MAX,
            replay_scan(bytes@, offset as int, cur, upper, queued, capacity, restored, records@) == target,
        ensures
            offset <= len,
            target == (records@, cur, offset as int, partial),
        decreases len - offset,
    {
        match wal_frame_at(bytes, offset, upper) {
            WalFrame::Record { payload_start, payload_end } => {
                let d = decoded_event_count(&bytes[payload_start..payload_end]);
                proof {
                    assert(bytes@.subrange(payload_start as int, payload_end as int) == bytes@.subrange(
                        payload_start as int,
                        payload_end as int,
                    ));
                }
                match replay_step(d, queued, restored, capacity) {
                    ReplayStep::Skip => {
                        offset = payload_end;
                        cur = payload_end as u64;
                    },
                    ReplayStep::Take => {
                        let n = d.unwrap();
                        records.push(
                            ReplayedRecord {
                                wal_start_offset: offset as u64,
                                wal_end_offset: payload_end as u64,
                                event_count: n,
                            },
                        );
                        restored = restored.saturating_add(n);
                        offset = payload_end;
                    },
                    ReplayStep::Stop => {
                        break ;
                    },
                }
            },
            WalFrame::PartialTail => {
                partial = true;
                break ;
            },
            _ => {
                break ;
            },
        }
    }
    let truncate_at = if truncate_tail(partial, upper == len as u64, offset, len) {
        Some(offset as u64)
    } else {
        None
    };
    Replay { records, cursor: cur, truncate_at }
}

} // verus!
