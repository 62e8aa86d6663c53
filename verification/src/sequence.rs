//! Sequence-aware deduplication: from a playlist snapshot and the last
//! fully-ingested sequence number, exactly the not-yet-ingested
//! segments, in playlist order, plus the gap check.

use vstd::prelude::*;

use crate::playlist::{MediaPlaylist, PlaylistModel, SegmentEntry};

verus! {

/// One segment still to ingest: its server-assigned sequence number
/// and its playlist entry.
pub struct PendingSegment {
    pub seq: u64,
    pub entry: SegmentEntry,
}

/// Index of the first entry whose sequence number exceeds `last`.
/// Entry `i` carries `media_sequence + i`, so all entries are new when
/// the playlist starts past `last`, and a suffix is new otherwise.
pub open spec fn start_index(pl: PlaylistModel, last: u64) -> int {
    if pl.media_sequence > last {
        0
    } else {
        last - pl.media_sequence + 1
    }
}

/// How many leading entries have a sequence number that fits in u64:
/// all of them, except in the degenerate case of a playlist reaching
/// past the numeric limit.
pub open spec fn representable_count(pl: PlaylistModel) -> int {
    if pl.segments.len() <= u64::MAX - pl.media_sequence + 1 {
        pl.segments.len() as int
    } else {
        u64::MAX - pl.media_sequence + 1
    }
}

/// How many segments `new_segments` yields.
pub open spec fn pending_count(pl: PlaylistModel, last: u64) -> int {
    if start_index(pl, last) <= representable_count(pl) {
        representable_count(pl) - start_index(pl, last)
    } else {
        0
    }
}

/// A detectable gap: at least one segment was previously ingested and
/// the next available sequence number skips past its successor.
pub open spec fn gap_before(last: u64, first_new: u64) -> bool {
    last > 0 && first_new > last + 1
}

/// Exactly the segments not yet ingested, in playlist order: those
/// whose sequence number `media_sequence + index` exceeds `last`.
pub fn new_segments(pl: &MediaPlaylist, last: u64) -> (r: Vec<PendingSegment>)
    ensures
        r@.len() == pending_count(pl@, last),
        forall|k: int|
            0 <= k < r@.len() ==> (#[trigger] r@[k]).seq == pl@.media_sequence + start_index(
                pl@,
                last,
            ) + k,
        forall|k: int|
            0 <= k < r@.len() ==> (#[trigger] r@[k]).entry@ == pl@.segments[start_index(
                pl@,
                last,
            ) + k],
{
    let ghost m = pl@;
    let ghost start = start_index(m, last);
    let mut out: Vec<PendingSegment> = Vec::new();
    let mut i: usize = 0;
    let len = pl.segments.len();
    while i < len && (i as u64) <= u64::MAX - pl.media_sequence
        invariant
            m == pl@,
            start == start_index(m, last),
            0 <= i <= len,
            len == m.segments.len(),
            i <= representable_count(m),
            out@.len() == (if start <= i { i - start } else { 0 }),
            forall|k: int|
                0 <= k < out@.len() ==> (#[trigger] out@[k]).seq == m.media_sequence + start
                    + k,
            forall|k: int|
                0 <= k < out@.len() ==> (#[trigger] out@[k]).entry@ == m.segments[start + k],
        decreases len - i,
    {
        let seq: u64 = pl.media_sequence + (i as u64);
        if seq > last {
            out.push(PendingSegment { seq, entry: pl.segments[i].duplicate() });
        }
        i += 1;
    }
    out
}

/// The gap check on the first yielded sequence number.
pub fn has_gap(last: u64, first_new: u64) -> (r: bool)
    ensures
        r == gap_before(last, first_new),
{
    last > 0 && last < u64::MAX && first_new > last + 1
}

} // verus!
