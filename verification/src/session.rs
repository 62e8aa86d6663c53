//! The capture session: a step-driven state machine. The caller
//! performs one fetch or file operation per step and hands the outcome
//! back; the session decides everything else — resolution, sequence
//! deduplication, gap detection, discontinuity rollover, splitting,
//! and the guarantee that every opened output file is finalized on
//! every exit path.

use vstd::prelude::*;

use crate::names::{base_name_model, derive_base_name};
use crate::parse::{parse_media_doc, parse_playlist_doc, parsed_doc_of, parsed_media_of};
use crate::playlist::{DocModel, MediaPlaylist, PlaylistDoc};
use crate::sequence::{gap_before, has_gap, new_segments, pending_count, start_index, PendingSegment};
use crate::split::{PySegment, SplitPolicy};
use crate::urls::{join_url, normalize_url, url_joined, url_normalized};

verus! {

/// Why a session ended without reaching the end of the stream.
#[derive(Clone, Copy, Debug, PartialEq, Eq, Structural)]
pub enum CaptureError {
    /// The source URL, a variant URI, or a segment URI could not be
    /// parsed or resolved.
    InvalidUrl,
    /// The initial document parsed as no known playlist kind.
    UnsupportedFormat,
    /// A master playlist listed no variant to follow.
    NoVariants,
    /// A fetch failed: network error or non-success status.
    Transport,
    /// The driving caller broke the step protocol, or the session ran
    /// out of distinct file numbers.
    Protocol,
}

/// Where the session stands between steps.
#[derive(Clone, Copy, Debug, PartialEq, Eq, Structural)]
pub enum Phase {
    /// Waiting for the initially fetched document.
    AwaitInitial,
    /// A master playlist was followed; waiting for the media playlist.
    AwaitMedia,
    /// Waiting for one segment's bytes to be written.
    AwaitSegment,
    /// Waiting for a refreshed media playlist snapshot.
    AwaitRefresh,
    /// The session ended; its outcome is recorded.
    Done,
}

/// A file operation the caller must perform, in order.
pub enum FileOp {
    /// Rename `{base}.ts.part` to `{base}.ts`.
    Finalize { base: String },
    /// Create `{base}.ts.part` and make it the current output.
    Open { base: String },
}

/// The fetch or termination that concludes a step.
pub enum Step {
    /// GET this URL and hand back its body bytes.
    FetchPlaylist { url: String },
    /// GET this URL, stream the body into the current output file, and
    /// hand back the byte count written.
    FetchSegment { url: String },
    /// The session is over with this outcome.
    Finished { outcome: Result<(), CaptureError> },
}

/// Everything the caller must do for one step: file operations first,
/// an optional diagnostic dump of unparseable initial bytes, then the
/// concluding fetch or termination. `gap` and `discontinuity` are
/// observational log signals and alter no control flow.
pub struct Action {
    pub ops: Vec<FileOp>,
    pub dump: Option<Vec<u8>>,
    pub gap: bool,
    pub discontinuity: bool,
    pub step: Step,
}

/// What the caller hands back after performing a step.
pub enum Event {
    /// The body of a playlist fetch.
    PlaylistBytes { bytes: Vec<u8> },
    /// A segment's bytes were fetched and written; this many of them.
    SegmentWritten { length: u64 },
    /// A fetch failed.
    TransportFailed,
}

/// History of one output file, by the sequence numbers written to it.
pub struct FileRecord {
    pub base: Seq<char>,
    pub writes: Seq<u64>,
    pub finalized: bool,
}

/// One live capture session.
pub struct CaptureSession {
    pub phase: Phase,
    pub outcome: Option<Result<(), CaptureError>>,
    pub media_url: String,
    pub stem: String,
    pub session_id: u64,
    pub policy: SplitPolicy,
    pub last_ingested: u64,
    pub pending: Vec<PendingSegment>,
    pub pending_idx: usize,
    pub files_opened: u64,
    pub current_base: String,
    pub ingested: Ghost<Seq<u64>>,
    pub files: Ghost<Seq<FileRecord>>,
}

/// The action ends the session with this outcome.
pub open spec fn finished_with(a: Action, outcome: Result<(), CaptureError>) -> bool {
    &&& a.step matches Step::Finished { outcome: o } && o == outcome
}

/// Every opened output file has been finalized.
pub open spec fn all_finalized(s: CaptureSession) -> bool {
    forall|j: int| 0 <= j < s.files@.len() ==> (#[trigger] s.files@[j]).finalized
}

pub open spec fn strictly_increasing(s: Seq<u64>) -> bool {
    forall|i: int, j: int| 0 <= i < j < s.len() ==> s[i] < s[j]
}

impl CaptureSession {
    /// Ingestion history: strictly increasing positive sequence
    /// numbers, summarized by `last_ingested`.
    pub open spec fn inv_ingestion(self) -> bool {
        let ing = self.ingested@;
        &&& strictly_increasing(ing)
        &&& forall|i: int| 0 <= i < ing.len() ==> (#[trigger] ing[i]) >= 1
        &&& self.last_ingested == if ing.len() == 0 {
            0u64
        } else {
            ing.last()
        }
    }

    /// File history: derived names by index; per-file writes strictly
    /// increasing and bounded by the ingestion summary; files written
    /// earlier hold strictly earlier sequence numbers.
    pub open spec fn inv_files(self) -> bool {
        let fs = self.files@;
        &&& fs.len() == self.files_opened as nat
        &&& forall|j: int|
            0 <= j < fs.len() ==> (#[trigger] fs[j]).base == base_name_model(
                self.stem@,
                self.session_id,
                j as u64,
            )
        &&& forall|j: int| 0 <= j < fs.len() ==> strictly_increasing((#[trigger] fs[j]).writes)
        &&& forall|j: int, a: int|
            0 <= j < fs.len() && 0 <= a < (#[trigger] fs[j]).writes.len() ==> 1 <= #[trigger] fs[j].writes[a]
                <= self.last_ingested
        &&& forall|j1: int, j2: int, a: int, b: int|
            0 <= j1 < j2 < fs.len() && 0 <= a < fs[j1].writes.len() && 0 <= b
                < fs[j2].writes.len() ==> #[trigger] fs[j1].writes[a] < #[trigger] fs[j2].writes[b]
    }

    /// Exactly one file is open: the last one, its name current.
    pub open spec fn file_open_shape(self) -> bool {
        let fs = self.files@;
        &&& fs.len() >= 1
        &&& !fs.last().finalized
        &&& forall|j: int| 0 <= j < fs.len() - 1 ==> (#[trigger] fs[j]).finalized
        &&& self.current_base@ == fs.last().base
    }

    /// Segments still to ingest are all new and in increasing order.
    pub open spec fn inv_pending(self) -> bool {
        let p = self.pending@;
        &&& self.pending_idx <= p.len()
        &&& forall|k: int|
            self.pending_idx <= k < p.len() ==> (#[trigger] p[k]).seq > self.last_ingested
        &&& forall|k1: int, k2: int|
            self.pending_idx <= k1 < k2 < p.len() ==> (#[trigger] p[k1].seq) < (#[trigger] p[k2].seq)
    }

    /// The session invariant.
    pub open spec fn wf(self) -> bool {
        &&& self.inv_ingestion()
        &&& self.inv_files()
        &&& self.inv_pending()
        &&& match self.phase {
            Phase::AwaitInitial | Phase::AwaitMedia => {
                &&& self.files@.len() == 0
                &&& self.pending_idx == self.pending@.len()
                &&& self.outcome is None
            },
            Phase::AwaitSegment => {
                &&& self.file_open_shape()
                &&& self.pending_idx < self.pending@.len()
                &&& self.outcome is None
                &&& (self.pending@[self.pending_idx as int].entry.discontinuity ==> self.files@.last().writes.len()
                    == 0 && self.policy.accumulator() == 0)
            },
            Phase::AwaitRefresh => {
                &&& self.file_open_shape()
                &&& self.pending_idx == self.pending@.len()
                &&& self.outcome is None
            },
            Phase::Done => {
                &&& all_finalized(self)
                &&& self.pending_idx == self.pending@.len()
                &&& self.outcome is Some
            },
        }
    }

    /// The segment a pending `FetchSegment` step is for.
    pub open spec fn current_segment(self) -> PendingSegment {
        self.pending@[self.pending_idx as int]
    }

    /// Begins a session. The source URL is normalized up front; an
    /// invalid one ends the session at once with `InvalidUrl`,
    /// otherwise the first step fetches the document at that URL.
    pub fn start(url: &str, file_name: &str, session_id: u64, config: PySegment) -> (r: (
        CaptureSession,
        Action,
    ))
        ensures
            r.0.wf(),
            r.0.ingested@.len() == 0,
            r.0.files@.len() == 0,
            r.0.stem@ == file_name@,
            r.0.session_id == session_id,
            r.0.last_ingested == 0,
            r.0.policy.accumulator() == 0,
            (config matches PySegment::Time { time } ==> r.0.policy == SplitPolicy::Time {
                threshold: time,
                elapsed: 0u64,
            }),
            (config matches PySegment::Size { size } ==> r.0.policy == SplitPolicy::Size {
                threshold: size,
                accumulated: 0u64,
            }),
            r.1.ops@.len() == 0,
            r.1.gap == false,
            (url_normalized(url@) is None ==> r.0.phase == Phase::Done && finished_with(
                r.1,
                Err(CaptureError::InvalidUrl),
            )),
            (url_normalized(url@) matches Some(mu) ==> {
                &&& r.0.phase == Phase::AwaitInitial
                &&& r.0.media_url@ == mu
                &&& r.1.step matches Step::FetchPlaylist { url: u } && u@ == mu
            }),
    {
        let policy = config.into_policy();
        match normalize_url(url) {
            Some(media_url) => {
                let fetch = media_url.clone();
                let s = CaptureSession {
                    phase: Phase::AwaitInitial,
                    outcome: None,
                    media_url,
                    stem: file_name.to_owned(),
                    session_id,
                    policy,
                    last_ingested: 0,
                    pending: Vec::new(),
                    pending_idx: 0,
                    files_opened: 0,
                    current_base: String::new(),
                    ingested: Ghost(Seq::empty()),
                    files: Ghost(Seq::empty()),
                };
                let a = Action {
                    ops: Vec::new(),
                    dump: None,
                    gap: false,
                    discontinuity: false,
                    step: Step::FetchPlaylist { url: fetch },
                };
                (s, a)
            },
            None => {
                let s = CaptureSession {
                    phase: Phase::Done,
                    outcome: Some(Err(CaptureError::InvalidUrl)),
                    media_url: String::new(),
                    stem: file_name.to_owned(),
                    session_id,
                    policy,
                    last_ingested: 0,
                    pending: Vec::new(),
                    pending_idx: 0,
                    files_opened: 0,
                    current_base: String::new(),
                    ingested: Ghost(Seq::empty()),
                    files: Ghost(Seq::empty()),
                };
                let a = Action {
                    ops: Vec::new(),
                    dump: None,
                    gap: false,
                    discontinuity: false,
                    step: Step::Finished { outcome: Err(CaptureError::InvalidUrl) },
                };
                (s, a)
            },
        }
    }

    /// Marks the open file finalized and emits the rename operation.
    fn finalize_current(&mut self, ops: &mut Vec<FileOp>)
        requires
            old(self).inv_files(),
            old(self).file_open_shape(),
        ensures
            final(self).inv_files(),
            all_finalized(*final(self)),
            final(self).files@.len() == old(self).files@.len(),
            forall|j: int|
                0 <= j < old(self).files@.len() ==> (#[trigger] final(self).files@[j]).base == old(
                    self,
                ).files@[j].base && final(self).files@[j].writes == old(self).files@[j].writes,
            final(self).phase == old(self).phase,
            final(self).outcome == old(self).outcome,
            final(self).media_url@ == old(self).media_url@,
            final(self).stem@ == old(self).stem@,
            final(self).session_id == old(self).session_id,
            final(self).policy == old(self).policy,
            final(self).last_ingested == old(self).last_ingested,
            final(self).pending@ == old(self).pending@,
            final(self).pending_idx == old(self).pending_idx,
            final(self).files_opened == old(self).files_opened,
            final(self).current_base@ == old(self).current_base@,
            final(self).ingested@ == old(self).ingested@,
            final(ops)@.len() == old(ops)@.len() + 1,
            (final(ops)@.last() matches FileOp::Finalize { base } && base@ == old(self).files@.last().base),
            forall|j: int| 0 <= j < old(ops)@.len() ==> final(ops)@[j] == old(ops)@[j],
    {
        let ghost fs = self.files@;
        let ghost last = fs[fs.len() - 1];
        self.files = Ghost(
            fs.update(
                fs.len() - 1,
                FileRecord { base: last.base, writes: last.writes, finalized: true },
            ),
        );
        ops.push(FileOp::Finalize { base: self.current_base.clone() });
    }

    /// Opens the next output file under a freshly derived base name and
    /// emits the create operation.
    fn open_next(&mut self, ops: &mut Vec<FileOp>)
        requires
            old(self).inv_files(),
            all_finalized(*old(self)),
            old(self).files_opened < u64::MAX,
        ensures
            final(self).inv_files(),
            final(self).file_open_shape(),
            final(self).files@.len() == old(self).files@.len() + 1,
            final(self).files@.last().writes.len() == 0,
            forall|j: int|
                0 <= j < old(self).files@.len() ==> (#[trigger] final(self).files@[j]) == old(
                    self,
                ).files@[j],
            final(self).phase == old(self).phase,
            final(self).outcome == old(self).outcome,
            final(self).media_url@ == old(self).media_url@,
            final(self).stem@ == old(self).stem@,
            final(self).session_id == old(self).session_id,
            final(self).policy == old(self).policy,
            final(self).last_ingested == old(self).last_ingested,
            final(self).pending@ == old(self).pending@,
            final(self).pending_idx == old(self).pending_idx,
            final(self).files_opened == old(self).files_opened + 1,
            final(self).current_base@ == final(self).files@.last().base,
            final(self).ingested@ == old(self).ingested@,
            final(ops)@.len() == old(ops)@.len() + 1,
            (final(ops)@.last() matches FileOp::Open { base } && base@ == final(self).files@.last().base),
            forall|j: int| 0 <= j < old(ops)@.len() ==> final(ops)@[j] == old(ops)@[j],
    {
        let base = derive_base_name(self.stem.as_str(), self.session_id, self.files_opened);
        self.files = Ghost(
            self.files@.push(FileRecord { base: base@, writes: Seq::empty(), finalized: false }),
        );
        self.files_opened = self.files_opened + 1;
        self.current_base = base.clone();
        ops.push(FileOp::Open { base });
    }

    /// Ends the session with an error, finalizing the open file if any.
    fn fail(&mut self, ops: Vec<FileOp>, dump: Option<Vec<u8>>, e: CaptureError) -> (a: Action)
        requires
            old(self).inv_ingestion(),
            old(self).inv_files(),
            old(self).outcome is None,
            old(self).files@.len() == 0 || old(self).file_open_shape(),
        ensures
            final(self).wf(),
            final(self).phase == Phase::Done,
            finished_with(a, Err(e)),
            a.dump == dump,
            (old(self).file_open_shape() ==> a.ops@.len() == ops@.len() + 1 && (a.ops@.last() matches FileOp::Finalize { base } && base@ == old(self).files@.last().base)),
            (old(self).files@.len() == 0 ==> a.ops@ == ops@),
            final(self).ingested@ == old(self).ingested@,
            final(self).last_ingested == old(self).last_ingested,
            final(self).media_url@ == old(self).media_url@,
            final(self).stem@ == old(self).stem@,
            final(self).session_id == old(self).session_id,
            final(self).policy == old(self).policy,
            final(self).files@.len() == old(self).files@.len(),
            forall|j: int|
                0 <= j < old(self).files@.len() ==> (#[trigger] final(self).files@[j]).base == old(
                    self,
                ).files@[j].base && final(self).files@[j].writes == old(self).files@[j].writes,
    {
        let mut ops = ops;
        if self.files_opened > 0 {
            self.finalize_current(&mut ops);
        }
        self.phase = Phase::Done;
        self.outcome = Some(Err(e));
        self.pending = Vec::new();
        self.pending_idx = 0;
        Action { ops, dump, gap: false, discontinuity: false, step: Step::Finished { outcome: Err(e) } }
    }
}

/// The sequence number of the first segment a snapshot yields anew.
pub open spec fn first_new_seq(pl: crate::playlist::PlaylistModel, last: u64) -> int {
    pl.media_sequence + start_index(pl, last)
}

/// What emitting the fetch for the next pending segment does: a
/// discontinuity entry rolls the output over — fresh file, accumulator
/// reset — before its own bytes are fetched; an unresolvable segment
/// URI ends the session.
pub open spec fn emit_spec(pre: CaptureSession, post: CaptureSession, a: Action, gap: bool) -> bool {
    let seg = pre.pending@[pre.pending_idx as int];
    let ju = url_joined(pre.media_url@, seg.entry.uri@);
    &&& post.ingested@ == pre.ingested@
    &&& post.last_ingested == pre.last_ingested
    &&& post.files@.len() >= pre.files@.len()
    &&& (forall|j: int|
        0 <= j < pre.files@.len() ==> (#[trigger] post.files@[j]).writes == pre.files@[j].writes
            && post.files@[j].base == pre.files@[j].base)
    &&& (seg.entry.discontinuity && pre.files_opened == u64::MAX ==> post.phase == Phase::Done
        && finished_with(a, Err(CaptureError::Protocol)))
    &&& (!(seg.entry.discontinuity && pre.files_opened == u64::MAX) ==> {
        &&& (ju matches Some(u) ==> {
            &&& post.phase == Phase::AwaitSegment
            &&& a.step matches Step::FetchSegment { url } && url@ == u
            &&& a.gap == gap
            &&& a.discontinuity == seg.entry.discontinuity
            &&& post.pending@ == pre.pending@
            &&& post.pending_idx == pre.pending_idx
            &&& post.media_url@ == pre.media_url@
            &&& (seg.entry.discontinuity ==> post.files@.len() == pre.files@.len() + 1
                && post.files@.last().writes.len() == 0 && post.policy.accumulator() == 0)
            &&& (!seg.entry.discontinuity ==> post.files@ == pre.files@ && post.policy
                == pre.policy)
        })
        &&& (ju is None ==> post.phase == Phase::Done && finished_with(
            a,
            Err(CaptureError::InvalidUrl),
        ))
    })
}

/// What applying a fresh snapshot does: an empty segment list ends the
/// session successfully and finalizes the open file; no new segments
/// means another poll; otherwise exactly the new segments are queued,
/// the gap check fires on the first of them, and its fetch is emitted.
pub open spec fn snapshot_spec(
    pre: CaptureSession,
    pl: crate::playlist::PlaylistModel,
    post: CaptureSession,
    a: Action,
) -> bool {
    let start = start_index(pl, pre.last_ingested);
    &&& post.ingested@ == pre.ingested@
    &&& post.last_ingested == pre.last_ingested
    &&& (pl.segments.len() == 0 ==> post.phase == Phase::Done && finished_with(a, Ok(()))
        && all_finalized(post) && post.files@.len() >= 1 && (a.ops@.last() matches FileOp::Finalize {
            base,
        } && base@ == post.files@.last().base))
    &&& (pl.segments.len() > 0 && pending_count(pl, pre.last_ingested) == 0 ==> {
        &&& post.phase == Phase::AwaitRefresh
        &&& a.step matches Step::FetchPlaylist { url } && url@ == post.media_url@
        &&& a.gap == false
    })
    &&& (pl.segments.len() > 0 && pending_count(pl, pre.last_ingested) > 0
        && pre.files_opened < u64::MAX - 1 ==> {
        let ju = url_joined(pre.media_url@, pl.segments[start].uri);
        &&& (ju matches Some(u) ==> {
            &&& post.phase == Phase::AwaitSegment
            &&& a.step matches Step::FetchSegment { url } && url@ == u
            &&& a.gap == gap_before(pre.last_ingested, first_new_seq(pl, pre.last_ingested) as u64)
            &&& a.discontinuity == pl.segments[start].discontinuity
            &&& post.pending@.len() == pending_count(pl, pre.last_ingested)
            &&& post.pending_idx == 0
            &&& (forall|k: int|
                0 <= k < post.pending@.len() ==> (#[trigger] post.pending@[k]).seq
                    == pl.media_sequence + start + k)
            &&& (forall|k: int|
                0 <= k < post.pending@.len() ==> (#[trigger] post.pending@[k]).entry@
                    == pl.segments[start + k])
            &&& (pl.segments[start].discontinuity ==> post.policy.accumulator() == 0
                && post.files@.last().writes.len() == 0)
        })
        &&& (ju is None ==> post.phase == Phase::Done && finished_with(
            a,
            Err(CaptureError::InvalidUrl),
        ))
    })
}

/// What recording one written segment does: the sequence number is
/// ingested exactly now, appended to the then-current file; the split
/// policy observes the write and, on reaching its threshold, the
/// output rolls over after this segment, which thus stays whole in the
/// file whose threshold it crossed.
pub open spec fn written_spec(
    pre: CaptureSession,
    length: u64,
    post: CaptureSession,
    a: Action,
) -> bool {
    let seg = pre.pending@[pre.pending_idx as int];
    let rolled = pre.policy.grown(length, seg.entry.duration_secs) >= pre.policy.threshold();
    let nfiles = pre.files@.len() as int;
    &&& post.ingested@ == pre.ingested@.push(seg.seq)
    &&& post.last_ingested == seg.seq
    &&& post.files@.len() >= nfiles
    &&& post.files@[nfiles - 1].writes == pre.files@.last().writes.push(seg.seq)
    &&& (rolled && pre.files_opened < u64::MAX ==> {
        &&& post.files@.len() >= nfiles + 1
        &&& post.files@[nfiles - 1].finalized
        &&& post.files@[nfiles].writes.len() == 0
    })
    &&& (rolled && pre.files_opened == u64::MAX ==> post.phase == Phase::Done && finished_with(
        a,
        Err(CaptureError::Protocol),
    ))
    &&& (pre.pending_idx + 1 == pre.pending@.len() && !(rolled && pre.files_opened == u64::MAX)
        ==> {
        &&& post.phase == Phase::AwaitRefresh
        &&& a.step matches Step::FetchPlaylist { url } && url@ == pre.media_url@
        &&& (!rolled ==> post.policy.accumulator() == pre.policy.grown(
            length,
            seg.entry.duration_secs,
        ) && post.files@.len() == nfiles && a.ops@.len() == 0)
        &&& (rolled ==> post.policy.accumulator() == 0 && a.ops@.len() == 2 && (
        a.ops@[0] matches FileOp::Finalize { base } && base@ == pre.files@.last().base) && (
        a.ops@[1] matches FileOp::Open { base } && base@ == base_name_model(
            pre.stem@,
            pre.session_id,
            pre.files_opened,
        )))
    })
    &&& (pre.pending_idx + 1 < pre.pending@.len() && !(rolled && pre.files_opened == u64::MAX)
        ==> {
        &&& (post.phase == Phase::AwaitSegment ==> post.pending@ == pre.pending@
            && post.pending_idx == pre.pending_idx + 1)
        &&& (post.phase == Phase::AwaitSegment || post.phase == Phase::Done)
    })
}

/// What the initially fetched document leads to: unparseable bytes are
/// dumped for diagnosis and end the session; a master playlist's first
/// variant is followed; a media playlist resolves directly — and then
/// parsing those same bytes as a media playlist gives the same
/// content, so resolution of an already-resolved media URL yields what
/// the master route yields.
pub open spec fn initial_spec(
    pre: CaptureSession,
    bytes: Seq<u8>,
    post: CaptureSession,
    a: Action,
) -> bool {
    let doc = parsed_doc_of(bytes);
    &&& (doc is Invalid ==> post.phase == Phase::Done && finished_with(
        a,
        Err(CaptureError::UnsupportedFormat),
    ) && (a.dump matches Some(b) && b@ == bytes))
    &&& (doc matches DocModel::Master { variant_uris } ==> {
        &&& (variant_uris.len() == 0 ==> post.phase == Phase::Done && finished_with(
            a,
            Err(CaptureError::NoVariants),
        ))
        &&& (variant_uris.len() > 0 ==> {
            let ju = url_joined(pre.media_url@, variant_uris[0]);
            &&& (ju matches Some(mu) ==> {
                &&& post.phase == Phase::AwaitMedia
                &&& post.media_url@ == mu
                &&& a.step matches Step::FetchPlaylist { url } && url@ == mu
            })
            &&& (ju is None ==> post.phase == Phase::Done && finished_with(
                a,
                Err(CaptureError::InvalidUrl),
            ))
        })
    })
    &&& (doc matches DocModel::Media { playlist } ==> snapshot_spec(pre, playlist, post, a)
        && parsed_media_of(bytes) == Some(playlist))
}

/// What the fetched media playlist of a followed variant leads to.
pub open spec fn media_spec(
    pre: CaptureSession,
    bytes: Seq<u8>,
    post: CaptureSession,
    a: Action,
) -> bool {
    &&& (parsed_media_of(bytes) matches Some(pl) ==> snapshot_spec(pre, pl, post, a))
    &&& (parsed_media_of(bytes) is None ==> post.phase == Phase::Done && finished_with(
        a,
        Err(CaptureError::UnsupportedFormat),
    ) && (a.dump matches Some(b) && b@ == bytes))
}

/// What a refreshed snapshot leads to: a re-parse failure is no update
/// this cycle — the session keeps its state and polls again.
pub open spec fn refresh_spec(
    pre: CaptureSession,
    bytes: Seq<u8>,
    post: CaptureSession,
    a: Action,
) -> bool {
    &&& (parsed_media_of(bytes) matches Some(pl) ==> snapshot_spec(pre, pl, post, a))
    &&& (parsed_media_of(bytes) is None ==> {
        &&& post.phase == Phase::AwaitRefresh
        &&& post.ingested@ == pre.ingested@
        &&& post.last_ingested == pre.last_ingested
        &&& post.files@ == pre.files@
        &&& a.step matches Step::FetchPlaylist { url } && url@ == pre.media_url@
    })
}

impl CaptureSession {
    /// A state from which the next pending segment's fetch is emitted.
    pub open spec fn emit_ready(self) -> bool {
        &&& self.inv_ingestion()
        &&& self.inv_files()
        &&& self.inv_pending()
        &&& self.file_open_shape()
        &&& self.pending_idx < self.pending@.len()
        &&& self.outcome is None
    }

    fn emit_next(&mut self, ops: Vec<FileOp>, gap: bool) -> (a: Action)
        requires
            old(self).emit_ready(),
        ensures
            final(self).wf(),
            emit_spec(*old(self), *final(self), a, gap),
            final(self).media_url@ == old(self).media_url@,
            final(self).stem@ == old(self).stem@,
            final(self).session_id == old(self).session_id,
    {
        let mut ops = ops;
        let disc = self.pending[self.pending_idx].entry.discontinuity;
        if disc {
            if self.files_opened == u64::MAX {
                return self.fail(ops, None, CaptureError::Protocol);
            }
            self.finalize_current(&mut ops);
            self.open_next(&mut ops);
            self.policy.reset_for_discontinuity();
        }
        let joined = join_url(
            self.media_url.as_str(),
            self.pending[self.pending_idx].entry.uri.as_str(),
        );
        match joined {
            Some(u) => {
                self.phase = Phase::AwaitSegment;
                Action { ops, dump: None, gap, discontinuity: disc, step: Step::FetchSegment { url: u } }
            },
            None => self.fail(ops, None, CaptureError::InvalidUrl),
        }
    }

    fn apply_snapshot(&mut self, pl: MediaPlaylist, ops: Vec<FileOp>) -> (a: Action)
        requires
            old(self).wf(),
            old(self).phase == Phase::AwaitRefresh,
        ensures
            final(self).wf(),
            snapshot_spec(*old(self), pl@, *final(self), a),
            final(self).stem@ == old(self).stem@,
            final(self).session_id == old(self).session_id,
            final(self).media_url@ == old(self).media_url@,
    {
        let mut ops = ops;
        if self.pending.len() > 0 {
            self.pending = Vec::new();
            self.pending_idx = 0;
        }
        if pl.segments.len() == 0 {
            self.finalize_current(&mut ops);
            self.phase = Phase::Done;
            self.outcome = Some(Ok(()));
            Action { ops, dump: None, gap: false, discontinuity: false, step: Step::Finished { outcome: Ok(()) } }
        } else {
            let fresh = new_segments(&pl, self.last_ingested);
            if fresh.len() == 0 {
                Action {
                    ops,
                    dump: None,
                    gap: false,
                    discontinuity: false,
                    step: Step::FetchPlaylist { url: self.media_url.clone() },
                }
            } else {
                let gap = has_gap(self.last_ingested, fresh[0].seq);
                self.pending = fresh;
                self.pending_idx = 0;
                self.emit_next(ops, gap)
            }
        }
    }

    fn begin_capture(&mut self, pl: MediaPlaylist) -> (a: Action)
        requires
            old(self).wf(),
            old(self).phase == Phase::AwaitInitial || old(self).phase == Phase::AwaitMedia,
        ensures
            final(self).wf(),
            snapshot_spec(*old(self), pl@, *final(self), a),
            final(self).stem@ == old(self).stem@,
            final(self).session_id == old(self).session_id,
            final(self).media_url@ == old(self).media_url@,
    {
        let mut ops: Vec<FileOp> = Vec::new();
        self.open_next(&mut ops);
        self.phase = Phase::AwaitRefresh;
        self.apply_snapshot(pl, ops)
    }

    fn on_segment_written(&mut self, length: u64) -> (a: Action)
        requires
            old(self).wf(),
            old(self).phase == Phase::AwaitSegment,
        ensures
            final(self).wf(),
            written_spec(*old(self), length, *final(self), a),
            final(self).media_url@ == old(self).media_url@,
            final(self).stem@ == old(self).stem@,
            final(self).session_id == old(self).session_id,
    {
        let seq = self.pending[self.pending_idx].seq;
        let dur = self.pending[self.pending_idx].entry.duration_secs;
        self.ingested = Ghost(self.ingested@.push(seq));
        let ghost fs = self.files@;
        let ghost lastf = fs[fs.len() - 1];
        self.files = Ghost(
            fs.update(
                fs.len() - 1,
                FileRecord { base: lastf.base, writes: lastf.writes.push(seq), finalized: false },
            ),
        );
        self.last_ingested = seq;
        let mut ops: Vec<FileOp> = Vec::new();
        let roll = self.policy.observe(length, dur);
        if roll {
            if self.files_opened == u64::MAX {
                return self.fail(ops, None, CaptureError::Protocol);
            }
            self.finalize_current(&mut ops);
            self.open_next(&mut ops);
        }
        let n = self.pending.len();
        self.pending_idx = self.pending_idx + 1;
        if self.pending_idx < n {
            self.emit_next(ops, false)
        } else {
            self.phase = Phase::AwaitRefresh;
            Action {
                ops,
                dump: None,
                gap: false,
                discontinuity: false,
                step: Step::FetchPlaylist { url: self.media_url.clone() },
            }
        }
    }

    fn finished_action(&self) -> (a: Action)
        requires
            self.wf(),
            self.phase == Phase::Done,
        ensures
            finished_with(a, self.outcome.unwrap()),
            a.ops@.len() == 0,
            a.dump is None,
    {
        let o = self.outcome.unwrap();
        Action { ops: Vec::new(), dump: None, gap: false, discontinuity: false, step: Step::Finished { outcome: o } }
    }

    /// One step of the session: the caller hands in what its last
    /// fetch produced and receives what to do next. A transport
    /// failure ends the session — with the open output file finalized,
    /// so everything captured so far stays valid on disk.
    pub fn on_event(&mut self, ev: Event) -> (a: Action)
        requires
            old(self).wf(),
        ensures
            final(self).wf(),
            old(self).ingested@.is_prefix_of(final(self).ingested@),
            final(self).stem@ == old(self).stem@,
            final(self).session_id == old(self).session_id,
            (old(self).phase == Phase::Done ==> *final(self) == *old(self) && finished_with(
                a,
                old(self).outcome.unwrap(),
            )),
            (old(self).phase != Phase::Done && ev is TransportFailed ==> {
                &&& final(self).phase == Phase::Done
                &&& finished_with(a, Err(CaptureError::Transport))
                &&& final(self).ingested@ == old(self).ingested@
                &&& final(self).files@.len() == old(self).files@.len()
                &&& (forall|j: int|
                    0 <= j < old(self).files@.len() ==> (#[trigger] final(self).files@[j]).writes
                        == old(self).files@[j].writes)
            }),
            (old(self).phase == Phase::AwaitSegment ==> (ev matches Event::SegmentWritten {
                length,
            } ==> written_spec(*old(self), length, *final(self), a))),
            (old(self).phase == Phase::AwaitInitial ==> (ev matches Event::PlaylistBytes {
                bytes,
            } ==> initial_spec(*old(self), bytes@, *final(self), a))),
            (old(self).phase == Phase::AwaitMedia ==> (ev matches Event::PlaylistBytes {
                bytes,
            } ==> media_spec(*old(self), bytes@, *final(self), a))),
            (old(self).phase == Phase::AwaitRefresh ==> (ev matches Event::PlaylistBytes {
                bytes,
            } ==> refresh_spec(*old(self), bytes@, *final(self), a))),
            (old(self).phase == Phase::AwaitSegment && ev is PlaylistBytes ==> final(self).phase
                == Phase::Done && finished_with(a, Err(CaptureError::Protocol))),
            (!(old(self).phase == Phase::AwaitSegment || old(self).phase == Phase::Done) && ev is SegmentWritten
                ==> final(self).phase == Phase::Done && finished_with(
                a,
                Err(CaptureError::Protocol),
            )),
    {
        match ev {
            Event::TransportFailed => {
                match self.phase {
                    Phase::Done => self.finished_action(),
                    _ => self.fail(Vec::new(), None, CaptureError::Transport),
                }
            },
            Event::SegmentWritten { length } => {
                match self.phase {
                    Phase::Done => self.finished_action(),
                    Phase::AwaitSegment => self.on_segment_written(length),
                    _ => self.fail(Vec::new(), None, CaptureError::Protocol),
                }
            },
            Event::PlaylistBytes { bytes } => {
                match self.phase {
                    Phase::Done => self.finished_action(),
                    Phase::AwaitSegment => self.fail(Vec::new(), None, CaptureError::Protocol),
                    Phase::AwaitInitial => {
                        let doc = parse_playlist_doc(&bytes);
                        match doc {
                            PlaylistDoc::Master { variant_uris } => {
                                if variant_uris.len() == 0 {
                                    self.fail(Vec::new(), None, CaptureError::NoVariants)
                                } else {
                                    match join_url(
                                        self.media_url.as_str(),
                                        variant_uris[0].as_str(),
                                    ) {
                                        Some(mu) => {
                                            self.media_url = mu;
                                            self.phase = Phase::AwaitMedia;
                                            Action {
                                                ops: Vec::new(),
                                                dump: None,
                                                gap: false,
                                                discontinuity: false,
                                                step: Step::FetchPlaylist {
                                                    url: self.media_url.clone(),
                                                },
                                            }
                                        },
                                        None => self.fail(
                                            Vec::new(),
                                            None,
                                            CaptureError::InvalidUrl,
                                        ),
                                    }
                                }
                            },
                            PlaylistDoc::Media { playlist } => self.begin_capture(playlist),
                            PlaylistDoc::Invalid => self.fail(
                                Vec::new(),
                                Some(bytes),
                                CaptureError::UnsupportedFormat,
                            ),
                        }
                    },
                    Phase::AwaitMedia => {
                        match parse_media_doc(&bytes) {
                            Some(pl) => self.begin_capture(pl),
                            None => self.fail(
                                Vec::new(),
                                Some(bytes),
                                CaptureError::UnsupportedFormat,
                            ),
                        }
                    },
                    Phase::AwaitRefresh => {
                        match parse_media_doc(&bytes) {
                            Some(pl) => self.apply_snapshot(pl, Vec::new()),
                            None => Action {
                                ops: Vec::new(),
                                dump: None,
                                gap: false,
                                discontinuity: false,
                                step: Step::FetchPlaylist { url: self.media_url.clone() },
                            },
                        }
                    },
                }
            },
        }
    }
}

/// Dedup law: over the whole session, no sequence number is ingested
/// twice.
pub proof fn lemma_dedup(s: CaptureSession)
    requires
        s.wf(),
    ensures
        forall|i: int, j: int|
            0 <= i < j < s.ingested@.len() ==> s.ingested@[i] != s.ingested@[j],
{
}

/// Ordering law: within any single output file, sequence numbers were
/// written in strictly increasing order.
pub proof fn lemma_file_ordering(s: CaptureSession, j: int)
    requires
        s.wf(),
        0 <= j < s.files@.len(),
    ensures
        forall|a: int, b: int|
            0 <= a < b < s.files@[j].writes.len() ==> s.files@[j].writes[a] < s.files@[j].writes[b],
{
}

/// Ordering law, across files: no sequence number lands in two
/// different output files, and earlier files hold earlier numbers.
pub proof fn lemma_no_interleaving(s: CaptureSession, j1: int, j2: int, a: int, b: int)
    requires
        s.wf(),
        0 <= j1 < j2 < s.files@.len(),
        0 <= a < s.files@[j1].writes.len(),
        0 <= b < s.files@[j2].writes.len(),
    ensures
        s.files@[j1].writes[a] < s.files@[j2].writes[b],
{
}

/// Finalization law: once the session is done — success, transport
/// error, or any other terminal condition — every output file it ever
/// opened has been finalized.
pub proof fn lemma_done_all_finalized(s: CaptureSession)
    requires
        s.wf(),
        s.phase == Phase::Done,
    ensures
        all_finalized(s),
{
}

/// Discontinuity law: while the bytes of a discontinuity-flagged
/// segment are awaited, the current output file is brand new — nothing
/// was written to it — and the split accumulator stands at zero.
pub proof fn lemma_discontinuity_fresh_file(s: CaptureSession)
    requires
        s.wf(),
        s.phase == Phase::AwaitSegment,
        s.current_segment().entry.discontinuity,
    ensures
        s.files@.last().writes.len() == 0,
        s.policy.accumulator() == 0,
{
}

/// Naming law: no two output files of one session share a base name.
pub proof fn lemma_file_names_distinct(s: CaptureSession, j1: int, j2: int)
    requires
        s.wf(),
        0 <= j1 < j2 < s.files@.len(),
    ensures
        s.files@[j1].base != s.files@[j2].base,
{
    crate::names::lemma_base_names_distinct(s.stem@, s.session_id, j1 as u64, j2 as u64);
}

} // verus!
