use stream_gears::session::{Action, CaptureError, CaptureSession, Event, FileOp, Phase, Step};
use stream_gears::split::PySegment;

fn bytes(doc: &str) -> Vec<u8> {
    doc.as_bytes().to_vec()
}

fn media_doc(media_sequence: u64, uris: &[&str]) -> Vec<u8> {
    let mut doc = String::new();
    doc.push_str("#EXTM3U\n#EXT-X-VERSION:3\n#EXT-X-TARGETDURATION:2\n");
    doc.push_str(&format!("#EXT-X-MEDIA-SEQUENCE:{media_sequence}\n"));
    for uri in uris {
        doc.push_str("#EXTINF:2.0,\n");
        doc.push_str(uri);
        doc.push('\n');
    }
    bytes(&doc)
}

fn fetch_segment_url(a: &Action) -> String {
    match &a.step {
        Step::FetchSegment { url } => url.clone(),
        other => panic!("expected a segment fetch, got {:?}", step_name(&other)),
    }
}

fn step_name(s: &Step) -> &'static str {
    match s {
        Step::FetchPlaylist { .. } => "FetchPlaylist",
        Step::FetchSegment { .. } => "FetchSegment",
        Step::Finished { .. } => "Finished",
    }
}

#[test]
fn it_works() {
    let (_s, _a) = CaptureSession::start(
        "http://example.com/live/stream.m3u8",
        "test",
        0,
        PySegment::Size { size: 4 },
    );
}

#[test]
fn happy_path_split_and_termination() {
    let (mut s, a) = CaptureSession::start(
        "http://example.com/live/stream.m3u8",
        "out file",
        7,
        PySegment::Size { size: 1000 },
    );
    match &a.step {
        Step::FetchPlaylist { url } => assert_eq!(url, "http://example.com/live/stream.m3u8"),
        other => panic!("expected playlist fetch, got {}", step_name(&other)),
    }

    // Two segments, sequence numbers 1 and 2.
    let a = s.on_event(Event::PlaylistBytes { bytes: media_doc(1, &["seg1.ts", "seg2.ts"]) });
    assert_eq!(a.ops.len(), 1);
    match &a.ops[0] {
        FileOp::Open { base } => assert_eq!(base, "out_file_7_0"),
        FileOp::Finalize { .. } => panic!("expected an open, got a finalize"),
    }
    assert_eq!(fetch_segment_url(&a), "http://example.com/live/seg1.ts");

    let a = s.on_event(Event::SegmentWritten { length: 400 });
    assert!(a.ops.is_empty());
    assert_eq!(fetch_segment_url(&a), "http://example.com/live/seg2.ts");

    // 800 bytes accumulated: still under the 1000-byte threshold.
    let a = s.on_event(Event::SegmentWritten { length: 400 });
    assert!(a.ops.is_empty());
    assert!(matches!(a.step, Step::FetchPlaylist { .. }));
    assert_eq!(s.last_ingested, 2);

    // Overlapping snapshot: sequence numbers 1..=3; only 3 is new.
    let a = s.on_event(Event::PlaylistBytes {
        bytes: media_doc(1, &["seg1.ts", "seg2.ts", "seg3.ts"]),
    });
    assert!(!a.gap);
    assert_eq!(fetch_segment_url(&a), "http://example.com/live/seg3.ts");

    // 1200 >= 1000: rollover right after this write, so segment 3 stays
    // in the first file and the second starts empty.
    let a = s.on_event(Event::SegmentWritten { length: 400 });
    assert_eq!(a.ops.len(), 2);
    match &a.ops[0] {
        FileOp::Finalize { base } => assert_eq!(base, "out_file_7_0"),
        FileOp::Open { .. } => panic!("expected a finalize first"),
    }
    match &a.ops[1] {
        FileOp::Open { base } => assert_eq!(base, "out_file_7_1"),
        FileOp::Finalize { .. } => panic!("expected an open second"),
    }
    assert!(matches!(a.step, Step::FetchPlaylist { .. }));
    assert_eq!(s.last_ingested, 3);

    // An empty snapshot ends the session and finalizes the open file.
    let a = s.on_event(Event::PlaylistBytes { bytes: media_doc(4, &[]) });
    assert_eq!(a.ops.len(), 1);
    match &a.ops[0] {
        FileOp::Finalize { base } => assert_eq!(base, "out_file_7_1"),
        FileOp::Open { .. } => panic!("expected a finalize"),
    }
    match a.step {
        Step::Finished { outcome } => assert_eq!(outcome, Ok(())),
        other => panic!("expected the session to finish, got {}", step_name(&other)),
    }
    assert_eq!(s.phase, Phase::Done);
}

#[test]
fn gap_detection_resumes_without_retry() {
    let (mut s, _a) = CaptureSession::start(
        "http://example.com/live/stream.m3u8",
        "out",
        1,
        PySegment::Size { size: 1_000_000 },
    );
    // Snapshot A: sequence numbers 6..=10.
    let a = s.on_event(Event::PlaylistBytes {
        bytes: media_doc(6, &["s6.ts", "s7.ts", "s8.ts", "s9.ts", "s10.ts"]),
    });
    assert!(!a.gap);
    let mut a = a;
    for _ in 0..5 {
        a = s.on_event(Event::SegmentWritten { length: 10 });
    }
    assert_eq!(s.last_ingested, 10);
    assert!(matches!(a.step, Step::FetchPlaylist { .. }));

    // Snapshot B starts at 13: sequence numbers 11 and 12 are gone.
    let a = s.on_event(Event::PlaylistBytes { bytes: media_doc(13, &["s13.ts", "s14.ts"]) });
    assert!(a.gap);
    assert_eq!(fetch_segment_url(&a), "http://example.com/live/s13.ts");
    let _ = s.on_event(Event::SegmentWritten { length: 10 });
    let _ = s.on_event(Event::SegmentWritten { length: 10 });
    assert_eq!(s.last_ingested, 14);
}

#[test]
fn discontinuity_rolls_over_before_write() {
    let (mut s, _a) = CaptureSession::start(
        "http://example.com/live/stream.m3u8",
        "out",
        2,
        PySegment::Size { size: 1_000_000 },
    );
    let doc = "#EXTM3U\n#EXT-X-VERSION:3\n#EXT-X-TARGETDURATION:2\n#EXT-X-MEDIA-SEQUENCE:1\n#EXTINF:2.0,\nseg1.ts\n#EXT-X-DISCONTINUITY\n#EXTINF:2.0,\nseg2.ts\n";
    let a = s.on_event(Event::PlaylistBytes { bytes: bytes(doc) });
    assert!(!a.discontinuity);
    assert_eq!(fetch_segment_url(&a), "http://example.com/live/seg1.ts");

    // The discontinuity entry starts a new file before its own bytes,
    // far below any threshold.
    let a = s.on_event(Event::SegmentWritten { length: 10 });
    assert!(a.discontinuity);
    assert_eq!(a.ops.len(), 2);
    match &a.ops[0] {
        FileOp::Finalize { base } => assert_eq!(base, "out_2_0"),
        FileOp::Open { .. } => panic!("expected a finalize first"),
    }
    match &a.ops[1] {
        FileOp::Open { base } => assert_eq!(base, "out_2_1"),
        FileOp::Finalize { .. } => panic!("expected an open second"),
    }
    assert_eq!(fetch_segment_url(&a), "http://example.com/live/seg2.ts");
}

#[test]
fn transport_error_finalizes_open_file() {
    let (mut s, _a) = CaptureSession::start(
        "http://example.com/live/stream.m3u8",
        "out",
        3,
        PySegment::Size { size: 1_000_000 },
    );
    let _ = s.on_event(Event::PlaylistBytes { bytes: media_doc(1, &["seg1.ts", "seg2.ts"]) });
    let _ = s.on_event(Event::SegmentWritten { length: 10 });

    let a = s.on_event(Event::TransportFailed);
    assert_eq!(a.ops.len(), 1);
    match &a.ops[0] {
        FileOp::Finalize { base } => assert_eq!(base, "out_3_0"),
        FileOp::Open { .. } => panic!("expected a finalize"),
    }
    match a.step {
        Step::Finished { outcome } => assert_eq!(outcome, Err(CaptureError::Transport)),
        other => panic!("expected the session to finish, got {}", step_name(&other)),
    }
    assert_eq!(s.phase, Phase::Done);
}

#[test]
fn master_playlist_resolves_first_variant() {
    let (mut s, _a) = CaptureSession::start(
        "http://h.example/x/master.m3u8",
        "out",
        4,
        PySegment::Size { size: 1000 },
    );
    let master = "#EXTM3U\n#EXT-X-STREAM-INF:BANDWIDTH=1280000\nv/media.m3u8\n";
    let a = s.on_event(Event::PlaylistBytes { bytes: bytes(master) });
    match &a.step {
        Step::FetchPlaylist { url } => assert_eq!(url, "http://h.example/x/v/media.m3u8"),
        other => panic!("expected the media playlist fetch, got {}", step_name(&other)),
    }
    // Segment URIs resolve against the media URL, not the request URL.
    let a = s.on_event(Event::PlaylistBytes { bytes: media_doc(1, &["chunk1.ts"]) });
    assert_eq!(fetch_segment_url(&a), "http://h.example/x/v/chunk1.ts");
}

#[test]
fn resolution_round_trip_gives_same_content() {
    // Through the master: the variant's media playlist document.
    let media = media_doc(5, &["a.ts", "b.ts"]);
    let (mut s1, _) = CaptureSession::start(
        "http://h.example/master.m3u8",
        "out",
        5,
        PySegment::Size { size: 1000 },
    );
    let master = "#EXTM3U\n#EXT-X-STREAM-INF:BANDWIDTH=1280000\nmedia.m3u8\n";
    let _ = s1.on_event(Event::PlaylistBytes { bytes: bytes(master) });
    let a1 = s1.on_event(Event::PlaylistBytes { bytes: media.clone() });

    // Directly on the already-resolved media URL, same document bytes.
    let (mut s2, _) = CaptureSession::start(
        "http://h.example/media.m3u8",
        "out",
        5,
        PySegment::Size { size: 1000 },
    );
    let a2 = s2.on_event(Event::PlaylistBytes { bytes: media });

    // Same content: same first segment fetch, same queue of sequence
    // numbers.
    assert_eq!(fetch_segment_url(&a1), "http://h.example/a.ts");
    assert_eq!(fetch_segment_url(&a2), "http://h.example/a.ts");
    let seqs1: Vec<u64> = s1.pending.iter().map(|p| p.seq).collect();
    let seqs2: Vec<u64> = s2.pending.iter().map(|p| p.seq).collect();
    assert_eq!(seqs1, vec![5, 6]);
    assert_eq!(seqs1, seqs2);
}

#[test]
fn unparseable_initial_document_is_dumped() {
    let (mut s, _a) = CaptureSession::start(
        "http://example.com/live/stream.m3u8",
        "out",
        6,
        PySegment::Size { size: 1000 },
    );
    let garbage = b"this is no playlist".to_vec();
    let a = s.on_event(Event::PlaylistBytes { bytes: garbage.clone() });
    assert_eq!(a.dump, Some(garbage));
    match a.step {
        Step::Finished { outcome } => assert_eq!(outcome, Err(CaptureError::UnsupportedFormat)),
        other => panic!("expected the session to finish, got {}", step_name(&other)),
    }
    // No file was ever opened, so none is finalized.
    assert!(a.ops.is_empty());
}

#[test]
fn invalid_source_url_fails_at_start() {
    let (s, a) = CaptureSession::start("not a url", "out", 8, PySegment::Size { size: 1000 });
    assert_eq!(s.phase, Phase::Done);
    match a.step {
        Step::Finished { outcome } => assert_eq!(outcome, Err(CaptureError::InvalidUrl)),
        other => panic!("expected the session to finish, got {}", step_name(&other)),
    }
}

#[test]
fn refresh_parse_failure_is_no_update() {
    let (mut s, _a) = CaptureSession::start(
        "http://example.com/live/stream.m3u8",
        "out",
        9,
        PySegment::Size { size: 1_000_000 },
    );
    let _ = s.on_event(Event::PlaylistBytes { bytes: media_doc(1, &["seg1.ts"]) });
    let a = s.on_event(Event::SegmentWritten { length: 10 });
    assert!(matches!(a.step, Step::FetchPlaylist { .. }));

    // A snapshot that fails to re-parse: retained state, another poll.
    let a = s.on_event(Event::PlaylistBytes { bytes: b"garbage".to_vec() });
    assert!(matches!(a.step, Step::FetchPlaylist { .. }));
    assert!(a.ops.is_empty());
    assert_ne!(s.phase, Phase::Done);
    assert_eq!(s.last_ingested, 1);
}

#[test]
fn master_without_variants_fails() {
    let (mut s, _a) = CaptureSession::start(
        "http://h.example/master.m3u8",
        "out",
        11,
        PySegment::Size { size: 1000 },
    );
    // A master playlist (the rendition tag makes it one) that lists no
    // variant stream to follow.
    let master = "#EXTM3U\n#EXT-X-MEDIA:TYPE=AUDIO,GROUP-ID=\"a\",NAME=\"x\"\n";
    let a = s.on_event(Event::PlaylistBytes { bytes: bytes(master) });
    match a.step {
        Step::Finished { outcome } => assert_eq!(outcome, Err(CaptureError::NoVariants)),
        other => panic!("expected the session to finish, got {}", step_name(&other)),
    }
}

#[test]
fn out_of_protocol_event_ends_session() {
    let (mut s, _a) = CaptureSession::start(
        "http://example.com/live/stream.m3u8",
        "out",
        12,
        PySegment::Size { size: 1000 },
    );
    // No segment fetch is outstanding yet.
    let a = s.on_event(Event::SegmentWritten { length: 5 });
    match a.step {
        Step::Finished { outcome } => assert_eq!(outcome, Err(CaptureError::Protocol)),
        other => panic!("expected the session to finish, got {}", step_name(&other)),
    }
    assert_eq!(s.phase, Phase::Done);
}

#[test]
fn source_url_is_normalized() {
    let (_s, a) = CaptureSession::start(
        "HTTP://EXAMPLE.com/live/stream.m3u8",
        "out",
        10,
        PySegment::Size { size: 1000 },
    );
    match &a.step {
        Step::FetchPlaylist { url } => assert_eq!(url, "http://example.com/live/stream.m3u8"),
        other => panic!("expected playlist fetch, got {}", step_name(&other)),
    }
}
