//! Data model of playlist documents: a media playlist is an ordered
//! list of segment entries with a starting sequence number; a master
//! playlist lists variant URIs pointing at media playlists.

use vstd::prelude::*;

verus! {

/// Mathematical model of one segment entry.
pub struct SegmentModel {
    pub uri: Seq<char>,
    pub duration_secs: u64,
    pub discontinuity: bool,
}

/// Mathematical model of a media playlist.
pub struct PlaylistModel {
    pub media_sequence: u64,
    pub segments: Seq<SegmentModel>,
}

/// Mathematical model of a parsed playlist document.
pub enum DocModel {
    Master { variant_uris: Seq<Seq<char>> },
    Media { playlist: PlaylistModel },
    Invalid,
}

/// One announced segment: a URI to fetch, its duration in whole
/// seconds, and whether the encoder restarted right before it.
pub struct SegmentEntry {
    pub uri: String,
    pub duration_secs: u64,
    pub discontinuity: bool,
}

impl View for SegmentEntry {
    type V = SegmentModel;

    open spec fn view(&self) -> SegmentModel {
        SegmentModel {
            uri: self.uri@,
            duration_secs: self.duration_secs,
            discontinuity: self.discontinuity,
        }
    }
}

impl SegmentEntry {
    /// A field-for-field copy, with its contents pinned down (a derived
    /// clone would say nothing about the copied strings).
    pub fn duplicate(&self) -> (r: Self)
        ensures
            r@ == self@,
    {
        SegmentEntry {
            uri: self.uri.clone(),
            duration_secs: self.duration_secs,
            discontinuity: self.discontinuity,
        }
    }
}

/// A media playlist snapshot: the server assigns `media_sequence` to
/// the first listed entry; entry `i` carries `media_sequence + i`.
pub struct MediaPlaylist {
    pub media_sequence: u64,
    pub segments: Vec<SegmentEntry>,
}

impl View for MediaPlaylist {
    type V = PlaylistModel;

    open spec fn view(&self) -> PlaylistModel {
        PlaylistModel {
            media_sequence: self.media_sequence,
            segments: Seq::new(self.segments@.len(), |i: int| self.segments@[i]@),
        }
    }
}

/// A parsed playlist document: master, media, or unparseable.
pub enum PlaylistDoc {
    Master { variant_uris: Vec<String> },
    Media { playlist: MediaPlaylist },
    Invalid,
}

impl View for PlaylistDoc {
    type V = DocModel;

    open spec fn view(&self) -> DocModel {
        match self {
            PlaylistDoc::Master { variant_uris } => DocModel::Master {
                variant_uris: Seq::new(variant_uris@.len(), |i: int| variant_uris@[i]@),
            },
            PlaylistDoc::Media { playlist } => DocModel::Media { playlist: playlist@ },
            PlaylistDoc::Invalid => DocModel::Invalid,
        }
    }
}

} // verus!
