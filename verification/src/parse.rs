//! Trusted boundary to the playlist parser. The m3u8 grammar is far
//! too large to restate, and the parse outcome is a function of the
//! document bytes alone, so the outcomes are given names and the
//! wrappers relate their results to those names.

use vstd::prelude::*;

use crate::playlist::{DocModel, MediaPlaylist, PlaylistDoc, PlaylistModel, SegmentEntry};

verus! {

/// The outcome of parsing bytes as a playlist document of either kind.
pub uninterp spec fn parsed_doc_of(bytes: Seq<u8>) -> DocModel;

/// The outcome of parsing bytes as a media playlist.
pub uninterp spec fn parsed_media_of(bytes: Seq<u8>) -> Option<PlaylistModel>;

/// Relies on m3u8_rs::parse_playlist: a deterministic parser of the
/// document bytes. Its media branch runs exactly
/// m3u8_rs::parse_media_playlist on the same input, which the third
/// clause records.
#[verifier::external_body]
pub(crate) fn parse_playlist_doc(bytes: &Vec<u8>) -> (r: PlaylistDoc)
    ensures
        r@ == parsed_doc_of(bytes@),
        (r@ matches DocModel::Media { playlist } ==> parsed_media_of(bytes@) == Some(
            playlist,
        )),
{
    match m3u8_rs::parse_playlist(bytes) {
        Ok((_, m3u8_rs::Playlist::MasterPlaylist(pl))) => PlaylistDoc::Master {
            variant_uris: pl.variants.into_iter().map(|v| v.uri).collect(),
        },
        Ok((_, m3u8_rs::Playlist::MediaPlaylist(pl))) => PlaylistDoc::Media {
            playlist: MediaPlaylist {
                media_sequence: pl.media_sequence,
                segments: pl.segments.into_iter().map(
                    |s| SegmentEntry { uri: s.uri, duration_secs: s.duration as u64, discontinuity: s.discontinuity },
                ).collect(),
            },
        },
        Err(_) => PlaylistDoc::Invalid,
    }
}

/// Relies on m3u8_rs::parse_media_playlist: a deterministic parser of
/// the document bytes.
#[verifier::external_body]
pub(crate) fn parse_media_doc(bytes: &Vec<u8>) -> (r: Option<MediaPlaylist>)
    ensures
        (r matches Some(pl) ==> parsed_media_of(bytes@) == Some(pl@)),
        (r is None ==> parsed_media_of(bytes@) is None),
{
    match m3u8_rs::parse_media_playlist(bytes) {
        Ok((_, pl)) => Some(MediaPlaylist {
            media_sequence: pl.media_sequence,
            segments: pl.segments.into_iter().map(|s| SegmentEntry {
                uri: s.uri,
                duration_secs: s.duration as u64,
                discontinuity: s.discontinuity,
            }).collect(),
        }),
        Err(_) => None,
    }
}

} // verus!
