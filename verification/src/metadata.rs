//! Resolution of a track's technical descriptor.
//!
//! The descriptor is read from the first media stream and the first media
//! source of one item. A response lacking any required numeric field
//! fails explicitly with `MetadataIncomplete` — it is never defaulted to
//! zero, since zero channel or sample-rate values would corrupt
//! downstream playback-buffer sizing. The four extracted fields are
//! pinned to the body text through the named extractions of `json`, so
//! the result of a resolution is a function of the status and the body.

use vstd::prelude::*;
use crate::ClientError;
use crate::spec_is_success;
use crate::is_success;
use crate::json::first_item_text_at;
use crate::json::json_parses;
use crate::json::parse_json;
use crate::json::text_first_item;
use crate::json::text_u64_field;
use crate::json::u64_at;
use crate::session::Client;

verus! {

/// The technical descriptor of one track. The duration is given in
/// seconds, converted from the server's ticks.
#[derive(Clone, Copy, Debug, PartialEq, Eq, Structural)]
pub struct Song {
    pub channels: u16,
    pub sample_rate: u32,
    pub duration_secs: u64,
    pub file_size: u64,
}

/// Ten million ticks of server time make one second.
pub const TICKS_PER_SECOND: u64 = 10000000;

impl Song {
    /// Plain constructor.
    pub fn new(channels: u16, sample_rate: u32, duration_secs: u64, file_size: u64) -> (s: Song)
        ensures
            s.channels == channels,
            s.sample_rate == sample_rate,
            s.duration_secs == duration_secs,
            s.file_size == file_size,
    {
        Song { channels, sample_rate, duration_secs, file_size }
    }
}

/// `MediaStreams[0].Channels` of an item body, as the named extractions
/// give it.
pub open spec fn spec_channels_of(body: Seq<char>) -> Option<u64> {
    match first_item_text_at(body, "MediaStreams"@) {
        Some(t) => u64_at(t, "Channels"@),
        None => None,
    }
}

/// `MediaStreams[0].SampleRate` of an item body.
pub open spec fn spec_sample_rate_of(body: Seq<char>) -> Option<u64> {
    match first_item_text_at(body, "MediaStreams"@) {
        Some(t) => u64_at(t, "SampleRate"@),
        None => None,
    }
}

/// `RunTimeTicks` of an item body.
pub open spec fn spec_ticks_of(body: Seq<char>) -> Option<u64> {
    u64_at(body, "RunTimeTicks"@)
}

/// `MediaSources[0].Size` of an item body.
pub open spec fn spec_size_of(body: Seq<char>) -> Option<u64> {
    match first_item_text_at(body, "MediaSources"@) {
        Some(t) => u64_at(t, "Size"@),
        None => None,
    }
}

/// Whether the four extracted fields make a complete, representable
/// descriptor: all present, channels within u16, sample rate within u32.
pub open spec fn spec_descriptor_complete(
    channels: Option<u64>,
    sample_rate: Option<u64>,
    run_time_ticks: Option<u64>,
    file_size: Option<u64>,
) -> bool {
    &&& channels matches Some(c) && c <= u16::MAX
    &&& sample_rate matches Some(s) && s <= u32::MAX
    &&& run_time_ticks is Some
    &&& file_size is Some
}

/// Builds the descriptor from the extracted numeric fields. Succeeds
/// exactly on complete, representable fields and copies them without
/// alteration — ticks become whole seconds — and fails with
/// `MetadataIncomplete` otherwise, never defaulting a missing field.
pub fn song_from_fields(
    channels: Option<u64>,
    sample_rate: Option<u64>,
    run_time_ticks: Option<u64>,
    file_size: Option<u64>,
) -> (r: Result<Song, ClientError>)
    ensures
        r is Ok <==> spec_descriptor_complete(channels, sample_rate, run_time_ticks, file_size),
        r matches Ok(song) ==> {
            &&& channels matches Some(c) && song.channels == c
            &&& sample_rate matches Some(s) && song.sample_rate == s
            &&& run_time_ticks matches Some(t) && song.duration_secs == t / TICKS_PER_SECOND
            &&& file_size matches Some(f) && song.file_size == f
        },
        r matches Err(e) ==> e is MetadataIncomplete,
{
    let c = match channels {
        Some(c) => c,
        None => { return Err(ClientError::MetadataIncomplete); },
    };
    let s = match sample_rate {
        Some(s) => s,
        None => { return Err(ClientError::MetadataIncomplete); },
    };
    let t = match run_time_ticks {
        Some(t) => t,
        None => { return Err(ClientError::MetadataIncomplete); },
    };
    let f = match file_size {
        Some(f) => f,
        None => { return Err(ClientError::MetadataIncomplete); },
    };
    if c > u16::MAX as u64 || s > u32::MAX as u64 {
        return Err(ClientError::MetadataIncomplete);
    }
    Ok(Song {
        channels: c as u16,
        sample_rate: s as u32,
        duration_secs: t / TICKS_PER_SECOND,
        file_size: f,
    })
}

impl Client {
    /// Resolves the technical descriptor from the one round trip's status
    /// and body. A non-2xx status is a server error; an unparsable body a
    /// deserialization failure; and a parsed body resolves exactly as
    /// `song_from_fields` does on the body's named numeric fields —
    /// `MetadataIncomplete` where one is missing or out of range, never
    /// a zeroed descriptor.
    pub fn song_info(&self, status: u16, body: &str) -> (r: Result<Song, ClientError>)
        ensures
            !spec_is_success(status) ==> r == Result::<Song, ClientError>::Err(
                ClientError::ServerError(status),
            ),
            r matches Err(e) ==> (e is ServerError ==> !spec_is_success(status) && e
                == ClientError::ServerError(status)),
            spec_is_success(status) && !json_parses(body@) ==> r == Result::<
                Song,
                ClientError,
            >::Err(ClientError::DeserializationFailure),
            spec_is_success(status) && json_parses(body@) ==> {
                &&& r is Ok <==> spec_descriptor_complete(
                    spec_channels_of(body@),
                    spec_sample_rate_of(body@),
                    spec_ticks_of(body@),
                    spec_size_of(body@),
                )
                &&& r matches Ok(song) ==> {
                    &&& spec_channels_of(body@) matches Some(c) && song.channels == c
                    &&& spec_sample_rate_of(body@) matches Some(s) && song.sample_rate == s
                    &&& spec_ticks_of(body@) matches Some(t) && song.duration_secs == t
                        / TICKS_PER_SECOND
                    &&& spec_size_of(body@) matches Some(f) && song.file_size == f
                }
                &&& r is Err ==> r == Result::<Song, ClientError>::Err(
                    ClientError::MetadataIncomplete,
                )
            },
    {
        if !is_success(status) {
            return Err(ClientError::ServerError(status));
        }
        if parse_json(body).is_none() {
            return Err(ClientError::DeserializationFailure);
        }
        let channels = match text_first_item(body, "MediaStreams") {
            Some(t) => text_u64_field(t.as_str(), "Channels"),
            None => None,
        };
        let sample_rate = match text_first_item(body, "MediaStreams") {
            Some(t) => text_u64_field(t.as_str(), "SampleRate"),
            None => None,
        };
        let run_time_ticks = text_u64_field(body, "RunTimeTicks");
        let file_size = match text_first_item(body, "MediaSources") {
            Some(t) => text_u64_field(t.as_str(), "Size"),
            None => None,
        };
        song_from_fields(channels, sample_rate, run_time_ticks, file_size)
    }
}

} // verus!
