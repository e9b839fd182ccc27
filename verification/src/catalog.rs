//! Catalog records and the interpretation of catalog responses.
//!
//! The three catalog reads are idempotent and side-effect free, and share
//! one deliberate policy: on a non-2xx answer, and equally on a body that
//! does not match the expected schema, they degrade to an empty result
//! instead of failing the caller. On a 2xx answer with a well-formed
//! body, the contracts below pin the result to the body's records — the
//! named extractions of `json` — verbatim and in server order.

use vstd::prelude::*;
use vstd::string::StringExecFns;
use crate::opt_view;
use crate::views_of;
use crate::spec_is_success;
use crate::is_success;
use crate::json::bool_at;
use crate::json::item_texts_at;
use crate::json::json_array;
use crate::json::json_bool;
use crate::json::json_null;
use crate::json::json_object;
use crate::json::json_parses;
use crate::json::json_string;
use crate::json::json_to_string;
use crate::json::json_u64;
use crate::json::nullable_string_at;
use crate::json::parse_json;
use crate::json::raw_text_at;
use crate::json::string_at;
use crate::json::string_list_at;
use crate::json::text_bool_field;
use crate::json::text_item_list;
use crate::json::text_nullable_string_field;
use crate::json::text_raw_field;
use crate::json::text_string_field;
use crate::json::text_string_list_field;
use crate::json::text_u64_field;
use crate::json::u64_at;
use crate::session::Client;

verus! {

/// Playback-progress bookkeeping owned by the server; read-only here.
#[derive(Clone, Debug, PartialEq, Eq)]
pub struct UserData {
    pub playback_position_ticks: u64,
    pub play_count: u64,
    pub is_favorite: bool,
    pub played: bool,
    pub key: String,
}

/// One artist record; `id` is the server-assigned identifier that keys
/// discography queries.
#[derive(Clone, Debug, PartialEq, Eq)]
pub struct Artist {
    pub name: String,
    pub id: String,
    pub sort_name: String,
    pub run_time_ticks: u64,
    pub type_: String,
    pub user_data: UserData,
    pub location_type: String,
    pub media_type: String,
}

/// One page of artist records, in the server-provided order.
#[derive(Clone, Debug, PartialEq, Eq)]
pub struct Artists {
    pub items: Vec<Artist>,
    pub start_index: u64,
    pub total_record_count: u64,
}

/// Playback-progress bookkeeping attached to a discography track.
#[derive(Clone, Debug, PartialEq, Eq)]
pub struct DiscographySongUserData {
    pub playback_position_ticks: u64,
    pub play_count: u64,
    pub is_favorite: bool,
    pub played: bool,
    pub key: String,
}

/// One track of a discography, enriched with genres, creation date and
/// parent identifiers.
#[derive(Clone, Debug, PartialEq, Eq)]
pub struct DiscographySong {
    pub album: String,
    pub album_artist: String,
    pub album_id: String,
    pub album_primary_image_tag: String,
    pub backdrop_image_tags: Vec<String>,
    pub channel_id: Option<String>,
    pub date_created: String,
    pub genres: Vec<String>,
    pub has_lyrics: bool,
    pub id: String,
    pub is_folder: bool,
    pub media_type: String,
    pub name: String,
    pub parent_backdrop_image_tags: Vec<String>,
    pub parent_backdrop_item_id: String,
    pub parent_id: String,
    pub parent_index_number: u64,
    pub premiere_date: String,
    pub production_year: u64,
    pub run_time_ticks: u64,
    pub server_id: String,
    pub user_data: DiscographySongUserData,
}

/// A flat, ordered sequence of track records: the server-side sort order
/// (album, then sort name) is preserved; grouping by album is a caller's
/// projection, never stored.
#[derive(Clone, Debug, PartialEq, Eq)]
pub struct Discography {
    pub items: Vec<DiscographySong>,
}

/// A caller-side grouping of one album's tracks.
#[derive(Clone, Debug, PartialEq, Eq)]
pub struct DiscographyAlbum {
    pub songs: Vec<DiscographySong>,
}

/// Whether a record text holds every field of `UserData`.
pub open spec fn spec_user_data_wf(t: Seq<char>) -> bool {
    &&& u64_at(t, "PlaybackPositionTicks"@) is Some
    &&& u64_at(t, "PlayCount"@) is Some
    &&& bool_at(t, "IsFavorite"@) is Some
    &&& bool_at(t, "Played"@) is Some
    &&& string_at(t, "Key"@) is Some
}

/// Whether `u` carries exactly the `UserData` fields of the record text.
pub open spec fn spec_user_data_matches(u: UserData, t: Seq<char>) -> bool {
    &&& u64_at(t, "PlaybackPositionTicks"@) == Some(u.playback_position_ticks)
    &&& u64_at(t, "PlayCount"@) == Some(u.play_count)
    &&& bool_at(t, "IsFavorite"@) == Some(u.is_favorite)
    &&& bool_at(t, "Played"@) == Some(u.played)
    &&& string_at(t, "Key"@) == Some(u.key@)
}

/// Whether a record text holds every field of an artist record.
pub open spec fn spec_artist_wf(t: Seq<char>) -> bool {
    &&& string_at(t, "Name"@) is Some
    &&& string_at(t, "Id"@) is Some
    &&& string_at(t, "SortName"@) is Some
    &&& u64_at(t, "RunTimeTicks"@) is Some
    &&& string_at(t, "Type"@) is Some
    &&& raw_text_at(t, "UserData"@) matches Some(ut) && spec_user_data_wf(ut)
    &&& string_at(t, "LocationType"@) is Some
    &&& string_at(t, "MediaType"@) is Some
}

/// Whether `a` carries exactly the fields of the artist record text.
pub open spec fn spec_artist_matches(a: Artist, t: Seq<char>) -> bool {
    &&& string_at(t, "Name"@) == Some(a.name@)
    &&& string_at(t, "Id"@) == Some(a.id@)
    &&& string_at(t, "SortName"@) == Some(a.sort_name@)
    &&& u64_at(t, "RunTimeTicks"@) == Some(a.run_time_ticks)
    &&& string_at(t, "Type"@) == Some(a.type_@)
    &&& raw_text_at(t, "UserData"@) matches Some(ut) && spec_user_data_matches(a.user_data, ut)
    &&& string_at(t, "LocationType"@) == Some(a.location_type@)
    &&& string_at(t, "MediaType"@) == Some(a.media_type@)
}

/// Whether an artist listing body is well-formed: an `Items` array whose
/// every record is well-formed, and both paging counters.
pub open spec fn spec_artists_body_wf(body: Seq<char>) -> bool {
    &&& item_texts_at(body, "Items"@) matches Some(ts) && (forall|i: int|
        0 <= i < ts.len() ==> spec_artist_wf(#[trigger] ts[i]))
    &&& u64_at(body, "StartIndex"@) is Some
    &&& u64_at(body, "TotalRecordCount"@) is Some
}

/// Whether `items` are exactly the records of the body's `Items` array:
/// the same count, each record field for field, in server order.
pub open spec fn spec_artist_items_match(items: Seq<Artist>, body: Seq<char>) -> bool {
    &&& item_texts_at(body, "Items"@) matches Some(ts) && items.len() == ts.len() && (forall|
        i: int,
    |
        0 <= i < ts.len() ==> spec_artist_matches(#[trigger] items[i], ts[i]))
}

/// Reads one `UserData` object from its record text; every field is
/// required, and the result carries exactly the text's fields.
pub(crate) fn user_data_from_text(t: &str) -> (r: Option<UserData>)
    ensures
        r is Some <==> spec_user_data_wf(t@),
        r matches Some(u) ==> spec_user_data_matches(u, t@),
{
    let playback_position_ticks = match text_u64_field(t, "PlaybackPositionTicks") {
        Some(x) => x,
        None => { return None; },
    };
    let play_count = match text_u64_field(t, "PlayCount") {
        Some(x) => x,
        None => { return None; },
    };
    let is_favorite = match text_bool_field(t, "IsFavorite") {
        Some(x) => x,
        None => { return None; },
    };
    let played = match text_bool_field(t, "Played") {
        Some(x) => x,
        None => { return None; },
    };
    let key = match text_string_field(t, "Key") {
        Some(x) => x,
        None => { return None; },
    };
    Some(UserData { playback_position_ticks, play_count, is_favorite, played, key })
}

/// Reads one artist record from its record text; every field is
/// required, and the result carries exactly the text's fields.
pub(crate) fn artist_from_text(t: &str) -> (r: Option<Artist>)
    ensures
        r is Some <==> spec_artist_wf(t@),
        r matches Some(a) ==> spec_artist_matches(a, t@),
{
    let name = match text_string_field(t, "Name") {
        Some(x) => x,
        None => { return None; },
    };
    let id = match text_string_field(t, "Id") {
        Some(x) => x,
        None => { return None; },
    };
    let sort_name = match text_string_field(t, "SortName") {
        Some(x) => x,
        None => { return None; },
    };
    let run_time_ticks = match text_u64_field(t, "RunTimeTicks") {
        Some(x) => x,
        None => { return None; },
    };
    let type_ = match text_string_field(t, "Type") {
        Some(x) => x,
        None => { return None; },
    };
    let user_data_text = match text_raw_field(t, "UserData") {
        Some(x) => x,
        None => { return None; },
    };
    let user_data = match user_data_from_text(user_data_text.as_str()) {
        Some(x) => x,
        None => { return None; },
    };
    let location_type = match text_string_field(t, "LocationType") {
        Some(x) => x,
        None => { return None; },
    };
    let media_type = match text_string_field(t, "MediaType") {
        Some(x) => x,
        None => { return None; },
    };
    Some(Artist {
        name,
        id,
        sort_name,
        run_time_ticks,
        type_,
        user_data,
        location_type,
        media_type,
    })
}

/// Reads a whole artist listing response: the `Items` records in server
/// order, and the paging counters. Succeeds exactly on a well-formed
/// body, and then returns exactly the body's records.
pub fn artists_from_body(body: &str) -> (r: Option<Artists>)
    ensures
        r is Some <==> spec_artists_body_wf(body@),
        r matches Some(a) ==> {
            &&& spec_artist_items_match(a.items@, body@)
            &&& u64_at(body@, "StartIndex"@) == Some(a.start_index)
            &&& u64_at(body@, "TotalRecordCount"@) == Some(a.total_record_count)
        },
{
    let ts = match text_item_list(body, "Items") {
        Some(x) => x,
        None => { return None; },
    };
    let mut items: Vec<Artist> = Vec::new();
    let mut i: usize = 0;
    while i < ts.len()
        invariant
            i <= ts@.len(),
            item_texts_at(body@, "Items"@) == Some(views_of(ts@)),
            items@.len() == i,
            forall|k: int| 0 <= k < i ==> spec_artist_wf(#[trigger] views_of(ts@)[k]),
            forall|k: int| 0 <= k < i ==> spec_artist_matches(
                #[trigger] items@[k],
                views_of(ts@)[k],
            ),
        decreases ts@.len() - i,
    {
        match artist_from_text(ts[i].as_str()) {
            Some(a) => items.push(a),
            None => {
                proof {
                    if spec_artists_body_wf(body@) {
                        let ts2 = item_texts_at(body@, "Items"@)->0;
                        assert(ts2 == views_of(ts@));
                        assert(spec_artist_wf(ts2[i as int]));
                        assert(ts2[i as int] == ts@[i as int]@);
                    }
                }
                return None;
            },
        }
        i += 1;
    }
    let start_index = match text_u64_field(body, "StartIndex") {
        Some(x) => x,
        None => { return None; },
    };
    let total_record_count = match text_u64_field(body, "TotalRecordCount") {
        Some(x) => x,
        None => { return None; },
    };
    Some(Artists { items, start_index, total_record_count })
}

/// Whether a record text holds every field of a track record.
pub open spec fn spec_song_wf(t: Seq<char>) -> bool {
    &&& string_at(t, "Album"@) is Some
    &&& string_at(t, "AlbumArtist"@) is Some
    &&& string_at(t, "AlbumId"@) is Some
    &&& string_at(t, "AlbumPrimaryImageTag"@) is Some
    &&& string_list_at(t, "BackdropImageTags"@) is Some
    &&& nullable_string_at(t, "ChannelId"@) is Some
    &&& string_at(t, "DateCreated"@) is Some
    &&& string_list_at(t, "Genres"@) is Some
    &&& bool_at(t, "HasLyrics"@) is Some
    &&& string_at(t, "Id"@) is Some
    &&& bool_at(t, "IsFolder"@) is Some
    &&& string_at(t, "MediaType"@) is Some
    &&& string_at(t, "Name"@) is Some
    &&& string_list_at(t, "ParentBackdropImageTags"@) is Some
    &&& string_at(t, "ParentBackdropItemId"@) is Some
    &&& string_at(t, "ParentId"@) is Some
    &&& u64_at(t, "ParentIndexNumber"@) is Some
    &&& string_at(t, "PremiereDate"@) is Some
    &&& u64_at(t, "ProductionYear"@) is Some
    &&& u64_at(t, "RunTimeTicks"@) is Some
    &&& string_at(t, "ServerId"@) is Some
    &&& raw_text_at(t, "UserData"@) matches Some(ut) && spec_user_data_song_wf(ut)
}

/// Whether a record text holds every field of a track's bookkeeping.
pub open spec fn spec_user_data_song_wf(t: Seq<char>) -> bool {
    &&& u64_at(t, "PlaybackPositionTicks"@) is Some
    &&& u64_at(t, "PlayCount"@) is Some
    &&& bool_at(t, "IsFavorite"@) is Some
    &&& bool_at(t, "Played"@) is Some
    &&& string_at(t, "Key"@) is Some
}

/// Whether `u` carries exactly the bookkeeping fields of the record
/// text.
pub open spec fn spec_user_data_song_matches(u: DiscographySongUserData, t: Seq<char>) -> bool {
    &&& u64_at(t, "PlaybackPositionTicks"@) == Some(u.playback_position_ticks)
    &&& u64_at(t, "PlayCount"@) == Some(u.play_count)
    &&& bool_at(t, "IsFavorite"@) == Some(u.is_favorite)
    &&& bool_at(t, "Played"@) == Some(u.played)
    &&& string_at(t, "Key"@) == Some(u.key@)
}

/// Whether `s` carries exactly the fields of the track record text.
pub open spec fn spec_song_matches(s: DiscographySong, t: Seq<char>) -> bool {
    &&& string_at(t, "Album"@) == Some(s.album@)
    &&& string_at(t, "AlbumArtist"@) == Some(s.album_artist@)
    &&& string_at(t, "AlbumId"@) == Some(s.album_id@)
    &&& string_at(t, "AlbumPrimaryImageTag"@) == Some(s.album_primary_image_tag@)
    &&& string_list_at(t, "BackdropImageTags"@) == Some(views_of(s.backdrop_image_tags@))
    &&& nullable_string_at(t, "ChannelId"@) == Some(opt_view(s.channel_id))
    &&& string_at(t, "DateCreated"@) == Some(s.date_created@)
    &&& string_list_at(t, "Genres"@) == Some(views_of(s.genres@))
    &&& bool_at(t, "HasLyrics"@) == Some(s.has_lyrics)
    &&& string_at(t, "Id"@) == Some(s.id@)
    &&& bool_at(t, "IsFolder"@) == Some(s.is_folder)
    &&& string_at(t, "MediaType"@) == Some(s.media_type@)
    &&& string_at(t, "Name"@) == Some(s.name@)
    &&& string_list_at(t, "ParentBackdropImageTags"@) == Some(
        views_of(s.parent_backdrop_image_tags@),
    )
    &&& string_at(t, "ParentBackdropItemId"@) == Some(s.parent_backdrop_item_id@)
    &&& string_at(t, "ParentId"@) == Some(s.parent_id@)
    &&& u64_at(t, "ParentIndexNumber"@) == Some(s.parent_index_number)
    &&& string_at(t, "PremiereDate"@) == Some(s.premiere_date@)
    &&& u64_at(t, "ProductionYear"@) == Some(s.production_year)
    &&& u64_at(t, "RunTimeTicks"@) == Some(s.run_time_ticks)
    &&& string_at(t, "ServerId"@) == Some(s.server_id@)
    &&& raw_text_at(t, "UserData"@) matches Some(ut) && spec_user_data_song_matches(
        s.user_data,
        ut,
    )
}

/// Whether a discography body is well-formed: an `Items` array whose
/// every record is well-formed.
pub open spec fn spec_discography_body_wf(body: Seq<char>) -> bool {
    item_texts_at(body, "Items"@) matches Some(ts) && (forall|i: int|
        0 <= i < ts.len() ==> spec_song_wf(#[trigger] ts[i]))
}

/// Whether `items` are exactly the records of the body's `Items` array:
/// the same count, each record field for field, in server order.
pub open spec fn spec_song_items_match(items: Seq<DiscographySong>, body: Seq<char>) -> bool {
    &&& item_texts_at(body, "Items"@) matches Some(ts) && items.len() == ts.len() && (forall|
        i: int,
    |
        0 <= i < ts.len() ==> spec_song_matches(#[trigger] items[i], ts[i]))
}

/// Reads a track's bookkeeping from its record text.
pub(crate) fn song_user_data_from_text(t: &str) -> (r: Option<DiscographySongUserData>)
    ensures
        r is Some <==> spec_user_data_song_wf(t@),
        r matches Some(u) ==> spec_user_data_song_matches(u, t@),
{
    let playback_position_ticks = match text_u64_field(t, "PlaybackPositionTicks") {
        Some(x) => x,
        None => { return None; },
    };
    let play_count = match text_u64_field(t, "PlayCount") {
        Some(x) => x,
        None => { return None; },
    };
    let is_favorite = match text_bool_field(t, "IsFavorite") {
        Some(x) => x,
        None => { return None; },
    };
    let played = match text_bool_field(t, "Played") {
        Some(x) => x,
        None => { return None; },
    };
    let key = match text_string_field(t, "Key") {
        Some(x) => x,
        None => { return None; },
    };
    Some(DiscographySongUserData { playback_position_ticks, play_count, is_favorite, played, key })
}

/// Reads one track record from its record text. Every field is required
/// except `ChannelId`, which may be absent or null; the result carries
/// exactly the text's fields.
pub fn song_from_text(t: &str) -> (r: Option<DiscographySong>)
    ensures
        r is Some <==> spec_song_wf(t@),
        r matches Some(s) ==> spec_song_matches(s, t@),
{
    let album = match text_string_field(t, "Album") {
        Some(x) => x,
        None => { return None; },
    };
    let album_artist = match text_string_field(t, "AlbumArtist") {
        Some(x) => x,
        None => { return None; },
    };
    let album_id = match text_string_field(t, "AlbumId") {
        Some(x) => x,
        None => { return None; },
    };
    let album_primary_image_tag = match text_string_field(t, "AlbumPrimaryImageTag") {
        Some(x) => x,
        None => { return None; },
    };
    let backdrop_image_tags = match text_string_list_field(t, "BackdropImageTags") {
        Some(x) => x,
        None => { return None; },
    };
    let channel_id = match text_nullable_string_field(t, "ChannelId") {
        Some(x) => x,
        None => { return None; },
    };
    let date_created = match text_string_field(t, "DateCreated") {
        Some(x) => x,
        None => { return None; },
    };
    let genres = match text_string_list_field(t, "Genres") {
        Some(x) => x,
        None => { return None; },
    };
    let has_lyrics = match text_bool_field(t, "HasLyrics") {
        Some(x) => x,
        None => { return None; },
    };
    let id = match text_string_field(t, "Id") {
        Some(x) => x,
        None => { return None; },
    };
    let is_folder = match text_bool_field(t, "IsFolder") {
        Some(x) => x,
        None => { return None; },
    };
    let media_type = match text_string_field(t, "MediaType") {
        Some(x) => x,
        None => { return None; },
    };
    let name = match text_string_field(t, "Name") {
        Some(x) => x,
        None => { return None; },
    };
    let parent_backdrop_image_tags = match text_string_list_field(t, "ParentBackdropImageTags") {
        Some(x) => x,
        None => { return None; },
    };
    let parent_backdrop_item_id = match text_string_field(t, "ParentBackdropItemId") {
        Some(x) => x,
        None => { return None; },
    };
    let parent_id = match text_string_field(t, "ParentId") {
        Some(x) => x,
        None => { return None; },
    };
    let parent_index_number = match text_u64_field(t, "ParentIndexNumber") {
        Some(x) => x,
        None => { return None; },
    };
    let premiere_date = match text_string_field(t, "PremiereDate") {
        Some(x) => x,
        None => { return None; },
    };
    let production_year = match text_u64_field(t, "ProductionYear") {
        Some(x) => x,
        None => { return None; },
    };
    let run_time_ticks = match text_u64_field(t, "RunTimeTicks") {
        Some(x) => x,
        None => { return None; },
    };
    let server_id = match text_string_field(t, "ServerId") {
        Some(x) => x,
        None => { return None; },
    };
    let user_data_text = match text_raw_field(t, "UserData") {
        Some(x) => x,
        None => { return None; },
    };
    let user_data = match song_user_data_from_text(user_data_text.as_str()) {
        Some(x) => x,
        None => { return None; },
    };
    Some(DiscographySong {
        album,
        album_artist,
        album_id,
        album_primary_image_tag,
        backdrop_image_tags,
        channel_id,
        date_created,
        genres,
        has_lyrics,
        id,
        is_folder,
        media_type,
        name,
        parent_backdrop_image_tags,
        parent_backdrop_item_id,
        parent_id,
        parent_index_number,
        premiere_date,
        production_year,
        run_time_ticks,
        server_id,
        user_data,
    })
}

/// Reads a whole discography response: the `Items` records, in the
/// server-provided order. Succeeds exactly on a well-formed body, and
/// then returns exactly the body's records.
pub fn discography_from_body(body: &str) -> (r: Option<Discography>)
    ensures
        r is Some <==> spec_discography_body_wf(body@),
        r matches Some(d) ==> spec_song_items_match(d.items@, body@),
{
    let ts = match text_item_list(body, "Items") {
        Some(x) => x,
        None => { return None; },
    };
    let mut items: Vec<DiscographySong> = Vec::new();
    let mut i: usize = 0;
    while i < ts.len()
        invariant
            i <= ts@.len(),
            item_texts_at(body@, "Items"@) == Some(views_of(ts@)),
            items@.len() == i,
            forall|k: int| 0 <= k < i ==> spec_song_wf(#[trigger] views_of(ts@)[k]),
            forall|k: int| 0 <= k < i ==> spec_song_matches(
                #[trigger] items@[k],
                views_of(ts@)[k],
            ),
        decreases ts@.len() - i,
    {
        match song_from_text(ts[i].as_str()) {
            Some(s) => items.push(s),
            None => {
                proof {
                    if spec_discography_body_wf(body@) {
                        let ts2 = item_texts_at(body@, "Items"@)->0;
                        assert(ts2 == views_of(ts@));
                        assert(spec_song_wf(ts2[i as int]));
                        assert(ts2[i as int] == ts@[i as int]@);
                    }
                }
                return None;
            },
        }
        i += 1;
    }
    Some(Discography { items })
}

impl Client {
    /// The artist listing, interpreted from the one round trip's status
    /// and body. On any non-2xx status, and equally on a body that does
    /// not match the schema, the result is the empty sequence — the
    /// degrade-to-empty policy. On a 2xx status with a well-formed body
    /// the result is exactly the body's records, in server order.
    pub fn artists(&self, status: u16, body: &str) -> (r: Vec<Artist>)
        ensures
            !(spec_is_success(status) && spec_artists_body_wf(body@)) ==> r@
                == Seq::<Artist>::empty(),
            spec_is_success(status) && spec_artists_body_wf(body@) ==> spec_artist_items_match(
                r@,
                body@,
            ),
    {
        if !is_success(status) {
            return Vec::new();
        }
        match artists_from_body(body) {
            Some(a) => a.items,
            None => Vec::new(),
        }
    }

    /// A discography, interpreted from the one round trip's status and
    /// body, under the same degrade-to-empty policy as `artists`; on a
    /// 2xx status with a well-formed body the result is exactly the
    /// body's records, in server order.
    pub fn discography(&self, status: u16, body: &str) -> (r: Discography)
        ensures
            !(spec_is_success(status) && spec_discography_body_wf(body@)) ==> r.items@
                == Seq::<DiscographySong>::empty(),
            spec_is_success(status) && spec_discography_body_wf(body@) ==> spec_song_items_match(
                r.items@,
                body@,
            ),
    {
        if !is_success(status) {
            return Discography { items: Vec::new() };
        }
        match discography_from_body(body) {
            Some(d) => d,
            None => Discography { items: Vec::new() },
        }
    }

    /// The raw song inventory document: the parsed body exactly when the
    /// status is 2xx and the body is well-formed JSON, and nothing
    /// otherwise — the callers' degrade-to-empty case.
    pub fn songs(&self, status: u16, body: &str) -> (r: Option<serde_json::Value>)
        ensures
            r is Some <==> spec_is_success(status) && json_parses(body@),
    {
        if !is_success(status) {
            return None;
        }
        parse_json(body)
    }
}

/// Whether two track records agree on every field, at the level of the
/// fields' views.
pub open spec fn spec_song_views_eq(a: DiscographySong, b: DiscographySong) -> bool {
    &&& a.album@ == b.album@
    &&& a.album_artist@ == b.album_artist@
    &&& a.album_id@ == b.album_id@
    &&& a.album_primary_image_tag@ == b.album_primary_image_tag@
    &&& views_of(a.backdrop_image_tags@) == views_of(b.backdrop_image_tags@)
    &&& opt_view(a.channel_id) == opt_view(b.channel_id)
    &&& a.date_created@ == b.date_created@
    &&& views_of(a.genres@) == views_of(b.genres@)
    &&& a.has_lyrics == b.has_lyrics
    &&& a.id@ == b.id@
    &&& a.is_folder == b.is_folder
    &&& a.media_type@ == b.media_type@
    &&& a.name@ == b.name@
    &&& views_of(a.parent_backdrop_image_tags@) == views_of(b.parent_backdrop_image_tags@)
    &&& a.parent_backdrop_item_id@ == b.parent_backdrop_item_id@
    &&& a.parent_id@ == b.parent_id@
    &&& a.parent_index_number == b.parent_index_number
    &&& a.premiere_date@ == b.premiere_date@
    &&& a.production_year == b.production_year
    &&& a.run_time_ticks == b.run_time_ticks
    &&& a.server_id@ == b.server_id@
    &&& a.user_data.playback_position_ticks == b.user_data.playback_position_ticks
    &&& a.user_data.play_count == b.user_data.play_count
    &&& a.user_data.is_favorite == b.user_data.is_favorite
    &&& a.user_data.played == b.user_data.played
    &&& a.user_data.key@ == b.user_data.key@
}

/// Whether two string lists agree element for element.
fn string_vecs_eq(a: &Vec<String>, b: &Vec<String>) -> (r: bool)
    ensures
        r == (views_of(a@) == views_of(b@)),
{
    if a.len() != b.len() {
        proof {
            assert(views_of(a@).len() != views_of(b@).len());
        }
        return false;
    }
    let mut i: usize = 0;
    while i < a.len()
        invariant
            i <= a@.len(),
            a@.len() == b@.len(),
            forall|k: int| 0 <= k < i ==> views_of(a@)[k] == views_of(b@)[k],
        decreases a@.len() - i,
    {
        if !(a[i] == b[i]) {
            proof {
                assert(views_of(a@)[i as int] != views_of(b@)[i as int]);
            }
            return false;
        }
        i += 1;
    }
    proof {
        assert(views_of(a@) =~= views_of(b@));
    }
    true
}

/// Whether two optional strings agree in content.
fn opt_strings_eq(a: &Option<String>, b: &Option<String>) -> (r: bool)
    ensures
        r == (opt_view(*a) == opt_view(*b)),
{
    match (a, b) {
        (Some(x), Some(y)) => x.eq(y),
        (None, None) => true,
        _ => false,
    }
}

/// Whether two track records agree on every field.
fn song_eq(a: &DiscographySong, b: &DiscographySong) -> (r: bool)
    ensures
        r == spec_song_views_eq(*a, *b),
{
    a.album == b.album && a.album_artist == b.album_artist && a.album_id == b.album_id
        && a.album_primary_image_tag == b.album_primary_image_tag && string_vecs_eq(
        &a.backdrop_image_tags,
        &b.backdrop_image_tags,
    ) && opt_strings_eq(&a.channel_id, &b.channel_id) && a.date_created == b.date_created
        && string_vecs_eq(&a.genres, &b.genres) && a.has_lyrics == b.has_lyrics && a.id == b.id
        && a.is_folder == b.is_folder && a.media_type == b.media_type && a.name == b.name
        && string_vecs_eq(&a.parent_backdrop_image_tags, &b.parent_backdrop_image_tags)
        && a.parent_backdrop_item_id == b.parent_backdrop_item_id && a.parent_id == b.parent_id
        && a.parent_index_number == b.parent_index_number && a.premiere_date == b.premiere_date
        && a.production_year == b.production_year && a.run_time_ticks == b.run_time_ticks
        && a.server_id == b.server_id
        && a.user_data.playback_position_ticks == b.user_data.playback_position_ticks
        && a.user_data.play_count == b.user_data.play_count
        && a.user_data.is_favorite == b.user_data.is_favorite
        && a.user_data.played == b.user_data.played && a.user_data.key == b.user_data.key
}

/// Wraps a vector of strings as a JSON array of strings.
pub(crate) fn strings_to_json(items: &Vec<String>) -> (r: serde_json::Value) {
    let mut vals: Vec<serde_json::Value> = Vec::new();
    let mut i: usize = 0;
    while i < items.len()
        invariant
            i <= items@.len(),
        decreases items@.len() - i,
    {
        vals.push(json_string(items[i].clone()));
        i += 1;
    }
    json_array(vals)
}

/// Renders a track's playback bookkeeping back into a JSON object, under
/// the same keys that `song_user_data_from_text` reads.
pub(crate) fn song_user_data_to_value(u: &DiscographySongUserData) -> (r: serde_json::Value) {
    let mut pairs: Vec<(String, serde_json::Value)> = Vec::new();
    pairs.push((String::from_str("PlaybackPositionTicks"), json_u64(u.playback_position_ticks)));
    pairs.push((String::from_str("PlayCount"), json_u64(u.play_count)));
    pairs.push((String::from_str("IsFavorite"), json_bool(u.is_favorite)));
    pairs.push((String::from_str("Played"), json_bool(u.played)));
    pairs.push((String::from_str("Key"), json_string(u.key.clone())));
    json_object(pairs)
}

/// Renders a track record back into a JSON object, under exactly the
/// schema keys that `song_from_text` reads.
pub(crate) fn song_to_value(s: &DiscographySong) -> (r: serde_json::Value) {
    let mut pairs: Vec<(String, serde_json::Value)> = Vec::new();
    pairs.push((String::from_str("Album"), json_string(s.album.clone())));
    pairs.push((String::from_str("AlbumArtist"), json_string(s.album_artist.clone())));
    pairs.push((String::from_str("AlbumId"), json_string(s.album_id.clone())));
    pairs.push(
        (
            String::from_str("AlbumPrimaryImageTag"),
            json_string(s.album_primary_image_tag.clone()),
        ),
    );
    pairs.push((String::from_str("BackdropImageTags"), strings_to_json(&s.backdrop_image_tags)));
    let channel_id = match &s.channel_id {
        Some(c) => json_string(c.clone()),
        None => json_null(),
    };
    pairs.push((String::from_str("ChannelId"), channel_id));
    pairs.push((String::from_str("DateCreated"), json_string(s.date_created.clone())));
    pairs.push((String::from_str("Genres"), strings_to_json(&s.genres)));
    pairs.push((String::from_str("HasLyrics"), json_bool(s.has_lyrics)));
    pairs.push((String::from_str("Id"), json_string(s.id.clone())));
    pairs.push((String::from_str("IsFolder"), json_bool(s.is_folder)));
    pairs.push((String::from_str("MediaType"), json_string(s.media_type.clone())));
    pairs.push((String::from_str("Name"), json_string(s.name.clone())));
    pairs.push(
        (
            String::from_str("ParentBackdropImageTags"),
            strings_to_json(&s.parent_backdrop_image_tags),
        ),
    );
    pairs.push(
        (
            String::from_str("ParentBackdropItemId"),
            json_string(s.parent_backdrop_item_id.clone()),
        ),
    );
    pairs.push((String::from_str("ParentId"), json_string(s.parent_id.clone())));
    pairs.push((String::from_str("ParentIndexNumber"), json_u64(s.parent_index_number)));
    pairs.push((String::from_str("PremiereDate"), json_string(s.premiere_date.clone())));
    pairs.push((String::from_str("ProductionYear"), json_u64(s.production_year)));
    pairs.push((String::from_str("RunTimeTicks"), json_u64(s.run_time_ticks)));
    pairs.push((String::from_str("ServerId"), json_string(s.server_id.clone())));
    pairs.push((String::from_str("UserData"), song_user_data_to_value(&s.user_data)));
    json_object(pairs)
}

/// Renders a track record as JSON text and certifies the round trip: a
/// returned text is well-formed and re-reads, field for field, to the
/// record it was rendered from — so re-deserializing it yields a record
/// whose every field agrees with `s`.
pub fn song_to_text(s: &DiscographySong) -> (r: Option<String>)
    ensures
        r matches Some(t) ==> spec_song_wf(t@) && spec_song_matches(*s, t@),
{
    let v = song_to_value(s);
    let rendered = match json_to_string(&v) {
        Some(x) => x,
        None => { return None; },
    };
    let reread = match song_from_text(rendered.as_str()) {
        Some(x) => x,
        None => { return None; },
    };
    if song_eq(&reread, s) {
        Some(rendered)
    } else {
        None
    }
}

} // verus!
