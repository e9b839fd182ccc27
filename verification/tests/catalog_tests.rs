use jellyfin_client::catalog::artists_from_body;
use jellyfin_client::catalog::discography_from_body;
use jellyfin_client::catalog::song_from_text;
use jellyfin_client::catalog::song_to_text;
use jellyfin_client::session::Client;
use jellyfin_client::session::LoginFields;

fn test_session() -> Client {
    let fields = LoginFields {
        access_token: "tok".to_string(),
        user_id: "uid".to_string(),
    };
    Client::from_login("http://h", None, 200, Some(fields))
}

fn two_artists_payload() -> String {
    r#"{
        "Items": [
            {
                "Name": "Agar Agar",
                "Id": "a1",
                "SortName": "agar agar",
                "RunTimeTicks": 4505260770,
                "Type": "MusicArtist",
                "UserData": {
                    "PlaybackPositionTicks": 0,
                    "PlayCount": 3,
                    "IsFavorite": true,
                    "Played": true,
                    "Key": "Artist-1"
                },
                "LocationType": "FileSystem",
                "MediaType": "Unknown"
            },
            {
                "Name": "Flam",
                "Id": "b2",
                "SortName": "flam",
                "RunTimeTicks": 99,
                "Type": "MusicArtist",
                "UserData": {
                    "PlaybackPositionTicks": 5,
                    "PlayCount": 0,
                    "IsFavorite": false,
                    "Played": false,
                    "Key": "Artist-2"
                },
                "LocationType": "FileSystem",
                "MediaType": "Unknown"
            }
        ],
        "StartIndex": 0,
        "TotalRecordCount": 2
    }"#
        .to_string()
}

fn song_payload() -> String {
    r#"{
        "Album": "Cardan",
        "AlbumArtist": "Agar Agar",
        "AlbumId": "alb1",
        "AlbumPrimaryImageTag": "tag1",
        "BackdropImageTags": ["bd1", "bd2"],
        "ChannelId": null,
        "DateCreated": "2024-03-12T12:41:07.2583951Z",
        "Genres": ["Synthpop"],
        "HasLyrics": true,
        "Id": "song1",
        "IsFolder": false,
        "MediaType": "Audio",
        "Name": "Prettiest Virgin",
        "ParentBackdropImageTags": ["pb1"],
        "ParentBackdropItemId": "pbi1",
        "ParentId": "alb1",
        "ParentIndexNumber": 0,
        "PremiereDate": "2016-01-01T00:00:00.0000000Z",
        "ProductionYear": 2016,
        "RunTimeTicks": 3600979590,
        "ServerId": "srv1",
        "UserData": {
            "PlaybackPositionTicks": 0,
            "PlayCount": 1,
            "IsFavorite": false,
            "Played": true,
            "Key": "AgarAgar-Cardan-0003"
        }
    }"#
        .to_string()
}

#[test]
fn artists_500_yields_empty_sequence() {
    let c = test_session();
    let r = c.artists(500, &two_artists_payload());
    assert!(r.is_empty());
}

#[test]
fn artists_two_records_in_server_order() {
    let c = test_session();
    let r = c.artists(200, &two_artists_payload());
    assert_eq!(r.len(), 2);
    assert_eq!(r[0].name, "Agar Agar");
    assert_eq!(r[0].id, "a1");
    assert_eq!(r[0].sort_name, "agar agar");
    assert_eq!(r[0].run_time_ticks, 4505260770);
    assert_eq!(r[0].user_data.play_count, 3);
    assert!(r[0].user_data.is_favorite);
    assert_eq!(r[1].name, "Flam");
    assert_eq!(r[1].id, "b2");
    assert_eq!(r[1].user_data.key, "Artist-2");
}

#[test]
fn artists_garbage_body_degrades_to_empty() {
    let c = test_session();
    assert!(c.artists(200, "]]]").is_empty());
}

#[test]
fn artists_schema_mismatch_degrades_to_empty() {
    let c = test_session();
    let body = r#"{"Items":[{"Name":"NoOtherFields"}],"StartIndex":0,"TotalRecordCount":1}"#;
    assert!(c.artists(200, body).is_empty());
}

#[test]
fn artists_from_body_reads_paging_counters() {
    let a = artists_from_body(&two_artists_payload()).unwrap();
    assert_eq!(a.start_index, 0);
    assert_eq!(a.total_record_count, 2);
    assert_eq!(a.items.len(), 2);
}

#[test]
fn discography_500_yields_empty_sequence() {
    let c = test_session();
    let body = format!(r#"{{"Items":[{}]}}"#, song_payload());
    let d = c.discography(500, &body);
    assert!(d.items.is_empty());
}

#[test]
fn discography_payload_parsed_in_order() {
    let c = test_session();
    let body = format!(r#"{{"Items":[{},{}]}}"#, song_payload(), song_payload());
    let d = c.discography(200, &body);
    assert_eq!(d.items.len(), 2);
    assert_eq!(d.items[0].album, "Cardan");
    assert_eq!(d.items[0].name, "Prettiest Virgin");
    assert_eq!(d.items[0].genres, vec!["Synthpop".to_string()]);
    assert_eq!(d.items[0].run_time_ticks, 3600979590);
    assert_eq!(d.items[0].channel_id, None);
    assert_eq!(d.items[0].user_data.play_count, 1);
}

#[test]
fn discography_schema_mismatch_degrades_to_empty() {
    let c = test_session();
    let d = c.discography(200, r#"{"Items":[{"Album":"only"}]}"#);
    assert!(d.items.is_empty());
}

#[test]
fn discography_from_body_requires_items() {
    assert!(discography_from_body(r#"{"NoItems":[]}"#).is_none());
}

#[test]
fn song_record_keeps_channel_id_when_present() {
    let body = song_payload().replace(r#""ChannelId": null"#, r#""ChannelId": "ch9""#);
    let s = song_from_text(&body).unwrap();
    assert_eq!(s.channel_id, Some("ch9".to_string()));
}

#[test]
fn songs_500_yields_nothing() {
    let c = test_session();
    let v = c.songs(500, r#"{"Items":[1,2,3]}"#);
    assert!(v.is_none());
}

#[test]
fn songs_passes_parsed_document_through() {
    let c = test_session();
    let v = c.songs(200, r#"{"Items":[1,2,3]}"#).unwrap();
    assert_eq!(v.get("Items").unwrap().as_array().unwrap().len(), 3);
}

#[test]
fn songs_garbage_body_degrades_to_nothing() {
    let c = test_session();
    let v = c.songs(200, "not json");
    assert!(v.is_none());
}

#[test]
fn round_trip_song_record_is_field_for_field_identical() {
    let first = song_from_text(&song_payload()).unwrap();
    let rendered = song_to_text(&first).unwrap();
    let v: serde_json::Value = serde_json::from_str(&rendered).unwrap();
    let rerendered = serde_json::to_string(&v).unwrap();
    let reread = song_from_text(&rerendered).unwrap();
    assert_eq!(first, reread);
}

#[test]
fn round_trip_keeps_optional_channel_id() {
    let body = song_payload().replace(r#""ChannelId": null"#, r#""ChannelId": "ch9""#);
    let first = song_from_text(&body).unwrap();
    let rendered = song_to_text(&first).unwrap();
    let reread = song_from_text(&rendered).unwrap();
    assert_eq!(first, reread);
    assert_eq!(reread.channel_id, Some("ch9".to_string()));
}
