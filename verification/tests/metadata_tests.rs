use jellyfin_client::ClientError;
use jellyfin_client::metadata::Song;
use jellyfin_client::metadata::song_from_fields;
use jellyfin_client::session::Client;
use jellyfin_client::session::LoginFields;

fn test_session() -> Client {
    let fields = LoginFields {
        access_token: "tok".to_string(),
        user_id: "uid".to_string(),
    };
    Client::from_login("http://h", None, 200, Some(fields))
}

fn full_item_payload() -> String {
    r#"{
        "MediaStreams": [
            {"Channels": 2, "SampleRate": 44100, "Codec": "mp3"},
            {"Codec": "mjpeg"}
        ],
        "RunTimeTicks": 3600979590,
        "MediaSources": [
            {"Size": 14487065, "Container": "mp3"}
        ]
    }"#
        .to_string()
}

#[test]
fn song_info_resolves_full_descriptor() {
    let c = test_session();
    let s = c.song_info(200, &full_item_payload()).unwrap();
    assert_eq!(s.channels, 2);
    assert_eq!(s.sample_rate, 44100);
    assert_eq!(s.duration_secs, 360);
    assert_eq!(s.file_size, 14487065);
}

#[test]
fn song_info_missing_channels_is_metadata_incomplete() {
    let c = test_session();
    let body = full_item_payload().replace(r#""Channels": 2, "#, "");
    let r = c.song_info(200, &body);
    assert_eq!(r, Err(ClientError::MetadataIncomplete));
}

#[test]
fn song_info_missing_media_streams_is_metadata_incomplete() {
    let c = test_session();
    let body = r#"{"RunTimeTicks": 1, "MediaSources": [{"Size": 5}]}"#;
    let r = c.song_info(200, body);
    assert_eq!(r, Err(ClientError::MetadataIncomplete));
}

#[test]
fn song_info_500_is_server_error() {
    let c = test_session();
    let r = c.song_info(500, &full_item_payload());
    assert_eq!(r, Err(ClientError::ServerError(500)));
}

#[test]
fn song_info_garbage_body_is_deserialization_failure() {
    let c = test_session();
    let r = c.song_info(200, "{{{");
    assert_eq!(r, Err(ClientError::DeserializationFailure));
}

#[test]
fn song_from_fields_complete() {
    let r = song_from_fields(Some(2), Some(48000), Some(25000000), Some(1024));
    assert_eq!(
        r,
        Ok(Song { channels: 2, sample_rate: 48000, duration_secs: 2, file_size: 1024 })
    );
}

#[test]
fn song_from_fields_missing_channels_fails() {
    let r = song_from_fields(None, Some(48000), Some(25000000), Some(1024));
    assert_eq!(r, Err(ClientError::MetadataIncomplete));
}

#[test]
fn song_from_fields_missing_sample_rate_fails() {
    let r = song_from_fields(Some(2), None, Some(25000000), Some(1024));
    assert_eq!(r, Err(ClientError::MetadataIncomplete));
}

#[test]
fn song_from_fields_missing_duration_fails() {
    let r = song_from_fields(Some(2), Some(48000), None, Some(1024));
    assert_eq!(r, Err(ClientError::MetadataIncomplete));
}

#[test]
fn song_from_fields_missing_size_fails() {
    let r = song_from_fields(Some(2), Some(48000), Some(25000000), None);
    assert_eq!(r, Err(ClientError::MetadataIncomplete));
}

#[test]
fn song_from_fields_largest_channels_and_rate_accepted() {
    let r = song_from_fields(Some(65535), Some(4294967295), Some(0), Some(0)).unwrap();
    assert_eq!(r.channels, 65535);
    assert_eq!(r.sample_rate, 4294967295);
    assert_eq!(r.duration_secs, 0);
}

#[test]
fn song_from_fields_oversized_channels_fails() {
    let r = song_from_fields(Some(70000), Some(48000), Some(25000000), Some(1024));
    assert_eq!(r, Err(ClientError::MetadataIncomplete));
}

#[test]
fn song_from_fields_never_defaults_to_zero_channels() {
    let r = song_from_fields(None, Some(48000), Some(25000000), Some(1024));
    assert!(!matches!(r, Ok(Song { channels: 0, .. })));
}

#[test]
fn ticks_below_one_second_round_down_to_zero() {
    let r = song_from_fields(Some(1), Some(8000), Some(9999999), Some(1)).unwrap();
    assert_eq!(r.duration_secs, 0);
}

#[test]
fn song_new_copies_fields() {
    let s = Song::new(6, 96000, 12, 34);
    assert_eq!(s.channels, 6);
    assert_eq!(s.sample_rate, 96000);
    assert_eq!(s.duration_secs, 12);
    assert_eq!(s.file_size, 34);
}
