use jellyfin_client::is_success;
use jellyfin_client::query::client_ident;
use jellyfin_client::query::login_request;
use jellyfin_client::session::Client;
use jellyfin_client::session::LoginFields;

fn test_session() -> Client {
    let fields = LoginFields {
        access_token: "tok".to_string(),
        user_id: "uid".to_string(),
    };
    Client::from_login("http://h", None, 200, Some(fields))
}

fn pairs(v: &[(String, String)]) -> Vec<(&str, &str)> {
    v.iter().map(|p| (p.0.as_str(), p.1.as_str())).collect()
}

#[test]
fn status_classification_boundaries() {
    assert!(!is_success(199));
    assert!(is_success(200));
    assert!(is_success(204));
    assert!(is_success(299));
    assert!(!is_success(300));
    assert!(!is_success(401));
    assert!(!is_success(500));
}

#[test]
fn client_ident_names_the_client() {
    assert_eq!(
        client_ident(),
        "MediaBrowser Client=\"jellyfin-tui\", Device=\"jellyfin-tui\", DeviceId=\"None\", Version=\"10.4.3\""
    );
}

#[test]
fn login_request_route_and_headers() {
    let r = login_request("http://h");
    assert_eq!(r.url, "http://h/Users/authenticatebyname");
    assert_eq!(
        pairs(&r.headers),
        vec![("Content-Type", "text/json"), ("x-emby-authorization", client_ident())]
    );
    assert!(r.query.is_empty());
}

#[test]
fn artists_request_is_authorized_and_fixed() {
    let c = test_session();
    let r = c.artists_request();
    assert_eq!(r.url, "http://h/Artists");
    assert_eq!(
        pairs(&r.headers),
        vec![
            ("X-MediaBrowser-Token", "tok"),
            ("x-emby-authorization", client_ident()),
            ("Content-Type", "text/json"),
        ]
    );
    assert_eq!(
        pairs(&r.query),
        vec![
            ("SortBy", "SortName"),
            ("SortOrder", "Ascending"),
            ("Recursive", "true"),
            ("Fields", "SortName"),
            ("ImageTypeLimit", "-1"),
            ("StartIndex", "0"),
            ("Limit", "100"),
        ]
    );
}

#[test]
fn discography_request_carries_artist_id() {
    let c = test_session();
    let r = c.discography_request("art-7");
    assert_eq!(r.url, "http://h/Users/uid/Items");
    assert_eq!(
        pairs(&r.query),
        vec![
            ("SortBy", "Album"),
            ("SortOrder", "Ascending"),
            ("Recursive", "true"),
            ("IncludeItemTypes", "Audio"),
            ("Fields", "Genres, DateCreated, MediaSources, ParentId"),
            ("StartIndex", "0"),
            ("ImageTypeLimit", "1"),
            ("ArtistIds", "art-7"),
            ("Limit", "100"),
        ]
    );
    assert_eq!(r.headers[0], ("X-MediaBrowser-Token".to_string(), "tok".to_string()));
}

#[test]
fn songs_request_sorts_by_album_then_name() {
    let c = test_session();
    let r = c.songs_request();
    assert_eq!(r.url, "http://h/Users/uid/Items");
    assert_eq!(
        pairs(&r.query),
        vec![
            ("SortBy", "Album,SortName"),
            ("SortOrder", "Ascending"),
            ("IncludeItemTypes", "Audio"),
            ("Recursive", "true"),
            ("Fields", "ParentId"),
            ("StartIndex", "0"),
            ("ImageTypeLimit", "1"),
            ("EnableImageTypes", "Primary"),
            ("Limit", "100"),
        ]
    );
}

#[test]
fn song_info_request_targets_one_item() {
    let c = test_session();
    let r = c.song_info_request("song-3");
    assert_eq!(r.url, "http://h/Items/song-3");
    assert!(r.query.is_empty());
    assert_eq!(r.headers[0], ("X-MediaBrowser-Token".to_string(), "tok".to_string()));
    assert_eq!(r.headers[1].0, "x-emby-authorization");
}

#[test]
fn stream_request_negotiates_transcoding() {
    let c = test_session();
    let r = c.stream_request("track-1");
    assert_eq!(r.url, "http://h/Audio/track-1/universal");
    assert_eq!(
        pairs(&r.headers),
        vec![
            ("X-MediaBrowser-Token", "tok"),
            ("x-emby-authorization", client_ident()),
            ("Content-Type", "application/json"),
        ]
    );
    assert_eq!(
        pairs(&r.query),
        vec![
            ("UserId", "uid"),
            ("Container", "opus,webm|opus,mp3,aac,m4a|aac,m4b|aac,flac,webma,webm|webma,wav,ogg"),
            ("TranscodingContainer", "mp4"),
            ("TranscodingProtocol", "hls"),
            ("AudioCodec", "aac"),
            ("api_key", "tok"),
            ("StartTimeTicks", "0"),
            ("EnableRedirection", "true"),
            ("EnableRemoteMedia", "false"),
        ]
    );
}
