//! Construction of the outgoing catalog and streaming requests.
//!
//! Every operation of the session issues exactly one round trip against a
//! fixed route with fixed query parameters; this module assembles those
//! requests and pins each one down exactly: the URL, the header pairs and
//! the query pairs, in the order they are sent on the wire.

use vstd::prelude::*;
use vstd::string::StringExecFns;
use crate::session::Client;

verus! {

/// One outgoing HTTP request, fully assembled.
pub struct Request {
    pub url: String,
    pub headers: Vec<(String, String)>,
    pub query: Vec<(String, String)>,
}

/// The views of a list of name/value pairs.
pub open spec fn pair_views(ps: Seq<(String, String)>) -> Seq<(Seq<char>, Seq<char>)> {
    ps.map_values(|p: (String, String)| (p.0@, p.1@))
}

/// The fixed string identifying this client to the server.
pub open spec fn spec_client_ident() -> Seq<char> {
    "MediaBrowser Client=\"jellyfin-tui\", Device=\"jellyfin-tui\", DeviceId=\"None\", Version=\"10.4.3\""@
}

/// Executable copy of the client identification string.
pub fn client_ident() -> (r: &'static str)
    ensures
        r@ == spec_client_ident(),
{
    "MediaBrowser Client=\"jellyfin-tui\", Device=\"jellyfin-tui\", DeviceId=\"None\", Version=\"10.4.3\""
}

/// Whether a header list carries the given name with the given value.
pub open spec fn spec_has_header(
    hs: Seq<(Seq<char>, Seq<char>)>,
    name: Seq<char>,
    value: Seq<char>,
) -> bool {
    exists|i: int| 0 <= i < hs.len() && hs[i].0 == name && hs[i].1 == value
}

/// An authorized request must carry both the bearer-style token header and
/// the client identification header; omitting either is a defect.
pub open spec fn spec_authorized(r: Request, token: Seq<char>) -> bool {
    &&& spec_has_header(pair_views(r.headers@), "X-MediaBrowser-Token"@, token)
    &&& spec_has_header(pair_views(r.headers@), "x-emby-authorization"@, spec_client_ident())
}

/// Builds one owned name/value pair.
fn pair(name: &str, value: &str) -> (r: (String, String))
    ensures
        r.0@ == name@,
        r.1@ == value@,
{
    (String::from_str(name), String::from_str(value))
}

/// The headers of every authorized call: token, client identity, content type.
pub fn authorized_headers(token: &str, content_type: &str) -> (r: Vec<(String, String)>)
    ensures
        pair_views(r@) =~= seq![
            ("X-MediaBrowser-Token"@, token@),
            ("x-emby-authorization"@, spec_client_ident()),
            ("Content-Type"@, content_type@),
        ],
{
    let mut hs: Vec<(String, String)> = Vec::new();
    hs.push(pair("X-MediaBrowser-Token", token));
    hs.push(pair("x-emby-authorization", client_ident()));
    hs.push(pair("Content-Type", content_type));
    hs
}

/// The headers of the login call, which carries no token yet.
pub fn login_headers() -> (r: Vec<(String, String)>)
    ensures
        pair_views(r@) =~= seq![
            ("Content-Type"@, "text/json"@),
            ("x-emby-authorization"@, spec_client_ident()),
        ],
{
    let mut hs: Vec<(String, String)> = Vec::new();
    hs.push(pair("Content-Type", "text/json"));
    hs.push(pair("x-emby-authorization", client_ident()));
    hs
}

/// `{base}/Users/authenticatebyname`: the login route.
pub fn login_url(base_url: &str) -> (r: String)
    ensures
        r@ == base_url@ + "/Users/authenticatebyname"@,
{
    let mut s = String::from_str(base_url);
    s.append("/Users/authenticatebyname");
    s
}

/// `{base}/Artists`: the artist listing route.
pub fn artists_url(base_url: &str) -> (r: String)
    ensures
        r@ == base_url@ + "/Artists"@,
{
    let mut s = String::from_str(base_url);
    s.append("/Artists");
    s
}

/// `{base}/Users/{user_id}/Items`: the filtered item listing route.
pub fn items_url(base_url: &str, user_id: &str) -> (r: String)
    ensures
        r@ == base_url@ + "/Users/"@ + user_id@ + "/Items"@,
{
    let mut s = String::from_str(base_url);
    s.append("/Users/");
    s.append(user_id);
    s.append("/Items");
    s
}

/// `{base}/Items/{song_id}`: the single-item metadata route.
pub fn item_url(base_url: &str, song_id: &str) -> (r: String)
    ensures
        r@ == base_url@ + "/Items/"@ + song_id@,
{
    let mut s = String::from_str(base_url);
    s.append("/Items/");
    s.append(song_id);
    s
}

/// `{base}/Audio/{track_id}/universal`: the streaming/transcoding route.
pub fn audio_url(base_url: &str, track_id: &str) -> (r: String)
    ensures
        r@ == base_url@ + "/Audio/"@ + track_id@ + "/universal"@,
{
    let mut s = String::from_str(base_url);
    s.append("/Audio/");
    s.append(track_id);
    s.append("/universal");
    s
}

/// Query parameters of the artist listing: first page of at most 100,
/// sorted by display name ascending.
pub fn artists_query() -> (q: Vec<(String, String)>)
    ensures
        pair_views(q@) =~= seq![
            ("SortBy"@, "SortName"@),
            ("SortOrder"@, "Ascending"@),
            ("Recursive"@, "true"@),
            ("Fields"@, "SortName"@),
            ("ImageTypeLimit"@, "-1"@),
            ("StartIndex"@, "0"@),
            ("Limit"@, "100"@),
        ],
{
    let mut q: Vec<(String, String)> = Vec::new();
    q.push(pair("SortBy", "SortName"));
    q.push(pair("SortOrder", "Ascending"));
    q.push(pair("Recursive", "true"));
    q.push(pair("Fields", "SortName"));
    q.push(pair("ImageTypeLimit", "-1"));
    q.push(pair("StartIndex", "0"));
    q.push(pair("Limit", "100"));
    q
}

/// Query parameters of a discography read: every audio item attributed to
/// one artist, sorted by album, first page of at most 100, enriched with
/// genres, creation date, media sources and parent identifiers.
pub fn discography_query(artist_id: &str) -> (q: Vec<(String, String)>)
    ensures
        pair_views(q@) =~= seq![
            ("SortBy"@, "Album"@),
            ("SortOrder"@, "Ascending"@),
            ("Recursive"@, "true"@),
            ("IncludeItemTypes"@, "Audio"@),
            ("Fields"@, "Genres, DateCreated, MediaSources, ParentId"@),
            ("StartIndex"@, "0"@),
            ("ImageTypeLimit"@, "1"@),
            ("ArtistIds"@, artist_id@),
            ("Limit"@, "100"@),
        ],
{
    let mut q: Vec<(String, String)> = Vec::new();
    q.push(pair("SortBy", "Album"));
    q.push(pair("SortOrder", "Ascending"));
    q.push(pair("Recursive", "true"));
    q.push(pair("IncludeItemTypes", "Audio"));
    q.push(pair("Fields", "Genres, DateCreated, MediaSources, ParentId"));
    q.push(pair("StartIndex", "0"));
    q.push(pair("ImageTypeLimit", "1"));
    q.push(pair("ArtistIds", artist_id));
    q.push(pair("Limit", "100"));
    q
}

/// Query parameters of the song inventory read: all audio items, sorted by
/// album then sort name, first page of at most 100.
pub fn songs_query() -> (q: Vec<(String, String)>)
    ensures
        pair_views(q@) =~= seq![
            ("SortBy"@, "Album,SortName"@),
            ("SortOrder"@, "Ascending"@),
            ("IncludeItemTypes"@, "Audio"@),
            ("Recursive"@, "true"@),
            ("Fields"@, "ParentId"@),
            ("StartIndex"@, "0"@),
            ("ImageTypeLimit"@, "1"@),
            ("EnableImageTypes"@, "Primary"@),
            ("Limit"@, "100"@),
        ],
{
    let mut q: Vec<(String, String)> = Vec::new();
    q.push(pair("SortBy", "Album,SortName"));
    q.push(pair("SortOrder", "Ascending"));
    q.push(pair("IncludeItemTypes", "Audio"));
    q.push(pair("Recursive", "true"));
    q.push(pair("Fields", "ParentId"));
    q.push(pair("StartIndex", "0"));
    q.push(pair("ImageTypeLimit", "1"));
    q.push(pair("EnableImageTypes", "Primary"));
    q.push(pair("Limit", "100"));
    q
}

/// Query parameters of the streaming call: the fixed container/codec
/// negotiation profile, the requesting user, and a zero start offset.
pub fn stream_query(user_id: &str, token: &str) -> (q: Vec<(String, String)>)
    ensures
        pair_views(q@) =~= seq![
            ("UserId"@, user_id@),
            ("Container"@, "opus,webm|opus,mp3,aac,m4a|aac,m4b|aac,flac,webma,webm|webma,wav,ogg"@),
            ("TranscodingContainer"@, "mp4"@),
            ("TranscodingProtocol"@, "hls"@),
            ("AudioCodec"@, "aac"@),
            ("api_key"@, token@),
            ("StartTimeTicks"@, "0"@),
            ("EnableRedirection"@, "true"@),
            ("EnableRemoteMedia"@, "false"@),
        ],
{
    let mut q: Vec<(String, String)> = Vec::new();
    q.push(pair("UserId", user_id));
    q.push(pair("Container", "opus,webm|opus,mp3,aac,m4a|aac,m4b|aac,flac,webma,webm|webma,wav,ogg"));
    q.push(pair("TranscodingContainer", "mp4"));
    q.push(pair("TranscodingProtocol", "hls"));
    q.push(pair("AudioCodec", "aac"));
    q.push(pair("api_key", token));
    q.push(pair("StartTimeTicks", "0"));
    q.push(pair("EnableRedirection", "true"));
    q.push(pair("EnableRemoteMedia", "false"));
    q
}

/// The login request: `POST {base}/Users/authenticatebyname`, carrying
/// the client identification header but, as yet, no token.
pub fn login_request(base_url: &str) -> (r: Request)
    ensures
        r.url@ == base_url@ + "/Users/authenticatebyname"@,
        pair_views(r.headers@) =~= seq![
            ("Content-Type"@, "text/json"@),
            ("x-emby-authorization"@, spec_client_ident()),
        ],
        pair_views(r.query@) =~= Seq::<(Seq<char>, Seq<char>)>::empty(),
{
    let r = Request { url: login_url(base_url), headers: login_headers(), query: Vec::new() };
    proof {
        assert(pair_views(r.query@) =~= Seq::<(Seq<char>, Seq<char>)>::empty());
    }
    r
}

impl Client {
    /// The artist listing request, fully assembled and authorized.
    pub fn artists_request(&self) -> (r: Request)
        ensures
            r.url@ == self.base_url@ + "/Artists"@,
            pair_views(r.headers@) =~= seq![
                ("X-MediaBrowser-Token"@, self.access_token@),
                ("x-emby-authorization"@, spec_client_ident()),
                ("Content-Type"@, "text/json"@),
            ],
            pair_views(r.query@) =~= seq![
                ("SortBy"@, "SortName"@),
                ("SortOrder"@, "Ascending"@),
                ("Recursive"@, "true"@),
                ("Fields"@, "SortName"@),
                ("ImageTypeLimit"@, "-1"@),
                ("StartIndex"@, "0"@),
                ("Limit"@, "100"@),
            ],
            spec_authorized(r, self.access_token@),
    {
        let r = Request {
            url: artists_url(self.base_url.as_str()),
            headers: authorized_headers(self.access_token.as_str(), "text/json"),
            query: artists_query(),
        };
        proof {
            assert(pair_views(r.headers@)[0] == ("X-MediaBrowser-Token"@, self.access_token@));
            assert(pair_views(r.headers@)[1] == ("x-emby-authorization"@, spec_client_ident()));
        }
        r
    }

    /// The discography request for one artist, fully assembled and
    /// authorized.
    pub fn discography_request(&self, artist_id: &str) -> (r: Request)
        ensures
            r.url@ == self.base_url@ + "/Users/"@ + self.user_id@ + "/Items"@,
            pair_views(r.headers@) =~= seq![
                ("X-MediaBrowser-Token"@, self.access_token@),
                ("x-emby-authorization"@, spec_client_ident()),
                ("Content-Type"@, "text/json"@),
            ],
            pair_views(r.query@) =~= seq![
                ("SortBy"@, "Album"@),
                ("SortOrder"@, "Ascending"@),
                ("Recursive"@, "true"@),
                ("IncludeItemTypes"@, "Audio"@),
                ("Fields"@, "Genres, DateCreated, MediaSources, ParentId"@),
                ("StartIndex"@, "0"@),
                ("ImageTypeLimit"@, "1"@),
                ("ArtistIds"@, artist_id@),
                ("Limit"@, "100"@),
            ],
            spec_authorized(r, self.access_token@),
    {
        let r = Request {
            url: items_url(self.base_url.as_str(), self.user_id.as_str()),
            headers: authorized_headers(self.access_token.as_str(), "text/json"),
            query: discography_query(artist_id),
        };
        proof {
            assert(pair_views(r.headers@)[0] == ("X-MediaBrowser-Token"@, self.access_token@));
            assert(pair_views(r.headers@)[1] == ("x-emby-authorization"@, spec_client_ident()));
        }
        r
    }

    /// The song inventory request, fully assembled and authorized.
    pub fn songs_request(&self) -> (r: Request)
        ensures
            r.url@ == self.base_url@ + "/Users/"@ + self.user_id@ + "/Items"@,
            pair_views(r.headers@) =~= seq![
                ("X-MediaBrowser-Token"@, self.access_token@),
                ("x-emby-authorization"@, spec_client_ident()),
                ("Content-Type"@, "text/json"@),
            ],
            pair_views(r.query@) =~= seq![
                ("SortBy"@, "Album,SortName"@),
                ("SortOrder"@, "Ascending"@),
                ("IncludeItemTypes"@, "Audio"@),
                ("Recursive"@, "true"@),
                ("Fields"@, "ParentId"@),
                ("StartIndex"@, "0"@),
                ("ImageTypeLimit"@, "1"@),
                ("EnableImageTypes"@, "Primary"@),
                ("Limit"@, "100"@),
            ],
            spec_authorized(r, self.access_token@),
    {
        let r = Request {
            url: items_url(self.base_url.as_str(), self.user_id.as_str()),
            headers: authorized_headers(self.access_token.as_str(), "text/json"),
            query: songs_query(),
        };
        proof {
            assert(pair_views(r.headers@)[0] == ("X-MediaBrowser-Token"@, self.access_token@));
            assert(pair_views(r.headers@)[1] == ("x-emby-authorization"@, spec_client_ident()));
        }
        r
    }

    /// The technical-metadata request for one track, fully assembled and
    /// authorized; this route takes no query parameters.
    pub fn song_info_request(&self, song_id: &str) -> (r: Request)
        ensures
            r.url@ == self.base_url@ + "/Items/"@ + song_id@,
            pair_views(r.headers@) =~= seq![
                ("X-MediaBrowser-Token"@, self.access_token@),
                ("x-emby-authorization"@, spec_client_ident()),
                ("Content-Type"@, "text/json"@),
            ],
            pair_views(r.query@) =~= Seq::<(Seq<char>, Seq<char>)>::empty(),
            spec_authorized(r, self.access_token@),
    {
        let r = Request {
            url: item_url(self.base_url.as_str(), song_id),
            headers: authorized_headers(self.access_token.as_str(), "text/json"),
            query: Vec::new(),
        };
        proof {
            assert(pair_views(r.headers@)[0] == ("X-MediaBrowser-Token"@, self.access_token@));
            assert(pair_views(r.headers@)[1] == ("x-emby-authorization"@, spec_client_ident()));
            assert(pair_views(r.query@) =~= Seq::<(Seq<char>, Seq<char>)>::empty());
        }
        r
    }

    /// The streaming request for one track, fully assembled and
    /// authorized, with the fixed transcoding negotiation profile.
    pub fn stream_request(&self, track_id: &str) -> (r: Request)
        ensures
            r.url@ == self.base_url@ + "/Audio/"@ + track_id@ + "/universal"@,
            pair_views(r.headers@) =~= seq![
                ("X-MediaBrowser-Token"@, self.access_token@),
                ("x-emby-authorization"@, spec_client_ident()),
                ("Content-Type"@, "application/json"@),
            ],
            pair_views(r.query@) =~= seq![
                ("UserId"@, self.user_id@),
                ("Container"@, "opus,webm|opus,mp3,aac,m4a|aac,m4b|aac,flac,webma,webm|webma,wav,ogg"@),
                ("TranscodingContainer"@, "mp4"@),
                ("TranscodingProtocol"@, "hls"@),
                ("AudioCodec"@, "aac"@),
                ("api_key"@, self.access_token@),
                ("StartTimeTicks"@, "0"@),
                ("EnableRedirection"@, "true"@),
                ("EnableRemoteMedia"@, "false"@),
            ],
            spec_authorized(r, self.access_token@),
    {
        let r = Request {
            url: audio_url(self.base_url.as_str(), track_id),
            headers: authorized_headers(self.access_token.as_str(), "application/json"),
            query: stream_query(self.user_id.as_str(), self.access_token.as_str()),
        };
        proof {
            assert(pair_views(r.headers@)[0] == ("X-MediaBrowser-Token"@, self.access_token@));
            assert(pair_views(r.headers@)[1] == ("x-emby-authorization"@, spec_client_ident()));
        }
        r
    }
}

} // verus!
