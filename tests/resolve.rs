use album_sync::album::ArtworkState;
use album_sync::artwork::{ArtworkJob, Phase, Reply, Request};
use album_sync::credentials::{token_source, ConfigError, Credentials, TokenSource};
use album_sync::providers::{
    album_cover_url, artist_picture_url, embedded_album_id, image_extension, image_path,
    query_term, release_search_url,
};
use album_sync::text::substring;

fn state(cover: bool, artist: bool) -> ArtworkState {
    ArtworkState { has_album_cover: cover, has_artist_picture: artist }
}

fn creds(url: Option<&str>, id: Option<&str>, refresh: Option<&str>, access: Option<&str>) -> Credentials {
    Credentials {
        token_url: url.map(|s| s.to_string()),
        client_id: id.map(|s| s.to_string()),
        refresh_token: refresh.map(|s| s.to_string()),
        access_token: access.map(|s| s.to_string()),
    }
}

#[test]
fn no_fetch_issues_no_request() {
    for (c, a) in [(false, false), (true, false), (false, true), (true, true)] {
        let (mut job, q) = ArtworkJob::start(
            false,
            state(c, a),
            Some("tok"),
            Some("https://listen.tidal.com/album/1/x"),
            "A",
            "B",
        );
        assert!(q.is_none());
        assert!(job.is_done());
        assert!(job.advance(Reply::Saved(true)).is_none());
        assert!(!job.wrote_any);
    }
}

#[test]
fn nothing_missing_issues_no_request() {
    let (job, q) = ArtworkJob::start(true, state(true, true), None, None, "A", "B");
    assert!(q.is_none());
    assert!(job.phase == Phase::Done);
}

#[test]
fn catalog_cover_is_fetched_by_its_path() {
    let (mut job, q) = ArtworkJob::start(
        true,
        state(false, true),
        Some("abc"),
        Some("https://listen.tidal.com/album/12345/other"),
        "Artist",
        "Album",
    );
    match q {
        Some(Request::AlbumInfo { url, authorization }) => {
            assert_eq!(url, "https://listen.tidal.com/v1/albums/12345?countryCode=US&locale=en_US&deviceType=BROWSER");
            assert_eq!(authorization, "Bearer abc");
        },
        _ => panic!("expected the album request"),
    }
    let q = job.advance(Reply::AlbumInfo { picture: Some("p1-p2".to_string()), cover: Some("a1-b2-c3".to_string()) });
    match q {
        Some(Request::Download { url, file_name }) => {
            assert_eq!(url, "https://resources.tidal.com/images/a1/b2/c3/1280x1280.jpg");
            assert!(url.contains("a1/b2/c3"));
            assert_eq!(file_name, "cover.jpg");
        },
        _ => panic!("expected the cover download"),
    }
    assert!(job.advance(Reply::Saved(true)).is_none());
    assert!(job.is_done());
    assert!(job.wrote_any);
    assert!(job.cover_obtained);
    assert!(!job.missed_catalog_cover());
}

#[test]
fn artist_picture_then_cover() {
    let (mut job, _) = ArtworkJob::start(
        true,
        state(false, false),
        Some("t"),
        Some("https://listen.tidal.com/album/9/"),
        "A",
        "B",
    );
    match job.advance(Reply::AlbumInfo { picture: Some("x-y".to_string()), cover: Some("c-d".to_string()) }) {
        Some(Request::Download { url, file_name }) => {
            assert_eq!(url, "https://resources.tidal.com/images/x/y/750x750.jpg");
            assert_eq!(file_name, "artist.jpg");
        },
        _ => panic!("expected the artist picture download"),
    }
    match job.advance(Reply::Saved(false)) {
        Some(Request::Download { file_name, .. }) => assert_eq!(file_name, "cover.jpg"),
        _ => panic!("expected the cover download"),
    }
    assert!(!job.wrote_any);
}

#[test]
fn missed_catalog_cover_falls_back() {
    let (mut job, _) = ArtworkJob::start(
        true,
        state(false, true),
        Some("t"),
        Some("https://listen.tidal.com/album/9/"),
        "Sigur Rós",
        "( )",
    );
    match job.advance(Reply::AlbumInfo { picture: None, cover: None }) {
        Some(Request::ReleaseSearch { url }) => assert_eq!(
            url,
            "http://musicbrainz.org/ws/2/release/?query=artist:Sigur%20Rs%20AND%20title:%20%20AND%20packaging:None"
        ),
        _ => panic!("expected the release search"),
    }
    assert!(job.missed_catalog_cover());
}

#[test]
fn fallback_png_is_saved_as_png() {
    let (mut job, q) = ArtworkJob::start(true, state(false, true), None, None, "A B", "C_D!");
    match q {
        Some(Request::ReleaseSearch { url }) => assert_eq!(
            url,
            "http://musicbrainz.org/ws/2/release/?query=artist:A%20B%20AND%20title:C_D%20AND%20packaging:None"
        ),
        _ => panic!("expected the release search"),
    }
    match job.advance(Reply::Found(Some("rel-1".to_string()))) {
        Some(Request::ReleaseImages { url }) => assert_eq!(url, "http://coverartarchive.org/release/rel-1"),
        _ => panic!("expected the image listing"),
    }
    match job.advance(Reply::Found(Some("http://img.example/front.v2.png".to_string()))) {
        Some(Request::Download { url, file_name }) => {
            assert_eq!(url, "http://img.example/front.v2.png");
            assert_eq!(file_name, "cover.png");
        },
        _ => panic!("expected the cover download"),
    }
    assert!(job.advance(Reply::Saved(true)).is_none());
    assert!(job.wrote_any);
}

#[test]
fn fallback_stops_when_nothing_found() {
    let (mut job, _) = ArtworkJob::start(true, state(false, false), None, None, "A", "B");
    assert!(job.advance(Reply::Found(None)).is_none());
    assert!(job.is_done());
    assert!(!job.wrote_any);
}

#[test]
fn only_artist_missing_without_token_needs_nothing() {
    let (job, q) = ArtworkJob::start(true, state(true, false), None, None, "A", "B");
    assert!(q.is_none());
    assert!(job.is_done());
}

#[test]
fn album_id_is_the_segment_after_the_prefix() {
    assert_eq!(embedded_album_id("https://listen.tidal.com/album/12345/other"), Some("12345".to_string()));
    assert_eq!(embedded_album_id("https://listen.tidal.com/album/12345"), None);
    assert_eq!(embedded_album_id("https://example.com/album/1/"), None);
}

#[test]
fn image_addresses_and_terms() {
    assert_eq!(image_path("a1-b2-c3"), "a1/b2/c3");
    assert_eq!(artist_picture_url("a-b"), "https://resources.tidal.com/images/a/b/750x750.jpg");
    assert_eq!(album_cover_url("a-b"), "https://resources.tidal.com/images/a/b/1280x1280.jpg");
    assert_eq!(query_term("AC/DC: Back in Black"), "ACDC%20Back%20in%20Black");
    assert_eq!(release_search_url("x", "y"), "http://musicbrainz.org/ws/2/release/?query=artist:x%20AND%20title:y%20AND%20packaging:None");
    assert_eq!(image_extension("http://a.b/c.jpeg"), Some("jpeg".to_string()));
    assert_eq!(image_extension("noext"), None);
    assert_eq!(substring("héllo", 1, 3), "éll");
    assert_eq!(substring("abc", 2, 10), "c");
    assert_eq!(substring("abc", 5, 1), "");
}

#[test]
fn refresh_credentials_give_one_request() {
    let r = token_source(Some(creds(Some("https://auth/token"), Some("cid"), Some("rt"), None)));
    match r {
        Ok(TokenSource::Refresh(q)) => {
            assert_eq!(q.url, "https://auth/token");
            let form: Vec<(String, String)> = vec![
                ("client_id".to_string(), "cid".to_string()),
                ("grant_type".to_string(), "refresh_token".to_string()),
                ("refresh_token".to_string(), "rt".to_string()),
                ("scope".to_string(), "r_usr w_usr".to_string()),
            ];
            assert_eq!(q.form, form);
        },
        _ => panic!("expected one refresh exchange"),
    }
}

#[test]
fn access_token_is_used_verbatim() {
    match token_source(Some(creds(None, None, Some("rt"), Some("abc")))) {
        Ok(TokenSource::Ready(t)) => assert_eq!(t, "abc"),
        _ => panic!("expected the given token"),
    }
    assert!(matches!(token_source(None), Ok(TokenSource::Disabled)));
}

#[test]
fn incomplete_credentials_are_errors() {
    assert!(matches!(token_source(Some(creds(Some("u"), None, Some("rt"), None))), Err(ConfigError::MissingClientId)));
    assert!(matches!(token_source(Some(creds(None, Some("c"), Some("rt"), None))), Err(ConfigError::MissingTokenUrl)));
    assert!(matches!(token_source(Some(creds(Some("u"), Some("c"), None, None))), Err(ConfigError::NoToken)));
}

#[test]
fn token_without_link_goes_to_fallback() {
    let (job, q) = ArtworkJob::start(true, state(false, true), Some("t"), Some("liner notes"), "A", "B");
    assert!(matches!(q, Some(Request::ReleaseSearch { .. })));
    assert!(job.missed_catalog_cover());
}
