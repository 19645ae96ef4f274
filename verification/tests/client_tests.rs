use hifi_rs::client::{failed_to_play_message, fetch_failure_message, password_digest, setup_plan, ApiConfig};
use hifi_rs::client::{
    album_request, api_error_of, artist_request, auth_token, call_error, login_request, login_token,
    search_albums_request, search_all_request, search_artists_request, track_request, user_playlists_request,
};
use hifi_rs::client::{
    active_secret_of, capitalize, next_page_request, parse_url, path_segments, playlist_request,
    track_url_request, track_url_request_at, try_parse_url, AudioQuality, ClientError, Endpoint, UrlType,
    UrlTypeError,
};

fn pairs(req: &hifi_rs::client::ApiRequest) -> Vec<(String, String)> {
    req.params.clone()
}

#[test]
fn qualities_and_their_ids() {
    assert_eq!(AudioQuality::from_id(5), AudioQuality::Mp3);
    assert_eq!(AudioQuality::from_id(6), AudioQuality::CD);
    assert_eq!(AudioQuality::from_id(7), AudioQuality::HIFI96);
    assert_eq!(AudioQuality::from_id(27), AudioQuality::HIFI192);
    assert_eq!(AudioQuality::from(3i64), AudioQuality::Unknown);
    assert_eq!(AudioQuality::HIFI192.quality_id(), 27);
    assert_eq!(AudioQuality::Unknown.quality_id(), 28);
    assert_eq!(AudioQuality::CD.to_text(), "6");
    assert_eq!(AudioQuality::default(), AudioQuality::Mp3);
}

#[test]
fn album_playlist_and_track_addresses() {
    assert_eq!(
        parse_url("https://play.qobuz.com/album/abc123").unwrap(),
        UrlType::Album { id: "abc123".to_string() }
    );
    assert_eq!(
        parse_url("https://open.qobuz.com/playlist/987654").unwrap(),
        UrlType::Playlist { id: 987654 }
    );
    assert_eq!(parse_url("https://play.qobuz.com/track/42").unwrap(), UrlType::Track { id: 42 });
}

#[test]
fn rejected_addresses() {
    assert_eq!(parse_url("https://example.com/album/1").unwrap_err(), UrlTypeError::WrongDomain);
    assert_eq!(parse_url("https://play.qobuz.com/artist/1").unwrap_err(), UrlTypeError::Unknown);
    assert_eq!(parse_url("https://play.qobuz.com/").unwrap_err(), UrlTypeError::Unknown);
    assert_eq!(parse_url("not a url").unwrap_err(), UrlTypeError::InvalidUrl);
    assert_eq!(parse_url("mailto:someone@play.qobuz.com").unwrap_err(), UrlTypeError::InvalidUrl);
    assert_eq!(UrlTypeError::WrongDomain.message(), "This uri contains an unfamiliar domain.");
    assert_eq!(UrlTypeError::InvalidPath.message(), "the url contains an invalid path");
}

#[test]
fn unreadable_service_addresses_are_refused_by_the_checked_reader() {
    assert!(try_parse_url("https://play.qobuz.com/playlist/notanumber").is_none());
    assert!(try_parse_url("https://play.qobuz.com/album").is_none());
    assert_eq!(
        try_parse_url("https://play.qobuz.com/track/9").unwrap().unwrap(),
        UrlType::Track { id: 9 }
    );
    assert_eq!(try_parse_url("::").unwrap().unwrap_err(), UrlTypeError::InvalidUrl);
}

#[test]
fn path_segments_split_on_slashes() {
    assert_eq!(path_segments("/a/b/"), Some(vec!["a".to_string(), "b".to_string(), "".to_string()]));
    assert_eq!(path_segments("/"), Some(vec!["".to_string()]));
    assert_eq!(path_segments("a/b"), None);
}

#[test]
fn capitalize_upper_cases_a_leading_ascii_letter() {
    assert_eq!(capitalize("berlin"), "Berlin");
    assert_eq!(capitalize("Berlin"), "Berlin");
    assert_eq!(capitalize(""), "");
    assert_eq!(capitalize("éa"), "éa");
    assert_eq!(capitalize("1a"), "1a");
}

#[test]
fn endpoint_paths() {
    assert_eq!(Endpoint::TrackURL.as_str(), "track/getFileUrl");
    assert_eq!(Endpoint::UserPlaylist.as_str(), "playlist/getUserPlaylists");
    assert_eq!(Endpoint::Search.as_str(), "catalog/search");
}

#[test]
fn stream_address_request_is_signed() {
    let req = track_url_request_at(
        "https://www.qobuz.com/api.json/0.2/",
        5966783,
        Some(AudioQuality::Mp3),
        AudioQuality::CD,
        Some("secret".to_string()),
        &None,
        1700000000,
    )
    .unwrap();
    assert_eq!(req.endpoint, "https://www.qobuz.com/api.json/0.2/track/getFileUrl");
    let sig_source = "trackgetFileUrlformat_id5intentstreamtrack_id59667831700000000secret";
    let expected_sig = format!("{:x}", md5::compute(sig_source.as_bytes()));
    assert_ne!(expected_sig, sig_source);
    assert_eq!(
        pairs(&req),
        vec![
            ("request_ts".to_string(), "1700000000".to_string()),
            ("request_sig".to_string(), expected_sig),
            ("track_id".to_string(), "5966783".to_string()),
            ("format_id".to_string(), "5".to_string()),
            ("intent".to_string(), "stream".to_string()),
        ]
    );
}

#[test]
fn stream_address_request_falls_back_and_fails_without_secret() {
    let req = track_url_request_at("b/", 1, None, AudioQuality::HIFI96, None, &Some("act".to_string()), 3).unwrap();
    assert_eq!(req.params[3].1, "7");
    let sig = format!("{:x}", md5::compute("trackgetFileUrlformat_id7intentstreamtrack_id13act".as_bytes()));
    assert_eq!(req.params[1].1, sig);
    assert_eq!(
        track_url_request_at("b/", 1, None, AudioQuality::CD, None, &None, 3).unwrap_err(),
        ClientError::ActiveSecret
    );
    assert_eq!(
        track_url_request("b/", 1, None, AudioQuality::CD, None, &None).unwrap_err(),
        ClientError::ActiveSecret
    );
    let now_req = track_url_request("b/", 1, None, AudioQuality::CD, Some("s".to_string()), &None).unwrap();
    assert_eq!(now_req.params.len(), 5);
    assert_eq!(now_req.params[4], ("intent".to_string(), "stream".to_string()));
}

#[test]
fn playlist_paging() {
    let first = playlist_request("b/", "123");
    assert_eq!(first.endpoint, "b/playlist/get");
    assert_eq!(first.params[0], ("limit".to_string(), "500".to_string()));
    assert_eq!(first.params[3], ("offset".to_string(), "0".to_string()));
    let next = next_page_request("b/", 123, 500, 730).unwrap();
    assert_eq!(
        next.params,
        vec![
            ("limit".to_string(), "230".to_string()),
            ("extra".to_string(), "tracks".to_string()),
            ("playlist_id".to_string(), "123".to_string()),
            ("offset".to_string(), "500".to_string()),
        ]
    );
    assert!(next_page_request("b/", 123, 730, 730).is_none());
}

#[test]
fn the_first_accepted_secret_is_kept() {
    let c = vec!["a".to_string(), "b".to_string(), "c".to_string()];
    assert_eq!(active_secret_of(&c, &vec![false, true, true]).unwrap(), "b");
    assert_eq!(active_secret_of(&c, &vec![false, false, false]).unwrap_err(), ClientError::ActiveSecret);
}

#[test]
fn setup_plans() {
    let kept = ApiConfig {
        username: Some("kept".to_string()),
        password: Some("pw".to_string()),
        default_quality: Some(27),
        user_token: None,
        app_id: Some("id".to_string()),
        active_secret: None,
    };
    let plan = setup_plan(&kept, Some("given"), Some("secret"));
    assert_eq!(plan.quality, Some(AudioQuality::HIFI192));
    assert!(plan.refresh);
    assert_eq!(plan.login, Some(("given".to_string(), "secret".to_string())));
    let plan = setup_plan(&kept, Some("given"), None);
    assert_eq!(plan.login, Some(("kept".to_string(), "pw".to_string())));
    let with_token = ApiConfig { user_token: Some("t".to_string()), active_secret: Some("s".to_string()), ..kept.clone() };
    let plan = setup_plan(&with_token, Some("given"), Some("secret"));
    assert_eq!(plan.login, Some(("given".to_string(), "secret".to_string())));
    assert!(!plan.refresh);
    assert_eq!(plan.token, None);
    let plan = setup_plan(&with_token, Some("given"), None);
    assert_eq!(plan.login, None);
    assert_eq!(plan.token.as_deref(), Some("t"));
    let empty = setup_plan(&ApiConfig::default(), None, None);
    assert_eq!(empty.login, None);
    assert_eq!(empty.quality, None);
}

#[test]
fn password_digest_and_play_message() {
    assert_eq!(password_digest("hunter2"), format!("{:x}", md5::compute("hunter2")));
    assert_eq!(password_digest(""), "d41d8cd98f00b204e9800998ecf8427e");
    assert_eq!(
        failed_to_play_message(UrlTypeError::InvalidUrl),
        "Failed to play item. the url is invalid."
    );
}

fn p(a: &str, b: &str) -> (String, String) {
    (a.to_string(), b.to_string())
}

#[test]
fn catalog_requests_name_their_endpoint_and_parameters() {
    let base = "https://www.qobuz.com/api.json/0.2/";
    let r = user_playlists_request(base);
    assert_eq!(r.endpoint, "https://www.qobuz.com/api.json/0.2/playlist/getUserPlaylists");
    assert_eq!(pairs(&r), vec![p("limit", "500"), p("extra", "tracks"), p("offset", "0")]);
    let r = track_request(base, -155);
    assert_eq!(r.endpoint, "https://www.qobuz.com/api.json/0.2/track/get");
    assert_eq!(pairs(&r), vec![p("track_id", "-155")]);
    let r = album_request(base, "lhrak0dpdxcbc");
    assert_eq!(r.endpoint, "https://www.qobuz.com/api.json/0.2/album/get");
    assert_eq!(pairs(&r), vec![p("album_id", "lhrak0dpdxcbc")]);
    let r = search_all_request(base, "a love supreme");
    assert_eq!(r.endpoint, "https://www.qobuz.com/api.json/0.2/catalog/search");
    assert_eq!(pairs(&r), vec![p("query", "a love supreme"), p("limit", "500")]);
}

#[test]
fn searches_default_to_a_hundred_results() {
    let r = search_albums_request("b/", "pink floyd", None);
    assert_eq!(r.endpoint, "b/album/search");
    assert_eq!(pairs(&r), vec![p("query", "pink floyd"), p("limit", "100")]);
    let r = search_artists_request("b/", "pink floyd", Some(10));
    assert_eq!(r.endpoint, "b/artist/search");
    assert_eq!(pairs(&r), vec![p("query", "pink floyd"), p("limit", "10")]);
}

#[test]
fn artist_request_names_the_app() {
    let r = artist_request("b/", 148745, Some("123456789"), Some(10));
    assert_eq!(r.endpoint, "b/artist/get");
    assert_eq!(
        pairs(&r),
        vec![p("artist_id", "148745"), p("app_id", "123456789"), p("limit", "10"), p("offset", "0"), p("extra", "albums")]
    );
    assert_eq!(pairs(&artist_request("b/", 1, Some("a"), None))[2], p("limit", "100"));
}

#[test]
fn login_request_sends_email_password_and_app() {
    let r = login_request("b/", Some("app"), Some("me@x.org"), Some("hash"));
    assert_eq!(r.endpoint, "b/user/login");
    assert_eq!(pairs(&r), vec![p("email", "me@x.org"), p("password", "hash"), p("app_id", "app")]);
}

#[test]
fn login_token_is_the_unquoted_member() {
    assert_eq!(auth_token("\"abc\""), "abc");
    assert_eq!(login_token("{\"user_auth_token\":\"tok-123\",\"user\":{}}"), Some("tok-123".to_string()));
    assert_eq!(login_token("{}"), Some("ul".to_string()));
    assert_eq!(login_token("{\"user_auth_token\":5}"), None);
    assert_eq!(login_token("not json"), None);
}

#[test]
fn failed_requests_become_api_errors() {
    assert_eq!(api_error_of(Some(400)), ClientError::Api { message: "Bad request".to_string() });
    assert_eq!(api_error_of(Some(401)), ClientError::Api { message: "Unauthorized request".to_string() });
    assert_eq!(api_error_of(Some(404)), ClientError::Api { message: "Item not found".to_string() });
    assert_eq!(api_error_of(Some(500)), ClientError::Api { message: "Error calling the API.".to_string() });
    assert_eq!(api_error_of(None), ClientError::Api { message: "Error calling the API.".to_string() });
    assert_eq!(call_error(&ClientError::Login), ClientError::Api { message: "Failed to login.".to_string() });
}

#[test]
fn quoted_token_reads_back() {
    for t in ["", "abc", "ünï", "a\"b"] {
        assert_eq!(auth_token(&format!("\"{t}\"")), t);
    }
}

#[test]
fn qualities_go_by_their_command_line_names() {
    assert_eq!(AudioQuality::from_name("mp3"), Some(AudioQuality::Mp3));
    assert_eq!(AudioQuality::from_name("cd"), Some(AudioQuality::CD));
    assert_eq!(AudioQuality::from_name("hifi96"), Some(AudioQuality::HIFI96));
    assert_eq!(AudioQuality::from_name("hifi192"), Some(AudioQuality::HIFI192));
    assert_eq!(AudioQuality::from_name("HIFI192"), None);
    assert_eq!(AudioQuality::from_name("flac"), None);
    for q in [AudioQuality::Mp3, AudioQuality::CD, AudioQuality::HIFI96, AudioQuality::HIFI192, AudioQuality::Unknown] {
        assert_eq!(AudioQuality::from_name(q.name()), Some(q));
    }
}

#[test]
fn fetch_failures_name_the_item_and_the_error() {
    let err = ClientError::Api { message: "Item not found".to_string() };
    assert_eq!(
        fetch_failure_message(&UrlType::Album { id: "abc".to_string() }, &err),
        "Failed to play album abc, Item not found. Is the ID correct?"
    );
    assert_eq!(
        fetch_failure_message(&UrlType::Playlist { id: -4 }, &ClientError::Login),
        "Failed to play playlsit -4, Failed to login.. Is the ID correct?"
    );
    assert_eq!(
        fetch_failure_message(&UrlType::Track { id: 77 }, &err),
        "Failed to play track 77, Item not found. Is the ID correct?"
    );
}

#[test]
fn clock_error_has_its_message() {
    assert_eq!(ClientError::Clock.message(), "The system clock cannot give the time.");
}
