//! Text parsing: commands, decimals, JSON shapes, and request building.

use tdl::runner::{parse_cmd, split_words, Command, CmdError};
use tdl::text::{parse_decimal, parse_u16, format_decimal, join_semicolon, sanitize_component};
use tdl::tidal::{login_request, Access, ClientCredentials, AccessError};

fn session() -> Access {
    Access {
        api_creds: ClientCredentials {
            access_token: "api-token".to_string(),
            token_type: "Bearer".to_string(),
            expires_in: 3600,
        },
        streaming_creds: ClientCredentials {
            access_token: "stream-token".to_string(),
            token_type: "Bearer".to_string(),
            expires_in: 14400,
        },
    }
}

#[test]
fn split_words_trims_and_splits() {
    let w = split_words("  track   abc 12 ");
    assert_eq!(w, vec!["track".to_string(), "abc".to_string(), "12".to_string()]);
    assert!(split_words("").is_empty());
    assert!(split_words(" \t\r\n").is_empty());
}

#[test]
fn parse_cmd_track_with_number() {
    match parse_cmd("track 109100968 7") {
        Ok(Command::Track { id, number }) => {
            assert_eq!(id, "109100968");
            assert_eq!(number, Some(7));
        }
        other => panic!("unexpected: {:?}", result_kind(&other)),
    }
}

#[test]
fn parse_cmd_track_without_number() {
    match parse_cmd("track xyz") {
        Ok(Command::Track { id, number }) => {
            assert_eq!(id, "xyz");
            assert_eq!(number, None);
        }
        other => panic!("unexpected: {:?}", result_kind(&other)),
    }
}

#[test]
fn parse_cmd_album() {
    match parse_cmd("album 4253857") {
        Ok(Command::Album { id }) => assert_eq!(id, "4253857"),
        other => panic!("unexpected: {:?}", result_kind(&other)),
    }
}

#[test]
fn parse_cmd_errors() {
    assert!(matches!(parse_cmd(""), Err(CmdError::NoCommand)));
    assert!(matches!(parse_cmd("   "), Err(CmdError::NoCommand)));
    assert!(matches!(parse_cmd("track"), Err(CmdError::NoTarget)));
    assert!(matches!(parse_cmd("album"), Err(CmdError::NoTarget)));
    assert!(matches!(parse_cmd("track t notanumber"), Err(CmdError::BadNumber)));
    assert!(matches!(parse_cmd("track t 70000"), Err(CmdError::BadNumber)));
    match parse_cmd("frobnicate x") {
        Err(CmdError::UnknownCommand(w)) => assert_eq!(w, "frobnicate"),
        other => panic!("unexpected: {:?}", result_kind(&other)),
    }
}

fn result_kind<T, E>(r: &Result<T, E>) -> &'static str {
    match r {
        Ok(_) => "ok",
        Err(_) => "err",
    }
}

#[test]
fn decimals_round_trip() {
    assert_eq!(parse_decimal("0"), Some(0));
    assert_eq!(parse_decimal("307"), Some(307));
    assert_eq!(parse_decimal(""), None);
    assert_eq!(parse_decimal("12a"), None);
    assert_eq!(parse_decimal("99999999999999999999"), None);
    assert_eq!(parse_u16("65535"), Some(65535));
    assert_eq!(parse_u16("65536"), None);
    assert_eq!(parse_u16("+3"), Some(3));
    assert_eq!(parse_u16("+"), None);
    assert_eq!(format_decimal(0), "0");
    assert_eq!(format_decimal(307), "307");
    assert_eq!(format_decimal(10), "10");
}

#[test]
fn join_artists_with_semicolon() {
    assert_eq!(join_semicolon(&vec![]), "");
    assert_eq!(join_semicolon(&vec!["A".to_string()]), "A");
    assert_eq!(join_semicolon(&vec!["A".to_string(), "B".to_string(), "C".to_string()]), "A; B; C");
}

#[test]
fn sanitize_disarms_separators() {
    assert_eq!(sanitize_component("AC/DC"), "AC_DC");
    assert_eq!(sanitize_component("plain"), "plain");
    assert_eq!(sanitize_component("../up"), ".._up");
}

#[test]
fn login_request_encodes_basic_auth() {
    let r = login_request("id", "secret");
    assert_eq!(r.url, "https://auth.tidal.com/v1/oauth2/token");
    // base64 of "id:secret"
    assert_eq!(r.authorization, "Basic aWQ6c2VjcmV0");
    assert_eq!(r.content_type, "application/x-www-form-urlencoded");
    assert_eq!(r.body, "grant_type=client_credentials");
}

#[test]
fn log_in_reads_token_response() {
    let a = Access::log_in(
        "{\"access_token\": \"tok123\", \"token_type\": \"Bearer\", \"expires_in\": 86400}",
        "stream-tok",
    )
    .unwrap_or_else(|_| panic!("log_in failed"));
    assert_eq!(a.api_creds.access_token, "tok123");
    assert_eq!(a.api_creds.token_type, "Bearer");
    assert_eq!(a.api_creds.expires_in, 86400);
    assert_eq!(a.streaming_creds.access_token, "stream-tok");
    assert_eq!(a.streaming_creds.token_type, "Bearer");
    assert_eq!(a.streaming_creds.expires_in, 14400);
}

#[test]
fn log_in_rejects_bad_bodies() {
    assert!(matches!(
        Access::log_in("not json at all", "s"),
        Err(AccessError::DeserializationFailure(_))
    ));
    assert!(matches!(
        Access::log_in("{\"access_token\": \"t\"}", "s"),
        Err(AccessError::DeserializationFailure(_))
    ));
    assert!(matches!(
        Access::log_in(
            "{\"access_token\": \"t\", \"token_type\": \"b\", \"expires_in\": \"soon\"}",
            "s"
        ),
        Err(AccessError::DeserializationFailure(_))
    ));
}

#[test]
fn api_request_carries_country_code() {
    let a = session();
    let r = a.api_request("tracks/42", vec![("include".to_string(), "artists".to_string())]);
    assert_eq!(r.url, "https://openapi.tidal.com/v2/tracks/42");
    assert_eq!(
        r.query,
        vec![
            ("countryCode".to_string(), "US".to_string()),
            ("include".to_string(), "artists".to_string()),
        ]
    );
    assert_eq!(r.bearer, "api-token");
    assert!(r.user_agent.is_none());
}

#[test]
fn tracks_request_targets_album_items() {
    let a = session();
    let r = a.tracks_request("4253857");
    assert_eq!(r.url, "https://openapi.tidal.com/v2/albums/4253857/relationships/items");
    assert_eq!(r.query, vec![("countryCode".to_string(), "US".to_string())]);
}

#[test]
fn manifest_request_sets_user_agent() {
    let a = session();
    let r = a.manifest_request("42");
    assert_eq!(
        r.url,
        "https://tidal.com/v1/tracks/42/playbackinfo?audioquality=HI_RES_LOSSLESS&playbackmode=STREAM&assetpresentation=FULL"
    );
    assert!(r.query.is_empty());
    assert_eq!(r.bearer, "stream-token");
    let ua = r.user_agent.expect("user agent");
    assert!(ua.contains("tali.network"));
}

#[test]
fn get_tracks_reads_listing() {
    let a = session();
    let ids = a
        .get_tracks("{\"data\": [{\"id\": \"t1\"}, {\"id\": \"t2\"}, {\"id\": \"t3\"}]}")
        .unwrap_or_else(|_| panic!("get_tracks failed"));
    assert_eq!(ids, vec!["t1".to_string(), "t2".to_string(), "t3".to_string()]);

    let empty = a.get_tracks("{\"data\": []}").unwrap_or_else(|_| panic!("empty listing failed"));
    assert!(empty.is_empty());
}

#[test]
fn get_tracks_rejects_bad_shapes() {
    let a = session();
    assert!(matches!(
        a.get_tracks("nonsense"),
        Err(AccessError::DeserializationFailure(_))
    ));
    assert!(matches!(
        a.get_tracks("{\"data\": {\"id\": \"t1\"}}"),
        Err(AccessError::MissingField(tdl::tidal::MissingField::TrackList, _))
    ));
    assert!(matches!(
        a.get_tracks("{\"data\": [{\"id\": 5}]}"),
        Err(AccessError::MissingField(tdl::tidal::MissingField::TrackList, _))
    ));
}
