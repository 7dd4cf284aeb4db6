use std::time::Duration;

use opengrok_mcp::domain::{DomainError, FileGenre, HistoryRequest, SearchRequest, SortOrder, SuggestRequest};
use opengrok_mcp::request::{
    build_source_root_path, check_status, genre_from_body, genre_from_decoded, json_parse_failure,
    percent_encode, search_query_params, AuthMode, OpengrokClientConfig,
};
use opengrok_mcp::tls::TlsConfig;

fn config(base_url: &str) -> OpengrokClientConfig {
    OpengrokClientConfig {
        base_url: base_url.into(),
        auth: AuthMode::NoAuth,
        timeout: Duration::from_secs(1),
        tls: TlsConfig::default(),
    }
}

// -- build_source_root_path ------------------------------------------------

#[test]
fn source_root_path_with_empty_path() {
    let result = build_source_root_path("proj", "");
    assert_eq!(result, "/proj");
}

#[test]
fn source_root_path_with_relative_path() {
    let result = build_source_root_path("proj", "src/main.rs");
    assert_eq!(result, "/proj/src/main.rs");
}

#[test]
fn source_root_path_with_leading_slash() {
    let result = build_source_root_path("proj", "/src/main.rs");
    assert_eq!(result, "/proj/src/main.rs");
}

#[test]
fn source_root_path_already_prefixed() {
    let result = build_source_root_path("proj", "/proj/src/main.rs");
    assert_eq!(result, "/proj/src/main.rs");
}

// -- search_query_params ---------------------------------------------------

#[test]
fn search_query_params_full_query() {
    let req = SearchRequest {
        full: Some("test".into()),
        projects: vec!["p1".into(), "p2".into()],
        max_results: Some(50),
        sort: Some(SortOrder::FullPath),
        ..Default::default()
    };
    let params = search_query_params(&req);
    assert!(params.iter().any(|(k, v)| *k == "full" && v == "test"));
    let proj_params: Vec<_> = params.iter().filter(|(k, _)| *k == "projects").collect();
    assert_eq!(proj_params.len(), 2);
    assert_eq!(proj_params[0].1, "p1");
    assert_eq!(proj_params[1].1, "p2");
    assert!(params.iter().any(|(k, v)| *k == "maxresults" && v == "50"));
    assert!(params.iter().any(|(k, v)| *k == "sort" && v == "fullpath"));
}

#[test]
fn search_query_params_all_fields() {
    let req = SearchRequest {
        full: Some("f".into()),
        def: Some("d".into()),
        symbol: Some("s".into()),
        path: Some("p".into()),
        hist: Some("h".into()),
        file_type: Some("t".into()),
        start: Some(10),
        max_hits_per_file: Some(5),
        ..Default::default()
    };
    let params = search_query_params(&req);
    assert!(params.iter().any(|(k, v)| *k == "full" && v == "f"));
    assert!(params.iter().any(|(k, v)| *k == "def" && v == "d"));
    assert!(params.iter().any(|(k, v)| *k == "symbol" && v == "s"));
    assert!(params.iter().any(|(k, v)| *k == "path" && v == "p"));
    assert!(params.iter().any(|(k, v)| *k == "hist" && v == "h"));
    assert!(params.iter().any(|(k, v)| *k == "type" && v == "t"));
    assert!(params.iter().any(|(k, v)| *k == "start" && v == "10"));
    assert!(params.iter().any(|(k, v)| *k == "maxhitsperfile" && v == "5"));
}

#[test]
fn search_query_params_empty_request() {
    let req = SearchRequest::default();
    let params = search_query_params(&req);
    assert!(params.is_empty());
}

// -- auth mode ---------------------------------------------------------------

#[test]
fn auth_mode_bearer_clone() {
    let a = AuthMode::Bearer("tok".into());
    assert_eq!(a, AuthMode::Bearer("tok".into()));
}

#[test]
fn auth_mode_basic_clone() {
    let a = AuthMode::Basic {
        username: "u".into(),
        password: "p".into(),
    };
    assert_ne!(a, AuthMode::NoAuth);
}

// -- normalized_base_url -----------------------------------------------------

#[test]
fn normalized_base_url_strips_trailing_slash() {
    let config = config("http://example.com/");
    assert_eq!(config.normalized_base_url(), "http://example.com");
}

#[test]
fn normalized_base_url_preserves_no_trailing_slash() {
    let config = config("http://example.com");
    assert_eq!(config.normalized_base_url(), "http://example.com");
}

// -- request URLs ------------------------------------------------------------

#[test]
fn percent_encode_keeps_unreserved_and_escapes_the_rest() {
    assert_eq!(percent_encode("a-Z_0.~/:"), "a-Z_0.~/:");
    assert_eq!(percent_encode("a b"), "a+b");
    assert_eq!(percent_encode("x&y=z"), "x%26y%3Dz");
    assert_eq!(percent_encode("\n"), "%0A");
    assert_eq!(percent_encode("é"), "%E9");
    assert_eq!(percent_encode("€"), "%20AC");
}

#[test]
fn search_url_joins_base_path_and_query() {
    let c = config("http://127.0.0.1:8080/");
    let req = SearchRequest { full: Some("test_query".into()), ..Default::default() };
    let url = c.search_url(&req).unwrap();
    assert_eq!(url, "http://127.0.0.1:8080/api/v1/search?full=test_query");
}

#[test]
fn search_empty_query_errors_before_http() {
    let c = config("http://127.0.0.1:8080");
    let r = c.search_url(&SearchRequest::default());
    assert_eq!(r, Err(DomainError::EmptyQuery));
}

#[test]
fn history_url_sends_query_params() {
    let c = config("http://h");
    let req = HistoryRequest { path: "/src/main.rs".into(), start: Some(0), max: Some(10), with_files: None };
    assert_eq!(c.history_url(&req), "http://h/api/v1/history?path=/src/main.rs&start=0&max=10");
    let req = HistoryRequest { path: "/a".into(), start: None, max: None, with_files: Some(true) };
    assert_eq!(c.history_url(&req), "http://h/api/v1/history?path=/a&withFiles=true");
}

#[test]
fn suggest_url_sends_query_params() {
    let c = config("http://h");
    let req = SuggestRequest {
        projects: vec!["myproj".into()],
        field: "defs".into(),
        caret: 5,
        full: Some("fn".into()),
        defs: None,
        refs: None,
        path: None,
        hist: None,
        file_type: None,
    };
    assert_eq!(
        c.suggest_url(&req),
        "http://h/api/v1/suggest?projects=myproj&field=defs&caret=5&full=fn"
    );
}

#[test]
fn file_content_url_prefixes_the_project() {
    let c = config("http://h");
    let (path, url) = c.file_content_url("myproj", "src/main.rs");
    assert_eq!(path, "/myproj/src/main.rs");
    assert_eq!(url, "http://h/api/v1/file/content?path=/myproj/src/main.rs");
}

#[test]
fn endpoint_urls() {
    let c = config("http://h");
    assert_eq!(c.indexed_projects_url(), "http://h/api/v1/projects/indexed");
    assert_eq!(c.all_projects_url(), "http://h/api/v1/projects");
    assert_eq!(c.file_definitions_url("/a b"), "http://h/api/v1/file/defs?path=/a+b");
    assert_eq!(c.file_genre_url("/x"), "http://h/api/v1/file/genre?path=/x");
    assert_eq!(c.list_directory_url("/d"), "http://h/api/v1/list?path=/d");
    assert_eq!(c.annotation_url("/src/lib.rs"), "http://h/api/v1/annotation?path=/src/lib.rs");
}

// -- responses ---------------------------------------------------------------

#[test]
fn non_2xx_status_is_an_error() {
    assert_eq!(check_status(200, String::new()), Ok(()));
    assert_eq!(check_status(299, String::new()), Ok(()));
    assert_eq!(
        check_status(500, "internal server error".into()),
        Err(DomainError::HttpStatus { status: 500, body: "internal server error".into() })
    );
    assert!(check_status(404, "not found".into()).is_err());
    assert!(check_status(199, String::new()).is_err());
}

#[test]
fn json_parse_failure_quotes_the_start_of_the_body() {
    let long = "x".repeat(600);
    match json_parse_failure("expected value", &long) {
        DomainError::Decode(m) => {
            assert!(m.starts_with("JSON parse error: expected value\nRaw body (500 chars): "));
            assert_eq!(m.len(), "JSON parse error: expected value\nRaw body (500 chars): ".len() + 500);
        }
        other => panic!("unexpected {other:?}"),
    }
}

#[test]
fn genre_body_is_trimmed_and_unquoted() {
    assert_eq!(genre_from_body("  \"HTML\"\n"), Ok(FileGenre::Html));
    assert_eq!(genre_from_body("IMAGE"), Ok(FileGenre::Image));
    assert_eq!(genre_from_body("\"DA\"TA\""), Ok(FileGenre::Data));
    assert!(matches!(genre_from_body("\"TEXT\""), Err(DomainError::Decode(_))));
    assert!(matches!(genre_from_body("PL\u{1}AIN"), Err(DomainError::Decode(_))));
}

#[test]
fn genre_from_decoded_reports_unknown_names() {
    assert_eq!(genre_from_decoded(Ok("XREFABLE".into()), 10), Ok(FileGenre::Xrefable));
    assert_eq!(
        genre_from_decoded(Ok("FOO".into()), 5),
        Err(DomainError::Decode(
            "unknown variant `FOO`, expected one of `PLAIN`, `XREFABLE`, `IMAGE`, `DATA`, `HTML` at line 1 column 5"
                .into()
        ))
    );
    assert_eq!(genre_from_decoded(Err("eof".into()), 3), Err(DomainError::Decode("eof".into())));
}

/// The position the JSON decoder appends to an unknown-variant error, as
/// serde_json reports it for an enum read from the given text.
fn decoder_position_suffix(json: &str) -> String {
    let msg = serde_json::from_str::<Result<(), ()>>(json).unwrap_err().to_string();
    msg[msg.find(" at line").unwrap()..].to_string()
}

#[test]
fn unknown_genre_message_ends_with_the_decoder_position() {
    assert_eq!(decoder_position_suffix("\"TEXT\""), " at line 1 column 6");
    assert_eq!(
        genre_from_body("  \"TEXT\"\n"),
        Err(DomainError::Decode(
            "unknown variant `TEXT`, expected one of `PLAIN`, `XREFABLE`, `IMAGE`, `DATA`, `HTML` at line 1 column 6"
                .into()
        ))
    );
    // Columns count UTF-8 bytes: `"ÉTÉ"` is seven bytes long.
    assert_eq!(decoder_position_suffix("\"ÉTÉ\""), " at line 1 column 7");
    assert_eq!(
        genre_from_body("ÉTÉ"),
        Err(DomainError::Decode(
            "unknown variant `ÉTÉ`, expected one of `PLAIN`, `XREFABLE`, `IMAGE`, `DATA`, `HTML` at line 1 column 7"
                .into()
        ))
    );
    // An escape is decoded in the name but counted as written.
    assert_eq!(decoder_position_suffix("\"\\u0041B\""), " at line 1 column 9");
    assert_eq!(
        genre_from_body("\\u0041B"),
        Err(DomainError::Decode(
            "unknown variant `AB`, expected one of `PLAIN`, `XREFABLE`, `IMAGE`, `DATA`, `HTML` at line 1 column 9"
                .into()
        ))
    );
}

#[test]
fn undecodable_genre_carries_the_decoder_message() {
    match genre_from_body("PL\u{1}AIN") {
        Err(DomainError::Decode(m)) => {
            assert!(!m.is_empty());
            assert!(!m.contains("PL\u{1}AIN"));
            assert!(m.contains("control character"));
            let expected = serde_json::from_str::<String>("\"PL\u{1}AIN\"").unwrap_err().to_string();
            assert_eq!(m, expected);
        }
        other => panic!("unexpected {other:?}"),
    }
}
