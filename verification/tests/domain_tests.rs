use opengrok_mcp::domain::{
    DomainError, FileGenre, LineNumber, SearchHitDto, SearchRequest, SearchResponseDto,
    SearchResults, SortOrder,
};
use opengrok_mcp::request::genre_from_body;

#[test]
fn domain_line_number_display() {
    let ln = LineNumber(99);
    assert_eq!(ln.to_string(), "99");
}

#[test]
fn domain_sort_order_default_is_relevancy() {
    assert_eq!(SortOrder::default(), SortOrder::Relevancy);
}

#[test]
fn domain_sort_order_query_values() {
    assert_eq!(SortOrder::Relevancy.as_query_value(), "relevancy");
    assert_eq!(SortOrder::FullPath.as_query_value(), "fullpath");
    assert_eq!(SortOrder::LastModTime.as_query_value(), "lastmodtime");
}

#[test]
fn domain_search_request_has_query_returns_true_when_full_set() {
    let req = SearchRequest {
        full: Some("test".into()),
        ..Default::default()
    };
    assert!(req.has_query());
}

#[test]
fn domain_search_request_has_query_returns_false_when_empty() {
    let req = SearchRequest::default();
    assert!(!req.has_query());
}

#[test]
fn domain_search_request_with_defaults_caps_max_hits() {
    let req = SearchRequest {
        max_hits_per_file: Some(50),
        ..Default::default()
    };
    let capped = req.with_defaults(10, 25);
    assert_eq!(capped.max_hits_per_file, Some(10));
}

#[test]
fn domain_search_request_with_defaults_sets_default_max_results() {
    let req = SearchRequest::default();
    let capped = req.with_defaults(10, 25);
    assert_eq!(capped.max_results, Some(25));
}

#[test]
fn domain_search_request_with_defaults_preserves_explicit_max_results() {
    let req = SearchRequest {
        max_results: Some(50),
        ..Default::default()
    };
    let capped = req.with_defaults(10, 25);
    assert_eq!(capped.max_results, Some(50));
}

#[test]
fn domain_search_results_has_more_true_when_end_plus_one_lt_count() {
    let results = SearchResults {
        result_count: 20,
        start_document: 0,
        end_document: 9,
        duration_ms: 0,
        hits_by_file: vec![],
    };
    assert!(results.has_more());
}

#[test]
fn domain_search_results_has_more_false_when_last_page() {
    let results = SearchResults {
        result_count: 10,
        start_document: 0,
        end_document: 9,
        duration_ms: 0,
        hits_by_file: vec![],
    };
    assert!(!results.has_more());
}

#[test]
fn domain_line_number_from_string() {
    let ln = LineNumber::from_wire_str("42").unwrap();
    assert_eq!(ln.get(), 42);
}

#[test]
fn domain_line_number_from_integer() {
    let ln = LineNumber::from_wire_u64(7).unwrap();
    assert_eq!(ln.get(), 7);
}

#[test]
fn domain_line_number_invalid_string_returns_error() {
    let result = LineNumber::from_wire_str("not-a-number");
    assert!(result.is_err());
}

#[test]
fn domain_search_response_dto_conversion() {
    // The decoded form of:
    // {"time": 1229, "resultCount": 2, "startDocument": 0, "endDocument": 1,
    //   "results": {"/src/main.rs": [{"line": "fn <b>main</b>() {}", "lineNumber": "42", "tag": "function"}],
    //               "/src/lib.rs": [{"line": "pub fn init()", "lineNumber": "7", "tag": "function"}]}}
    let dto = SearchResponseDto {
        time: 1229,
        result_count: 2,
        start_document: 0,
        end_document: 1,
        results: vec![
            (
                "/src/lib.rs".to_string(),
                vec![SearchHitDto {
                    line: "pub fn init()".into(),
                    line_number: LineNumber::from_wire_str("7").unwrap(),
                    tag: Some("function".into()),
                }],
            ),
            (
                "/src/main.rs".to_string(),
                vec![SearchHitDto {
                    line: "fn <b>main</b>() {}".into(),
                    line_number: LineNumber::from_wire_str("42").unwrap(),
                    tag: Some("function".into()),
                }],
            ),
        ],
    };
    let results = SearchResults::from_dto(dto);

    assert_eq!(results.result_count, 2);
    assert_eq!(results.duration_ms, 1229);
    assert_eq!(results.hits_by_file.len(), 2);
    assert!(results.hits_by_file.iter().any(|f| f.path == "/src/main.rs"));
    assert!(results.hits_by_file.iter().any(|f| f.path == "/src/lib.rs"));
}

#[test]
fn domain_search_response_dto_null_tag_and_empty_line_number() {
    let dto = SearchResponseDto {
        time: 90,
        result_count: 1,
        start_document: 0,
        end_document: 0,
        results: vec![(
            "/path/to/file.java".to_string(),
            vec![SearchHitDto {
                line: "...".into(),
                line_number: LineNumber::from_wire_str("").unwrap(),
                tag: None,
            }],
        )],
    };
    let results = SearchResults::from_dto(dto);

    assert_eq!(results.result_count, 1);
    assert_eq!(results.hits_by_file.len(), 1);
    let hit = &results.hits_by_file[0].hits[0];
    assert_eq!(hit.line_number.get(), 0, "empty lineNumber should parse as 0");
    assert_eq!(hit.tag, "", "null tag should default to empty string");
}

#[test]
fn domain_file_genre_deserialization() {
    let g = genre_from_body(r#""PLAIN""#).unwrap();
    assert_eq!(g, FileGenre::Plain);

    let g = genre_from_body(r#""XREFABLE""#).unwrap();
    assert_eq!(g, FileGenre::Xrefable);
}

#[test]
fn domain_domain_error_display() {
    let err = DomainError::EmptyQuery;
    assert!(err.to_string().contains("search requires"));
}

#[test]
fn domain_domain_error_tls_variant() {
    let err = DomainError::Tls("cert expired".into());
    assert!(err.to_string().contains("cert expired"));
}

#[test]
fn mod_line_number_display() {
    let ln = LineNumber(99);
    assert_eq!(ln.to_string(), "99");
}

#[test]
fn mod_sort_order_default_is_relevancy() {
    assert_eq!(SortOrder::default(), SortOrder::Relevancy);
}

#[test]
fn mod_sort_order_query_values() {
    assert_eq!(SortOrder::Relevancy.as_query_value(), "relevancy");
    assert_eq!(SortOrder::FullPath.as_query_value(), "fullpath");
    assert_eq!(SortOrder::LastModTime.as_query_value(), "lastmodtime");
}

#[test]
fn mod_search_request_has_query_returns_true_when_full_set() {
    let req = SearchRequest {
        full: Some("test".into()),
        ..Default::default()
    };
    assert!(req.has_query());
}

#[test]
fn mod_search_request_has_query_returns_false_when_empty() {
    let req = SearchRequest::default();
    assert!(!req.has_query());
}

#[test]
fn mod_search_request_with_defaults_caps_max_hits() {
    let req = SearchRequest {
        max_hits_per_file: Some(50),
        ..Default::default()
    };
    let capped = req.with_defaults(10, 25);
    assert_eq!(capped.max_hits_per_file, Some(10));
}

#[test]
fn mod_search_request_with_defaults_sets_default_max_results() {
    let req = SearchRequest::default();
    let capped = req.with_defaults(10, 25);
    assert_eq!(capped.max_results, Some(25));
}

#[test]
fn mod_search_request_with_defaults_preserves_explicit_max_results() {
    let req = SearchRequest {
        max_results: Some(50),
        ..Default::default()
    };
    let capped = req.with_defaults(10, 25);
    assert_eq!(capped.max_results, Some(50));
}

#[test]
fn mod_search_results_has_more_true_when_end_plus_one_lt_count() {
    let results = SearchResults {
        result_count: 20,
        start_document: 0,
        end_document: 9,
        duration_ms: 0,
        hits_by_file: vec![],
    };
    assert!(results.has_more());
}

#[test]
fn mod_search_results_has_more_false_when_last_page() {
    let results = SearchResults {
        result_count: 10,
        start_document: 0,
        end_document: 9,
        duration_ms: 0,
        hits_by_file: vec![],
    };
    assert!(!results.has_more());
}

#[test]
fn mod_line_number_from_string() {
    let ln = LineNumber::from_wire_str("42").unwrap();
    assert_eq!(ln.get(), 42);
}

#[test]
fn mod_line_number_from_integer() {
    let ln = LineNumber::from_wire_u64(7).unwrap();
    assert_eq!(ln.get(), 7);
}

#[test]
fn mod_line_number_invalid_string_returns_error() {
    let result = LineNumber::from_wire_str("not-a-number");
    assert!(result.is_err());
}

#[test]
fn mod_search_response_dto_conversion() {
    // The decoded form of:
    // {"time": 1229, "resultCount": 2, "startDocument": 0, "endDocument": 1,
    //   "results": {"/src/main.rs": [{"line": "fn <b>main</b>() {}", "lineNumber": "42", "tag": "function"}],
    //               "/src/lib.rs": [{"line": "pub fn init()", "lineNumber": "7", "tag": "function"}]}}
    let dto = SearchResponseDto {
        time: 1229,
        result_count: 2,
        start_document: 0,
        end_document: 1,
        results: vec![
            (
                "/src/lib.rs".to_string(),
                vec![SearchHitDto {
                    line: "pub fn init()".into(),
                    line_number: LineNumber::from_wire_str("7").unwrap(),
                    tag: Some("function".into()),
                }],
            ),
            (
                "/src/main.rs".to_string(),
                vec![SearchHitDto {
                    line: "fn <b>main</b>() {}".into(),
                    line_number: LineNumber::from_wire_str("42").unwrap(),
                    tag: Some("function".into()),
                }],
            ),
        ],
    };
    let results = SearchResults::from_dto(dto);

    assert_eq!(results.result_count, 2);
    assert_eq!(results.duration_ms, 1229);
    assert_eq!(results.hits_by_file.len(), 2);
    assert!(results.hits_by_file.iter().any(|f| f.path == "/src/main.rs"));
    assert!(results.hits_by_file.iter().any(|f| f.path == "/src/lib.rs"));
}

#[test]
fn mod_search_response_dto_null_tag_and_empty_line_number() {
    let dto = SearchResponseDto {
        time: 90,
        result_count: 1,
        start_document: 0,
        end_document: 0,
        results: vec![(
            "/path/to/file.java".to_string(),
            vec![SearchHitDto {
                line: "...".into(),
                line_number: LineNumber::from_wire_str("").unwrap(),
                tag: None,
            }],
        )],
    };
    let results = SearchResults::from_dto(dto);

    assert_eq!(results.result_count, 1);
    assert_eq!(results.hits_by_file.len(), 1);
    let hit = &results.hits_by_file[0].hits[0];
    assert_eq!(hit.line_number.get(), 0, "empty lineNumber should parse as 0");
    assert_eq!(hit.tag, "", "null tag should default to empty string");
}

#[test]
fn mod_file_genre_deserialization() {
    let g = genre_from_body(r#""PLAIN""#).unwrap();
    assert_eq!(g, FileGenre::Plain);

    let g = genre_from_body(r#""XREFABLE""#).unwrap();
    assert_eq!(g, FileGenre::Xrefable);
}

#[test]
fn mod_domain_error_display() {
    let err = DomainError::EmptyQuery;
    assert!(err.to_string().contains("search requires"));
}

#[test]
fn mod_domain_error_tls_variant() {
    let err = DomainError::Tls("cert expired".into());
    assert!(err.to_string().contains("cert expired"));
}

#[test]
fn line_number_rejects_overflow_and_out_of_range() {
    assert!(LineNumber::from_wire_str("4294967296").is_err());
    assert_eq!(LineNumber::from_wire_str("4294967295").unwrap().get(), u32::MAX);
    assert!(LineNumber::from_wire_u64(4294967296).is_err());
}

#[test]
fn sort_order_round_trips_through_query_value() {
    for o in [SortOrder::Relevancy, SortOrder::FullPath, SortOrder::LastModTime] {
        assert_eq!(SortOrder::from_query_value(o.as_query_value()), Some(o));
    }
    assert_eq!(SortOrder::from_query_value("FullPath"), None);
}

#[test]
fn domain_error_messages_are_exact() {
    assert_eq!(
        DomainError::HttpStatus { status: 404, body: "not found".into() }.to_string(),
        "opengrok: HTTP 404: not found"
    );
    assert_eq!(DomainError::Decode("bad".into()).to_string(), "opengrok: decode error: bad");
    assert_eq!(DomainError::NotImplemented.to_string(), "opengrok: not yet implemented");
}

#[test]
fn genre_names_are_case_sensitive() {
    assert_eq!(FileGenre::from_wire_name("HTML"), Some(FileGenre::Html));
    assert_eq!(FileGenre::from_wire_name("html"), None);
    assert_eq!(FileGenre::Image.wire_name(), "IMAGE");
    assert_eq!(FileGenre::Data.debug_name(), "Data");
}

#[test]
fn line_number_text_round_trips() {
    for n in [0u32, 7, 42, 1000, u32::MAX] {
        let text = LineNumber(n).to_string();
        assert_eq!(LineNumber::from_wire_str(&text), Ok(LineNumber(n)));
    }
}

#[test]
fn genre_wire_names_round_trip() {
    for g in [FileGenre::Plain, FileGenre::Xrefable, FileGenre::Image, FileGenre::Data, FileGenre::Html] {
        assert_eq!(FileGenre::from_wire_name(g.wire_name()), Some(g));
        assert_eq!(opengrok_mcp::request::genre_from_decoded(Ok(g.wire_name().to_string()), 0), Ok(g));
    }
}

#[test]
fn has_more_is_false_at_the_last_representable_index() {
    let results = SearchResults {
        result_count: u32::MAX,
        start_document: 0,
        end_document: u32::MAX,
        duration_ms: 0,
        hits_by_file: vec![],
    };
    assert!(!results.has_more());
}

fn dto_with_paths(paths: &[&str]) -> SearchResponseDto {
    SearchResponseDto {
        time: 0,
        result_count: paths.len() as u32,
        start_document: 0,
        end_document: 0,
        results: paths.iter().map(|p| (p.to_string(), vec![])).collect(),
    }
}

#[test]
fn response_paths_ascending_accepts_sorted_unique_paths() {
    assert!(dto_with_paths(&[]).paths_ascending());
    assert!(dto_with_paths(&["/a"]).paths_ascending());
    assert!(dto_with_paths(&["/a", "/a/b", "/b", "/é"]).paths_ascending());
}

#[test]
fn response_paths_ascending_refuses_duplicates_and_disorder() {
    assert!(!dto_with_paths(&["/a", "/a"]).paths_ascending());
    assert!(!dto_with_paths(&["/b", "/a"]).paths_ascending());
    assert!(!dto_with_paths(&["/a", "/c", "/b"]).paths_ascending());
    assert!(!dto_with_paths(&["/ab", "/a"]).paths_ascending());
}

#[test]
fn from_dto_keeps_the_ascending_path_order() {
    let results = SearchResults::from_dto(dto_with_paths(&["/src/lib.rs", "/src/main.rs"]));
    let paths: Vec<&str> = results.hits_by_file.iter().map(|f| f.path.as_str()).collect();
    assert_eq!(paths, vec!["/src/lib.rs", "/src/main.rs"]);
}
