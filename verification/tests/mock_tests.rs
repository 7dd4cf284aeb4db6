use opengrok_mcp::domain::{DomainError, FileHits, LineNumber, SearchHit, SearchRequest, SearchResults};
use opengrok_mcp::mock::MockOpengrokRepository;

fn make_hit(line_number: u32, line: &str) -> SearchHit {
    SearchHit {
        line_number: LineNumber(line_number),
        line: line.into(),
        tag: "test".into(),
    }
}

fn empty_results(count: u32) -> SearchResults {
    SearchResults { result_count: count, start_document: 0, end_document: 0, duration_ms: 0, hits_by_file: vec![] }
}

#[test]
fn domain_mock_search_returns_pushed_result() {
    let mut mock = MockOpengrokRepository::new();
    let results = SearchResults {
        result_count: 1,
        start_document: 0,
        end_document: 0,
        duration_ms: 5,
        hits_by_file: vec![FileHits {
            path: "/a.rs".into(),
            hits: vec![make_hit(1, "hello")],
        }],
    };
    mock.push_ok_search(results);

    let req = SearchRequest {
        full: Some("hello".into()),
        ..Default::default()
    };
    let result = mock.search(&req).unwrap();
    assert_eq!(result.result_count, 1);
    assert_eq!(result.hits_by_file[0].path, "/a.rs");
    assert_eq!(mock.search_call_count(), 1);
}

#[test]
fn mod_mock_search_returns_pushed_result() {
    let mut mock = MockOpengrokRepository::new();
    let results = SearchResults {
        result_count: 1,
        start_document: 0,
        end_document: 0,
        duration_ms: 5,
        hits_by_file: vec![FileHits {
            path: "/a.rs".into(),
            hits: vec![make_hit(1, "hello")],
        }],
    };
    mock.push_ok_search(results);

    let req = SearchRequest {
        full: Some("hello".into()),
        ..Default::default()
    };
    let result = mock.search(&req).unwrap();
    assert_eq!(result.result_count, 1);
    assert_eq!(result.hits_by_file[0].path, "/a.rs");
    assert_eq!(mock.search_call_count(), 1);
}

#[test]
fn domain_mock_search_tracks_last_request() {
    let mut mock = MockOpengrokRepository::new();
    mock.push_ok_search(empty_results(0));

    let req = SearchRequest {
        full: Some("tracked".into()),
        projects: vec!["proj".into()],
        max_results: Some(10),
        ..Default::default()
    };
    let _ = mock.search(&req).unwrap();

    let last = mock.last_search_request().unwrap();
    assert_eq!(last.full, Some("tracked".into()));
    assert_eq!(last.projects, vec!["proj"]);
    assert_eq!(last.max_results, Some(10));
}

#[test]
fn mod_mock_search_tracks_last_request() {
    let mut mock = MockOpengrokRepository::new();
    mock.push_ok_search(empty_results(0));

    let req = SearchRequest {
        full: Some("tracked".into()),
        projects: vec!["proj".into()],
        max_results: Some(10),
        ..Default::default()
    };
    let _ = mock.search(&req).unwrap();

    let last = mock.last_search_request().unwrap();
    assert_eq!(last.full, Some("tracked".into()));
    assert_eq!(last.projects, vec!["proj"]);
    assert_eq!(last.max_results, Some(10));
}

#[test]
fn domain_mock_search_returns_error() {
    let mut mock = MockOpengrokRepository::new();
    mock.push_err_search(DomainError::EmptyQuery);

    let req = SearchRequest::default();
    let result = mock.search(&req);
    assert!(result.is_err());
    assert!(matches!(result.unwrap_err(), DomainError::EmptyQuery));
}

#[test]
fn mod_mock_search_returns_error() {
    let mut mock = MockOpengrokRepository::new();
    mock.push_err_search(DomainError::EmptyQuery);

    let req = SearchRequest::default();
    let result = mock.search(&req);
    assert!(result.is_err());
    assert!(matches!(result.unwrap_err(), DomainError::EmptyQuery));
}

#[test]
fn domain_mock_search_returns_not_implemented_when_empty() {
    let mut mock = MockOpengrokRepository::new();
    let req = SearchRequest::default();
    let result = mock.search(&req);
    assert!(matches!(result, Err(DomainError::NotImplemented)));
}

#[test]
fn mod_mock_search_returns_not_implemented_when_empty() {
    let mut mock = MockOpengrokRepository::new();
    let req = SearchRequest::default();
    let result = mock.search(&req);
    assert!(matches!(result, Err(DomainError::NotImplemented)));
}

#[test]
fn mock_answers_in_the_order_pushed() {
    let mut mock = MockOpengrokRepository::new();
    mock.push_ok_search(empty_results(1));
    mock.push_ok_search(empty_results(2));
    let req = SearchRequest::default();
    assert_eq!(mock.search(&req).unwrap().result_count, 1);
    assert_eq!(mock.search(&req).unwrap().result_count, 2);
    assert!(matches!(mock.search(&req), Err(DomainError::NotImplemented)));
    assert_eq!(mock.search_call_count(), 3);
}

#[test]
fn mock_set_values_are_answered_every_time() {
    let mut mock = MockOpengrokRepository::new();
    assert!(matches!(mock.list_indexed_projects(), Err(DomainError::NotImplemented)));
    mock.set_indexed_projects(vec!["a".into(), "b".into()]);
    assert_eq!(mock.list_indexed_projects().unwrap(), vec!["a", "b"]);
    assert_eq!(mock.list_indexed_projects().unwrap(), vec!["a", "b"]);
    assert_eq!(mock.health_check(), Ok(true));
    mock.set_ping_alive(false);
    assert_eq!(mock.health_check(), Ok(false));
    mock.set_version("1.13".into());
    assert_eq!(mock.get_opengrok_version(), Ok("1.13".to_string()));
    assert!(matches!(mock.get_index_time(), Err(DomainError::NotImplemented)));
}
