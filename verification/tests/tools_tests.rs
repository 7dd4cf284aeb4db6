use opengrok_mcp::domain::SortOrder;
use opengrok_mcp::tools::{
    default_max_results, to_projects, AdvancedSearchParams, GetHistoryParams, SearchCodeParams,
    SearchDefinitionParams, SearchFilePathParams, SearchHistoryParams, SearchReferencesParams,
    SuggestParams,
};

#[test]
fn default_max_results_is_25() {
    assert_eq!(default_max_results(), 25);
}

#[test]
fn one_project_or_all() {
    assert_eq!(to_projects(&Some("p".into())), vec!["p".to_string()]);
    assert!(to_projects(&None).is_empty());
}

#[test]
fn simple_search_tools_set_one_field() {
    let r = SearchCodeParams { query: "q".into(), project: Some("p".into()), max_results: 7 }.to_request();
    assert_eq!(r.full.as_deref(), Some("q"));
    assert_eq!(r.projects, vec!["p".to_string()]);
    assert_eq!(r.max_results, Some(7));
    assert!(r.def.is_none() && r.sort.is_none());

    let r = SearchDefinitionParams { symbol: "s".into(), project: None, max_results: 25 }.to_request();
    assert_eq!(r.def.as_deref(), Some("s"));
    assert!(r.projects.is_empty());

    let r = SearchReferencesParams { symbol: "s".into(), project: None, max_results: 25 }.to_request();
    assert_eq!(r.symbol.as_deref(), Some("s"));

    let r = SearchFilePathParams { path: "*.rs".into(), project: None, max_results: 25 }.to_request();
    assert_eq!(r.path.as_deref(), Some("*.rs"));

    let r = SearchHistoryParams { hist: "fix".into(), project: None, max_results: 25 }.to_request();
    assert_eq!(r.hist.as_deref(), Some("fix"));
}

#[test]
fn advanced_search_parses_sort_and_truncates_start() {
    let p = AdvancedSearchParams {
        full: Some("f".into()),
        def: None,
        symbol: None,
        path: None,
        hist: None,
        file_type: Some("java".into()),
        project: Some("p".into()),
        max_results: 10,
        start: Some(4294967297),
        max_hits_per_file: Some(3),
        sort: Some("lastmodtime".into()),
    };
    let r = p.to_request();
    assert_eq!(r.sort, Some(SortOrder::LastModTime));
    assert_eq!(r.start, Some(1));
    assert_eq!(r.file_type.as_deref(), Some("java"));
    assert_eq!(r.max_hits_per_file, Some(3));

    let mut p2 = p.clone();
    p2.sort = Some("LastModTime".into());
    p2.start = Some(-1);
    let r2 = p2.to_request();
    assert_eq!(r2.sort, None);
    assert_eq!(r2.start, Some(u32::MAX));
}

#[test]
fn suggest_and_history_requests() {
    let s = SuggestParams {
        project: "p".into(),
        field: "defs".into(),
        caret: 2,
        full: None,
        defs: Some("ma".into()),
        refs: None,
        path: None,
        file_type: None,
    }
    .to_request();
    assert_eq!(s.projects, vec!["p".to_string()]);
    assert_eq!(s.field, "defs");
    assert_eq!(s.caret, 2);
    assert_eq!(s.defs.as_deref(), Some("ma"));
    assert!(s.hist.is_none());

    let h = GetHistoryParams { path: "/a".into(), start: Some(1), max: None, with_files: Some(false) }.to_request();
    assert_eq!(h.path, "/a");
    assert_eq!(h.start, Some(1));
    assert_eq!(h.with_files, Some(false));
}
