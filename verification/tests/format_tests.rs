use opengrok_mcp::domain::{
    AnnotationEntry, DirectoryEntry, FileDefinition, FileHits, HistoryEntry, HistoryResponse,
    LineNumber, SearchHit, SearchResults, Suggestion,
};
use opengrok_mcp::format::{strip_html_tags, FormatterConfig, ResultFormatter};

// -- strip_html_tags ----------------------------------------------------

#[test]
fn strip_b_tags() {
    assert_eq!(strip_html_tags("fn <b>main</b>()"), "fn main()");
}

#[test]
fn strip_multiple_tags() {
    assert_eq!(strip_html_tags("<b>hello</b> <b>world</b>"), "hello world");
}

#[test]
fn strip_no_tags_noop() {
    assert_eq!(strip_html_tags("plain text"), "plain text");
}

// -- format_search ------------------------------------------------------

fn make_hit(line_number: u32, line: &str, tag: &str) -> SearchHit {
    SearchHit {
        line_number: LineNumber(line_number),
        line: line.into(),
        tag: tag.into(),
    }
}

fn make_results(hits: Vec<FileHits>, result_count: u32, end_document: u32) -> SearchResults {
    SearchResults {
        result_count,
        start_document: 0,
        end_document,
        duration_ms: 10,
        hits_by_file: hits,
    }
}

#[test]
fn format_search_single_hit() {
    let formatter = ResultFormatter::default();
    let results = make_results(
        vec![FileHits {
            path: "/src/main.rs".into(),
            hits: vec![make_hit(42, "fn <b>main</b>() {}", "function")],
        }],
        1,
        0,
    );

    let output = formatter.format_search(&results);
    assert!(output.contains("Found 1 result(s) across 1 file(s)"));
    assert!(output.contains("### /src/main.rs"));
    assert!(output.contains("Line 42: fn main() {} (function)"));
}

#[test]
fn format_search_strips_html() {
    let formatter = ResultFormatter::new(FormatterConfig {
        strip_html: true,
        ..Default::default()
    });
    let results = make_results(
        vec![FileHits {
            path: "/a.rs".into(),
            hits: vec![make_hit(1, "<b>hello</b>", "")],
        }],
        1,
        0,
    );
    let output = formatter.format_search(&results);
    assert!(!output.contains("<b>"));
    assert!(output.contains("hello"));
}

#[test]
fn format_search_keeps_html_when_disabled() {
    let formatter = ResultFormatter::new(FormatterConfig {
        strip_html: false,
        ..Default::default()
    });
    let results = make_results(
        vec![FileHits {
            path: "/a.rs".into(),
            hits: vec![make_hit(1, "<b>hello</b>", "")],
        }],
        1,
        0,
    );
    let output = formatter.format_search(&results);
    assert!(output.contains("<b>hello</b>"));
}

#[test]
fn format_search_shows_has_more() {
    let formatter = ResultFormatter::default();
    let results = SearchResults {
        result_count: 50,
        start_document: 0,
        end_document: 9,
        duration_ms: 5,
        hits_by_file: vec![],
    };
    let output = formatter.format_search(&results);
    assert!(output.contains("has more results"));
    assert!(output.contains("use start=10"));
}

#[test]
fn format_search_no_more_when_complete() {
    let formatter = ResultFormatter::default();
    let results = SearchResults {
        result_count: 5,
        start_document: 0,
        end_document: 4,
        duration_ms: 5,
        hits_by_file: vec![],
    };
    let output = formatter.format_search(&results);
    assert!(!output.contains("has more results"));
}

#[test]
fn format_definitions_output() {
    let formatter = ResultFormatter::default();
    let defs = vec![FileDefinition {
        def_type: "function".into(),
        signature: "fn foo()".into(),
        text: "pub fn foo()".into(),
        symbol: "foo".into(),
        line_start: 10,
        line_end: 15,
        line: 10,
        namespace: None,
    }];
    let output = formatter.format_definitions(&defs);
    assert!(output.contains("Found 1 definition(s)"));
    assert!(output.contains("foo"));
    assert!(output.contains("fn foo()"));
}

#[test]
fn format_definitions_empty() {
    let formatter = ResultFormatter::default();
    let output = formatter.format_definitions(&[]);
    assert_eq!(output, "No definitions found.\n");
}

#[test]
fn format_directory_output() {
    let formatter = ResultFormatter::default();
    let entries = vec![
        DirectoryEntry {
            path: "/src".into(),
            is_directory: true,
            num_lines: 0,
            loc: 0,
            date: None,
            description: None,
            size: None,
        },
        DirectoryEntry {
            path: "/src/main.rs".into(),
            is_directory: false,
            num_lines: 100,
            loc: 80,
            date: Some(1712345678000),
            description: None,
            size: Some(2048),
        },
    ];
    let output = formatter.format_directory(&entries);
    assert!(output.contains("📁"));
    assert!(output.contains("📄"));
    assert!(output.contains("/src"));
    assert!(output.contains("/src/main.rs"));
}

#[test]
fn format_history_output() {
    let formatter = ResultFormatter::default();
    let history = HistoryResponse {
        entries: vec![HistoryEntry {
            revision: "abc123".into(),
            author: "dev".into(),
            date: 1700000000000,
            message: "fix bug".into(),
            tags: vec!["v1.0".into()],
            files: vec!["src/main.rs".into()],
        }],
        start: 0,
        count: 1,
        total: 100,
    };
    let output = formatter.format_history(&history);
    assert!(output.contains("Showing 1 of 100 revisions"));
    assert!(output.contains("abc123"));
    assert!(output.contains("dev"));
    assert!(output.contains("fix bug"));
}

#[test]
fn format_annotation_output() {
    let formatter = ResultFormatter::default();
    let entries = vec![AnnotationEntry {
        revision: "def456".into(),
        author: "dev2".into(),
        description: "add feature".into(),
        version: "1/5".into(),
    }];
    let output = formatter.format_annotation(&entries);
    assert!(output.contains("def456"));
    assert!(output.contains("dev2"));
}

#[test]
fn format_projects_output() {
    let formatter = ResultFormatter::default();
    let output = formatter.format_projects(&["proj-a".into(), "proj-b".into()]);
    assert!(output.contains("Found 2 project(s)"));
    assert!(output.contains("- proj-a"));
    assert!(output.contains("- proj-b"));
}

#[test]
fn format_suggestions_output() {
    let formatter = ResultFormatter::default();
    let suggestions = vec![Suggestion {
        phrase: "funcName".into(),
        projects: vec![],
        score: Some(100),
    }];
    let output = formatter.format_suggestions(&suggestions);
    assert!(output.contains("funcName"));
    assert!(output.contains("score: 100"));
}

// -- exact texts ------------------------------------------------------------

#[test]
fn format_search_exact_text() {
    let formatter = ResultFormatter::default();
    let results = make_results(
        vec![FileHits {
            path: "/a.rs".into(),
            hits: vec![make_hit(3, "x <b>y</b>", "")],
        }],
        1,
        0,
    );
    let output = formatter.format_search(&results);
    assert!(output.contains("### /a.rs\n  Line 3: x y\n"));
}

#[test]
fn format_annotation_numbers_lines_from_one() {
    let formatter = ResultFormatter::default();
    let e = AnnotationEntry {
        revision: "r".into(),
        author: "a".into(),
        description: "d".into(),
        version: "1/2".into(),
    };
    let output = formatter.format_annotation(&[e.clone(), e]);
    assert!(output.contains("Line 1: r"));
    assert!(output.contains("Line 2: r"));
    assert_eq!(formatter.format_annotation(&[]), "No annotation found.\n");
}

#[test]
fn format_search_at_the_last_representable_index_has_no_hint() {
    let f = ResultFormatter::new(FormatterConfig::default());
    let results = SearchResults {
        result_count: u32::MAX,
        start_document: 0,
        end_document: u32::MAX,
        duration_ms: 0,
        hits_by_file: vec![],
    };
    assert_eq!(f.format_search(&results), "Found 0 result(s) across 0 file(s):\n");
}
