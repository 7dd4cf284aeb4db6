use opengrok_mcp::domain::{
    AnnotationEntry, DomainError, FileContent, FileDefinition, FileHits, HistoryEntry,
    HistoryRequest, HistoryResponse, LineNumber, SearchHit, SearchRequest, SearchResults,
    SortOrder,
};
use opengrok_mcp::mock::MockOpengrokRepository;
use opengrok_mcp::rate_limit::TokenBucket;
use opengrok_mcp::service::{search_cache_key, SearchStep, ServiceConfig, ServiceCore};

fn make_hit(line_number: u32, line: &str) -> SearchHit {
    SearchHit {
        line_number: LineNumber(line_number),
        line: line.into(),
        tag: "test".into(),
    }
}

fn one_hit(path: &str, line: &str) -> SearchResults {
    SearchResults {
        result_count: 1,
        start_document: 0,
        end_document: 0,
        duration_ms: 5,
        hits_by_file: vec![FileHits {
            path: path.into(),
            hits: vec![make_hit(1, line)],
        }],
    }
}

/// The service flow over the scripted repository: the library decides,
/// the repository answers.
struct TestService {
    core: ServiceCore,
    repo: MockOpengrokRepository,
    rate_limiter: Option<TokenBucket>,
}

impl TestService {
    fn new() -> Self {
        TestService { core: ServiceCore::new(ServiceConfig::default()), repo: MockOpengrokRepository::new(), rate_limiter: None }
    }

    fn with_cache(self, ttl_ns: u64, max_entries: usize) -> Self {
        TestService { core: self.core.with_cache(ttl_ns, max_entries), ..self }
    }

    fn with_rate_limit(self, rps: u32, burst: u32) -> Self {
        TestService { rate_limiter: Some(TokenBucket::new(rps, burst)), ..self }
    }

    fn acquire(&self) {
        if let Some(rl) = &self.rate_limiter {
            while let Some(wait) = rl.try_acquire() {
                assert!(wait.as_secs() < 1, "token not available");
            }
        }
    }

    fn search(&mut self, req: SearchRequest) -> Result<String, DomainError> {
        match self.core.prepare_search(req)? {
            SearchStep::Cached(text) => Ok(text),
            SearchStep::Fetch { request, key } => {
                self.acquire();
                let results = self.repo.search(&request)?;
                Ok(self.core.finish_search(key, &results))
            }
        }
    }

    fn get_file_content(&mut self, project: &str, path: &str) -> Result<FileContent, DomainError> {
        self.acquire();
        self.repo.get_file_content(project, path)
    }

    fn get_file_definitions(&mut self, path: &str) -> Result<String, DomainError> {
        self.acquire();
        let defs = self.repo.get_file_definitions(path)?;
        Ok(self.core.formatter().format_definitions(&defs))
    }

    fn list_indexed_projects(&mut self) -> Result<String, DomainError> {
        self.acquire();
        let projects = self.repo.list_indexed_projects()?;
        Ok(self.core.formatter().format_projects(&projects))
    }

    fn get_history(&mut self, req: HistoryRequest) -> Result<String, DomainError> {
        self.acquire();
        let history = self.repo.get_history(&req)?;
        Ok(self.core.formatter().format_history(&history))
    }

    fn get_annotation(&mut self, path: &str) -> Result<String, DomainError> {
        self.acquire();
        let entries = self.repo.get_annotation(path)?;
        Ok(self.core.formatter().format_annotation(&entries))
    }
}

#[test]
fn search_returns_formatted_results() {
    let mut svc = TestService::new();
    svc.repo.push_ok_search(one_hit("/test.rs", "hello world"));

    let req = SearchRequest { full: Some("hello".into()), ..Default::default() };
    let result = svc.search(req).unwrap();
    assert!(result.contains("Found 1 result(s)"));
    assert!(result.contains("/test.rs"));
    assert!(result.contains("hello world"));
}

#[test]
fn search_empty_query_returns_error() {
    let mut svc = TestService::new();
    let result = svc.search(SearchRequest::default());
    assert!(matches!(result, Err(DomainError::EmptyQuery)));
}

#[test]
fn search_caches_results() {
    let mut svc = TestService::new().with_cache(60_000_000_000, 100);
    svc.repo.push_ok_search(one_hit("/a.rs", "cached"));

    let req = SearchRequest { full: Some("cached".into()), ..Default::default() };

    let r1 = svc.search(req.clone()).unwrap();
    assert!(r1.contains("cached"));
    assert_eq!(svc.repo.search_call_count(), 1);

    let r2 = svc.search(req).unwrap();
    assert!(r2.contains("cached"));
    assert_eq!(svc.repo.search_call_count(), 1, "should have used cache");
}

#[test]
fn get_file_content_returns_raw_text() {
    let mut svc = TestService::new();
    svc.repo.push_file_content(Ok(FileContent { path: "/proj/main.rs".into(), text: "fn main() {}".into() }));
    let result = svc.get_file_content("proj", "main.rs").unwrap();
    assert_eq!(result.text, "fn main() {}");
}

#[test]
fn get_file_definitions_returns_formatted() {
    let mut svc = TestService::new();
    svc.repo.push_file_defs(Ok(vec![FileDefinition {
        def_type: "function".into(),
        signature: "fn foo()".into(),
        text: "pub fn foo()".into(),
        symbol: "foo".into(),
        line_start: 1,
        line_end: 3,
        line: 1,
        namespace: None,
    }]));
    let result = svc.get_file_definitions("/proj/main.rs").unwrap();
    assert!(result.contains("foo"));
    assert!(result.contains("fn foo()"));
}

#[test]
fn list_indexed_projects_returns_formatted() {
    let mut svc = TestService::new();
    svc.repo.set_indexed_projects(vec!["p1".into(), "p2".into()]);
    let result = svc.list_indexed_projects().unwrap();
    assert!(result.contains("Found 2 project(s)"));
    assert!(result.contains("p1"));
    assert!(result.contains("p2"));
}

#[test]
fn get_history_returns_formatted() {
    let mut svc = TestService::new();
    svc.repo.push_history(Ok(HistoryResponse {
        entries: vec![HistoryEntry {
            revision: "abc".into(),
            author: "dev".into(),
            date: 0,
            message: "init".into(),
            tags: vec![],
            files: vec![],
        }],
        start: 0,
        count: 1,
        total: 1,
    }));
    let req = HistoryRequest { path: "/main.rs".into(), start: None, max: None, with_files: None };
    let result = svc.get_history(req).unwrap();
    assert!(result.contains("abc"));
    assert!(result.contains("dev"));
}

#[test]
fn get_annotation_returns_formatted() {
    let mut svc = TestService::new();
    svc.repo.push_annotation(Ok(vec![AnnotationEntry {
        revision: "def".into(),
        author: "dev2".into(),
        description: "fix".into(),
        version: "1".into(),
    }]));
    let result = svc.get_annotation("/main.rs").unwrap();
    assert!(result.contains("def"));
    assert!(result.contains("dev2"));
}

#[test]
fn rate_limiter_allows_within_limit() {
    let mut svc = TestService::new().with_rate_limit(1000, 500);
    svc.repo.push_ok_search(SearchResults { result_count: 0, start_document: 0, end_document: 0, duration_ms: 0, hits_by_file: vec![] });
    let req = SearchRequest { full: Some("x".into()), ..Default::default() };
    let result = svc.search(req);
    assert!(result.is_ok());
}

#[test]
fn prepared_search_carries_the_service_defaults() {
    let mut core = ServiceCore::new(ServiceConfig { strip_html: true, max_hits_per_file: 10, default_max_results: 25 });
    let req = SearchRequest { def: Some("main".into()), max_hits_per_file: Some(50), ..Default::default() };
    match core.prepare_search(req).unwrap() {
        SearchStep::Fetch { request, key } => {
            assert_eq!(request.max_hits_per_file, Some(10));
            assert_eq!(request.max_results, Some(25));
            assert_eq!(key, None);
        }
        SearchStep::Cached(_) => panic!("nothing is cached"),
    }
}

#[test]
fn cached_answer_expires() {
    let mut core = ServiceCore::new(ServiceConfig::default()).with_cache(10, 100);
    let req = SearchRequest { full: Some("q".into()), ..Default::default() };
    let key = match core.prepare_search_at(req.clone(), 0).unwrap() {
        SearchStep::Fetch { key, .. } => key,
        SearchStep::Cached(_) => panic!("empty cache"),
    };
    let text = core.finish_search_at(key, &one_hit("/q.rs", "q"), 0);
    assert!(matches!(core.prepare_search_at(req.clone(), 9).unwrap(), SearchStep::Cached(t) if t == text));
    assert!(matches!(core.prepare_search_at(req, 10).unwrap(), SearchStep::Fetch { .. }));
}

#[test]
fn cache_key_lists_every_field() {
    let req = SearchRequest {
        full: Some("a\"b".into()),
        projects: vec!["p1".into(), "p2".into()],
        max_results: Some(25),
        sort: Some(SortOrder::LastModTime),
        max_hits_per_file: Some(10),
        ..Default::default()
    };
    assert_eq!(
        search_cache_key(&req),
        "search|f=Some(\"a\\\"b\")|d=None|s=None|p=None|h=None|t=None|pr=[\"p1\", \"p2\"]|mr=Some(25)|srt=Some(LastModTime)|st=None|mh=Some(10)"
    );
}

#[test]
fn search_without_cache_always_asks_the_repository() {
    let mut svc = TestService::new();
    svc.repo.push_ok_search(one_hit("/a.rs", "x"));
    svc.repo.push_ok_search(one_hit("/a.rs", "x"));
    let req = SearchRequest { full: Some("x".into()), ..Default::default() };
    svc.search(req.clone()).unwrap();
    svc.search(req).unwrap();
    assert_eq!(svc.repo.search_call_count(), 2);
}

#[test]
fn failed_search_is_not_cached_and_asks_again() {
    let mut svc = TestService::new().with_cache(60_000_000_000, 100);
    svc.repo.push_search(Err(DomainError::HttpStatus { status: 500, body: "down".into() }));
    svc.repo.push_ok_search(one_hit("/a.rs", "second"));

    let req = SearchRequest { full: Some("q".into()), ..Default::default() };

    let r1 = svc.search(req.clone());
    assert_eq!(r1, Err(DomainError::HttpStatus { status: 500, body: "down".into() }));
    assert_eq!(svc.repo.search_call_count(), 1);

    let r2 = svc.search(req).unwrap();
    assert!(r2.contains("second"));
    assert_eq!(svc.repo.search_call_count(), 2, "a failed search must not be cached");
}
