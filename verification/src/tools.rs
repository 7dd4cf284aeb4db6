//! The parameters of the MCP tools and the requests each tool makes of the
//! service.

use vstd::prelude::*;

use crate::domain::{sort_query_value, HistoryRequest, SearchRequest, SortOrder, SuggestRequest};
use crate::text::opt_view;

verus! {

/// Number of result documents a search tool asks for when none is given.
pub fn default_max_results() -> (n: u32)
    ensures
        n == 25,
{
    25
}

// -- Search ----------------------------------------------------------------

/// Parameters of `search_code`: a full-text query.
#[derive(Debug, Clone, PartialEq, Eq)]
pub struct SearchCodeParams {
    /// Full-text search query (Lucene syntax).
    pub query: String,
    /// Project name to search in (empty = all).
    pub project: Option<String>,
    /// Maximum number of result documents.
    pub max_results: u32,
}

/// Parameters of `search_definition`.
#[derive(Debug, Clone, PartialEq, Eq)]
pub struct SearchDefinitionParams {
    /// Symbol name to find definitions for.
    pub symbol: String,
    pub project: Option<String>,
    pub max_results: u32,
}

/// Parameters of `search_references`.
#[derive(Debug, Clone, PartialEq, Eq)]
pub struct SearchReferencesParams {
    /// Symbol name to find references for.
    pub symbol: String,
    pub project: Option<String>,
    pub max_results: u32,
}

/// Parameters of `search_file_path`.
#[derive(Debug, Clone, PartialEq, Eq)]
pub struct SearchFilePathParams {
    /// File path glob pattern (Lucene syntax).
    pub path: String,
    pub project: Option<String>,
    pub max_results: u32,
}

/// Parameters of `search_history`.
#[derive(Debug, Clone, PartialEq, Eq)]
pub struct SearchHistoryParams {
    /// History search query.
    pub hist: String,
    pub project: Option<String>,
    pub max_results: u32,
}

/// Parameters of `advanced_search`: every search field, paging and sorting.
#[derive(Debug, Clone, PartialEq, Eq)]
pub struct AdvancedSearchParams {
    /// Full-text search.
    pub full: Option<String>,
    /// Definition search.
    pub def: Option<String>,
    /// Symbol/reference search.
    pub symbol: Option<String>,
    /// File path glob search.
    pub path: Option<String>,
    /// History search.
    pub hist: Option<String>,
    /// File type filter.
    pub file_type: Option<String>,
    /// Project name.
    pub project: Option<String>,
    /// Maximum result documents.
    pub max_results: u32,
    /// Pagination start index.
    pub start: Option<i64>,
    /// Maximum hits per file (0 = all).
    pub max_hits_per_file: Option<u32>,
    /// Sort order: relevancy, fullpath, lastmodtime.
    pub sort: Option<String>,
}

// -- Suggest ---------------------------------------------------------------

/// Parameters of `suggest`.
#[derive(Debug, Clone, PartialEq, Eq)]
pub struct SuggestParams {
    /// Project name.
    pub project: String,
    /// Field: full, defs, refs, path, hist, type.
    pub field: String,
    /// Caret position in the partial input.
    pub caret: u32,
    /// Full-text partial input.
    pub full: Option<String>,
    /// Definitions partial input.
    pub defs: Option<String>,
    /// References partial input.
    pub refs: Option<String>,
    /// Path partial input.
    pub path: Option<String>,
    /// Type partial input.
    pub file_type: Option<String>,
}

// -- File content / definitions / genre ------------------------------------

/// Parameters of `get_file_content`.
#[derive(Debug, Clone, PartialEq, Eq)]
pub struct GetFileContentParams {
    /// Project name.
    pub project: String,
    /// File path relative to project root.
    pub path: String,
}

/// Parameters of `get_file_definitions`.
#[derive(Debug, Clone, PartialEq, Eq)]
pub struct GetFileDefinitionsParams {
    /// File path relative to source root (starts with /).
    pub path: String,
}

/// Parameters of `get_file_genre`.
#[derive(Debug, Clone, PartialEq, Eq)]
pub struct GetFileGenreParams {
    /// File path relative to source root.
    pub path: String,
}

// -- Directory listing -----------------------------------------------------

/// Parameters of `list_directory`.
#[derive(Debug, Clone, PartialEq, Eq)]
pub struct ListDirectoryParams {
    /// Directory path relative to source root (starts with /).
    pub path: String,
}

// -- Projects --------------------------------------------------------------

/// The parameters of the tools that take none.
#[derive(Debug, Clone, PartialEq, Eq)]
pub struct NoParams {}

// -- History / Annotation --------------------------------------------------

/// Parameters of `get_history`.
#[derive(Debug, Clone, PartialEq, Eq)]
pub struct GetHistoryParams {
    /// File path relative to source root.
    pub path: String,
    /// Pagination start.
    pub start: Option<u32>,
    /// Maximum entries.
    pub max: Option<u32>,
    /// Include changed files list.
    pub with_files: Option<bool>,
}

/// Parameters of `get_annotation`.
#[derive(Debug, Clone, PartialEq, Eq)]
pub struct GetAnnotationParams {
    /// File path relative to source root.
    pub path: String,
}

// -- Groups, project files, repositories, properties -------------------------

/// Parameters of `get_group_projects`.
#[derive(Debug, Clone, PartialEq, Eq)]
pub struct GetGroupProjectsParams {
    /// Group name.
    pub group: String,
}

/// Parameters of `list_project_files`.
#[derive(Debug, Clone, PartialEq, Eq)]
pub struct ListProjectFilesParams {
    /// Project name.
    pub project: String,
}

/// Parameters of `list_project_repos`.
#[derive(Debug, Clone, PartialEq, Eq)]
pub struct ListProjectReposParams {
    /// Project name.
    pub project: String,
}

/// Parameters of `get_project_property`.
#[derive(Debug, Clone, PartialEq, Eq)]
pub struct GetProjectPropertyParams {
    /// Project name.
    pub project: String,
    /// Property name.
    pub name: String,
}

/// Parameters of `get_repo_property`.
#[derive(Debug, Clone, PartialEq, Eq)]
pub struct GetRepoPropertyParams {
    /// Property field (type, branch, working, remote, parent,
    /// currentVersion, historyEnabled).
    pub field: String,
    /// Repository path relative to source root.
    pub repository: String,
}

// ---------------------------------------------------------------------------
// The requests the tools make
// ---------------------------------------------------------------------------

/// The projects of a search: the one project given, or all (empty).
pub open spec fn projects_of(p: Option<String>) -> Seq<Seq<char>> {
    match p {
        Some(s) => seq![s@],
        None => Seq::empty(),
    }
}

/// The views of a list of strings.
pub open spec fn strings_view(v: Seq<String>) -> Seq<Seq<char>> {
    v.map_values(|s: String| s@)
}

/// The project list of a tool call: one project, or none for all.
pub fn to_projects(maybe_project: &Option<String>) -> (v: Vec<String>)
    ensures
        strings_view(v@) == projects_of(*maybe_project),
{
    let mut v: Vec<String> = Vec::new();
    match maybe_project {
        Some(p) => v.push(p.clone()),
        None => {},
    }
    assert(strings_view(v@) =~= projects_of(*maybe_project));
    v
}

/// A search request with only the given query field, the projects and the
/// document count set.
pub open spec fn simple_search(r: SearchRequest, project: Option<String>, max_results: u32) -> bool {
    &&& r.file_type is None
    &&& strings_view(r.projects@) == projects_of(project)
    &&& r.max_results == Some(max_results)
    &&& r.start is None
    &&& r.max_hits_per_file is None
    &&& r.sort is None
}

fn search_with_projects(project: &Option<String>, max_results: u32) -> (r: SearchRequest)
    ensures
        simple_search(r, *project, max_results),
        r.full is None,
        r.def is None,
        r.symbol is None,
        r.path is None,
        r.hist is None,
{
    SearchRequest {
        full: None,
        def: None,
        symbol: None,
        path: None,
        hist: None,
        file_type: None,
        projects: to_projects(project),
        max_results: Some(max_results),
        start: None,
        max_hits_per_file: None,
        sort: None,
    }
}

impl SearchCodeParams {
    /// The full-text search this tool call asks for.
    pub fn to_request(&self) -> (r: SearchRequest)
        ensures
            simple_search(r, self.project, self.max_results),
            opt_view(r.full) == Some(self.query@),
            r.def is None && r.symbol is None && r.path is None && r.hist is None,
    {
        let mut r = search_with_projects(&self.project, self.max_results);
        r.full = Some(self.query.clone());
        r
    }
}

impl SearchDefinitionParams {
    /// The definition search this tool call asks for.
    pub fn to_request(&self) -> (r: SearchRequest)
        ensures
            simple_search(r, self.project, self.max_results),
            opt_view(r.def) == Some(self.symbol@),
            r.full is None && r.symbol is None && r.path is None && r.hist is None,
    {
        let mut r = search_with_projects(&self.project, self.max_results);
        r.def = Some(self.symbol.clone());
        r
    }
}

impl SearchReferencesParams {
    /// The reference search this tool call asks for.
    pub fn to_request(&self) -> (r: SearchRequest)
        ensures
            simple_search(r, self.project, self.max_results),
            opt_view(r.symbol) == Some(self.symbol@),
            r.full is None && r.def is None && r.path is None && r.hist is None,
    {
        let mut r = search_with_projects(&self.project, self.max_results);
        r.symbol = Some(self.symbol.clone());
        r
    }
}

impl SearchFilePathParams {
    /// The file path search this tool call asks for.
    pub fn to_request(&self) -> (r: SearchRequest)
        ensures
            simple_search(r, self.project, self.max_results),
            opt_view(r.path) == Some(self.path@),
            r.full is None && r.def is None && r.symbol is None && r.hist is None,
    {
        let mut r = search_with_projects(&self.project, self.max_results);
        r.path = Some(self.path.clone());
        r
    }
}

impl SearchHistoryParams {
    /// The history search this tool call asks for.
    pub fn to_request(&self) -> (r: SearchRequest)
        ensures
            simple_search(r, self.project, self.max_results),
            opt_view(r.hist) == Some(self.hist@),
            r.full is None && r.def is None && r.symbol is None && r.path is None,
    {
        let mut r = search_with_projects(&self.project, self.max_results);
        r.hist = Some(self.hist.clone());
        r
    }
}

/// The sort order a tool's `sort` text names: one of the query values,
/// exactly; anything else means no sort order.
pub open spec fn sort_named(s: Option<String>, o: Option<SortOrder>) -> bool {
    match s {
        None => o is None,
        Some(t) => match o {
            Some(x) => sort_query_value(x) == t@,
            None => forall|x: SortOrder| sort_query_value(x) != t@,
        },
    }
}

impl AdvancedSearchParams {
    /// The search this tool call asks for: every field as given, the
    /// project as the only project, the sort order that the `sort` text
    /// names (none if it names none), and the start index truncated to 32
    /// bits.
    pub fn to_request(&self) -> (r: SearchRequest)
        ensures
            r.full == self.full,
            r.def == self.def,
            r.symbol == self.symbol,
            r.path == self.path,
            r.hist == self.hist,
            r.file_type == self.file_type,
            strings_view(r.projects@) == projects_of(self.project),
            r.max_results == Some(self.max_results),
            r.start == (match self.start {
                Some(v) => Some(v as u32),
                None => None,
            }),
            r.max_hits_per_file == self.max_hits_per_file,
            sort_named(self.sort, r.sort),
    {
        let sort = match &self.sort {
            Some(s) => SortOrder::from_query_value(s.as_str()),
            None => None,
        };
        let start = match self.start {
            Some(v) => Some(v as u32),
            None => None,
        };
        SearchRequest {
            full: self.full.clone(),
            def: self.def.clone(),
            symbol: self.symbol.clone(),
            path: self.path.clone(),
            hist: self.hist.clone(),
            file_type: self.file_type.clone(),
            projects: to_projects(&self.project),
            max_results: Some(self.max_results),
            start,
            max_hits_per_file: self.max_hits_per_file,
            sort,
        }
    }
}

impl SuggestParams {
    /// The suggestion request this tool call asks for: the one project,
    /// the field, the caret and the partial inputs (no history input).
    pub fn to_request(&self) -> (r: SuggestRequest)
        ensures
            strings_view(r.projects@) == seq![self.project@],
            r.field@ == self.field@,
            r.caret == self.caret,
            r.full == self.full,
            r.defs == self.defs,
            r.refs == self.refs,
            r.path == self.path,
            r.hist is None,
            r.file_type == self.file_type,
    {
        let mut projects: Vec<String> = Vec::new();
        projects.push(self.project.clone());
        assert(strings_view(projects@) =~= seq![self.project@]);
        SuggestRequest {
            projects,
            field: self.field.clone(),
            caret: self.caret,
            full: self.full.clone(),
            defs: self.defs.clone(),
            refs: self.refs.clone(),
            path: self.path.clone(),
            hist: None,
            file_type: self.file_type.clone(),
        }
    }
}

impl GetHistoryParams {
    /// The history request this tool call asks for.
    pub fn to_request(&self) -> (r: HistoryRequest)
        ensures
            r.path@ == self.path@,
            r.start == self.start,
            r.max == self.max,
            r.with_files == self.with_files,
    {
        HistoryRequest {
            path: self.path.clone(),
            start: self.start,
            max: self.max,
            with_files: self.with_files,
        }
    }
}

} // verus!
