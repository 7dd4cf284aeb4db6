//! A scripted stand-in for the OpenGrok repository, for tests: each
//! operation answers with the responses pushed for it, first in, first
//! out, and with `NotImplemented` once they are used up; a few operations
//! answer with a value that is set once. Search calls are counted and the
//! last search request is kept.

use vstd::prelude::*;

use crate::domain::{
    AnnotationEntry, DirectoryEntry, DomainError, FileContent, FileDefinition, FileGenre,
    HistoryRequest, HistoryResponse, SearchRequest, SearchResults, SuggestConfig, SuggestRequest,
    Suggestion,
};

verus! {

// ---------------------------------------------------------------------------
// A queue of canned responses
// ---------------------------------------------------------------------------

/// Canned responses of one operation, answered first in, first out.
pub struct Script<T> {
    queue: Vec<Result<T, DomainError>>,
}

/// What answering from a queue does: the first response is given and
/// leaves the queue; an empty queue answers `NotImplemented`.
pub open spec fn answer_of<T>(q: Seq<Result<T, DomainError>>) -> (Seq<Result<T, DomainError>>, Result<T, DomainError>) {
    if q.len() == 0 {
        (q, Err(DomainError::NotImplemented))
    } else {
        (q.drop_first(), q[0])
    }
}

impl<T> Script<T> {
    /// The responses still to give, the next one first.
    pub closed spec fn pending(&self) -> Seq<Result<T, DomainError>> {
        self.queue@
    }

    /// An empty script.
    pub fn new() -> (s: Self)
        ensures
            s.pending() == Seq::<Result<T, DomainError>>::empty(),
    {
        Script { queue: Vec::new() }
    }

    /// Adds a response after the pending ones.
    pub fn push(&mut self, r: Result<T, DomainError>)
        ensures
            final(self).pending() == old(self).pending().push(r),
    {
        self.queue.push(r);
    }

    /// Gives the next response (see [`answer_of`]).
    pub fn next(&mut self) -> (r: Result<T, DomainError>)
        ensures
            (final(self).pending(), r) == answer_of(old(self).pending()),
    {
        if self.queue.len() == 0 {
            Err(DomainError::NotImplemented)
        } else {
            let r = self.queue.remove(0);
            assert(self.queue@ == old(self).pending().drop_first());
            r
        }
    }
}

// ---------------------------------------------------------------------------
// Copies of stored values
// ---------------------------------------------------------------------------

fn copy_strings(v: &Vec<String>) -> (r: Vec<String>)
    ensures
        r@ == v@,
{
    let r = v.clone();
    assert(r@ =~= v@);
    r
}

/// `a` and `b` hold the same request.
pub open spec fn same_request(a: SearchRequest, b: SearchRequest) -> bool {
    &&& a.full == b.full
    &&& a.def == b.def
    &&& a.symbol == b.symbol
    &&& a.path == b.path
    &&& a.hist == b.hist
    &&& a.file_type == b.file_type
    &&& a.projects@ == b.projects@
    &&& a.max_results == b.max_results
    &&& a.start == b.start
    &&& a.max_hits_per_file == b.max_hits_per_file
    &&& a.sort == b.sort
}

fn copy_request(r: &SearchRequest) -> (c: SearchRequest)
    ensures
        same_request(c, *r),
{
    SearchRequest {
        full: r.full.clone(),
        def: r.def.clone(),
        symbol: r.symbol.clone(),
        path: r.path.clone(),
        hist: r.hist.clone(),
        file_type: r.file_type.clone(),
        projects: copy_strings(&r.projects),
        max_results: r.max_results,
        start: r.start,
        max_hits_per_file: r.max_hits_per_file,
        sort: r.sort,
    }
}

/// `a` and `b` hold the same suggester configuration.
pub open spec fn same_suggest_config(a: SuggestConfig, b: SuggestConfig) -> bool {
    &&& a.enabled == b.enabled
    &&& a.max_results == b.max_results
    &&& a.min_chars == b.min_chars
    &&& match (a.allowed_projects, b.allowed_projects) {
        (Some(x), Some(y)) => x@ == y@,
        (None, None) => true,
        _ => false,
    }
    &&& a.max_projects == b.max_projects
    &&& a.allowed_fields@ == b.allowed_fields@
    &&& a.allow_complex_queries == b.allow_complex_queries
    &&& a.allow_most_popular == b.allow_most_popular
    &&& a.show_scores == b.show_scores
    &&& a.show_projects == b.show_projects
    &&& a.show_time == b.show_time
    &&& a.rebuild_cron_config == b.rebuild_cron_config
    &&& a.build_termination_time == b.build_termination_time
    &&& a.rebuild_thread_pool_size_in_ncpu_percent == b.rebuild_thread_pool_size_in_ncpu_percent
    &&& a.search_thread_pool_size_in_ncpu_percent == b.search_thread_pool_size_in_ncpu_percent
}

fn copy_suggest_config(c: &SuggestConfig) -> (r: SuggestConfig)
    ensures
        same_suggest_config(r, *c),
{
    SuggestConfig {
        enabled: c.enabled,
        max_results: c.max_results,
        min_chars: c.min_chars,
        allowed_projects: match &c.allowed_projects {
            Some(p) => Some(copy_strings(p)),
            None => None,
        },
        max_projects: c.max_projects,
        allowed_fields: copy_strings(&c.allowed_fields),
        allow_complex_queries: c.allow_complex_queries,
        allow_most_popular: c.allow_most_popular,
        show_scores: c.show_scores,
        show_projects: c.show_projects,
        show_time: c.show_time,
        rebuild_cron_config: c.rebuild_cron_config.clone(),
        build_termination_time: c.build_termination_time,
        rebuild_thread_pool_size_in_ncpu_percent: c.rebuild_thread_pool_size_in_ncpu_percent,
        search_thread_pool_size_in_ncpu_percent: c.search_thread_pool_size_in_ncpu_percent,
    }
}

/// The set list, or `NotImplemented` when none was set.
pub open spec fn set_strings_answer(v: Option<Vec<String>>, r: Result<Vec<String>, DomainError>) -> bool {
    match v {
        Some(x) => r matches Ok(y) && y@ == x@,
        None => r == Err::<Vec<String>, DomainError>(DomainError::NotImplemented),
    }
}

fn answer_strings(v: &Option<Vec<String>>) -> (r: Result<Vec<String>, DomainError>)
    ensures
        set_strings_answer(*v, r),
{
    match v {
        Some(x) => Ok(copy_strings(x)),
        None => Err(DomainError::NotImplemented),
    }
}

/// The set text, or `NotImplemented` when none was set.
pub open spec fn set_text_answer(v: Option<String>, r: Result<String, DomainError>) -> bool {
    match v {
        Some(x) => r matches Ok(y) && y@ == x@,
        None => r == Err::<String, DomainError>(DomainError::NotImplemented),
    }
}

fn answer_text(v: &Option<String>) -> (r: Result<String, DomainError>)
    ensures
        set_text_answer(*v, r),
{
    match v {
        Some(x) => Ok(x.clone()),
        None => Err(DomainError::NotImplemented),
    }
}

// ---------------------------------------------------------------------------
// The mock repository
// ---------------------------------------------------------------------------

/// The parts of the mock an operation may change.
#[derive(Debug, Clone, Copy, PartialEq, Eq)]
pub enum Slot {
    Search,
    Suggestions,
    FileContent,
    FileDefinitions,
    FileGenre,
    Directory,
    IndexedProjects,
    AllProjects,
    History,
    Annotation,
    Groups,
    GroupProjects,
    ProjectRepos,
    ProjectProperty,
    RepoProperty,
    SuggestConfig,
    PingAlive,
    Version,
    IndexTime,
}

/// In-memory scripted repository for tests.
pub struct MockOpengrokRepository {
    search_results: Script<SearchResults>,
    search_call_count: usize,
    last_search: Option<SearchRequest>,
    suggestion_results: Script<Vec<Suggestion>>,
    file_content_results: Script<FileContent>,
    file_defs_results: Script<Vec<FileDefinition>>,
    file_genre_results: Script<FileGenre>,
    dir_list_results: Script<Vec<DirectoryEntry>>,
    indexed_projects_result: Option<Vec<String>>,
    all_projects_result: Option<Vec<String>>,
    history_results: Script<HistoryResponse>,
    annotation_results: Script<Vec<AnnotationEntry>>,
    groups_result: Option<Vec<String>>,
    group_projects_results: Script<Vec<String>>,
    project_repos_results: Script<Vec<String>>,
    project_property_results: Script<String>,
    repo_property_results: Script<String>,
    suggest_config_result: Option<SuggestConfig>,
    system_ping_alive: bool,
    system_version_result: Option<String>,
    system_indextime_result: Option<String>,
}

impl MockOpengrokRepository {
    /// Pending search responses.
    pub closed spec fn searches(&self) -> Seq<Result<SearchResults, DomainError>> {
        self.search_results.pending()
    }

    /// Search calls made so far.
    pub closed spec fn search_calls(&self) -> usize {
        self.search_call_count
    }

    /// The last search request, if any search was made.
    pub closed spec fn last_search(&self) -> Option<SearchRequest> {
        self.last_search
    }

    /// Pending suggestion responses.
    pub closed spec fn suggestions(&self) -> Seq<Result<Vec<Suggestion>, DomainError>> {
        self.suggestion_results.pending()
    }

    /// Pending file content responses.
    pub closed spec fn file_contents(&self) -> Seq<Result<FileContent, DomainError>> {
        self.file_content_results.pending()
    }

    /// Pending definition responses.
    pub closed spec fn file_definitions(&self) -> Seq<Result<Vec<FileDefinition>, DomainError>> {
        self.file_defs_results.pending()
    }

    /// Pending genre responses.
    pub closed spec fn file_genres(&self) -> Seq<Result<FileGenre, DomainError>> {
        self.file_genre_results.pending()
    }

    /// Pending directory responses.
    pub closed spec fn directories(&self) -> Seq<Result<Vec<DirectoryEntry>, DomainError>> {
        self.dir_list_results.pending()
    }

    /// The indexed projects, if set.
    pub closed spec fn indexed_projects(&self) -> Option<Vec<String>> {
        self.indexed_projects_result
    }

    /// All projects, if set.
    pub closed spec fn all_projects(&self) -> Option<Vec<String>> {
        self.all_projects_result
    }

    /// Pending history responses.
    pub closed spec fn histories(&self) -> Seq<Result<HistoryResponse, DomainError>> {
        self.history_results.pending()
    }

    /// Pending annotation responses.
    pub closed spec fn annotations(&self) -> Seq<Result<Vec<AnnotationEntry>, DomainError>> {
        self.annotation_results.pending()
    }

    /// The groups, if set.
    pub closed spec fn groups(&self) -> Option<Vec<String>> {
        self.groups_result
    }

    /// Pending group project responses.
    pub closed spec fn group_projects(&self) -> Seq<Result<Vec<String>, DomainError>> {
        self.group_projects_results.pending()
    }

    /// Pending project repository responses.
    pub closed spec fn project_repos(&self) -> Seq<Result<Vec<String>, DomainError>> {
        self.project_repos_results.pending()
    }

    /// Pending project property responses.
    pub closed spec fn project_properties(&self) -> Seq<Result<String, DomainError>> {
        self.project_property_results.pending()
    }

    /// Pending repository property responses.
    pub closed spec fn repo_properties(&self) -> Seq<Result<String, DomainError>> {
        self.repo_property_results.pending()
    }

    /// The suggester configuration, if set.
    pub closed spec fn suggest_config(&self) -> Option<SuggestConfig> {
        self.suggest_config_result
    }

    /// What the health check answers.
    pub closed spec fn ping_alive(&self) -> bool {
        self.system_ping_alive
    }

    /// The version, if set.
    pub closed spec fn version(&self) -> Option<String> {
        self.system_version_result
    }

    /// The index time, if set.
    pub closed spec fn index_time(&self) -> Option<String> {
        self.system_indextime_result
    }

    /// `b` agrees with `a` on every part but `slot`.
    pub closed spec fn agrees_except(&self, b: Self, slot: Slot) -> bool {
        let a = *self;
        &&& slot != Slot::Search ==> a.search_results == b.search_results
            && a.search_call_count == b.search_call_count && a.last_search == b.last_search
        &&& slot != Slot::Suggestions ==> a.suggestion_results == b.suggestion_results
        &&& slot != Slot::FileContent ==> a.file_content_results == b.file_content_results
        &&& slot != Slot::FileDefinitions ==> a.file_defs_results == b.file_defs_results
        &&& slot != Slot::FileGenre ==> a.file_genre_results == b.file_genre_results
        &&& slot != Slot::Directory ==> a.dir_list_results == b.dir_list_results
        &&& slot != Slot::IndexedProjects ==> a.indexed_projects_result == b.indexed_projects_result
        &&& slot != Slot::AllProjects ==> a.all_projects_result == b.all_projects_result
        &&& slot != Slot::History ==> a.history_results == b.history_results
        &&& slot != Slot::Annotation ==> a.annotation_results == b.annotation_results
        &&& slot != Slot::Groups ==> a.groups_result == b.groups_result
        &&& slot != Slot::GroupProjects ==> a.group_projects_results == b.group_projects_results
        &&& slot != Slot::ProjectRepos ==> a.project_repos_results == b.project_repos_results
        &&& slot != Slot::ProjectProperty ==> a.project_property_results == b.project_property_results
        &&& slot != Slot::RepoProperty ==> a.repo_property_results == b.repo_property_results
        &&& slot != Slot::SuggestConfig ==> a.suggest_config_result == b.suggest_config_result
        &&& slot != Slot::PingAlive ==> a.system_ping_alive == b.system_ping_alive
        &&& slot != Slot::Version ==> a.system_version_result == b.system_version_result
        &&& slot != Slot::IndexTime ==> a.system_indextime_result == b.system_indextime_result
    }

    /// A mock with nothing scripted: every operation answers
    /// `NotImplemented`, except the health check, which answers alive.
    pub fn new() -> (m: Self)
        ensures
            m.searches().len() == 0,
            m.search_calls() == 0,
            m.last_search() is None,
            m.suggestions().len() == 0,
            m.file_contents().len() == 0,
            m.file_definitions().len() == 0,
            m.file_genres().len() == 0,
            m.directories().len() == 0,
            m.indexed_projects() is None,
            m.all_projects() is None,
            m.histories().len() == 0,
            m.annotations().len() == 0,
            m.groups() is None,
            m.group_projects().len() == 0,
            m.project_repos().len() == 0,
            m.project_properties().len() == 0,
            m.repo_properties().len() == 0,
            m.suggest_config() is None,
            m.ping_alive(),
            m.version() is None,
            m.index_time() is None,
    {
        MockOpengrokRepository {
            search_results: Script::new(),
            search_call_count: 0,
            last_search: None,
            suggestion_results: Script::new(),
            file_content_results: Script::new(),
            file_defs_results: Script::new(),
            file_genre_results: Script::new(),
            dir_list_results: Script::new(),
            indexed_projects_result: None,
            all_projects_result: None,
            history_results: Script::new(),
            annotation_results: Script::new(),
            groups_result: None,
            group_projects_results: Script::new(),
            project_repos_results: Script::new(),
            project_property_results: Script::new(),
            repo_property_results: Script::new(),
            suggest_config_result: None,
            system_ping_alive: true,
            system_version_result: None,
            system_indextime_result: None,
        }
    }

    // -- search scripting ----------------------------------------------------

    /// Pushes a canned search response (consumed in FIFO order).
    pub fn push_search(&mut self, result: Result<SearchResults, DomainError>)
        ensures
            final(self).searches() == old(self).searches().push(result),
            final(self).search_calls() == old(self).search_calls(),
            final(self).last_search() == old(self).last_search(),
            old(self).agrees_except(*final(self), Slot::Search),
    {
        self.search_results.push(result);
    }

    /// The number of search calls made.
    pub fn search_call_count(&self) -> (n: usize)
        ensures
            n == self.search_calls(),
    {
        self.search_call_count
    }

    /// The last request passed to `search`.
    pub fn last_search_request(&self) -> (r: Option<SearchRequest>)
        ensures
            match (r, self.last_search()) {
                (Some(a), Some(b)) => same_request(a, b),
                (None, None) => true,
                _ => false,
            },
    {
        match &self.last_search {
            Some(req) => Some(copy_request(req)),
            None => None,
        }
    }

    /// Pushes a successful search response.
    pub fn push_ok_search(&mut self, results: SearchResults)
        ensures
            final(self).searches() == old(self).searches().push(Ok(results)),
            final(self).search_calls() == old(self).search_calls(),
            final(self).last_search() == old(self).last_search(),
            old(self).agrees_except(*final(self), Slot::Search),
    {
        self.push_search(Ok(results));
    }

    /// Pushes a search error.
    pub fn push_err_search(&mut self, err: DomainError)
        ensures
            final(self).searches() == old(self).searches().push(Err(err)),
            final(self).search_calls() == old(self).search_calls(),
            final(self).last_search() == old(self).last_search(),
            old(self).agrees_except(*final(self), Slot::Search),
    {
        self.push_search(Err(err));
    }

    // -- other scripting -----------------------------------------------------

    /// Pushes a canned suggestion response.
    pub fn push_suggestions(&mut self, result: Result<Vec<Suggestion>, DomainError>)
        ensures
            final(self).suggestions() == old(self).suggestions().push(result),
            old(self).agrees_except(*final(self), Slot::Suggestions),
    {
        self.suggestion_results.push(result);
    }

    /// Pushes a canned file content response.
    pub fn push_file_content(&mut self, result: Result<FileContent, DomainError>)
        ensures
            final(self).file_contents() == old(self).file_contents().push(result),
            old(self).agrees_except(*final(self), Slot::FileContent),
    {
        self.file_content_results.push(result);
    }

    /// Pushes a canned definitions response.
    pub fn push_file_defs(&mut self, result: Result<Vec<FileDefinition>, DomainError>)
        ensures
            final(self).file_definitions() == old(self).file_definitions().push(result),
            old(self).agrees_except(*final(self), Slot::FileDefinitions),
    {
        self.file_defs_results.push(result);
    }

    /// Pushes a canned genre response.
    pub fn push_file_genre(&mut self, result: Result<FileGenre, DomainError>)
        ensures
            final(self).file_genres() == old(self).file_genres().push(result),
            old(self).agrees_except(*final(self), Slot::FileGenre),
    {
        self.file_genre_results.push(result);
    }

    /// Pushes a canned directory listing response.
    pub fn push_dir_list(&mut self, result: Result<Vec<DirectoryEntry>, DomainError>)
        ensures
            final(self).directories() == old(self).directories().push(result),
            old(self).agrees_except(*final(self), Slot::Directory),
    {
        self.dir_list_results.push(result);
    }

    /// Sets the indexed projects.
    pub fn set_indexed_projects(&mut self, projects: Vec<String>)
        ensures
            final(self).indexed_projects() == Some(projects),
            old(self).agrees_except(*final(self), Slot::IndexedProjects),
    {
        self.indexed_projects_result = Some(projects);
    }

    /// Sets all projects.
    pub fn set_all_projects(&mut self, projects: Vec<String>)
        ensures
            final(self).all_projects() == Some(projects),
            old(self).agrees_except(*final(self), Slot::AllProjects),
    {
        self.all_projects_result = Some(projects);
    }

    /// Pushes a canned history response.
    pub fn push_history(&mut self, result: Result<HistoryResponse, DomainError>)
        ensures
            final(self).histories() == old(self).histories().push(result),
            old(self).agrees_except(*final(self), Slot::History),
    {
        self.history_results.push(result);
    }

    /// Pushes a canned annotation response.
    pub fn push_annotation(&mut self, result: Result<Vec<AnnotationEntry>, DomainError>)
        ensures
            final(self).annotations() == old(self).annotations().push(result),
            old(self).agrees_except(*final(self), Slot::Annotation),
    {
        self.annotation_results.push(result);
    }

    /// Sets the groups.
    pub fn set_groups(&mut self, groups: Vec<String>)
        ensures
            final(self).groups() == Some(groups),
            old(self).agrees_except(*final(self), Slot::Groups),
    {
        self.groups_result = Some(groups);
    }

    /// Pushes a canned group projects response.
    pub fn push_group_projects(&mut self, result: Result<Vec<String>, DomainError>)
        ensures
            final(self).group_projects() == old(self).group_projects().push(result),
            old(self).agrees_except(*final(self), Slot::GroupProjects),
    {
        self.group_projects_results.push(result);
    }

    /// Pushes a canned project repositories response.
    pub fn push_project_repos(&mut self, result: Result<Vec<String>, DomainError>)
        ensures
            final(self).project_repos() == old(self).project_repos().push(result),
            old(self).agrees_except(*final(self), Slot::ProjectRepos),
    {
        self.project_repos_results.push(result);
    }

    /// Pushes a canned project property response.
    pub fn push_project_property(&mut self, result: Result<String, DomainError>)
        ensures
            final(self).project_properties() == old(self).project_properties().push(result),
            old(self).agrees_except(*final(self), Slot::ProjectProperty),
    {
        self.project_property_results.push(result);
    }

    /// Pushes a canned repository property response.
    pub fn push_repo_property(&mut self, result: Result<String, DomainError>)
        ensures
            final(self).repo_properties() == old(self).repo_properties().push(result),
            old(self).agrees_except(*final(self), Slot::RepoProperty),
    {
        self.repo_property_results.push(result);
    }

    /// Sets the suggester configuration.
    pub fn set_suggest_config(&mut self, config: SuggestConfig)
        ensures
            final(self).suggest_config() == Some(config),
            old(self).agrees_except(*final(self), Slot::SuggestConfig),
    {
        self.suggest_config_result = Some(config);
    }

    /// Sets what the health check answers.
    pub fn set_ping_alive(&mut self, alive: bool)
        ensures
            final(self).ping_alive() == alive,
            old(self).agrees_except(*final(self), Slot::PingAlive),
    {
        self.system_ping_alive = alive;
    }

    /// Sets the version.
    pub fn set_version(&mut self, version: String)
        ensures
            final(self).version() == Some(version),
            old(self).agrees_except(*final(self), Slot::Version),
    {
        self.system_version_result = Some(version);
    }

    /// Sets the index time.
    pub fn set_index_time(&mut self, time: String)
        ensures
            final(self).index_time() == Some(time),
            old(self).agrees_except(*final(self), Slot::IndexTime),
    {
        self.system_indextime_result = Some(time);
    }

    // -- the repository operations -----------------------------------------

    /// Answers a search: counts the call (wrapping, as an atomic counter
    /// does), keeps the request, and gives the next search response.
    pub fn search(&mut self, req: &SearchRequest) -> (r: Result<SearchResults, DomainError>)
        ensures
            (final(self).searches(), r) == answer_of(old(self).searches()),
            final(self).search_calls() == (if old(self).search_calls() == usize::MAX { 0 } else { (old(self).search_calls() + 1) as usize }),
            final(self).last_search() matches Some(l) && same_request(l, *req),
            old(self).agrees_except(*final(self), Slot::Search),
    {
        self.search_call_count = self.search_call_count.wrapping_add(1);
        self.last_search = Some(copy_request(req));
        self.search_results.next()
    }

    /// Answers a suggestion request with the next suggestion response.
    pub fn suggest(&mut self, _req: &SuggestRequest) -> (r: Result<Vec<Suggestion>, DomainError>)
        ensures
            (final(self).suggestions(), r) == answer_of(old(self).suggestions()),
            old(self).agrees_except(*final(self), Slot::Suggestions),
    {
        self.suggestion_results.next()
    }

    /// Answers a file read with the next file content response.
    pub fn get_file_content(&mut self, _project: &str, _path: &str) -> (r: Result<FileContent, DomainError>)
        ensures
            (final(self).file_contents(), r) == answer_of(old(self).file_contents()),
            old(self).agrees_except(*final(self), Slot::FileContent),
    {
        self.file_content_results.next()
    }

    /// Answers with the next definitions response.
    pub fn get_file_definitions(&mut self, _path: &str) -> (r: Result<Vec<FileDefinition>, DomainError>)
        ensures
            (final(self).file_definitions(), r) == answer_of(old(self).file_definitions()),
            old(self).agrees_except(*final(self), Slot::FileDefinitions),
    {
        self.file_defs_results.next()
    }

    /// Answers with the next genre response.
    pub fn get_file_genre(&mut self, _path: &str) -> (r: Result<FileGenre, DomainError>)
        ensures
            (final(self).file_genres(), r) == answer_of(old(self).file_genres()),
            old(self).agrees_except(*final(self), Slot::FileGenre),
    {
        self.file_genre_results.next()
    }

    /// Answers with the next directory listing response.
    pub fn list_directory(&mut self, _path: &str) -> (r: Result<Vec<DirectoryEntry>, DomainError>)
        ensures
            (final(self).directories(), r) == answer_of(old(self).directories()),
            old(self).agrees_except(*final(self), Slot::Directory),
    {
        self.dir_list_results.next()
    }

    /// The indexed projects that were set.
    pub fn list_indexed_projects(&self) -> (r: Result<Vec<String>, DomainError>)
        ensures
            set_strings_answer(self.indexed_projects(), r),
    {
        answer_strings(&self.indexed_projects_result)
    }

    /// All projects that were set.
    pub fn list_all_projects(&self) -> (r: Result<Vec<String>, DomainError>)
        ensures
            set_strings_answer(self.all_projects(), r),
    {
        answer_strings(&self.all_projects_result)
    }

    /// Answers with the next history response.
    pub fn get_history(&mut self, _req: &HistoryRequest) -> (r: Result<HistoryResponse, DomainError>)
        ensures
            (final(self).histories(), r) == answer_of(old(self).histories()),
            old(self).agrees_except(*final(self), Slot::History),
    {
        self.history_results.next()
    }

    /// Answers with the next annotation response.
    pub fn get_annotation(&mut self, _path: &str) -> (r: Result<Vec<AnnotationEntry>, DomainError>)
        ensures
            (final(self).annotations(), r) == answer_of(old(self).annotations()),
            old(self).agrees_except(*final(self), Slot::Annotation),
    {
        self.annotation_results.next()
    }

    /// The groups that were set.
    pub fn list_groups(&self) -> (r: Result<Vec<String>, DomainError>)
        ensures
            set_strings_answer(self.groups(), r),
    {
        answer_strings(&self.groups_result)
    }

    /// Answers with the next group projects response.
    pub fn get_group_projects(&mut self, _group: &str) -> (r: Result<Vec<String>, DomainError>)
        ensures
            (final(self).group_projects(), r) == answer_of(old(self).group_projects()),
            old(self).agrees_except(*final(self), Slot::GroupProjects),
    {
        self.group_projects_results.next()
    }

    /// Answers with the next project repositories response.
    pub fn list_project_repos(&mut self, _project: &str) -> (r: Result<Vec<String>, DomainError>)
        ensures
            (final(self).project_repos(), r) == answer_of(old(self).project_repos()),
            old(self).agrees_except(*final(self), Slot::ProjectRepos),
    {
        self.project_repos_results.next()
    }

    /// Answers with the next project property response.
    pub fn get_project_property(&mut self, _project: &str, _name: &str) -> (r: Result<String, DomainError>)
        ensures
            (final(self).project_properties(), r) == answer_of(old(self).project_properties()),
            old(self).agrees_except(*final(self), Slot::ProjectProperty),
    {
        self.project_property_results.next()
    }

    /// Answers with the next repository property response.
    pub fn get_repo_property(&mut self, _field: &str, _repository: &str) -> (r: Result<String, DomainError>)
        ensures
            (final(self).repo_properties(), r) == answer_of(old(self).repo_properties()),
            old(self).agrees_except(*final(self), Slot::RepoProperty),
    {
        self.repo_property_results.next()
    }

    /// The suggester configuration that was set.
    pub fn get_suggest_config(&self) -> (r: Result<SuggestConfig, DomainError>)
        ensures
            match self.suggest_config() {
                Some(c) => r matches Ok(x) && same_suggest_config(x, c),
                None => r == Err::<SuggestConfig, DomainError>(DomainError::NotImplemented),
            },
    {
        match &self.suggest_config_result {
            Some(c) => Ok(copy_suggest_config(c)),
            None => Err(DomainError::NotImplemented),
        }
    }

    /// The version that was set.
    pub fn get_opengrok_version(&self) -> (r: Result<String, DomainError>)
        ensures
            set_text_answer(self.version(), r),
    {
        answer_text(&self.system_version_result)
    }

    /// The index time that was set.
    pub fn get_index_time(&self) -> (r: Result<String, DomainError>)
        ensures
            set_text_answer(self.index_time(), r),
    {
        answer_text(&self.system_indextime_result)
    }

    /// Whether the backend is alive, as set.
    pub fn health_check(&self) -> (r: Result<bool, DomainError>)
        ensures
            r == Ok::<bool, DomainError>(self.ping_alive()),
    {
        Ok(self.system_ping_alive)
    }
}

/// Responses pushed for an operation come back in the order they were
/// pushed: after pushing `a` then `b` on an empty queue, the next two
/// answers are `a` and `b`, and the queue is then empty again, so that the
/// answer after them is `NotImplemented`.
pub proof fn law_responses_are_first_in_first_out<T>(a: Result<T, DomainError>, b: Result<T, DomainError>)
    ensures
        answer_of(Seq::<Result<T, DomainError>>::empty().push(a).push(b)).1 == a,
        answer_of(answer_of(Seq::<Result<T, DomainError>>::empty().push(a).push(b)).0).1 == b,
        answer_of(answer_of(answer_of(Seq::<Result<T, DomainError>>::empty().push(a).push(b)).0).0).1
            == Err::<T, DomainError>(DomainError::NotImplemented),
{
    let q = Seq::<Result<T, DomainError>>::empty().push(a).push(b);
    assert(q.drop_first() =~= seq![b]);
    assert(q.drop_first().drop_first() =~= Seq::<Result<T, DomainError>>::empty());
}

/// Pushing a response puts it behind the pending ones: the answer to the
/// next call is the oldest pending response, or the pushed one when
/// nothing was pending.
pub proof fn law_push_goes_behind_pending<T>(q: Seq<Result<T, DomainError>>, r: Result<T, DomainError>)
    ensures
        q.len() > 0 ==> answer_of(q.push(r)).1 == q[0] && answer_of(q.push(r)).0 == answer_of(q).0.push(r),
        q.len() == 0 ==> answer_of(q.push(r)).1 == r && answer_of(q.push(r)).0.len() == 0,
{
    if q.len() > 0 {
        assert(q.push(r).drop_first() =~= q.drop_first().push(r));
    } else {
        assert(q.push(r).drop_first() =~= Seq::<Result<T, DomainError>>::empty());
    }
}

} // verus!
