//! The decisions of the application service around a search: request
//! validation and defaults, the cache key, the cache lookup before the
//! repository is asked, and the formatting and caching of the answer.
//!
//! The service's outside work (waiting for the rate limiter, calling the
//! OpenGrok repository) happens between [`ServiceCore::prepare_search`] and
//! [`ServiceCore::finish_search`], in the caller.

use vstd::prelude::*;

use crate::cache::{
    later,
    cache_get, law_get_absent, law_get_after_insert, law_missed_get_leaves_key_absent,
    law_operations_keep_invariant, lru_put, Entry,
    MemoryCache,
};
use crate::domain::{
    capped_max_hits, request_has_query, sort_debug_name, DomainError, SearchRequest,
    SearchResults, SortOrder,
};
use crate::format::{search_text, total_hits, FormatterConfig, ResultFormatter};
use crate::text::{
    decimal, lemma_decimal_digits, lemma_decimal_injective, opt_view, push_decimal, push_str,
};

verus! {

/// Settings of the application service.
#[derive(Debug, Clone, Copy, PartialEq, Eq)]
pub struct ServiceConfig {
    /// Whether to strip HTML tags from search result lines.
    pub strip_html: bool,
    /// Cap for `max_hits_per_file` on search requests.
    pub max_hits_per_file: u32,
    /// Default `max_results` for search requests.
    pub default_max_results: u32,
}

impl Default for ServiceConfig {
    /// Strip tags, at most 10 hits per file, 25 documents by default.
    fn default() -> (r: Self)
        ensures
            r == (ServiceConfig { strip_html: true, max_hits_per_file: 10, default_max_results: 25 }),
    {
        ServiceConfig { strip_html: true, max_hits_per_file: 10, default_max_results: 25 }
    }
}

// ---------------------------------------------------------------------------
// The cache key of a search
// ---------------------------------------------------------------------------

/// What `{:?}` prints for a string: the string quoted, with `"`, `\` and
/// unprintable characters escaped.
pub uninterp spec fn debug_str(s: Seq<char>) -> Seq<char>;

/// The `{:?}` text of a string (`format!("{:?}", s)`).
/// Trusted: the result is `debug_str` of the string.
#[verifier::external_body]
fn debug_quoted(s: &str) -> (r: String)
    ensures
        r@ == debug_str(s@),
{
    format!("{:?}", s)
}

/// `{:?}` of an optional string.
pub open spec fn opt_str_debug(o: Option<String>) -> Seq<char> {
    match o {
        Some(s) => "Some("@ + debug_str(s@) + ")"@,
        None => "None"@,
    }
}

/// `{:?}` of an optional number.
pub open spec fn opt_num_debug(o: Option<u32>) -> Seq<char> {
    match o {
        Some(n) => "Some("@ + decimal(n as nat) + ")"@,
        None => "None"@,
    }
}

/// The items of a list of strings, each as `{:?}` prints it, separated by
/// `, `.
pub open spec fn debug_items(v: Seq<String>) -> Seq<char>
    decreases v.len(),
{
    if v.len() == 0 {
        Seq::empty()
    } else if v.len() == 1 {
        debug_str(v[0]@)
    } else {
        debug_items(v.drop_last()) + ", "@ + debug_str(v.last()@)
    }
}

/// The cache key of a search: every field of the request, as `{:?}`
/// prints it, after a label.
pub open spec fn search_key(r: SearchRequest) -> Seq<char> {
    "search|f="@ + opt_str_debug(r.full) + "|d="@ + opt_str_debug(r.def) + "|s="@
        + opt_str_debug(r.symbol) + "|p="@ + opt_str_debug(r.path) + "|h="@
        + opt_str_debug(r.hist) + "|t="@ + opt_str_debug(r.file_type) + "|pr=["@
        + debug_items(r.projects@) + "]|mr="@ + opt_num_debug(r.max_results) + "|srt="@
        + match r.sort {
            Some(o) => "Some("@ + sort_debug_name(o) + ")"@,
            None => "None"@,
        } + "|st="@ + opt_num_debug(r.start) + "|mh="@ + opt_num_debug(r.max_hits_per_file)
}

/// No character of `s` is a `|`.
pub open spec fn bar_free(s: Seq<char>) -> bool {
    forall|i: int| 0 <= i < s.len() ==> #[trigger] s[i] != '|'
}

proof fn lemma_split_at_last_bar(a1: Seq<char>, b1: Seq<char>, a2: Seq<char>, b2: Seq<char>)
    requires
        a1 + seq!['|'] + b1 == a2 + seq!['|'] + b2,
        bar_free(b1),
        bar_free(b2),
    ensures
        a1 == a2,
        b1 == b2,
{
    let s = a1 + seq!['|'] + b1;
    let t = a2 + seq!['|'] + b2;
    assert(s.len() == a1.len() + 1 + b1.len());
    assert(t.len() == a2.len() + 1 + b2.len());
    if b1.len() < b2.len() {
        let k = a1.len() as int;
        assert(s[k] == '|');
        assert(t[k] == b2[k - a2.len() - 1]);
        assert(b2[k - a2.len() - 1] != '|');
    } else if b2.len() < b1.len() {
        let k = a2.len() as int;
        assert(t[k] == '|');
        assert(s[k] == b1[k - a1.len() - 1]);
        assert(b1[k - a1.len() - 1] != '|');
    }
    assert(a1 =~= s.subrange(0, a1.len() as int));
    assert(a2 =~= t.subrange(0, a2.len() as int));
    assert(b1 =~= s.subrange((a1.len() + 1) as int, s.len() as int));
    assert(b2 =~= t.subrange((a2.len() + 1) as int, t.len() as int));
}

proof fn lemma_labelled(label: Seq<char>, d: Seq<char>)
    requires
        bar_free(label),
        bar_free(d),
    ensures
        bar_free(label + d),
        (label + d).subrange(label.len() as int, (label + d).len() as int) == d,
{
    assert forall|i: int| 0 <= i < (label + d).len() implies #[trigger] (label + d)[i] != '|' by {
        if i < label.len() {
            assert((label + d)[i] == label[i]);
        } else {
            assert((label + d)[i] == d[i - label.len()]);
        }
    }
    assert((label + d).subrange(label.len() as int, (label + d).len() as int) =~= d);
}

proof fn lemma_opt_num_debug(o1: Option<u32>, o2: Option<u32>)
    ensures
        bar_free(opt_num_debug(o1)),
        opt_num_debug(o1) == opt_num_debug(o2) ==> o1 == o2,
{
    reveal_strlit("Some(");
    reveal_strlit(")");
    reveal_strlit("None");
    let d1 = opt_num_debug(o1);
    let d2 = opt_num_debug(o2);
    if let Some(n) = o1 {
        lemma_decimal_digits(n as nat);
        let dn = decimal(n as nat);
        assert forall|i: int| 0 <= i < d1.len() implies #[trigger] d1[i] != '|' by {
            if 5 <= i < 5 + dn.len() {
                assert(d1[i] == dn[i - 5]);
            }
        }
    }
    if d1 == d2 {
        match (o1, o2) {
            (Some(a), Some(b)) => {
                let da = decimal(a as nat);
                let db = decimal(b as nat);
                assert(da =~= d1.subrange(5, (5 + da.len()) as int));
                assert(db =~= d2.subrange(5, (5 + db.len()) as int));
                lemma_decimal_injective(a as nat, b as nat);
            },
            (Some(_), None) => {
                assert(d1[0] != d2[0]);
            },
            (None, Some(_)) => {
                assert(d1[0] != d2[0]);
            },
            (None, None) => {},
        }
    }
}

/// How the cache key prints a sort order.
pub open spec fn sort_debug(o: Option<SortOrder>) -> Seq<char> {
    match o {
        Some(x) => "Some("@ + sort_debug_name(x) + ")"@,
        None => "None"@,
    }
}

proof fn lemma_sort_debug(o1: Option<SortOrder>, o2: Option<SortOrder>)
    ensures
        bar_free(sort_debug(o1)),
        sort_debug(o1) == sort_debug(o2) ==> o1 == o2,
{
    reveal_strlit("Some(");
    reveal_strlit(")");
    reveal_strlit("None");
    reveal_strlit("Relevancy");
    reveal_strlit("FullPath");
    reveal_strlit("LastModTime");
    let d1 = sort_debug(o1);
    let d2 = sort_debug(o2);
    if d1 == d2 {
        match (o1, o2) {
            (Some(_), None) => {
                assert(d1[0] != d2[0]);
            },
            (None, Some(_)) => {
                assert(d1[0] != d2[0]);
            },
            _ => {
                assert(d1.len() == d2.len());
            },
        }
    }
}

/// The front of a cache key: everything before `|mr=`.
spec fn key_front(r: SearchRequest) -> Seq<char> {
    "search|f="@ + opt_str_debug(r.full) + "|d="@ + opt_str_debug(r.def) + "|s="@
        + opt_str_debug(r.symbol) + "|p="@ + opt_str_debug(r.path) + "|h="@
        + opt_str_debug(r.hist) + "|t="@ + opt_str_debug(r.file_type) + "|pr=["@
        + debug_items(r.projects@) + seq![']']
}

proof fn lemma_regroup(t: Seq<char>, a: Seq<char>, b: Seq<char>, c: Seq<char>)
    ensures
        t + (a + b) + c == t + a + (b + c),
{
    assert(t + (a + b) + c =~= t + a + (b + c));
}

proof fn lemma_key_labels()
    ensures
        "]|mr="@ == seq![']'] + (seq!['|'] + seq!['m', 'r', '=']),
        "|srt="@ == seq!['|'] + seq!['s', 'r', 't', '='],
        "|st="@ == seq!['|'] + seq!['s', 't', '='],
        "|mh="@ == seq!['|'] + seq!['m', 'h', '='],
{
    reveal_strlit("]|mr=");
    reveal_strlit("|srt=");
    reveal_strlit("|st=");
    reveal_strlit("|mh=");
    assert("]|mr="@ =~= seq![']'] + (seq!['|'] + seq!['m', 'r', '=']));
    assert("|srt="@ =~= seq!['|'] + seq!['s', 'r', 't', '=']);
    assert("|st="@ =~= seq!['|'] + seq!['s', 't', '=']);
    assert("|mh="@ =~= seq!['|'] + seq!['m', 'h', '=']);
}

proof fn lemma_key_shape(r: SearchRequest)
    ensures
        search_key(r) == key_front(r) + seq!['|'] + (seq!['m', 'r', '='] + opt_num_debug(r.max_results))
            + seq!['|'] + (seq!['s', 'r', 't', '='] + sort_debug(r.sort)) + seq!['|'] + (seq!['s', 't', '=']
            + opt_num_debug(r.start)) + seq!['|'] + (seq!['m', 'h', '='] + opt_num_debug(r.max_hits_per_file)),
{
    lemma_key_labels();
    let f = "search|f="@ + opt_str_debug(r.full) + "|d="@ + opt_str_debug(r.def) + "|s="@
        + opt_str_debug(r.symbol) + "|p="@ + opt_str_debug(r.path) + "|h="@
        + opt_str_debug(r.hist) + "|t="@ + opt_str_debug(r.file_type) + "|pr=["@
        + debug_items(r.projects@);
    let bar = seq!['|'];
    let x = opt_num_debug(r.max_results);
    let y = sort_debug(r.sort);
    let z = opt_num_debug(r.start);
    let w = opt_num_debug(r.max_hits_per_file);
    let s1 = f + "]|mr="@ + x;
    let s2 = s1 + "|srt="@ + y;
    let s3 = s2 + "|st="@ + z;
    let s4 = s3 + "|mh="@ + w;
    assert(search_key(r) == s4);
    assert(key_front(r) == f + seq![']']);
    assert(f + (seq![']'] + (bar + seq!['m', 'r', '='])) + x == (f + seq![']']) + bar + (seq!['m', 'r', '='] + x)) by {
        assert(f + (seq![']'] + (bar + seq!['m', 'r', '='])) + x =~= (f + seq![']']) + bar + (seq!['m', 'r', '='] + x));
    }
    lemma_regroup(s1, bar, seq!['s', 'r', 't', '='], y);
    lemma_regroup(s2, bar, seq!['s', 't', '='], z);
    lemma_regroup(s3, bar, seq!['m', 'h', '='], w);
}

proof fn lemma_four_tails(
    f1: Seq<char>, x1: Seq<char>, y1: Seq<char>, z1: Seq<char>, w1: Seq<char>,
    f2: Seq<char>, x2: Seq<char>, y2: Seq<char>, z2: Seq<char>, w2: Seq<char>,
)
    requires
        f1 + seq!['|'] + x1 + seq!['|'] + y1 + seq!['|'] + z1 + seq!['|'] + w1
            == f2 + seq!['|'] + x2 + seq!['|'] + y2 + seq!['|'] + z2 + seq!['|'] + w2,
        bar_free(x1), bar_free(y1), bar_free(z1), bar_free(w1),
        bar_free(x2), bar_free(y2), bar_free(z2), bar_free(w2),
    ensures
        x1 == x2, y1 == y2, z1 == z2, w1 == w2,
{
    let bar = seq!['|'];
    lemma_split_at_last_bar(f1 + bar + x1 + bar + y1 + bar + z1, w1, f2 + bar + x2 + bar + y2 + bar + z2, w2);
    lemma_split_at_last_bar(f1 + bar + x1 + bar + y1, z1, f2 + bar + x2 + bar + y2, z2);
    lemma_split_at_last_bar(f1 + bar + x1, y1, f2 + bar + x2, y2);
    lemma_split_at_last_bar(f1, x1, f2, x2);
}

proof fn lemma_label_cancel(label: Seq<char>, d1: Seq<char>, d2: Seq<char>)
    requires
        label + d1 == label + d2,
    ensures
        d1 == d2,
{
    assert(d1 =~= (label + d1).subrange(label.len() as int, (label + d1).len() as int));
    assert(d2 =~= (label + d2).subrange(label.len() as int, (label + d2).len() as int));
}

proof fn lemma_key_tail_fields(r1: SearchRequest, r2: SearchRequest)
    requires
        search_key(r1) == search_key(r2),
    ensures
        r1.start == r2.start,
        r1.max_results == r2.max_results,
        r1.sort == r2.sort,
        r1.max_hits_per_file == r2.max_hits_per_file,
{
    let mr = seq!['m', 'r', '='];
    let srt = seq!['s', 'r', 't', '='];
    let st = seq!['s', 't', '='];
    let mh = seq!['m', 'h', '='];
    assert(bar_free(mr) && bar_free(srt) && bar_free(st) && bar_free(mh));
    lemma_opt_num_debug(r1.max_results, r2.max_results);
    lemma_opt_num_debug(r2.max_results, r1.max_results);
    lemma_opt_num_debug(r1.start, r2.start);
    lemma_opt_num_debug(r2.start, r1.start);
    lemma_opt_num_debug(r1.max_hits_per_file, r2.max_hits_per_file);
    lemma_opt_num_debug(r2.max_hits_per_file, r1.max_hits_per_file);
    lemma_sort_debug(r1.sort, r2.sort);
    lemma_sort_debug(r2.sort, r1.sort);
    lemma_labelled(mr, opt_num_debug(r1.max_results));
    lemma_labelled(mr, opt_num_debug(r2.max_results));
    lemma_labelled(srt, sort_debug(r1.sort));
    lemma_labelled(srt, sort_debug(r2.sort));
    lemma_labelled(st, opt_num_debug(r1.start));
    lemma_labelled(st, opt_num_debug(r2.start));
    lemma_labelled(mh, opt_num_debug(r1.max_hits_per_file));
    lemma_labelled(mh, opt_num_debug(r2.max_hits_per_file));
    lemma_key_shape(r1);
    lemma_key_shape(r2);
    lemma_four_tails(
        key_front(r1), mr + opt_num_debug(r1.max_results), srt + sort_debug(r1.sort),
        st + opt_num_debug(r1.start), mh + opt_num_debug(r1.max_hits_per_file),
        key_front(r2), mr + opt_num_debug(r2.max_results), srt + sort_debug(r2.sort),
        st + opt_num_debug(r2.start), mh + opt_num_debug(r2.max_hits_per_file),
    );
    lemma_label_cancel(mr, opt_num_debug(r1.max_results), opt_num_debug(r2.max_results));
    lemma_label_cancel(srt, sort_debug(r1.sort), sort_debug(r2.sort));
    lemma_label_cancel(st, opt_num_debug(r1.start), opt_num_debug(r2.start));
    lemma_label_cancel(mh, opt_num_debug(r1.max_hits_per_file), opt_num_debug(r2.max_hits_per_file));
}

proof fn lemma_key_full_presence(r1: SearchRequest, r2: SearchRequest)
    requires
        (r1.full is Some) != (r2.full is Some),
    ensures
        search_key(r1) != search_key(r2),
{
    reveal_strlit("search|f=");
    reveal_strlit("Some(");
    reveal_strlit("None");
    let h = "search|f="@;
    let k1 = h + opt_str_debug(r1.full);
    let k2 = h + opt_str_debug(r2.full);
    assert(search_key(r1)[9] == k1[9]);
    assert(search_key(r2)[9] == k2[9]);
    assert(k1[9] == opt_str_debug(r1.full)[0]);
    assert(k2[9] == opt_str_debug(r2.full)[0]);
}

/// The cache key tells pages and page shapes apart: two searches with the
/// same key ask for the same page (`start`), the same number of results,
/// the same sort order and the same number of hits per file; and a search
/// with a full-text query never shares its key with one without. So a
/// cached answer is never served for another page of the same query.
pub proof fn law_cache_key_tells_pages_apart(r1: SearchRequest, r2: SearchRequest)
    ensures
        search_key(r1) == search_key(r2) ==> r1.start == r2.start && r1.max_results == r2.max_results
            && r1.sort == r2.sort && r1.max_hits_per_file == r2.max_hits_per_file,
        (r1.full is Some) != (r2.full is Some) ==> search_key(r1) != search_key(r2),
{
    if search_key(r1) == search_key(r2) {
        lemma_key_tail_fields(r1, r2);
    }
    if (r1.full is Some) != (r2.full is Some) {
        lemma_key_full_presence(r1, r2);
    }
}

fn push_opt_str_debug(out: &mut String, o: &Option<String>)
    ensures
        final(out)@ == old(out)@ + opt_str_debug(*o),
{
    proof {
        reveal_strlit("Some(");
        reveal_strlit(")");
        reveal_strlit("None");
    }
    match o {
        Some(s) => {
            push_str(out, "Some(");
            let d = debug_quoted(s.as_str());
            push_str(out, d.as_str());
            push_str(out, ")");
        },
        None => push_str(out, "None"),
    }
}

fn push_opt_num_debug(out: &mut String, o: Option<u32>)
    ensures
        final(out)@ == old(out)@ + opt_num_debug(o),
{
    proof {
        reveal_strlit("Some(");
        reveal_strlit(")");
        reveal_strlit("None");
    }
    match o {
        Some(n) => {
            push_str(out, "Some(");
            push_decimal(out, n as u64);
            push_str(out, ")");
        },
        None => push_str(out, "None"),
    }
}

fn push_debug_items(out: &mut String, v: &Vec<String>)
    ensures
        final(out)@ == old(out)@ + debug_items(v@),
{
    let ghost start = out@;
    let mut i: usize = 0;
    proof { reveal_strlit(", "); }
    assert(start + debug_items(v@.take(0)) =~= start);
    while i < v.len()
        invariant
            i <= v@.len(),
            out@ == start + debug_items(v@.take(i as int)),
        decreases v@.len() - i,
    {
        let ghost before = out@;
        if i > 0 {
            push_str(out, ", ");
        }
        let d = debug_quoted(v[i].as_str());
        push_str(out, d.as_str());
        i = i + 1;
        proof {
            let t = v@.take(i as int);
            assert(t.drop_last() == v@.take((i - 1) as int));
            assert(t.last() == v@[i - 1]);
            if i == 1 {
                assert(t.len() == 1 && t[0] == v@[0]);
                assert(out@ == start + debug_items(t));
            } else {
                assert(out@ == before + ", "@ + debug_str(v@[i - 1]@));
                assert(start + debug_items(t) == (start + debug_items(v@.take((i - 1) as int))) + ", "@ + debug_str(v@[i - 1]@));
            }
        }
    }
    assert(v@.take(v@.len() as int) == v@);
}

/// The cache key of a search (see [`search_key`]).
pub fn search_cache_key(req: &SearchRequest) -> (k: String)
    ensures
        k@ == search_key(*req),
{
    proof {
        reveal_strlit("search|f=");
        reveal_strlit("|d=");
        reveal_strlit("|s=");
        reveal_strlit("|p=");
        reveal_strlit("|h=");
        reveal_strlit("|t=");
        reveal_strlit("|pr=[");
        reveal_strlit("]|mr=");
        reveal_strlit("|srt=");
        reveal_strlit("Some(");
        reveal_strlit(")");
        reveal_strlit("None");
        reveal_strlit("|st=");
        reveal_strlit("|mh=");
    }
    let mut k = String::from_str("search|f=");
    push_opt_str_debug(&mut k, &req.full);
    push_str(&mut k, "|d=");
    push_opt_str_debug(&mut k, &req.def);
    push_str(&mut k, "|s=");
    push_opt_str_debug(&mut k, &req.symbol);
    push_str(&mut k, "|p=");
    push_opt_str_debug(&mut k, &req.path);
    push_str(&mut k, "|h=");
    push_opt_str_debug(&mut k, &req.hist);
    push_str(&mut k, "|t=");
    push_opt_str_debug(&mut k, &req.file_type);
    push_str(&mut k, "|pr=[");
    push_debug_items(&mut k, &req.projects);
    push_str(&mut k, "]|mr=");
    push_opt_num_debug(&mut k, req.max_results);
    push_str(&mut k, "|srt=");
    match req.sort {
        Some(o) => {
            push_str(&mut k, "Some(");
            push_str(&mut k, o.debug_name());
            push_str(&mut k, ")");
        },
        None => push_str(&mut k, "None"),
    }
    push_str(&mut k, "|st=");
    push_opt_num_debug(&mut k, req.start);
    push_str(&mut k, "|mh=");
    push_opt_num_debug(&mut k, req.max_hits_per_file);
    k
}

// ---------------------------------------------------------------------------
// The service core
// ---------------------------------------------------------------------------

/// `r` with the service defaults applied: the hit cap and the default
/// number of documents.
pub open spec fn defaulted(r: SearchRequest, c: ServiceConfig) -> SearchRequest {
    SearchRequest {
        max_hits_per_file: Some(capped_max_hits(r.max_hits_per_file, c.max_hits_per_file)),
        max_results: match r.max_results {
            Some(m) => Some(m),
            None => Some(c.default_max_results),
        },
        ..r
    }
}

/// The next step of a search after its preparation.
#[derive(Debug)]
pub enum SearchStep {
    /// The answer was in the cache; the repository is not asked.
    Cached(String),
    /// The repository must be asked for `request`; its formatted answer is
    /// then cached under `key` (when there is a cache).
    Fetch { request: SearchRequest, key: Option<String> },
}

/// The state the application service keeps: the optional result cache,
/// the formatter and the settings.
pub struct ServiceCore {
    cache: Option<MemoryCache>,
    formatter: ResultFormatter,
    config: ServiceConfig,
}

impl ServiceCore {
    /// The settings.
    pub closed spec fn settings(&self) -> ServiceConfig {
        self.config
    }

    /// Whether results are cached.
    pub closed spec fn caching(&self) -> bool {
        self.cache is Some
    }

    /// The cache entries (empty without a cache).
    pub closed spec fn cache_entries(&self) -> Seq<Entry> {
        match self.cache {
            Some(c) => c.entries(),
            None => Seq::empty(),
        }
    }

    /// The cache's clock floor: the latest time it has read or been given
    /// (0 without a cache).
    pub closed spec fn cache_clock(&self) -> u64 {
        match self.cache {
            Some(c) => c.clock(),
            None => 0,
        }
    }

    /// The cache capacity.
    pub closed spec fn cache_capacity(&self) -> nat {
        match self.cache {
            Some(c) => c.capacity(),
            None => 0,
        }
    }

    /// The time-to-live of cached answers, in nanoseconds.
    pub closed spec fn cache_ttl(&self) -> u64 {
        match self.cache {
            Some(c) => c.ttl(),
            None => 0,
        }
    }

    /// Whether the formatter strips `<b>` tags from search lines.
    pub closed spec fn strips_html(&self) -> bool {
        self.formatter.strips_html()
    }

    /// The prefix of every formatted item line.
    pub closed spec fn line_prefix(&self) -> Seq<char> {
        self.formatter.prefix()
    }

    /// The invariant: a cache, if there is one, is well formed, and the
    /// formatter strips tags exactly when the settings say so.
    pub closed spec fn wf(&self) -> bool {
        &&& match self.cache {
            Some(c) => c.wf(),
            None => true,
        }
        &&& self.strips_html() == self.settings().strip_html
    }

    /// A service without cache; its formatter strips tags as the settings
    /// say and indents item lines by two spaces.
    pub fn new(config: ServiceConfig) -> (s: Self)
        ensures
            s.wf(),
            !s.caching(),
            s.settings() == config,
            s.strips_html() == config.strip_html,
            s.line_prefix() == "  "@,
    {
        let mut fc = FormatterConfig::default();
        fc.strip_html = config.strip_html;
        ServiceCore { cache: None, formatter: ResultFormatter::new(fc), config }
    }

    /// Enables caching with the given TTL (nanoseconds) and maximum entry
    /// count; the cache starts empty.
    pub fn with_cache(self, ttl_ns: u64, max_entries: usize) -> (s: Self)
        requires
            self.wf(),
            max_entries > 0,
        ensures
            s.wf(),
            s.caching(),
            s.cache_entries() == Seq::<Entry>::empty(),
            s.cache_capacity() == max_entries,
            s.cache_ttl() == ttl_ns,
            s.settings() == self.settings(),
            s.strips_html() == self.strips_html(),
            s.line_prefix() == self.line_prefix(),
    {
        ServiceCore {
            cache: Some(MemoryCache::new(ttl_ns, max_entries)),
            formatter: self.formatter,
            config: self.config,
        }
    }

    /// The formatter, for the answers of the other operations.
    pub fn formatter(&self) -> (f: &ResultFormatter)
        ensures
            f.strips_html() == self.strips_html(),
            f.prefix() == self.line_prefix(),
    {
        &self.formatter
    }

    /// Prepares a search at time `now` (nanoseconds of the cache clock):
    /// a request without query is refused; otherwise the defaults are
    /// applied and, with a cache, the answer is looked up under the
    /// request's key.
    pub fn prepare_search_at(&mut self, req: SearchRequest, now: u64) -> (r: Result<SearchStep, DomainError>)
        requires
            old(self).wf(),
        ensures
            final(self).wf(),
            final(self).settings() == old(self).settings(),
            final(self).caching() == old(self).caching(),
            final(self).cache_capacity() == old(self).cache_capacity(),
            final(self).cache_ttl() == old(self).cache_ttl(),
            final(self).strips_html() == old(self).strips_html(),
            final(self).line_prefix() == old(self).line_prefix(),
            !request_has_query(req) ==> r == Err::<SearchStep, DomainError>(DomainError::EmptyQuery)
                && final(self).cache_entries() == old(self).cache_entries(),
            request_has_query(req) ==> search_prepared(*old(self), *final(self), req, now, r),
            request_has_query(req) && old(self).caching()
                ==> final(self).cache_clock() == later(old(self).cache_clock(), now),
            final(self).cache_clock() >= old(self).cache_clock(),
    {
        if !req.has_query() {
            return Err(DomainError::EmptyQuery);
        }
        let req = req.with_defaults(self.config.max_hits_per_file, self.config.default_max_results);
        match &mut self.cache {
            None => Ok(SearchStep::Fetch { request: req, key: None }),
            Some(cache) => {
                let key = search_cache_key(&req);
                match cache.get_at(&key, now) {
                    Some(v) => Ok(SearchStep::Cached(v)),
                    None => Ok(SearchStep::Fetch { request: req, key: Some(key) }),
                }
            },
        }
    }

    /// Reads the cache clock in nanoseconds (0 without a cache); it never
    /// reads earlier than before. Nothing else changes.
    fn clock_ns(&mut self) -> (t: u64)
        requires
            old(self).wf(),
        ensures
            final(self).wf(),
            !old(self).caching() ==> t == 0,
            t >= old(self).cache_clock(),
            final(self).cache_clock() == (if old(self).caching() { t } else { 0 }),
            final(self).settings() == old(self).settings(),
            final(self).caching() == old(self).caching(),
            final(self).cache_entries() == old(self).cache_entries(),
            final(self).cache_capacity() == old(self).cache_capacity(),
            final(self).cache_ttl() == old(self).cache_ttl(),
            final(self).strips_html() == old(self).strips_html(),
            final(self).line_prefix() == old(self).line_prefix(),
    {
        match &mut self.cache {
            Some(c) => c.clock_ns(),
            None => 0,
        }
    }

    /// Prepares a search at the current time (see
    /// [`ServiceCore::prepare_search_at`]).
    pub fn prepare_search(&mut self, req: SearchRequest) -> (r: Result<SearchStep, DomainError>)
        requires
            old(self).wf(),
        ensures
            final(self).wf(),
            final(self).settings() == old(self).settings(),
            final(self).caching() == old(self).caching(),
            final(self).cache_capacity() == old(self).cache_capacity(),
            final(self).cache_ttl() == old(self).cache_ttl(),
            final(self).strips_html() == old(self).strips_html(),
            final(self).line_prefix() == old(self).line_prefix(),
            !request_has_query(req) ==> r == Err::<SearchStep, DomainError>(DomainError::EmptyQuery)
                && *final(self) == *old(self),
            request_has_query(req) ==> search_prepared(*old(self), *final(self), req, final(self).cache_clock(), r),
            final(self).cache_clock() >= old(self).cache_clock(),
    {
        if !req.has_query() {
            return Err(DomainError::EmptyQuery);
        }
        let ghost before = *self;
        let now = self.clock_ns();
        let ghost read = *self;
        let r = self.prepare_search_at(req, now);
        assert(search_prepared(read, *self, req, now, r) == search_prepared(before, *self, req, now, r));
        r
    }

    /// Finishes a search at the current time (see
    /// [`ServiceCore::finish_search_at`]).
    pub fn finish_search(&mut self, key: Option<String>, results: &SearchResults) -> (s: String)
        requires
            old(self).wf(),
            total_hits(results.hits_by_file@) <= usize::MAX,
        ensures
            final(self).wf(),
            final(self).settings() == old(self).settings(),
            final(self).caching() == old(self).caching(),
            final(self).cache_capacity() == old(self).cache_capacity(),
            final(self).cache_ttl() == old(self).cache_ttl(),
            final(self).strips_html() == old(self).strips_html(),
            final(self).line_prefix() == old(self).line_prefix(),
            search_finished(*old(self), *final(self), opt_view(key), *results, final(self).cache_clock(), s@),
            final(self).cache_clock() >= old(self).cache_clock(),
    {
        let ghost before = *self;
        let ghost k = opt_view(key);
        let now = self.clock_ns();
        let ghost read = *self;
        let s = self.finish_search_at(key, results, now);
        assert(search_finished(read, *self, k, *results, now, s@) == search_finished(before, *self, k, *results, now, s@));
        s
    }

    /// Finishes a search: formats the repository's results and, when a
    /// key is given and there is a cache, stores the text under it as of
    /// time `now`.
    pub fn finish_search_at(&mut self, key: Option<String>, results: &SearchResults, now: u64) -> (s: String)
        requires
            old(self).wf(),
            total_hits(results.hits_by_file@) <= usize::MAX,
        ensures
            final(self).wf(),
            final(self).settings() == old(self).settings(),
            final(self).caching() == old(self).caching(),
            final(self).cache_capacity() == old(self).cache_capacity(),
            final(self).cache_ttl() == old(self).cache_ttl(),
            final(self).strips_html() == old(self).strips_html(),
            final(self).line_prefix() == old(self).line_prefix(),
            search_finished(*old(self), *final(self), opt_view(key), *results, now, s@),
            final(self).cache_clock() == (if old(self).caching() && key is Some {
                later(old(self).cache_clock(), now)
            } else {
                old(self).cache_clock()
            }),
    {
        let text = self.formatter.format_search(results);
        if let Some(k) = key {
            if let Some(cache) = &mut self.cache {
                cache.insert_at(k, text.clone(), now);
            }
        }
        text
    }
}

/// What a prepared search gives for a request with a query: the request
/// with defaults, and, with a cache, the lookup of its key at `now` (a
/// fresh hit answers, anything else asks the repository).
pub open spec fn search_prepared(
    old: ServiceCore,
    new: ServiceCore,
    req: SearchRequest,
    now: u64,
    r: Result<SearchStep, DomainError>,
) -> bool {
    let d = defaulted(req, old.settings());
    if old.caching() {
        let (entries, found) = cache_get(old.cache_entries(), search_key(d), now, old.cache_ttl());
        &&& new.cache_entries() == entries
        &&& match found {
            Some(v) => r matches Ok(SearchStep::Cached(t)) && t@ == v,
            None => r matches Ok(SearchStep::Fetch { request, key })
                && request == d && opt_view(key) == Some(search_key(d)),
        }
    } else {
        &&& new.cache_entries() == old.cache_entries()
        &&& r matches Ok(SearchStep::Fetch { request, key }) && request == d && key is None
    }
}

/// What a finished search gives: the formatted results, stored under the
/// key at `now` when there is a cache and a key.
pub open spec fn search_finished(
    old: ServiceCore,
    new: ServiceCore,
    key: Option<Seq<char>>,
    results: SearchResults,
    now: u64,
    text: Seq<char>,
) -> bool {
    &&& text == search_text(old.strips_html(), old.line_prefix(), results)
    &&& new.cache_entries() == match key {
        Some(k) => if old.caching() {
            lru_put(old.cache_entries(), old.cache_capacity(), (k, text, now))
        } else {
            old.cache_entries()
        },
        None => old.cache_entries(),
    }
}

/// A well-formed service formats search lines as its settings say: it
/// strips `<b>` tags exactly when `strip_html` is set.
pub proof fn law_formatter_follows_settings(s: ServiceCore)
    requires
        s.wf(),
    ensures
        s.strips_html() == s.settings().strip_html,
{
}

/// A search whose answer was cached is answered from the cache, without
/// asking the repository, by the next identical search made before the
/// answer expires. On the cache's own clock (`finish_search` then
/// `prepare_search`), `t1` and `t2` are the two clock readings, and
/// `t1 <= t2` always holds, since the clock never runs backwards.
pub proof fn law_repeated_search_is_answered_from_cache(
    s0: ServiceCore,
    s1: ServiceCore,
    s2: ServiceCore,
    req: SearchRequest,
    results: SearchResults,
    text: Seq<char>,
    t1: u64,
    t2: u64,
    r: Result<SearchStep, DomainError>,
)
    requires
        s0.wf(),
        s0.caching(),
        search_finished(s0, s1, Some(search_key(defaulted(req, s0.settings()))), results, t1, text),
        s1.caching(),
        s1.settings() == s0.settings(),
        s1.cache_ttl() == s0.cache_ttl(),
        search_prepared(s1, s2, req, t2, r),
        t1 <= t2,
        t2 - t1 < s0.cache_ttl(),
    ensures
        r matches Ok(SearchStep::Cached(t)) && t@ == text,
{
    let k = search_key(defaulted(req, s0.settings()));
    law_get_after_insert(s0.cache_entries(), s0.cache_capacity(), k, text, t1, t2, s0.cache_ttl());
}

/// A search whose answer was not cached asks the repository; if that
/// fails, nothing is cached, so the same search made again asks the
/// repository again, with the same request, and leaves the cache as it was.
pub proof fn law_unfinished_search_is_fetched_again(
    s0: ServiceCore,
    s1: ServiceCore,
    s2: ServiceCore,
    req: SearchRequest,
    t1: u64,
    t2: u64,
    r1: Result<SearchStep, DomainError>,
    r2: Result<SearchStep, DomainError>,
)
    requires
        s0.wf(),
        search_prepared(s0, s1, req, t1, r1),
        r1 is Ok && r1->Ok_0 is Fetch,
        s1.settings() == s0.settings(),
        s1.caching() == s0.caching(),
        s1.cache_ttl() == s0.cache_ttl(),
        search_prepared(s1, s2, req, t2, r2),
    ensures
        r2 matches Ok(SearchStep::Fetch { request, key }) && request == defaulted(req, s0.settings()),
        s2.cache_entries() == s1.cache_entries(),
{
    if s0.caching() {
        let k = search_key(defaulted(req, s0.settings()));
        let e0 = s0.cache_entries();
        law_missed_get_leaves_key_absent(e0, s0.cache_capacity(), k, t1, s0.cache_ttl());
        law_operations_keep_invariant(e0, s0.cache_capacity(), k, Seq::empty(), t1, s0.cache_ttl());
        law_get_absent(s1.cache_entries(), k, t2, s1.cache_ttl());
    }
}

} // verus!
