//! What the OpenGrok REST client sends and how it reads what comes back:
//! base-URL normalisation, percent-encoding, the query parameters of each
//! endpoint, the full request URLs, and the checks on the responses.
//!
//! The HTTP exchange itself is done by the caller; every function here is
//! a pure computation on plain values.

use vstd::prelude::*;

use crate::domain::{
    genre_wire_name, request_has_query, sort_query_value, DomainError, FileGenre, HistoryRequest,
    SearchRequest, SuggestRequest,
};
use crate::text::{
    chars_of, decimal, hex, hex2, hex_char, lemma_hex_digits, push_char, push_chars, push_decimal, push_hex2, push_str,
    replace_all, replace_all_exec, string_of, trim_end_char, trim_end_char_exec, trim_ws,
    trim_ws_exec,
};
use crate::tls::TlsConfig;

verus! {

// ---------------------------------------------------------------------------
// Authentication and client configuration
// ---------------------------------------------------------------------------

/// Authentication mode for connecting to OpenGrok.
#[derive(Debug, Clone, PartialEq, Eq)]
pub enum AuthMode {
    /// No authentication.
    NoAuth,
    /// Bearer token authentication.
    Bearer(String),
    /// HTTP Basic authentication.
    Basic { username: String, password: String },
}

/// `Duration::clone`: `Duration` is `Copy`, and its clone is the same value.
pub assume_specification[ <core::time::Duration as Clone>::clone ](d: &core::time::Duration) -> (r: core::time::Duration)
    ensures
        r == *d,
;

/// Configuration of the OpenGrok REST client.
#[derive(Debug, Clone)]
pub struct OpengrokClientConfig {
    /// Base URL of the OpenGrok instance (e.g. `https://opengrok.example.com`).
    pub base_url: String,
    /// Authentication mode (bearer token, Basic auth, or none).
    pub auth: AuthMode,
    /// HTTP request timeout.
    pub timeout: std::time::Duration,
    /// TLS configuration.
    pub tls: TlsConfig,
}

/// Path prefix of every REST endpoint, after the base URL.
pub open spec fn api_prefix() -> Seq<char> {
    "/api/v1/"@
}

/// The full URL of the endpoint `path` below `base`.
pub open spec fn api_url_of(base: Seq<char>, path: Seq<char>) -> Seq<char> {
    trim_end_char(base, '/') + api_prefix() + path
}

// ---------------------------------------------------------------------------
// Percent-encoding and query strings
// ---------------------------------------------------------------------------

/// Characters sent as they are in a query parameter.
pub open spec fn is_unreserved(c: char) -> bool {
    ||| 'A' <= c <= 'Z'
    ||| 'a' <= c <= 'z'
    ||| '0' <= c <= '9'
    ||| c == '-' || c == '_' || c == '.' || c == '~' || c == '/' || c == ':'
}

/// The encoding of one character: itself if unreserved, `+` for a space,
/// otherwise `%` and its code point in upper-case hex (two digits at least).
pub open spec fn encode_char(c: char) -> Seq<char> {
    if is_unreserved(c) {
        seq![c]
    } else if c == ' ' {
        seq!['+']
    } else {
        seq!['%'] + hex2((c as u32) as nat)
    }
}

/// The percent-encoding of a whole string, character by character.
pub open spec fn percent_encoded(s: Seq<char>) -> Seq<char>
    decreases s.len(),
{
    if s.len() == 0 {
        Seq::empty()
    } else {
        percent_encoded(s.drop_last()) + encode_char(s.last())
    }
}

/// A character that can stand in a URL query value without ending it or
/// changing its meaning: an ASCII letter or digit, one of `-_.~/:`, or the
/// `+` and `%` of the encoding itself.
pub open spec fn query_safe(x: char) -> bool {
    ||| 'A' <= x <= 'Z'
    ||| 'a' <= x <= 'z'
    ||| '0' <= x <= '9'
    ||| x == '-' || x == '_' || x == '.' || x == '~' || x == '/' || x == ':' || x == '+' || x == '%'
}

proof fn lemma_encode_char_safe(c: char)
    ensures
        forall|i: int| 0 <= i < encode_char(c).len() ==> query_safe(#[trigger] encode_char(c)[i]),
        encode_char(c).len() >= 1,
        !is_unreserved(c) && c != ' ' ==> encode_char(c).len() >= 3 && encode_char(c)[0] == '%',
{
    let n = (c as u32) as nat;
    if !is_unreserved(c) && c != ' ' {
        if n >= 16 {
            lemma_hex_digits(n / 16);
            lemma_hex_digits(n);
            assert(hex(n).len() >= 2);
        } else {
            assert(hex_char(n) == hex(n)[0]);
            lemma_hex_digits(n);
        }
        let e = encode_char(c);
        assert forall|i: int| 0 <= i < e.len() implies query_safe(#[trigger] e[i]) by {
            if i > 0 {
                if n >= 16 {
                    assert(e[i] == hex(n)[i - 1]);
                } else if i == 2 {
                    assert(e[i] == hex(n)[0]);
                }
            }
        }
    }
}

proof fn lemma_percent_encoded_safe(s: Seq<char>)
    ensures
        forall|i: int| 0 <= i < percent_encoded(s).len() ==> query_safe(#[trigger] percent_encoded(s)[i]),
    decreases s.len(),
{
    if s.len() > 0 {
        lemma_percent_encoded_safe(s.drop_last());
        lemma_encode_char_safe(s.last());
        let a = percent_encoded(s.drop_last());
        let b = encode_char(s.last());
        assert forall|i: int| 0 <= i < percent_encoded(s).len() implies query_safe(#[trigger] percent_encoded(s)[i]) by {
            if i < a.len() {
                assert(percent_encoded(s)[i] == a[i]);
            } else {
                assert(percent_encoded(s)[i] == b[i - a.len()]);
            }
        }
    }
}

/// Percent-encoding never lets a URL delimiter through: every character
/// of an encoded text is a letter, a digit, one of `-_.~/:`, `+` or `%`
/// (so `#`, `&`, `=`, `?` and the like never appear raw). A character is
/// kept as it is exactly when it is an ASCII letter or digit or one of
/// `-_.~/:`; a space becomes `+`, and anything else becomes a `%`
/// escape.
pub proof fn law_percent_encoding_is_query_safe(s: Seq<char>, c: char)
    ensures
        forall|i: int| 0 <= i < percent_encoded(s).len() ==> {
            let x = #[trigger] percent_encoded(s)[i];
            ||| 'A' <= x <= 'Z'
            ||| 'a' <= x <= 'z'
            ||| '0' <= x <= '9'
            ||| x == '-' || x == '_' || x == '.' || x == '~' || x == '/' || x == ':' || x == '+' || x == '%'
        },
        (percent_encoded(seq![c]) == seq![c]) <==> {
            ||| 'A' <= c <= 'Z'
            ||| 'a' <= c <= 'z'
            ||| '0' <= c <= '9'
            ||| c == ':' || c == '/' || c == '~' || c == '.' || c == '_' || c == '-'
        },
        c == ' ' ==> percent_encoded(seq![c]) == seq!['+'],
        c != ' ' && percent_encoded(seq![c]) != seq![c] ==> percent_encoded(seq![c])[0] == '%'
            && percent_encoded(seq![c]).len() >= 3,
{
    lemma_percent_encoded_safe(s);
    lemma_encode_char_safe(c);
    let one = seq![c];
    assert(one.drop_last() =~= Seq::<char>::empty());
    assert(one.last() == c);
    assert(percent_encoded(one.drop_last()) == Seq::<char>::empty());
    assert(percent_encoded(one) == percent_encoded(one.drop_last()) + encode_char(one.last()));
    assert(percent_encoded(one) =~= encode_char(c));
    if !is_unreserved(c) && c != ' ' {
        assert(percent_encoded(seq![c]).len() != 1);
    }
    if c == ' ' {
        assert(seq!['+'][0] != seq![c][0]);
    }
}

/// One `key=value` pair, both sides percent-encoded.
pub open spec fn query_pair(p: (Seq<char>, Seq<char>)) -> Seq<char> {
    percent_encoded(p.0) + seq!['='] + percent_encoded(p.1)
}

/// The pairs joined with `&`.
pub open spec fn query_string(ps: Seq<(Seq<char>, Seq<char>)>) -> Seq<char>
    decreases ps.len(),
{
    if ps.len() == 0 {
        Seq::empty()
    } else if ps.len() == 1 {
        query_pair(ps[0])
    } else {
        query_string(ps.drop_last()) + seq!['&'] + query_pair(ps.last())
    }
}

/// The URL of a GET request: the endpoint URL, then `?` and the query
/// string when there are parameters.
pub open spec fn request_url(base: Seq<char>, path: Seq<char>, ps: Seq<(Seq<char>, Seq<char>)>) -> Seq<char> {
    if ps.len() == 0 {
        api_url_of(base, path)
    } else {
        api_url_of(base, path) + seq!['?'] + query_string(ps)
    }
}

/// The views of a parameter list.
pub open spec fn pairs_view(v: Seq<(&str, String)>) -> Seq<(Seq<char>, Seq<char>)> {
    v.map_values(|p: (&str, String)| (p.0@, p.1@))
}

fn is_unreserved_exec(c: char) -> (b: bool)
    ensures
        b == is_unreserved(c),
{
    ('A' <= c && c <= 'Z') || ('a' <= c && c <= 'z') || ('0' <= c && c <= '9') || c == '-'
        || c == '_' || c == '.' || c == '~' || c == '/' || c == ':'
}

fn push_encoded(out: &mut String, s: &str)
    ensures
        final(out)@ == old(out)@ + percent_encoded(s@),
{
    let v = chars_of(s);
    let ghost start = out@;
    let mut i: usize = 0;
    assert(v@.take(0) =~= Seq::<char>::empty());
    while i < v.len()
        invariant
            v@ == s@,
            i <= v@.len(),
            out@ == start + percent_encoded(v@.take(i as int)),
        decreases v@.len() - i,
    {
        let c = v[i];
        let ghost before = out@;
        if is_unreserved_exec(c) {
            push_char(out, c);
            assert(before.push(c) == before + encode_char(c));
        } else if c == ' ' {
            push_char(out, '+');
            assert(before.push('+') == before + encode_char(c));
        } else {
            push_char(out, '%');
            push_hex2(out, c as u32);
            assert(before.push('%') + hex2((c as u32) as nat) == before + encode_char(c));
        }
        i = i + 1;
        proof {
            let t = v@.take(i as int);
            assert(t.drop_last() == v@.take((i - 1) as int));
            assert(t.last() == c);
            assert(percent_encoded(t) == percent_encoded(v@.take((i - 1) as int)) + encode_char(c));
            assert(start + percent_encoded(t) == (start + percent_encoded(v@.take((i - 1) as int))) + encode_char(c));
        }
    }
    assert(v@.take(v@.len() as int) == v@);
}

/// Minimal percent-encoding for URL query parameters: ASCII letters and
/// digits and `-_.~/:` pass through, a space becomes `+`, every other
/// character becomes `%` followed by its code point in upper-case hex.
pub fn percent_encode(s: &str) -> (r: String)
    ensures
        r@ == percent_encoded(s@),
{
    let mut out = String::new();
    push_encoded(&mut out, s);
    assert(out@ == Seq::<char>::empty() + percent_encoded(s@));
    out
}

impl OpengrokClientConfig {
    /// The base URL without trailing `/`, for consistent path joining.
    pub fn normalized_base_url(&self) -> (r: String)
        ensures
            r@ == trim_end_char(self.base_url@, '/'),
    {
        let v = chars_of(self.base_url.as_str());
        let t = trim_end_char_exec(&v, '/');
        string_of(t.as_slice())
    }

    /// The URL of the REST endpoint `path`.
    pub fn api_url(&self, path: &str) -> (r: String)
        ensures
            r@ == api_url_of(self.base_url@, path@),
    {
        let mut s = self.normalized_base_url();
        push_str(&mut s, "/api/v1/");
        push_str(&mut s, path);
        proof { reveal_strlit("/api/v1/"); }
        s
    }

    /// The URL of a GET request to `path` with the given parameters.
    pub fn request_url(&self, path: &str, params: &Vec<(&str, String)>) -> (r: String)
        ensures
            r@ == request_url(self.base_url@, path@, pairs_view(params@)),
    {
        let mut s = self.api_url(path);
        if params.len() == 0 {
            return s;
        }
        push_char(&mut s, '?');
        let ghost head = s@;
        let mut i: usize = 0;
        while i < params.len()
            invariant
                0 < params@.len(),
                i <= params@.len(),
                i == 0 ==> s@ == head,
                i > 0 ==> s@ == head + query_string(pairs_view(params@.take(i as int))),
            decreases params@.len() - i,
        {
            let ghost before = s@;
            if i > 0 {
                push_char(&mut s, '&');
            }
            push_encoded(&mut s, params[i].0);
            push_char(&mut s, '=');
            push_encoded(&mut s, params[i].1.as_str());
            i = i + 1;
            proof {
                let ps = pairs_view(params@.take(i as int));
                assert(ps.drop_last() == pairs_view(params@.take((i - 1) as int)));
                assert(ps.last() == (params@[i - 1].0@, params@[i - 1].1@));
                if i == 1 {
                    assert(ps.len() == 1);
                    assert(s@ == head + query_pair(ps[0]));
                } else {
                    assert(s@ == before + seq!['&'] + query_pair(ps.last()));
                }
            }
        }
        assert(params@.take(params@.len() as int) == params@);
        s
    }
}

// ---------------------------------------------------------------------------
// Query parameters of each endpoint
// ---------------------------------------------------------------------------

/// The pair `(key, value)` if the value is present, nothing otherwise.
pub open spec fn opt_pair(key: Seq<char>, v: Option<String>) -> Seq<(Seq<char>, Seq<char>)> {
    match v {
        Some(s) => seq![(key, s@)],
        None => Seq::empty(),
    }
}

/// The pair `(key, decimal value)` if the number is present.
pub open spec fn opt_num_pair(key: Seq<char>, v: Option<u32>) -> Seq<(Seq<char>, Seq<char>)> {
    match v {
        Some(n) => seq![(key, decimal(n as nat))],
        None => Seq::empty(),
    }
}

/// One `(key, item)` pair per item, in order.
pub open spec fn repeated_pairs(key: Seq<char>, items: Seq<String>) -> Seq<(Seq<char>, Seq<char>)> {
    items.map_values(|p: String| (key, p@))
}

/// The rendering of a boolean (`true` / `false`).
pub open spec fn bool_text(b: bool) -> Seq<char> {
    if b { "true"@ } else { "false"@ }
}

/// The query parameters of a search, in the order they are sent.
pub open spec fn search_params(r: SearchRequest) -> Seq<(Seq<char>, Seq<char>)> {
    opt_pair("full"@, r.full) + opt_pair("def"@, r.def) + opt_pair("symbol"@, r.symbol)
        + opt_pair("path"@, r.path) + opt_pair("hist"@, r.hist) + opt_pair("type"@, r.file_type)
        + repeated_pairs("projects"@, r.projects@) + opt_num_pair("maxresults"@, r.max_results)
        + opt_num_pair("start"@, r.start) + opt_num_pair("maxhitsperfile"@, r.max_hits_per_file)
        + match r.sort {
            Some(o) => seq![("sort"@, sort_query_value(o))],
            None => Seq::empty(),
        }
}

/// The query parameters of a suggestion request, in the order they are sent.
pub open spec fn suggest_params(r: SuggestRequest) -> Seq<(Seq<char>, Seq<char>)> {
    repeated_pairs("projects"@, r.projects@) + seq![("field"@, r.field@)]
        + seq![("caret"@, decimal(r.caret as nat))] + opt_pair("full"@, r.full)
        + opt_pair("defs"@, r.defs) + opt_pair("refs"@, r.refs) + opt_pair("path"@, r.path)
        + opt_pair("hist"@, r.hist) + opt_pair("type"@, r.file_type)
}

/// The query parameters of a history request, in the order they are sent.
pub open spec fn history_params(r: HistoryRequest) -> Seq<(Seq<char>, Seq<char>)> {
    seq![("path"@, r.path@)] + opt_num_pair("start"@, r.start) + opt_num_pair("max"@, r.max)
        + match r.with_files {
            Some(b) => seq![("withFiles"@, bool_text(b))],
            None => Seq::empty(),
        }
}

proof fn lemma_pairs_view_push(v: Seq<(&str, String)>, p: (&str, String))
    ensures
        pairs_view(v.push(p)) == pairs_view(v).push((p.0@, p.1@)),
{
    assert(pairs_view(v.push(p)) =~= pairs_view(v).push((p.0@, p.1@)));
}

fn push_pair(params: &mut Vec<(&'static str, String)>, key: &'static str, value: String)
    ensures
        pairs_view(final(params)@) == pairs_view(old(params)@) + seq![(key@, value@)],
{
    proof { lemma_pairs_view_push(params@, (key, value)); }
    params.push((key, value));
    assert(pairs_view(old(params)@).push((key@, value@)) =~= pairs_view(old(params)@) + seq![(key@, value@)]);
}

fn push_opt(params: &mut Vec<(&'static str, String)>, key: &'static str, v: &Option<String>)
    ensures
        pairs_view(final(params)@) == pairs_view(old(params)@) + opt_pair(key@, *v),
{
    match v {
        Some(s) => push_pair(params, key, s.clone()),
        None => {
            assert(pairs_view(params@) + Seq::empty() =~= pairs_view(params@));
        },
    }
}

fn push_opt_num(params: &mut Vec<(&'static str, String)>, key: &'static str, v: Option<u32>)
    ensures
        pairs_view(final(params)@) == pairs_view(old(params)@) + opt_num_pair(key@, v),
{
    match v {
        Some(n) => {
            let mut s = String::new();
            push_decimal(&mut s, n as u64);
            assert(s@ == decimal(n as nat)) by {
                assert(Seq::<char>::empty() + decimal(n as nat) == decimal(n as nat));
            }
            push_pair(params, key, s);
        },
        None => {
            assert(pairs_view(params@) + Seq::empty() =~= pairs_view(params@));
        },
    }
}

fn push_repeated(params: &mut Vec<(&'static str, String)>, key: &'static str, items: &Vec<String>)
    ensures
        pairs_view(final(params)@) == pairs_view(old(params)@) + repeated_pairs(key@, items@),
{
    let ghost start = pairs_view(params@);
    let mut i: usize = 0;
    assert(start + repeated_pairs(key@, items@.take(0)) =~= start);
    while i < items.len()
        invariant
            i <= items@.len(),
            pairs_view(params@) == start + repeated_pairs(key@, items@.take(i as int)),
        decreases items@.len() - i,
    {
        push_pair(params, key, items[i].clone());
        i = i + 1;
        assert(repeated_pairs(key@, items@.take(i as int)) =~= repeated_pairs(key@, items@.take((i - 1) as int)) + seq![(key@, items@[i - 1]@)]);
        assert(start + repeated_pairs(key@, items@.take(i as int)) =~= (start + repeated_pairs(key@, items@.take((i - 1) as int))) + seq![(key@, items@[i - 1]@)]);
    }
    assert(items@.take(items@.len() as int) == items@);
}

/// The query parameters of a search: each query field that is set, one
/// `projects` pair per project, then the paging and sorting options.
pub fn search_query_params(req: &SearchRequest) -> (params: Vec<(&'static str, String)>)
    ensures
        pairs_view(params@) == search_params(*req),
{
    let mut params: Vec<(&'static str, String)> = Vec::new();
    assert(pairs_view(params@) =~= Seq::empty());
    push_opt(&mut params, "full", &req.full);
    push_opt(&mut params, "def", &req.def);
    push_opt(&mut params, "symbol", &req.symbol);
    push_opt(&mut params, "path", &req.path);
    push_opt(&mut params, "hist", &req.hist);
    push_opt(&mut params, "type", &req.file_type);
    push_repeated(&mut params, "projects", &req.projects);
    push_opt_num(&mut params, "maxresults", req.max_results);
    push_opt_num(&mut params, "start", req.start);
    push_opt_num(&mut params, "maxhitsperfile", req.max_hits_per_file);
    let ghost before_sort = pairs_view(params@);
    match req.sort {
        Some(o) => push_pair(&mut params, "sort", o.to_string()),
        None => {},
    }
    proof {
        reveal_strlit("full");
        reveal_strlit("def");
        reveal_strlit("symbol");
        reveal_strlit("path");
        reveal_strlit("hist");
        reveal_strlit("type");
        reveal_strlit("projects");
        reveal_strlit("maxresults");
        reveal_strlit("start");
        reveal_strlit("maxhitsperfile");
        reveal_strlit("sort");
        assert(pairs_view(params@) =~= search_params(*req));
    }
    params
}

/// The query parameters of a suggestion request: one `projects` pair per
/// project, `field` and `caret`, then each partial input that is set.
pub fn suggest_query_params(req: &SuggestRequest) -> (params: Vec<(&'static str, String)>)
    ensures
        pairs_view(params@) == suggest_params(*req),
{
    let mut params: Vec<(&'static str, String)> = Vec::new();
    assert(pairs_view(params@) =~= Seq::empty());
    push_repeated(&mut params, "projects", &req.projects);
    push_pair(&mut params, "field", req.field.clone());
    let mut caret = String::new();
    push_decimal(&mut caret, req.caret as u64);
    assert(caret@ == decimal(req.caret as nat)) by {
        assert(Seq::<char>::empty() + decimal(req.caret as nat) == decimal(req.caret as nat));
    }
    push_pair(&mut params, "caret", caret);
    push_opt(&mut params, "full", &req.full);
    push_opt(&mut params, "defs", &req.defs);
    push_opt(&mut params, "refs", &req.refs);
    push_opt(&mut params, "path", &req.path);
    push_opt(&mut params, "hist", &req.hist);
    push_opt(&mut params, "type", &req.file_type);
    proof {
        reveal_strlit("projects");
        reveal_strlit("field");
        reveal_strlit("caret");
        reveal_strlit("full");
        reveal_strlit("defs");
        reveal_strlit("refs");
        reveal_strlit("path");
        reveal_strlit("hist");
        reveal_strlit("type");
        assert(pairs_view(params@) =~= suggest_params(*req));
    }
    params
}

/// The query parameters of a history request: the path, then `start`,
/// `max` and `withFiles` when they are set.
pub fn history_query_params(req: &HistoryRequest) -> (params: Vec<(&'static str, String)>)
    ensures
        pairs_view(params@) == history_params(*req),
{
    let mut params: Vec<(&'static str, String)> = Vec::new();
    assert(pairs_view(params@) =~= Seq::empty());
    push_pair(&mut params, "path", req.path.clone());
    push_opt_num(&mut params, "start", req.start);
    push_opt_num(&mut params, "max", req.max);
    match req.with_files {
        Some(b) => {
            let t = if b { String::from_str("true") } else { String::from_str("false") };
            proof {
                reveal_strlit("true");
                reveal_strlit("false");
            }
            push_pair(&mut params, "withFiles", t);
        },
        None => {},
    }
    proof {
        reveal_strlit("path");
        reveal_strlit("start");
        reveal_strlit("max");
        reveal_strlit("withFiles");
        assert(pairs_view(params@) =~= history_params(*req));
    }
    params
}

/// The single `path` parameter.
pub open spec fn path_params(path: Seq<char>) -> Seq<(Seq<char>, Seq<char>)> {
    seq![("path"@, path)]
}

fn path_query_params(path: &str) -> (params: Vec<(&'static str, String)>)
    ensures
        pairs_view(params@) == path_params(path@),
{
    let mut params: Vec<(&'static str, String)> = Vec::new();
    assert(pairs_view(params@) =~= Seq::empty());
    push_pair(&mut params, "path", String::from_str(path));
    proof { reveal_strlit("path"); }
    assert(pairs_view(params@) =~= path_params(path@));
    params
}

/// The `path` parameter of a file read: the project as first segment,
/// unless `path` already starts with `/<project>`.
pub open spec fn source_root_path(project: Seq<char>, path: Seq<char>) -> Seq<char> {
    if path.len() == 0 {
        seq!['/'] + project
    } else if (seq!['/'] + project).is_prefix_of(path) {
        path
    } else {
        seq!['/'] + project + seq!['/'] + crate::text::trim_start_char(path, '/')
    }
}

/// Combines a project name and a file path into the source-root path the
/// server expects (`/<project>/<path>`).
pub fn build_source_root_path(project: &str, path: &str) -> (r: String)
    ensures
        r@ == source_root_path(project@, path@),
{
    let pv = chars_of(path);
    let mut prefix = String::new();
    push_char(&mut prefix, '/');
    push_str(&mut prefix, project);
    let prefix_v = chars_of(prefix.as_str());
    assert(prefix@ == seq!['/'] + project@);
    if pv.len() == 0 {
        prefix
    } else if crate::text::starts_with_exec(&pv, &prefix_v) {
        String::from_str(path)
    } else {
        let trimmed = crate::text::trim_start_char_exec(&pv, '/');
        let mut s = prefix;
        push_char(&mut s, '/');
        push_chars(&mut s, trimmed.as_slice());
        s
    }
}

// ---------------------------------------------------------------------------
// Request URLs of the endpoints
// ---------------------------------------------------------------------------

impl OpengrokClientConfig {
    /// The URL of a search, or `EmptyQuery` when no query field is set
    /// (the request is then not sent).
    pub fn search_url(&self, req: &SearchRequest) -> (r: Result<String, DomainError>)
        ensures
            request_has_query(*req) <==> r is Ok,
            r matches Ok(u) ==> u@ == request_url(self.base_url@, "search"@, search_params(*req)),
            r is Err ==> r == Err::<String, DomainError>(DomainError::EmptyQuery),
    {
        if !req.has_query() {
            return Err(DomainError::EmptyQuery);
        }
        let params = search_query_params(req);
        proof { reveal_strlit("search"); }
        Ok(self.request_url("search", &params))
    }

    /// The URL of a suggestion request.
    pub fn suggest_url(&self, req: &SuggestRequest) -> (r: String)
        ensures
            r@ == request_url(self.base_url@, "suggest"@, suggest_params(*req)),
    {
        let params = suggest_query_params(req);
        proof { reveal_strlit("suggest"); }
        self.request_url("suggest", &params)
    }

    /// The source-root path of a file and the URL that reads its raw
    /// content.
    pub fn file_content_url(&self, project: &str, path: &str) -> (r: (String, String))
        ensures
            r.0@ == source_root_path(project@, path@),
            r.1@ == request_url(self.base_url@, "file/content"@, path_params(r.0@)),
    {
        let source = build_source_root_path(project, path);
        let params = path_query_params(source.as_str());
        proof { reveal_strlit("file/content"); }
        let url = self.request_url("file/content", &params);
        (source, url)
    }

    /// The URL that lists the definitions of a file.
    pub fn file_definitions_url(&self, path: &str) -> (r: String)
        ensures
            r@ == request_url(self.base_url@, "file/defs"@, path_params(path@)),
    {
        let params = path_query_params(path);
        proof { reveal_strlit("file/defs"); }
        self.request_url("file/defs", &params)
    }

    /// The URL that reports the genre of a file.
    pub fn file_genre_url(&self, path: &str) -> (r: String)
        ensures
            r@ == request_url(self.base_url@, "file/genre"@, path_params(path@)),
    {
        let params = path_query_params(path);
        proof { reveal_strlit("file/genre"); }
        self.request_url("file/genre", &params)
    }

    /// The URL that lists a directory.
    pub fn list_directory_url(&self, path: &str) -> (r: String)
        ensures
            r@ == request_url(self.base_url@, "list"@, path_params(path@)),
    {
        let params = path_query_params(path);
        proof { reveal_strlit("list"); }
        self.request_url("list", &params)
    }

    /// The URL of the indexed projects.
    pub fn indexed_projects_url(&self) -> (r: String)
        ensures
            r@ == api_url_of(self.base_url@, "projects/indexed"@),
    {
        proof { reveal_strlit("projects/indexed"); }
        self.api_url("projects/indexed")
    }

    /// The URL of all configured projects.
    pub fn all_projects_url(&self) -> (r: String)
        ensures
            r@ == api_url_of(self.base_url@, "projects"@),
    {
        proof { reveal_strlit("projects"); }
        self.api_url("projects")
    }

    /// The URL of a file's history.
    pub fn history_url(&self, req: &HistoryRequest) -> (r: String)
        ensures
            r@ == request_url(self.base_url@, "history"@, history_params(*req)),
    {
        let params = history_query_params(req);
        proof { reveal_strlit("history"); }
        self.request_url("history", &params)
    }

    /// The URL of a file's annotation (blame).
    pub fn annotation_url(&self, path: &str) -> (r: String)
        ensures
            r@ == request_url(self.base_url@, "annotation"@, path_params(path@)),
    {
        let params = path_query_params(path);
        proof { reveal_strlit("annotation"); }
        self.request_url("annotation", &params)
    }
}

// ---------------------------------------------------------------------------
// Responses
// ---------------------------------------------------------------------------

/// Whether an HTTP status is a success (`200..=299`).
pub open spec fn is_success_status(status: u16) -> bool {
    200 <= status <= 299
}

/// Turns a non-2xx status into `HttpStatus` with the response body; a 2xx
/// status passes.
pub fn check_status(status: u16, body: String) -> (r: Result<(), DomainError>)
    ensures
        is_success_status(status) <==> r is Ok,
        !is_success_status(status) ==> (r matches Err(DomainError::HttpStatus { status: s, body: b })
            && s == status && b@ == body@),
{
    if 200 <= status && status <= 299 {
        Ok(())
    } else {
        Err(DomainError::HttpStatus { status, body })
    }
}

/// How many characters of an undecodable body an error message quotes.
pub const MAX_BODY_TRUNCATION: usize = 500;

/// The first `MAX_BODY_TRUNCATION` characters of a body.
pub open spec fn body_excerpt(body: Seq<char>) -> Seq<char> {
    if body.len() <= MAX_BODY_TRUNCATION {
        body
    } else {
        body.take(MAX_BODY_TRUNCATION as int)
    }
}

/// The message of a response body that is not the expected JSON.
pub open spec fn json_parse_message(detail: Seq<char>, body: Seq<char>) -> Seq<char> {
    "JSON parse error: "@ + detail + "\nRaw body (500 chars): "@ + body_excerpt(body)
}

/// The `Decode` error of a response body that is not the expected JSON:
/// the parser's message and the start of the body.
pub fn json_parse_failure(detail: &str, body: &str) -> (e: DomainError)
    ensures
        e matches DomainError::Decode(m) && m@ == json_parse_message(detail@, body@),
{
    let v = chars_of(body);
    let n: usize = if v.len() <= MAX_BODY_TRUNCATION { v.len() } else { MAX_BODY_TRUNCATION };
    let mut m = String::from_str("JSON parse error: ");
    push_str(&mut m, detail);
    push_str(&mut m, "\nRaw body (500 chars): ");
    let ghost head = m@;
    let mut i: usize = 0;
    while i < n
        invariant
            n <= v@.len(),
            i <= n,
            m@ == head + v@.take(i as int),
        decreases n - i,
    {
        push_char(&mut m, v[i]);
        i = i + 1;
        assert(v@.take(i as int) == v@.take((i - 1) as int).push(v@[i - 1]));
    }
    proof {
        reveal_strlit("JSON parse error: ");
        reveal_strlit("\nRaw body (500 chars): ");
        assert(v@.take(n as int) == body_excerpt(body@));
    }
    DomainError::Decode(m)
}

/// The message of a response body that could not be read.
pub open spec fn body_read_message(detail: Seq<char>) -> Seq<char> {
    "failed to read response body: "@ + detail
}

/// The `Decode` error of a response body that could not be read.
pub fn body_read_failure(detail: &str) -> (e: DomainError)
    ensures
        e matches DomainError::Decode(m) && m@ == body_read_message(detail@),
{
    let mut m = String::from_str("failed to read response body: ");
    push_str(&mut m, detail);
    proof { reveal_strlit("failed to read response body: "); }
    DomainError::Decode(m)
}

// ---------------------------------------------------------------------------
// File genre responses
// ---------------------------------------------------------------------------

/// The JSON decoder's error type (`serde_json::Error`), opaque here.
#[verifier::external_type_specification]
#[verifier::external_body]
pub struct ExJsonError(serde_json::Error);

/// What a JSON text decodes to as a string (`serde_json::from_str::<String>`):
/// the string, escapes resolved, when the text is a JSON string literal;
/// otherwise the decoder's error message (its `Display` text). A function
/// of the text alone.
pub uninterp spec fn json_string_value(text: Seq<char>) -> Result<Seq<char>, Seq<char>>;

/// A JSON string literal without escapes or control characters: a quote,
/// characters that are neither a quote, a backslash nor below U+0020, and
/// a closing quote.
pub open spec fn plain_json_string(text: Seq<char>) -> bool {
    &&& text.len() >= 2
    &&& text[0] == '"'
    &&& text.last() == '"'
    &&& forall|i: int| 1 <= i < text.len() - 1 ==> {
        let c = #[trigger] text[i];
        c != '"' && c != '\\' && (c as u32) >= 0x20
    }
}

/// Decodes a JSON text as a string (`serde_json::from_str::<String>`).
/// Trusted: an `Ok` result is the string named `json_string_value` of the
/// text, and the call fails exactly when that name is an error; a plain
/// literal decodes to the characters between its quotes (serde_json
/// returns such a literal's contents as they stand).
#[verifier::external_body]
fn decode_json_string(text: &str) -> (r: Result<String, serde_json::Error>)
    ensures
        match r {
            Ok(s) => json_string_value(text@) == Ok::<Seq<char>, Seq<char>>(s@),
            Err(_) => json_string_value(text@) is Err,
        },
        match r {
            Ok(s) => plain_json_string(text@) ==> s@ == text@.subrange(1, text@.len() - 1),
            Err(_) => !plain_json_string(text@),
        },
{
    serde_json::from_str::<String>(text)
}

/// The message of the error that decoding a JSON text as a string gives
/// (`serde_json::from_str::<String>` and the error's `Display` text).
/// Trusted: `None` when the text decodes, else the message named by
/// `json_string_value`.
#[verifier::external_body]
fn json_decode_error(text: &str) -> (r: Option<String>)
    ensures
        match json_string_value(text@) {
            Ok(_) => r is None,
            Err(m) => r matches Some(x) && x@ == m,
        },
{
    serde_json::from_str::<String>(text).err().map(|e| e.to_string())
}

/// The JSON text of a genre response: the body trimmed of whitespace,
/// stripped of every `"`, and put between quotes.
pub open spec fn genre_literal(raw: Seq<char>) -> Seq<char> {
    seq!['"'] + replace_all(trim_ws(raw), seq!['"'], Seq::empty()) + seq!['"']
}

/// The message of an unknown genre name, read from a JSON text whose
/// string literal ends at byte `column` of its single line (the position
/// the JSON decoder reports).
pub open spec fn unknown_genre_message(name: Seq<char>, column: nat) -> Seq<char> {
    "unknown variant `"@ + name + "`, expected one of `PLAIN`, `XREFABLE`, `IMAGE`, `DATA`, `HTML`"@
        + " at line 1 column "@ + decimal(column)
}

/// The column at which the decoder stands after reading a genre literal:
/// its length in UTF-8 bytes, as `str::len` gives it.
pub open spec fn literal_end_column(lit: Seq<char>) -> nat {
    (vstd::utf8::encode_utf8(lit).len() as usize) as nat
}

/// The genre named by a decoded response, or the error: a decoding error
/// becomes `Decode` with its message, an unknown name becomes `Decode`
/// naming it and the position `column` where its literal ended.
pub fn genre_from_decoded(decoded: Result<String, String>, column: usize) -> (r: Result<FileGenre, DomainError>)
    ensures
        decoded matches Err(msg) ==> (r matches Err(DomainError::Decode(m)) && m@ == msg@),
        decoded matches Ok(name) ==> match r {
            Ok(g) => genre_wire_name(g) == name@,
            Err(e) => (forall|g: FileGenre| genre_wire_name(g) != name@)
                && (e matches DomainError::Decode(m) && m@ == unknown_genre_message(name@, column as nat)),
        },
{
    match decoded {
        Err(msg) => Err(DomainError::Decode(msg)),
        Ok(name) => match FileGenre::from_wire_name(name.as_str()) {
            Some(g) => Ok(g),
            None => {
                let mut m = String::from_str("unknown variant `");
                push_str(&mut m, name.as_str());
                push_str(&mut m, "`, expected one of `PLAIN`, `XREFABLE`, `IMAGE`, `DATA`, `HTML`");
                push_str(&mut m, " at line 1 column ");
                push_decimal(&mut m, column as u64);
                proof {
                    reveal_strlit("unknown variant `");
                    reveal_strlit("`, expected one of `PLAIN`, `XREFABLE`, `IMAGE`, `DATA`, `HTML`");
                    reveal_strlit(" at line 1 column ");
                }
                Err(DomainError::Decode(m))
            },
        },
    }
}

/// Reads the genre out of a `file/genre` response body: the body is
/// trimmed, cleared of quotes, decoded as a JSON string, and the name
/// looked up among the genres.
pub fn genre_from_body(raw: &str) -> (r: Result<FileGenre, DomainError>)
    ensures
        match json_string_value(genre_literal(raw@)) {
            Ok(name) => match r {
                Ok(g) => genre_wire_name(g) == name,
                Err(e) => (forall|g: FileGenre| genre_wire_name(g) != name)
                    && (e matches DomainError::Decode(m)
                    && m@ == unknown_genre_message(name, literal_end_column(genre_literal(raw@)))),
            },
            Err(msg) => r matches Err(DomainError::Decode(m)) && m@ == msg,
        },
{
    let v = chars_of(raw);
    let trimmed = trim_ws_exec(&v);
    let mut quote: Vec<char> = Vec::new();
    quote.push('"');
    let cleaned = replace_all_exec(&trimmed, &quote, &Vec::new());
    let mut lit = String::new();
    push_char(&mut lit, '"');
    push_chars(&mut lit, cleaned.as_slice());
    push_char(&mut lit, '"');
    assert(quote@ == seq!['"']);
    assert(lit@ == genre_literal(raw@));
    let decoded = match decode_json_string(lit.as_str()) {
        Ok(s) => Ok(s),
        Err(_) => match json_decode_error(lit.as_str()) {
            Some(m) => Err(m),
            // Not reached: a text that fails to decode has an error message.
            None => Err(String::new()),
        },
    };
    let column = lit.as_str().len();
    genre_from_decoded(decoded, column)
}

} // verus!
