//! Domain models of the OpenGrok REST API and the library's error types.
//!
//! All types are plain data. The wire format (JSON with camelCase keys)
//! is decoded outside the library into the `*Dto` types below; the
//! verified conversions turn those into the models the rest of the
//! library works on, normalising OpenGrok's quirks on the way
//! (`null` tags, empty or string-typed line numbers).

use vstd::prelude::*;

use crate::text::{
    chars_eq, chars_less, chars_of, decimal, digit_char, lemma_chars_less_transitive, push_decimal,
    push_str, str_lt, u64_to_decimal,
};

verus! {

// ---------------------------------------------------------------------------
// LineNumber
// ---------------------------------------------------------------------------

/// A line number within a file. OpenGrok sends it as a JSON string.
#[derive(Debug, Clone, Copy, PartialEq, Eq, PartialOrd, Ord, Hash)]
pub struct LineNumber(pub u32);

impl LineNumber {
    /// Returns the inner `u32` value.
    pub fn get(self) -> (r: u32)
        ensures
            r == self.0,
    {
        self.0
    }

    /// Decimal text of the line number (what `Display` prints).
    pub fn to_string(&self) -> (s: String)
        ensures
            s@ == decimal(self.0 as nat),
    {
        u64_to_decimal(self.0 as u64)
    }

    /// Decodes a line number sent as a JSON string: an empty string means
    /// line 0 (OpenGrok's `path:` searches), anything else must parse as a
    /// decimal `u32`.
    pub fn from_wire_str(s: &str) -> (r: Result<LineNumber, LineNumberError>)
        ensures
            r == line_number_from_text(s@),
    {
        let v = chars_of(s);
        if v.len() == 0 {
            return Ok(LineNumber(0));
        }
        match parse_u32_chars(&v) {
            Ok(n) => Ok(LineNumber(n)),
            Err(e) => Err(e),
        }
    }

    /// Decodes a line number sent as a JSON integer; values beyond `u32`
    /// are rejected.
    pub fn from_wire_u64(n: u64) -> (r: Result<LineNumber, LineNumberError>)
        ensures
            n <= u32::MAX ==> r == Ok::<LineNumber, LineNumberError>(LineNumber(n as u32)),
            n > u32::MAX ==> r == Err::<LineNumber, LineNumberError>(LineNumberError::OutOfRange),
    {
        if n <= 4294967295u64 {
            Ok(LineNumber(n as u32))
        } else {
            Err(LineNumberError::OutOfRange)
        }
    }
}

/// Why a line number on the wire could not be decoded.
#[derive(Debug, Clone, Copy, PartialEq, Eq)]
pub enum LineNumberError {
    /// A character other than a decimal digit (after an optional `+`).
    InvalidDigit,
    /// The decimal value does not fit in a `u32`.
    Overflow,
    /// An integer value does not fit in a `u32`.
    OutOfRange,
}

impl LineNumberError {
    /// The message that the standard library gives for this failure.
    pub fn message(&self) -> (s: &'static str)
        ensures
            s@ == line_number_error_message(*self),
    {
        match self {
            LineNumberError::InvalidDigit => "invalid digit found in string",
            LineNumberError::Overflow => "number too large to fit in target type",
            LineNumberError::OutOfRange => "out of range integral type conversion attempted",
        }
    }
}

/// Message text of a [`LineNumberError`].
pub open spec fn line_number_error_message(e: LineNumberError) -> Seq<char> {
    match e {
        LineNumberError::InvalidDigit => "invalid digit found in string"@,
        LineNumberError::Overflow => "number too large to fit in target type"@,
        LineNumberError::OutOfRange => "out of range integral type conversion attempted"@,
    }
}

/// `c` is an ASCII decimal digit.
pub open spec fn is_digit(c: char) -> bool {
    '0' <= c && c <= '9'
}

/// Numeric value of an ASCII decimal digit.
pub open spec fn digit_value(c: char) -> nat {
    (c as nat - '0' as nat) as nat
}

/// Scans decimal digits left to right with accumulator `acc`, failing at
/// the first non-digit or at the first step whose value exceeds `u32::MAX`,
/// in the order `u32::from_str` checks them.
pub open spec fn scan_u32(d: Seq<char>, acc: nat) -> Result<u32, LineNumberError>
    decreases d.len(),
{
    if d.len() == 0 {
        Ok(acc as u32)
    } else if !is_digit(d[0]) {
        Err(LineNumberError::InvalidDigit)
    } else if acc * 10 + digit_value(d[0]) > u32::MAX {
        Err(LineNumberError::Overflow)
    } else {
        scan_u32(d.skip(1), acc * 10 + digit_value(d[0]))
    }
}

/// `u32::from_str` on a non-empty string: an optional `+`, then at least
/// one decimal digit.
pub open spec fn parse_u32(s: Seq<char>) -> Result<u32, LineNumberError> {
    let d = if s.len() > 0 && s[0] == '+' { s.skip(1) } else { s };
    if d.len() == 0 {
        Err(LineNumberError::InvalidDigit)
    } else {
        scan_u32(d, 0)
    }
}

/// How a line number sent as a JSON string decodes.
pub open spec fn line_number_from_text(s: Seq<char>) -> Result<LineNumber, LineNumberError> {
    if s.len() == 0 {
        Ok(LineNumber(0))
    } else {
        match parse_u32(s) {
            Ok(n) => Ok(LineNumber(n)),
            Err(e) => Err(e),
        }
    }
}

/// Parses a non-empty decimal string into a `u32` (`u32::from_str`).
pub fn parse_u32_chars(v: &Vec<char>) -> (r: Result<u32, LineNumberError>)
    requires
        v@.len() > 0,
    ensures
        r == parse_u32(v@),
{
    let mut i: usize = 0;
    if v[0] == '+' {
        i = 1;
    }
    let ghost d = if v@.len() > 0 && v@[0] == '+' { v@.skip(1) } else { v@ };
    assert(d == v@.skip(i as int));
    if i == v.len() {
        return Err(LineNumberError::InvalidDigit);
    }
    let mut acc: u64 = 0;
    assert(parse_u32(v@) == scan_u32(d, 0));
    while i < v.len()
        invariant
            parse_u32(v@) == scan_u32(d, 0),
            i <= v@.len(),
            acc <= u32::MAX,
            scan_u32(d, 0) == scan_u32(v@.skip(i as int), acc as nat),
        decreases v@.len() - i,
    {
        let c = v[i];
        let ghost rest = v@.skip(i as int);
        assert(rest[0] == c);
        if !('0' <= c && c <= '9') {
            return Err(LineNumberError::InvalidDigit);
        }
        let dv: u64 = (c as u32 - '0' as u32) as u64;
        assert(dv == digit_value(c));
        let next: u64 = acc * 10 + dv;
        if next > 4294967295u64 {
            return Err(LineNumberError::Overflow);
        }
        assert(rest.skip(1) == v@.skip(i + 1));
        acc = next;
        i = i + 1;
    }
    assert(v@.skip(i as int).len() == 0);
    Ok(acc as u32)
}

// ---------------------------------------------------------------------------
// Sort order
// ---------------------------------------------------------------------------

/// Search result sort order (the `sort` query parameter).
#[derive(Debug, Clone, Copy, PartialEq, Eq)]
pub enum SortOrder {
    /// Sort by relevance (default).
    Relevancy,
    /// Sort by full file path.
    FullPath,
    /// Sort by last modification time.
    LastModTime,
}

/// Query-parameter value of a sort order.
pub open spec fn sort_query_value(o: SortOrder) -> Seq<char> {
    match o {
        SortOrder::Relevancy => "relevancy"@,
        SortOrder::FullPath => "fullpath"@,
        SortOrder::LastModTime => "lastmodtime"@,
    }
}

/// Name of a sort order as `Debug` prints it.
pub open spec fn sort_debug_name(o: SortOrder) -> Seq<char> {
    match o {
        SortOrder::Relevancy => "Relevancy"@,
        SortOrder::FullPath => "FullPath"@,
        SortOrder::LastModTime => "LastModTime"@,
    }
}

impl SortOrder {
    /// Returns the query parameter value for this sort order.
    pub fn as_query_value(self) -> (s: &'static str)
        ensures
            s@ == sort_query_value(self),
    {
        match self {
            SortOrder::Relevancy => "relevancy",
            SortOrder::FullPath => "fullpath",
            SortOrder::LastModTime => "lastmodtime",
        }
    }

    /// What `Display` prints: the query parameter value.
    pub fn to_string(&self) -> (s: String)
        ensures
            s@ == sort_query_value(*self),
    {
        String::from_str(self.as_query_value())
    }

    /// The variant name, as `Debug` prints it.
    pub fn debug_name(self) -> (s: &'static str)
        ensures
            s@ == sort_debug_name(self),
    {
        match self {
            SortOrder::Relevancy => "Relevancy",
            SortOrder::FullPath => "FullPath",
            SortOrder::LastModTime => "LastModTime",
        }
    }

    /// The sort order whose query value is exactly `s`, if any.
    pub fn from_query_value(s: &str) -> (r: Option<SortOrder>)
        ensures
            r matches Some(o) ==> sort_query_value(o) == s@,
            r is None ==> (forall|o: SortOrder| sort_query_value(o) != s@),
    {
        let v = chars_of(s);
        let rel = chars_of(SortOrder::Relevancy.as_query_value());
        let full = chars_of(SortOrder::FullPath.as_query_value());
        let last = chars_of(SortOrder::LastModTime.as_query_value());
        if chars_eq(&v, &rel) {
            Some(SortOrder::Relevancy)
        } else if chars_eq(&v, &full) {
            Some(SortOrder::FullPath)
        } else if chars_eq(&v, &last) {
            Some(SortOrder::LastModTime)
        } else {
            assert forall|o: SortOrder| sort_query_value(o) != s@ by {
                match o {
                    SortOrder::Relevancy => {},
                    SortOrder::FullPath => {},
                    SortOrder::LastModTime => {},
                }
            }
            None
        }
    }
}

impl Default for SortOrder {
    fn default() -> (r: Self)
        ensures
            r == SortOrder::Relevancy,
    {
        SortOrder::Relevancy
    }
}

// ---------------------------------------------------------------------------
// Search
// ---------------------------------------------------------------------------

/// Parameters for a search request.
#[derive(Debug, Clone, PartialEq, Eq)]
pub struct SearchRequest {
    /// Full-text search query (Lucene syntax).
    pub full: Option<String>,
    /// Definition search.
    pub def: Option<String>,
    /// Symbol/reference search.
    pub symbol: Option<String>,
    /// File path glob search.
    pub path: Option<String>,
    /// History search.
    pub hist: Option<String>,
    /// File type filter.
    pub file_type: Option<String>,
    /// Projects to scope the search. Empty = all projects.
    pub projects: Vec<String>,
    /// Maximum number of result documents.
    pub max_results: Option<u32>,
    /// Pagination: start index.
    pub start: Option<u32>,
    /// Maximum matching lines per file (0 = all).
    pub max_hits_per_file: Option<u32>,
    /// Sort order.
    pub sort: Option<SortOrder>,
}

impl Default for SearchRequest {
    fn default() -> (r: Self)
        ensures
            r.full is None,
            r.def is None,
            r.symbol is None,
            r.path is None,
            r.hist is None,
            r.file_type is None,
            r.projects@.len() == 0,
            r.max_results is None,
            r.start is None,
            r.max_hits_per_file is None,
            r.sort is None,
    {
        SearchRequest {
            full: None,
            def: None,
            symbol: None,
            path: None,
            hist: None,
            file_type: None,
            projects: Vec::new(),
            max_results: None,
            start: None,
            max_hits_per_file: None,
            sort: None,
        }
    }
}

/// At least one search field is populated.
pub open spec fn request_has_query(r: SearchRequest) -> bool {
    r.full is Some || r.def is Some || r.symbol is Some || r.path is Some || r.hist is Some
}

/// The per-file hit cap after applying the service cap.
pub open spec fn capped_max_hits(requested: Option<u32>, cap: u32) -> u32 {
    match requested {
        Some(mh) => if mh < cap { mh } else { cap },
        None => cap,
    }
}

impl SearchRequest {
    /// Returns `true` if at least one search field is populated.
    pub fn has_query(&self) -> (b: bool)
        ensures
            b == request_has_query(*self),
    {
        self.full.is_some() || self.def.is_some() || self.symbol.is_some() || self.path.is_some()
            || self.hist.is_some()
    }

    /// Applies service-level defaults: `max_hits_per_file` is capped at
    /// `cap_max_hits` (and set to it when absent); `max_results` is set to
    /// `default_max_results` when absent. Every other field is kept.
    pub fn with_defaults(self, cap_max_hits: u32, default_max_results: u32) -> (r: Self)
        ensures
            r.max_hits_per_file == Some(capped_max_hits(self.max_hits_per_file, cap_max_hits)),
            r.max_results == (match self.max_results {
                Some(m) => Some(m),
                None => Some(default_max_results),
            }),
            r.full == self.full,
            r.def == self.def,
            r.symbol == self.symbol,
            r.path == self.path,
            r.hist == self.hist,
            r.file_type == self.file_type,
            r.projects == self.projects,
            r.start == self.start,
            r.sort == self.sort,
    {
        let mut r = self;
        match r.max_hits_per_file {
            Some(mh) => {
                r.max_hits_per_file = Some(if mh < cap_max_hits { mh } else { cap_max_hits });
            },
            None => {
                r.max_hits_per_file = Some(cap_max_hits);
            },
        }
        if r.max_results.is_none() {
            r.max_results = Some(default_max_results);
        }
        r
    }
}

/// A single search hit (one matching line).
#[derive(Debug, Clone, PartialEq, Eq)]
pub struct SearchHit {
    /// Line number within the file.
    pub line_number: LineNumber,
    /// Matched line text (may contain HTML `<b>` tags).
    pub line: String,
    /// Semantic tag (e.g. "function in pickle_file").
    pub tag: String,
}

/// Hits for a single file.
#[derive(Debug, Clone, PartialEq, Eq)]
pub struct FileHits {
    /// Absolute file path within the source tree.
    pub path: String,
    /// Matching lines for this file.
    pub hits: Vec<SearchHit>,
}

/// Complete search response.
#[derive(Debug, Clone, PartialEq, Eq)]
pub struct SearchResults {
    /// Total number of matching documents.
    pub result_count: u32,
    /// Index of the first document in this page.
    pub start_document: u32,
    /// Index of the last document in this page.
    pub end_document: u32,
    /// Server-side processing time in milliseconds.
    pub duration_ms: u64,
    /// Hits grouped by file path, in ascending path order.
    pub hits_by_file: Vec<FileHits>,
}

/// There are more documents beyond the returned page.
pub open spec fn results_have_more(r: SearchResults) -> bool {
    r.end_document + 1 < r.result_count
}

impl SearchResults {
    /// Returns `true` if there are more results beyond this page (never
    /// when the page ends at the last representable index).
    pub fn has_more(&self) -> (b: bool)
        ensures
            b == results_have_more(*self),
    {
        (self.end_document as u64) + 1 < self.result_count as u64
    }
}

/// One hit as OpenGrok sends it (`tag` may be `null`).
#[derive(Debug, Clone, PartialEq, Eq)]
pub struct SearchHitDto {
    pub line: String,
    pub line_number: LineNumber,
    pub tag: Option<String>,
}

/// A `/search` response as OpenGrok sends it; `results` lists the files
/// by path, each path once and in ascending order (the order of the JSON
/// object's keys once sorted): see [`SearchResponseDto::paths_ascending`].
#[derive(Debug, Clone, PartialEq, Eq)]
pub struct SearchResponseDto {
    pub time: u64,
    pub result_count: u32,
    pub start_document: u32,
    pub end_document: u32,
    pub results: Vec<(String, Vec<SearchHitDto>)>,
}

/// The file paths of a response, each once and in strictly ascending order.
pub open spec fn dto_paths_ascending(results: Seq<(String, Vec<SearchHitDto>)>) -> bool {
    forall|i: int, j: int|
        0 <= i < j < results.len() ==> chars_less(#[trigger] results[i].0@, #[trigger] results[j].0@)
}

/// The files of a result, each path once and in strictly ascending order.
pub open spec fn files_ascending(files: Seq<FileHits>) -> bool {
    forall|i: int, j: int|
        0 <= i < j < files.len() ==> chars_less(#[trigger] files[i].path@, #[trigger] files[j].path@)
}

impl SearchResponseDto {
    /// Whether the files are listed each once, in strictly ascending path
    /// order, as a decoded JSON object's keys come.
    pub fn paths_ascending(&self) -> (b: bool)
        ensures
            b == dto_paths_ascending(self.results@),
    {
        if self.results.len() == 0 {
            return true;
        }
        let mut k: usize = 1;
        while k < self.results.len()
            invariant
                1 <= k <= self.results@.len(),
                forall|i: int, j: int|
                    0 <= i < j < k ==> chars_less(#[trigger] self.results@[i].0@, #[trigger] self.results@[j].0@),
            decreases self.results@.len() - k,
        {
            if !str_lt(self.results[k - 1].0.as_str(), self.results[k].0.as_str()) {
                assert(!chars_less(self.results@[k - 1].0@, self.results@[k as int].0@));
                return false;
            }
            assert forall|i: int, j: int| 0 <= i < j < k + 1 implies chars_less(
                #[trigger] self.results@[i].0@,
                #[trigger] self.results@[j].0@,
            ) by {
                if j == k && i < k - 1 {
                    lemma_chars_less_transitive(
                        self.results@[i].0@,
                        self.results@[k - 1].0@,
                        self.results@[k as int].0@,
                    );
                }
            }
            k = k + 1;
        }
        true
    }
}

/// The tag of a hit: a `null` tag becomes the empty string.
pub open spec fn hit_tag(t: Option<String>) -> Seq<char> {
    match t {
        Some(s) => s@,
        None => Seq::empty(),
    }
}

/// `hit` is the normalised form of `dto`.
pub open spec fn hit_from_dto(hit: SearchHit, dto: SearchHitDto) -> bool {
    &&& hit.line_number == dto.line_number
    &&& hit.line == dto.line
    &&& hit.tag@ == hit_tag(dto.tag)
}

/// `f` is the normalised form of one file entry of a response.
pub open spec fn file_hits_from_dto(f: FileHits, dto: (String, Vec<SearchHitDto>)) -> bool {
    &&& f.path == dto.0
    &&& f.hits@.len() == dto.1@.len()
    &&& forall|j: int| 0 <= j < f.hits@.len() ==> hit_from_dto(#[trigger] f.hits@[j], dto.1@[j])
}

fn hit_of_dto(dto: SearchHitDto) -> (h: SearchHit)
    ensures
        hit_from_dto(h, dto),
{
    let tag = match dto.tag {
        Some(t) => t,
        None => String::new(),
    };
    SearchHit { line_number: dto.line_number, line: dto.line, tag }
}

fn file_hits_of_dto(path: String, hits: Vec<SearchHitDto>) -> (f: FileHits)
    ensures
        file_hits_from_dto(f, (path, hits)),
{
    let ghost orig = hits@;
    let mut out: Vec<SearchHit> = Vec::new();
    for h in it: hits.into_iter()
        invariant
            it.seq() == orig,
            out@.len() == it.index(),
            forall|j: int| 0 <= j < it.index() ==> hit_from_dto(#[trigger] out@[j], orig[j]),
    {
        out.push(hit_of_dto(h));
    }
    FileHits { path, hits: out }
}

impl SearchResults {
    /// Converts a decoded `/search` response, whose files come each once in
    /// ascending path order: `time` becomes `duration_ms`, file order is
    /// kept, `null` tags become empty.
    pub fn from_dto(dto: SearchResponseDto) -> (r: SearchResults)
        requires
            dto_paths_ascending(dto.results@),
        ensures
            files_ascending(r.hits_by_file@),
            r.result_count == dto.result_count,
            r.start_document == dto.start_document,
            r.end_document == dto.end_document,
            r.duration_ms == dto.time,
            r.hits_by_file@.len() == dto.results@.len(),
            forall|i: int| 0 <= i < r.hits_by_file@.len() ==>
                file_hits_from_dto(#[trigger] r.hits_by_file@[i], dto.results@[i]),
    {
        let ghost orig = dto.results@;
        let mut files: Vec<FileHits> = Vec::new();
        for pair in it: dto.results.into_iter()
            invariant
                it.seq() == orig,
                files@.len() == it.index(),
                forall|j: int| 0 <= j < it.index() ==> file_hits_from_dto(#[trigger] files@[j], orig[j]),
        {
            let (path, hits) = pair;
            files.push(file_hits_of_dto(path, hits));
        }
        assert forall|i: int, j: int| 0 <= i < j < files@.len() implies chars_less(
            #[trigger] files@[i].path@,
            #[trigger] files@[j].path@,
        ) by {
            assert(file_hits_from_dto(files@[i], orig[i]));
            assert(file_hits_from_dto(files@[j], orig[j]));
        }
        SearchResults {
            result_count: dto.result_count,
            start_document: dto.start_document,
            end_document: dto.end_document,
            duration_ms: dto.time,
            hits_by_file: files,
        }
    }
}

// ---------------------------------------------------------------------------
// File content, genre, definitions
// ---------------------------------------------------------------------------

/// File genre as reported by OpenGrok's analyzer.
#[derive(Debug, Clone, Copy, PartialEq, Eq)]
pub enum FileGenre {
    /// Plain text (searchable, xrefable).
    Plain,
    /// Cross-reference-able source code.
    Xrefable,
    /// Binary image.
    Image,
    /// Non-parseable data.
    Data,
    /// HTML content.
    Html,
}

/// The upper-case name OpenGrok uses for a genre on the wire.
pub open spec fn genre_wire_name(g: FileGenre) -> Seq<char> {
    match g {
        FileGenre::Plain => "PLAIN"@,
        FileGenre::Xrefable => "XREFABLE"@,
        FileGenre::Image => "IMAGE"@,
        FileGenre::Data => "DATA"@,
        FileGenre::Html => "HTML"@,
    }
}

/// The variant name of a genre, as `Debug` prints it.
pub open spec fn genre_debug_name(g: FileGenre) -> Seq<char> {
    match g {
        FileGenre::Plain => "Plain"@,
        FileGenre::Xrefable => "Xrefable"@,
        FileGenre::Image => "Image"@,
        FileGenre::Data => "Data"@,
        FileGenre::Html => "Html"@,
    }
}

impl FileGenre {
    /// The upper-case wire name of this genre.
    pub fn wire_name(self) -> (s: &'static str)
        ensures
            s@ == genre_wire_name(self),
    {
        match self {
            FileGenre::Plain => "PLAIN",
            FileGenre::Xrefable => "XREFABLE",
            FileGenre::Image => "IMAGE",
            FileGenre::Data => "DATA",
            FileGenre::Html => "HTML",
        }
    }

    /// The variant name, as `Debug` prints it.
    pub fn debug_name(self) -> (s: &'static str)
        ensures
            s@ == genre_debug_name(self),
    {
        match self {
            FileGenre::Plain => "Plain",
            FileGenre::Xrefable => "Xrefable",
            FileGenre::Image => "Image",
            FileGenre::Data => "Data",
            FileGenre::Html => "Html",
        }
    }

    /// The genre whose wire name is exactly `s` (names are case-sensitive).
    pub fn from_wire_name(s: &str) -> (r: Option<FileGenre>)
        ensures
            r matches Some(g) ==> genre_wire_name(g) == s@,
            r is None ==> (forall|g: FileGenre| genre_wire_name(g) != s@),
    {
        let v = chars_of(s);
        if chars_eq(&v, &chars_of(FileGenre::Plain.wire_name())) {
            Some(FileGenre::Plain)
        } else if chars_eq(&v, &chars_of(FileGenre::Xrefable.wire_name())) {
            Some(FileGenre::Xrefable)
        } else if chars_eq(&v, &chars_of(FileGenre::Image.wire_name())) {
            Some(FileGenre::Image)
        } else if chars_eq(&v, &chars_of(FileGenre::Data.wire_name())) {
            Some(FileGenre::Data)
        } else if chars_eq(&v, &chars_of(FileGenre::Html.wire_name())) {
            Some(FileGenre::Html)
        } else {
            assert forall|g: FileGenre| genre_wire_name(g) != s@ by {
                match g {
                    FileGenre::Plain => {},
                    FileGenre::Xrefable => {},
                    FileGenre::Image => {},
                    FileGenre::Data => {},
                    FileGenre::Html => {},
                }
            }
            None
        }
    }
}

/// Raw file content.
#[derive(Debug, Clone, PartialEq, Eq)]
pub struct FileContent {
    /// Path relative to source root.
    pub path: String,
    /// Raw text.
    pub text: String,
}

/// A definition within a file (function, class, etc.).
#[derive(Debug, Clone, PartialEq, Eq)]
pub struct FileDefinition {
    /// Kind of the definition (e.g. "function", "method", "class").
    pub def_type: String,
    /// Full signature.
    pub signature: String,
    /// Human-readable text.
    pub text: String,
    /// Symbol name.
    pub symbol: String,
    /// Start line (1-based).
    pub line_start: u32,
    /// End line (1-based).
    pub line_end: u32,
    /// Definition line.
    pub line: u32,
    /// Namespace if known.
    pub namespace: Option<String>,
}

/// A definition as OpenGrok sends it (`type` is a keyword in Rust).
#[derive(Debug, Clone, PartialEq, Eq)]
pub struct FileDefinitionDto {
    pub def_type: String,
    pub signature: String,
    pub text: String,
    pub symbol: String,
    pub line_start: u32,
    pub line_end: u32,
    pub line: u32,
    pub namespace: Option<String>,
}

impl FileDefinition {
    /// Converts a decoded definition; every field is kept.
    pub fn from_dto(dto: FileDefinitionDto) -> (r: FileDefinition)
        ensures
            r.def_type == dto.def_type,
            r.signature == dto.signature,
            r.text == dto.text,
            r.symbol == dto.symbol,
            r.line_start == dto.line_start,
            r.line_end == dto.line_end,
            r.line == dto.line,
            r.namespace == dto.namespace,
    {
        FileDefinition {
            def_type: dto.def_type,
            signature: dto.signature,
            text: dto.text,
            symbol: dto.symbol,
            line_start: dto.line_start,
            line_end: dto.line_end,
            line: dto.line,
            namespace: dto.namespace,
        }
    }
}

// ---------------------------------------------------------------------------
// Directory listing
// ---------------------------------------------------------------------------

/// A single directory entry (file or subdirectory).
#[derive(Debug, Clone, PartialEq, Eq)]
pub struct DirectoryEntry {
    /// Path relative to source root.
    pub path: String,
    /// Whether this entry is a directory.
    pub is_directory: bool,
    /// Line count for files (0 for directories).
    pub num_lines: u32,
    /// Lines of code (0 for directories).
    pub loc: u32,
    /// Last modification date as epoch milliseconds.
    pub date: Option<i64>,
    /// Description (human-readable, optional).
    pub description: Option<String>,
    /// File size in bytes (None for directories).
    pub size: Option<u64>,
}

// ---------------------------------------------------------------------------
// History and annotation
// ---------------------------------------------------------------------------

/// Request parameters for `/history`.
#[derive(Debug, Clone, PartialEq, Eq)]
pub struct HistoryRequest {
    pub path: String,
    pub start: Option<u32>,
    pub max: Option<u32>,
    pub with_files: Option<bool>,
}

/// A single history entry.
#[derive(Debug, Clone, PartialEq, Eq)]
pub struct HistoryEntry {
    /// Revision hash/number.
    pub revision: String,
    /// Author name.
    pub author: String,
    /// Timestamp as epoch milliseconds.
    pub date: i64,
    /// Commit message.
    pub message: String,
    /// Tags (e.g. branch names).
    pub tags: Vec<String>,
    /// Files changed in this revision.
    pub files: Vec<String>,
}

/// History response with pagination info.
#[derive(Debug, Clone, PartialEq, Eq)]
pub struct HistoryResponse {
    pub entries: Vec<HistoryEntry>,
    pub start: u32,
    pub count: u32,
    pub total: u32,
}

/// A single annotation (blame) entry.
#[derive(Debug, Clone, PartialEq, Eq)]
pub struct AnnotationEntry {
    /// Revision hash/number.
    pub revision: String,
    /// Author name.
    pub author: String,
    /// Line description.
    pub description: String,
    /// Version string (e.g. "14/15").
    pub version: String,
}

// ---------------------------------------------------------------------------
// Suggester
// ---------------------------------------------------------------------------

/// Request parameters for `/suggest`.
#[derive(Debug, Clone, PartialEq, Eq)]
pub struct SuggestRequest {
    pub projects: Vec<String>,
    pub field: String,
    pub caret: u32,
    pub full: Option<String>,
    pub defs: Option<String>,
    pub refs: Option<String>,
    pub path: Option<String>,
    pub hist: Option<String>,
    pub file_type: Option<String>,
}

/// A suggestion from the suggester.
#[derive(Debug, Clone, PartialEq, Eq)]
pub struct Suggestion {
    pub phrase: String,
    pub projects: Vec<String>,
    pub score: Option<i32>,
}

/// Configuration of the OpenGrok suggester.
#[derive(Debug, Clone, PartialEq, Eq)]
pub struct SuggestConfig {
    pub enabled: bool,
    pub max_results: u32,
    pub min_chars: u32,
    pub allowed_projects: Option<Vec<String>>,
    pub max_projects: u32,
    pub allowed_fields: Vec<String>,
    pub allow_complex_queries: bool,
    pub allow_most_popular: bool,
    pub show_scores: bool,
    pub show_projects: bool,
    pub show_time: bool,
    pub rebuild_cron_config: String,
    pub build_termination_time: u32,
    pub rebuild_thread_pool_size_in_ncpu_percent: u32,
    pub search_thread_pool_size_in_ncpu_percent: u32,
}

// ---------------------------------------------------------------------------
// Errors
// ---------------------------------------------------------------------------

/// Cache-related errors.
#[derive(Debug, Clone, Copy, PartialEq, Eq)]
pub enum CacheError {
    CapacityExceeded,
}

/// Rate-limit errors.
#[derive(Debug, Clone, Copy, PartialEq, Eq)]
pub enum RateLimitError {
    Exceeded { retry_after_secs: u64 },
}

/// Unified error type of the library. Errors raised by the HTTP stack and
/// the JSON decoder are carried as their message text.
#[derive(Debug, Clone, PartialEq, Eq)]
pub enum DomainError {
    /// Search requires at least one of: full, def, symbol, path, hist.
    EmptyQuery,
    /// An invalid project name was provided.
    InvalidProject(String),
    /// OpenGrok returned a non-2xx response.
    HttpStatus { status: u16, body: String },
    /// Network/transport error (DNS, TLS, timeout, connection refused).
    Network(String),
    /// JSON decode error (malformed response).
    Decode(String),
    /// TLS or certificate error.
    Tls(String),
    /// Cache operation failed.
    Cache(CacheError),
    /// Rate limit exceeded.
    RateLimit(RateLimitError),
    /// The requested operation is not yet implemented.
    NotImplemented,
}

/// The message of a [`CacheError`].
pub open spec fn cache_error_message(e: CacheError) -> Seq<char> {
    match e {
        CacheError::CapacityExceeded => "cache capacity exceeded"@,
    }
}

/// The message of a [`RateLimitError`].
pub open spec fn rate_limit_error_message(e: RateLimitError) -> Seq<char> {
    match e {
        RateLimitError::Exceeded { retry_after_secs } =>
            "rate limit exceeded, retry after "@ + decimal(retry_after_secs as nat) + "s"@,
    }
}

/// The message of a [`DomainError`] (what `Display` prints).
pub open spec fn domain_error_message(e: DomainError) -> Seq<char> {
    match e {
        DomainError::EmptyQuery =>
            "opengrok: search requires at least one of: full, def, symbol, path, hist"@,
        DomainError::InvalidProject(p) => "opengrok: invalid project name: "@ + p@,
        DomainError::HttpStatus { status, body } =>
            "opengrok: HTTP "@ + decimal(status as nat) + ": "@ + body@,
        DomainError::Network(m) => "opengrok: network error: "@ + m@,
        DomainError::Decode(m) => "opengrok: decode error: "@ + m@,
        DomainError::Tls(m) => "opengrok: TLS/cert error: "@ + m@,
        DomainError::Cache(c) => cache_error_message(c),
        DomainError::RateLimit(r) => rate_limit_error_message(r),
        DomainError::NotImplemented => "opengrok: not yet implemented"@,
    }
}

impl CacheError {
    /// The error message.
    pub fn to_string(&self) -> (s: String)
        ensures
            s@ == cache_error_message(*self),
    {
        match self {
            CacheError::CapacityExceeded => String::from_str("cache capacity exceeded"),
        }
    }
}

impl RateLimitError {
    /// The error message.
    pub fn to_string(&self) -> (s: String)
        ensures
            s@ == rate_limit_error_message(*self),
    {
        match self {
            RateLimitError::Exceeded { retry_after_secs } => {
                let mut s = String::from_str("rate limit exceeded, retry after ");
                push_decimal(&mut s, *retry_after_secs);
                push_str(&mut s, "s");
                s
            },
        }
    }
}

impl DomainError {
    /// The error message (what `Display` prints).
    pub fn to_string(&self) -> (s: String)
        ensures
            s@ == domain_error_message(*self),
    {
        match self {
            DomainError::EmptyQuery => String::from_str(
                "opengrok: search requires at least one of: full, def, symbol, path, hist",
            ),
            DomainError::InvalidProject(p) => {
                let mut s = String::from_str("opengrok: invalid project name: ");
                push_str(&mut s, p.as_str());
                s
            },
            DomainError::HttpStatus { status, body } => {
                let mut s = String::from_str("opengrok: HTTP ");
                push_decimal(&mut s, *status as u64);
                push_str(&mut s, ": ");
                push_str(&mut s, body.as_str());
                s
            },
            DomainError::Network(m) => {
                let mut s = String::from_str("opengrok: network error: ");
                push_str(&mut s, m.as_str());
                s
            },
            DomainError::Decode(m) => {
                let mut s = String::from_str("opengrok: decode error: ");
                push_str(&mut s, m.as_str());
                s
            },
            DomainError::Tls(m) => {
                let mut s = String::from_str("opengrok: TLS/cert error: ");
                push_str(&mut s, m.as_str());
                s
            },
            DomainError::Cache(c) => c.to_string(),
            DomainError::RateLimit(r) => r.to_string(),
            DomainError::NotImplemented => String::from_str("opengrok: not yet implemented"),
        }
    }
}

/// Distinct sort orders have distinct query values, so the value names
/// the order: `from_query_value(o.as_query_value())` is `Some(o)`.
pub proof fn law_sort_query_values_are_distinct(a: SortOrder, b: SortOrder)
    ensures
        sort_query_value(a) == sort_query_value(b) ==> a == b,
{
    reveal_strlit("relevancy");
    reveal_strlit("fullpath");
    reveal_strlit("lastmodtime");
    if sort_query_value(a) == sort_query_value(b) {
        assert(sort_query_value(a).len() == sort_query_value(b).len());
    }
}

/// Distinct genres have distinct wire names, so the name read back from a
/// response gives the genre that was sent.
pub proof fn law_genre_wire_names_are_distinct(a: FileGenre, b: FileGenre)
    ensures
        genre_wire_name(a) == genre_wire_name(b) ==> a == b,
{
    reveal_strlit("PLAIN");
    reveal_strlit("XREFABLE");
    reveal_strlit("IMAGE");
    reveal_strlit("DATA");
    reveal_strlit("HTML");
    if genre_wire_name(a) == genre_wire_name(b) {
        assert(genre_wire_name(a)[0] == genre_wire_name(b)[0]);
        assert(genre_wire_name(a).len() == genre_wire_name(b).len());
    }
}

proof fn lemma_digit(d: nat)
    requires
        d < 10,
    ensures
        is_digit(digit_char(d)),
        digit_value(digit_char(d)) == d,
        digit_char(d) != '+',
{
    if d == 0 {} else if d == 1 {} else if d == 2 {} else if d == 3 {} else if d == 4 {}
    else if d == 5 {} else if d == 6 {} else if d == 7 {} else if d == 8 {} else {}
}

proof fn lemma_scan_push(s: Seq<char>, acc: nat, c: char)
    requires
        acc <= u32::MAX,
        scan_u32(s, acc) is Ok,
        is_digit(c),
        (scan_u32(s, acc)->Ok_0 as nat) * 10 + digit_value(c) <= u32::MAX,
    ensures
        scan_u32(s.push(c), acc) == Ok::<u32, LineNumberError>(((scan_u32(s, acc)->Ok_0 as nat) * 10 + digit_value(c)) as u32),
    decreases s.len(),
{
    if s.len() == 0 {
        assert(scan_u32(s, acc) == Ok::<u32, LineNumberError>(acc as u32));
        assert(s.push(c) =~= seq![c]);
        assert(seq![c].skip(1) =~= Seq::<char>::empty());
        let next = acc * 10 + digit_value(c);
        assert(scan_u32(seq![c].skip(1), next) == Ok::<u32, LineNumberError>(next as u32));
        assert(scan_u32(seq![c], acc) == scan_u32(seq![c].skip(1), next));
    } else {
        let next = acc * 10 + digit_value(s[0]);
        assert(is_digit(s[0]));
        assert(next <= u32::MAX);
        assert(scan_u32(s, acc) == scan_u32(s.skip(1), next));
        assert(s.push(c)[0] == s[0]);
        assert(s.push(c).skip(1) =~= s.skip(1).push(c));
        lemma_scan_push(s.skip(1), next, c);
        assert(scan_u32(s.push(c), acc) == scan_u32(s.push(c).skip(1), next));
    }
}

proof fn lemma_decimal_scan(m: nat)
    requires
        m <= u32::MAX,
    ensures
        scan_u32(decimal(m), 0) == Ok::<u32, LineNumberError>(m as u32),
        decimal(m).len() > 0,
        is_digit(decimal(m)[0]),
    decreases m,
{
    if m < 10 {
        lemma_digit(m);
        let c = digit_char(m);
        assert(decimal(m) == seq![c]);
        assert(seq![c].skip(1) =~= Seq::<char>::empty());
        assert(scan_u32(seq![c].skip(1), m) == Ok::<u32, LineNumberError>(m as u32));
        assert(scan_u32(seq![c], 0) == scan_u32(seq![c].skip(1), 0 * 10 + digit_value(c)));
    } else {
        lemma_decimal_scan(m / 10);
        lemma_digit(m % 10);
        assert((m / 10) * 10 + m % 10 == m);
        lemma_scan_push(decimal(m / 10), 0, digit_char(m % 10));
        assert(decimal(m) == decimal(m / 10).push(digit_char(m % 10)));
        assert(decimal(m)[0] == decimal(m / 10)[0]);
    }
}

/// A line number written as text reads back as the same line: the
/// decimal text that `to_string` gives decodes, by `from_wire_str`, to the
/// number it was written from.
pub proof fn law_line_number_text_round_trip(n: u32)
    ensures
        line_number_from_text(decimal(n as nat)) == Ok::<LineNumber, LineNumberError>(LineNumber(n)),
{
    lemma_decimal_scan(n as nat);
    let d = decimal(n as nat);
    lemma_digit(digit_value(d[0]));
    assert(d[0] != '+');
}

} // verus!
