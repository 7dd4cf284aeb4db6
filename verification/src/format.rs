//! Result formatting and HTML stripping.
//!
//! Turns search results, definitions and the other domain models into
//! plain text for an LLM. Every formatter states its output exactly, as
//! a concatenation of header, one line per item and an optional footer.

use vstd::prelude::*;

use crate::domain::{
    AnnotationEntry, DirectoryEntry, FileDefinition, FileHits, HistoryEntry, HistoryResponse,
    SearchHit, SearchResults, Suggestion, results_have_more,
};
use crate::text::{
    chars_of, decimal, lemma_decimal_injective, opt_view, push_chars, push_decimal, push_signed_decimal, push_str, replace_all,
    replace_all_exec, signed_decimal,
};

verus! {

// ---------------------------------------------------------------------------
// HTML stripping
// ---------------------------------------------------------------------------

/// `text` with every `<b>` removed, then every `</b>` removed.
pub open spec fn strip_html(text: Seq<char>) -> Seq<char> {
    replace_all(replace_all(text, "<b>"@, Seq::empty()), "</b>"@, Seq::empty())
}

/// Removes `<b>` and `</b>` tags from a string.
///
/// OpenGrok wraps search matches in `<b>Match</b>`. This function strips
/// those tags for cleaner LLM input.
pub fn strip_html_tags(text: &str) -> (s: String)
    ensures
        s@ == strip_html(text@),
{
    proof {
        reveal_strlit("<b>");
        reveal_strlit("</b>");
    }
    let v = chars_of(text);
    let open_tag = chars_of("<b>");
    let close_tag = chars_of("</b>");
    let empty: Vec<char> = Vec::new();
    let once = replace_all_exec(&v, &open_tag, &empty);
    let twice = replace_all_exec(&once, &close_tag, &empty);
    let mut s = String::new();
    push_chars(&mut s, twice.as_slice());
    s
}

// ---------------------------------------------------------------------------
// Formatter configuration
// ---------------------------------------------------------------------------

/// Configuration for result formatting.
#[derive(Debug, Clone)]
pub struct FormatterConfig {
    /// Whether to strip `<b>` tags from search result lines.
    pub strip_html: bool,
    /// Prefix for each result line.
    pub line_prefix: String,
}

impl Default for FormatterConfig {
    fn default() -> (r: Self)
        ensures
            r.strip_html,
            r.line_prefix@ == "  "@,
    {
        FormatterConfig { strip_html: true, line_prefix: String::from_str("  ") }
    }
}

/// Formats search results and other domain objects into text.
#[derive(Debug, Clone)]
pub struct ResultFormatter {
    config: FormatterConfig,
}

impl Default for ResultFormatter {
    fn default() -> (r: Self)
        ensures
            r.strips_html(),
            r.prefix() == "  "@,
    {
        ResultFormatter { config: FormatterConfig::default() }
    }
}

// ---------------------------------------------------------------------------
// Specifications of the formatted text
// ---------------------------------------------------------------------------

/// `" (tag)"`, or nothing for an empty tag.
pub open spec fn tag_suffix(tag: Seq<char>) -> Seq<char> {
    if tag.len() == 0 { Seq::empty() } else { " ("@ + tag + ")"@ }
}

/// One hit: `{prefix}Line {n}: {text}{tag_suffix}\n`.
pub open spec fn hit_line(strip: bool, prefix: Seq<char>, h: SearchHit) -> Seq<char> {
    prefix + "Line "@ + decimal(h.line_number.0 as nat) + ": "@
        + (if strip { strip_html(h.line@) } else { h.line@ }) + tag_suffix(h.tag@) + "\n"@
}

/// The lines of all hits of one file.
pub open spec fn hit_lines(strip: bool, prefix: Seq<char>, hits: Seq<SearchHit>) -> Seq<char>
    decreases hits.len(),
{
    if hits.len() == 0 {
        Seq::empty()
    } else {
        hit_lines(strip, prefix, hits.drop_last()) + hit_line(strip, prefix, hits.last())
    }
}

/// One file: a `### path` heading after a blank line, then its hits.
pub open spec fn file_block(strip: bool, prefix: Seq<char>, f: FileHits) -> Seq<char> {
    "\n### "@ + f.path@ + "\n"@ + hit_lines(strip, prefix, f.hits@)
}

/// The blocks of all files, in order.
pub open spec fn file_blocks(strip: bool, prefix: Seq<char>, files: Seq<FileHits>) -> Seq<char>
    decreases files.len(),
{
    if files.len() == 0 {
        Seq::empty()
    } else {
        file_blocks(strip, prefix, files.drop_last()) + file_block(strip, prefix, files.last())
    }
}

/// Total number of hits over all files.
pub open spec fn total_hits(files: Seq<FileHits>) -> nat
    decreases files.len(),
{
    if files.len() == 0 {
        0
    } else {
        total_hits(files.drop_last()) + files.last().hits@.len()
    }
}

/// The pagination hint, present when more documents exist.
pub open spec fn more_hint(r: SearchResults) -> Seq<char> {
    if results_have_more(r) {
        "\n[has more results — use start="@ + decimal((r.end_document + 1) as nat)
            + " for next page]\n"@
    } else {
        Seq::empty()
    }
}

/// The complete text of a search result.
pub open spec fn search_text(strip: bool, prefix: Seq<char>, r: SearchResults) -> Seq<char> {
    "Found "@ + decimal(total_hits(r.hits_by_file@)) + " result(s) across "@
        + decimal(r.hits_by_file@.len()) + " file(s):\n"@
        + file_blocks(strip, prefix, r.hits_by_file@) + more_hint(r)
}

proof fn lemma_total_hits_additive(a: Seq<FileHits>, b: Seq<FileHits>)
    ensures
        total_hits(a + b) == total_hits(a) + total_hits(b),
    decreases b.len(),
{
    if b.len() == 0 {
        assert(a + b =~= a);
    } else {
        lemma_total_hits_additive(a, b.drop_last());
        assert((a + b).drop_last() =~= a + b.drop_last());
        assert((a + b).last() == b.last());
    }
}

/// The header of a search answer counts hits, not files: it reads
/// `Found {H} result(s) across {F} file(s):` where `F` is the number of
/// files and `H` counts every hit of every file — no hits count 0, one
/// file counts its own hits, and the counts of two lists of files add up.
pub proof fn law_search_header_counts_hits(
    strip: bool,
    prefix: Seq<char>,
    r: SearchResults,
    f: FileHits,
    a: Seq<FileHits>,
    b: Seq<FileHits>,
)
    ensures
        search_text(strip, prefix, r).take(
            ("Found "@ + decimal(total_hits(r.hits_by_file@)) + " result(s) across "@ + decimal(
                r.hits_by_file@.len(),
            ) + " file(s):\n"@).len() as int,
        ) == "Found "@ + decimal(total_hits(r.hits_by_file@)) + " result(s) across "@ + decimal(
            r.hits_by_file@.len(),
        ) + " file(s):\n"@,
        total_hits(Seq::<FileHits>::empty()) == 0,
        total_hits(seq![f]) == f.hits@.len(),
        total_hits(a + b) == total_hits(a) + total_hits(b),
{
    let h = "Found "@ + decimal(total_hits(r.hits_by_file@)) + " result(s) across "@ + decimal(
        r.hits_by_file@.len(),
    ) + " file(s):\n"@;
    let t = file_blocks(strip, prefix, r.hits_by_file@) + more_hint(r);
    assert(search_text(strip, prefix, r) =~= h + t);
    assert((h + t).take(h.len() as int) =~= h);
    let one = seq![f];
    assert(one.drop_last() =~= Seq::<FileHits>::empty());
    assert(one.last() == f);
    assert(total_hits(one.drop_last()) == 0);
    lemma_total_hits_additive(a, b);
}

/// One definition line.
pub open spec fn definition_line(prefix: Seq<char>, d: FileDefinition) -> Seq<char> {
    prefix + "Line "@ + decimal(d.line as nat) + ": "@ + d.symbol@ + " — `"@ + d.signature@
        + "`"@ + (match d.namespace {
        Some(ns) => " [namespace: "@ + ns@ + "]"@,
        None => Seq::empty(),
    }) + "\n"@
}

/// A definition's line shows the definition's own `line` and nothing
/// else that varies with the location: two definitions with the same
/// symbol, signature, namespace and `line` give the same text whatever
/// their `line_start`, `line_end`, kind or text; two that differ only in
/// `line` give different texts; and the text reads `Line {line}: ` right
/// after the prefix.
pub proof fn law_definition_line_shows_its_line(prefix: Seq<char>, d1: FileDefinition, d2: FileDefinition)
    ensures
        definition_line(prefix, d1).take((prefix.len() + 5 + decimal(d1.line as nat).len() + 2) as int)
            == prefix + "Line "@ + decimal(d1.line as nat) + ": "@,
        (d1.symbol@ == d2.symbol@ && d1.signature@ == d2.signature@ && opt_view(d1.namespace) == opt_view(
            d2.namespace,
        ) && d1.line == d2.line) ==> definition_line(prefix, d1) == definition_line(prefix, d2),
        (d1.symbol@ == d2.symbol@ && d1.signature@ == d2.signature@ && opt_view(d1.namespace) == opt_view(
            d2.namespace,
        ) && d1.line != d2.line) ==> definition_line(prefix, d1) != definition_line(prefix, d2),
{
    reveal_strlit("Line ");
    reveal_strlit(": ");
    let a = prefix + "Line "@;
    let n1 = decimal(d1.line as nat);
    let n2 = decimal(d2.line as nat);
    let rest1 = ": "@ + d1.symbol@ + " — `"@ + d1.signature@ + "`"@ + (match d1.namespace {
        Some(ns) => " [namespace: "@ + ns@ + "]"@,
        None => Seq::empty(),
    }) + "\n"@;
    let rest2 = ": "@ + d2.symbol@ + " — `"@ + d2.signature@ + "`"@ + (match d2.namespace {
        Some(ns) => " [namespace: "@ + ns@ + "]"@,
        None => Seq::empty(),
    }) + "\n"@;
    assert(definition_line(prefix, d1) =~= a + n1 + rest1);
    assert(definition_line(prefix, d2) =~= a + n2 + rest2);
    assert((a + n1 + rest1).take((prefix.len() + 5 + n1.len() + 2) as int) =~= prefix + "Line "@ + n1 + ": "@);
    if d1.symbol@ == d2.symbol@ && d1.signature@ == d2.signature@ && opt_view(d1.namespace) == opt_view(d2.namespace) {
        assert(rest1 =~= rest2);
        if d1.line != d2.line && definition_line(prefix, d1) == definition_line(prefix, d2) {
            lemma_decimal_injective(d1.line as nat, d2.line as nat);
            assert(n1.len() == n2.len());
            assert(n1 =~= (a + n1 + rest1).subrange(a.len() as int, (a.len() + n1.len()) as int));
            assert(n2 =~= (a + n2 + rest2).subrange(a.len() as int, (a.len() + n2.len()) as int));
        }
    }
}

/// All definition lines.
pub open spec fn definition_lines(prefix: Seq<char>, defs: Seq<FileDefinition>) -> Seq<char>
    decreases defs.len(),
{
    if defs.len() == 0 {
        Seq::empty()
    } else {
        definition_lines(prefix, defs.drop_last()) + definition_line(prefix, defs.last())
    }
}

/// The text of a definition list.
pub open spec fn definitions_text(prefix: Seq<char>, defs: Seq<FileDefinition>) -> Seq<char> {
    if defs.len() == 0 {
        "No definitions found.\n"@
    } else {
        "Found "@ + decimal(defs.len()) + " definition(s):\n"@ + definition_lines(prefix, defs)
    }
}

/// One directory entry line, with a folder or page icon.
pub open spec fn directory_line(prefix: Seq<char>, e: DirectoryEntry) -> Seq<char> {
    prefix + (if e.is_directory { "📁"@ } else { "📄"@ }) + "  "@ + e.path@ + "\n"@
}

/// All directory entry lines.
pub open spec fn directory_lines(prefix: Seq<char>, es: Seq<DirectoryEntry>) -> Seq<char>
    decreases es.len(),
{
    if es.len() == 0 {
        Seq::empty()
    } else {
        directory_lines(prefix, es.drop_last()) + directory_line(prefix, es.last())
    }
}

/// The text of a directory listing.
pub open spec fn directory_text(prefix: Seq<char>, es: Seq<DirectoryEntry>) -> Seq<char> {
    if es.len() == 0 {
        "Directory is empty.\n"@
    } else {
        "Found "@ + decimal(es.len()) + " entries:\n"@ + directory_lines(prefix, es)
    }
}

/// One history line.
pub open spec fn history_line(prefix: Seq<char>, e: HistoryEntry) -> Seq<char> {
    prefix + "`"@ + e.revision@ + "` by "@ + e.author@ + " — "@ + e.message@ + "\n"@
}

/// All history lines.
pub open spec fn history_lines(prefix: Seq<char>, es: Seq<HistoryEntry>) -> Seq<char>
    decreases es.len(),
{
    if es.len() == 0 {
        Seq::empty()
    } else {
        history_lines(prefix, es.drop_last()) + history_line(prefix, es.last())
    }
}

/// The text of a history response.
pub open spec fn history_text(prefix: Seq<char>, h: HistoryResponse) -> Seq<char> {
    if h.entries@.len() == 0 {
        "No history found (total: "@ + decimal(h.total as nat) + " revisions).\n"@
    } else {
        "Showing "@ + decimal(h.count as nat) + " of "@ + decimal(h.total as nat)
            + " revisions:\n"@ + history_lines(prefix, h.entries@)
    }
}

/// The annotation line for the entry at 1-based line `n`.
pub open spec fn annotation_line(prefix: Seq<char>, n: nat, e: AnnotationEntry) -> Seq<char> {
    prefix + "Line "@ + decimal(n) + ": "@ + e.revision@ + " — "@ + e.author@ + " ("@
        + e.description@ + ")\n"@
}

/// All annotation lines, numbered from 1.
pub open spec fn annotation_lines(prefix: Seq<char>, es: Seq<AnnotationEntry>) -> Seq<char>
    decreases es.len(),
{
    if es.len() == 0 {
        Seq::empty()
    } else {
        annotation_lines(prefix, es.drop_last()) + annotation_line(prefix, es.len(), es.last())
    }
}

/// The text of an annotation.
pub open spec fn annotation_text(prefix: Seq<char>, es: Seq<AnnotationEntry>) -> Seq<char> {
    if es.len() == 0 {
        "No annotation found.\n"@
    } else {
        "Found "@ + decimal(es.len()) + " annotated lines:\n"@ + annotation_lines(prefix, es)
    }
}

/// One project line.
pub open spec fn project_line(prefix: Seq<char>, p: String) -> Seq<char> {
    prefix + "- "@ + p@ + "\n"@
}

/// All project lines.
pub open spec fn project_lines(prefix: Seq<char>, ps: Seq<String>) -> Seq<char>
    decreases ps.len(),
{
    if ps.len() == 0 {
        Seq::empty()
    } else {
        project_lines(prefix, ps.drop_last()) + project_line(prefix, ps.last())
    }
}

/// The text of a project list.
pub open spec fn projects_text(prefix: Seq<char>, ps: Seq<String>) -> Seq<char> {
    if ps.len() == 0 {
        "No projects found.\n"@
    } else {
        "Found "@ + decimal(ps.len()) + " project(s):\n"@ + project_lines(prefix, ps)
    }
}

/// One suggestion line, with its score when present.
pub open spec fn suggestion_line(prefix: Seq<char>, s: Suggestion) -> Seq<char> {
    prefix + "- "@ + s.phrase@ + (match s.score {
        Some(sc) => " (score: "@ + signed_decimal(sc as int) + ")"@,
        None => Seq::empty(),
    }) + "\n"@
}

/// All suggestion lines.
pub open spec fn suggestion_lines(prefix: Seq<char>, ss: Seq<Suggestion>) -> Seq<char>
    decreases ss.len(),
{
    if ss.len() == 0 {
        Seq::empty()
    } else {
        suggestion_lines(prefix, ss.drop_last()) + suggestion_line(prefix, ss.last())
    }
}

/// The text of a suggestion list.
pub open spec fn suggestions_text(prefix: Seq<char>, ss: Seq<Suggestion>) -> Seq<char> {
    if ss.len() == 0 {
        "No suggestions found.\n"@
    } else {
        "Found "@ + decimal(ss.len()) + " suggestion(s):\n"@ + suggestion_lines(prefix, ss)
    }
}

// ---------------------------------------------------------------------------
// The formatter
// ---------------------------------------------------------------------------

impl ResultFormatter {
    /// Whether search lines are stripped of `<b>` tags.
    pub closed spec fn strips_html(&self) -> bool {
        self.config.strip_html
    }

    /// The prefix of every item line.
    pub closed spec fn prefix(&self) -> Seq<char> {
        self.config.line_prefix@
    }

    /// Creates a new formatter with the given configuration.
    pub fn new(config: FormatterConfig) -> (r: Self)
        ensures
            r.strips_html() == config.strip_html,
            r.prefix() == config.line_prefix@,
    {
        ResultFormatter { config }
    }

    fn push_hit(&self, out: &mut String, h: &SearchHit)
        ensures
            final(out)@ == old(out)@ + hit_line(self.strips_html(), self.prefix(), *h),
    {
        push_str(out, self.config.line_prefix.as_str());
        push_str(out, "Line ");
        push_decimal(out, h.line_number.0 as u64);
        push_str(out, ": ");
        if self.config.strip_html {
            let t = strip_html_tags(h.line.as_str());
            push_str(out, t.as_str());
        } else {
            push_str(out, h.line.as_str());
        }
        if h.tag.as_str().is_empty() {
        } else {
            push_str(out, " (");
            push_str(out, h.tag.as_str());
            push_str(out, ")");
        }
        push_str(out, "\n");
    }

    fn push_file(&self, out: &mut String, f: &FileHits)
        ensures
            final(out)@ == old(out)@ + file_block(self.strips_html(), self.prefix(), *f),
    {
        let ghost start = out@;
        push_str(out, "\n### ");
        push_str(out, f.path.as_str());
        push_str(out, "\n");
        let ghost head = out@;
        let mut i: usize = 0;
        while i < f.hits.len()
            invariant
                i <= f.hits@.len(),
                out@ == head + hit_lines(self.strips_html(), self.prefix(), f.hits@.take(i as int)),
            decreases f.hits@.len() - i,
        {
            self.push_hit(out, &f.hits[i]);
            i = i + 1;
            assert(f.hits@.take(i as int).drop_last() == f.hits@.take(i - 1));
        }
        assert(f.hits@.take(f.hits@.len() as int) == f.hits@);
    }

    /// Formats search results: a count header, a `### path` block per file
    /// with one line per hit, and a pagination hint when more documents
    /// exist.
    pub fn format_search(&self, results: &SearchResults) -> (s: String)
        requires
            total_hits(results.hits_by_file@) <= usize::MAX,
        ensures
            s@ == search_text(self.strips_html(), self.prefix(), *results),
    {
        let files = &results.hits_by_file;
        let mut hit_count: usize = 0;
        let mut k: usize = 0;
        while k < files.len()
            invariant
                k <= files@.len(),
                total_hits(files@) <= usize::MAX,
                hit_count == total_hits(files@.take(k as int)),
            decreases files@.len() - k,
        {
            proof { lemma_total_hits_prefix(files@, k as int + 1); }
            assert(files@.take(k + 1).drop_last() == files@.take(k as int));
            hit_count = hit_count + files[k].hits.len();
            k = k + 1;
        }
        assert(files@.take(files@.len() as int) == files@);
        let mut out = String::from_str("Found ");
        push_decimal(&mut out, hit_count as u64);
        push_str(&mut out, " result(s) across ");
        push_decimal(&mut out, files.len() as u64);
        push_str(&mut out, " file(s):\n");
        let ghost head = out@;
        let mut i: usize = 0;
        while i < files.len()
            invariant
                i <= files@.len(),
                out@ == head + file_blocks(self.strips_html(), self.prefix(), files@.take(i as int)),
            decreases files@.len() - i,
        {
            self.push_file(&mut out, &files[i]);
            i = i + 1;
            assert(files@.take(i as int).drop_last() == files@.take(i - 1));
        }
        if results.has_more() {
            let next_start = results.end_document + 1;
            push_str(&mut out, "\n[has more results — use start=");
            push_decimal(&mut out, next_start as u64);
            push_str(&mut out, " for next page]\n");
        }
        out
    }

    fn push_definition(&self, out: &mut String, d: &FileDefinition)
        ensures
            final(out)@ == old(out)@ + definition_line(self.prefix(), *d),
    {
        push_str(out, self.config.line_prefix.as_str());
        push_str(out, "Line ");
        push_decimal(out, d.line as u64);
        push_str(out, ": ");
        push_str(out, d.symbol.as_str());
        push_str(out, " — `");
        push_str(out, d.signature.as_str());
        push_str(out, "`");
        match &d.namespace {
            Some(ns) => {
                push_str(out, " [namespace: ");
                push_str(out, ns.as_str());
                push_str(out, "]");
            },
            None => {},
        }
        push_str(out, "\n");
    }

    /// Formats a list of file definitions.
    pub fn format_definitions(&self, defs: &[FileDefinition]) -> (s: String)
        ensures
            s@ == definitions_text(self.prefix(), defs@),
    {
        if defs.len() == 0 {
            return String::from_str("No definitions found.\n");
        }
        let mut out = String::from_str("Found ");
        push_decimal(&mut out, defs.len() as u64);
        push_str(&mut out, " definition(s):\n");
        let ghost head = out@;
        let mut i: usize = 0;
        while i < defs.len()
            invariant
                i <= defs@.len(),
                out@ == head + definition_lines(self.prefix(), defs@.take(i as int)),
            decreases defs@.len() - i,
        {
            self.push_definition(&mut out, &defs[i]);
            i = i + 1;
            assert(defs@.take(i as int).drop_last() == defs@.take(i - 1));
        }
        assert(defs@.take(defs@.len() as int) == defs@);
        out
    }

    /// Formats a directory listing.
    pub fn format_directory(&self, entries: &[DirectoryEntry]) -> (s: String)
        ensures
            s@ == directory_text(self.prefix(), entries@),
    {
        if entries.len() == 0 {
            return String::from_str("Directory is empty.\n");
        }
        let mut out = String::from_str("Found ");
        push_decimal(&mut out, entries.len() as u64);
        push_str(&mut out, " entries:\n");
        let ghost head = out@;
        let mut i: usize = 0;
        while i < entries.len()
            invariant
                i <= entries@.len(),
                out@ == head + directory_lines(self.prefix(), entries@.take(i as int)),
            decreases entries@.len() - i,
        {
            let e = &entries[i];
            push_str(&mut out, self.config.line_prefix.as_str());
            if e.is_directory {
                push_str(&mut out, "📁");
            } else {
                push_str(&mut out, "📄");
            }
            push_str(&mut out, "  ");
            push_str(&mut out, e.path.as_str());
            push_str(&mut out, "\n");
            i = i + 1;
            assert(entries@.take(i as int).drop_last() == entries@.take(i - 1));
        }
        assert(entries@.take(entries@.len() as int) == entries@);
        out
    }

    /// Formats a history response.
    pub fn format_history(&self, history: &HistoryResponse) -> (s: String)
        ensures
            s@ == history_text(self.prefix(), *history),
    {
        if history.entries.len() == 0 {
            let mut out = String::from_str("No history found (total: ");
            push_decimal(&mut out, history.total as u64);
            push_str(&mut out, " revisions).\n");
            return out;
        }
        let mut out = String::from_str("Showing ");
        push_decimal(&mut out, history.count as u64);
        push_str(&mut out, " of ");
        push_decimal(&mut out, history.total as u64);
        push_str(&mut out, " revisions:\n");
        let ghost head = out@;
        let entries = &history.entries;
        let mut i: usize = 0;
        while i < entries.len()
            invariant
                i <= entries@.len(),
                out@ == head + history_lines(self.prefix(), entries@.take(i as int)),
            decreases entries@.len() - i,
        {
            let e = &entries[i];
            push_str(&mut out, self.config.line_prefix.as_str());
            push_str(&mut out, "`");
            push_str(&mut out, e.revision.as_str());
            push_str(&mut out, "` by ");
            push_str(&mut out, e.author.as_str());
            push_str(&mut out, " — ");
            push_str(&mut out, e.message.as_str());
            push_str(&mut out, "\n");
            i = i + 1;
            assert(entries@.take(i as int).drop_last() == entries@.take(i - 1));
        }
        assert(entries@.take(entries@.len() as int) == entries@);
        out
    }

    fn push_annotation_line(&self, out: &mut String, n: u64, e: &AnnotationEntry)
        ensures
            final(out)@ == old(out)@ + annotation_line(self.prefix(), n as nat, *e),
    {
        push_str(out, self.config.line_prefix.as_str());
        push_str(out, "Line ");
        push_decimal(out, n);
        push_str(out, ": ");
        push_str(out, e.revision.as_str());
        push_str(out, " — ");
        push_str(out, e.author.as_str());
        push_str(out, " (");
        push_str(out, e.description.as_str());
        push_str(out, ")\n");
        proof {
            reveal_strlit("Line ");
            reveal_strlit(": ");
            reveal_strlit(" — ");
            reveal_strlit(" (");
            reveal_strlit(")\n");
        }
    }

    /// Formats annotation (blame) entries, numbering lines from 1.
    pub fn format_annotation(&self, entries: &[AnnotationEntry]) -> (s: String)
        ensures
            s@ == annotation_text(self.prefix(), entries@),
    {
        if entries.len() == 0 {
            return String::from_str("No annotation found.\n");
        }
        let mut out = String::from_str("Found ");
        push_decimal(&mut out, entries.len() as u64);
        push_str(&mut out, " annotated lines:\n");
        let ghost head = out@;
        let mut i: usize = 0;
        while i < entries.len()
            invariant
                i <= entries@.len(),
                out@ == head + annotation_lines(self.prefix(), entries@.take(i as int)),
            decreases entries@.len() - i,
        {
            self.push_annotation_line(&mut out, i as u64 + 1, &entries[i]);
            i = i + 1;
            assert(entries@.take(i as int).drop_last() == entries@.take(i - 1));
        }
        assert(entries@.take(entries@.len() as int) == entries@);
        out
    }

    /// Formats a list of project names.
    pub fn format_projects(&self, projects: &[String]) -> (s: String)
        ensures
            s@ == projects_text(self.prefix(), projects@),
    {
        if projects.len() == 0 {
            return String::from_str("No projects found.\n");
        }
        let mut out = String::from_str("Found ");
        push_decimal(&mut out, projects.len() as u64);
        push_str(&mut out, " project(s):\n");
        let ghost head = out@;
        let mut i: usize = 0;
        while i < projects.len()
            invariant
                i <= projects@.len(),
                out@ == head + project_lines(self.prefix(), projects@.take(i as int)),
            decreases projects@.len() - i,
        {
            push_str(&mut out, self.config.line_prefix.as_str());
            push_str(&mut out, "- ");
            push_str(&mut out, projects[i].as_str());
            push_str(&mut out, "\n");
            i = i + 1;
            assert(projects@.take(i as int).drop_last() == projects@.take(i - 1));
        }
        assert(projects@.take(projects@.len() as int) == projects@);
        out
    }

    /// Formats suggestions, with their score when present.
    pub fn format_suggestions(&self, suggestions: &[Suggestion]) -> (s: String)
        ensures
            s@ == suggestions_text(self.prefix(), suggestions@),
    {
        if suggestions.len() == 0 {
            return String::from_str("No suggestions found.\n");
        }
        let mut out = String::from_str("Found ");
        push_decimal(&mut out, suggestions.len() as u64);
        push_str(&mut out, " suggestion(s):\n");
        let ghost head = out@;
        let mut i: usize = 0;
        while i < suggestions.len()
            invariant
                i <= suggestions@.len(),
                out@ == head + suggestion_lines(self.prefix(), suggestions@.take(i as int)),
            decreases suggestions@.len() - i,
        {
            let sg = &suggestions[i];
            push_str(&mut out, self.config.line_prefix.as_str());
            push_str(&mut out, "- ");
            push_str(&mut out, sg.phrase.as_str());
            match sg.score {
                Some(sc) => {
                    push_str(&mut out, " (score: ");
                    push_signed_decimal(&mut out, sc as i64);
                    push_str(&mut out, ")");
                },
                None => {},
            }
            push_str(&mut out, "\n");
            i = i + 1;
            assert(suggestions@.take(i as int).drop_last() == suggestions@.take(i - 1));
        }
        assert(suggestions@.take(suggestions@.len() as int) == suggestions@);
        out
    }
}

proof fn lemma_total_hits_prefix(files: Seq<FileHits>, k: int)
    requires
        0 <= k <= files.len(),
    ensures
        total_hits(files.take(k)) <= total_hits(files),
    decreases files.len(),
{
    if k < files.len() {
        assert(files.drop_last().take(k) == files.take(k));
        lemma_total_hits_prefix(files.drop_last(), k);
    } else {
        assert(files.take(k) == files);
    }
}

} // verus!
