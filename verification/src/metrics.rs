//! The server's counters and their Prometheus exposition, and the bodies of
//! the liveness and readiness probes.

use vstd::prelude::*;

use crate::text::{decimal, push_decimal, push_str};

verus! {

/// Counters of the MCP tool calls.
#[derive(Debug, Clone, Copy, PartialEq, Eq)]
pub struct Metrics {
    /// Total MCP tool calls processed.
    tool_calls_total: u64,
    /// Tool calls that returned an error.
    tool_calls_errors: u64,
    /// Total search queries (a subset of the tool calls).
    search_queries_total: u64,
}

/// `n + 1`, wrapping to 0 past `u64::MAX` (what an atomic `fetch_add`
/// does).
pub open spec fn bumped(n: u64) -> u64 {
    if n == u64::MAX { 0 } else { (n + 1) as u64 }
}

impl Metrics {
    /// Tool calls counted so far.
    pub closed spec fn calls(&self) -> u64 {
        self.tool_calls_total
    }

    /// Tool calls that failed, counted so far.
    pub closed spec fn errors(&self) -> u64 {
        self.tool_calls_errors
    }

    /// Search queries counted so far.
    pub closed spec fn searches(&self) -> u64 {
        self.search_queries_total
    }

    /// All counters at zero.
    pub fn new() -> (m: Self)
        ensures
            m.calls() == 0,
            m.errors() == 0,
            m.searches() == 0,
    {
        Metrics { tool_calls_total: 0, tool_calls_errors: 0, search_queries_total: 0 }
    }

    /// Counts one tool call.
    pub fn record_tool_call(&mut self)
        ensures
            final(self).calls() == bumped(old(self).calls()),
            final(self).errors() == old(self).errors(),
            final(self).searches() == old(self).searches(),
    {
        self.tool_calls_total = self.tool_calls_total.wrapping_add(1);
    }

    /// Counts one failed tool call.
    pub fn record_tool_error(&mut self)
        ensures
            final(self).calls() == old(self).calls(),
            final(self).errors() == bumped(old(self).errors()),
            final(self).searches() == old(self).searches(),
    {
        self.tool_calls_errors = self.tool_calls_errors.wrapping_add(1);
    }

    /// Counts one search query.
    pub fn record_search(&mut self)
        ensures
            final(self).calls() == old(self).calls(),
            final(self).errors() == old(self).errors(),
            final(self).searches() == bumped(old(self).searches()),
    {
        self.search_queries_total = self.search_queries_total.wrapping_add(1);
    }

    /// Tool calls counted so far.
    pub fn tool_calls(&self) -> (n: u64)
        ensures
            n == self.calls(),
    {
        self.tool_calls_total
    }

    /// Failed tool calls counted so far.
    pub fn tool_errors(&self) -> (n: u64)
        ensures
            n == self.errors(),
    {
        self.tool_calls_errors
    }

    /// Search queries counted so far.
    pub fn search_queries(&self) -> (n: u64)
        ensures
            n == self.searches(),
    {
        self.search_queries_total
    }
}

/// One metric: its `# HELP` and `# TYPE` lines and its sample line.
pub open spec fn metric_block(name: Seq<char>, help: Seq<char>, kind: Seq<char>, value: Seq<char>) -> Seq<char> {
    "# HELP "@ + name + " "@ + help + "\n"@ + "# TYPE "@ + name + " "@ + kind + "\n"@ + name + " "@
        + value + "\n"@
}

/// The Prometheus exposition of the counters, with the uptime in seconds.
pub open spec fn exposition(m: Metrics, uptime_secs: u64) -> Seq<char> {
    metric_block("opengrok_mcp_up"@, "Whether the server is up (1=alive)"@, "gauge"@, "1"@)
        + metric_block("opengrok_mcp_uptime_seconds"@, "Server uptime in seconds"@, "counter"@, decimal(uptime_secs as nat))
        + metric_block("opengrok_mcp_tool_calls_total"@, "Total MCP tool calls"@, "counter"@, decimal(m.calls() as nat))
        + metric_block("opengrok_mcp_tool_errors_total"@, "Tool calls that returned errors"@, "counter"@, decimal(m.errors() as nat))
        + metric_block("opengrok_mcp_search_queries_total"@, "Search queries processed"@, "counter"@, decimal(m.searches() as nat))
}

/// `line` is one whole line of `s`: it stands in `s` right at the start
/// or right after a line break.
pub open spec fn has_line(s: Seq<char>, line: Seq<char>) -> bool {
    exists|i: int|
        0 <= i && i + line.len() <= s.len() && #[trigger] s.subrange(i, i + line.len()) == line && (i == 0
            || s[i - 1] == '\n')
}

proof fn lemma_line_after_break(p: Seq<char>, h: Seq<char>, l: Seq<char>, q: Seq<char>)
    requires
        h.len() > 0,
        h.last() == '\n',
    ensures
        has_line(p + h + l + q, l),
{
    let s = p + h + l + q;
    let i: int = (p.len() + h.len()) as int;
    assert(s.subrange(i, i + l.len()) =~= l);
    assert(s[i - 1] == h.last());
}

proof fn lemma_block_sample_line(p: Seq<char>, name: Seq<char>, help: Seq<char>, kind: Seq<char>, value: Seq<char>, q: Seq<char>)
    ensures
        has_line(p + metric_block(name, help, kind, value) + q, name + " "@ + value + "\n"@),
{
    reveal_strlit("\n");
    let h = "# HELP "@ + name + " "@ + help + "\n"@ + "# TYPE "@ + name + " "@ + kind + "\n"@;
    let l = name + " "@ + value + "\n"@;
    assert(metric_block(name, help, kind, value) =~= h + l);
    assert(p + metric_block(name, help, kind, value) + q =~= p + h + l + q);
    lemma_line_after_break(p, h, l, q);
}

/// Each counter is exposed under its own name: the exposition holds the
/// whole line `opengrok_mcp_tool_calls_total {calls}`, the line
/// `opengrok_mcp_tool_errors_total {errors}`, the line
/// `opengrok_mcp_search_queries_total {searches}` and the line
/// `opengrok_mcp_uptime_seconds {uptime}`, each value in decimal.
pub proof fn law_exposition_reports_each_counter(m: Metrics, uptime_secs: u64)
    ensures
        has_line(exposition(m, uptime_secs), "opengrok_mcp_tool_calls_total"@ + " "@ + decimal(m.calls() as nat) + "\n"@),
        has_line(exposition(m, uptime_secs), "opengrok_mcp_tool_errors_total"@ + " "@ + decimal(m.errors() as nat) + "\n"@),
        has_line(exposition(m, uptime_secs), "opengrok_mcp_search_queries_total"@ + " "@ + decimal(m.searches() as nat) + "\n"@),
        has_line(exposition(m, uptime_secs), "opengrok_mcp_uptime_seconds"@ + " "@ + decimal(uptime_secs as nat) + "\n"@),
{
    let b1 = metric_block("opengrok_mcp_up"@, "Whether the server is up (1=alive)"@, "gauge"@, "1"@);
    let b2 = metric_block("opengrok_mcp_uptime_seconds"@, "Server uptime in seconds"@, "counter"@, decimal(uptime_secs as nat));
    let calls = decimal(m.calls() as nat);
    let errors = decimal(m.errors() as nat);
    let b3 = metric_block("opengrok_mcp_tool_calls_total"@, "Total MCP tool calls"@, "counter"@, calls);
    let b4 = metric_block("opengrok_mcp_tool_errors_total"@, "Tool calls that returned errors"@, "counter"@, errors);
    let b5 = metric_block("opengrok_mcp_search_queries_total"@, "Search queries processed"@, "counter"@, decimal(m.searches() as nat));
    let e = exposition(m, uptime_secs);
    assert(e == b1 + b2 + b3 + b4 + b5);
    assert(has_line(e, "opengrok_mcp_tool_calls_total"@ + " "@ + decimal(m.calls() as nat) + "\n"@)) by {
        lemma_block_sample_line(b1 + b2, "opengrok_mcp_tool_calls_total"@, "Total MCP tool calls"@, "counter"@, calls, b4 + b5);
        assert(e =~= (b1 + b2) + b3 + (b4 + b5));
    }
    assert(has_line(e, "opengrok_mcp_tool_errors_total"@ + " "@ + decimal(m.errors() as nat) + "\n"@)) by {
        lemma_block_sample_line(b1 + b2 + b3, "opengrok_mcp_tool_errors_total"@, "Tool calls that returned errors"@, "counter"@, errors, b5);
        assert(e =~= (b1 + b2 + b3) + b4 + b5);
    }
    assert(has_line(e, "opengrok_mcp_search_queries_total"@ + " "@ + decimal(m.searches() as nat) + "\n"@)) by {
        lemma_block_sample_line(b1 + b2 + b3 + b4, "opengrok_mcp_search_queries_total"@, "Search queries processed"@, "counter"@, decimal(m.searches() as nat), Seq::empty());
        assert(e =~= (b1 + b2 + b3 + b4) + b5 + Seq::empty());
    }
    assert(has_line(e, "opengrok_mcp_uptime_seconds"@ + " "@ + decimal(uptime_secs as nat) + "\n"@)) by {
        lemma_block_sample_line(b1, "opengrok_mcp_uptime_seconds"@, "Server uptime in seconds"@, "counter"@, decimal(uptime_secs as nat), b3 + b4 + b5);
        assert(e =~= b1 + b2 + (b3 + b4 + b5));
    }
}

fn push_metric(out: &mut String, name: &str, help: &str, kind: &str, value: u64)
    ensures
        final(out)@ == old(out)@ + metric_block(name@, help@, kind@, decimal(value as nat)),
{
    proof {
        reveal_strlit("# HELP ");
        reveal_strlit(" ");
        reveal_strlit("\n");
        reveal_strlit("# TYPE ");
    }
    push_str(out, "# HELP ");
    push_str(out, name);
    push_str(out, " ");
    push_str(out, help);
    push_str(out, "\n");
    push_str(out, "# TYPE ");
    push_str(out, name);
    push_str(out, " ");
    push_str(out, kind);
    push_str(out, "\n");
    push_str(out, name);
    push_str(out, " ");
    push_decimal(out, value);
    push_str(out, "\n");
}

impl Metrics {
    /// The Prometheus text of the counters: `opengrok_mcp_up`, the uptime,
    /// the tool calls, the failed tool calls and the search queries, each
    /// with its help and type lines.
    pub fn render(&self, uptime_secs: u64) -> (s: String)
        ensures
            s@ == exposition(*self, uptime_secs),
    {
        proof {
            reveal_strlit("opengrok_mcp_up");
            reveal_strlit("Whether the server is up (1=alive)");
            reveal_strlit("gauge");
            reveal_strlit("opengrok_mcp_uptime_seconds");
            reveal_strlit("Server uptime in seconds");
            reveal_strlit("counter");
            reveal_strlit("opengrok_mcp_tool_calls_total");
            reveal_strlit("Total MCP tool calls");
            reveal_strlit("opengrok_mcp_tool_errors_total");
            reveal_strlit("Tool calls that returned errors");
            reveal_strlit("opengrok_mcp_search_queries_total");
            reveal_strlit("Search queries processed");
            reveal_strlit("1");
            assert(decimal(1) =~= "1"@);
        }
        let mut s = String::new();
        push_metric(&mut s, "opengrok_mcp_up", "Whether the server is up (1=alive)", "gauge", 1);
        push_metric(&mut s, "opengrok_mcp_uptime_seconds", "Server uptime in seconds", "counter", uptime_secs);
        push_metric(&mut s, "opengrok_mcp_tool_calls_total", "Total MCP tool calls", "counter", self.tool_calls_total);
        push_metric(&mut s, "opengrok_mcp_tool_errors_total", "Tool calls that returned errors", "counter", self.tool_calls_errors);
        push_metric(&mut s, "opengrok_mcp_search_queries_total", "Search queries processed", "counter", self.search_queries_total);
        assert(s@ == exposition(*self, uptime_secs));
        s
    }
}

/// The liveness probe's answer.
#[derive(Debug, Clone, Copy, PartialEq, Eq)]
pub struct HealthResponse;

impl HealthResponse {
    /// The `status` of a live process: `ok`.
    pub fn status() -> (s: &'static str)
        ensures
            s@ == "ok"@,
    {
        proof { reveal_strlit("ok"); }
        "ok"
    }

    /// The `status` and `opengrok` fields of the readiness answer: `ready`,
    /// and `unknown` for the backend, which is not probed.
    pub fn ready_fields() -> (r: (&'static str, &'static str))
        ensures
            r.0@ == "ready"@,
            r.1@ == "unknown"@,
    {
        proof {
            reveal_strlit("ready");
            reveal_strlit("unknown");
        }
        ("ready", "unknown")
    }
}

} // verus!
