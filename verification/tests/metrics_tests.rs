use opengrok_mcp::metrics::{HealthResponse, Metrics};

#[test]
fn metrics_includes_counters() {
    let mut m = Metrics::new();
    m.record_tool_call();
    m.record_search();
    m.record_tool_error();

    let out = m.render(3);
    assert!(out.contains("opengrok_mcp_up 1"));
    assert!(out.contains("opengrok_mcp_tool_calls_total 1"));
    assert!(out.contains("opengrok_mcp_search_queries_total 1"));
    assert!(out.contains("opengrok_mcp_tool_errors_total 1"));
    assert!(out.contains("opengrok_mcp_uptime_seconds 3"));
}

#[test]
fn exposition_is_exact() {
    let m = Metrics::new();
    assert_eq!(
        m.render(0),
        "# HELP opengrok_mcp_up Whether the server is up (1=alive)\n\
         # TYPE opengrok_mcp_up gauge\n\
         opengrok_mcp_up 1\n\
         # HELP opengrok_mcp_uptime_seconds Server uptime in seconds\n\
         # TYPE opengrok_mcp_uptime_seconds counter\n\
         opengrok_mcp_uptime_seconds 0\n\
         # HELP opengrok_mcp_tool_calls_total Total MCP tool calls\n\
         # TYPE opengrok_mcp_tool_calls_total counter\n\
         opengrok_mcp_tool_calls_total 0\n\
         # HELP opengrok_mcp_tool_errors_total Tool calls that returned errors\n\
         # TYPE opengrok_mcp_tool_errors_total counter\n\
         opengrok_mcp_tool_errors_total 0\n\
         # HELP opengrok_mcp_search_queries_total Search queries processed\n\
         # TYPE opengrok_mcp_search_queries_total counter\n\
         opengrok_mcp_search_queries_total 0\n"
    );
}

#[test]
fn counters_count_independently() {
    let mut m = Metrics::new();
    m.record_tool_call();
    m.record_tool_call();
    m.record_search();
    assert_eq!(m.tool_calls(), 2);
    assert_eq!(m.search_queries(), 1);
    assert_eq!(m.tool_errors(), 0);
}

#[test]
fn health_returns_ok() {
    assert_eq!(HealthResponse::status(), "ok");
}

#[test]
fn ready_returns_json() {
    let (status, backend) = HealthResponse::ready_fields();
    assert_eq!(status, "ready");
    assert_eq!(backend, "unknown");
}
