# opengrok_mcp

An MCP (Model Context Protocol) server for the OpenGrok code search engine,
whose core is a library verified with Verus.

## Layout

- `src/` — the verified library:
  - `domain` — the OpenGrok models, their wire forms and the error types;
  - `text` — character-level building blocks (decimal and hex rendering,
    replacement, trimming) with exact specifications;
  - `format` — the plain-text renderings of search results and the other
    answers;
  - `request` — what the REST client sends (URLs, query parameters,
    percent-encoding) and how it reads the answers (status, genre bodies,
    decoding errors);
  - `cache` — the TTL + LRU cache of search answers, over the `lru` crate;
  - `service` — the decisions around a search (validation, defaults, cache
    key and lookup, caching of the answer);
  - `config` — the settings, their defaults, environment overrides,
    validation, and what they select;
  - `tools` — the MCP tool parameters and the requests they make;
  - `tls` — the trust-store decisions (certificate files, PEM parsing);
  - `access` — the bearer-token check of the HTTP endpoint;
  - `rate_limit` — the token bucket, over the `governor` crate;
  - `metrics` — the counters and their Prometheus exposition;
  - `mock` — a scripted repository for tests.
- `tests/` — the tests of the library.
- `app/` — the program around it: command line, file and environment
  reading, the HTTP client, the MCP server and its transports.
