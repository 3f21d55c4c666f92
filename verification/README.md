# Usage MCP server

An MCP server with one tool, `get_usage`. The tool asks a usage endpoint for a
report and returns the complete JSON report with a summary of its weekly,
monthly and other token, credit and request metrics. A report is cached for 30
seconds unless `USAGE_CACHE_TTL_SECONDS` says otherwise.

`src/` is the logic, verified with Verus:

- `json`, `codec`: JSON values; their text and numbers come from `serde_json`.
- `text`, `classify`: text helpers, and which fields of a report are metrics.
- `summary`, `summary_laws`: the summary of a report, and that it lists every
  metric of the report under its period and nothing else.
- `config`: environment variables, the Codex login or a custom configuration,
  and the request that they lead to.
- `http`, `server`: status codes, the cache and the tool.
- `rpc`, `rpc_laws`: JSON-RPC requests and replies.
- `transport`: arguments, standard input, HTTP responses and health checks.

A call that needs usage comes back as `Step::Fetch`. The caller sends the
request and hands each event to `continue_tool_call` until there is a reply.
Times are nanoseconds on one clock that the caller reads.

`app/` is the program around it: `main`, files, standard input and output, the
HTTP client and the HTTP listener. `tests/` runs the library.
