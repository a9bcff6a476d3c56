# gitquarry_mcp

A stdio MCP server that exposes the `gitquarry` command-line program as tools.

- `src/` is the verified library (Verus): the command lines each tool runs
  (`commands`, `argv`, `options`), how a finished run is judged (`runner`,
  `text`, `decimal`), the tool results handed back (`tool`), the JSON calls into
  `serde_json` (`json`), and properties that span these (`laws`).
- `app/` is the program around it: environment, process spawning with a
  timeout, and the `rmcp` server with its tool handlers.
- `tests/` runs the library on concrete inputs.

Environment: `GITQUARRY_CLI_PATH` overrides the program path (default
`gitquarry`), `GITQUARRY_MCP_TIMEOUT_MS` the timeout in milliseconds (default
30000; it must be a positive integer).
