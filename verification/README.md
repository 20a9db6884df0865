# vim-mcp

An MCP server that bridges MCP clients and running Vim instances. Clients call
tools and read resources over stdio; Vim instances connect over a Unix socket and
exchange newline-delimited JSON.

- `src/` is the verified library: JSON values, the protocol, the registry of
  instances and pending requests, the judgement of commands, the tools and the
  resources. It does no input or output. A call runs in steps: each step says what
  to send or how long to sleep, and is resumed with what came of it.
- `src/*_laws.rs` state what holds of the library as a whole.
- `app/` runs the steps: sockets, clocks, files and the MCP transport.
- `tests/` runs the library on concrete values.

What the library takes on trust stands in `src/serde_values.rs` (`serde_json`),
`src/clock.rs` (the system's clock) and `src/text.rs` (character classes and lower
case of the standard library).
