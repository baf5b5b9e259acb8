# cortex_mem

Verified decision logic of the Cortex memory system: its HTTP session
service, its MCP tool server and its command-line client.

- `src/` is the library, written in Verus and proved:
  - `trigger` — automatic processing of sessions (message threshold,
    inactivity sweep, minimum interval between processings) and its laws;
  - `tools` — the catalog of MCP tools with their input schemas, lookup by
    name, and its laws;
  - `mcp` — defaults, requests and answers of every MCP tool;
  - `sessions` — message roles, timeline URIs of stored messages, new
    thread ids, listing of session directories;
  - `close_wait` — closing a session and waiting until its memories are
    retrievable;
  - `cli` — choices of the command-line client and the bookkeeping of
    pruning dangling vectors;
  - `text` — character-level helpers.
- `tests/` exercises the library on concrete values.
- `app/` is the runtime around it (MCP server, HTTP handlers, CLI commands,
  serializable copies of the library's types); it is ordinary Rust and
  depends on the memory engine crates of the workspace.
