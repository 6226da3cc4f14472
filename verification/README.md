# torii — verified intake layer

`src/` is the library, verified with Verus:

- `raw_item.rs`, `id.rs`, `time.rs` — raw intake snapshots: kinds and their
  wire names, statuses, links, the builder that always yields `raw` items,
  and item identifiers (`ri_` + hyphenated UUID, version 7 from `uuid`
  for the item's own timestamp) with a proved text round trip; the
  simple, braced and URN forms that `uuid`'s parser reads are stated too.
- `task.rs`, `parse.rs`, `ai.rs` — the task draft, the wire names of
  priorities and statuses, the `create_task` tool, and the mapping of a
  model's reply onto a draft (JSON is read through `serde_json`).
- `prompts.rs` — the catalogue of bundled prompt names.
- `mcp.rs` — decisions of the MCP surface: method routing, the tool
  catalogue, the raw item an ingest request describes, and error replies.
- `error.rs`, `text.rs` — the error type and small string facts.

`app/` is the server around it (HTTP/MCP, storage, the AI provider, prompt
rendering, serde forms of the types). `tests/` runs the library.
