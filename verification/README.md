# switchboard_plugins

Four Switchboard guest plugins — Bland.ai, Clerk, Looker and the Figma
Desktop Bridge — with their logic verified by Verus.

## Layout

- `src/` — the verified library.
  - `text.rs`, `encoding.rs`, `json.rs`: strings, percent-encoding (with its
    round-trip, injectivity and alphabet laws), and reading JSON text with
    `serde_json`.
  - `args.rs`, `request.rs`, `tool_def.rs`: tool arguments, the requests a
    tool plans (method, path, query, JSON body), replies, and tool
    descriptions.
  - `bland/`, `clerk/`, `looker/`, `figma_bridge/`: one module per plugin,
    each with its tools (`handlers.rs`), their descriptions (`tools.rs`),
    and configuration, dispatch, request preparation and reply handling
    (`mod.rs`). Each tool has a spec function (`*_plan`) that its contract
    states the result by. Looker's `Session` holds the login and token-cache
    protocol as a state machine.
- `app/` — the plugins' Switchboard ABI around the library: reading the
  host's input, converting JSON arguments, sending HTTP requests through the
  host and returning results.
- `tests/` — tests of the library.
