# wire_substrate

The decision logic of an agent-wire substrate node, written in Verus and
proved against its contracts: validation runs as explicit state machines,
parsers as functions on characters and bytes, reports as functions of their
sub-tests.

## Layout

- `src/` — the verified library.
  - `text`, `report` — string helpers with exact specifications; sub-test
    views and Markdown rendering shared by every report.
  - `cross_graph` — the `graph/epoch/slug/sequence` reference grammar.
  - `injection`, `recovery` — kill-point scenarios for the compute job
    lifecycle and the write-once recovery policy.
  - `stability`, `observability` — the L6 stability cycle loop and the
    invariant scans over its cycles.
  - `d3`, `d3_run`, `d3_dispatch` — the live compute-settlement report,
    retry policy and the run as a state machine over its stages; the job
    dispatch a provider reads and the results it posts back.
  - `mainnet_auth`, `contribution` — credential resolution and the
    contribution sync, each a state machine fed by its transport's replies.
  - `v1`, `provider_http` — the V1 CLI parser and surface dispositions;
    HTTP request heads of the local provider server.
  - `maintenance` — the V1 maintenance scheduler: which tasks fire at a
    tick, which are skipped, and when each is next due.
  - `handle_canonicalization` — shaping of tool responses around handle
    paths, over a JSON tree.
  - `cloudflare` — tunnel state, the transport driver and `cloudflared`
    artifacts and log lines.
  - `synthetic`, `synthetic_markets`, `two_graph` — the synthetic validation
    reports, the in-memory storage and relay markets, and the two-graph
    reputation firewall and bridge.
  - `substrate`, `field_error`, `keyed_table` — substrate composition
    checks; errors that name a field; keyed tables with a `Map` model.
- `tests/` — tests of the library on concrete values.
- `app/` — the command-line node: environment, files, HTTP and the loops
  that feed the state machines.
