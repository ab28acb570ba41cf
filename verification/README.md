# platform_manager

A platform manager that exposes its operations through a gRPC server and a
command-line client. The operations themselves live in a Verus-verified
library; the server, the client, JSON and protobuf encoding, process
management and the clock-free I/O live in `app/`.

## Library (`src/`)

- `errors` — `AppError` and the text each error is reported with.
- `models` — requests and responses of the operations, as plain values.
- `launched_apps` — the list of launched applications and how recording
  updates it (first entry of a name takes the new URL, else appended), with
  its laws: a recorded application is listed, recording is idempotent, a
  later record overwrites an earlier one, other entries stay, unique names
  stay unique.
- `actions` — the `Action` interface for actions run by name, and the
  operations: `info`, `echo`, `deploy-agent` and `deploy` (planning, the
  probe's retry decisions, recording).
- `registry` — actions by name; registering a taken name replaces it, so
  after a run of registrations each name finds the last action given it.
- `transport` — the RPC messages and the mapping of results onto them.
- `cli` — the client's arguments and its text-table layout.
- `service` — `AppService`, which runs the operations on one list of
  launched applications; a request for `info` through the generic action
  endpoint is refused, since info has its own RPC.
- `text` — Unicode trimming, prefixes, decimal notation and padding.

## Program (`app/`)

`app/main.rs` runs the gRPC server (`server [address]`) or the client
(`info`, `execute <action> <payload>`, `deploy-agent <file>`,
`deploy <file>`, `terminate`). The client prints JSON unless it is given
`--output table`.
