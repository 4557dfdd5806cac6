# cokernel

The CoKernel Runtime core as a Verus-verified library: the Host/Runtime and
Runtime/worker wire contracts, the Project registry over uv, the request
dispatcher, and the decisions of a Session (its worker's lifecycle, failure
evidence and classification).

- `src/` — the verified library. `protocol` (frames and envelopes), `worker`
  (inbound worker frame validation), `project` and `uv` (the Project registry,
  lock fingerprints, uv command lines), `service` (method routing, parameter
  reading, structured errors), `session` (the Session actor state machine,
  handshake, inspection contracts, evidence and procfs readers, supervisor
  bookkeeping), with `json`, `paths`, `text`, `ids` and `domain` beneath them.
- `tests/` — scenario tests run against the compiled library.
- `app/` — the program around it: the command line, the filesystem and the uv
  process behind the Project manager, serde forms, the tokio Session supervisor
  that performs the actor's actions, the MCP tool shapes and the named-pipe probe.
