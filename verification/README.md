# rx_supervisor

The decision logic of the RX solutions runtime supervisor, written in Verus
with its rules stated as contracts and proved.

- `src/` is the verified library: the process plan and its launch recipes,
  the supervision step decisions, the durable supervisor and initialization
  state, registration, recovery and diagnostic bindings, external decisions,
  operating-area work use, readiness assessment of component self-reports,
  and the process backend's judgments (HTTP status replies, guarded status
  reports, signals, the address-space limit protocol of a held launch).
- `tests/` runs the library on concrete values.
- `app/` is the daemon around it: argument handling, files, sockets, child
  processes and storage. It performs what the library decides and hands the
  library what it observed.
