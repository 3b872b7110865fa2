# pywatt_sdk

The SDK for PyWatt modules, with its logic verified by Verus.

- `src/` is the verified library: HTTP-over-TCP and HTTP-over-IPC request and
  response handling, routing, the request builder and client pool, the IPC
  and bootstrap state machines (each step a function from state and event to
  the next state and action), the in-memory cache with its eviction, TTL,
  lock and counter semantics, the file-cache and server-statistics
  computations, the cache and database services reached through the
  orchestrator, database connection strings, and JWT service plumbing.
  Calls into `dashmap`, `uuid`, `rand`, `base64`, `serde_json` and `url` go
  through small trusted wrappers whose contracts follow those crates'
  documentation. The laws that relate several operations are public proof
  functions in `src/laws.rs` and `src/cache/laws.rs`.
- `app/` is the ordinary Rust around it: stdin/stdout and TCP I/O, the async
  loops that drive the state machines, file-system access for the file
  cache, serde copies of the wire types, and the Axum router extensions.
- `tests/` runs the library on concrete values.
