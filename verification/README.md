# zeroclaw-gateway (A2A)

The Agent-to-Agent (A2A) protocol part of the gateway: a task store with a
capacity limit and time-to-live eviction, protocol version negotiation, the
v0 and v1.0.0-rc wire formats, Agent Card construction, and the work behind
each JSON-RPC method.

- `src/` is the library, written in Verus; every function carries a contract
  that Verus proves. `store.rs` also holds the proved properties of the store
  (read-after-create, eviction, cancellation, pagination).
- `app/` holds the axum handlers, the serde forms of the protocol types and the
  shared state; it reads requests, runs the agent and writes responses, and
  leaves every decision to the library.
- `tests/` exercises the library through its public API.
