# pax_reactive_streaming

Verified core of a reactive component streaming system: a server that
recompiles components as their source changes and broadcasts updates, and
clients that cache component state and dispatch updates to handlers.

- `src/` is the library, verified with Verus:
  - `compiler.rs`: compilation tasks and the priority-ordered hot-reload queue;
  - `dag.rs`: the component dependency graph (on `petgraph`);
  - `client.rs`: the client's component cache, the registry of update
    handlers and which of them an update reaches, the UI
    component state, the demo handler and the simulated external source;
  - `update.rs`: the update message shared by server and client;
  - `session.rs`: the decisions of a connection's message loop;
  - `json.rs`, `text.rs`: JSON payload access (through `serde_json`) and
    decimal formatting.
- `app/` is the program around it: the WebSocket server and client (tokio,
  tokio-tungstenite), background workers, and the JSON wire format (serde).
- `tests/` exercises the library on concrete values.
