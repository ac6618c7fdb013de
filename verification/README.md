# mormos

Verified core of the mormOS plugin registry.

- `src/` (Verus): the lifecycle values, the slot registry and its laws, the
  allowlist/denylist policies, the WASM plugin protocol (requests each hook sends,
  how each hook reads the guest's answer, module loading through wasmtime), the
  registry factory's choices, the default engine's prompt assembly, and the
  ChatJimmy request/reply rules.
- `app/` (plain Rust): the async plugin traits, the WASI guest runner, JSON
  encoding of the protocol, the registry factory that loads plugins from disk,
  and the ChatJimmy HTTP client.
- `tests/`: tests of the library through its public API.
