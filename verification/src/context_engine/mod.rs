//! Context-engine integration: the default engine's assembly rule, the
//! registry factory's choices, and the WASM plugin protocol.

pub mod default;
pub mod wasm;
pub mod wasm_engine;
pub mod wasm_spawner;
pub mod wasm_execution_policy;
