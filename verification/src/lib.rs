//! Slot-based plugin registry and context-engine lifecycle for mormOS, with the
//! policies, WASM plugin protocol and ChatJimmy provider logic that sit on it.

pub mod text;
pub mod lifecycle;
pub mod registry;
pub mod policy;
pub mod chatjimmy;
pub mod context_engine;
