//! WASM SubagentSpawner — a `.wasm` binary acting as a spawn policy plugin.
//!
//! Host → stdin:  `{ "hook": "can_spawn", "spawn_request": { "agent_id": "...", "command": "..." } }`
//! Host ← stdout: `{ "ok": true, "allowed": true }` or `{ "ok": false, "allowed": false, "error": "..." }`

use vstd::prelude::*;

use crate::context_engine::wasm::{is_engine_load_outcome, is_load_outcome, load_plugin, rejection, HookRejected, LoadedPlugin, PluginLoadError};
use crate::lifecycle::SpawnRequest;

verus! {

/// What the host sends to ask whether a spawn may proceed.
pub struct CanSpawnRequest {
    pub hook: String,
    pub spawn_request: SpawnRequest,
}

/// What the guest answers.
pub struct CanSpawnResponse {
    pub ok: bool,
    pub allowed: bool,
    pub error: Option<String>,
}

/// A sub-agent spawner run from a WASM module.
pub struct WasmSubagentSpawner {
    pub plugin: LoadedPlugin,
}

impl WasmSubagentSpawner {
    /// The loaded plugin of a load's outcome, or the load error.
    pub open spec fn plugin_result(r: Result<Self, PluginLoadError>) -> Result<
        LoadedPlugin,
        PluginLoadError,
    > {
        match r {
            Ok(x) => Ok(x.plugin),
            Err(e) => Err(e),
        }
    }

    /// Loads the spawner from the outcome of reading the file at `path`.
    pub fn load(path: &str, contents: Result<Vec<u8>, String>) -> (r: Result<Self, PluginLoadError>)
        ensures
            is_load_outcome(
                path@,
                contents,
                match r {
                    Ok(x) => Ok(x.plugin.source@),
                    Err(e) => Err(e),
                },
            ),
            exists|engine: Result<wasmtime::Engine, wasmtime::Error>|
                #[trigger] is_engine_load_outcome(
                    engine,
                    path@,
                    contents,
                    WasmSubagentSpawner::plugin_result(r),
                ),
    {
        match load_plugin(path, contents) {
            Ok(plugin) => Ok(WasmSubagentSpawner { plugin }),
            Err(e) => Err(e),
        }
    }

    /// The `can_spawn` request for a spawn request.
    pub fn can_spawn_request(request: &SpawnRequest) -> (r: CanSpawnRequest)
        ensures
            r.hook@ == "can_spawn"@,
            r.spawn_request == *request,
    {
        CanSpawnRequest { hook: "can_spawn".to_owned(), spawn_request: request.duplicate() }
    }

    /// Reads the guest's answer: refused with its message (or "WASM can_spawn
    /// failed") when not ok, otherwise whether the spawn is allowed.
    pub fn finish_can_spawn(res: CanSpawnResponse) -> (r: Result<bool, HookRejected>)
        ensures
            res.ok ==> r == Ok::<bool, HookRejected>(res.allowed),
            !res.ok ==> (r matches Err(e) && e.message@ == match res.error {
                Some(m) => m@,
                None => "WASM can_spawn failed"@,
            }),
    {
        if res.ok {
            Ok(res.allowed)
        } else {
            Err(rejection(res.error, "WASM can_spawn failed"))
        }
    }
}

/// Loads a WASM sub-agent spawner from the outcome of reading the file at `path`.
pub fn load_wasm_subagent_spawner(path: &str, contents: Result<Vec<u8>, String>) -> (r: Result<
    WasmSubagentSpawner,
    PluginLoadError,
>)
    ensures
        is_load_outcome(
            path@,
            contents,
            match r {
                Ok(x) => Ok(x.plugin.source@),
                Err(e) => Err(e),
            },
        ),
        exists|engine: Result<wasmtime::Engine, wasmtime::Error>|
            #[trigger] is_engine_load_outcome(
                engine,
                path@,
                contents,
                WasmSubagentSpawner::plugin_result(r),
            ),
{
    WasmSubagentSpawner::load(path, contents)
}

} // verus!
