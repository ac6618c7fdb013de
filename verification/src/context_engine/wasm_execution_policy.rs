//! WASM ExecutionPolicy — a `.wasm` binary acting as a tool execution policy plugin.
//!
//! Host → stdin:  `{ "hook": "can_execute_tool", "tool_name": "...", "args": {...} }`
//! Host ← stdout: `{ "ok": true, "allowed": true }` or `{ "ok": false, "allowed": false, "error": "..." }`

use vstd::prelude::*;

use crate::context_engine::wasm::{is_engine_load_outcome, is_load_outcome, load_plugin, rejection, HookRejected, LoadedPlugin, PluginLoadError};

verus! {

/// What the host sends to ask whether a tool call may proceed.
pub struct CanExecuteToolRequest {
    pub hook: String,
    pub tool_name: String,
    pub args: serde_json::Value,
}

/// What the guest answers.
pub struct CanExecuteToolResponse {
    pub ok: bool,
    pub allowed: bool,
    pub error: Option<String>,
}

/// An execution policy run from a WASM module.
pub struct WasmExecutionPolicy {
    pub plugin: LoadedPlugin,
}

impl WasmExecutionPolicy {
    /// The loaded plugin of a load's outcome, or the load error.
    pub open spec fn plugin_result(r: Result<Self, PluginLoadError>) -> Result<
        LoadedPlugin,
        PluginLoadError,
    > {
        match r {
            Ok(x) => Ok(x.plugin),
            Err(e) => Err(e),
        }
    }

    /// Loads the policy from the outcome of reading the file at `path`.
    pub fn load(path: &str, contents: Result<Vec<u8>, String>) -> (r: Result<Self, PluginLoadError>)
        ensures
            is_load_outcome(
                path@,
                contents,
                match r {
                    Ok(x) => Ok(x.plugin.source@),
                    Err(e) => Err(e),
                },
            ),
            exists|engine: Result<wasmtime::Engine, wasmtime::Error>|
                #[trigger] is_engine_load_outcome(
                    engine,
                    path@,
                    contents,
                    WasmExecutionPolicy::plugin_result(r),
                ),
    {
        match load_plugin(path, contents) {
            Ok(plugin) => Ok(WasmExecutionPolicy { plugin }),
            Err(e) => Err(e),
        }
    }

    /// The `can_execute_tool` request for a tool call.
    pub fn can_execute_tool_request(tool_name: &str, args: serde_json::Value) -> (r:
        CanExecuteToolRequest)
        ensures
            r.hook@ == "can_execute_tool"@,
            r.tool_name@ == tool_name@,
            r.args == args,
    {
        CanExecuteToolRequest { hook: "can_execute_tool".to_owned(), tool_name: tool_name.to_owned(), args }
    }

    /// Reads the guest's answer: refused with its message (or "WASM
    /// can_execute_tool failed") when not ok, otherwise whether the call is allowed.
    pub fn finish_can_execute_tool(res: CanExecuteToolResponse) -> (r: Result<bool, HookRejected>)
        ensures
            res.ok ==> r == Ok::<bool, HookRejected>(res.allowed),
            !res.ok ==> (r matches Err(e) && e.message@ == match res.error {
                Some(m) => m@,
                None => "WASM can_execute_tool failed"@,
            }),
    {
        if res.ok {
            Ok(res.allowed)
        } else {
            Err(rejection(res.error, "WASM can_execute_tool failed"))
        }
    }
}

/// Loads a WASM execution policy from the outcome of reading the file at `path`.
pub fn load_wasm_execution_policy(path: &str, contents: Result<Vec<u8>, String>) -> (r: Result<
    WasmExecutionPolicy,
    PluginLoadError,
>)
    ensures
        is_load_outcome(
            path@,
            contents,
            match r {
                Ok(x) => Ok(x.plugin.source@),
                Err(e) => Err(e),
            },
        ),
        exists|engine: Result<wasmtime::Engine, wasmtime::Error>|
            #[trigger] is_engine_load_outcome(
                engine,
                path@,
                contents,
                WasmExecutionPolicy::plugin_result(r),
            ),
{
    WasmExecutionPolicy::load(path, contents)
}

} // verus!
