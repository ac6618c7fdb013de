//! WASM ContextEngine — a `.wasm` binary acting as a context-engine plugin.
//!
//! The guest reads the JSON of a hook request on stdin and writes the JSON of a
//! hook response on stdout. Here stand the loader, the request each hook sends
//! and the way each hook reads the response; the guest run and the JSON
//! encoding happen outside this module.

use vstd::prelude::*;

use crate::context_engine::wasm::{is_engine_load_outcome, is_load_outcome, load_plugin, rejection, HookRejected, LoadedPlugin, PluginLoadError};
use crate::lifecycle::{Context, Session, SpawnRequest, SubagentResult, Turn};

verus! {

/// The seven lifecycle hooks.
#[derive(Debug, Clone, Copy, PartialEq, Eq, Structural)]
pub enum Hook {
    Bootstrap,
    Ingest,
    Assemble,
    Compact,
    AfterTurn,
    PrepareSubagentSpawn,
    OnSubagentEnded,
}

/// The name of each hook on the wire.
pub open spec fn hook_name(h: Hook) -> Seq<char> {
    match h {
        Hook::Bootstrap => "bootstrap"@,
        Hook::Ingest => "ingest"@,
        Hook::Assemble => "assemble"@,
        Hook::Compact => "compact"@,
        Hook::AfterTurn => "after_turn"@,
        Hook::PrepareSubagentSpawn => "prepare_subagent_spawn"@,
        Hook::OnSubagentEnded => "on_subagent_ended"@,
    }
}

/// The message of a refused hook whose guest gave none.
pub open spec fn hook_failure(h: Hook) -> Seq<char> {
    match h {
        Hook::Bootstrap => "WASM bootstrap failed"@,
        Hook::Ingest => "WASM ingest failed"@,
        Hook::Assemble => "WASM assemble failed"@,
        Hook::Compact => "WASM compact failed"@,
        Hook::AfterTurn => "WASM after_turn failed"@,
        Hook::PrepareSubagentSpawn => "WASM prepare_subagent_spawn failed"@,
        Hook::OnSubagentEnded => "WASM on_subagent_ended failed"@,
    }
}

impl Hook {
    /// The name of this hook on the wire.
    pub fn name(&self) -> (s: &'static str)
        ensures
            s@ == hook_name(*self),
    {
        match self {
            Hook::Bootstrap => "bootstrap",
            Hook::Ingest => "ingest",
            Hook::Assemble => "assemble",
            Hook::Compact => "compact",
            Hook::AfterTurn => "after_turn",
            Hook::PrepareSubagentSpawn => "prepare_subagent_spawn",
            Hook::OnSubagentEnded => "on_subagent_ended",
        }
    }

    /// The message of a refused hook whose guest gave none.
    pub fn failure_message(&self) -> (s: &'static str)
        ensures
            s@ == hook_failure(*self),
    {
        match self {
            Hook::Bootstrap => "WASM bootstrap failed",
            Hook::Ingest => "WASM ingest failed",
            Hook::Assemble => "WASM assemble failed",
            Hook::Compact => "WASM compact failed",
            Hook::AfterTurn => "WASM after_turn failed",
            Hook::PrepareSubagentSpawn => "WASM prepare_subagent_spawn failed",
            Hook::OnSubagentEnded => "WASM on_subagent_ended failed",
        }
    }
}

/// What the host sends to the guest for one hook.
pub struct HookRequest {
    pub hook: String,
    pub session: Option<Session>,
    pub turn: Option<Turn>,
    pub context: Option<Context>,
    pub spawn_request: Option<SpawnRequest>,
    pub subagent_result: Option<SubagentResult>,
}

/// What the guest answers; mutated values come back when the guest changed them.
pub struct HookResponse {
    pub ok: bool,
    pub error: Option<String>,
    pub session: Option<Session>,
    pub turn: Option<Turn>,
    pub context: Option<Context>,
}

/// `r` is the request of hook `h` carrying exactly the given values.
pub open spec fn is_hook_request(
    r: HookRequest,
    h: Hook,
    session: Option<Session>,
    turn: Option<Turn>,
    context: Option<Context>,
    spawn_request: Option<SpawnRequest>,
    subagent_result: Option<SubagentResult>,
) -> bool {
    &&& r.hook@ == hook_name(h)
    &&& r.session == session
    &&& r.turn == turn
    &&& r.context == context
    &&& r.spawn_request == spawn_request
    &&& r.subagent_result == subagent_result
}

/// How a hook ends for a given answer: refused with the guest's message (or the
/// hook's own) when the answer is not ok, accepted otherwise.
pub open spec fn hook_outcome(h: Hook, res: HookResponse, r: Result<(), HookRejected>) -> bool {
    if res.ok {
        r is Ok
    } else {
        r matches Err(e) && e.message@ == match res.error {
            Some(m) => m@,
            None => hook_failure(h),
        }
    }
}

/// The empty request of hook `h`.
fn empty_request(h: Hook) -> (r: HookRequest)
    ensures
        is_hook_request(r, h, None, None, None, None, None),
{
    HookRequest {
        hook: h.name().to_owned(),
        session: None,
        turn: None,
        context: None,
        spawn_request: None,
        subagent_result: None,
    }
}

/// Accepts or refuses the answer to hook `h`.
pub fn check_response(h: Hook, ok: bool, error: Option<String>) -> (r: Result<(), HookRejected>)
    ensures
        ok ==> r is Ok,
        !ok ==> (r matches Err(e) && e.message@ == match error {
            Some(m) => m@,
            None => hook_failure(h),
        }),
{
    if ok {
        Ok(())
    } else {
        Err(rejection(error, h.failure_message()))
    }
}

/// A context engine run from a WASM module.
pub struct WasmContextEngine {
    pub plugin: LoadedPlugin,
}

impl WasmContextEngine {
    /// The loaded plugin of a load's outcome, or the load error.
    pub open spec fn plugin_result(r: Result<Self, PluginLoadError>) -> Result<
        LoadedPlugin,
        PluginLoadError,
    > {
        match r {
            Ok(x) => Ok(x.plugin),
            Err(e) => Err(e),
        }
    }

    /// Loads the engine from the outcome of reading the file at `path`.
    pub fn load(path: &str, contents: Result<Vec<u8>, String>) -> (r: Result<Self, PluginLoadError>)
        ensures
            is_load_outcome(
                path@,
                contents,
                match r {
                    Ok(x) => Ok(x.plugin.source@),
                    Err(e) => Err(e),
                },
            ),
            exists|engine: Result<wasmtime::Engine, wasmtime::Error>|
                #[trigger] is_engine_load_outcome(
                    engine,
                    path@,
                    contents,
                    WasmContextEngine::plugin_result(r),
                ),
    {
        match load_plugin(path, contents) {
            Ok(plugin) => Ok(WasmContextEngine { plugin }),
            Err(e) => Err(e),
        }
    }

    /// Request of `bootstrap`: the session.
    pub fn bootstrap_request(session: &Session) -> (r: HookRequest)
        ensures
            is_hook_request(r, Hook::Bootstrap, Some(*session), None, None, None, None),
    {
        let mut r = empty_request(Hook::Bootstrap);
        r.session = Some(session.duplicate());
        r
    }

    /// Answer of `bootstrap`: on success the session the guest returned, if any, replaces ours.
    pub fn finish_bootstrap(res: HookResponse, session: &mut Session) -> (r: Result<(), HookRejected>)
        ensures
            hook_outcome(Hook::Bootstrap, res, r),
            *final(session) == if res.ok && res.session is Some {
                res.session->0
            } else {
                *old(session)
            },
    {
        let HookResponse { ok, error, session: returned, .. } = res;
        let r = check_response(Hook::Bootstrap, ok, error);
        if ok {
            if let Some(s) = returned {
                *session = s;
            }
        }
        r
    }

    /// Request of `ingest`: the session and the turn.
    pub fn ingest_request(session: &Session, turn: &Turn) -> (r: HookRequest)
        ensures
            is_hook_request(r, Hook::Ingest, Some(*session), Some(*turn), None, None, None),
    {
        let mut r = empty_request(Hook::Ingest);
        r.session = Some(session.duplicate());
        r.turn = Some(turn.duplicate());
        r
    }

    /// Answer of `ingest`: on success the turn the guest returned, if any, replaces ours.
    pub fn finish_ingest(res: HookResponse, turn: &mut Turn) -> (r: Result<(), HookRejected>)
        ensures
            hook_outcome(Hook::Ingest, res, r),
            *final(turn) == if res.ok && res.turn is Some {
                res.turn->0
            } else {
                *old(turn)
            },
    {
        let HookResponse { ok, error, turn: returned, .. } = res;
        let r = check_response(Hook::Ingest, ok, error);
        if ok {
            if let Some(t) = returned {
                *turn = t;
            }
        }
        r
    }

    /// Request of `assemble`: the session and the context.
    pub fn assemble_request(session: &Session, context: &Context) -> (r: HookRequest)
        ensures
            is_hook_request(r, Hook::Assemble, Some(*session), None, Some(*context), None, None),
    {
        let mut r = empty_request(Hook::Assemble);
        r.session = Some(session.duplicate());
        r.context = Some(context.duplicate());
        r
    }

    /// Answer of `assemble`: on success the context the guest returned, if any, replaces ours.
    pub fn finish_assemble(res: HookResponse, context: &mut Context) -> (r: Result<(), HookRejected>)
        ensures
            hook_outcome(Hook::Assemble, res, r),
            *final(context) == if res.ok && res.context is Some {
                res.context->0
            } else {
                *old(context)
            },
    {
        let HookResponse { ok, error, context: returned, .. } = res;
        let r = check_response(Hook::Assemble, ok, error);
        if ok {
            if let Some(c) = returned {
                *context = c;
            }
        }
        r
    }

    /// Request of `compact`: the session and the context.
    pub fn compact_request(session: &Session, context: &Context) -> (r: HookRequest)
        ensures
            is_hook_request(r, Hook::Compact, Some(*session), None, Some(*context), None, None),
    {
        let mut r = empty_request(Hook::Compact);
        r.session = Some(session.duplicate());
        r.context = Some(context.duplicate());
        r
    }

    /// Answer of `compact`: on success the context the guest returned, if any, replaces ours.
    pub fn finish_compact(res: HookResponse, context: &mut Context) -> (r: Result<(), HookRejected>)
        ensures
            hook_outcome(Hook::Compact, res, r),
            *final(context) == if res.ok && res.context is Some {
                res.context->0
            } else {
                *old(context)
            },
    {
        let HookResponse { ok, error, context: returned, .. } = res;
        let r = check_response(Hook::Compact, ok, error);
        if ok {
            if let Some(c) = returned {
                *context = c;
            }
        }
        r
    }

    /// Request of `after_turn`: the session and the turn.
    pub fn after_turn_request(session: &Session, turn: &Turn) -> (r: HookRequest)
        ensures
            is_hook_request(r, Hook::AfterTurn, Some(*session), Some(*turn), None, None, None),
    {
        let mut r = empty_request(Hook::AfterTurn);
        r.session = Some(session.duplicate());
        r.turn = Some(turn.duplicate());
        r
    }

    /// Answer of `after_turn`: nothing is replaced.
    pub fn finish_after_turn(res: HookResponse) -> (r: Result<(), HookRejected>)
        ensures
            hook_outcome(Hook::AfterTurn, res, r),
    {
        check_response(Hook::AfterTurn, res.ok, res.error)
    }

    /// Request of `prepare_subagent_spawn`: the spawn request.
    pub fn prepare_subagent_spawn_request(request: &SpawnRequest) -> (r: HookRequest)
        ensures
            is_hook_request(r, Hook::PrepareSubagentSpawn, None, None, None, Some(*request), None),
    {
        let mut r = empty_request(Hook::PrepareSubagentSpawn);
        r.spawn_request = Some(request.duplicate());
        r
    }

    /// Answer of `prepare_subagent_spawn`: nothing is replaced.
    pub fn finish_prepare_subagent_spawn(res: HookResponse) -> (r: Result<(), HookRejected>)
        ensures
            hook_outcome(Hook::PrepareSubagentSpawn, res, r),
    {
        check_response(Hook::PrepareSubagentSpawn, res.ok, res.error)
    }

    /// Request of `on_subagent_ended`: the sub-agent's result.
    pub fn on_subagent_ended_request(result: &SubagentResult) -> (r: HookRequest)
        ensures
            is_hook_request(r, Hook::OnSubagentEnded, None, None, None, None, Some(*result)),
    {
        let mut r = empty_request(Hook::OnSubagentEnded);
        r.subagent_result = Some(result.duplicate());
        r
    }

    /// Answer of `on_subagent_ended`: nothing is replaced.
    pub fn finish_on_subagent_ended(res: HookResponse) -> (r: Result<(), HookRejected>)
        ensures
            hook_outcome(Hook::OnSubagentEnded, res, r),
    {
        check_response(Hook::OnSubagentEnded, res.ok, res.error)
    }
}

/// Loads a WASM context engine from the outcome of reading the file at `path`.
pub fn load_wasm_context_engine(path: &str, contents: Result<Vec<u8>, String>) -> (r: Result<
    WasmContextEngine,
    PluginLoadError,
>)
    ensures
        is_load_outcome(
            path@,
            contents,
            match r {
                Ok(x) => Ok(x.plugin.source@),
                Err(e) => Err(e),
            },
        ),
        exists|engine: Result<wasmtime::Engine, wasmtime::Error>|
            #[trigger] is_engine_load_outcome(
                engine,
                path@,
                contents,
                WasmContextEngine::plugin_result(r),
            ),
{
    WasmContextEngine::load(path, contents)
}

} // verus!
