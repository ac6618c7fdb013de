use mormos::context_engine::default::{
    assemble_context, build_registry, choose_engine, compose_context, default_rag_limit,
    locate_plugin, plan_registry, resolve_plugin_location, settle_engine, settle_policy,
    settle_spawner, EngineChoice, EngineSlot, PluginLocation, PolicyChoice, PolicySlot,
    SpawnerChoice, SpawnerSlot,
};
use mormos::context_engine::wasm::{guest_output, load_with_engine, PluginLoadError};
use mormos::registry::Slot;
use mormos::context_engine::wasm_engine::{
    load_wasm_context_engine, Hook, HookResponse, WasmContextEngine,
};
use mormos::context_engine::wasm_execution_policy::{
    load_wasm_execution_policy, CanExecuteToolResponse, WasmExecutionPolicy,
};
use mormos::context_engine::wasm_spawner::{
    load_wasm_subagent_spawner, CanSpawnResponse, WasmSubagentSpawner,
};
use mormos::lifecycle::{Context, Session, SpawnRequest, SubagentResult, Turn};
use mormos::policy::{ExecutionPolicyConfig, SubagentsPolicyConfig};

/// The smallest valid WASM module: magic and version.
const EMPTY_MODULE: [u8; 8] = [0x00, 0x61, 0x73, 0x6d, 0x01, 0x00, 0x00, 0x00];

fn response(ok: bool, error: Option<&str>) -> HookResponse {
    HookResponse {
        ok,
        error: error.map(|e| e.to_string()),
        session: None,
        turn: None,
        context: None,
    }
}

#[test]
fn rag_limit_depends_on_compact_mode() {
    assert_eq!(default_rag_limit(true), 2);
    assert_eq!(default_rag_limit(false), 5);
}

#[test]
fn compose_context_with_and_without_preamble() {
    let c = compose_context("M;".to_string(), Some("H;".to_string()), "2026-01-01 00:00:00 UTC", "hi");
    assert_eq!(c.mem_context, "M;");
    assert_eq!(c.hw_context, "H;");
    assert_eq!(c.enriched_prompt, "M;H;[2026-01-01 00:00:00 UTC] hi");
    assert!(c.compact_transcript.is_none() && c.compact_summary.is_none());
    let e = compose_context(String::new(), None, "T", "q");
    assert_eq!(e.hw_context, "");
    assert_eq!(e.enriched_prompt, "[T] q");
}

#[test]
fn assemble_context_stamps_the_prompt() {
    let c = assemble_context("mem ".to_string(), None, "question");
    assert!(c.enriched_prompt.starts_with("mem ["));
    assert!(c.enriched_prompt.ends_with("] question"));
    assert!(c.enriched_prompt.len() > "mem [] question".len());
}

#[test]
fn unconfigured_plan_uses_built_ins() {
    let p = plan_registry(None, None, None, None, None);
    assert_eq!(p.engine_id, "mormos-legacy");
    assert!(matches!(p.engine, EngineChoice::Legacy));
    assert_eq!(p.spawner_id, "mormos-default");
    assert!(matches!(p.spawner, SpawnerChoice::Default));
    assert_eq!(p.policy_id, "mormos-default");
    assert!(matches!(p.policy, PolicyChoice::Default));
}

#[test]
fn plan_reads_wasm_and_allowlist_ids() {
    let agents = SubagentsPolicyConfig {
        allowed_agents: vec!["a".to_string()],
        denied_agents: vec!["b".to_string()],
    };
    let p = plan_registry(
        Some("wasm:plugins/ctx.wasm"),
        Some("mormos-allowlist"),
        Some(&agents),
        Some("mormos-allowlist"),
        None,
    );
    assert_eq!(p.engine_id, "wasm:plugins/ctx.wasm");
    match &p.engine {
        EngineChoice::Wasm { wasm_path } => assert_eq!(wasm_path, "plugins/ctx.wasm"),
        _ => panic!("expected a wasm engine"),
    }
    match &p.spawner {
        SpawnerChoice::Allowlist { allowed, denied } => {
            assert_eq!(allowed, &vec!["a".to_string()]);
            assert_eq!(denied, &vec!["b".to_string()]);
        }
        _ => panic!("expected an allowlist spawner"),
    }
    match &p.policy {
        PolicyChoice::Allowlist { allowed, denied } => {
            assert!(allowed.is_empty() && denied.is_empty());
        }
        _ => panic!("expected an allowlist policy"),
    }
}

#[test]
fn unknown_ids_fall_back_but_keep_their_id() {
    let tools = ExecutionPolicyConfig { allowed_tools: vec![], denied_tools: vec!["rm".to_string()] };
    let p = plan_registry(Some("lossless"), Some("nope"), None, Some("wasm:/abs/p.wasm"), Some(&tools));
    assert_eq!(p.engine_id, "lossless");
    assert!(matches!(p.engine, EngineChoice::Legacy));
    assert_eq!(p.spawner_id, "nope");
    assert!(matches!(p.spawner, SpawnerChoice::Default));
    match &p.policy {
        PolicyChoice::Wasm { wasm_path } => assert_eq!(wasm_path, "/abs/p.wasm"),
        _ => panic!("expected a wasm policy"),
    }
    assert!(matches!(choose_engine("wasm"), EngineChoice::Legacy));
    match choose_engine("wasm:") {
        EngineChoice::Wasm { wasm_path } => assert_eq!(wasm_path, ""),
        _ => panic!("expected a wasm engine"),
    }
}

#[test]
fn plugin_location_rules() {
    match locate_plugin("p.wasm", false, false) {
        PluginLocation::UnderCurrentDir { relative } => assert_eq!(relative, "p.wasm"),
        _ => panic!("expected a location under the current directory"),
    }
    match locate_plugin("p.wasm", true, false) {
        PluginLocation::UnderBaseDir { relative } => assert_eq!(relative, "p.wasm"),
        _ => panic!("expected a location under the base directory"),
    }
    assert!(matches!(locate_plugin("/x/p.wasm", true, true), PluginLocation::AsGiven { .. }));
    let r = resolve_plugin_location("/x/p.wasm", true);
    assert!(r.absolute);
    match r.location {
        PluginLocation::AsGiven { path } => assert_eq!(path, "/x/p.wasm"),
        _ => panic!("expected an absolute location"),
    }
    let r = resolve_plugin_location("p.wasm", false);
    assert!(!r.absolute);
    assert!(matches!(r.location, PluginLocation::UnderCurrentDir { .. }));
}

#[test]
fn settled_slots_fall_back_on_load_failure() {
    let wasm = EngineChoice::Wasm { wasm_path: "p.wasm".to_string() };
    let (slot, failure) = settle_engine(&wasm, Some(Ok::<u32, PluginLoadError>(7)));
    assert!(matches!(slot, EngineSlot::Wasm(7)));
    assert!(failure.is_none());
    let err = PluginLoadError::Read { path: "p.wasm".to_string(), detail: "gone".to_string() };
    let (slot, failure) = settle_engine::<u32>(&wasm, Some(Err(err)));
    assert!(matches!(slot, EngineSlot::Legacy));
    assert!(matches!(failure, Some(PluginLoadError::Read { .. })));
    let (slot, failure) = settle_engine::<u32>(&EngineChoice::Legacy, None);
    assert!(matches!(slot, EngineSlot::Legacy) && failure.is_none());

    let spawner = SpawnerChoice::Wasm { wasm_path: "s.wasm".to_string() };
    let bad = PluginLoadError::Engine { detail: String::new() };
    let (slot, failure) = settle_spawner::<u32>(&spawner, Some(Err(bad)));
    assert!(matches!(slot, SpawnerSlot::Default) && failure.is_some());
    let allow = SpawnerChoice::Allowlist { allowed: vec!["a".to_string()], denied: vec![] };
    let (slot, _) = settle_spawner::<u32>(&allow, None);
    match slot {
        SpawnerSlot::Allowlist(s) => {
            let req = SpawnRequest { agent_id: "a".to_string(), command: String::new() };
            assert!(s.can_spawn(&req));
        }
        _ => panic!("expected the allowlist spawner"),
    }

    let policy = PolicyChoice::Allowlist { allowed: vec![], denied: vec!["rm".to_string()] };
    let (slot, failure) = settle_policy::<u32>(&policy, None);
    assert!(failure.is_none());
    match slot {
        PolicySlot::Allowlist(p) => {
            assert!(!p.can_execute_tool("rm", &serde_json::Value::Null));
            assert!(p.can_execute_tool("ls", &serde_json::Value::Null));
        }
        _ => panic!("expected the allowlist policy"),
    }
    let (slot, _) = settle_policy::<u32>(&PolicyChoice::Default, None);
    assert!(matches!(slot, PolicySlot::Default));
}

#[test]
fn built_registry_holds_every_registrable_slot() {
    let plan = plan_registry(Some("lossless"), None, None, Some("mormos-allowlist"), None);
    let r = build_registry(&plan, 1u8, 2u16, 3u32);
    assert!(r.has_slot(Slot::ContextEngine));
    assert!(r.has_slot(Slot::SubagentSpawner));
    assert!(r.has_slot(Slot::ExecutionPolicy));
    assert!(!r.has_slot(Slot::MemoryManager));
    assert_eq!(r.active_context_engine_id(), Some("lossless"));
    assert_eq!(r.get_context_engine(), Some(1));
    assert_eq!(r.get_subagent_spawner(), Some(2));
    assert_eq!(r.get_execution_policy(), Some(3));
}

#[test]
fn guest_output_refuses_silence() {
    assert_eq!(guest_output(Vec::new()), None);
    assert_eq!(guest_output(vec![b'{', b'}']), Some(vec![b'{', b'}']));
}

#[test]
fn hook_names_and_failure_messages() {
    assert_eq!(Hook::Bootstrap.name(), "bootstrap");
    assert_eq!(Hook::AfterTurn.name(), "after_turn");
    assert_eq!(Hook::PrepareSubagentSpawn.name(), "prepare_subagent_spawn");
    assert_eq!(Hook::OnSubagentEnded.failure_message(), "WASM on_subagent_ended failed");
}

#[test]
fn hook_requests_carry_what_each_hook_reads() {
    let s = Session::new("id", "cli");
    let t = Turn::new("in");
    let c = Context::for_compact("t".to_string(), "s".to_string());
    let r = WasmContextEngine::bootstrap_request(&s);
    assert_eq!(r.hook, "bootstrap");
    assert!(r.session.is_some() && r.turn.is_none() && r.context.is_none());
    let r = WasmContextEngine::ingest_request(&s, &t);
    assert_eq!(r.hook, "ingest");
    assert_eq!(r.turn.as_ref().map(|t| t.input.clone()), Some("in".to_string()));
    let r = WasmContextEngine::compact_request(&s, &c);
    assert_eq!(r.hook, "compact");
    assert_eq!(r.context.and_then(|c| c.compact_summary), Some("s".to_string()));
    let r = WasmContextEngine::assemble_request(&s, &c);
    assert_eq!(r.hook, "assemble");
    let r = WasmContextEngine::after_turn_request(&s, &t);
    assert_eq!(r.hook, "after_turn");
    assert!(r.context.is_none());
    let req = SpawnRequest { agent_id: "a".to_string(), command: "c".to_string() };
    let r = WasmContextEngine::prepare_subagent_spawn_request(&req);
    assert!(r.session.is_none() && r.spawn_request.is_some());
    let res = SubagentResult { session_id: "x".to_string(), success: true, output: "o".to_string() };
    let r = WasmContextEngine::on_subagent_ended_request(&res);
    assert_eq!(r.hook, "on_subagent_ended");
    assert_eq!(r.subagent_result.map(|r| r.output), Some("o".to_string()));
}

#[test]
fn refused_bootstrap_keeps_session_and_reports() {
    let mut s = Session::new("id", "cli");
    let mut res = response(false, None);
    res.session = Some(Session::new("other", "x"));
    let r = WasmContextEngine::finish_bootstrap(res, &mut s);
    assert_eq!(r.err().map(|e| e.message), Some("WASM bootstrap failed".to_string()));
    assert_eq!(s.id, "id");
    let r = WasmContextEngine::finish_bootstrap(response(false, Some("nope")), &mut s);
    assert_eq!(r.err().map(|e| e.message), Some("nope".to_string()));
}

#[test]
fn accepted_hooks_apply_returned_values() {
    let mut s = Session::new("id", "cli");
    let mut res = response(true, None);
    res.session = Some(Session::new("id2", "web"));
    assert!(WasmContextEngine::finish_bootstrap(res, &mut s).is_ok());
    assert_eq!(s.id, "id2");
    assert!(WasmContextEngine::finish_bootstrap(response(true, None), &mut s).is_ok());
    assert_eq!(s.channel, "web");

    let mut t = Turn::new("in");
    let mut res = response(true, None);
    res.turn = Some(Turn::new("rewritten"));
    assert!(WasmContextEngine::finish_ingest(res, &mut t).is_ok());
    assert_eq!(t.input, "rewritten");

    let mut c = Context::default();
    let mut res = response(true, None);
    res.context = Some(Context::for_compact("a".to_string(), "b".to_string()));
    assert!(WasmContextEngine::finish_compact(res, &mut c).is_ok());
    assert_eq!(c.compact_summary.as_deref(), Some("b"));
    let mut res = response(false, Some("bad"));
    res.context = Some(Context::default());
    assert!(WasmContextEngine::finish_assemble(res, &mut c).is_err());
    assert_eq!(c.compact_summary.as_deref(), Some("b"));
}

#[test]
fn notification_hooks_only_check_ok() {
    assert!(WasmContextEngine::finish_after_turn(response(true, None)).is_ok());
    assert_eq!(
        WasmContextEngine::finish_prepare_subagent_spawn(response(false, None)).err().map(|e| e.message),
        Some("WASM prepare_subagent_spawn failed".to_string())
    );
    assert_eq!(
        WasmContextEngine::finish_on_subagent_ended(response(false, Some("x"))).err().map(|e| e.message),
        Some("x".to_string())
    );
}

#[test]
fn spawner_answers() {
    let req = SpawnRequest { agent_id: "a".to_string(), command: "c".to_string() };
    let r = WasmSubagentSpawner::can_spawn_request(&req);
    assert_eq!(r.hook, "can_spawn");
    assert_eq!(r.spawn_request.agent_id, "a");
    let ok = CanSpawnResponse { ok: true, allowed: false, error: None };
    assert_eq!(WasmSubagentSpawner::finish_can_spawn(ok).ok(), Some(false));
    let bad = CanSpawnResponse { ok: false, allowed: true, error: None };
    assert_eq!(
        WasmSubagentSpawner::finish_can_spawn(bad).err().map(|e| e.message),
        Some("WASM can_spawn failed".to_string())
    );
}

#[test]
fn execution_policy_answers() {
    let r = WasmExecutionPolicy::can_execute_tool_request("shell", serde_json::Value::Bool(true));
    assert_eq!(r.hook, "can_execute_tool");
    assert_eq!(r.tool_name, "shell");
    assert_eq!(r.args, serde_json::Value::Bool(true));
    let ok = CanExecuteToolResponse { ok: true, allowed: true, error: None };
    assert_eq!(WasmExecutionPolicy::finish_can_execute_tool(ok).ok(), Some(true));
    let bad = CanExecuteToolResponse { ok: false, allowed: true, error: Some("denied".to_string()) };
    assert_eq!(
        WasmExecutionPolicy::finish_can_execute_tool(bad).err().map(|e| e.message),
        Some("denied".to_string())
    );
}

#[test]
fn loading_reports_read_and_compile_failures() {
    match load_wasm_context_engine("missing.wasm", Err("not found".to_string())) {
        Err(PluginLoadError::Read { path, detail }) => {
            assert_eq!(path, "missing.wasm");
            assert_eq!(detail, "not found");
        }
        _ => panic!("expected a read error"),
    }
    match load_wasm_subagent_spawner("junk.wasm", Ok(vec![1, 2, 3])) {
        Err(PluginLoadError::Compile { path, detail }) => {
            assert_eq!(path, "junk.wasm");
            assert!(!detail.is_empty());
        }
        _ => panic!("expected a compile error"),
    }
}

#[test]
fn loading_a_valid_module_succeeds() {
    assert!(load_wasm_context_engine("m.wasm", Ok(EMPTY_MODULE.to_vec())).is_ok());
    assert!(load_wasm_subagent_spawner("m.wasm", Ok(EMPTY_MODULE.to_vec())).is_ok());
    assert!(load_wasm_execution_policy("m.wasm", Ok(EMPTY_MODULE.to_vec())).is_ok());
}

#[test]
fn load_with_engine_reports_a_missing_engine_first() {
    let engine: Result<wasmtime::Engine, wasmtime::Error> = Err(wasmtime::Error::msg("no engine"));
    match load_with_engine(engine, "m.wasm", Err("missing".to_string())) {
        Err(PluginLoadError::Engine { detail }) => assert!(detail.contains("no engine")),
        _ => panic!("expected an engine error"),
    }
}

#[test]
fn load_with_engine_reads_then_compiles() {
    match load_with_engine(Ok(wasmtime::Engine::default()), "m.wasm", Err("gone".to_string())) {
        Err(PluginLoadError::Read { path, detail }) => {
            assert_eq!(path, "m.wasm");
            assert_eq!(detail, "gone");
        }
        _ => panic!("expected a read error"),
    }
    match load_with_engine(Ok(wasmtime::Engine::default()), "bad.wasm", Ok(vec![1, 2, 3])) {
        Err(PluginLoadError::Compile { path, .. }) => assert_eq!(path, "bad.wasm"),
        _ => panic!("expected a compile error"),
    }
    assert!(load_with_engine(Ok(wasmtime::Engine::default()), "m.wasm", Ok(EMPTY_MODULE.to_vec()))
        .is_ok());
}
