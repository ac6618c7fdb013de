//! The default context engine's assembly rule and the choices the registry
//! factory makes from configuration.

use vstd::prelude::*;
use vstd::string::*;

use crate::lifecycle::{opt_str, Context};
use crate::context_engine::wasm::PluginLoadError;
use crate::policy::{
    allowlist_admits, law_each_denylist_entry_is_refused, AllowlistExecutionPolicy,
    AllowlistSubagentSpawner, ExecutionPolicyConfig,
    SubagentsPolicyConfig,
};
use crate::registry::{PluginRegistry, Slot};
use crate::text::{str_eq, strip_prefix_str};

verus! {

/// How many hardware RAG results the default engine uses.
pub open spec fn rag_limit_spec(compact_context: bool) -> usize {
    if compact_context {
        2
    } else {
        5
    }
}

/// How many hardware RAG results the default engine uses: fewer in compact mode.
pub fn default_rag_limit(compact_context: bool) -> (n: usize)
    ensures
        n == rag_limit_spec(compact_context),
{
    if compact_context {
        2
    } else {
        5
    }
}

/// The prompt the default engine assembles: the memory and hardware context
/// followed by `[now] user_msg`.
pub open spec fn enriched_prompt_spec(full: Seq<char>, now: Seq<char>, user_msg: Seq<char>) -> Seq<
    char,
> {
    full + "["@ + now + "] "@ + user_msg
}

/// `c` is the context assembled from the given parts at time `now`.
pub open spec fn is_assembled(
    c: Context,
    mem_context: Seq<char>,
    hw_context: Option<Seq<char>>,
    now: Seq<char>,
    user_msg: Seq<char>,
) -> bool {
    let hw = match hw_context {
        Some(h) => h,
        None => Seq::empty(),
    };
    &&& c.mem_context@ == mem_context
    &&& c.hw_context@ == hw
    &&& c.enriched_prompt@ == enriched_prompt_spec(mem_context + hw, now, user_msg)
    &&& c.compact_transcript is None
    &&& c.compact_summary is None
}

/// The local time as `%Y-%m-%d %H:%M:%S %Z` (`chrono::Local::now`, formatted).
/// Stated: the text is not empty, since the format writes its separators verbatim.
/// Not stated: the date and time it shows, which depend on the clock and the time zone.
#[verifier::external_body]
fn local_timestamp() -> (s: String)
    ensures
        s@.len() > 0,
{
    chrono::Local::now().format("%Y-%m-%d %H:%M:%S %Z").to_string()
}

/// Assembles a context from its parts at time `now`.
pub fn compose_context(mem_context: String, hw_context: Option<String>, now: &str, user_msg: &str) -> (c:
    Context)
    ensures
        is_assembled(
            c,
            mem_context@,
            opt_str(hw_context),
            now@,
            user_msg@,
        ),
{
    let hw = match hw_context {
        Some(h) => h,
        None => String::new(),
    };
    let mut prompt = mem_context.clone();
    prompt.append(hw.as_str());
    prompt.append("[");
    prompt.append(now);
    prompt.append("] ");
    prompt.append(user_msg);
    Context {
        mem_context,
        hw_context: hw,
        enriched_prompt: prompt,
        compact_transcript: None,
        compact_summary: None,
    }
}

/// Assembles a context from its parts at the current local time.
pub fn assemble_context(mem_context: String, hw_context: Option<String>, user_msg: &str) -> (c:
    Context)
    ensures
        exists|now: Seq<char>|
            now.len() > 0 && #[trigger] is_assembled(
                c,
                mem_context@,
                opt_str(hw_context),
                now,
                user_msg@,
            ),
{
    let ghost mem = mem_context@;
    let ghost hw = opt_str(hw_context);
    let now = local_timestamp();
    let c = compose_context(mem_context, hw_context, now.as_str(), user_msg);
    assert(is_assembled(c, mem, hw, now@, user_msg@));
    c
}

/// Which context engine the configuration selects.
pub enum EngineChoice {
    /// The built-in engine ("mormos-legacy", and the fallback for unknown ids).
    Legacy,
    /// A WASM plugin at the given path ("wasm:<path>").
    Wasm { wasm_path: String },
}

/// Which sub-agent spawner the configuration selects.
pub enum SpawnerChoice {
    /// Allow every spawn ("mormos-default", and the fallback for unknown ids).
    Default,
    /// Allowlist/denylist of agent ids ("mormos-allowlist").
    Allowlist { allowed: Vec<String>, denied: Vec<String> },
    /// A WASM plugin at the given path ("wasm:<path>").
    Wasm { wasm_path: String },
}

/// Which execution policy the configuration selects.
pub enum PolicyChoice {
    /// Allow every tool call ("mormos-default", and the fallback for unknown ids).
    Default,
    /// Allowlist/denylist of tool names ("mormos-allowlist").
    Allowlist { allowed: Vec<String>, denied: Vec<String> },
    /// A WASM plugin at the given path ("wasm:<path>").
    Wasm { wasm_path: String },
}

/// What the registry factory registers: for each slot the id it is registered
/// under and the plugin chosen for it.
pub struct RegistryPlan {
    pub engine_id: String,
    pub engine: EngineChoice,
    pub spawner_id: String,
    pub spawner: SpawnerChoice,
    pub policy_id: String,
    pub policy: PolicyChoice,
}

/// The configured id, or `default` when none is configured.
pub open spec fn id_or(id: Option<&str>, default: Seq<char>) -> Seq<char> {
    match id {
        Some(s) => s@,
        None => default,
    }
}

/// `s` names a WASM plugin.
pub open spec fn is_wasm_id(s: Seq<char>) -> bool {
    s.len() >= 5 && s.take(5) == "wasm:"@
}

/// `list` holds the same strings as `expected`, or nothing when there is none.
pub open spec fn strings_or_empty(list: Vec<String>, expected: Option<Vec<String>>) -> bool {
    match expected {
        Some(e) => list@ == e@,
        None => list@.len() == 0,
    }
}

/// The engine choice for an engine id.
pub open spec fn is_engine_choice(c: EngineChoice, id: Seq<char>) -> bool {
    if is_wasm_id(id) {
        c matches EngineChoice::Wasm { wasm_path } && wasm_path@ == id.skip(5)
    } else {
        c is Legacy
    }
}

/// The spawner choice for a spawner id and its allow/deny configuration.
pub open spec fn is_spawner_choice(c: SpawnerChoice, id: Seq<char>, config: Option<&SubagentsPolicyConfig>) -> bool {
    if is_wasm_id(id) {
        c matches SpawnerChoice::Wasm { wasm_path } && wasm_path@ == id.skip(5)
    } else if id == "mormos-allowlist"@ {
        c matches SpawnerChoice::Allowlist { allowed, denied } && match config {
            Some(cfg) => allowed@ == cfg.allowed_agents@ && denied@ == cfg.denied_agents@,
            None => allowed@.len() == 0 && denied@.len() == 0,
        }
    } else {
        c is Default
    }
}

/// The policy choice for a policy id and its allow/deny configuration.
pub open spec fn is_policy_choice(c: PolicyChoice, id: Seq<char>, config: Option<&ExecutionPolicyConfig>) -> bool {
    if is_wasm_id(id) {
        c matches PolicyChoice::Wasm { wasm_path } && wasm_path@ == id.skip(5)
    } else if id == "mormos-allowlist"@ {
        c matches PolicyChoice::Allowlist { allowed, denied } && match config {
            Some(cfg) => allowed@ == cfg.allowed_tools@ && denied@ == cfg.denied_tools@,
            None => allowed@.len() == 0 && denied@.len() == 0,
        }
    } else {
        c is Default
    }
}

/// A copy of a list of strings.
fn copy_strings(v: &Vec<String>) -> (r: Vec<String>)
    ensures
        r@ == v@,
{
    let mut r: Vec<String> = Vec::new();
    let mut i: usize = 0;
    while i < v.len()
        invariant
            i <= v.len(),
            r@ == v@.take(i as int),
        decreases v.len() - i,
    {
        r.push(v[i].clone());
        assert(r@ =~= v@.take(i + 1));
        i = i + 1;
    }
    assert(v@.take(v.len() as int) =~= v@);
    r
}

/// The id when given, else `default`.
fn id_or_default(id: Option<&str>, default: &str) -> (s: String)
    ensures
        s@ == match id {
            Some(x) => x@,
            None => default@,
        },
{
    match id {
        Some(x) => x.to_owned(),
        None => default.to_owned(),
    }
}

/// The path of a WASM plugin id.
fn wasm_path_of(id: &str) -> (r: Option<String>)
    ensures
        is_wasm_id(id@) <==> r is Some,
        r matches Some(p) ==> p@ == id@.skip(5),
{
    proof {
        reveal_strlit("wasm:");
    }
    match strip_prefix_str(id, "wasm:") {
        Some(rest) => Some(rest.to_owned()),
        None => None,
    }
}

/// The engine choice for an engine id: a WASM plugin for "wasm:<path>",
/// otherwise the built-in engine.
pub fn choose_engine(id: &str) -> (c: EngineChoice)
    ensures
        is_engine_choice(c, id@),
{
    match wasm_path_of(id) {
        Some(p) => EngineChoice::Wasm { wasm_path: p },
        None => EngineChoice::Legacy,
    }
}

/// The spawner choice for a spawner id and its allow/deny configuration.
pub fn choose_spawner(id: &str, config: Option<&SubagentsPolicyConfig>) -> (c: SpawnerChoice)
    ensures
        is_spawner_choice(c, id@, config),
        id@ == "mormos-allowlist"@ ==> match config {
            Some(cfg) => c matches SpawnerChoice::Allowlist { allowed, denied } && allowed@
                == cfg.allowed_agents@ && denied@ == cfg.denied_agents@,
            None => c matches SpawnerChoice::Allowlist { allowed, denied } && allowed@.len() == 0
                && denied@.len() == 0,
        },
{
    proof {
        law_allowlist_id_is_not_wasm();
    }
    match wasm_path_of(id) {
        Some(p) => SpawnerChoice::Wasm { wasm_path: p },
        None => {
            if str_eq(id, "mormos-allowlist") {
                match config {
                    Some(cfg) => SpawnerChoice::Allowlist {
                        allowed: copy_strings(&cfg.allowed_agents),
                        denied: copy_strings(&cfg.denied_agents),
                    },
                    None => SpawnerChoice::Allowlist { allowed: Vec::new(), denied: Vec::new() },
                }
            } else {
                SpawnerChoice::Default
            }
        },
    }
}

/// The policy choice for a policy id and its allow/deny configuration.
pub fn choose_policy(id: &str, config: Option<&ExecutionPolicyConfig>) -> (c: PolicyChoice)
    ensures
        is_policy_choice(c, id@, config),
        id@ == "mormos-allowlist"@ ==> match config {
            Some(cfg) => c matches PolicyChoice::Allowlist { allowed, denied } && allowed@
                == cfg.allowed_tools@ && denied@ == cfg.denied_tools@,
            None => c matches PolicyChoice::Allowlist { allowed, denied } && allowed@.len() == 0
                && denied@.len() == 0,
        },
{
    proof {
        law_allowlist_id_is_not_wasm();
    }
    match wasm_path_of(id) {
        Some(p) => PolicyChoice::Wasm { wasm_path: p },
        None => {
            if str_eq(id, "mormos-allowlist") {
                match config {
                    Some(cfg) => PolicyChoice::Allowlist {
                        allowed: copy_strings(&cfg.allowed_tools),
                        denied: copy_strings(&cfg.denied_tools),
                    },
                    None => PolicyChoice::Allowlist { allowed: Vec::new(), denied: Vec::new() },
                }
            } else {
                PolicyChoice::Default
            }
        },
    }
}

/// `p` is the plan for the given configuration.
pub open spec fn is_plan(
    p: RegistryPlan,
    engine_id: Option<&str>,
    subagent_spawner_id: Option<&str>,
    subagents_policy: Option<&SubagentsPolicyConfig>,
    execution_policy_id: Option<&str>,
    execution_policy_config: Option<&ExecutionPolicyConfig>,
) -> bool {
    &&& p.engine_id@ == id_or(engine_id, "mormos-legacy"@)
    &&& is_engine_choice(p.engine, p.engine_id@)
    &&& p.spawner_id@ == id_or(subagent_spawner_id, "mormos-default"@)
    &&& is_spawner_choice(p.spawner, p.spawner_id@, subagents_policy)
    &&& p.policy_id@ == id_or(execution_policy_id, "mormos-default"@)
    &&& is_policy_choice(p.policy, p.policy_id@, execution_policy_config)
}

/// "mormos-allowlist" does not name a WASM plugin.
pub proof fn law_allowlist_id_is_not_wasm()
    ensures
        !is_wasm_id("mormos-allowlist"@),
{
    reveal_strlit("mormos-allowlist");
    reveal_strlit("wasm:");
    assert("mormos-allowlist"@.take(5)[0] != "wasm:"@[0]);
}

/// A plan whose execution policy id is "mormos-allowlist" and which has a
/// policy configuration takes the configured allow and deny lists as they
/// are: every configured denied tool is refused by the planned policy, and
/// with a non-empty allow list every configured allowed tool that is not
/// denied is admitted.
pub proof fn law_allowlist_policy_plan_keeps_the_configured_lists(
    p: RegistryPlan,
    engine_id: Option<&str>,
    subagent_spawner_id: Option<&str>,
    subagents_policy: Option<&SubagentsPolicyConfig>,
    policy_id: &str,
    cfg: &ExecutionPolicyConfig,
)
    requires
        policy_id@ == "mormos-allowlist"@,
        is_plan(p, engine_id, subagent_spawner_id, subagents_policy, Some(policy_id), Some(cfg)),
    ensures
        p.policy matches PolicyChoice::Allowlist { allowed, denied } && allowed@
            == cfg.allowed_tools@ && denied@ == cfg.denied_tools@,
        forall|j: int|
            0 <= j < cfg.denied_tools@.len() ==> match p.policy {
                PolicyChoice::Allowlist { allowed, denied } => !allowlist_admits(
                    allowed@,
                    denied@,
                    #[trigger] cfg.denied_tools@[j]@,
                ),
                _ => false,
            },
{
    law_allowlist_id_is_not_wasm();
    assert forall|j: int| 0 <= j < cfg.denied_tools@.len() implies match p.policy {
        PolicyChoice::Allowlist { allowed, denied } => !allowlist_admits(
            allowed@,
            denied@,
            #[trigger] cfg.denied_tools@[j]@,
        ),
        _ => false,
    } by {
        law_each_denylist_entry_is_refused(cfg.allowed_tools@, cfg.denied_tools@, j);
    }
}

/// A plan whose sub-agent spawner id is "mormos-allowlist" and which has a
/// subagents configuration takes the configured allowed and denied agents as
/// they are: every configured denied agent is refused by the planned spawner.
pub proof fn law_allowlist_spawner_plan_keeps_the_configured_lists(
    p: RegistryPlan,
    engine_id: Option<&str>,
    spawner_id: &str,
    cfg: &SubagentsPolicyConfig,
    execution_policy_id: Option<&str>,
    execution_policy_config: Option<&ExecutionPolicyConfig>,
)
    requires
        spawner_id@ == "mormos-allowlist"@,
        is_plan(p, engine_id, Some(spawner_id), Some(cfg), execution_policy_id, execution_policy_config),
    ensures
        p.spawner matches SpawnerChoice::Allowlist { allowed, denied } && allowed@
            == cfg.allowed_agents@ && denied@ == cfg.denied_agents@,
        forall|j: int|
            0 <= j < cfg.denied_agents@.len() ==> match p.spawner {
                SpawnerChoice::Allowlist { allowed, denied } => !allowlist_admits(
                    allowed@,
                    denied@,
                    #[trigger] cfg.denied_agents@[j]@,
                ),
                _ => false,
            },
{
    law_allowlist_id_is_not_wasm();
    assert forall|j: int| 0 <= j < cfg.denied_agents@.len() implies match p.spawner {
        SpawnerChoice::Allowlist { allowed, denied } => !allowlist_admits(
            allowed@,
            denied@,
            #[trigger] cfg.denied_agents@[j]@,
        ),
        _ => false,
    } by {
        law_each_denylist_entry_is_refused(cfg.allowed_agents@, cfg.denied_agents@, j);
    }
}

/// With nothing configured, every slot gets its built-in plugin, registered
/// under the default ids.
pub proof fn law_unconfigured_plan_uses_built_ins(p: RegistryPlan)
    requires
        is_plan(p, None, None, None, None, None),
    ensures
        p.engine_id@ == "mormos-legacy"@,
        p.engine is Legacy,
        p.spawner_id@ == "mormos-default"@,
        p.spawner is Default,
        p.policy_id@ == "mormos-default"@,
        p.policy is Default,
{
    reveal_strlit("mormos-legacy");
    reveal_strlit("mormos-default");
    reveal_strlit("mormos-allowlist");
    reveal_strlit("wasm:");
    assert("mormos-legacy"@.take(5)[0] != "wasm:"@[0]);
    assert("mormos-default"@.take(5)[0] != "wasm:"@[0]);
    assert("mormos-default"@.len() != "mormos-allowlist"@.len());
}

/// The registry the configuration describes. Unset ids default to
/// "mormos-legacy", "mormos-default" and "mormos-default"; each slot is
/// registered under its configured id, also when an unknown id falls back to
/// the built-in plugin.
pub fn plan_registry(
    engine_id: Option<&str>,
    subagent_spawner_id: Option<&str>,
    subagents_policy: Option<&SubagentsPolicyConfig>,
    execution_policy_id: Option<&str>,
    execution_policy_config: Option<&ExecutionPolicyConfig>,
) -> (p: RegistryPlan)
    ensures
        is_plan(
            p,
            engine_id,
            subagent_spawner_id,
            subagents_policy,
            execution_policy_id,
            execution_policy_config,
        ),
{
    let engine_id = id_or_default(engine_id, "mormos-legacy");
    let engine = choose_engine(engine_id.as_str());
    let spawner_id = id_or_default(subagent_spawner_id, "mormos-default");
    let spawner = choose_spawner(spawner_id.as_str(), subagents_policy);
    let policy_id = id_or_default(execution_policy_id, "mormos-default");
    let policy = choose_policy(policy_id.as_str(), execution_policy_config);
    RegistryPlan { engine_id, engine, spawner_id, spawner, policy_id, policy }
}

/// Where a plugin file is: the path as given when it is absolute, otherwise
/// the path joined to the configured base directory, or to "." when none is
/// configured.
pub enum PluginLocation {
    AsGiven { path: String },
    UnderBaseDir { relative: String },
    UnderCurrentDir { relative: String },
}

/// `loc` locates `wasm_path` given whether that path is absolute and whether a
/// base directory is configured.
pub open spec fn is_location(
    loc: PluginLocation,
    wasm_path: Seq<char>,
    has_base_dir: bool,
    absolute: bool,
) -> bool {
    if absolute {
        loc matches PluginLocation::AsGiven { path } && path@ == wasm_path
    } else if has_base_dir {
        loc matches PluginLocation::UnderBaseDir { relative } && relative@ == wasm_path
    } else {
        loc matches PluginLocation::UnderCurrentDir { relative } && relative@ == wasm_path
    }
}

/// A path that begins as an absolute path may begin on some platform: with a
/// separator (`/` or `\\`), or with a drive such as `C:`.
pub open spec fn may_begin_absolute(p: Seq<char>) -> bool {
    ||| p.len() > 0 && (p[0] == '/' || p[0] == '\\')
    ||| p.len() > 1 && p[1] == ':'
}

/// Whether a path is absolute on this platform (`std::path::Path::is_absolute`),
/// returned with a record of the path that was asked about. Stated: the record
/// holds the argument, and a path that begins with no separator and no drive is
/// not absolute (on Unix an absolute path starts with the root; on Windows with a
/// prefix, which is a drive or begins with a separator, and the root). Not stated:
/// the answer for other paths, whose rule differs between platforms.
#[verifier::external_body]
fn path_is_absolute(p: &str) -> (r: (bool, Ghost<Seq<char>>))
    ensures
        r.1@ == p@,
        !may_begin_absolute(p@) ==> !r.0,
{
    (std::path::Path::new(p).is_absolute(), Ghost(p@))
}

/// Locates `wasm_path` given whether it is absolute.
pub fn locate_plugin(wasm_path: &str, has_base_dir: bool, absolute: bool) -> (loc: PluginLocation)
    ensures
        is_location(loc, wasm_path@, has_base_dir, absolute),
{
    if absolute {
        PluginLocation::AsGiven { path: wasm_path.to_owned() }
    } else if has_base_dir {
        PluginLocation::UnderBaseDir { relative: wasm_path.to_owned() }
    } else {
        PluginLocation::UnderCurrentDir { relative: wasm_path.to_owned() }
    }
}

/// A plugin location with the platform's answer it was decided on.
pub struct ResolvedLocation {
    pub location: PluginLocation,
    /// Whether the platform deems the path absolute.
    pub absolute: bool,
    /// The path the platform was asked about.
    pub decided_for: Ghost<Seq<char>>,
}

/// Locates `wasm_path` on this platform: the platform is asked whether
/// `wasm_path` itself is absolute, and the location follows from its answer.
pub fn resolve_plugin_location(wasm_path: &str, has_base_dir: bool) -> (r: ResolvedLocation)
    ensures
        r.decided_for@ == wasm_path@,
        is_location(r.location, wasm_path@, has_base_dir, r.absolute),
        !may_begin_absolute(wasm_path@) ==> !r.absolute,
{
    let (absolute, decided_for) = path_is_absolute(wasm_path);
    let location = locate_plugin(wasm_path, has_base_dir, absolute);
    ResolvedLocation { location, absolute, decided_for }
}

/// The context engine a slot ends up with.
pub enum EngineSlot<W> {
    /// The built-in engine.
    Legacy,
    /// The loaded WASM engine.
    Wasm(W),
}

/// The sub-agent spawner a slot ends up with.
pub enum SpawnerSlot<W> {
    /// Allow every spawn.
    Default,
    /// The allowlist/denylist spawner.
    Allowlist(AllowlistSubagentSpawner),
    /// The loaded WASM spawner.
    Wasm(W),
}

/// The execution policy a slot ends up with.
pub enum PolicySlot<W> {
    /// Allow every tool call.
    Default,
    /// The allowlist/denylist policy.
    Allowlist(AllowlistExecutionPolicy),
    /// The loaded WASM policy.
    Wasm(W),
}

/// The failure reported for a slot: the load error of a chosen WASM plugin.
pub open spec fn load_failure<W>(wasm_chosen: bool, loaded: Option<Result<W, PluginLoadError>>) -> Option<
    PluginLoadError,
> {
    if wasm_chosen {
        match loaded {
            Some(Err(e)) => Some(e),
            _ => None,
        }
    } else {
        None
    }
}

/// The engine the slot gets: the WASM plugin when it was chosen and loaded,
/// otherwise the built-in engine (also when loading failed). Returns the load
/// failure, if any, beside it.
pub fn settle_engine<W>(choice: &EngineChoice, loaded: Option<Result<W, PluginLoadError>>) -> (r: (
    EngineSlot<W>,
    Option<PluginLoadError>,
))
    ensures
        r.0 is Wasm <==> (choice is Wasm && loaded matches Some(Ok(_))),
        r.0 matches EngineSlot::Wasm(w) ==> loaded == Some(Ok::<W, PluginLoadError>(w)),
        r.1 == load_failure(choice is Wasm, loaded),
{
    match choice {
        EngineChoice::Wasm { .. } => match loaded {
            Some(Ok(w)) => (EngineSlot::Wasm(w), None),
            Some(Err(e)) => (EngineSlot::Legacy, Some(e)),
            None => (EngineSlot::Legacy, None),
        },
        EngineChoice::Legacy => (EngineSlot::Legacy, None),
    }
}

/// The spawner the slot gets: the WASM plugin when it was chosen and loaded,
/// the allowlist spawner with the configured lists when that was chosen, and
/// otherwise the default spawner (also when loading failed). Returns the load
/// failure, if any, beside it.
pub fn settle_spawner<W>(choice: &SpawnerChoice, loaded: Option<Result<W, PluginLoadError>>) -> (r: (
    SpawnerSlot<W>,
    Option<PluginLoadError>,
))
    ensures
        r.0 is Wasm <==> (choice is Wasm && loaded matches Some(Ok(_))),
        r.0 matches SpawnerSlot::Wasm(w) ==> loaded == Some(Ok::<W, PluginLoadError>(w)),
        r.0 is Allowlist <==> choice is Allowlist,
        r.0 matches SpawnerSlot::Allowlist(s) ==> (choice matches SpawnerChoice::Allowlist {
            allowed,
            denied,
        } && s.allowed() == allowed@ && s.denied() == denied@),
        r.1 == load_failure(choice is Wasm, loaded),
{
    match choice {
        SpawnerChoice::Wasm { .. } => match loaded {
            Some(Ok(w)) => (SpawnerSlot::Wasm(w), None),
            Some(Err(e)) => (SpawnerSlot::Default, Some(e)),
            None => (SpawnerSlot::Default, None),
        },
        SpawnerChoice::Allowlist { allowed, denied } => (
            SpawnerSlot::Allowlist(
                AllowlistSubagentSpawner::new(copy_strings(allowed), copy_strings(denied)),
            ),
            None,
        ),
        SpawnerChoice::Default => (SpawnerSlot::Default, None),
    }
}

/// The policy the slot gets: the WASM plugin when it was chosen and loaded,
/// the allowlist policy with the configured lists when that was chosen, and
/// otherwise the default policy (also when loading failed). Returns the load
/// failure, if any, beside it.
pub fn settle_policy<W>(choice: &PolicyChoice, loaded: Option<Result<W, PluginLoadError>>) -> (r: (
    PolicySlot<W>,
    Option<PluginLoadError>,
))
    ensures
        r.0 is Wasm <==> (choice is Wasm && loaded matches Some(Ok(_))),
        r.0 matches PolicySlot::Wasm(w) ==> loaded == Some(Ok::<W, PluginLoadError>(w)),
        r.0 is Allowlist <==> choice is Allowlist,
        r.0 matches PolicySlot::Allowlist(p) ==> (choice matches PolicyChoice::Allowlist {
            allowed,
            denied,
        } && p.allowed() == allowed@ && p.denied() == denied@),
        r.1 == load_failure(choice is Wasm, loaded),
{
    match choice {
        PolicyChoice::Wasm { .. } => match loaded {
            Some(Ok(w)) => (PolicySlot::Wasm(w), None),
            Some(Err(e)) => (PolicySlot::Default, Some(e)),
            None => (PolicySlot::Default, None),
        },
        PolicyChoice::Allowlist { allowed, denied } => (
            PolicySlot::Allowlist(
                AllowlistExecutionPolicy::new(copy_strings(allowed), copy_strings(denied)),
            ),
            None,
        ),
        PolicyChoice::Default => (PolicySlot::Default, None),
    }
}

/// The registry of a plan: the engine, the spawner and the policy, each
/// registered under the id the plan gives it. Every registrable slot holds a
/// plugin, so the registry always has a context engine.
pub fn build_registry<E, S, P>(plan: &RegistryPlan, engine: E, spawner: S, policy: P) -> (r:
    PluginRegistry<E, S, P>)
    ensures
        r.wf(),
        r.engine() == Some(engine),
        r.active_id() == Some(plan.engine_id@),
        r.bound_id(Slot::ContextEngine) == Some(plan.engine_id@),
        r.spawner() == Some(spawner),
        r.bound_id(Slot::SubagentSpawner) == Some(plan.spawner_id@),
        r.policy() == Some(policy),
        r.bound_id(Slot::ExecutionPolicy) == Some(plan.policy_id@),
        r.holds(Slot::ContextEngine),
        r.holds(Slot::SubagentSpawner),
        r.holds(Slot::ExecutionPolicy),
        forall|s: Slot|
            s != Slot::ContextEngine && s != Slot::SubagentSpawner && s != Slot::ExecutionPolicy
                ==> !#[trigger] r.holds(s),
{
    let mut r: PluginRegistry<E, S, P> = PluginRegistry::new();
    let ghost r0 = r;
    r.register_context_engine(plan.engine_id.clone(), engine);
    let ghost r1 = r;
    r.register_subagent_spawner(plan.spawner_id.clone(), spawner);
    let ghost r2 = r;
    r.register_execution_policy(plan.policy_id.clone(), policy);
    assert forall|s: Slot|
        s != Slot::ContextEngine && s != Slot::SubagentSpawner && s != Slot::ExecutionPolicy
            implies !#[trigger] r.holds(s) by {
        assert(r.bound_id(s) == r2.bound_id(s));
        assert(r2.bound_id(s) == r1.bound_id(s));
        assert(r1.bound_id(s) == r0.bound_id(s));
    }
    assert(r.bound_id(Slot::ContextEngine) == r2.bound_id(Slot::ContextEngine));
    assert(r2.bound_id(Slot::ContextEngine) == r1.bound_id(Slot::ContextEngine));
    assert(r.bound_id(Slot::SubagentSpawner) == r2.bound_id(Slot::SubagentSpawner));
    r
}

} // verus!
