//! Slot-based plugin registry: one plugin per slot, selected by id
//! (for example `contextEngine = "mormos-legacy"`).

use std::collections::HashMap;

use vstd::prelude::*;
use vstd::string::*;

use crate::lifecycle::opt_str;

verus! {

broadcast use vstd::std_specs::hash::group_hash_axioms;

/// Pluggable extension points. Each slot holds at most one active plugin.
#[derive(Debug, Clone, Copy, PartialEq, Eq, Hash, Structural)]
pub enum Slot {
    /// Context assembly, memory retrieval, compaction.
    ContextEngine,
    /// Memory backend selection and policy.
    MemoryManager,
    /// Tool execution sandboxing and routing.
    ToolExecutor,
    /// Human approval, budget caps, on-chain confirmation.
    ApprovalGuard,
    /// Execution policy: budget, on-chain safety, human confirmation.
    ExecutionPolicy,
    /// Sub-agent spawning and lifecycle.
    SubagentSpawner,
    /// Metrics, tracing, cost tracking.
    Observability,
}

/// The config key of each slot.
pub open spec fn slot_config_key(slot: Slot) -> Seq<char> {
    match slot {
        Slot::ContextEngine => "contextEngine"@,
        Slot::MemoryManager => "memoryManager"@,
        Slot::ToolExecutor => "toolExecutor"@,
        Slot::ApprovalGuard => "approvalGuard"@,
        Slot::ExecutionPolicy => "executionPolicy"@,
        Slot::SubagentSpawner => "subagentSpawner"@,
        Slot::Observability => "observability"@,
    }
}

/// The position of each slot in declaration order.
pub open spec fn slot_index(slot: Slot) -> u8 {
    match slot {
        Slot::ContextEngine => 0,
        Slot::MemoryManager => 1,
        Slot::ToolExecutor => 2,
        Slot::ApprovalGuard => 3,
        Slot::ExecutionPolicy => 4,
        Slot::SubagentSpawner => 5,
        Slot::Observability => 6,
    }
}

impl Slot {
    /// Config key for this slot (e.g. `contextEngine`, `memoryManager`).
    pub fn config_key(&self) -> (k: &'static str)
        ensures
            k@ == slot_config_key(*self),
    {
        match self {
            Slot::ContextEngine => "contextEngine",
            Slot::MemoryManager => "memoryManager",
            Slot::ToolExecutor => "toolExecutor",
            Slot::ApprovalGuard => "approvalGuard",
            Slot::ExecutionPolicy => "executionPolicy",
            Slot::SubagentSpawner => "subagentSpawner",
            Slot::Observability => "observability",
        }
    }

    /// Position of this slot in declaration order; distinct slots have distinct positions.
    pub fn index(&self) -> (i: u8)
        ensures
            i == slot_index(*self),
    {
        match self {
            Slot::ContextEngine => 0,
            Slot::MemoryManager => 1,
            Slot::ToolExecutor => 2,
            Slot::ApprovalGuard => 3,
            Slot::ExecutionPolicy => 4,
            Slot::SubagentSpawner => 5,
            Slot::Observability => 6,
        }
    }
}

/// Distinct slots have distinct config keys, so a key names exactly one slot.
pub proof fn law_config_keys_distinct(a: Slot, b: Slot)
    requires
        a != b,
    ensures
        slot_config_key(a) != slot_config_key(b),
{
    reveal_strlit("contextEngine");
    reveal_strlit("memoryManager");
    reveal_strlit("toolExecutor");
    reveal_strlit("approvalGuard");
    reveal_strlit("executionPolicy");
    reveal_strlit("subagentSpawner");
    reveal_strlit("observability");
    assert(slot_config_key(a)[0] != slot_config_key(b)[0]);
}

/// Distinct slots have distinct positions.
pub proof fn law_slot_index_injective(a: Slot, b: Slot)
    requires
        a != b,
    ensures
        slot_index(a) != slot_index(b),
{
}

/// Base plugin interface: an id and the slots the plugin can fill.
pub trait Plugin {
    fn id(&self) -> &str;

    fn supports_slot(&self, slot: Slot) -> bool;
}

/// Registry of slot-bound plugins. One plugin per slot.
///
/// `E`, `S` and `P` are the handles of the context engine, the sub-agent
/// spawner and the execution policy.
pub struct PluginRegistry<E, S, P> {
    context_engine: Option<E>,
    active_context_engine_id: Option<String>,
    subagent_spawner: Option<S>,
    execution_policy: Option<P>,
    slots: HashMap<u8, String>,
}

impl<E, S, P> PluginRegistry<E, S, P> {
    /// The registered context engine.
    pub closed spec fn engine(&self) -> Option<E> {
        self.context_engine
    }

    /// The registered sub-agent spawner.
    pub closed spec fn spawner(&self) -> Option<S> {
        self.subagent_spawner
    }

    /// The registered execution policy.
    pub closed spec fn policy(&self) -> Option<P> {
        self.execution_policy
    }

    /// The id of the active context engine.
    pub closed spec fn active_id(&self) -> Option<Seq<char>> {
        opt_str(self.active_context_engine_id)
    }

    /// The plugin id bound to `slot`, if any.
    pub closed spec fn bound_id(&self, slot: Slot) -> Option<Seq<char>> {
        if self.slots@.contains_key(slot_index(slot)) {
            Some(self.slots@[slot_index(slot)]@)
        } else {
            None
        }
    }

    /// Whether `slot` has an active plugin.
    pub open spec fn holds(&self, slot: Slot) -> bool {
        match slot {
            Slot::ContextEngine => self.engine() is Some,
            _ => self.bound_id(slot) is Some,
        }
    }

    /// Well-formedness: a slot is bound to an id exactly when it holds a plugin,
    /// the context-engine slot is bound to the active id, and only the three
    /// registrable slots are ever bound.
    pub closed spec fn wf(&self) -> bool {
        &&& (self.context_engine is Some <==> self.active_context_engine_id is Some)
        &&& self.bound_id(Slot::ContextEngine) == self.active_id()
        &&& (self.bound_id(Slot::SubagentSpawner) is Some <==> self.subagent_spawner is Some)
        &&& (self.bound_id(Slot::ExecutionPolicy) is Some <==> self.execution_policy is Some)
        &&& forall|k: u8| #[trigger]
            self.slots@.contains_key(k) ==> (k == 0 || k == 4 || k == 5)
    }

    /// `after` is `before` with context engine `e` registered under `id`.
    pub open spec fn registers_context_engine(before: Self, after: Self, id: Seq<char>, e: E) -> bool {
        &&& after.wf()
        &&& after.engine() == Some(e)
        &&& after.active_id() == Some(id)
        &&& after.bound_id(Slot::ContextEngine) == Some(id)
        &&& after.spawner() == before.spawner()
        &&& after.policy() == before.policy()
        &&& forall|s: Slot| s != Slot::ContextEngine ==> #[trigger] after.bound_id(s) == before.bound_id(s)
    }

    /// `after` is `before` with sub-agent spawner `sp` registered under `id`.
    pub open spec fn registers_subagent_spawner(before: Self, after: Self, id: Seq<char>, sp: S) -> bool {
        &&& after.wf()
        &&& after.spawner() == Some(sp)
        &&& after.bound_id(Slot::SubagentSpawner) == Some(id)
        &&& after.engine() == before.engine()
        &&& after.active_id() == before.active_id()
        &&& after.policy() == before.policy()
        &&& forall|s: Slot| s != Slot::SubagentSpawner ==> #[trigger] after.bound_id(s) == before.bound_id(s)
    }

    /// `after` is `before` with execution policy `p` registered under `id`.
    pub open spec fn registers_execution_policy(before: Self, after: Self, id: Seq<char>, p: P) -> bool {
        &&& after.wf()
        &&& after.policy() == Some(p)
        &&& after.bound_id(Slot::ExecutionPolicy) == Some(id)
        &&& after.engine() == before.engine()
        &&& after.active_id() == before.active_id()
        &&& after.spawner() == before.spawner()
        &&& forall|s: Slot| s != Slot::ExecutionPolicy ==> #[trigger] after.bound_id(s) == before.bound_id(s)
    }

    /// An empty registry: no slot holds a plugin.
    pub fn new() -> (r: Self)
        ensures
            r.wf(),
            r.engine() is None,
            r.spawner() is None,
            r.policy() is None,
            r.active_id() is None,
            forall|s: Slot| #[trigger] r.bound_id(s) is None,
    {
        PluginRegistry {
            context_engine: None,
            active_context_engine_id: None,
            subagent_spawner: None,
            execution_policy: None,
            slots: HashMap::new(),
        }
    }

    /// Register the context engine under `id`. Replaces any existing one.
    pub fn register_context_engine(&mut self, id: String, engine: E)
        requires
            old(self).wf(),
        ensures
            Self::registers_context_engine(*old(self), *final(self), id@, engine),
    {
        self.active_context_engine_id = Some(id.clone());
        self.context_engine = Some(engine);
        self.slots.insert(0, id);
        assert forall|s: Slot| s != Slot::ContextEngine implies #[trigger] self.bound_id(s)
            == old(self).bound_id(s) by {
            assert(slot_index(s) != 0);
        }
    }

    /// Register the sub-agent spawner under `id`. Replaces any existing one.
    pub fn register_subagent_spawner(&mut self, id: String, spawner: S)
        requires
            old(self).wf(),
        ensures
            Self::registers_subagent_spawner(*old(self), *final(self), id@, spawner),
    {
        self.subagent_spawner = Some(spawner);
        self.slots.insert(5, id);
        assert forall|s: Slot| s != Slot::SubagentSpawner implies #[trigger] self.bound_id(s)
            == old(self).bound_id(s) by {
            assert(slot_index(s) != 5);
        }
    }

    /// Register the execution policy under `id`. Replaces any existing one.
    pub fn register_execution_policy(&mut self, id: String, policy: P)
        requires
            old(self).wf(),
        ensures
            Self::registers_execution_policy(*old(self), *final(self), id@, policy),
    {
        self.execution_policy = Some(policy);
        self.slots.insert(4, id);
        assert forall|s: Slot| s != Slot::ExecutionPolicy implies #[trigger] self.bound_id(s)
            == old(self).bound_id(s) by {
            assert(slot_index(s) != 4);
        }
    }

    /// ID of the active context engine (e.g. "mormos-legacy").
    pub fn active_context_engine_id(&self) -> (r: Option<&str>)
        ensures
            match r {
                Some(s) => self.active_id() == Some(s@),
                None => self.active_id() is None,
            },
    {
        match &self.active_context_engine_id {
            Some(s) => Some(s.as_str()),
            None => None,
        }
    }

    /// Check if a slot has an active plugin.
    pub fn has_slot(&self, slot: Slot) -> (b: bool)
        ensures
            b == self.holds(slot),
    {
        match slot {
            Slot::ContextEngine => self.context_engine.is_some(),
            _ => {
                let k = slot.index();
                self.slots.contains_key(&k)
            },
        }
    }
}

impl<E: Clone, S: Clone, P: Clone> PluginRegistry<E, S, P> {
    /// Get the active context engine, if any.
    pub fn get_context_engine(&self) -> (r: Option<E>)
        ensures
            match r {
                Some(e) => self.engine() matches Some(x) && cloned(x, e),
                None => self.engine() is None,
            },
    {
        match &self.context_engine {
            Some(e) => Some(e.clone()),
            None => None,
        }
    }

    /// Get the active sub-agent spawner, if any.
    pub fn get_subagent_spawner(&self) -> (r: Option<S>)
        ensures
            match r {
                Some(e) => self.spawner() matches Some(x) && cloned(x, e),
                None => self.spawner() is None,
            },
    {
        match &self.subagent_spawner {
            Some(e) => Some(e.clone()),
            None => None,
        }
    }

    /// Get the active execution policy, if any.
    pub fn get_execution_policy(&self) -> (r: Option<P>)
        ensures
            match r {
                Some(e) => self.policy() matches Some(x) && cloned(x, e),
                None => self.policy() is None,
            },
    {
        match &self.execution_policy {
            Some(e) => Some(e.clone()),
            None => None,
        }
    }
}

impl<E, S, P> Default for PluginRegistry<E, S, P> {
    fn default() -> (r: Self)
        ensures
            r.wf(),
            r.engine() is None,
            r.spawner() is None,
            r.policy() is None,
            r.active_id() is None,
            forall|s: Slot| #[trigger] r.bound_id(s) is None,
    {
        Self::new()
    }
}

/// A fresh registry has no active plugin in any slot.
pub proof fn law_fresh_registry_holds_nothing<E, S, P>(r: PluginRegistry<E, S, P>, slot: Slot)
    requires
        r.engine() is None,
        forall|s: Slot| #[trigger] r.bound_id(s) is None,
    ensures
        !r.holds(slot),
{
    assert(r.bound_id(slot) is None);
}

/// Registering a context engine activates that slot under the given id and
/// leaves every other slot as it was.
pub proof fn law_register_context_engine_fills_only_its_slot<E, S, P>(
    before: PluginRegistry<E, S, P>,
    after: PluginRegistry<E, S, P>,
    id: Seq<char>,
    e: E,
    other: Slot,
)
    requires
        before.wf(),
        PluginRegistry::registers_context_engine(before, after, id, e),
        other != Slot::ContextEngine,
    ensures
        after.holds(Slot::ContextEngine),
        after.active_id() == Some(id),
        after.engine() == Some(e),
        after.holds(other) == before.holds(other),
{
    assert(after.bound_id(other) == before.bound_id(other));
}

/// Registering a sub-agent spawner activates that slot under the given id and
/// leaves every other slot as it was.
pub proof fn law_register_subagent_spawner_fills_only_its_slot<E, S, P>(
    before: PluginRegistry<E, S, P>,
    after: PluginRegistry<E, S, P>,
    id: Seq<char>,
    sp: S,
    other: Slot,
)
    requires
        before.wf(),
        PluginRegistry::registers_subagent_spawner(before, after, id, sp),
        other != Slot::SubagentSpawner,
    ensures
        after.holds(Slot::SubagentSpawner),
        after.bound_id(Slot::SubagentSpawner) == Some(id),
        after.spawner() == Some(sp),
        after.holds(other) == before.holds(other),
{
    assert(after.bound_id(other) == before.bound_id(other));
}

/// Registering an execution policy activates that slot under the given id and
/// leaves every other slot as it was.
pub proof fn law_register_execution_policy_fills_only_its_slot<E, S, P>(
    before: PluginRegistry<E, S, P>,
    after: PluginRegistry<E, S, P>,
    id: Seq<char>,
    p: P,
    other: Slot,
)
    requires
        before.wf(),
        PluginRegistry::registers_execution_policy(before, after, id, p),
        other != Slot::ExecutionPolicy,
    ensures
        after.holds(Slot::ExecutionPolicy),
        after.bound_id(Slot::ExecutionPolicy) == Some(id),
        after.policy() == Some(p),
        after.holds(other) == before.holds(other),
{
    assert(after.bound_id(other) == before.bound_id(other));
}

/// One plugin per slot: a second context-engine registration replaces the
/// first, and the result is as if only the second had happened.
pub proof fn law_second_registration_replaces_first<E, S, P>(
    r0: PluginRegistry<E, S, P>,
    r1: PluginRegistry<E, S, P>,
    r2: PluginRegistry<E, S, P>,
    id1: Seq<char>,
    e1: E,
    id2: Seq<char>,
    e2: E,
)
    requires
        r0.wf(),
        PluginRegistry::registers_context_engine(r0, r1, id1, e1),
        PluginRegistry::registers_context_engine(r1, r2, id2, e2),
    ensures
        PluginRegistry::registers_context_engine(r0, r2, id2, e2),
{
    assert forall|s: Slot| s != Slot::ContextEngine implies #[trigger] r2.bound_id(s)
        == r0.bound_id(s) by {
        assert(r2.bound_id(s) == r1.bound_id(s));
        assert(r1.bound_id(s) == r0.bound_id(s));
    }
}

/// In a well-formed registry the active id, the context engine and the
/// context-engine slot come and go together, and that slot is bound to the
/// active id; the spawner and policy slots are held exactly when they hold a
/// plugin. Registries from `new` are well formed and every registration keeps
/// them so.
pub proof fn law_active_id_engine_and_slot_agree<E, S, P>(r: PluginRegistry<E, S, P>)
    requires
        r.wf(),
    ensures
        r.active_id() is Some <==> r.engine() is Some,
        r.holds(Slot::ContextEngine) <==> r.engine() is Some,
        r.bound_id(Slot::ContextEngine) == r.active_id(),
        r.holds(Slot::SubagentSpawner) <==> r.spawner() is Some,
        r.holds(Slot::ExecutionPolicy) <==> r.policy() is Some,
{
}

} // verus!
