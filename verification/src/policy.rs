//! Policy gates for the sub-agent spawner and execution policy slots:
//! the permissive defaults and the allowlist/denylist variants.

use vstd::prelude::*;

use crate::lifecycle::SpawnRequest;

verus! {

/// A JSON value handed to a tool; the policies here carry it without reading it.
#[verifier::external_type_specification]
#[verifier::external_body]
pub struct ExJsonValue(serde_json::Value);

/// `name` is one of the entries of `list`.
pub open spec fn listed(list: Seq<String>, name: Seq<char>) -> bool {
    exists|i: int| 0 <= i < list.len() && #[trigger] list[i]@ == name
}

/// The allowlist/denylist rule: a denied name is refused; otherwise an empty
/// allowlist admits every name and a non-empty one admits only its entries.
pub open spec fn allowlist_admits(allowed: Seq<String>, denied: Seq<String>, name: Seq<char>) -> bool {
    !listed(denied, name) && (allowed.len() == 0 || listed(allowed, name))
}

/// Whether `name` is one of the entries of `list`.
pub fn list_contains(list: &Vec<String>, name: &String) -> (b: bool)
    ensures
        b == listed(list@, name@),
        b <==> exists|i: int| 0 <= i < list@.len() && #[trigger] list@[i]@ == name@,
{
    let mut i: usize = 0;
    while i < list.len()
        invariant
            i <= list.len(),
            forall|j: int| 0 <= j < i ==> list@[j]@ != name@,
        decreases list.len() - i,
    {
        if list[i] == *name {
            return true;
        }
        i = i + 1;
    }
    false
}

/// Decides the allowlist/denylist rule for `name`.
pub fn admits(allowed: &Vec<String>, denied: &Vec<String>, name: &str) -> (b: bool)
    ensures
        b == allowlist_admits(allowed@, denied@, name@),
        b <==> (forall|j: int| 0 <= j < denied@.len() ==> #[trigger] denied@[j]@ != name@) && (
        allowed@.len() == 0 || exists|i: int| 0 <= i < allowed@.len() && #[trigger] allowed@[i]@
            == name@),
{
    let name = name.to_owned();
    if list_contains(denied, &name) {
        return false;
    }
    if allowed.len() == 0 {
        return true;
    }
    list_contains(allowed, &name)
}

/// A name is listed exactly when some entry of the list, at any position, is
/// that name.
pub proof fn law_listed_is_any_entry(list: Seq<String>, name: Seq<char>)
    ensures
        listed(list, name) <==> exists|i: int| 0 <= i < list.len() && #[trigger] list[i]@ == name,
        forall|i: int| 0 <= i < list.len() ==> #[trigger] listed(list, list[i]@),
{
    assert forall|i: int| 0 <= i < list.len() implies #[trigger] listed(list, list[i]@) by {
        assert(list[i]@ == list[i]@);
    }
}

/// Every entry of a non-empty allowlist, at any position, is admitted unless
/// some entry of the denylist is that same name.
pub proof fn law_each_undenied_allowlist_entry_is_admitted(
    allowed: Seq<String>,
    denied: Seq<String>,
    i: int,
)
    requires
        0 <= i < allowed.len(),
        forall|j: int| 0 <= j < denied.len() ==> #[trigger] denied[j]@ != allowed[i]@,
    ensures
        allowlist_admits(allowed, denied, allowed[i]@),
{
    law_listed_is_any_entry(allowed, allowed[i]@);
    law_listed_is_any_entry(denied, allowed[i]@);
}

/// Every entry of the denylist, at any position, is refused, whatever the
/// allowlist holds.
pub proof fn law_each_denylist_entry_is_refused(allowed: Seq<String>, denied: Seq<String>, j: int)
    requires
        0 <= j < denied.len(),
    ensures
        !allowlist_admits(allowed, denied, denied[j]@),
{
    law_listed_is_any_entry(denied, denied[j]@);
}

/// A name admitted under a non-empty allowlist is one of its entries and none
/// of the denylist's.
pub proof fn law_admitted_name_is_an_undenied_entry(
    allowed: Seq<String>,
    denied: Seq<String>,
    name: Seq<char>,
)
    requires
        allowed.len() > 0,
        allowlist_admits(allowed, denied, name),
    ensures
        exists|i: int| 0 <= i < allowed.len() && #[trigger] allowed[i]@ == name,
        forall|j: int| 0 <= j < denied.len() ==> #[trigger] denied[j]@ != name,
{
    law_listed_is_any_entry(allowed, name);
    law_listed_is_any_entry(denied, name);
}

/// A denied name is refused whatever the allowlist says.
pub proof fn law_deny_overrides_allow(allowed: Seq<String>, denied: Seq<String>, name: Seq<char>)
    requires
        listed(denied, name),
    ensures
        !allowlist_admits(allowed, denied, name),
{
}

/// With an empty allowlist every name that is not denied is admitted.
pub proof fn law_empty_allowlist_admits_undenied(denied: Seq<String>, name: Seq<char>)
    requires
        !listed(denied, name),
    ensures
        allowlist_admits(Seq::empty(), denied, name),
{
}

/// With a non-empty allowlist a name that is not on it is refused.
pub proof fn law_nonempty_allowlist_refuses_unlisted(
    allowed: Seq<String>,
    denied: Seq<String>,
    name: Seq<char>,
)
    requires
        allowed.len() > 0,
        !listed(allowed, name),
    ensures
        !allowlist_admits(allowed, denied, name),
{
}

/// Default sub-agent spawner: allows all spawn requests (no-op policy gate).
pub struct DefaultSubagentSpawner;

impl DefaultSubagentSpawner {
    /// Every spawn request is allowed.
    pub fn can_spawn(&self, request: &SpawnRequest) -> (b: bool)
        ensures
            b,
    {
        true
    }
}

/// Default execution policy: allows all tool calls (no-op policy gate).
pub struct DefaultExecutionPolicy;

impl DefaultExecutionPolicy {
    /// Every tool call is allowed.
    pub fn can_execute_tool(&self, tool_name: &str, args: &serde_json::Value) -> (b: bool)
        ensures
            b,
    {
        true
    }
}

/// Allowlist/denylist execution policy: enforces allowed_tools and denied_tools per call.
pub struct AllowlistExecutionPolicy {
    allowed: Vec<String>,
    denied: Vec<String>,
}

impl AllowlistExecutionPolicy {
    /// The allowed tool names.
    pub closed spec fn allowed(&self) -> Seq<String> {
        self.allowed@
    }

    /// The denied tool names.
    pub closed spec fn denied(&self) -> Seq<String> {
        self.denied@
    }

    /// A policy with the given allow and deny lists.
    pub fn new(allowed: Vec<String>, denied: Vec<String>) -> (p: Self)
        ensures
            p.allowed() == allowed@,
            p.denied() == denied@,
    {
        AllowlistExecutionPolicy { allowed, denied }
    }

    /// Whether the tool may run: not denied, and allowed when an allowlist is set.
    pub fn can_execute_tool(&self, tool_name: &str, args: &serde_json::Value) -> (b: bool)
        ensures
            b == allowlist_admits(self.allowed(), self.denied(), tool_name@),
    {
        admits(&self.allowed, &self.denied, tool_name)
    }
}

/// Execution policy config for allowlist/denylist.
#[derive(Clone, Default)]
pub struct ExecutionPolicyConfig {
    pub allowed_tools: Vec<String>,
    pub denied_tools: Vec<String>,
}

/// Allowlist/denylist sub-agent spawner: enforces the allowed and denied agent ids.
pub struct AllowlistSubagentSpawner {
    allowed: Vec<String>,
    denied: Vec<String>,
}

impl AllowlistSubagentSpawner {
    /// The allowed agent ids.
    pub closed spec fn allowed(&self) -> Seq<String> {
        self.allowed@
    }

    /// The denied agent ids.
    pub closed spec fn denied(&self) -> Seq<String> {
        self.denied@
    }

    /// A spawner with the given allow and deny lists.
    pub fn new(allowed: Vec<String>, denied: Vec<String>) -> (s: Self)
        ensures
            s.allowed() == allowed@,
            s.denied() == denied@,
    {
        AllowlistSubagentSpawner { allowed, denied }
    }

    /// Whether the agent may be spawned: not denied, and allowed when an allowlist is set.
    pub fn can_spawn(&self, request: &SpawnRequest) -> (b: bool)
        ensures
            b == allowlist_admits(self.allowed(), self.denied(), request.agent_id@),
    {
        admits(&self.allowed, &self.denied, request.agent_id.as_str())
    }
}

/// Subagents config for the allowlist/denylist spawner.
#[derive(Clone, Default)]
pub struct SubagentsPolicyConfig {
    pub allowed_agents: Vec<String>,
    pub denied_agents: Vec<String>,
}

} // verus!
