use mormos::lifecycle::SpawnRequest;
use mormos::policy::{
    AllowlistExecutionPolicy, AllowlistSubagentSpawner, DefaultExecutionPolicy,
    DefaultSubagentSpawner,
};

fn strings(v: &[&str]) -> Vec<String> {
    v.iter().map(|s| s.to_string()).collect()
}

fn request(agent: &str) -> SpawnRequest {
    SpawnRequest { agent_id: agent.to_string(), command: "run".to_string() }
}

#[test]
fn defaults_allow_everything() {
    assert!(DefaultSubagentSpawner.can_spawn(&request("any")));
    assert!(DefaultExecutionPolicy.can_execute_tool("shell", &serde_json::Value::Null));
}

#[test]
fn deny_overrides_allow() {
    let p = AllowlistExecutionPolicy::new(strings(&["shell"]), strings(&["shell"]));
    assert!(!p.can_execute_tool("shell", &serde_json::Value::Null));
    let s = AllowlistSubagentSpawner::new(strings(&["coder"]), strings(&["coder"]));
    assert!(!s.can_spawn(&request("coder")));
}

#[test]
fn empty_allowlist_admits_undenied() {
    let p = AllowlistExecutionPolicy::new(vec![], strings(&["rm"]));
    assert!(p.can_execute_tool("ls", &serde_json::Value::Bool(true)));
    assert!(!p.can_execute_tool("rm", &serde_json::Value::Bool(true)));
    let s = AllowlistSubagentSpawner::new(vec![], vec![]);
    assert!(s.can_spawn(&request("anyone")));
}

#[test]
fn nonempty_allowlist_refuses_unlisted() {
    let p = AllowlistExecutionPolicy::new(strings(&["ls", "cat"]), vec![]);
    assert!(p.can_execute_tool("cat", &serde_json::Value::Null));
    assert!(!p.can_execute_tool("curl", &serde_json::Value::Null));
    assert!(!p.can_execute_tool("Cat", &serde_json::Value::Null));
    let s = AllowlistSubagentSpawner::new(strings(&["researcher"]), strings(&["coder"]));
    assert!(s.can_spawn(&request("researcher")));
    assert!(!s.can_spawn(&request("planner")));
    assert!(!s.can_spawn(&request("coder")));
}
