use std::path::PathBuf;

use onemini::permissions::circuit_breaker::{check_circuit_breaker, CircuitBreaker};
use onemini::permissions::manager::{PermissionDecision, PermissionManager, ToolArgs};
use onemini::permissions::mode::PermissionMode;
use onemini::permissions::patterns::{pattern_match, tool_name_matches};
use onemini::permissions::rules::PermissionRulesFile;

fn manager() -> PermissionManager {
    PermissionManager::from_parts(
        None,
        PermissionRulesFile::with_rules(Vec::new()),
        false,
        PathBuf::from("/tmp/onemini-permissions.toml"),
    )
}

fn no_args() -> ToolArgs {
    ToolArgs { path: None, pattern: None }
}

#[test]
fn hard_deny_rm_root() {
    assert_eq!(check_circuit_breaker("bash", "rm -rf /"), Some(CircuitBreaker::HardDeny));
}

#[test]
fn mcp_wildcard() {
    assert!(tool_name_matches("mcp_*", "mcp_github_list"));
}

#[test]
fn bash_pattern() {
    assert!(pattern_match("cargo test*", "cargo test -p foo"));
}

#[test]
fn force_ask_rm_current_dir() {
    assert_eq!(check_circuit_breaker("bash", "rm  -rf   ."), Some(CircuitBreaker::ForceAsk));
    assert_eq!(check_circuit_breaker("read", "rm -rf /"), None);
}

#[test]
fn hard_deny_beats_bypass() {
    let m = manager();
    let d = m.evaluate("bash", "rm -rf /", &no_args(), "/work", PermissionMode::Bypass, true);
    assert!(matches!(d, PermissionDecision::Deny(_)));
}

#[test]
fn plan_mode_refuses_writes() {
    let m = manager();
    let args = ToolArgs { path: Some("src/main.rs".to_string()), pattern: None };
    let d = m.evaluate("write", "src/main.rs", &args, "/work", PermissionMode::Plan, false);
    assert!(matches!(d, PermissionDecision::Deny(_)));
}

#[test]
fn always_allow_rule_sticks() {
    let mut m = manager();
    m.add_allow_rule("bash", "cargo build");
    let d = m.evaluate("bash", "cargo build", &no_args(), "/work", PermissionMode::Default, false);
    assert_eq!(d, PermissionDecision::Allow);
}

#[test]
fn parse_mode_names() {
    assert_eq!("plan".parse::<PermissionMode>().ok(), Some(PermissionMode::Plan));
    assert!("nonsense".parse::<PermissionMode>().is_err());
}
