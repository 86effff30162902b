//! Permission decisions for tool calls: modes, rules, patterns and safety breakers.
pub mod auto;
pub mod circuit_breaker;
pub mod laws;
pub mod manager;
pub mod mode;
pub mod patterns;
pub mod rules;

pub use manager::{PermissionDecision, PermissionManager};
pub use mode::PermissionMode;
pub use rules::PermissionRulesFile;
