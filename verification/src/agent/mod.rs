//! The agent's task flow.
pub mod calls;
pub mod prompt;
pub mod subtask;
pub mod task;
