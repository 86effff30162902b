//! OneMini agent core: permission decisions, task flow, output shaping and
//! terminal rendering, with the I/O left to the application.
use vstd::prelude::*;

pub mod agent;
pub mod cli;
pub mod compress;
pub mod config;
pub mod fs_util;
pub mod git;
pub mod llm;
pub mod hooks;
pub mod install;
pub mod managed;
pub mod mcp;
pub mod pathbuf;
pub mod permissions;
pub mod session_crypto;
pub mod skills;
pub mod slash;
pub mod repl;
pub mod sandbox;
pub mod session;
pub mod text;
pub mod tools;
pub mod update;
pub mod ui;

verus! {

} // verus!
