//! An agent task-execution engine: provider adapters for three LLM wire
//! protocols, the tool-calling loop, the built-in tool registry, and the
//! decisions of the cron scheduler, each with its contract proved by Verus.
use vstd::prelude::*;

pub mod json;
pub mod wire;
pub mod text;
pub mod store;
pub mod agent;
pub mod status;
pub mod tools;
pub mod providers;
pub mod engine;
pub mod scheduler;
pub mod config;
pub mod mcp;
pub mod tui;

verus! {

} // verus!
