//! Task orchestration for a terminal installer: an ordered, user-selectable
//! list of provisioning steps, each run as shell commands, with a bounded
//! live log, per-step status and cooperative cancellation.

pub mod application;
pub mod commands;
pub mod config;
pub mod display;
pub mod executor;
pub mod log;
pub mod orchestrator;
pub mod run;
pub mod session;
pub mod steps;
pub mod task;
pub mod text;
pub mod windows;
