//! Core of a background agent that keeps two local directories ("personal"
//! and "shared") mirrored against a remote WebDAV store through an external
//! bidirectional-sync tool.
//!
//! The library holds the verified sync orchestration engine: the decisions
//! about when a sync run is in which state, how per-target outcomes are
//! classified and aggregated, how activity is recorded, and how local change
//! detection feeds the trigger decision.  The effectful edges (running the
//! external tool, creating directories, writing marker files) are performed
//! by the surrounding application, which drives the engine's explicit
//! action/event loop.

pub mod activity;
pub mod auth;
mod clock;
pub mod config;
pub mod engine;
pub mod laws;
pub mod status;
pub mod text;
pub mod watcher;
