//! Acquisition pipeline for a shared music library.
//!
//! Users contribute audio either by direct upload or by asking the server to
//! fetch from a remote platform.  This crate holds the verified core of that
//! pipeline: input validation against injection and traversal attacks,
//! per-user directory resolution, external-tool argument construction, the
//! persisted job lifecycle, the in-memory progress broadcaster, and the
//! orchestration state machines that tie them together.  Process spawning,
//! filesystem access and transport live outside, behind the events and
//! actions the orchestrator exchanges with its caller.

pub mod admin;
pub mod auth;
pub mod config;
pub mod credentials;
pub mod jobs;
pub mod models;
pub mod paths;
pub mod pipeline;
pub mod progress;
pub mod runner;
pub mod strutil;
pub mod validate;
