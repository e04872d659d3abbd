//! Job orchestration core for a generation backend: the lifecycle state
//! machine of a generation job, an in-memory job store with the ordering and
//! partial-update contract the orchestrator relies on, per-client sliding
//! window admission control, request validation, response-schema extraction,
//! and health aggregation.

pub mod clock;
pub mod config;
pub mod error;
pub mod health;
pub mod json;
pub mod models;
pub mod orchestrator;
pub mod store;
pub mod validation;
