//! Anchor law engine: the domain model of a constitution-first project,
//! the artifact lifecycle, traceability queries, the execution readiness
//! gate, the project file format, and the queries and mutations that the
//! desktop shell exposes.

pub mod domain;
pub mod state_machine;
pub mod traceability;
pub mod readiness_gate;
pub mod store;
pub mod persistence;
pub mod text;
pub mod export;
pub mod commands;
pub mod version;
pub mod render;
