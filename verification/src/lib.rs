//! A minimal state-store client abstraction: connect/save/get/delete
//! semantics over a named store, an in-memory store model for exercising
//! them locally, and the round-trip workflow that sequences the four
//! operations (write, read back, delete, confirm absence).

pub mod config;
pub mod errors;
pub mod store;
pub mod workflow;
