//! Core of a self-hosted control-plane backend: a durable instance
//! configuration store, the one-time onboarding state machine, the
//! credential and account services, and the container-engine
//! abstraction layer. All surrounding I/O (HTTP, filesystem, database,
//! daemon sockets) lives outside this crate; the functions here work on
//! plain values and carry verified contracts.

pub mod config;
pub mod engine;
pub mod error;
pub mod keys;
pub mod onboarding;
pub mod users;
