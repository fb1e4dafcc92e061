//! Sans-I/O core of a background telemetry reporter.
//!
//! The reporter samples the health of a local service, combines the
//! per-subsystem statuses into one health flag, merges the result into outbound
//! event payloads and decides what the periodic reporting cycle does next.
//! The caller performs the network requests and the waiting; every decision
//! is made here and carries a proved contract.

pub mod document;
pub mod health;
pub mod host;
pub mod manager;
pub mod periodic;
pub mod pipes;
pub mod properties;
pub mod startup;
pub mod text;
pub mod transport;
