//! Decision core of a checkpoint-and-relocate orchestrator for containerized
//! workloads. Every operation is a pure step: the caller performs the outside
//! work that a step asks for and reports back what happened.

pub mod address;
pub mod archive;
pub mod batch;
pub mod client;
pub mod docker;
pub mod error;
pub mod identifier;
pub mod migration;
pub mod provider;
pub mod step;
pub mod transfer;
