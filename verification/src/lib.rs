//! Actor-model building blocks: supervision decisions, remote endpoint
//! bookkeeping, cluster membership values and small collections, each with a
//! machine-checked contract.

pub mod utils;
pub mod supervision;
pub mod remote;
pub mod actor;
pub mod cluster;
