//! Replays one transaction against a sparse snapshot of chain state and records
//! the nested call trace that the execution engine reports through its
//! lifecycle callbacks.

pub mod block;
pub mod database;
pub mod determinism;
pub mod inspector;
pub mod json_rpc;
pub mod primitives;
pub mod trace;
