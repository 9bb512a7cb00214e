//! An execution-and-inspection harness for compiled contract bytecode.
//!
//! The crate seeds an in-memory ledger, deploys bytecode through an external
//! interpreter, invokes entry points with ABI-encoded payloads, and inspects
//! the resulting state: return data, storage slots, event logs and gas.

pub mod bytes;
pub mod keccak;
pub mod slots;
pub mod state;
pub mod encode;
pub mod logs;
pub mod vm;
pub mod engine;
pub mod bench;
