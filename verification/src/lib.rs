//! Decision core of an on-ledger program that mints a single-unit token class.
//!
//! An invocation is authorised by two fixed co-signers and then proceeds
//! through four sub-operations in strict order. The library decides what to
//! do next; the host environment performs each sub-operation and reports its
//! outcome.

pub mod account;
pub mod address;
pub mod config;
pub mod error;
pub mod gate;
pub mod instruction;
pub mod laws;
pub mod machine;
pub mod note;
pub mod rehearsal;
pub mod steps;
