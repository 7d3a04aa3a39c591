//! Runtime-compatibility facts read from a runtime's self-described metadata,
//! and the chain-specification document with its verified transformations.

pub mod runtime;
pub mod metadata;
pub mod assoc;
pub mod storage;
pub mod chain_spec;
