//! Descriptors of how a node runs a chain: consensus kind and block-number width.

use vstd::prelude::*;

verus! {

/// The signature scheme used by Aura consensus.
#[derive(Clone, Copy, Debug, PartialEq, Eq, Structural)]
pub enum AuraConsensusId {
    /// Ed25519
    Ed25519,
    /// Sr25519
    Sr25519,
}

/// The choice of consensus for a runtime-agnostic node.
#[derive(Clone, Copy, Debug, PartialEq, Eq, Structural)]
pub enum Consensus {
    /// Aura consensus.
    Aura(AuraConsensusId),
}

/// The block-height integer widths that are recognised.
#[derive(Clone, Copy, Debug, PartialEq, Eq, Structural)]
pub enum BlockNumber {
    /// u32
    U32,
    /// u64
    U64,
}

/// The name of the primitive type that a block number width stands for.
pub open spec fn block_number_name(b: BlockNumber) -> Seq<char> {
    match b {
        BlockNumber::U32 => "u32"@,
        BlockNumber::U64 => "u64"@,
    }
}

impl BlockNumber {
    /// The primitive type name of this width (`"u32"` or `"u64"`).
    pub fn primitive_name(&self) -> (r: &'static str)
        ensures
            r@ == block_number_name(*self),
    {
        match self {
            BlockNumber::U32 => "u32",
            BlockNumber::U64 => "u64",
        }
    }
}

/// The kinds of runtime a node can be driven by.
#[derive(Clone, Copy, Debug, PartialEq, Eq, Structural)]
pub enum Runtime {
    /// A runtime-agnostic node, driven only by the declared block-number width and consensus.
    Omni(BlockNumber, Consensus),
}

/// The runtime that a node assumes when nothing is known of the chain.
pub open spec fn default_runtime() -> Runtime {
    Runtime::Omni(BlockNumber::U32, Consensus::Aura(AuraConsensusId::Sr25519))
}

/// Maps a chain, named by its chain-spec identifier, to the runtime it is driven by.
pub trait RuntimeResolver {
    /// Resolves the runtime of the chain whose chain-spec identifier is `chain_id`.
    fn runtime(&self, chain_id: &str) -> Result<Runtime, crate::metadata::MetadataError>;
}

/// A resolver that inspects nothing and always answers
/// `Runtime::Omni(BlockNumber::U32, Consensus::Aura(AuraConsensusId::Sr25519))`.
pub struct DefaultRuntimeResolver;

impl RuntimeResolver for DefaultRuntimeResolver {
    fn runtime(&self, chain_id: &str) -> (r: Result<Runtime, crate::metadata::MetadataError>)
        ensures
            r == Ok::<Runtime, crate::metadata::MetadataError>(default_runtime()),
    {
        Ok(Runtime::Omni(BlockNumber::U32, Consensus::Aura(AuraConsensusId::Sr25519)))
    }
}

} // verus!
