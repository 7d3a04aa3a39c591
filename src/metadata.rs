//! A runtime's self-described metadata, held as plain values, and the
//! inspections made on it: does a pallet exist, and how wide is a block number.

use vstd::prelude::*;
use crate::runtime::BlockNumber;

verus! {

/// The primitive types of the portable type registry.
#[derive(Clone, Copy, Debug, PartialEq, Eq, Structural)]
pub enum PrimitiveType {
    Bool,
    Char,
    Str,
    U8,
    U16,
    U32,
    U64,
    U128,
    U256,
    I8,
    I16,
    I32,
    I64,
    I128,
    I256,
}

/// The shape of a type definition in the portable type registry. Only a
/// primitive carries what the inspections read.
#[derive(Clone, Copy, Debug, PartialEq, Eq, Structural)]
pub enum TypeDefinition {
    Composite,
    Variant,
    Sequence,
    Array,
    Tuple,
    Primitive(PrimitiveType),
    Compact,
    BitSequence,
}

/// The shape of a storage entry: a single value of the given type id, or a map.
#[derive(Clone, Copy, Debug, PartialEq, Eq, Structural)]
pub enum StorageEntryType {
    /// A single value; the field is the id of its type in the registry.
    Plain(u32),
    /// A map from keys to values.
    Keyed,
}

/// A named storage entry of a pallet.
#[derive(Debug)]
pub struct StorageEntry {
    pub name: String,
    pub ty: StorageEntryType,
}

/// A pallet: its name and, where it has storage, the storage's entries.
#[derive(Debug)]
pub struct PalletMetadata {
    pub name: String,
    pub storage: Option<Vec<StorageEntry>>,
}

/// What the supported metadata versions have in common: the pallets, and the
/// portable type registry, in which the type with id `i` is `types[i]`.
#[derive(Debug)]
pub struct MetadataShape {
    pub pallets: Vec<PalletMetadata>,
    pub types: Vec<TypeDefinition>,
}

/// Runtime metadata, by version. Versions other than 14 and 15 are carried
/// only by their number.
#[derive(Debug)]
pub enum RuntimeMetadata {
    V14(MetadataShape),
    V15(MetadataShape),
    Unsupported(u32),
}

/// Why an inspection of metadata failed.
#[derive(Clone, Copy, Debug, PartialEq, Eq, Structural)]
pub enum MetadataError {
    /// The metadata has a version other than 14 or 15; the field is that version.
    UnsupportedMetadataVersion(u32),
    /// The block number type could not be read from the `System` pallet's storage.
    BlockNumberResolutionFailed,
}

/// Some pallet in `pallets` is named `name`.
pub open spec fn has_pallet(pallets: Seq<PalletMetadata>, name: Seq<char>) -> bool {
    exists|i: int| 0 <= i < pallets.len() && #[trigger] pallets[i].name@ == name
}

/// The first pallet named `name` among `pallets[i..]`.
pub open spec fn first_pallet_from(pallets: Seq<PalletMetadata>, name: Seq<char>, i: int) -> Option<
    PalletMetadata,
>
    decreases pallets.len() - i,
{
    if i < 0 || i >= pallets.len() {
        None
    } else if pallets[i].name@ == name {
        Some(pallets[i])
    } else {
        first_pallet_from(pallets, name, i + 1)
    }
}

/// The first entry named `name` among `entries[i..]`.
pub open spec fn first_entry_from(entries: Seq<StorageEntry>, name: Seq<char>, i: int) -> Option<
    StorageEntry,
>
    decreases entries.len() - i,
{
    if i < 0 || i >= entries.len() {
        None
    } else if entries[i].name@ == name {
        Some(entries[i])
    } else {
        first_entry_from(entries, name, i + 1)
    }
}

/// The type that the registry holds under `id`.
pub open spec fn resolved(types: Seq<TypeDefinition>, id: u32) -> Option<TypeDefinition> {
    if (id as int) < types.len() {
        Some(types[id as int])
    } else {
        None
    }
}

/// The block number width that a type definition stands for, if any.
pub open spec fn block_number_of_def(def: TypeDefinition) -> Option<BlockNumber> {
    match def {
        TypeDefinition::Primitive(PrimitiveType::U32) => Some(BlockNumber::U32),
        TypeDefinition::Primitive(PrimitiveType::U64) => Some(BlockNumber::U64),
        _ => None,
    }
}

/// The block number width declared by the `Number` entry of the first
/// `System` pallet's storage, where that entry is plain and its type is `u32` or `u64`.
pub open spec fn shape_block_number(m: MetadataShape) -> Option<BlockNumber> {
    match first_pallet_from(m.pallets@, "System"@, 0) {
        None => None,
        Some(system) => match system.storage {
            None => None,
            Some(entries) => match first_entry_from(entries@, "Number"@, 0) {
                None => None,
                Some(entry) => match entry.ty {
                    StorageEntryType::Plain(id) => match resolved(m.types@, id) {
                        None => None,
                        Some(def) => block_number_of_def(def),
                    },
                    StorageEntryType::Keyed => None,
                },
            },
        },
    }
}

/// What `pallet_exists` answers for `metadata` and `name`.
pub open spec fn pallet_exists_result(metadata: RuntimeMetadata, name: Seq<char>) -> Result<
    bool,
    MetadataError,
> {
    match metadata {
        RuntimeMetadata::V14(m) => Ok(has_pallet(m.pallets@, name)),
        RuntimeMetadata::V15(m) => Ok(has_pallet(m.pallets@, name)),
        RuntimeMetadata::Unsupported(v) => Err(MetadataError::UnsupportedMetadataVersion(v)),
    }
}

/// What `runtime_block_number` answers for `metadata`.
pub open spec fn block_number_result(metadata: RuntimeMetadata) -> Result<
    BlockNumber,
    MetadataError,
> {
    match metadata {
        RuntimeMetadata::V14(m) | RuntimeMetadata::V15(m) => match shape_block_number(m) {
            Some(b) => Ok(b),
            None => Err(MetadataError::BlockNumberResolutionFailed),
        },
        RuntimeMetadata::Unsupported(v) => Err(MetadataError::UnsupportedMetadataVersion(v)),
    }
}

impl BlockNumber {
    /// The block number width that a type definition stands for: `u32` and
    /// `u64` primitives only.
    pub fn from_type_def(type_def: &TypeDefinition) -> (r: Option<BlockNumber>)
        ensures
            r == block_number_of_def(*type_def),
    {
        match type_def {
            TypeDefinition::Primitive(PrimitiveType::U32) => Some(BlockNumber::U32),
            TypeDefinition::Primitive(PrimitiveType::U64) => Some(BlockNumber::U64),
            _ => None,
        }
    }
}

/// The primitive type that a block number width stands for.
pub open spec fn primitive_of(b: BlockNumber) -> PrimitiveType {
    match b {
        BlockNumber::U32 => PrimitiveType::U32,
        BlockNumber::U64 => PrimitiveType::U64,
    }
}

impl From<BlockNumber> for PrimitiveType {
    fn from(b: BlockNumber) -> (r: PrimitiveType)
        ensures
            r == primitive_of(b),
    {
        match b {
            BlockNumber::U32 => PrimitiveType::U32,
            BlockNumber::U64 => PrimitiveType::U64,
        }
    }
}

impl vstd::std_specs::convert::FromSpecImpl<BlockNumber> for PrimitiveType {
    open spec fn obeys_from_spec() -> bool {
        true
    }

    open spec fn from_spec(b: BlockNumber) -> PrimitiveType {
        primitive_of(b)
    }
}

/// Whether some pallet of `m` is named `name` (exact, case-sensitive).
pub fn shape_has_pallet(m: &MetadataShape, name: &String) -> (r: bool)
    ensures
        r == has_pallet(m.pallets@, name@),
{
    let mut i: usize = 0;
    while i < m.pallets.len()
        invariant
            i <= m.pallets@.len(),
            forall|j: int| 0 <= j < i ==> #[trigger] m.pallets@[j].name@ != name@,
        decreases m.pallets@.len() - i,
    {
        if m.pallets[i].name == *name {
            return true;
        }
        i = i + 1;
    }
    false
}

/// The first pallet of `pallets` named `name`.
pub fn find_pallet<'a>(pallets: &'a Vec<PalletMetadata>, name: &String) -> (r: Option<
    &'a PalletMetadata,
>)
    ensures
        match r {
            Some(found) => first_pallet_from(pallets@, name@, 0) == Some(*found),
            None => first_pallet_from(pallets@, name@, 0) is None,
        },
{
    let mut i: usize = 0;
    while i < pallets.len()
        invariant
            i <= pallets@.len(),
            first_pallet_from(pallets@, name@, 0) == first_pallet_from(pallets@, name@, i as int),
        decreases pallets@.len() - i,
    {
        if pallets[i].name == *name {
            return Some(&pallets[i]);
        }
        i = i + 1;
    }
    None
}

/// The first storage entry of `entries` named `name`.
pub fn find_entry<'a>(entries: &'a Vec<StorageEntry>, name: &String) -> (r: Option<
    &'a StorageEntry,
>)
    ensures
        match r {
            Some(found) => first_entry_from(entries@, name@, 0) == Some(*found),
            None => first_entry_from(entries@, name@, 0) is None,
        },
{
    let mut i: usize = 0;
    while i < entries.len()
        invariant
            i <= entries@.len(),
            first_entry_from(entries@, name@, 0) == first_entry_from(entries@, name@, i as int),
        decreases entries@.len() - i,
    {
        if entries[i].name == *name {
            return Some(&entries[i]);
        }
        i = i + 1;
    }
    None
}

/// The type definition that the registry `types` holds under `id`.
pub fn resolve_type(types: &Vec<TypeDefinition>, id: u32) -> (r: Option<TypeDefinition>)
    ensures
        r == resolved(types@, id),
{
    if (id as usize) < types.len() {
        Some(types[id as usize])
    } else {
        None
    }
}

/// The block number width declared in `m`'s `System` pallet storage, if it can be read.
pub fn shape_runtime_block_number(m: &MetadataShape) -> (r: Option<BlockNumber>)
    ensures
        r == shape_block_number(*m),
{
    let system_name: String = "System".to_owned();
    let number_name: String = "Number".to_owned();
    match find_pallet(&m.pallets, &system_name) {
        None => None,
        Some(system) => match &system.storage {
            None => None,
            Some(entries) => match find_entry(entries, &number_name) {
                None => None,
                Some(entry) => match entry.ty {
                    StorageEntryType::Plain(id) => match resolve_type(&m.types, id) {
                        None => None,
                        Some(def) => BlockNumber::from_type_def(&def),
                    },
                    StorageEntryType::Keyed => None,
                },
            },
        },
    }
}

/// Checks whether a pallet named `name` exists in the runtime's metadata.
pub fn pallet_exists(metadata: &RuntimeMetadata, name: &str) -> (r: Result<bool, MetadataError>)
    ensures
        r == pallet_exists_result(*metadata, name@),
{
    match metadata {
        RuntimeMetadata::V14(inner) => Ok(shape_has_pallet(inner, &name.to_owned())),
        RuntimeMetadata::V15(inner) => Ok(shape_has_pallet(inner, &name.to_owned())),
        RuntimeMetadata::Unsupported(v) => Err(MetadataError::UnsupportedMetadataVersion(*v)),
    }
}

/// The runtime's block number width, as declared by the `Number` entry of the
/// `System` pallet's storage.
pub fn runtime_block_number(metadata: &RuntimeMetadata) -> (r: Result<BlockNumber, MetadataError>)
    ensures
        r == block_number_result(*metadata),
{
    let found = match metadata {
        RuntimeMetadata::V14(meta) => shape_runtime_block_number(meta),
        RuntimeMetadata::V15(meta) => shape_runtime_block_number(meta),
        RuntimeMetadata::Unsupported(v) => {
            return Err(MetadataError::UnsupportedMetadataVersion(*v));
        },
    };
    match found {
        Some(b) => Ok(b),
        None => Err(MetadataError::BlockNumberResolutionFailed),
    }
}

} // verus!
