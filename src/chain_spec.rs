//! The chain-specification document and the transformations made on it.

use vstd::prelude::*;
use crate::storage::{CodeSubstitutes, StorageMap};

verus! {

/// How a plain genesis configuration is applied.
#[derive(Clone, Copy, Debug, PartialEq, Eq, Structural)]
pub enum GenesisKind {
    /// A partial override, merged onto the runtime's default genesis configuration.
    Patch,
    /// A complete genesis configuration, used as it is.
    Full,
}

/// The storage of one child trie.
#[derive(Debug)]
pub struct ChildStorage {
    pub key: Vec<u8>,
    pub storage: StorageMap,
}

/// The genesis of a document: exactly one of the plain and the raw form.
#[derive(Debug)]
pub enum Genesis {
    /// A structured configuration (JSON text, without its code) and the runtime code.
    Runtime { kind: GenesisKind, config: String, code: Vec<u8> },
    /// Fully materialised storage: the top trie and the child tries.
    Raw { top: StorageMap, children: Vec<ChildStorage> },
}

/// The mathematical value of a genesis.
pub enum GenesisView {
    Runtime { kind: GenesisKind, config: Seq<char>, code: Seq<u8> },
    Raw { top: Map<Seq<u8>, Seq<u8>>, children: Seq<(Seq<u8>, Map<Seq<u8>, Seq<u8>>)> },
}

/// The child tries as keys and tables.
pub open spec fn children_view(children: Seq<ChildStorage>) -> Seq<
    (Seq<u8>, Map<Seq<u8>, Seq<u8>>),
> {
    children.map_values(|c: ChildStorage| (c.key@, c.storage@))
}

/// Every child table has unique keys.
pub open spec fn children_wf(children: Seq<ChildStorage>) -> bool {
    forall|i: int| 0 <= i < children.len() ==> #[trigger] children[i].storage.wf()
}

impl View for Genesis {
    type V = GenesisView;

    open spec fn view(&self) -> GenesisView {
        match self {
            Genesis::Runtime { kind, config, code } => GenesisView::Runtime {
                kind: *kind,
                config: config@,
                code: code@,
            },
            Genesis::Raw { top, children } => GenesisView::Raw {
                top: top@,
                children: children_view(children@),
            },
        }
    }
}

impl Genesis {
    /// Every storage table has unique keys.
    pub open spec fn wf(&self) -> bool {
        match self {
            Genesis::Runtime { .. } => true,
            Genesis::Raw { top, children } => top.wf() && children_wf(children@),
        }
    }
}

/// The key under which raw storage holds the runtime code: the bytes of `":code"`.
pub open spec fn code_key() -> Seq<u8> {
    seq![58u8, 99u8, 111u8, 100u8, 101u8]
}

/// The bytes of `":code"`.
pub fn code_key_bytes() -> (r: Vec<u8>)
    ensures
        r@ == code_key(),
{
    let r = vec![58u8, 99u8, 111u8, 100u8, 101u8];
    assert(r@ =~= code_key());
    r
}

/// A genesis with its runtime code replaced by `code`, in whichever place its form keeps it.
pub open spec fn with_code(g: GenesisView, code: Seq<u8>) -> GenesisView {
    match g {
        GenesisView::Runtime { kind, config, .. } => GenesisView::Runtime { kind, config, code },
        GenesisView::Raw { top, children } => GenesisView::Raw {
            top: top.insert(code_key(), code),
            children,
        },
    }
}

/// The raw genesis that replaces a plain one, given the storage that the genesis
/// builder materialised from it; `None` where the genesis is raw already.
pub open spec fn raw_from(
    g: GenesisView,
    top: Map<Seq<u8>, Seq<u8>>,
    children: Seq<(Seq<u8>, Map<Seq<u8>, Seq<u8>>)>,
) -> Option<GenesisView> {
    match g {
        GenesisView::Runtime { code, .. } => Some(
            GenesisView::Raw { top: top.insert(code_key(), code), children },
        ),
        GenesisView::Raw { .. } => None,
    }
}

/// Why a transformation of a document failed.
#[derive(Clone, Copy, Debug, PartialEq, Eq, Structural)]
pub enum ChainSpecError {
    /// The genesis is raw already and cannot be converted again.
    AlreadyRaw,
    /// A persisted document could not be read.
    DocumentParseError,
    /// A runtime, code or configuration file could not be read.
    MissingFile,
    /// The genesis builder reported a failure.
    GenesisBuildFailed,
    /// The runtime offers no preset of the requested name.
    UnknownPreset,
}

/// A chain specification: the chain's identity, its code substitutes and its genesis.
#[derive(Debug)]
pub struct ChainSpecDocument {
    pub name: String,
    pub id: String,
    pub chain_type: String,
    pub boot_nodes: Vec<String>,
    pub para_id: Option<u32>,
    pub relay_chain: Option<String>,
    /// The remaining top-level fields (telemetry endpoints, protocol id, fork id,
    /// properties) as JSON object text, carried through unchanged.
    pub extra: String,
    pub code_substitutes: CodeSubstitutes,
    pub genesis: Genesis,
}

/// `a` and `b` agree on every field but the genesis.
pub open spec fn same_except_genesis(a: ChainSpecDocument, b: ChainSpecDocument) -> bool {
    &&& a.name == b.name
    &&& a.id == b.id
    &&& a.chain_type == b.chain_type
    &&& a.boot_nodes == b.boot_nodes
    &&& a.para_id == b.para_id
    &&& a.relay_chain == b.relay_chain
    &&& a.extra == b.extra
    &&& a.code_substitutes == b.code_substitutes
}

/// `a` and `b` agree on every field but the code substitutes.
pub open spec fn same_except_substitutes(a: ChainSpecDocument, b: ChainSpecDocument) -> bool {
    &&& a.name == b.name
    &&& a.id == b.id
    &&& a.chain_type == b.chain_type
    &&& a.boot_nodes == b.boot_nodes
    &&& a.para_id == b.para_id
    &&& a.relay_chain == b.relay_chain
    &&& a.extra == b.extra
    &&& a.genesis == b.genesis
}


/// The identity a new document is given; an absent field takes its default.
#[derive(Debug)]
pub struct CreateOptions {
    pub name: Option<String>,
    pub id: Option<String>,
    pub chain_type: Option<String>,
    pub para_id: Option<u32>,
    pub relay_chain: Option<String>,
}

/// The given text, or `default` where none is given.
pub open spec fn chosen(given: Option<String>, default: Seq<char>) -> Seq<char> {
    match given {
        Some(s) => s@,
        None => default,
    }
}

/// The given text, or `default` where none is given.
fn chosen_or(given: Option<String>, default: &str) -> (r: String)
    ensures
        r@ == chosen(given, default@),
{
    match given {
        Some(s) => s,
        None => default.to_owned(),
    }
}

impl ChainSpecDocument {
    /// The tables of the document have unique keys.
    pub open spec fn wf(&self) -> bool {
        self.code_substitutes.wf() && self.genesis.wf()
    }

    /// A new plain document: its genesis is `config` applied as `kind`, with the
    /// runtime `code` attached; its identity is taken from `options`, where the
    /// name defaults to `"Custom"`, the id to `"custom"` and the chain type to `"Live"`.
    /// It has no boot nodes, no code substitutes and no further fields.
    pub fn create(options: CreateOptions, kind: GenesisKind, config: String, code: Vec<u8>) -> (r:
        ChainSpecDocument)
        ensures
            r.wf(),
            r.name@ == chosen(options.name, "Custom"@),
            r.id@ == chosen(options.id, "custom"@),
            r.chain_type@ == chosen(options.chain_type, "Live"@),
            r.para_id == options.para_id,
            r.relay_chain == options.relay_chain,
            r.boot_nodes@.len() == 0,
            r.extra@.len() == 0,
            r.code_substitutes@ == Map::<u64, Seq<u8>>::empty(),
            r.genesis@ == (GenesisView::Runtime { kind, config: config@, code: code@ }),
    {
        let extra = String::new();
        ChainSpecDocument {
            name: chosen_or(options.name, "Custom"),
            id: chosen_or(options.id, "custom"),
            chain_type: chosen_or(options.chain_type, "Live"),
            boot_nodes: Vec::new(),
            para_id: options.para_id,
            relay_chain: options.relay_chain,
            extra,
            code_substitutes: CodeSubstitutes::new(),
            genesis: Genesis::Runtime { kind, config, code },
        }
    }

    /// Replaces the runtime code: the `code` of a plain genesis, or the value
    /// under `":code"` in raw top storage. Nothing else changes.
    pub fn update_code(&mut self, code: Vec<u8>)
        requires
            old(self).wf(),
        ensures
            final(self).wf(),
            same_except_genesis(*final(self), *old(self)),
            final(self).genesis@ == with_code(old(self).genesis@, code@),
    {
        match &mut self.genesis {
            Genesis::Runtime { code: current, .. } => {
                *current = code;
            },
            Genesis::Raw { top, .. } => {
                top.set(code_key_bytes(), code);
            },
        }
    }

    /// Replaces a plain genesis by raw storage: `top` and `children` as the genesis
    /// builder materialised them, with the runtime code under `":code"`. Fails with
    /// `AlreadyRaw`, changing nothing, where the genesis is raw already.
    pub fn convert_to_raw(&mut self, top: StorageMap, children: Vec<ChildStorage>) -> (r: Result<
        (),
        ChainSpecError,
    >)
        requires
            old(self).wf(),
            top.wf(),
            children_wf(children@),
        ensures
            final(self).wf(),
            match raw_from(old(self).genesis@, top@, children_view(children@)) {
                None => r == Err::<(), ChainSpecError>(ChainSpecError::AlreadyRaw) && *final(self)
                    == *old(self),
                Some(g) => r == Ok::<(), ChainSpecError>(()) && final(self).genesis@ == g
                    && same_except_genesis(*final(self), *old(self)),
            },
    {
        let code = match &self.genesis {
            Genesis::Runtime { code, .. } => {
                let c = code.clone();
                assert(c@ =~= code@);
                c
            },
            Genesis::Raw { .. } => {
                return Err(ChainSpecError::AlreadyRaw);
            },
        };
        let mut top = top;
        top.set(code_key_bytes(), code);
        self.genesis = Genesis::Raw { top, children };
        Ok(())
    }

    /// Sets the code that takes over at `block`, replacing an earlier substitute
    /// at that block. Nothing else changes.
    pub fn add_code_substitute(&mut self, block: u64, code: Vec<u8>)
        requires
            old(self).wf(),
        ensures
            final(self).wf(),
            same_except_substitutes(*final(self), *old(self)),
            final(self).code_substitutes@ == old(self).code_substitutes@.insert(block, code@),
    {
        self.code_substitutes.set(block, code);
    }
}

/// Updating the code of a plain genesis changes its code and nothing else.
pub proof fn lemma_update_code_plain(g: GenesisView, code: Seq<u8>)
    requires
        g is Runtime,
    ensures
        with_code(g, code) is Runtime,
        with_code(g, code)->Runtime_kind == g->Runtime_kind,
        with_code(g, code)->Runtime_config == g->Runtime_config,
        with_code(g, code)->Runtime_code == code,
{
}

/// Updating the code of a raw genesis sets `":code"` in the top storage and
/// leaves every other top entry and every child trie as it was.
pub proof fn lemma_update_code_raw(g: GenesisView, code: Seq<u8>)
    requires
        g is Raw,
    ensures
        with_code(g, code) is Raw,
        with_code(g, code)->Raw_children == g->Raw_children,
        with_code(g, code)->Raw_top.contains_key(code_key()),
        with_code(g, code)->Raw_top[code_key()] == code,
        forall|k: Seq<u8>|
            k != code_key() ==> (#[trigger] with_code(g, code)->Raw_top.contains_key(k)
                == g->Raw_top.contains_key(k) && with_code(g, code)->Raw_top[k] == g->Raw_top[k]),
{
}

/// A genesis converted to raw storage cannot be converted again.
pub proof fn lemma_convert_twice(
    g: GenesisView,
    top1: Map<Seq<u8>, Seq<u8>>,
    children1: Seq<(Seq<u8>, Map<Seq<u8>, Seq<u8>>)>,
    top2: Map<Seq<u8>, Seq<u8>>,
    children2: Seq<(Seq<u8>, Map<Seq<u8>, Seq<u8>>)>,
)
    ensures
        raw_from(g, top1, children1) matches Some(g1) ==> raw_from(g1, top2, children2) is None,
{
}

/// A newly created genesis is the given configuration with the runtime code attached,
/// and converting it to raw yields exactly the storage that the genesis builder
/// materialised, with that code under `":code"`.
pub proof fn lemma_create_then_raw(
    kind: GenesisKind,
    config: Seq<char>,
    code: Seq<u8>,
    top: Map<Seq<u8>, Seq<u8>>,
    children: Seq<(Seq<u8>, Map<Seq<u8>, Seq<u8>>)>,
)
    ensures
        raw_from(GenesisView::Runtime { kind, config, code }, top, children) == Some(
            GenesisView::Raw { top: top.insert(code_key(), code), children },
        ),
{
}

/// Adding a code substitute at `block` leaves the substitute at every other block as it was.
pub proof fn lemma_substitute_keeps_others(
    table: Map<u64, Seq<u8>>,
    block: u64,
    code: Seq<u8>,
    other: u64,
)
    requires
        other != block,
    ensures
        table.insert(block, code).contains_key(other) == table.contains_key(other),
        table.insert(block, code)[other] == table[other],
{
}

/// Adding two substitutes at the same block keeps the later one, and the second
/// addition leaves the size of the table unchanged.
pub proof fn lemma_substitute_twice(
    table: Map<u64, Seq<u8>>,
    block: u64,
    first: Seq<u8>,
    second: Seq<u8>,
)
    requires
        table.dom().finite(),
    ensures
        table.insert(block, first).insert(block, second) == table.insert(block, second),
        table.insert(block, first).insert(block, second).len() == table.insert(block, first).len(),
{
    assert(table.insert(block, first).insert(block, second) =~= table.insert(block, second));
    assert(table.insert(block, first).dom().insert(block) =~= table.insert(block, first).dom());
}

} // verus!
