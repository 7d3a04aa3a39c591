use omni_runtime::chain_spec::{
    code_key_bytes, ChainSpecDocument, ChainSpecError, ChildStorage, CreateOptions, Genesis,
    GenesisKind,
};
use omni_runtime::storage::{same_bytes, CodeSubstitutes, StorageMap};

fn no_options() -> CreateOptions {
    CreateOptions { name: None, id: None, chain_type: None, para_id: None, relay_chain: None }
}

fn plain_doc() -> ChainSpecDocument {
    let mut doc = ChainSpecDocument::create(
        no_options(),
        GenesisKind::Patch,
        "{\"balances\":{}}".to_string(),
        vec![1, 2, 3],
    );
    doc.boot_nodes.push("/ip4/127.0.0.1/tcp/30333".to_string());
    doc.extra = "{\"protocolId\":\"dot\"}".to_string();
    doc
}

fn lookup(table: &StorageMap, key: &[u8]) -> Option<Vec<u8>> {
    table.entries().iter().find(|(k, _)| k.as_slice() == key).map(|(_, v)| v.clone())
}

fn substitute(table: &CodeSubstitutes, block: u64) -> Option<Vec<u8>> {
    table.entries().iter().find(|(b, _)| *b == block).map(|(_, c)| c.clone())
}

fn raw_top() -> StorageMap {
    let mut top = StorageMap::new();
    top.set(vec![0xaa], vec![0x01]);
    top.set(vec![0xbb], vec![0x02]);
    top
}

#[test]
fn code_key_is_colon_code() {
    assert_eq!(code_key_bytes(), b":code".to_vec());
}

#[test]
fn same_bytes_compares_contents() {
    assert!(same_bytes(&vec![1, 2], &vec![1, 2]));
    assert!(!same_bytes(&vec![1, 2], &vec![1, 3]));
    assert!(!same_bytes(&vec![1], &vec![1, 2]));
    assert!(same_bytes(&vec![], &vec![]));
}

#[test]
fn storage_map_set_overwrites_same_key() {
    let mut top = raw_top();
    top.set(vec![0xaa], vec![0x09]);
    assert_eq!(top.entries().len(), 2);
    assert_eq!(lookup(&top, &[0xaa]), Some(vec![0x09]));
    assert_eq!(lookup(&top, &[0xbb]), Some(vec![0x02]));
}

#[test]
fn create_default_is_plain_patch_with_code() {
    let doc = ChainSpecDocument::create(
        no_options(),
        GenesisKind::Patch,
        "{}".to_string(),
        vec![4, 5, 6],
    );
    assert_eq!(doc.name, "Custom");
    assert_eq!(doc.id, "custom");
    assert_eq!(doc.chain_type, "Live");
    assert!(doc.boot_nodes.is_empty());
    assert!(doc.code_substitutes.entries().is_empty());
    match &doc.genesis {
        Genesis::Runtime { kind, config, code } => {
            assert_eq!(*kind, GenesisKind::Patch);
            assert_eq!(config, "{}");
            assert_eq!(code, &vec![4, 5, 6]);
        }
        Genesis::Raw { .. } => panic!("expected a plain genesis"),
    }
}

#[test]
fn create_with_parachain_params() {
    let options = CreateOptions {
        name: Some("test_chain".to_string()),
        id: Some("100".to_string()),
        chain_type: Some("live".to_string()),
        para_id: Some(10101),
        relay_chain: Some("rococo-local".to_string()),
    };
    let doc = ChainSpecDocument::create(options, GenesisKind::Full, "{}".to_string(), vec![7]);
    assert_eq!(doc.name, "test_chain");
    assert_eq!(doc.id, "100");
    assert_eq!(doc.chain_type, "live");
    assert_eq!(doc.para_id, Some(10101));
    assert_eq!(doc.relay_chain.as_deref(), Some("rococo-local"));
    assert!(matches!(doc.genesis, Genesis::Runtime { kind: GenesisKind::Full, .. }));
}

#[test]
fn create_then_convert_to_raw() {
    let mut doc = ChainSpecDocument::create(
        no_options(),
        GenesisKind::Patch,
        "{}".to_string(),
        vec![4, 5, 6],
    );
    assert_eq!(doc.convert_to_raw(raw_top(), vec![]), Ok(()));
    match &doc.genesis {
        Genesis::Raw { top, children } => {
            assert_eq!(top.entries().len(), 3);
            assert_eq!(lookup(top, b":code"), Some(vec![4, 5, 6]));
            assert_eq!(lookup(top, &[0xaa]), Some(vec![0x01]));
            assert_eq!(lookup(top, &[0xbb]), Some(vec![0x02]));
            assert!(children.is_empty());
        }
        Genesis::Runtime { .. } => panic!("expected a raw genesis"),
    }
}

#[test]
fn update_code_plain_changes_only_code() {
    let mut doc = plain_doc();
    doc.add_code_substitute(5, vec![9]);
    doc.update_code(vec![4, 5, 6]);
    assert_eq!(doc.name, "Custom");
    assert_eq!(doc.boot_nodes, vec!["/ip4/127.0.0.1/tcp/30333".to_string()]);
    assert_eq!(doc.extra, "{\"protocolId\":\"dot\"}");
    assert_eq!(substitute(&doc.code_substitutes, 5), Some(vec![9]));
    match &doc.genesis {
        Genesis::Runtime { kind, config, code } => {
            assert_eq!(*kind, GenesisKind::Patch);
            assert_eq!(config, "{\"balances\":{}}");
            assert_eq!(code, &vec![4, 5, 6]);
        }
        Genesis::Raw { .. } => panic!("expected a plain genesis"),
    }
}

#[test]
fn update_code_raw_changes_only_code_entry() {
    let mut doc = plain_doc();
    let mut child = StorageMap::new();
    child.set(vec![0x10], vec![0x20]);
    let children = vec![ChildStorage { key: vec![0x01], storage: child }];
    doc.convert_to_raw(raw_top(), children).unwrap();
    doc.update_code(vec![4, 5, 6]);
    match &doc.genesis {
        Genesis::Raw { top, children } => {
            assert_eq!(top.entries().len(), 3);
            assert_eq!(lookup(top, b":code"), Some(vec![4, 5, 6]));
            assert_eq!(lookup(top, &[0xaa]), Some(vec![0x01]));
            assert_eq!(lookup(top, &[0xbb]), Some(vec![0x02]));
            assert_eq!(children.len(), 1);
            assert_eq!(children[0].key, vec![0x01]);
            assert_eq!(lookup(&children[0].storage, &[0x10]), Some(vec![0x20]));
        }
        Genesis::Runtime { .. } => panic!("expected a raw genesis"),
    }
}

#[test]
fn convert_to_raw_twice_fails_already_raw() {
    let mut doc = plain_doc();
    assert_eq!(doc.convert_to_raw(raw_top(), vec![]), Ok(()));
    assert_eq!(doc.convert_to_raw(StorageMap::new(), vec![]), Err(ChainSpecError::AlreadyRaw));
    match &doc.genesis {
        Genesis::Raw { top, .. } => assert_eq!(top.entries().len(), 3),
        Genesis::Runtime { .. } => panic!("expected a raw genesis"),
    }
}

#[test]
fn add_code_substitute_keeps_other_blocks() {
    let mut doc = plain_doc();
    doc.add_code_substitute(100, vec![4, 5, 6]);
    doc.add_code_substitute(200, vec![7]);
    assert_eq!(doc.code_substitutes.entries().len(), 2);
    assert_eq!(substitute(&doc.code_substitutes, 100), Some(vec![4, 5, 6]));
    assert_eq!(substitute(&doc.code_substitutes, 200), Some(vec![7]));
    assert!(matches!(&doc.genesis, Genesis::Runtime { code, .. } if code == &vec![1, 2, 3]));
}

#[test]
fn add_code_substitute_twice_overwrites() {
    let mut doc = plain_doc();
    doc.add_code_substitute(100, vec![1]);
    doc.add_code_substitute(100, vec![2]);
    assert_eq!(doc.code_substitutes.entries().len(), 1);
    assert_eq!(substitute(&doc.code_substitutes, 100), Some(vec![2]));
    doc.add_code_substitute(u64::MAX, vec![3]);
    assert_eq!(substitute(&doc.code_substitutes, u64::MAX), Some(vec![3]));
}

#[test]
fn code_substitutes_kept_in_numeric_order() {
    let mut doc = plain_doc();
    doc.add_code_substitute(200, vec![2]);
    doc.add_code_substitute(20, vec![1]);
    doc.add_code_substitute(1000, vec![3]);
    doc.add_code_substitute(100, vec![4]);
    let blocks: Vec<u64> = doc.code_substitutes.entries().iter().map(|(b, _)| *b).collect();
    assert_eq!(blocks, vec![20, 100, 200, 1000]);
}
