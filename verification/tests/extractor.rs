use miner_supervisor::meta::{update_meta_from_line, MinerMeta};

#[test]
fn role_line_sets_role_once() {
    let mut meta = MinerMeta::empty();
    let changed = update_meta_from_line(&mut meta, "Role: authority");
    assert!(changed);
    assert_eq!(meta.role.as_deref(), Some("authority"));
    // Feeding the identical line again reports no change.
    let changed_again = update_meta_from_line(&mut meta, "Role: authority");
    assert!(!changed_again);
    assert_eq!(meta.role.as_deref(), Some("authority"));
}

#[test]
fn role_line_with_new_value_overwrites() {
    let mut meta = MinerMeta::empty();
    assert!(update_meta_from_line(&mut meta, "Role: authority"));
    assert!(update_meta_from_line(&mut meta, "Role: full"));
    assert_eq!(meta.role.as_deref(), Some("full"));
}

#[test]
fn empty_value_does_not_populate() {
    let mut meta = MinerMeta::empty();
    let changed = update_meta_from_line(&mut meta, "Role:   ");
    assert!(!changed);
    assert_eq!(meta.role, None);
}

#[test]
fn version_marker_is_case_insensitive() {
    let mut meta = MinerMeta::empty();
    assert!(update_meta_from_line(&mut meta, "Version 0.1.6-deadbeef"));
    assert_eq!(meta.version.as_deref(), Some("0.1.6-deadbeef"));
}

#[test]
fn several_fields_from_typical_startup_lines() {
    let mut meta = MinerMeta::empty();
    assert!(update_meta_from_line(&mut meta, "Chain specification: Resonance Live"));
    assert!(update_meta_from_line(&mut meta, "Node name: jolly-otter-1234"));
    assert!(update_meta_from_line(&mut meta, "Database: RocksDb at /data/chains/resonance/db/full"));
    assert!(update_meta_from_line(&mut meta, "Local node identity is: 12D3KooWabc"));
    assert!(update_meta_from_line(&mut meta, "Running JSON-RPC server: addr=127.0.0.1:9944"));
    assert_eq!(meta.chain_spec.as_deref(), Some("Resonance Live"));
    assert_eq!(meta.node_name.as_deref(), Some("jolly-otter-1234"));
    assert_eq!(meta.database.as_deref(), Some("/data/chains/resonance/db/full"));
    assert_eq!(meta.local_identity.as_deref(), Some("12D3KooWabc"));
    assert_eq!(meta.jsonrpc_addr.as_deref(), Some("127.0.0.1:9944"));
}

#[test]
fn highest_known_block_takes_leading_digits() {
    let mut meta = MinerMeta::empty();
    assert!(update_meta_from_line(&mut meta, "Highest known block at #13360 (finalized)"));
    assert_eq!(meta.highest_known_block, Some(13360));
    // Same number again: no change.
    assert!(!update_meta_from_line(&mut meta, "Highest known block at #13360"));
    // No digits after the marker: field keeps its value.
    assert!(!update_meta_from_line(&mut meta, "Highest known block at #none"));
    assert_eq!(meta.highest_known_block, Some(13360));
}

#[test]
fn cpu_cores_needs_a_clean_number() {
    let mut meta = MinerMeta::empty();
    assert!(update_meta_from_line(&mut meta, "CPU cores: 8"));
    assert_eq!(meta.cpu_cores, Some(8));
    assert!(!update_meta_from_line(&mut meta, "CPU cores: eight"));
    assert_eq!(meta.cpu_cores, Some(8));
}

#[test]
fn system_facts_are_extracted() {
    let mut meta = MinerMeta::empty();
    assert!(update_meta_from_line(&mut meta, "Operating system: linux"));
    assert!(update_meta_from_line(&mut meta, "CPU architecture: x86_64"));
    assert!(update_meta_from_line(&mut meta, "Memory: 32068MB"));
    assert_eq!(meta.os.as_deref(), Some("linux"));
    assert_eq!(meta.arch.as_deref(), Some("x86_64"));
    assert_eq!(meta.memory.as_deref(), Some("32068MB"));
}

#[test]
fn unrelated_line_changes_nothing() {
    let mut meta = MinerMeta::empty();
    assert!(!update_meta_from_line(&mut meta, "Idle (0 peers), best: #13360"));
    assert_eq!(meta.node_name, None);
}

#[test]
fn for_start_carries_the_request_context() {
    let meta = MinerMeta::for_start("/usr/local/bin/quantus-node", "resonance", "qzoabc");
    assert_eq!(meta.binary.as_deref(), Some("/usr/local/bin/quantus-node"));
    assert_eq!(meta.chain.as_deref(), Some("resonance"));
    assert_eq!(meta.rewards_address.as_deref(), Some("qzoabc"));
    assert_eq!(meta.version, None);
    assert_eq!(meta.highest_known_block, None);
}
