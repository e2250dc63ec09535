use miner_supervisor::node_key::{
    chain_id_for_ui, db_path_for_chain, lock_path_for_chain, node_key_file_path,
    node_key_file_path_for_chain_ui,
};
use miner_supervisor::rpc::{
    bootnode_ws_for_chain, head_number, health_fields, local_ws_endpoint, parse_u64_from_json,
    reply_id, rpc_request_text, subscription_id, sync_state_fields,
};
use miner_supervisor::text::parse_u64_norm;

#[test]
fn chain_ids_map_to_themselves() {
    assert_eq!(chain_id_for_ui("resonance"), "resonance");
    assert_eq!(chain_id_for_ui("heisenberg"), "heisenberg");
    assert_eq!(chain_id_for_ui("somethingelse"), "somethingelse");
}

#[test]
fn node_key_paths_follow_the_layout() {
    assert_eq!(
        node_key_file_path("/home/u/.local/share/quantus-node", "resonance"),
        "/home/u/.local/share/quantus-node/chains/resonance/network/secret_dilithium"
    );
    assert_eq!(
        node_key_file_path_for_chain_ui("/base", "resonance"),
        "/base/chains/resonance/network/secret_dilithium"
    );
}

#[test]
fn database_paths_follow_the_layout() {
    assert_eq!(db_path_for_chain("/base", "resonance"), "/base/chains/resonance/db/full");
    assert_eq!(
        lock_path_for_chain("/base", "resonance"),
        "/base/chains/resonance/db/full/LOCK"
    );
}

#[test]
fn bootnodes_per_chain() {
    assert_eq!(bootnode_ws_for_chain("resonance"), Some("wss://a.t.res.fm"));
    assert_eq!(bootnode_ws_for_chain("heisenberg"), Some("wss://a.i.res.fm"));
    assert_eq!(bootnode_ws_for_chain("quantus"), None);
    assert_eq!(bootnode_ws_for_chain("unknown"), None);
}

#[test]
fn local_endpoint_is_the_substrate_default() {
    assert_eq!(local_ws_endpoint(), "ws://127.0.0.1:9944");
}

#[test]
fn request_text_is_valid_json_rpc() {
    let txt = rpc_request_text("1001", "chain_subscribeNewHeads");
    assert_eq!(
        txt,
        "{\"jsonrpc\":\"2.0\",\"id\":1001,\"method\":\"chain_subscribeNewHeads\",\"params\":[]}"
    );
    let v: serde_json::Value = serde_json::from_str(&txt).unwrap();
    assert_eq!(v.get("id").and_then(|x| x.as_i64()), Some(1001));
    assert_eq!(
        v.get("method").and_then(|x| x.as_str()),
        Some("chain_subscribeNewHeads")
    );
}

#[test]
fn u64_normalization_handles_both_encodings() {
    assert_eq!(parse_u64_norm("42"), Some(42));
    assert_eq!(parse_u64_norm(" 42 "), Some(42));
    assert_eq!(parse_u64_norm("0x1f"), Some(31));
    assert_eq!(parse_u64_norm("0xFFFFFFFFFFFFFFFF"), Some(u64::MAX));
    assert_eq!(parse_u64_norm("0x10000000000000000"), None);
    assert_eq!(parse_u64_norm("18446744073709551615"), Some(u64::MAX));
    assert_eq!(parse_u64_norm("18446744073709551616"), None);
    assert_eq!(parse_u64_norm("0x"), None);
    assert_eq!(parse_u64_norm(""), None);
    assert_eq!(parse_u64_norm("abc"), None);
    assert_eq!(parse_u64_norm("-3"), None);
}

#[test]
fn json_u64_reads_numbers_and_strings() {
    let n: serde_json::Value = serde_json::from_str("13311").unwrap();
    assert_eq!(parse_u64_from_json(&n), Some(13311));
    let hex: serde_json::Value = serde_json::from_str("\"0x33ff\"").unwrap();
    assert_eq!(parse_u64_from_json(&hex), Some(0x33ff));
    let dec: serde_json::Value = serde_json::from_str("\"97\"").unwrap();
    assert_eq!(parse_u64_from_json(&dec), Some(97));
    let other: serde_json::Value = serde_json::from_str("true").unwrap();
    assert_eq!(parse_u64_from_json(&other), None);
}

#[test]
fn head_number_reads_notifications_and_replies() {
    let notification = "{\"jsonrpc\":\"2.0\",\"method\":\"chain_newHead\",\
        \"params\":{\"subscription\":\"abc\",\"result\":{\"number\":\"0x3401\"}}}";
    assert_eq!(head_number(notification), Some(0x3401));
    let reply = "{\"jsonrpc\":\"2.0\",\"id\":1,\"result\":{\"number\":1234}}";
    assert_eq!(head_number(reply), Some(1234));
    assert_eq!(head_number("{\"result\":{}}"), None);
    assert_eq!(head_number("not json"), None);
}

#[test]
fn subscription_and_reply_ids_are_read() {
    let sub = "{\"jsonrpc\":\"2.0\",\"id\":1001,\"result\":\"sub-xyz\"}";
    assert_eq!(subscription_id(sub).as_deref(), Some("sub-xyz"));
    assert_eq!(reply_id(sub), Some(1001));
    assert_eq!(subscription_id("{\"result\":7}"), None);
}

#[test]
fn health_and_sync_state_fields_are_read() {
    let health = "{\"jsonrpc\":\"2.0\",\"id\":2001,\
        \"result\":{\"peers\":8,\"isSyncing\":true,\"shouldHavePeers\":true}}";
    assert_eq!(health_fields(health), (Some(8), Some(true)));
    assert_eq!(health_fields("{\"error\":{}}"), (None, None));

    let sync = "{\"jsonrpc\":\"2.0\",\"id\":2,\
        \"result\":{\"startingBlock\":0,\"currentBlock\":\"0x64\",\"highestBlock\":200}}";
    assert_eq!(sync_state_fields(sync), (Some(100), Some(200)));
    assert_eq!(sync_state_fields("nope"), (None, None));
}
