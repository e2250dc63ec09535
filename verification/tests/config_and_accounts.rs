use miner_supervisor::account::AccountJson;
use miner_supervisor::config::{
    build_args, chain_is_known, cli_chain_for_ui, MinerConfig, StartMinerArgs,
};
use miner_supervisor::text::{find_ci, find_exact, has_ci, str_eq, trim_str};

#[test]
fn known_chains_are_the_three_selectors() {
    assert!(chain_is_known("resonance"));
    assert!(chain_is_known("heisenberg"));
    assert!(chain_is_known("quantus"));
    assert!(!chain_is_known("mainnet"));
    assert!(!chain_is_known(""));
}

#[test]
fn cli_chain_mapping() {
    assert_eq!(cli_chain_for_ui("resonance"), Some("live_resonance"));
    assert_eq!(cli_chain_for_ui("heisenberg"), None);
    assert_eq!(cli_chain_for_ui("quantus"), Some("quantus"));
}

#[test]
fn build_args_layout_is_deterministic() {
    let extra = vec!["--a".to_string(), "b".to_string()];
    let args = build_args("live_resonance", "/key", "qzoabc", &extra);
    assert_eq!(
        args,
        vec![
            "--chain",
            "live_resonance",
            "--validator",
            "--node-key-file",
            "/key",
            "--rewards-address",
            "qzoabc",
            "--a",
            "b",
        ]
    );
}

#[test]
fn start_args_become_a_config() {
    let req = StartMinerArgs {
        chain: "resonance".to_string(),
        rewards_address: "qzoabc".to_string(),
        binary_path: "/bin/node".to_string(),
        extra_args: vec!["--x".to_string()],
        log_to_file: true,
        external_num_cores: Some(4),
        external_port: Some(9833),
    };
    let cfg = req.to_config();
    assert_eq!(cfg.chain, "resonance");
    assert_eq!(cfg.rewards_address, "qzoabc");
    assert_eq!(cfg.binary_path, "/bin/node");
    assert_eq!(cfg.extra_args, vec!["--x"]);
    assert!(cfg.log_to_file);
}

#[test]
fn duplicate_copies_every_field() {
    let cfg = MinerConfig {
        chain: "resonance".to_string(),
        rewards_address: "qzo".to_string(),
        binary_path: "/b".to_string(),
        extra_args: vec!["--x".to_string(), "1".to_string()],
        log_to_file: true,
    };
    let copy = cfg.duplicate();
    assert_eq!(copy.chain, cfg.chain);
    assert_eq!(copy.rewards_address, cfg.rewards_address);
    assert_eq!(copy.binary_path, cfg.binary_path);
    assert_eq!(copy.extra_args, cfg.extra_args);
    assert_eq!(copy.log_to_file, cfg.log_to_file);
}

#[test]
fn account_json_address_presence() {
    let with = AccountJson {
        address: "qzoabc".to_string(),
        secret_phrase: None,
        seed: None,
        pub_key: None,
    };
    assert!(with.has_address());
    let without = AccountJson {
        address: String::new(),
        secret_phrase: None,
        seed: None,
        pub_key: None,
    };
    assert!(!without.has_address());
}

#[test]
fn text_search_is_first_match_and_case_insensitive() {
    assert_eq!(find_ci("Importing Block #5", "importing block #"), Some(0));
    assert_eq!(find_ci("xx ERROR yy error", "error"), Some(3));
    assert_eq!(find_ci("nothing", "error"), None);
    assert_eq!(find_exact("Role: x Role: y", "Role:"), Some(0));
    assert_eq!(find_exact("role: x", "Role:"), None);
    assert!(has_ci("Invalid Argument: Column Families Not Opened",
        "invalid argument: column families not opened"));
}

#[test]
fn trim_and_equality_helpers() {
    assert_eq!(trim_str("  a b \t"), "a b");
    assert_eq!(trim_str(""), "");
    assert_eq!(trim_str(" \t "), "");
    assert_eq!(trim_str("x"), "x");
    assert!(str_eq("abc", "abc"));
    assert!(!str_eq("abc", "abd"));
    assert!(!str_eq("abc", "ab"));
}
