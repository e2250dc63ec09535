use miner_supervisor::config::MinerConfig;
use miner_supervisor::supervisor::{RemediationError, StartError, Supervisor};

fn resonance_cfg() -> MinerConfig {
    MinerConfig {
        chain: "resonance".to_string(),
        rewards_address: "qzoignored".to_string(),
        binary_path: "/opt/bin/quantus-node".to_string(),
        extra_args: vec!["--foo".to_string()],
        log_to_file: false,
    }
}

fn prepared(sup: &mut Supervisor) -> Vec<String> {
    let account = "qzoabc".to_string();
    let key = "/data/quantus-node/chains/resonance/network/secret_dilithium".to_string();
    sup.prepare_start(&resonance_cfg(), Some(&account), Some(&key)).unwrap()
}

#[test]
fn stop_on_stopped_supervisor_is_a_noop() {
    let mut sup = Supervisor::new();
    assert_eq!(sup.stop(), None);
    assert_eq!(sup.running, None);
    assert!(sup.last_cfg.is_none());
}

#[test]
fn start_stop_cycle_tracks_one_process() {
    let mut sup = Supervisor::new();
    let _args = prepared(&mut sup);
    assert_eq!(sup.running, None);
    sup.note_spawned(4242);
    assert_eq!(sup.running, Some(4242));
    // Stop hands the pid out and empties the slot unconditionally.
    assert_eq!(sup.stop(), Some(4242));
    assert_eq!(sup.running, None);
    // A second stop has nothing to do.
    assert_eq!(sup.stop(), None);
}

#[test]
fn prepare_start_builds_the_argument_vector() {
    let mut sup = Supervisor::new();
    let args = prepared(&mut sup);
    assert_eq!(
        args,
        vec![
            "--chain",
            "live_resonance",
            "--validator",
            "--node-key-file",
            "/data/quantus-node/chains/resonance/network/secret_dilithium",
            "--rewards-address",
            "qzoabc",
            "--foo",
        ]
    );
    assert!(sup.last_cfg.is_some());
    assert_eq!(sup.last_cfg.as_ref().unwrap().chain, "resonance");
}

#[test]
fn prepare_start_without_account_fails() {
    let mut sup = Supervisor::new();
    let key = "/k".to_string();
    let r = sup.prepare_start(&resonance_cfg(), None, Some(&key));
    assert!(matches!(r, Err(StartError::MissingAccount)));
    assert!(sup.last_cfg.is_none());
    let msg = StartError::MissingAccount.message();
    assert_eq!(msg, "no usable rewards account available");
}

#[test]
fn prepare_start_refuses_heisenberg() {
    let mut sup = Supervisor::new();
    let mut cfg = resonance_cfg();
    cfg.chain = "heisenberg".to_string();
    let account = "qzoabc".to_string();
    let key = "/k".to_string();
    let r = sup.prepare_start(&cfg, Some(&account), Some(&key));
    assert!(matches!(r, Err(StartError::UnsupportedChain)));
}

#[test]
fn prepare_start_without_node_key_fails() {
    let mut sup = Supervisor::new();
    let account = "qzoabc".to_string();
    let r = sup.prepare_start(&resonance_cfg(), Some(&account), None);
    assert!(matches!(r, Err(StartError::MissingNodeKey)));
}

#[test]
fn stderr_line_drives_the_safe_mode_cycle() {
    let mut sup = Supervisor::new();
    let _args = prepared(&mut sup);
    sup.note_spawned(7);

    // Entering the heavy range schedules an enable.
    let out = sup.handle_stderr_line("Importing block #13311 (0xabc)");
    assert_eq!(out.scheduled, Some(true));
    assert_eq!(sup.drain_pending(), Some(true));

    // The toggle rewrites the remembered extra arguments.
    let cfg = sup.plan_safe_mode(true).unwrap().expect("a restart is needed");
    assert_eq!(
        cfg.extra_args,
        vec!["--foo", "--max-blocks-per-request", "1"]
    );
    sup.note_safe_mode(true);

    // Further in-range blocks change nothing while safe mode is active.
    let again = sup.handle_stderr_line("Importing block #13340");
    assert_eq!(again.scheduled, None);
    assert_eq!(sup.drain_pending(), None);

    // Past the range a disable is scheduled; executing it removes the
    // flag entirely.
    let past = sup.handle_stderr_line("Importing block #13361");
    assert_eq!(past.scheduled, Some(false));
    assert_eq!(sup.drain_pending(), Some(false));
    // The toggled config is what a restart would have remembered.
    let mut sup2 = Supervisor::new();
    let account = "qzoabc".to_string();
    let key = "/k".to_string();
    let mut mid_cfg = resonance_cfg();
    mid_cfg.extra_args = cfg.extra_args.clone();
    sup2.prepare_start(&mid_cfg, Some(&account), Some(&key)).unwrap();
    sup2.note_safe_mode(true);
    let restored = sup2.plan_safe_mode(false).unwrap().expect("a restart is needed");
    assert_eq!(restored.extra_args, vec!["--foo"]);
}

#[test]
fn plan_safe_mode_is_idempotent_against_current_state() {
    let mut sup = Supervisor::new();
    let _args = prepared(&mut sup);
    // Disabling while inactive is a no-op.
    assert!(sup.plan_safe_mode(false).unwrap().is_none());
    sup.note_safe_mode(true);
    assert!(sup.plan_safe_mode(true).unwrap().is_none());
}

#[test]
fn plan_safe_mode_without_session_fails() {
    let sup = Supervisor::new();
    let r = sup.plan_safe_mode(true);
    assert!(matches!(r, Err(RemediationError::NoPriorSession)));
    assert_eq!(
        RemediationError::NoPriorSession.message(),
        "no previous miner configuration available"
    );
}

#[test]
fn error_messages_are_descriptive() {
    let e = StartError::Spawn { message: "spawn miner: not found".to_string() };
    assert_eq!(e.message(), "spawn miner: not found");
    assert_eq!(
        StartError::UnsupportedChain.message(),
        "Heisenberg is not available yet (requires quantus-node 0.1.6-98ceb8de72a)"
    );
    assert_eq!(StartError::MissingNodeKey.message(), "node identity key file not available");
}

#[test]
fn stderr_line_updates_meta_and_flags_corruption() {
    let mut sup = Supervisor::new();
    let _args = prepared(&mut sup);
    let out = sup.handle_stderr_line("Role: authority");
    assert!(out.meta_changed);
    assert!(!out.corruption);
    assert_eq!(sup.meta.role.as_deref(), Some("authority"));

    let bad = sup.handle_stderr_line(
        "Invalid argument: Column families not opened: col12, col11",
    );
    assert!(bad.corruption);
}

#[test]
fn stderr_line_yields_events_too() {
    let mut sup = Supervisor::new();
    let out = sup.handle_stderr_line("Share accepted");
    assert!(matches!(
        out.event,
        Some(miner_supervisor::parse::MinerEvent::ShareAccepted)
    ));
}

#[test]
fn session_reset_on_prepare_start() {
    let mut sup = Supervisor::new();
    let _args = prepared(&mut sup);
    sup.handle_stderr_line("Role: authority");
    sup.note_safe_mode(true);
    // A new start resets metadata, status and safe mode.
    let _args2 = prepared(&mut sup);
    assert_eq!(sup.meta.role, None);
    assert_eq!(sup.meta.chain.as_deref(), Some("resonance"));
    assert!(!sup.safe.active);
    assert_eq!(sup.safe.pending, None);
}

#[test]
fn repair_plan_names_the_database_directory() {
    let mut sup = Supervisor::new();
    assert!(matches!(sup.plan_repair("/base"), Err(RemediationError::NoPriorSession)));
    let _args = prepared(&mut sup);
    let (db, cfg) = sup.plan_repair("/base").unwrap();
    assert_eq!(db, "/base/chains/resonance/db/full");
    assert_eq!(cfg.chain, "resonance");
    assert_eq!(cfg.extra_args, vec!["--foo"]);
}

#[test]
fn unlock_plan_names_the_lock_file() {
    let mut sup = Supervisor::new();
    assert!(matches!(sup.plan_unlock("/base"), Err(RemediationError::NoPriorSession)));
    let _args = prepared(&mut sup);
    let (lock, _cfg) = sup.plan_unlock("/base").unwrap();
    assert_eq!(lock, "/base/chains/resonance/db/full/LOCK");
}

#[test]
fn unknown_chain_passes_through_to_the_cli() {
    let mut sup = Supervisor::new();
    let mut cfg = resonance_cfg();
    cfg.chain = "quantus".to_string();
    let account = "qzoabc".to_string();
    let key = "/k".to_string();
    let args = sup.prepare_start(&cfg, Some(&account), Some(&key)).unwrap();
    assert_eq!(args[1], "quantus");
}
