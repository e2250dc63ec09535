use miner_supervisor::safe_mode::{
    add_max_blocks_arg, has_max_blocks_arg, remove_max_blocks_arg, troublesome_ranges,
    SafeModeState,
};

fn strings(v: &[&str]) -> Vec<String> {
    v.iter().map(|s| s.to_string()).collect()
}

#[test]
fn resonance_has_one_heavy_range() {
    assert_eq!(troublesome_ranges("resonance"), vec![(13311, 13360)]);
    assert_eq!(troublesome_ranges("heisenberg"), Vec::new());
    assert_eq!(troublesome_ranges("quantus"), Vec::new());
}

#[test]
fn toggle_round_trip_restores_args() {
    let mut args = strings(&["--foo", "7"]);
    add_max_blocks_arg(&mut args);
    assert_eq!(args, strings(&["--foo", "7", "--max-blocks-per-request", "1"]));
    remove_max_blocks_arg(&mut args);
    assert_eq!(args, strings(&["--foo", "7"]));
}

#[test]
fn enable_is_idempotent() {
    let mut args = strings(&[]);
    add_max_blocks_arg(&mut args);
    add_max_blocks_arg(&mut args);
    assert_eq!(args, strings(&["--max-blocks-per-request", "1"]));
}

#[test]
fn has_max_blocks_arg_reports_presence() {
    assert!(!has_max_blocks_arg(&strings(&["--foo"])));
    assert!(has_max_blocks_arg(&strings(&["--foo", "--max-blocks-per-request", "1"])));
}

#[test]
fn remove_spares_a_following_flag() {
    let mut args = strings(&["--max-blocks-per-request", "--telemetry"]);
    remove_max_blocks_arg(&mut args);
    assert_eq!(args, strings(&["--telemetry"]));
}

#[test]
fn remove_handles_flag_at_end_and_repeats() {
    let mut args = strings(&["--max-blocks-per-request"]);
    remove_max_blocks_arg(&mut args);
    assert_eq!(args, Vec::<String>::new());

    let mut twice = strings(&[
        "--max-blocks-per-request",
        "1",
        "--foo",
        "--max-blocks-per-request",
        "2",
    ]);
    remove_max_blocks_arg(&mut twice);
    assert_eq!(twice, strings(&["--foo"]));
}

#[test]
fn observe_block_schedules_enable_at_range_start() {
    let ranges = troublesome_ranges("resonance");
    let mut s = SafeModeState::new();
    // Below the range: nothing is scheduled.
    assert_eq!(s.observe_block(13310, &ranges), None);
    assert_eq!(s.pending, None);
    // At the range start: an enable request is recorded.
    assert_eq!(s.observe_block(13311, &ranges), Some(true));
    assert_eq!(s.pending, Some(true));
}

#[test]
fn observe_block_schedules_disable_past_all_ranges() {
    let ranges = troublesome_ranges("resonance");
    let mut s = SafeModeState::new();
    s.active = true;
    // In range while active: nothing new.
    assert_eq!(s.observe_block(13340, &ranges), None);
    // Past the end: a disable request is recorded.
    assert_eq!(s.observe_block(13361, &ranges), Some(false));
    assert_eq!(s.pending, Some(false));
}

#[test]
fn observe_block_overwrites_pending() {
    let ranges = troublesome_ranges("resonance");
    let mut s = SafeModeState::new();
    assert_eq!(s.observe_block(13311, &ranges), Some(true));
    // A later trigger overwrites the undrained request (last writer wins).
    assert_eq!(s.observe_block(13320, &ranges), Some(true));
    assert_eq!(s.drain(), Some(true));
    assert_eq!(s.pending, None);
    assert_eq!(s.drain(), None);
}

#[test]
fn past_start_also_schedules_enable() {
    // "Approaching or inside" includes heights past a range start even
    // when safe mode was never enabled in between.
    let ranges = troublesome_ranges("resonance");
    let mut s = SafeModeState::new();
    assert_eq!(s.observe_block(20000, &ranges), Some(true));
}
