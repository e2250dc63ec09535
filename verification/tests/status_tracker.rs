use miner_supervisor::status::{MinerStatus, StatusTracker};

#[test]
fn republished_only_on_change() {
    let mut t = StatusTracker::new();
    assert!(t.fold_head(5));
    let first = t.publish_if_changed();
    assert!(first.is_some());
    assert_eq!(first.unwrap().current_block, Some(5));
    // An identical poll: nothing changes, nothing is republished.
    assert!(!t.fold_head(5));
    assert!(t.publish_if_changed().is_none());
}

#[test]
fn two_consecutive_identical_polls_publish_once() {
    let mut t = StatusTracker::new();
    t.fold_health(Some(9), Some(true));
    let mut publications = 0;
    for _ in 0..2 {
        t.fold_health(Some(9), Some(true));
        if t.publish_if_changed().is_some() {
            publications += 1;
        }
    }
    assert_eq!(publications, 1);
}

#[test]
fn health_fields_fold_individually() {
    let mut t = StatusTracker::new();
    assert!(t.fold_health(Some(3), None));
    assert_eq!(t.current().peers, Some(3));
    assert_eq!(t.current().is_syncing, None);
    // Absent values leave fields untouched.
    assert!(!t.fold_health(None, None));
    assert!(t.fold_health(None, Some(false)));
    assert_eq!(t.current().peers, Some(3));
    assert_eq!(t.current().is_syncing, Some(false));
}

#[test]
fn remote_height_takes_the_maximum() {
    let mut t = StatusTracker::new();
    assert!(t.fold_remote_highest(10));
    assert_eq!(t.current().highest_block, Some(10));
    // A lower remote sample does not win.
    assert!(!t.fold_remote_highest(7));
    assert_eq!(t.current().highest_block, Some(10));
    assert!(t.fold_remote_highest(12));
    assert_eq!(t.current().highest_block, Some(12));
}

#[test]
fn sync_state_sets_current_and_merges_highest() {
    let mut t = StatusTracker::new();
    assert!(t.fold_sync_state(Some(100), Some(200)));
    assert_eq!(t.current().current_block, Some(100));
    assert_eq!(t.current().highest_block, Some(200));
    // The higher of local and remote wins for highestBlock.
    t.fold_remote_highest(500);
    assert!(t.fold_sync_state(Some(101), Some(300)));
    assert_eq!(t.current().current_block, Some(101));
    assert_eq!(t.current().highest_block, Some(500));
}

#[test]
fn fresh_tracker_is_unknown_everywhere() {
    let t = StatusTracker::new();
    let s: MinerStatus = t.current();
    assert_eq!(s.peers, None);
    assert_eq!(s.current_block, None);
    assert_eq!(s.highest_block, None);
    assert_eq!(s.is_syncing, None);
}

#[test]
fn every_field_gates_republication() {
    let mut t = StatusTracker::new();
    t.fold_head(1);
    assert!(t.publish_if_changed().is_some());
    t.fold_health(Some(2), None);
    assert!(t.publish_if_changed().is_some());
    t.fold_health(None, Some(true));
    assert!(t.publish_if_changed().is_some());
    t.fold_remote_highest(50);
    assert!(t.publish_if_changed().is_some());
    assert!(t.publish_if_changed().is_none());
}
