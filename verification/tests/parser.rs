use miner_supervisor::parse::{capture_hash, capture_height, parse_decimal, parse_event, parse_hashrate, Decimal, MinerEvent};

#[test]
fn hashrate_keyword_line_parses() {
    let ev = parse_event("hashrate: 42.5 H/s");
    match ev {
        Some(MinerEvent::Hashrate { hps }) => {
            assert_eq!(hps, Decimal { mantissa: 425, scale: 1 });
        }
        other => panic!("expected hashrate event, got {:?}", other),
    }
}

#[test]
fn hashrate_unit_first_line_parses() {
    let ev = parse_event("miner reports H/s=1234.56 right now");
    match ev {
        Some(MinerEvent::Hashrate { hps }) => {
            assert_eq!(hps, Decimal { mantissa: 123456, scale: 2 });
        }
        other => panic!("expected hashrate event, got {:?}", other),
    }
}

#[test]
fn hashrate_without_unit_is_no_hashrate() {
    // The keyword pattern needs the trailing unit marker.
    let ev = parse_event("hashrate: 42.5");
    assert!(ev.is_none(), "got {:?}", ev);
}

#[test]
fn hashrate_bad_number_falls_through() {
    // The pattern matches but `1.2.3` is no decimal; no later rule fires.
    let ev = parse_event("hashrate: 1.2.3 h/s");
    assert!(ev.is_none(), "got {:?}", ev);
}

#[test]
fn share_accepted_line_parses() {
    let ev = parse_event("Share accepted");
    assert!(matches!(ev, Some(MinerEvent::ShareAccepted)));
    let ev2 = parse_event("accepted share from worker 3");
    assert!(matches!(ev2, Some(MinerEvent::ShareAccepted)));
}

#[test]
fn connected_line_parses() {
    assert!(matches!(
        parse_event("Connected to pool eu1.pool.example"),
        Some(MinerEvent::Connected)
    ));
    assert!(matches!(parse_event("Syncing 4.2 bps"), Some(MinerEvent::Connected)));
}

#[test]
fn unmatched_line_yields_no_event() {
    assert!(parse_event("Idle (0 peers), best: #13360").is_none());
    assert!(parse_event("").is_none());
}

#[test]
fn found_block_with_height_and_hash() {
    let ev = parse_event("Found block hash: 0xabc123 height: 123");
    match ev {
        Some(MinerEvent::FoundBlock { height, hash }) => {
            assert_eq!(height, Some(123));
            assert_eq!(hash.as_deref(), Some("0xabc123"));
        }
        other => panic!("expected found-block event, got {:?}", other),
    }
}

#[test]
fn mined_block_without_captures() {
    let ev = parse_event("Mined block!");
    match ev {
        Some(MinerEvent::FoundBlock { height, hash }) => {
            assert_eq!(height, None);
            assert_eq!(hash, None);
        }
        other => panic!("expected found-block event, got {:?}", other),
    }
}

#[test]
fn error_line_carries_trimmed_message() {
    let ev = parse_event("  ERROR: connection refused  ");
    match ev {
        Some(MinerEvent::Error { message }) => {
            assert_eq!(message, "ERROR: connection refused");
        }
        other => panic!("expected error event, got {:?}", other),
    }
}

#[test]
fn failed_line_is_an_error_event() {
    let ev = parse_event("import failed after 3 attempts");
    assert!(matches!(ev, Some(MinerEvent::Error { .. })));
}

#[test]
fn connectivity_beats_error_wording() {
    // First matching rule wins: the connectivity rule sits above the
    // error rule.
    let ev = parse_event("connected to pool after earlier error");
    assert!(matches!(ev, Some(MinerEvent::Connected)));
}

#[test]
fn hashrate_overflow_yields_no_event() {
    let ev = parse_event("hashrate: 99999999999999999999999 h/s");
    assert!(ev.is_none(), "got {:?}", ev);
}

#[test]
fn parse_hashrate_prefers_keyword_pattern() {
    // Both patterns occur; the keyword pattern's capture wins.
    let d = parse_hashrate("H/s=7 but hashrate: 9 h/s").unwrap();
    assert_eq!(d, Decimal { mantissa: 9, scale: 0 });
}

#[test]
fn parse_decimal_shapes() {
    assert_eq!(parse_decimal("42.5"), Some(Decimal { mantissa: 425, scale: 1 }));
    assert_eq!(parse_decimal("1234"), Some(Decimal { mantissa: 1234, scale: 0 }));
    assert_eq!(parse_decimal(".5"), Some(Decimal { mantissa: 5, scale: 1 }));
    assert_eq!(parse_decimal("42."), Some(Decimal { mantissa: 42, scale: 0 }));
    assert_eq!(parse_decimal("."), None);
    assert_eq!(parse_decimal(""), None);
    assert_eq!(parse_decimal("1.2.3"), None);
    assert_eq!(parse_decimal("12a"), None);
}

#[test]
fn capture_height_variants() {
    assert_eq!(capture_height("block height=500 sealed"), Some(500));
    assert_eq!(capture_height("height: 42"), Some(42));
    assert_eq!(capture_height("height 9001 reached"), Some(9001));
    assert_eq!(capture_height("height without digits"), None);
    assert_eq!(capture_height("no keyword 55"), None);
    // A value past u64 does not wrap, it is simply not captured.
    assert_eq!(capture_height("height: 99999999999999999999999"), None);
}

#[test]
fn capture_hash_variants() {
    assert_eq!(capture_hash("hash: 0xDEADbeef").as_deref(), Some("0xDEADbeef"));
    assert_eq!(capture_hash("block 500").as_deref(), Some("500"));
    assert_eq!(capture_hash("hash pending").as_deref(), None);
    assert_eq!(capture_hash("nothing here").as_deref(), None);
}
