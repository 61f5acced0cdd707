use nemo_management::freshness::{check_policy_freshness, policy_issued_ts_high_water};
use nemo_management::text::decimal_text;

// Anti-replay / anti-rollback freshness gate.
#[test]
fn policy_freshness_rejects_replay_and_rollback() {
    let now = 1_000_000u64;
    // Fresh, advancing: accepted.
    assert!(check_policy_freshness(now, 0, now).is_ok());
    assert!(check_policy_freshness(now, now - 100, now).is_ok());
    // Equal to high-water but still fresh (same-second re-issue): accepted.
    assert!(check_policy_freshness(now - 10, now - 10, now).is_ok());
    // Older than the high-water mark (rollback to an earlier policy): refused.
    assert!(check_policy_freshness(now - 100, now - 10, now).is_err());
    // Fixed stale blob equal to high-water but aged past the window: refused.
    assert!(check_policy_freshness(now - 601, now - 601, now).is_err());
    // Absurd future timestamp: refused.
    assert!(check_policy_freshness(now + 601, 0, now).is_err());
    // issued_ts == 0 (older server, no stamp): accepted for backward compat.
    assert!(check_policy_freshness(0, now, now).is_ok());
}

#[test]
fn freshness_window_is_inclusive() {
    let now = 1_000_000u64;
    assert!(check_policy_freshness(now - 600, 0, now).is_ok());
    assert!(check_policy_freshness(now + 600, 0, now).is_ok());
    assert!(check_policy_freshness(u64::MAX, u64::MAX, u64::MAX).is_ok());
    assert!(check_policy_freshness(u64::MAX, 0, 0).is_err());
    assert!(check_policy_freshness(1, 0, u64::MAX).is_err());
}

#[test]
fn freshness_refusals_say_why() {
    assert_eq!(
        check_policy_freshness(5, 7, 7),
        Err("policy issued_ts 5 is older than last-applied 7 (rollback/replay refused)".to_owned())
    );
    assert_eq!(
        check_policy_freshness(1_000, 1_000, 1_601),
        Err("policy issued_ts 1000 is stale (> 600s old; replay refused)".to_owned())
    );
    assert_eq!(
        check_policy_freshness(1_601, 0, 1_000),
        Err("policy issued_ts 1601 is too far in the future (> 600s; refused)".to_owned())
    );
    // The stamp is both old and far in the past: the older-than test speaks first.
    assert_eq!(
        check_policy_freshness(10, 2_000, 5_000),
        Err("policy issued_ts 10 is older than last-applied 2000 (rollback/replay refused)".to_owned())
    );
}

#[test]
fn high_water_is_read_from_text() {
    assert_eq!(policy_issued_ts_high_water("1700000000"), 1_700_000_000);
    assert_eq!(policy_issued_ts_high_water(" \t42\n"), 42);
    assert_eq!(policy_issued_ts_high_water("+42"), 42);
    assert_eq!(policy_issued_ts_high_water("007"), 7);
    assert_eq!(policy_issued_ts_high_water("\u{3000}9\u{a0}"), 9);
    assert_eq!(policy_issued_ts_high_water("18446744073709551615"), u64::MAX);
    assert_eq!(policy_issued_ts_high_water("18446744073709551616"), 0);
    assert_eq!(policy_issued_ts_high_water("99999999999999999999"), 0);
    assert_eq!(policy_issued_ts_high_water(""), 0);
    assert_eq!(policy_issued_ts_high_water("+"), 0);
    assert_eq!(policy_issued_ts_high_water("-1"), 0);
    assert_eq!(policy_issued_ts_high_water("1 2"), 0);
    assert_eq!(policy_issued_ts_high_water("abc"), 0);
}

#[test]
fn stored_stamp_is_read_back() {
    for ts in [0u64, 1, 9, 10, 601, 1_700_000_000, u64::MAX] {
        assert_eq!(decimal_text(ts), format!("{}", ts));
        assert_eq!(policy_issued_ts_high_water(&decimal_text(ts)), ts);
    }
}
