use flybin::expiry::{compute_expiry_date, retention_days};

#[test]
fn retention_endpoints() {
    assert_eq!(retention_days(0), 365);
    assert_eq!(retention_days(4096), 30);
}

#[test]
fn retention_samples() {
    assert_eq!(retention_days(1), 364);
    assert_eq!(retention_days(11), 362);
    assert_eq!(retention_days(2048), 71);
    assert_eq!(retention_days(4095), 30);
}

#[test]
fn retention_monotone_on_samples() {
    let mut prev = retention_days(0);
    for s in 1..=4096usize {
        let cur = retention_days(s);
        assert!(cur <= prev, "retention grew at size {}", s);
        prev = cur;
    }
}

#[test]
fn retention_negative_past_pivot() {
    assert_eq!(retention_days(8192), -305);
    assert_eq!(retention_days(131072), -9979955);
}

#[test]
fn expiry_timestamp() {
    assert_eq!(compute_expiry_date("", 0), 365 * 86400);
    assert_eq!(compute_expiry_date("hello world", 0), 362 * 86400);
    assert_eq!(compute_expiry_date("hello world", 1000), 362 * 86400 + 1000);
}
