use pzem016lib::consts::{
    DEFAULT_BACKOFF_BASE_MS, DEFAULT_NETWORK_TIMEOUT_MS, MAX_RETRIES, READ_TIMEOUT_MS,
};
use pzem016lib::retry::retry_delays;

#[test]
fn policy_constants() {
    assert_eq!(DEFAULT_BACKOFF_BASE_MS, 100);
    assert_eq!(MAX_RETRIES, 1);
    assert_eq!(READ_TIMEOUT_MS, 500);
    assert_eq!(DEFAULT_NETWORK_TIMEOUT_MS, 10000);
}

#[test]
fn one_delay_per_retry() {
    assert_eq!(retry_delays(100, 0).len(), 0);
    assert_eq!(retry_delays(100, 1).len(), 1);
    assert_eq!(retry_delays(100, 5).len(), 5);
}

#[test]
fn delays_stay_under_the_backoff() {
    for _ in 0..200 {
        let delays = retry_delays(10, 3);
        assert!(delays[0] <= 10);
        assert!(delays[1] <= 100);
        assert!(delays[2] <= 1000);
    }
}

#[test]
fn zero_base_never_waits() {
    assert_eq!(retry_delays(0, 3), vec![0, 0, 0]);
}

#[test]
fn jitter_shortens_the_delay() {
    let shortened = (0..50).any(|_| retry_delays(1000, 1)[0] < 1000);
    assert!(shortened);
}

#[test]
fn later_delays_grow_with_the_power_of_the_base() {
    let grew = (0..200).any(|_| retry_delays(10, 3)[2] > 100);
    assert!(grew);
    let grew = (0..200).any(|_| retry_delays(10, 2)[1] > 10);
    assert!(grew);
}

#[test]
fn largest_base_gives_a_delay_for_every_retry() {
    assert_eq!(retry_delays(u64::MAX, 3).len(), 3);
}
