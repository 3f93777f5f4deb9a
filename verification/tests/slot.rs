use qtunnel::connection::{backoff_delay_ms, OpenBiOutcome, SlotModel};
use qtunnel::TunnelError;

#[test]
fn fresh_slot_needs_a_connection() {
    let slot = SlotModel::new();
    assert!(slot.needs_connect());
    assert!(!slot.connecting);
}

#[test]
fn connect_fills_the_slot() {
    let mut slot = SlotModel::new();
    slot.begin_connect();
    assert!(slot.connecting);
    slot.finish_connect();
    assert!(!slot.connecting);
    assert!(!slot.needs_connect());
}

#[test]
fn successful_open_bi_keeps_the_cache() {
    let mut slot = SlotModel::new();
    slot.begin_connect();
    slot.finish_connect();
    assert_eq!(slot.record_open_bi(&OpenBiOutcome::Opened), Ok(()));
    assert!(!slot.needs_connect());
}

#[test]
fn failed_open_bi_clears_the_cache() {
    let mut slot = SlotModel::new();
    slot.begin_connect();
    slot.finish_connect();
    assert_eq!(slot.record_open_bi(&OpenBiOutcome::OpenFailed), Err(TunnelError::OpenBiFailed));
    assert!(slot.needs_connect());
}

#[test]
fn open_bi_deadline_clears_the_cache() {
    let mut slot = SlotModel::new();
    slot.begin_connect();
    slot.finish_connect();
    assert_eq!(slot.record_open_bi(&OpenBiOutcome::TimedOut), Err(TunnelError::OpenBiTimedOut));
    assert!(slot.needs_connect());
}

#[test]
fn server_restart_is_recovered_on_the_next_call() {
    // A handle whose server went away: the next open_bi fails, the slot is
    // cleared, and the caller after that reconnects.
    let mut slot = SlotModel::new();
    slot.begin_connect();
    slot.finish_connect();
    assert_eq!(slot.record_open_bi(&OpenBiOutcome::Opened), Ok(()));
    assert_eq!(slot.record_open_bi(&OpenBiOutcome::OpenFailed), Err(TunnelError::OpenBiFailed));
    assert!(slot.needs_connect());
    slot.begin_connect();
    slot.finish_connect();
    assert_eq!(slot.record_open_bi(&OpenBiOutcome::Opened), Ok(()));
}

#[test]
fn backoff_follows_the_schedule() {
    let expected = [50u64, 75, 100, 250, 500, 750, 1000];
    for (i, want) in expected.iter().enumerate() {
        assert_eq!(backoff_delay_ms(i as u64), *want);
    }
}

#[test]
fn backoff_is_capped_at_one_second() {
    for attempt in [7u64, 8, 100, 1_000_000, u64::MAX] {
        assert_eq!(backoff_delay_ms(attempt), 1000);
    }
}
