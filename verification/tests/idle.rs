use qtunnel::{IdleTimeout, PollDecision, DEFAULT_IDLE_TIMEOUT_MS, DEFAULT_VISITED_GAP_MS};

#[test]
fn deadline_starts_one_idle_duration_out() {
    let it = IdleTimeout::new(1_000, DEFAULT_IDLE_TIMEOUT_MS);
    assert_eq!(it.last_visited_ms, 1_000);
    assert_eq!(it.deadline_ms, 301_000);
}

#[test]
fn inner_completion_wins_over_the_deadline() {
    let mut it = IdleTimeout::new(1_000, DEFAULT_IDLE_TIMEOUT_MS);
    assert_eq!(it.poll_step(true, true, 400_000), PollDecision::ReturnInner);
}

#[test]
fn elapsed_deadline_times_out_a_pending_inner() {
    let mut it = IdleTimeout::new(1_000, DEFAULT_IDLE_TIMEOUT_MS);
    assert_eq!(it.poll_step(false, true, 301_001), PollDecision::ReturnTimedOut);
}

#[test]
fn quick_polls_do_not_refresh() {
    let mut it = IdleTimeout::new(1_000, DEFAULT_IDLE_TIMEOUT_MS);
    let d = it.poll_step(false, false, 1_000 + DEFAULT_VISITED_GAP_MS - 1);
    assert_eq!(d, PollDecision::KeepPending { refreshed: false });
    assert_eq!(it.deadline_ms, 301_000);
    assert_eq!(it.last_visited_ms, 1_000);
}

#[test]
fn a_poll_after_the_gap_refreshes() {
    let mut it = IdleTimeout::new(1_000, DEFAULT_IDLE_TIMEOUT_MS);
    let d = it.poll_step(false, false, 1_000 + DEFAULT_VISITED_GAP_MS);
    assert_eq!(d, PollDecision::KeepPending { refreshed: true });
    assert_eq!(it.last_visited_ms, 4_000);
    assert_eq!(it.deadline_ms, 304_000);
}

#[test]
fn refreshes_coalesce_to_one_per_gap() {
    // A hot stream polls every second; the deadline moves only every 3 s.
    let mut it = IdleTimeout::new(0, DEFAULT_IDLE_TIMEOUT_MS);
    let mut refreshes = Vec::new();
    for t in 1..=9u64 {
        let now = t * 1_000;
        if let PollDecision::KeepPending { refreshed: true } = it.poll_step(false, false, now) {
            refreshes.push(now);
        }
    }
    assert_eq!(refreshes, vec![3_000, 6_000, 9_000]);
    assert_eq!(it.deadline_ms, 9_000 + DEFAULT_IDLE_TIMEOUT_MS);
}
