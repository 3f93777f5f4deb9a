use qtunnel::server::{
    backend_action, dispatch_stream, BackendAction, BackendConnectOutcome, DispatchAction,
    StreamEvent,
};
use qtunnel::stream::ERROR_CODE_RESET;
use qtunnel::{bridge_action, BridgeAction, BridgeOutcome};

#[test]
fn round_robin_over_two_backends() {
    // The counter pre-increments: stream k goes to backend k mod len.
    let mut counter: usize = 0;
    let mut picked = Vec::new();
    for _ in 0..3 {
        let (next, action) = dispatch_stream(counter, 2, &StreamEvent::Incoming);
        counter = next;
        match action {
            DispatchAction::Bridge { backend } => picked.push(backend),
            _ => panic!("expected a bridge"),
        }
    }
    assert_eq!(counter, 3);
    assert_eq!(picked, vec![1, 0, 1]);
}

#[test]
fn single_backend_still_advances_counter() {
    let mut counter: usize = 0;
    for k in 1..=5usize {
        let (next, action) = dispatch_stream(counter, 1, &StreamEvent::Incoming);
        assert_eq!(next, k);
        assert_eq!(action, DispatchAction::Bridge { backend: 0 });
        counter = next;
    }
}

#[test]
fn counter_wraps_without_panicking() {
    let (next, action) = dispatch_stream(usize::MAX, 3, &StreamEvent::Incoming);
    assert_eq!(next, 0);
    assert_eq!(action, DispatchAction::Bridge { backend: 0 });
}

#[test]
fn orderly_close_stops_consumption() {
    let (next, action) = dispatch_stream(7, 2, &StreamEvent::AppClosed);
    assert_eq!(next, 7);
    assert_eq!(action, DispatchAction::StopApplicationClosed);
}

#[test]
fn connection_error_stops_consumption() {
    let (next, action) = dispatch_stream(7, 2, &StreamEvent::ConnError);
    assert_eq!(next, 7);
    assert_eq!(action, DispatchAction::StopError);
}

#[test]
fn backend_timeout_resets_with_code_100() {
    assert_eq!(
        backend_action(&BackendConnectOutcome::TimedOut),
        BackendAction::Reset { error_code: 100 }
    );
    assert_eq!(ERROR_CODE_RESET, 100);
}

#[test]
fn backend_error_drops_the_stream() {
    assert_eq!(backend_action(&BackendConnectOutcome::Failed), BackendAction::Drop);
}

#[test]
fn backend_success_bridges() {
    assert_eq!(backend_action(&BackendConnectOutcome::Connected), BackendAction::Bridge);
}

#[test]
fn clean_copy_finishes_without_reset() {
    assert_eq!(
        bridge_action(&BridgeOutcome::Done { to_remote: 10, to_local: 10 }),
        BridgeAction::Finish
    );
}

#[test]
fn copy_error_resets_with_code_100() {
    assert_eq!(bridge_action(&BridgeOutcome::Failed), BridgeAction::Reset { error_code: 100 });
}

#[test]
fn idle_timeout_resets_with_code_100() {
    assert_eq!(bridge_action(&BridgeOutcome::TimedOut), BridgeAction::Reset { error_code: 100 });
}
