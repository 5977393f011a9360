use onebox_lifecycle::common::{channel, EventReceiver};
use onebox_lifecycle::windows::network::{
    handle_change, net_change_message, setup_result, WM_SENTINEL_NETWORK_CHANGE,
};
use onebox_lifecycle::windows::{WindowState, LRESULT, WPARAM};
use onebox_lifecycle::SystemEvent;

fn make_state() -> (WindowState, EventReceiver) {
    let (tx, rx) = channel();
    (WindowState::new(tx), rx)
}

#[test]
fn first_up_event_emits_network_up() {
    let (mut state, mut rx) = make_state();
    let ret = handle_change(WPARAM(1), &mut state);
    assert_eq!(ret, LRESULT(0));
    assert!(matches!(rx.try_recv(), Some(SystemEvent::NetworkUp)));
}

#[test]
fn first_down_event_emits_network_down() {
    let (mut state, mut rx) = make_state();
    let ret = handle_change(WPARAM(0), &mut state);
    assert_eq!(ret, LRESULT(0));
    assert!(matches!(rx.try_recv(), Some(SystemEvent::NetworkDown)));
}

#[test]
fn duplicate_up_events_are_suppressed() {
    let (mut state, mut rx) = make_state();
    handle_change(WPARAM(1), &mut state);
    let _ = rx.try_recv(); // drain first event

    // Second identical event: should be suppressed.
    handle_change(WPARAM(1), &mut state);
    assert!(rx.try_recv().is_none(), "Duplicate NetworkUp should not be emitted");
}

#[test]
fn duplicate_down_events_are_suppressed() {
    let (mut state, mut rx) = make_state();
    handle_change(WPARAM(0), &mut state);
    let _ = rx.try_recv();

    handle_change(WPARAM(0), &mut state);
    assert!(rx.try_recv().is_none(), "Duplicate NetworkDown should not be emitted");
}

#[test]
fn toggle_up_down_emits_both() {
    let (mut state, mut rx) = make_state();

    handle_change(WPARAM(1), &mut state); // up
    handle_change(WPARAM(0), &mut state); // down
    handle_change(WPARAM(1), &mut state); // up again

    assert!(matches!(rx.try_recv(), Some(SystemEvent::NetworkUp)));
    assert!(matches!(rx.try_recv(), Some(SystemEvent::NetworkDown)));
    assert!(matches!(rx.try_recv(), Some(SystemEvent::NetworkUp)));
    assert!(rx.try_recv().is_none());
}

#[test]
fn any_parameter_but_zero_means_up() {
    let (mut state, mut rx) = make_state();
    handle_change(WPARAM(usize::MAX), &mut state);
    handle_change(WPARAM(2), &mut state);
    handle_change(WPARAM(0), &mut state);
    assert!(matches!(rx.try_recv(), Some(SystemEvent::NetworkUp)));
    assert!(matches!(rx.try_recv(), Some(SystemEvent::NetworkDown)));
    assert!(rx.try_recv().is_none());
}

#[test]
fn levels_with_internet_access_count_as_up() {
    assert_eq!(WM_SENTINEL_NETWORK_CHANGE, 0x8002);
    for level in [-1, 0, 1, 2, 5, 6] {
        assert_eq!(net_change_message(level), (0x8002, WPARAM(0)));
    }
    assert_eq!(net_change_message(3), (0x8002, WPARAM(1)));
    assert_eq!(net_change_message(4), (0x8002, WPARAM(1)));
}

#[test]
fn network_is_monitored_only_if_registering_succeeds() {
    assert_eq!(
        setup_result(true, Some(17)),
        (
            Some(17),
            "onebox_lifecycle: network connectivity monitoring active (NotifyNetworkConnectivityHintChange)".to_string()
        )
    );
    assert_eq!(
        setup_result(true, None),
        (
            None,
            "onebox_lifecycle: NotifyNetworkConnectivityHintChange failed — network monitoring disabled".to_string()
        )
    );
    for registered in [None, Some(17)] {
        assert_eq!(
            setup_result(false, registered),
            (
                None,
                "onebox_lifecycle: NotifyNetworkConnectivityHintChange unavailable (requires Windows 10 2004+) — network monitoring disabled".to_string()
            )
        );
    }
}
