use onebox_lifecycle::common::{channel, EventReceiver};
use onebox_lifecycle::windows::message_loop::{Action, MessageLoop, Outcome};
use onebox_lifecycle::windows::network::WM_SENTINEL_NETWORK_CHANGE;
use onebox_lifecycle::windows::shutdown::{begin_query, handle_query};
use onebox_lifecycle::windows::{
    handle_power, Reply, Window, WindowState, LRESULT, WM_DESTROY, WM_NCCREATE, WM_POWERBROADCAST,
    WM_QUERYENDSESSION, WPARAM,
};
use onebox_lifecycle::{Features, SystemEvent};
use std::time::{Duration, Instant};

fn window(features: Features) -> (Window, EventReceiver) {
    let (tx, rx) = channel();
    (Window::new(features, tx), rx)
}

#[test]
fn power_broadcasts_are_reported() {
    let (tx, mut rx) = channel();
    let mut state = WindowState::new(tx);
    assert_eq!(handle_power(WPARAM(4), &mut state), LRESULT(1));
    assert_eq!(handle_power(WPARAM(7), &mut state), LRESULT(1));
    assert_eq!(handle_power(WPARAM(10), &mut state), LRESULT(1));
    assert!(matches!(rx.try_recv(), Some(SystemEvent::WillSleep)));
    assert!(matches!(rx.try_recv(), Some(SystemEvent::DidWake)));
    assert!(rx.try_recv().is_none());
}

#[test]
fn only_the_low_half_of_a_power_code_counts() {
    let (tx, mut rx) = channel();
    let mut state = WindowState::new(tx);
    let high = if usize::BITS > 32 { 0xffff_usize.rotate_right(16) } else { 0 };
    assert_eq!(handle_power(WPARAM(high + 4), &mut state), LRESULT(1));
    assert!(matches!(rx.try_recv(), Some(SystemEvent::WillSleep)));
}

#[test]
fn unanswered_query_allows_after_two_seconds() {
    let (tx, mut rx) = channel();
    let mut state = WindowState::new(tx);
    let start = Instant::now();
    assert_eq!(handle_query(&mut state), LRESULT(1));
    let waited = start.elapsed();
    assert!(waited >= Duration::from_secs(2) && waited < Duration::from_secs(10));
    assert!(matches!(rx.try_recv(), Some(SystemEvent::ShuttingDown(_))));
    assert!(rx.try_recv().is_none());
}

#[test]
fn answered_query_does_not_wait() {
    let (tx, mut rx) = channel();
    let mut state = WindowState::new(tx);
    let start = Instant::now();
    let mut pending = begin_query(&mut state);
    match rx.recv() {
        Some(SystemEvent::ShuttingDown(handle)) => handle.allow(),
        _ => panic!("no shutdown reported"),
    }
    pending.wait();
    assert!(start.elapsed() < Duration::from_millis(1500));
}

#[test]
fn window_acts_only_between_creation_and_destruction() {
    let (mut window, mut rx) = window(Features::all());
    assert_eq!(window.wndproc(WM_POWERBROADCAST, WPARAM(4)), Reply::Default);
    assert!(rx.try_recv().is_none());

    assert_eq!(window.wndproc(WM_NCCREATE, WPARAM(0)), Reply::Default);
    assert_eq!(window.wndproc(WM_POWERBROADCAST, WPARAM(4)), Reply::Handled(LRESULT(1)));
    assert_eq!(window.wndproc(WM_SENTINEL_NETWORK_CHANGE, WPARAM(1)), Reply::Handled(LRESULT(0)));
    assert_eq!(window.wndproc(0x0400, WPARAM(1)), Reply::Default);

    assert_eq!(window.wndproc(WM_DESTROY, WPARAM(0)), Reply::Handled(LRESULT(0)));
    assert_eq!(window.wndproc(WM_POWERBROADCAST, WPARAM(7)), Reply::Default);
    assert_eq!(window.wndproc(WM_NCCREATE, WPARAM(0)), Reply::Default);
    assert_eq!(window.wndproc(WM_POWERBROADCAST, WPARAM(7)), Reply::Default);
    assert_eq!(window.wndproc(WM_DESTROY, WPARAM(0)), Reply::Handled(LRESULT(0)));
    window.release();

    assert!(matches!(rx.recv(), Some(SystemEvent::WillSleep)));
    assert!(matches!(rx.recv(), Some(SystemEvent::NetworkUp)));
    assert!(rx.recv().is_none());
}

#[test]
fn release_ends_a_window_that_was_not_destroyed() {
    let (mut window, mut rx) = window(Features::all());
    window.wndproc(WM_NCCREATE, WPARAM(0));
    window.release();
    window.release();
    assert!(rx.recv().is_none());
    assert_eq!(window.wndproc(WM_POWERBROADCAST, WPARAM(4)), Reply::Default);
}

#[test]
fn unused_parts_are_left_to_the_system() {
    let none = Features { shutdown: false, sleep: false, network: false };
    let (mut window, mut rx) = window(none);
    window.wndproc(WM_NCCREATE, WPARAM(0));
    assert_eq!(window.wndproc(WM_QUERYENDSESSION, WPARAM(0)), Reply::Default);
    assert_eq!(window.wndproc(WM_POWERBROADCAST, WPARAM(4)), Reply::Default);
    assert_eq!(window.wndproc(WM_SENTINEL_NETWORK_CHANGE, WPARAM(1)), Reply::Default);
    assert!(rx.try_recv().is_none());
}

#[test]
fn query_goes_through_the_window() {
    let only_shutdown = Features { shutdown: true, sleep: false, network: false };
    let (mut window, rx) = window(only_shutdown);
    window.wndproc(WM_NCCREATE, WPARAM(0));
    drop(rx);
    assert_eq!(window.wndproc(WM_QUERYENDSESSION, WPARAM(0)), Reply::Handled(LRESULT(1)));
}

#[test]
fn query_through_the_window_waits_for_the_application() {
    let (mut window, rx) = window(Features::all());
    window.wndproc(WM_NCCREATE, WPARAM(0));
    let start = Instant::now();
    assert_eq!(window.wndproc(WM_QUERYENDSESSION, WPARAM(0)), Reply::Handled(LRESULT(1)));
    assert!(start.elapsed() >= Duration::from_secs(2));
    drop(rx);
}

#[test]
fn window_gives_a_reason_for_holding_up_the_session() {
    let (mut window, _rx) = window(Features::all());
    assert!(window.block_reason(WM_QUERYENDSESSION).is_none());
    window.wndproc(WM_NCCREATE, WPARAM(0));
    assert_eq!(
        window.block_reason(WM_QUERYENDSESSION),
        Some("Waiting for the application to finish its work")
    );
    assert!(window.block_reason(WM_POWERBROADCAST).is_none());
    window.wndproc(WM_DESTROY, WPARAM(0));
    assert!(window.block_reason(WM_QUERYENDSESSION).is_none());
}

#[test]
fn window_without_shutdown_holds_up_nothing() {
    let (mut window, _rx) = window(Features { shutdown: false, sleep: true, network: true });
    window.wndproc(WM_NCCREATE, WPARAM(0));
    assert!(window.block_reason(WM_QUERYENDSESSION).is_none());
}

#[test]
fn message_loop_sets_up_pumps_and_cleans_up() {
    let mut thread = MessageLoop::new(Features::all());
    assert_eq!(thread.action(), Action::RegisterClass);
    thread.advance(Outcome::Done);
    assert_eq!(thread.action(), Action::RegisterClass);
    thread.advance(Outcome::Registered(17));
    assert_eq!(thread.action(), Action::CreateWindow);
    thread.advance(Outcome::Created(true));
    assert_eq!(thread.action(), Action::SetShutdownLevel(0x3FF));
    thread.advance(Outcome::Done);
    assert_eq!(thread.action(), Action::SetUpNetwork);
    thread.advance(Outcome::NetworkSetUp(Some(5)));
    assert_eq!(thread.action(), Action::GetMessage);
    thread.advance(Outcome::Message(1));
    assert_eq!(thread.action(), Action::DispatchMessage);
    thread.advance(Outcome::Done);
    assert_eq!(thread.action(), Action::GetMessage);
    thread.advance(Outcome::Message(0));
    assert_eq!(thread.action(), Action::CancelNetwork(5));
    thread.advance(Outcome::Done);
    assert_eq!(thread.action(), Action::ReleaseWindow);
    thread.advance(Outcome::Done);
    assert_eq!(thread.action(), Action::UnregisterClass);
    thread.advance(Outcome::Done);
    assert_eq!(thread.action(), Action::Finish);
    thread.advance(Outcome::Done);
    assert_eq!(thread.action(), Action::Finish);
}

#[test]
fn message_loop_without_network_has_nothing_to_cancel() {
    for (features, handle) in [
        (Features::all(), true),
        (Features { shutdown: false, sleep: true, network: false }, false),
    ] {
        let mut thread = MessageLoop::new(features);
        thread.advance(Outcome::Registered(1));
        thread.advance(Outcome::Created(true));
        if handle {
            thread.advance(Outcome::Done);
            thread.advance(Outcome::NetworkSetUp(None));
        }
        assert_eq!(thread.action(), Action::GetMessage);
        thread.advance(Outcome::Message(-1));
        assert_eq!(thread.action(), Action::ReleaseWindow);
    }
}

#[test]
fn message_loop_fails_without_class_or_window() {
    let mut thread = MessageLoop::new(Features::all());
    thread.advance(Outcome::Registered(0));
    assert_eq!(thread.action(), Action::Fail);
    let mut thread = MessageLoop::new(Features::all());
    thread.advance(Outcome::Registered(1));
    thread.advance(Outcome::Created(false));
    assert_eq!(thread.action(), Action::Fail);
}

#[test]
fn teardown_none_is_noop() {
    let mut thread = MessageLoop::new(Features { shutdown: false, sleep: false, network: true });
    thread.advance(Outcome::Registered(1));
    thread.advance(Outcome::Created(true));
    assert_eq!(thread.action(), Action::SetUpNetwork);
    thread.advance(Outcome::NetworkSetUp(None));
    thread.advance(Outcome::Message(0));
    assert_eq!(thread.action(), Action::ReleaseWindow);
}
