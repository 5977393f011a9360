use onebox_lifecycle::common::channel;
use onebox_lifecycle::common::shutdown::{report_shutdown, resolve, ShutdownDecision, ShutdownHandle};
use onebox_lifecycle::common::sleep::{PowerTransition, SleepHandle};
use onebox_lifecycle::{SleepMonitorLevel, SystemEvent};
use std::time::{Duration, Instant};

const LONG: Duration = Duration::from_secs(3600);

#[test]
fn allow_ends_the_wait() {
    let (handle, mut pending) = ShutdownHandle::with_timeout(LONG);
    handle.allow();
    assert_eq!(pending.wait(), ShutdownDecision::Allow);
}

#[test]
fn dropping_the_handle_ends_the_wait() {
    let (handle, mut pending) = ShutdownHandle::with_timeout(LONG);
    drop(handle);
    assert_eq!(pending.wait(), ShutdownDecision::Allow);
}

#[test]
fn time_ends_the_wait() {
    let (handle, mut pending) = ShutdownHandle::with_timeout(Duration::from_millis(300));
    let start = Instant::now();
    assert_eq!(pending.wait(), ShutdownDecision::Allow);
    assert!(start.elapsed() >= Duration::from_millis(300));
    handle.allow();
}

#[test]
fn missing_answer_allows() {
    assert_eq!(resolve(None), ShutdownDecision::Allow);
    assert_eq!(resolve(Some(ShutdownDecision::Allow)), ShutdownDecision::Allow);
}

#[test]
fn oneshot_handle_sends_its_decision() {
    let (tx, mut rx) = tokio::sync::oneshot::channel();
    let handle = ShutdownHandle::from_oneshot(tx);
    assert!(rx.try_recv().is_err());
    handle.allow();
    assert_eq!(rx.try_recv(), Ok(ShutdownDecision::Allow));

    let (tx, mut rx) = tokio::sync::oneshot::channel();
    drop(ShutdownHandle::from_oneshot(tx));
    assert_eq!(rx.try_recv(), Ok(ShutdownDecision::Allow));

    let (tx, rx) = tokio::sync::oneshot::channel();
    drop(rx);
    ShutdownHandle::from_oneshot(tx).allow();
}

#[test]
fn reported_shutdown_waits_for_its_handle() {
    let (mut tx, mut rx) = channel();
    let mut pending = report_shutdown(&mut tx, LONG);
    match rx.recv() {
        Some(SystemEvent::ShuttingDown(handle)) => handle.allow(),
        _ => panic!("no shutdown reported"),
    }
    assert_eq!(pending.wait(), ShutdownDecision::Allow);
    assert!(rx.try_recv().is_none());
}

#[test]
fn event_that_nobody_takes_does_not_hold_up_shutdown() {
    let (mut tx, rx) = channel();
    let mut queued = report_shutdown(&mut tx, LONG);
    drop(rx);
    assert_eq!(queued.wait(), ShutdownDecision::Allow);
    let mut unheard = report_shutdown(&mut tx, LONG);
    assert_eq!(unheard.wait(), ShutdownDecision::Allow);
}

#[test]
fn refused_events_hold_up_nothing() {
    let (mut tx, rx) = channel();
    drop(rx);
    let (handle, mut pending) = ShutdownHandle::with_timeout(LONG);
    tx.send(SystemEvent::ShuttingDown(handle));
    assert_eq!(pending.wait(), ShutdownDecision::Allow);
    let (handle, mut pending) = SleepHandle::with_timeout(LONG);
    tx.send(SystemEvent::WillHibernate(handle));
    assert_eq!(pending.wait(), ShutdownDecision::Allow);
}

#[test]
fn sleep_handle_ends_the_wait() {
    let (handle, mut pending) = SleepHandle::with_timeout(LONG);
    handle.allow();
    assert_eq!(pending.wait(), ShutdownDecision::Allow);
    let (handle, mut pending) = SleepHandle::with_timeout(LONG);
    drop(handle);
    assert_eq!(pending.wait(), ShutdownDecision::Allow);
}

#[test]
fn handles_decide_once_and_then_hang_up() {
    for drop_it in [false, true] {
        let (handle, mut pending) = ShutdownHandle::with_timeout(LONG);
        if drop_it {
            drop(handle);
        } else {
            handle.allow();
        }
        assert_eq!(pending.wait(), ShutdownDecision::Allow);
        // With the channel gone, no second wait lasts.
        assert_eq!(pending.wait(), ShutdownDecision::Allow);

        let (handle, mut pending) = SleepHandle::with_timeout(LONG);
        if drop_it {
            drop(handle);
        } else {
            handle.allow();
        }
        assert_eq!(pending.wait(), ShutdownDecision::Allow);
        assert_eq!(pending.wait(), ShutdownDecision::Allow);
    }
}

#[test]
fn deep_level_waits_three_seconds() {
    let SleepMonitorLevel::Deep { timeout } = SleepMonitorLevel::deep() else {
        panic!("not deep")
    };
    assert_eq!(timeout, Duration::from_secs(3));
    assert!(matches!(SleepMonitorLevel::default(), SleepMonitorLevel::Standard));
    assert!(matches!(SleepMonitorLevel::deep().clone(), SleepMonitorLevel::Deep { timeout: t } if t == timeout));
}

#[test]
fn standard_level_reports_without_waiting() {
    let (mut tx, mut rx) = channel();
    let level = SleepMonitorLevel::Standard;
    assert!(level.report(PowerTransition::ToSleep, &mut tx).is_none());
    assert!(level.report(PowerTransition::PoweredOn, &mut tx).is_none());
    assert!(matches!(rx.try_recv(), Some(SystemEvent::WillSleep)));
    assert!(matches!(rx.try_recv(), Some(SystemEvent::DidWake)));
    assert!(rx.try_recv().is_none());
}

#[test]
fn deep_level_waits_for_the_application() {
    let (mut tx, mut rx) = channel();
    let level = SleepMonitorLevel::Deep { timeout: LONG };
    let Some(mut pending) = level.report(PowerTransition::ToSleep, &mut tx) else {
        panic!("nothing to wait for")
    };
    match rx.recv() {
        Some(SystemEvent::WillHibernate(handle)) => handle.allow(),
        _ => panic!("no hibernation reported"),
    }
    assert_eq!(pending.wait(), ShutdownDecision::Allow);
    assert!(level.report(PowerTransition::PoweredOn, &mut tx).is_none());
    assert!(matches!(rx.try_recv(), Some(SystemEvent::DidWake)));
    assert!(rx.try_recv().is_none());
}
