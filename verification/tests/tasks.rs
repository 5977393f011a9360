use onebox_lifecycle::common::shutdown::{ShutdownDecision, ShutdownHandle};
use onebox_lifecycle::common::tokio_support::{
    channel, AsyncEventReceiver, Attempt, Delivery, Polled,
};
use onebox_lifecycle::SystemEvent;
use std::future::poll_fn;
use std::task::Poll;
use std::time::Duration;

fn runtime() -> tokio::runtime::Runtime {
    match tokio::runtime::Builder::new_current_thread().build() {
        Ok(runtime) => runtime,
        Err(e) => panic!("{}", e),
    }
}

fn next(rt: &tokio::runtime::Runtime, rx: &mut AsyncEventReceiver) -> Option<SystemEvent> {
    rt.block_on(poll_fn(|cx| match rx.poll_recv(cx) {
        Polled::Ready(event) => Poll::Ready(event),
        Polled::Pending => Poll::Pending,
    }))
}

#[test]
fn outside_a_runtime_events_are_sent_at_once_or_lost() {
    let (mut tx, mut rx) = channel(2);
    assert!(matches!(tx.send(SystemEvent::WillSleep), Delivery::Attempted(Attempt::Sent)));
    assert!(matches!(tx.send(SystemEvent::DidWake), Delivery::Attempted(Attempt::Sent)));
    assert!(matches!(tx.send(SystemEvent::NetworkUp), Delivery::Attempted(Attempt::Full)));
    let rt = runtime();
    assert!(matches!(next(&rt, &mut rx), Some(SystemEvent::WillSleep)));
    assert!(matches!(tx.send(SystemEvent::NetworkDown), Delivery::Attempted(Attempt::Sent)));
    assert!(matches!(next(&rt, &mut rx), Some(SystemEvent::DidWake)));
    assert!(matches!(next(&rt, &mut rx), Some(SystemEvent::NetworkDown)));
    drop(tx);
    assert!(next(&rt, &mut rx).is_none());
}

#[test]
fn event_is_kept_while_there_is_room() {
    let (mut tx, mut rx) = channel(1);
    let _ = tx.send(SystemEvent::NetworkUp);
    let _ = tx.send(SystemEvent::NetworkDown);
    drop(tx);
    let rt = runtime();
    assert!(matches!(next(&rt, &mut rx), Some(SystemEvent::NetworkUp)));
    assert!(next(&rt, &mut rx).is_none());
}

#[test]
fn events_for_a_receiver_that_is_gone_are_lost() {
    let (mut tx, rx) = channel(1);
    drop(rx);
    assert!(matches!(tx.send(SystemEvent::WillSleep), Delivery::Attempted(Attempt::Closed)));
}

#[test]
fn lost_events_hold_up_nothing() {
    let long = Duration::from_secs(3600);
    let (mut tx, rx) = channel(1);
    let _ = tx.send(SystemEvent::DidWake);
    let (handle, mut pending) = ShutdownHandle::with_timeout(long);
    assert!(matches!(
        tx.send(SystemEvent::ShuttingDown(handle)),
        Delivery::Attempted(Attempt::Full)
    ));
    assert_eq!(pending.wait(), ShutdownDecision::Allow);
    drop(rx);
    let (handle, mut pending) = ShutdownHandle::with_timeout(long);
    assert!(matches!(
        tx.send(SystemEvent::ShuttingDown(handle)),
        Delivery::Attempted(Attempt::Closed)
    ));
    assert_eq!(pending.wait(), ShutdownDecision::Allow);
}

#[test]
fn inside_a_runtime_a_task_sends_the_event() {
    let rt = runtime();
    let (mut tx, mut rx) = channel(1);
    let delivery = {
        let _guard = rt.enter();
        tx.send(SystemEvent::NetworkUp)
    };
    let Delivery::Spawn(waiting) = delivery else { panic!("nothing to spawn") };
    let (handle, sender, event) = waiting.into_parts();
    assert!(handle.block_on(sender.send(event)).is_ok());
    assert!(matches!(next(&rt, &mut rx), Some(SystemEvent::NetworkUp)));
    drop(tx);
    drop(sender);
    assert!(next(&rt, &mut rx).is_none());
}

#[test]
fn the_runtime_decides_how_an_event_is_sent() {
    let rt = runtime();
    let (mut tx, mut rx) = channel(4);
    assert!(matches!(
        tx.send_on(Some(rt.handle().clone()), SystemEvent::WillSleep),
        Delivery::Spawn(_)
    ));
    assert!(matches!(
        tx.send_on(None, SystemEvent::DidWake),
        Delivery::Attempted(Attempt::Sent)
    ));
    assert!(matches!(next(&rt, &mut rx), Some(SystemEvent::DidWake)));
}

#[test]
fn receiver_is_pending_while_nothing_is_there() {
    let rt = runtime();
    let (tx, mut rx) = channel(1);
    let pending = rt.block_on(poll_fn(|cx| {
        Poll::Ready(matches!(rx.poll_recv(cx), Polled::Pending))
    }));
    assert!(pending);
    drop(tx);
}

#[test]
fn pending_receiver_wakes_its_task() {
    let rt = runtime();
    let (mut tx, mut rx) = channel(1);
    let mut polls = 0;
    let event = rt.block_on(poll_fn(|cx| {
        polls += 1;
        match rx.poll_recv(cx) {
            Polled::Ready(event) => Poll::Ready(event),
            Polled::Pending => {
                let _ = tx.send_on(None, SystemEvent::DidWake);
                Poll::Pending
            }
        }
    }));
    assert!(matches!(event, Some(SystemEvent::DidWake)));
    assert_eq!(polls, 2);
}
