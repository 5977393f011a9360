use onebox_lifecycle::common::channel;
use onebox_lifecycle::common::shutdown::ShutdownHandle;
use onebox_lifecycle::common::sleep::SleepHandle;
use onebox_lifecycle::{Backend, Features, Platform, Sentinel, SentinelConfig, SleepMonitorLevel, SystemEvent};
use std::time::Duration;

#[test]
fn events_come_out_in_order_and_then_end() {
    let (mut tx, mut rx) = channel();
    assert!(rx.try_recv().is_none());
    tx.send(SystemEvent::WillSleep);
    tx.send(SystemEvent::DidWake);
    tx.send(SystemEvent::NetworkDown);
    assert!(matches!(rx.recv(), Some(SystemEvent::WillSleep)));
    assert!(matches!(rx.try_recv(), Some(SystemEvent::DidWake)));
    tx.send(SystemEvent::NetworkUp);
    tx.close();
    assert!(matches!(rx.recv(), Some(SystemEvent::NetworkDown)));
    assert!(matches!(rx.recv(), Some(SystemEvent::NetworkUp)));
    assert!(rx.recv().is_none());
    assert!(rx.recv().is_none());
    assert!(rx.try_recv().is_none());
}

#[test]
fn sending_without_a_receiver_is_no_error() {
    let (mut tx, rx) = channel();
    drop(rx);
    tx.send(SystemEvent::WillSleep);
    tx.send(SystemEvent::WillSleep);
    tx.close();
}

#[test]
fn dropped_sender_ends_the_channel() {
    let (tx, mut rx) = channel();
    drop(tx);
    assert!(rx.recv().is_none());
}

#[test]
fn events_have_labels() {
    assert_eq!(SystemEvent::WillSleep.describe(), "WillSleep");
    assert_eq!(SystemEvent::DidWake.describe(), "DidWake");
    assert_eq!(SystemEvent::NetworkUp.describe(), "NetworkUp");
    assert_eq!(SystemEvent::NetworkDown.describe(), "NetworkDown");
    let (handle, _pending) = ShutdownHandle::with_timeout(Duration::from_secs(1));
    assert_eq!(SystemEvent::ShuttingDown(handle).describe(), "ShuttingDown(<handle>)");
    let (handle, _pending) = SleepHandle::with_timeout(Duration::from_secs(1));
    assert_eq!(SystemEvent::WillHibernate(handle).describe(), "SystemEvent(<unknown>)");
    assert_eq!(SystemEvent::WillPowerOff.describe(), "SystemEvent(<unknown>)");
}

#[test]
fn default_configuration_is_standard() {
    assert!(matches!(SentinelConfig::default().sleep_monitor_level, SleepMonitorLevel::Standard));
}

#[test]
fn sentinel_without_a_backend_ends_at_once() {
    let (mut sentinel, backend) = Sentinel::start(Platform::Other, Features::all());
    assert!(matches!(backend, Backend::Absent));
    assert!(sentinel.try_recv().is_none());
    assert!(sentinel.recv().is_none());
}

#[test]
fn sentinel_without_features_ends_at_once() {
    let none = Features { shutdown: false, sleep: false, network: false };
    for platform in [Platform::Windows, Platform::MacOs, Platform::Other] {
        let (mut sentinel, backend) = Sentinel::start(platform, none);
        assert!(matches!(backend, Backend::Absent));
        assert!(sentinel.recv().is_none());
    }
}

#[test]
fn sentinel_receives_what_its_backend_sends() {
    let only_sleep = Features { shutdown: false, sleep: true, network: false };
    let (mut sentinel, backend) = Sentinel::start(Platform::Windows, only_sleep);
    let Backend::Windows(mut tx) = backend else { panic!("no Windows backend") };
    tx.send(SystemEvent::WillSleep);
    tx.send(SystemEvent::DidWake);
    assert!(matches!(sentinel.recv(), Some(SystemEvent::WillSleep)));
    let mut rx = sentinel.into_receiver();
    assert!(matches!(rx.recv(), Some(SystemEvent::DidWake)));
    drop(tx);
    assert!(rx.recv().is_none());
}

#[test]
fn macos_backend_gets_the_configuration() {
    let config = SentinelConfig { sleep_monitor_level: SleepMonitorLevel::deep() };
    let (_sentinel, backend) = Sentinel::start_with_config(config, Platform::MacOs, Features::all());
    let Backend::MacOs(_tx, given) = backend else { panic!("no macOS backend") };
    assert!(matches!(
        given.sleep_monitor_level,
        SleepMonitorLevel::Deep { timeout } if timeout == Duration::from_secs(3)
    ));
    let (_sentinel, backend) = Sentinel::start(Platform::MacOs, Features::all());
    let Backend::MacOs(_tx, given) = backend else { panic!("no macOS backend") };
    assert!(matches!(given.sleep_monitor_level, SleepMonitorLevel::Standard));
}
