use onebox_lifecycle::common::channel;
use onebox_lifecycle::common::sleep::PowerTransition;
use onebox_lifecycle::macos::network::path_update;
use onebox_lifecycle::macos::plan;
use onebox_lifecycle::macos::shutdown::{
    application_should_terminate, forwarding_target_for_selector, forwards_open_urls,
    responds_to_selector, termination_proceeds, TerminateReply,
};
use onebox_lifecycle::macos::sleep::{
    awaits_consent, consents, observed_notifications, report_message, transition_of,
    PowerNotification,
};
use onebox_lifecycle::{Features, SentinelConfig, SleepMonitorLevel, SystemEvent};
use std::time::{Duration, Instant};

#[test]
fn path_updates_are_reported_once_per_change() {
    let (mut tx, mut rx) = channel();
    let mut last = None;
    for status in [2, 3, 1, 1, 0, 1] {
        path_update(status, &mut last, &mut tx);
    }
    assert_eq!(last, Some(true));
    assert!(matches!(rx.try_recv(), Some(SystemEvent::NetworkDown)));
    assert!(matches!(rx.try_recv(), Some(SystemEvent::NetworkUp)));
    assert!(matches!(rx.try_recv(), Some(SystemEvent::NetworkDown)));
    assert!(matches!(rx.try_recv(), Some(SystemEvent::NetworkUp)));
    assert!(rx.try_recv().is_none());
}

#[test]
fn termination_is_put_off_and_then_proceeds() {
    let (mut tx, mut rx) = channel();
    let (reply, mut pending) = application_should_terminate(&mut tx);
    assert_eq!(reply, TerminateReply::Later);
    match rx.recv() {
        Some(SystemEvent::ShuttingDown(handle)) => handle.allow(),
        _ => panic!("no shutdown reported"),
    }
    assert!(termination_proceeds(&mut pending));
}

#[test]
fn messages_go_on_to_the_previous_delegate() {
    assert!(!forwards_open_urls(0));
    assert!(forwards_open_urls(0x1000));
    assert_eq!(forwarding_target_for_selector(0, true), 0);
    assert_eq!(forwarding_target_for_selector(0x1000, false), 0);
    assert_eq!(forwarding_target_for_selector(0x1000, true), 0x1000);
    assert!(responds_to_selector(true, 0, false));
    assert!(responds_to_selector(false, 0x1000, true));
    assert!(!responds_to_selector(false, 0x1000, false));
    assert!(!responds_to_selector(false, 0, true));
}

#[test]
fn notifications_are_reported_as_events() {
    let (mut tx, mut rx) = channel();
    let deep = SleepMonitorLevel::deep();
    let all = observed_notifications(&SleepMonitorLevel::Standard, true);
    assert_eq!(
        all,
        vec![PowerNotification::WillSleep, PowerNotification::DidWake, PowerNotification::WillPowerOff]
    );
    assert_eq!(
        observed_notifications(&SleepMonitorLevel::Standard, false),
        vec![PowerNotification::WillSleep, PowerNotification::DidWake]
    );
    assert_eq!(observed_notifications(&deep, true), vec![PowerNotification::WillPowerOff]);
    assert_eq!(observed_notifications(&deep, false), vec![]);
    for notification in &all {
        notification.report(&mut tx);
    }
    assert!(matches!(rx.try_recv(), Some(SystemEvent::WillSleep)));
    assert!(matches!(rx.try_recv(), Some(SystemEvent::DidWake)));
    assert!(matches!(rx.try_recv(), Some(SystemEvent::WillPowerOff)));
    assert!(rx.try_recv().is_none());
    assert_eq!(all[0].name(), "NSWorkspaceWillSleepNotification");
    assert_eq!(all[1].name(), "NSWorkspaceDidWakeNotification");
    assert_eq!(all[2].name(), "NSWorkspaceWillPowerOffNotification");
}

#[test]
fn power_messages_are_told_apart() {
    assert_eq!(transition_of(0xe0000280), Some(PowerTransition::ToSleep));
    assert_eq!(transition_of(0xe0000300), Some(PowerTransition::PoweredOn));
    assert_eq!(transition_of(0xe0000270), None);
    assert!(awaits_consent(0xe0000270));
    assert!(awaits_consent(0xe0000280));
    assert!(!awaits_consent(0xe0000300));
}

#[test]
fn deep_monitoring_waits_before_it_consents() {
    let (mut tx, mut rx) = channel();
    let level = SleepMonitorLevel::Deep { timeout: Duration::from_millis(300) };

    let mut pending = report_message(0xe0000280, &level, &mut tx);
    let Some(SystemEvent::WillHibernate(handle)) = rx.try_recv() else {
        panic!("no hibernation reported")
    };
    let start = Instant::now();
    assert!(consents(0xe0000280, &mut pending));
    assert!(start.elapsed() >= Duration::from_millis(300));
    drop(handle);

    let mut pending = report_message(0xe0000270, &level, &mut tx);
    assert!(pending.is_none());
    assert!(consents(0xe0000270, &mut pending));
    let mut pending = report_message(0xe0000300, &level, &mut tx);
    assert!(pending.is_none());
    assert!(!consents(0xe0000300, &mut pending));
    assert!(matches!(rx.try_recv(), Some(SystemEvent::DidWake)));
    assert!(rx.try_recv().is_none());
}

#[test]
fn standard_monitoring_consents_at_once() {
    let (mut tx, mut rx) = channel();
    let mut pending = report_message(0xe0000280, &SleepMonitorLevel::Standard, &mut tx);
    assert!(pending.is_none());
    assert!(consents(0xe0000280, &mut pending));
    assert!(matches!(rx.try_recv(), Some(SystemEvent::WillSleep)));
}

#[test]
fn listeners_follow_the_features() {
    let installed = plan(Features::all(), SentinelConfig::default());
    assert!(installed.delegate && installed.path_monitor);
    assert!(matches!(installed.power, Some(SleepMonitorLevel::Standard)));
    assert!(!installed.power_messages);
    let deep = SentinelConfig { sleep_monitor_level: SleepMonitorLevel::deep() };
    let installed = plan(Features::all(), deep);
    assert!(matches!(installed.power, Some(SleepMonitorLevel::Deep { .. })));
    assert!(installed.power_messages);
    let only_shutdown = Features { shutdown: true, sleep: false, network: false };
    let installed = plan(only_shutdown, SentinelConfig::default());
    assert!(installed.delegate && !installed.path_monitor && installed.power.is_none());
    let deep = SentinelConfig { sleep_monitor_level: SleepMonitorLevel::deep() };
    assert!(!plan(only_shutdown, deep).power_messages);
}
