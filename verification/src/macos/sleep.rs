//! The workspace's notifications of sleep, wake and power off, and the system's power messages.
use vstd::prelude::*;

use crate::common::shutdown as common;
use crate::common::shutdown::{PendingDecision, ShutdownDecision};
use crate::common::sleep::{PowerTransition, SleepMonitorLevel};
use crate::common::{EventSender, SystemEvent};

verus! {

/// A notification of the workspace.
#[derive(Clone, Copy, Debug, PartialEq, Eq, Structural)]
pub enum PowerNotification {
    /// The system is about to sleep.
    WillSleep,
    /// The system has woken up.
    DidWake,
    /// The user has asked to shut down, restart or log out.
    WillPowerOff,
}

impl PowerNotification {
    /// The notification's name.
    pub open spec fn spec_name(&self) -> Seq<char> {
        match self {
            PowerNotification::WillSleep => "NSWorkspaceWillSleepNotification"@,
            PowerNotification::DidWake => "NSWorkspaceDidWakeNotification"@,
            PowerNotification::WillPowerOff => "NSWorkspaceWillPowerOffNotification"@,
        }
    }

    /// The name under which the workspace posts the notification.
    pub fn name(&self) -> (name: &'static str)
        ensures
            name@ == self.spec_name(),
    {
        match self {
            PowerNotification::WillSleep => "NSWorkspaceWillSleepNotification",
            PowerNotification::DidWake => "NSWorkspaceDidWakeNotification",
            PowerNotification::WillPowerOff => "NSWorkspaceWillPowerOffNotification",
        }
    }

    /// The event that reports the notification.
    pub open spec fn event(&self) -> SystemEvent {
        match self {
            PowerNotification::WillSleep => SystemEvent::WillSleep,
            PowerNotification::DidWake => SystemEvent::DidWake,
            PowerNotification::WillPowerOff => SystemEvent::WillPowerOff,
        }
    }

    /// Reports the notification.
    pub fn report(&self, event_tx: &mut EventSender)
        ensures
            final(event_tx)@ == old(event_tx)@.push(self.event()),
            final(event_tx)@.valid(),
    {
        event_tx.send(
            match self {
                PowerNotification::WillSleep => SystemEvent::WillSleep,
                PowerNotification::DidWake => SystemEvent::DidWake,
                PowerNotification::WillPowerOff => SystemEvent::WillPowerOff,
            },
        );
    }
}

/// The notifications to listen to. With deep monitoring, sleep and wake are learned elsewhere;
/// power off is of interest only where shutdown is.
pub open spec fn observed(level: SleepMonitorLevel, shutdown: bool) -> Seq<PowerNotification> {
    (if level is Standard {
        seq![PowerNotification::WillSleep, PowerNotification::DidWake]
    } else {
        seq![]
    }) + (if shutdown {
        seq![PowerNotification::WillPowerOff]
    } else {
        seq![]
    })
}

/// Lists the notifications to listen to.
pub fn observed_notifications(level: &SleepMonitorLevel, shutdown: bool) -> (list: Vec<
    PowerNotification,
>)
    ensures
        list@ == observed(*level, shutdown),
{
    let mut list: Vec<PowerNotification> = Vec::new();
    match level {
        SleepMonitorLevel::Standard => {
            list.push(PowerNotification::WillSleep);
            list.push(PowerNotification::DidWake);
        },
        SleepMonitorLevel::Deep { .. } => {},
    }
    if shutdown {
        list.push(PowerNotification::WillPowerOff);
    }
    assert(list@ =~= observed(*level, shutdown));
    list
}

/// A power message that asks whether the system may sleep.
pub const MESSAGE_CAN_SYSTEM_SLEEP: u32 = 0xe000_0270;

/// A power message that says that the system is about to sleep.
pub const MESSAGE_SYSTEM_WILL_SLEEP: u32 = 0xe000_0280;

/// A power message that says that the system is powered on again.
pub const MESSAGE_SYSTEM_HAS_POWERED_ON: u32 = 0xe000_0300;

/// The transition that a power message tells of, if any.
pub open spec fn told_transition(message: u32) -> Option<PowerTransition> {
    if message == MESSAGE_SYSTEM_WILL_SLEEP {
        Some(PowerTransition::ToSleep)
    } else if message == MESSAGE_SYSTEM_HAS_POWERED_ON {
        Some(PowerTransition::PoweredOn)
    } else {
        None
    }
}

/// Tells which transition a power message is about, if any.
pub fn transition_of(message: u32) -> (transition: Option<PowerTransition>)
    ensures
        transition == told_transition(message),
{
    if message == MESSAGE_SYSTEM_WILL_SLEEP {
        Some(PowerTransition::ToSleep)
    } else if message == MESSAGE_SYSTEM_HAS_POWERED_ON {
        Some(PowerTransition::PoweredOn)
    } else {
        None
    }
}

/// Whether the system waits to be told that it may sleep after a power message.
pub fn awaits_consent(message: u32) -> (awaits: bool)
    ensures
        awaits == (message == MESSAGE_CAN_SYSTEM_SLEEP || message == MESSAGE_SYSTEM_WILL_SLEEP),
{
    message == MESSAGE_CAN_SYSTEM_SLEEP || message == MESSAGE_SYSTEM_WILL_SLEEP
}

/// The first half of handling a power message: reports the transition that it tells of, if any.
/// What the transition then waits for is returned.
pub fn report_message(message: u32, level: &SleepMonitorLevel, event_tx: &mut EventSender) -> (pending:
    Option<PendingDecision>)
    ensures
        final(event_tx)@.valid(),
        match told_transition(message) {
            Some(transition) => final(event_tx)@ == old(event_tx)@.push(
                final(event_tx)@.sent.last(),
            ) && level.reports(transition, final(event_tx)@.sent.last(), pending),
            None => final(event_tx)@ == old(event_tx)@ && pending is None,
        },
{
    proof {
        use_type_invariant(&*event_tx);
    }
    match transition_of(message) {
        Some(transition) => level.report(transition, event_tx),
        None => None,
    }
}

/// The second half of handling a power message: waits for the application if there is anything to
/// wait for, and then says whether to tell the system that it may sleep.
pub fn consents(message: u32, pending: &mut Option<PendingDecision>) -> (consent: bool)
    ensures
        consent == (message == MESSAGE_CAN_SYSTEM_SLEEP || message == MESSAGE_SYSTEM_WILL_SLEEP),
        match *old(pending) {
            Some(before) => *final(pending) matches Some(after) && common::settled(
                before@,
                ShutdownDecision::Allow,
                after@,
            ),
            None => *final(pending) is None,
        },
{
    match pending {
        Some(wait) => {
            let _ = wait.wait();
        },
        None => {},
    }
    awaits_consent(message)
}

/// With deep monitoring the system is told that it may sleep only when the application has been
/// told of it and has then been waited for: once, and for no longer than the timeout.
pub proof fn deep_monitoring_waits_before_it_consents(
    level: SleepMonitorLevel,
    event: SystemEvent,
    pending: PendingDecision,
    after: PendingDecision,
)
    requires
        level is Deep,
        level.reports(PowerTransition::ToSleep, event, Some(pending)),
        common::settled(pending@, ShutdownDecision::Allow, after@),
    ensures
        level matches SleepMonitorLevel::Deep { timeout } && after@.waits == seq![timeout],
        after@.told == seq![true],
{
}

/// With deep monitoring `WillSleep` is never reported: neither for a notification that is
/// listened to nor for a power transition.
pub proof fn deep_monitoring_never_reports_will_sleep(
    level: SleepMonitorLevel,
    shutdown: bool,
    notification: PowerNotification,
    transition: PowerTransition,
    event: SystemEvent,
    pending: Option<PendingDecision>,
)
    requires
        level is Deep,
    ensures
        observed(level, shutdown).contains(notification) ==> notification.event()
            != SystemEvent::WillSleep,
        level.reports(transition, event, pending) ==> event != SystemEvent::WillSleep,
{
}

/// A notification is reported by one event more, the one of its own kind.
pub proof fn notification_is_reported_as_its_event(
    notification: PowerNotification,
    event_tx: &mut EventSender,
)
    requires
        call_ensures(PowerNotification::report, (&notification, event_tx), ()),
    ensures
        final(event_tx)@.traffic == old(event_tx)@.traffic,
        notification is WillSleep ==> final(event_tx)@.sent == old(event_tx)@.sent.push(
            SystemEvent::WillSleep,
        ),
        notification is DidWake ==> final(event_tx)@.sent == old(event_tx)@.sent.push(
            SystemEvent::DidWake,
        ),
        notification is WillPowerOff ==> final(event_tx)@.sent == old(event_tx)@.sent.push(
            SystemEvent::WillPowerOff,
        ),
{
}

/// A notification is known by the name that the workspace gives it.
pub proof fn notification_has_the_name_of_the_workspace(
    notification: PowerNotification,
    name: &'static str,
)
    requires
        call_ensures(PowerNotification::name, (&notification,), name),
    ensures
        notification is WillSleep ==> name@ == "NSWorkspaceWillSleepNotification"@,
        notification is DidWake ==> name@ == "NSWorkspaceDidWakeNotification"@,
        notification is WillPowerOff ==> name@ == "NSWorkspaceWillPowerOffNotification"@,
{
}

/// Sleep and wake are listened to exactly with standard monitoring, power off exactly where shutdown
/// is in use, each once.
pub proof fn notifications_follow_level_and_shutdown(
    level: SleepMonitorLevel,
    shutdown: bool,
    list: Vec<PowerNotification>,
)
    requires
        call_ensures(observed_notifications, (&level, shutdown), list),
    ensures
        list@.contains(PowerNotification::WillSleep) <==> level is Standard,
        list@.contains(PowerNotification::DidWake) <==> level is Standard,
        list@.contains(PowerNotification::WillPowerOff) <==> shutdown,
        list@.no_duplicates(),
{
    if level is Standard {
        assert(list@[0] == PowerNotification::WillSleep);
        assert(list@[1] == PowerNotification::DidWake);
        if shutdown {
            assert(list@[2] == PowerNotification::WillPowerOff);
        }
    } else if shutdown {
        assert(list@[0] == PowerNotification::WillPowerOff);
    }
}

/// A power message tells of sleep exactly if it says that the system will sleep, and of waking
/// exactly if it says that the system is powered on; consent is due to a question and to the
/// announcement of sleep, and to nothing else.
pub proof fn power_message_is_read_by_its_number(
    message: u32,
    transition: Option<PowerTransition>,
    awaits: bool,
)
    requires
        call_ensures(transition_of, (message,), transition),
        call_ensures(awaits_consent, (message,), awaits),
    ensures
        transition == Some(PowerTransition::ToSleep) <==> message == 0xe000_0280,
        transition == Some(PowerTransition::PoweredOn) <==> message == 0xe000_0300,
        awaits <==> message == 0xe000_0270 || message == 0xe000_0280,
{
}

/// A power message is reported as what it tells of: the announcement of sleep as `WillSleep` with
/// standard monitoring and as `WillHibernate` with deep, where the handle's decision is then to be
/// waited for; waking as `DidWake`; any other message not at all.
pub proof fn power_message_is_reported_by_its_number(
    message: u32,
    level: SleepMonitorLevel,
    event_tx: &mut EventSender,
    pending: Option<PendingDecision>,
)
    requires
        call_ensures(report_message, (message, &level, event_tx), pending),
    ensures
        final(event_tx)@.traffic == old(event_tx)@.traffic,
        message != 0xe000_0280 && message != 0xe000_0300 ==> final(event_tx)@.sent == old(event_tx)@.sent,
        message == 0xe000_0300 ==> final(event_tx)@.sent == old(event_tx)@.sent.push(
            SystemEvent::DidWake,
        ),
        message == 0xe000_0280 && level is Standard ==> final(event_tx)@.sent == old(event_tx)@.sent.push(SystemEvent::WillSleep),
        message == 0xe000_0280 ==> (level matches SleepMonitorLevel::Deep { timeout } ==> {
            &&& final(event_tx)@.sent.len() == old(event_tx)@.sent.len() + 1
            &&& final(event_tx)@.sent.drop_last() == old(event_tx)@.sent
            &&& final(event_tx)@.sent.last() matches SystemEvent::WillHibernate(handle)
            &&& pending matches Some(wait)
            &&& handle.is_live()
            &&& wait@.channel.traffic == handle.decisions()
            &&& wait@.timeout == timeout
            &&& wait@.waits.len() == 0
            &&& wait@.told.len() == 0
            &&& wait@.announced
        }),
        pending is Some <==> message == 0xe000_0280 && level is Deep,
{
    if message == 0xe000_0280 {
        assert(final(event_tx)@.sent.drop_last() =~= old(event_tx)@.sent);
    }
}

/// The system is told that it may sleep exactly after a question or an announcement of sleep, and
/// only when what there was to wait for has been waited for once, for no longer than its timeout.
pub proof fn consent_comes_after_the_wait(
    message: u32,
    pending: &mut Option<PendingDecision>,
    consent: bool,
)
    requires
        call_ensures(consents, (message, pending), consent),
    ensures
        consent <==> message == 0xe000_0270 || message == 0xe000_0280,
        *old(pending) is None ==> *final(pending) is None,
        *old(pending) matches Some(before) ==> {
            &&& *final(pending) matches Some(after)
            &&& after@.waits == before@.waits.push(before@.timeout)
            &&& after@.told == before@.told.push(before@.announced)
            &&& after@.timeout == before@.timeout
            &&& after@.channel.traffic == before@.channel.traffic
        },
{
}

} // verus!
