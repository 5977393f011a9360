//! Sleep and wake: the handle that delays sleep, and how deeply sleep is monitored.
use core::time::Duration;
use vstd::prelude::*;

use crate::common;
use crate::common::channels;
use crate::common::channels::{decision_channel, hang_up_decisions, send_decision};
use crate::common::shutdown;
use crate::common::shutdown::{announce, PendingDecision, ShutdownDecision};
use crate::common::{EventSender, SystemEvent};

verus! {

/// Holds up sleep until `allow` is called. A handle that is dropped without that call lets the
/// system sleep too.
pub struct SleepHandle {
    inner: Option<std::sync::mpsc::SyncSender<ShutdownDecision>>,
}

impl SleepHandle {
    #[verifier::type_invariant]
    spec fn inv(&self) -> bool {
        self.inner matches Some(tx) ==> shutdown::unused(tx)
    }

    /// Whether the handle still owes its decision.
    pub closed spec fn is_live(&self) -> bool {
        self.inner is Some
    }

    /// All decisions that go out through the handle from now on.
    pub closed spec fn decisions(&self) -> Seq<ShutdownDecision> {
        match self.inner {
            Some(tx) => channels::decision_sender(tx).traffic,
            None => Seq::empty(),
        }
    }

    /// A handle together with the side that waits for its decision, for at most `timeout`.
    pub fn with_timeout(timeout: Duration) -> (pair: (SleepHandle, PendingDecision))
        ensures
            pair.0.is_live(),
            pair.1.decisions() == pair.0.decisions(),
            pair.1.timeout() == timeout,
            pair.1@.untouched(),
            !pair.1@.announced,
    {
        let (tx, rx) = decision_channel(1);
        (SleepHandle { inner: Some(tx) }, PendingDecision::new(rx, timeout))
    }

    /// Says that the work before sleep is done: the system may sleep. This is said once.
    pub fn allow(self)
        ensures
            self.is_live() ==> self.decisions() == seq![ShutdownDecision::Allow],
        no_unwind
    {
        let mut handle = self;
        handle.release();
    }

    /// Lets the system sleep if that has not been done yet, and gives up the channel.
    fn release(&mut self)
        ensures
            released(*old(self), *final(self)),
        opens_invariants none
        no_unwind
    {
        proof {
            use_type_invariant(&*self);
        }
        let mut taken: Option<std::sync::mpsc::SyncSender<ShutdownDecision>> = None;
        core::mem::swap(&mut taken, &mut self.inner);
        match taken {
            Some(tx) => {
                let mut tx = tx;
                send_decision(&mut tx, ShutdownDecision::Allow);
                let mut slot = Some(tx);
                hang_up_decisions(&mut slot);
            },
            None => {},
        }
    }
}

/// Whether a handle has gone from `before` to `after` by letting the system sleep: one that still
/// owed its decision allows, once; a spent one stays as it is.
pub open spec fn released(before: SleepHandle, after: SleepHandle) -> bool {
    &&& !after.is_live()
    &&& after.decisions() == Seq::<ShutdownDecision>::empty()
    &&& if before.is_live() {
        before.decisions() == seq![ShutdownDecision::Allow]
    } else {
        after == before
    }
}

impl Drop for SleepHandle {
    /// A handle that goes without a decision lets the system sleep, and says so once.
    fn drop(&mut self)
        ensures
            released(*old(self), *final(self)),
        opens_invariants none
        no_unwind
    {
        self.release();
    }
}

/// How deeply sleep is monitored on macOS. Other platforms take no notice of it.
#[derive(Debug)]
pub enum SleepMonitorLevel {
    /// Listens to the workspace's notifications. Needs no thread of its own and cannot delay
    /// sleep. The default.
    Standard,
    /// Registers for system power changes on a thread of its own. Each transition to sleep,
    /// hibernation among them, is reported as `WillHibernate` and waits for the handle.
    Deep {
        /// The longest time that the system waits for the handle.
        timeout: Duration,
    },
}

impl Clone for SleepMonitorLevel {
    fn clone(&self) -> (level: SleepMonitorLevel)
        ensures
            level == *self,
    {
        match self {
            SleepMonitorLevel::Standard => SleepMonitorLevel::Standard,
            SleepMonitorLevel::Deep { timeout } => SleepMonitorLevel::Deep { timeout: *timeout },
        }
    }
}

impl Default for SleepMonitorLevel {
    fn default() -> (level: SleepMonitorLevel)
        ensures
            level == SleepMonitorLevel::Standard,
    {
        SleepMonitorLevel::Standard
    }
}

/// A change of the system's power state.
#[derive(Clone, Copy, Debug, PartialEq, Eq, Structural)]
pub enum PowerTransition {
    /// The system is about to sleep or hibernate.
    ToSleep,
    /// The system is powered on again.
    PoweredOn,
}

impl SleepMonitorLevel {
    /// Deep monitoring with a timeout of three seconds.
    pub fn deep() -> (level: SleepMonitorLevel)
        ensures
            level matches SleepMonitorLevel::Deep { timeout } && channels::nanoseconds(timeout)
                == 3_000_000_000,
    {
        SleepMonitorLevel::Deep { timeout: Duration::from_secs(3) }
    }

    /// What a transition is reported as at this level, and what it then waits for.
    pub open spec fn reports(
        &self,
        transition: PowerTransition,
        event: SystemEvent,
        pending: Option<PendingDecision>,
    ) -> bool {
        match (transition, self) {
            (PowerTransition::PoweredOn, _) => event == SystemEvent::DidWake && pending is None,
            (PowerTransition::ToSleep, SleepMonitorLevel::Standard) => event
                == SystemEvent::WillSleep && pending is None,
            (PowerTransition::ToSleep, SleepMonitorLevel::Deep { timeout }) => {
                &&& event matches SystemEvent::WillHibernate(handle)
                &&& pending matches Some(wait)
                &&& handle.is_live()
                &&& wait.decisions() == handle.decisions()
                &&& wait.timeout() == timeout
                &&& wait@.untouched()
                &&& wait@.announced
            },
        }
    }

    /// Reports a power transition with one event. Where the transition has to wait for the
    /// application, what it waits for is returned.
    pub fn report(&self, transition: PowerTransition, event_tx: &mut EventSender) -> (pending:
        Option<PendingDecision>)
        ensures
            final(event_tx)@.valid(),
            final(event_tx)@ == old(event_tx)@.push(final(event_tx)@.sent.last()),
            common::handed_back(
                old(event_tx).refused(),
                final(event_tx)@.sent.last(),
                final(event_tx).refused(),
            ),
            final(event_tx).inv(),
            self.reports(transition, final(event_tx)@.sent.last(), pending),
    {
        match transition {
            PowerTransition::PoweredOn => {
                event_tx.send(SystemEvent::DidWake);
                None
            },
            PowerTransition::ToSleep => match self {
                SleepMonitorLevel::Standard => {
                    event_tx.send(SystemEvent::WillSleep);
                    None
                },
                SleepMonitorLevel::Deep { timeout } => {
                    let (handle, mut wait) = SleepHandle::with_timeout(*timeout);
                    announce(event_tx, SystemEvent::WillHibernate(handle), &mut wait);
                    Some(wait)
                },
            },
        }
    }
}

/// A handle is heard exactly once, whichever way it ends: its decision comes, and after it the
/// channel has nothing more.
pub proof fn sleep_handle_is_heard_once(handle: SleepHandle, pending: PendingDecision)
    requires
        pending.decisions() == handle.decisions(),
        handle.decisions() == seq![ShutdownDecision::Allow],
        pending@.untouched(),
    ensures
        pending@.channel.upcoming() == Some(ShutdownDecision::Allow),
        pending@.channel.after(Some(ShutdownDecision::Allow)).upcoming() is None,
{
}

/// Dropping a handle that still owes its decision is the same to the waiting side as allowing:
/// one decision to allow, and then nothing more. A spent handle says nothing when it is dropped.
pub proof fn dropped_sleep_handle_allows_once(
    handle: SleepHandle,
    gone: SleepHandle,
    pending: PendingDecision,
)
    requires
        released(handle, gone),
        pending.decisions() == handle.decisions(),
        pending@.untouched(),
    ensures
        handle.is_live() ==> pending.decisions() == seq![ShutdownDecision::Allow]
            && pending@.channel.upcoming() == Some(ShutdownDecision::Allow)
            && pending@.channel.after(Some(ShutdownDecision::Allow)).upcoming() is None,
        !handle.is_live() ==> pending.decisions() == Seq::<ShutdownDecision>::empty(),
{
}

/// Standard monitoring cannot delay sleep: it never hands out a handle and never waits.
pub proof fn standard_monitoring_never_waits(
    transition: PowerTransition,
    event: SystemEvent,
    pending: Option<PendingDecision>,
)
    requires
        SleepMonitorLevel::Standard.reports(transition, event, pending),
    ensures
        event !is WillHibernate,
        pending is None,
{
}

/// Waking up is reported the same way at every level.
pub proof fn wake_is_reported_at_every_level(
    level: SleepMonitorLevel,
    event: SystemEvent,
    pending: Option<PendingDecision>,
)
    ensures
        level.reports(PowerTransition::PoweredOn, event, pending) <==> event
            == SystemEvent::DidWake && pending is None,
{
}

/// A new handle owes its decision, and the side that comes with it waits for that very decision,
/// for as long as asked; nobody has waited yet.
pub proof fn new_sleep_handle_is_waited_for(
    timeout: Duration,
    pair: (SleepHandle, PendingDecision),
)
    requires
        call_ensures(SleepHandle::with_timeout, (timeout,), pair),
    ensures
        pair.0.is_live(),
        pair.1@.channel.traffic == pair.0.decisions(),
        pair.1@.channel.received.len() == 0,
        pair.1@.timeout == timeout,
        pair.1@.waits.len() == 0,
        pair.1@.told.len() == 0,
        !pair.1@.announced,
{
}

/// Allowing is the one decision of a handle.
pub proof fn allowing_sleep_is_the_only_decision(handle: SleepHandle)
    requires
        call_ensures(SleepHandle::allow, (handle,), ()),
        handle.is_live(),
    ensures
        handle.decisions().len() == 1,
        handle.decisions()[0] == ShutdownDecision::Allow,
{
}

/// Deep monitoring waits three seconds unless told otherwise.
pub proof fn deep_monitoring_waits_three_seconds(level: SleepMonitorLevel)
    requires
        call_ensures(SleepMonitorLevel::deep, (), level),
    ensures
        level matches SleepMonitorLevel::Deep { timeout } && channels::nanoseconds(timeout)
            == 3_000_000_000,
{
}

/// A power transition is reported by one event more. Waking is `DidWake` at every level. Going to
/// sleep is `WillSleep` with standard monitoring, and nothing waits; with deep monitoring it is
/// `WillHibernate` with a handle that still owes its decision, and that decision is waited for, as
/// long as the level says.
pub proof fn transition_is_reported_by_its_level(
    level: SleepMonitorLevel,
    transition: PowerTransition,
    event_tx: &mut EventSender,
    pending: Option<PendingDecision>,
)
    requires
        call_ensures(SleepMonitorLevel::report, (&level, transition, event_tx), pending),
    ensures
        final(event_tx)@.sent.len() == old(event_tx)@.sent.len() + 1,
        final(event_tx)@.sent.drop_last() == old(event_tx)@.sent,
        final(event_tx)@.traffic == old(event_tx)@.traffic,
        transition is PoweredOn ==> final(event_tx)@.sent.last() is DidWake && pending is None,
        transition is ToSleep && level is Standard ==> final(event_tx)@.sent.last() is WillSleep
            && pending is None,
        transition is ToSleep ==> (level matches SleepMonitorLevel::Deep { timeout } ==> {
            &&& final(event_tx)@.sent.last() matches SystemEvent::WillHibernate(handle)
            &&& pending matches Some(wait)
            &&& handle.is_live()
            &&& wait@.channel.traffic == handle.decisions()
            &&& wait@.channel.received.len() == 0
            &&& wait@.timeout == timeout
            &&& wait@.waits.len() == 0
            &&& wait@.told.len() == 0
            &&& wait@.announced
        }),
{
    assert(final(event_tx)@.sent.drop_last() =~= old(event_tx)@.sent);
}

/// Sleep that nobody listens for is not held up: where the event that reports it came back, the
/// decision to allow it is there to be taken.
pub proof fn unheard_sleep_is_not_held_up(
    event_tx: EventSender,
    handle: SleepHandle,
    pending: PendingDecision,
)
    requires
        event_tx.inv(),
        handle.is_live(),
        pending.decisions() == handle.decisions(),
        event_tx.refused().contains(SystemEvent::WillHibernate(handle)),
        pending@.untouched(),
    ensures
        pending@.channel.traffic == seq![ShutdownDecision::Allow],
        pending@.channel.received.len() == 0,
{
    let i = choose|i: int|
        0 <= i < event_tx.refused().len() && event_tx.refused()[i] == SystemEvent::WillHibernate(
            handle,
        );
    assert(event_tx.refused()[i].holds_up_nothing());
}

/// A copy of a level is the same level, with the same timeout; and the level that nobody chose is
/// the one that needs no thread and cannot delay sleep.
pub proof fn copied_level_is_the_same(
    level: SleepMonitorLevel,
    copy: SleepMonitorLevel,
    unchosen: SleepMonitorLevel,
)
    requires
        call_ensures(<SleepMonitorLevel as Clone>::clone, (&level,), copy),
        call_ensures(<SleepMonitorLevel as Default>::default, (), unchosen),
    ensures
        copy is Deep <==> level is Deep,
        level matches SleepMonitorLevel::Deep { timeout } ==> (copy
            matches SleepMonitorLevel::Deep { timeout: copied } && copied == timeout),
        unchosen is Standard,
{
}

} // verus!
