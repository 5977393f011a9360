//! Event types and channel ends that all platform backends share.
use vstd::prelude::*;

use crate::common::channels::{
    event_channel, hang_up, receive_event, send_event, try_receive_event,
};
use crate::common::model::{ReceiverModel, SenderModel};
use crate::common::shutdown::{ShutdownDecision, ShutdownHandle};
use crate::common::sleep::SleepHandle;

pub mod channels;
pub mod model;
pub mod network;
pub mod shutdown;
pub mod sleep;
pub mod tokio_support;

verus! {

/// Events that the sentinel reports to the application.
#[non_exhaustive]
pub enum SystemEvent {
    /// The system is about to sleep. This cannot be delayed.
    WillSleep,
    /// The system is about to sleep or hibernate and waits for the handle.
    /// Reported in place of `WillSleep` where sleep is monitored in depth.
    WillHibernate(SleepHandle),
    /// The system has resumed from suspend.
    DidWake,
    /// At least one network interface is reachable.
    NetworkUp,
    /// All network interfaces are gone or unreachable.
    NetworkDown,
    /// Shutdown, restart or logout has been requested. An early sign, which comes before
    /// `ShuttingDown`; the request may still be withdrawn.
    WillPowerOff,
    /// Shutdown, restart or logout has been requested and waits for the handle.
    ShuttingDown(ShutdownHandle),
}

impl SystemEvent {
    /// The text that stands for the event in a log.
    pub open spec fn label(&self) -> Seq<char> {
        match self {
            SystemEvent::WillSleep => "WillSleep"@,
            SystemEvent::DidWake => "DidWake"@,
            SystemEvent::NetworkUp => "NetworkUp"@,
            SystemEvent::NetworkDown => "NetworkDown"@,
            SystemEvent::ShuttingDown(_) => "ShuttingDown(<handle>)"@,
            _ => "SystemEvent(<unknown>)"@,
        }
    }

    /// The event as text for a log. A handle is not shown, and events without a label of their
    /// own share one.
    pub fn describe(&self) -> (text: String)
        ensures
            text@ == self.label(),
    {
        match self {
            SystemEvent::WillSleep => "WillSleep".to_string(),
            SystemEvent::DidWake => "DidWake".to_string(),
            SystemEvent::NetworkUp => "NetworkUp".to_string(),
            SystemEvent::NetworkDown => "NetworkDown".to_string(),
            SystemEvent::ShuttingDown(_) => "ShuttingDown(<handle>)".to_string(),
            _ => "SystemEvent(<unknown>)".to_string(),
        }
    }
}

impl SystemEvent {
    /// Whether the event holds up nothing: a handle in it that still owes its decision allows
    /// the transition, once.
    pub open spec fn holds_up_nothing(&self) -> bool {
        match self {
            SystemEvent::ShuttingDown(handle) => handle.is_live() ==> handle.decisions()
                == seq![ShutdownDecision::Allow],
            SystemEvent::WillHibernate(handle) => handle.is_live() ==> handle.decisions()
                == seq![ShutdownDecision::Allow],
            _ => true,
        }
    }

    /// Gives up an event that nobody takes: what waits for a handle in it may proceed.
    pub(crate) fn give_up(self)
        ensures
            self.holds_up_nothing(),
        no_unwind
    {
        match self {
            SystemEvent::ShuttingDown(handle) => handle.allow(),
            SystemEvent::WillHibernate(handle) => handle.allow(),
            _ => {},
        }
    }
}

/// The sending half of the event channel. There is one of it for each channel.
pub struct EventSender {
    tx: std::sync::mpsc::Sender<SystemEvent>,
}

/// The receiving half of the event channel. It can move to any thread.
pub struct EventReceiver {
    rx: std::sync::mpsc::Receiver<SystemEvent>,
}

impl View for EventSender {
    type V = SenderModel<SystemEvent>;

    closed spec fn view(&self) -> SenderModel<SystemEvent> {
        channels::event_sender(self.tx)
    }
}

impl View for EventReceiver {
    type V = ReceiverModel<SystemEvent>;

    closed spec fn view(&self) -> ReceiverModel<SystemEvent> {
        channels::event_receiver(self.rx)
    }
}

/// Creates an event channel without a bound: sending never waits, as a window procedure or a
/// power callback needs it.
pub fn channel() -> (ends: (EventSender, EventReceiver))
    ensures
        ends.0@.valid(),
        ends.0@.sent == Seq::<SystemEvent>::empty(),
        ends.0@.bound is None,
        ends.0.refused() == Seq::<SystemEvent>::empty(),
        ends.1@.valid(),
        ends.1@.received == Seq::<SystemEvent>::empty(),
        ends.1@.traffic == ends.0@.traffic,
        ends.1.polls() == 0,
{
    let (tx, rx) = event_channel();
    (EventSender { tx }, EventReceiver { rx })
}

/// Sends an event through one end of the channel. If nobody is left to receive it, it is given up.
fn send_or_give_up(tx: &mut std::sync::mpsc::Sender<SystemEvent>, event: SystemEvent)
    requires
        channels::event_sender(*old(tx)).sole,
    ensures
        channels::event_sender(*final(tx)) == channels::event_sender(*old(tx)).push(event),
        channels::event_sender(*final(tx)).valid(),
        handed_back(channels::event_refused(*old(tx)), event, channels::event_refused(*final(tx))),
        all_hold_up_nothing(channels::event_refused(*old(tx))) ==> all_hold_up_nothing(
            channels::event_refused(*final(tx)),
        ),
    no_unwind
{
    match send_event(tx, event) {
        Some(back) => back.give_up(),
        None => {},
    }
}

/// Whether none of the events holds up anything.
pub open spec fn all_hold_up_nothing(events: Seq<SystemEvent>) -> bool {
    forall|i: int| 0 <= i < events.len() ==> (#[trigger] events[i]).holds_up_nothing()
}

/// Whether the refused events have gone from `before` to `after` by an attempt to send `event`: it
/// is not refused, or it is and holds up nothing. Once one has been refused, all are.
pub open spec fn handed_back(
    before: Seq<SystemEvent>,
    event: SystemEvent,
    after: Seq<SystemEvent>,
) -> bool {
    ||| after == before && before.len() == 0
    ||| after == before.push(event) && event.holds_up_nothing()
}

impl EventSender {
    /// What the end has sent opens the channel's traffic, and what it got back holds up nothing.
    #[verifier::type_invariant]
    pub open spec fn inv(&self) -> bool {
        &&& self@.valid()
        &&& all_hold_up_nothing(self.refused())
    }

    /// The events that came back since nobody was left to receive them, the oldest first.
    pub closed spec fn refused(&self) -> Seq<SystemEvent> {
        channels::event_refused(self.tx)
    }

    /// Sends an event. It is not an error if nobody receives any more: then the event is refused
    /// and given up, so that nothing waits for a handle in it.
    pub fn send(&mut self, event: SystemEvent)
        ensures
            final(self)@ == old(self)@.push(event),
            final(self)@.valid(),
            handed_back(old(self).refused(), event, final(self).refused()),
            final(self).inv(),
    {
        proof {
            use_type_invariant(&*self);
        }
        send_or_give_up(&mut self.tx, event);
        proof {
            use_type_invariant(&*self);
        }
    }

    /// Ends the channel: no event follows those that have been sent.
    pub fn close(self)
        ensures
            self@.traffic == self@.sent,
    {
        proof {
            use_type_invariant(&self);
        }
        let mut slot = Some(self.tx);
        hang_up(&mut slot);
    }
}

impl EventReceiver {
    /// What has been taken opens the channel's traffic.
    #[verifier::type_invariant]
    pub open spec fn inv(&self) -> bool {
        self@.valid()
    }

    /// How often the receiver has been asked for an event without waiting.
    pub closed spec fn polls(&self) -> nat {
        channels::event_polls(self.rx)
    }

    /// Waits for the next event. Returns `None` once the sender is gone and every event has
    /// been taken.
    pub fn recv(&mut self) -> (event: Option<SystemEvent>)
        ensures
            event == old(self)@.upcoming(),
            final(self)@ == old(self)@.after(event),
            final(self)@.valid(),
            final(self).polls() == old(self).polls(),
    {
        proof {
            use_type_invariant(&*self);
        }
        receive_event(&mut self.rx)
    }

    /// Returns the next event if it is there, without waiting for it.
    pub fn try_recv(&mut self) -> (event: Option<SystemEvent>)
        ensures
            event is Some ==> event == old(self)@.upcoming(),
            final(self)@ == old(self)@.after(event),
            final(self)@.valid(),
            final(self).polls() == old(self).polls() + 1,
    {
        proof {
            use_type_invariant(&*self);
        }
        try_receive_event(&mut self.rx)
    }
}

/// A new channel is empty, has one sender, and takes any number of events without waiting.
pub proof fn new_channel_is_empty(ends: (EventSender, EventReceiver))
    requires
        call_ensures(channel, (), ends),
    ensures
        ends.0@.sent.len() == 0,
        ends.1@.received.len() == 0,
        ends.0@.traffic == ends.1@.traffic,
        ends.0@.bound is None,
        ends.0@.sole,
        ends.0.refused().len() == 0,
        ends.1.polls() == 0,
{
}

/// An event goes out as it was given, once and after all others. If nobody is left to receive it,
/// it comes back, a handle in it lets its transition proceed, and every later event comes back too.
pub proof fn event_goes_out_as_given(sender: &mut EventSender, event: SystemEvent)
    requires
        call_ensures(EventSender::send, (sender, event), ()),
    ensures
        final(sender)@.sent.len() == old(sender)@.sent.len() + 1,
        final(sender)@.sent.last() == event,
        final(sender)@.sent.drop_last() == old(sender)@.sent,
        final(sender)@.traffic == old(sender)@.traffic,
        final(sender)@.bound == old(sender)@.bound,
        final(sender)@.sole == old(sender)@.sole,
        old(sender)@.sent.len() < old(sender)@.traffic.len(),
        old(sender)@.traffic[old(sender)@.sent.len() as int] == event,
        final(sender).refused() != old(sender).refused() ==> final(sender).refused() == old(sender).refused().push(event),
        old(sender).refused().len() > 0 ==> final(sender).refused() != old(sender).refused(),
        final(sender).refused() != old(sender).refused() ==> (event matches
            SystemEvent::ShuttingDown(handle) ==> handle.is_live() ==> handle.decisions()
            == seq![ShutdownDecision::Allow]),
        final(sender).refused() != old(sender).refused() ==> (event matches
            SystemEvent::WillHibernate(handle) ==> handle.is_live() ==> handle.decisions()
            == seq![ShutdownDecision::Allow]),
{
    let n = old(sender)@.sent.len() as int;
    assert(old(sender)@.sent.push(event).drop_last() =~= old(sender)@.sent);
    assert(final(sender)@.sent[n] == event);
    assert(final(sender)@.traffic[n] == final(sender)@.sent[n]);
    if final(sender).refused() == old(sender).refused() {
        assert(old(sender).refused().push(event).len() == old(sender).refused().len() + 1);
    } else {
        assert(event.holds_up_nothing());
    }
    if old(sender).refused().len() > 0 {
        assert(final(sender).refused().len() == old(sender).refused().len() + 1);
    }
}

/// A sender that is closed sends nothing more.
pub proof fn closed_sender_sends_nothing_more(sender: EventSender)
    requires
        call_ensures(EventSender::close, (sender,), ()),
    ensures
        sender@.traffic == sender@.sent,
{
}

/// Waiting for an event gives the next one that was sent, and takes it; there is none only at the
/// end of all that is ever sent.
pub proof fn next_event_is_received(receiver: &mut EventReceiver, event: Option<SystemEvent>)
    requires
        call_ensures(EventReceiver::recv, (receiver,), event),
    ensures
        final(receiver)@.traffic == old(receiver)@.traffic,
        event is Some <==> old(receiver)@.received.len() < old(receiver)@.traffic.len(),
        event matches Some(e) ==> e == old(receiver)@.traffic[old(receiver)@.received.len() as int]
            && final(receiver)@.received == old(receiver)@.received.push(e),
        event is None ==> final(receiver)@.received == old(receiver)@.received,
{
}

/// Asking for an event without waiting gives the next one that was sent and takes it, or gives none
/// and takes nothing.
pub proof fn polled_event_is_the_next_one(receiver: &mut EventReceiver, event: Option<SystemEvent>)
    requires
        call_ensures(EventReceiver::try_recv, (receiver,), event),
    ensures
        final(receiver)@.traffic == old(receiver)@.traffic,
        final(receiver).polls() == old(receiver).polls() + 1,
        event matches Some(e) ==> old(receiver)@.received.len() < old(receiver)@.traffic.len() && e
            == old(receiver)@.traffic[old(receiver)@.received.len() as int] && final(receiver)@.received == old(receiver)@.received.push(e),
        event is None ==> final(receiver)@.received == old(receiver)@.received,
{
}

/// Each event that has a text of its own is shown by it, and all others by one that says that they
/// are not known; so an event is never shown as another.
pub proof fn text_tells_the_event(event: SystemEvent, text: String)
    requires
        call_ensures(SystemEvent::describe, (&event,), text),
    ensures
        event is WillSleep ==> text@ == "WillSleep"@,
        event is DidWake ==> text@ == "DidWake"@,
        event is NetworkUp ==> text@ == "NetworkUp"@,
        event is NetworkDown ==> text@ == "NetworkDown"@,
        event is ShuttingDown ==> text@ == "ShuttingDown(<handle>)"@,
        event is WillHibernate || event is WillPowerOff ==> text@ == "SystemEvent(<unknown>)"@,
{
}

} // verus!
