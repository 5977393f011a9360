//! An event channel for tasks, made of `tokio::sync::mpsc`.
use vstd::prelude::*;

use crate::common::model::{ReceiverModel, SenderModel};
use crate::common::shutdown::ShutdownDecision;
use crate::common::SystemEvent;

verus! {

/// `tokio::sync::mpsc::Sender`: the end that sends to a task.
#[verifier::external_type_specification]
#[verifier::external_body]
#[verifier::reject_recursive_types(T)]
pub struct ExTokioSender<T>(tokio::sync::mpsc::Sender<T>);

/// `tokio::sync::mpsc::Receiver`: the end that a task receives from.
#[verifier::external_type_specification]
#[verifier::external_body]
#[verifier::reject_recursive_types(T)]
pub struct ExTokioReceiver<T>(tokio::sync::mpsc::Receiver<T>);

/// `tokio::runtime::Handle`: a runtime to spawn tasks on.
#[verifier::external_type_specification]
#[verifier::external_body]
pub struct ExRuntimeHandle(tokio::runtime::Handle);

/// `core::task::Context`: the task that polls.
#[verifier::external_type_specification]
#[verifier::external_body]
pub struct ExContext<'a>(core::task::Context<'a>);

/// `core::task::Waker`: wakes a task.
#[verifier::external_type_specification]
#[verifier::external_body]
pub struct ExWaker(core::task::Waker);

/// The waker of the task that polls, the one that `Context::waker` gives.
pub uninterp spec fn waker_of(cx: core::task::Context<'_>) -> core::task::Waker;

/// The waker that is to be woken when another try to receive is worth it, if any.
pub uninterp spec fn waker_to_wake(
    rx: tokio::sync::mpsc::Receiver<SystemEvent>,
) -> Option<core::task::Waker>;

/// What a sending end of the channel holds. Only what goes through `try_send` counts as sent.
pub uninterp spec fn task_sender(
    tx: tokio::sync::mpsc::Sender<SystemEvent>,
) -> SenderModel<SystemEvent>;

/// The values that a sending end of the channel has been given to send at once, the oldest first,
/// whatever came of them.
pub uninterp spec fn task_attempts(tx: tokio::sync::mpsc::Sender<SystemEvent>) -> Seq<SystemEvent>;

/// Whether the receiving end is closed or dropped while the channel still has a sending end.
pub uninterp spec fn task_deserted(tx: tokio::sync::mpsc::Sender<SystemEvent>) -> bool;

/// What the receiving end of the channel holds.
pub uninterp spec fn task_receiver(
    rx: tokio::sync::mpsc::Receiver<SystemEvent>,
) -> ReceiverModel<SystemEvent>;

/// What came of an attempt to send at once.
#[derive(Clone, Copy, Debug, PartialEq, Eq, Structural)]
pub enum Attempt {
    /// The event is in the channel.
    Sent,
    /// There was no room; the event was given up.
    Full,
    /// The receiver is gone; the event was given up.
    Closed,
}

/// What `try_send` says: an event that is refused comes back.
enum Answer {
    Sent,
    Full(SystemEvent),
    Closed(SystemEvent),
}

/// `tokio::sync::mpsc::channel`: the two ends of one new channel that holds up to `cap` values.
/// Nothing has been sent or taken, and the sender is the only one. The call panics without room
/// for a value, and with more room than the channel can count.
#[verifier::external_body]
fn task_channel(cap: usize) -> (ends: (
    tokio::sync::mpsc::Sender<SystemEvent>,
    tokio::sync::mpsc::Receiver<SystemEvent>,
))
    requires
        0 < cap <= usize::MAX / 8,
    ensures
        task_sender(ends.0).fresh(),
        task_sender(ends.0).bound == Some(cap as nat),
        task_receiver(ends.1).received == Seq::<SystemEvent>::empty(),
        task_receiver(ends.1).traffic == task_sender(ends.0).traffic,
        task_attempts(ends.0) == Seq::<SystemEvent>::empty(),
{
    tokio::sync::mpsc::channel(cap)
}

/// `tokio::sync::mpsc::Sender::try_send`: never waits. The value is given to the channel. One that
/// is accepted is sent: of an only sender it takes the next place in the channel's traffic. One that
/// is refused comes back. An only sender is refused for want of room only after as many values as
/// the channel holds, and any sender is refused for want of a receiver only if the receiver goes
/// before the senders do. Apart from that, whether there is room, and whether the receiver is still
/// there, is up to the receiver.
#[verifier::external_body]
fn try_send_event(tx: &mut tokio::sync::mpsc::Sender<SystemEvent>, event: SystemEvent) -> (answer:
    Answer)
    ensures
        task_sender(*final(tx)) == match answer {
            Answer::Sent => task_sender(*old(tx)).push(event),
            _ => task_sender(*old(tx)),
        },
        answer matches Answer::Full(back) ==> back == event,
        answer matches Answer::Closed(back) ==> back == event,
        task_attempts(*final(tx)) == task_attempts(*old(tx)).push(event),
        task_deserted(*final(tx)) == task_deserted(*old(tx)),
        answer is Closed ==> task_deserted(*final(tx)),
        answer is Sent && task_sender(*old(tx)).sole ==> task_sender(*final(tx)).valid(),
        answer is Full && task_sender(*old(tx)).sole ==> (task_sender(
            *old(tx),
        ).bound matches Some(bound) && task_sender(*old(tx)).sent.len() >= bound),
{
    match tx.try_send(event) {
        Ok(()) => Answer::Sent,
        Err(tokio::sync::mpsc::error::TrySendError::Full(back)) => Answer::Full(back),
        Err(tokio::sync::mpsc::error::TrySendError::Closed(back)) => Answer::Closed(back),
    }
}

/// `tokio::sync::mpsc::Sender::clone`: another sender of the same channel. From now on neither
/// is the only one.
#[verifier::external_body]
fn another_sender(tx: &mut tokio::sync::mpsc::Sender<SystemEvent>) -> (other:
    tokio::sync::mpsc::Sender<SystemEvent>)
    ensures
        task_sender(*final(tx)) == (SenderModel { sole: false, ..task_sender(*old(tx)) }),
        task_sender(other) == (SenderModel {
            sent: Seq::empty(),
            sole: false,
            ..task_sender(*old(tx))
        }),
        task_attempts(*final(tx)) == task_attempts(*old(tx)),
        task_attempts(other) == Seq::<SystemEvent>::empty(),
        task_deserted(*final(tx)) == task_deserted(*old(tx)),
        task_deserted(other) == task_deserted(*old(tx)),
{
    tx.clone()
}

/// `tokio::runtime::Handle::try_current`: the runtime that the calling thread is in, if any.
/// Nothing is said of the result, which rests on where the call is made.
#[verifier::external_body]
fn current_runtime() -> Option<tokio::runtime::Handle> {
    tokio::runtime::Handle::try_current().ok()
}

/// `tokio::sync::mpsc::Receiver::poll_recv`: never waits. If it is ready, it returns the next
/// value of the traffic, or `None` if the traffic ends here. It may be pending at any time; then the
/// waker of the task that polls is the one to be woken when another try is worth it.
#[verifier::external_body]
fn poll_event(
    rx: &mut tokio::sync::mpsc::Receiver<SystemEvent>,
    cx: &mut core::task::Context<'_>,
) -> (polled: Polled)
    ensures
        match polled {
            Polled::Ready(event) => event == task_receiver(*old(rx)).upcoming() && task_receiver(
                *final(rx),
            ) == task_receiver(*old(rx)).after(event),
            Polled::Pending => task_receiver(*final(rx)) == task_receiver(*old(rx))
                && waker_to_wake(*final(rx)) == Some(waker_of(*old(cx))),
        },
{
    match rx.poll_recv(cx) {
        core::task::Poll::Ready(event) => Polled::Ready(event),
        core::task::Poll::Pending => Polled::Pending,
    }
}

/// Whether the next event is there.
pub enum Polled {
    /// It is: the event, or `None` if none will ever come.
    Ready(Option<SystemEvent>),
    /// Not yet. The task is woken when another try is worth it.
    Pending,
}

/// The sending half of a channel for tasks.
pub struct AsyncEventSender {
    tx: tokio::sync::mpsc::Sender<SystemEvent>,
}

/// The receiving half of a channel for tasks.
pub struct AsyncEventReceiver {
    rx: tokio::sync::mpsc::Receiver<SystemEvent>,
}

impl View for AsyncEventSender {
    type V = SenderModel<SystemEvent>;

    closed spec fn view(&self) -> SenderModel<SystemEvent> {
        task_sender(self.tx)
    }
}

impl View for AsyncEventReceiver {
    type V = ReceiverModel<SystemEvent>;

    closed spec fn view(&self) -> ReceiverModel<SystemEvent> {
        task_receiver(self.rx)
    }
}

/// Creates a channel for tasks that holds up to `cap` events.
pub fn channel(cap: usize) -> (ends: (AsyncEventSender, AsyncEventReceiver))
    requires
        0 < cap <= usize::MAX / 8,
    ensures
        ends.0@.valid(),
        ends.0@.sent == Seq::<SystemEvent>::empty(),
        ends.0@.bound == Some(cap as nat),
        ends.0.attempts() == Seq::<SystemEvent>::empty(),
        ends.1@.valid(),
        ends.1@.received == Seq::<SystemEvent>::empty(),
        ends.1@.traffic == ends.0@.traffic,
{
    let (tx, rx) = task_channel(cap);
    (AsyncEventSender { tx }, AsyncEventReceiver { rx })
}

/// An event that waits for room in its channel. A task of the runtime is to send it.
pub struct WaitingSend {
    runtime: tokio::runtime::Handle,
    tx: tokio::sync::mpsc::Sender<SystemEvent>,
    event: SystemEvent,
}

impl WaitingSend {
    /// The runtime to spawn the task on.
    pub closed spec fn runtime(&self) -> tokio::runtime::Handle {
        self.runtime
    }

    /// The sender for the task.
    pub closed spec fn sender(&self) -> SenderModel<SystemEvent> {
        task_sender(self.tx)
    }

    /// The event to send.
    pub closed spec fn event(&self) -> SystemEvent {
        self.event
    }

    /// What the task needs.
    pub fn into_parts(self) -> (parts: (
        tokio::runtime::Handle,
        tokio::sync::mpsc::Sender<SystemEvent>,
        SystemEvent,
    ))
        ensures
            parts.0 == self.runtime(),
            task_sender(parts.1) == self.sender(),
            parts.2 == self.event(),
    {
        (self.runtime, self.tx, self.event)
    }
}

/// What becomes of an event that is sent.
pub enum Delivery {
    /// It was sent at once or lost.
    Attempted(Attempt),
    /// A task is to send it.
    Spawn(WaitingSend),
}

/// What sending an event in or outside a runtime does to the sending end. Outside, the event is
/// given to the channel; it is lost only where the channel may be full or is deserted, and an event
/// that is lost holds up nothing.
pub open spec fn delivered(
    before: AsyncEventSender,
    runtime: Option<tokio::runtime::Handle>,
    event: SystemEvent,
    after: AsyncEventSender,
    delivery: Delivery,
) -> bool {
    &&& after.deserted() == before.deserted()
    &&& match runtime {
        Some(handle) => {
            &&& delivery matches Delivery::Spawn(waiting)
            &&& waiting.runtime() == handle
            &&& waiting.event() == event
            &&& waiting.sender().traffic == before@.traffic
            &&& waiting.sender().bound == before@.bound
            &&& after@ == (SenderModel { sole: false, ..before@ })
            &&& after.attempts() == before.attempts()
        },
        None => {
            &&& delivery matches Delivery::Attempted(attempt)
            &&& after.attempts() == before.attempts().push(event)
            &&& after@ == match attempt {
                Attempt::Sent => before@.push(event),
                _ => before@,
            }
            &&& attempt == Attempt::Full && before@.sole ==> (before@.bound matches Some(bound)
                && before@.sent.len() >= bound)
            &&& attempt == Attempt::Closed ==> before.deserted()
            &&& attempt != Attempt::Sent ==> event.holds_up_nothing()
        },
    }
}

/// Outside a runtime an event is kept while there is room: an only sender whose channel is not
/// deserted loses none of its first events, as many as the channel holds, and those that it has
/// sent before stay.
pub proof fn event_is_kept_while_there_is_room(
    before: AsyncEventSender,
    event: SystemEvent,
    after: AsyncEventSender,
    delivery: Delivery,
)
    requires
        delivered(before, None, event, after, delivery),
        before@.sole,
        !before.deserted(),
        before@.bound matches Some(bound) && before@.sent.len() < bound,
    ensures
        delivery == Delivery::Attempted(Attempt::Sent),
        after@ == before@.push(event),
{
}

impl AsyncEventSender {
    /// The events that this end has given to the channel to be sent at once, the oldest first.
    pub closed spec fn attempts(&self) -> Seq<SystemEvent> {
        task_attempts(self.tx)
    }

    /// Whether the receiving end goes while the channel still has a sending end.
    pub closed spec fn deserted(&self) -> bool {
        task_deserted(self.tx)
    }

    /// Sends an event. In a runtime a task is to send it, and waits for room if need be. Outside
    /// there is nothing to wait with: the event is sent at once or lost.
    pub fn send(&mut self, event: SystemEvent) -> (delivery: Delivery)
        ensures
            exists|runtime: Option<tokio::runtime::Handle>| #[trigger]
                delivered(*old(self), runtime, event, *final(self), delivery),
            old(self)@.valid() && final(self)@.sole ==> final(self)@.valid(),
    {
        let runtime = current_runtime();
        self.send_on(runtime, event)
    }

    /// Sends an event as from a thread that is in `runtime`, or in none.
    pub fn send_on(&mut self, runtime: Option<tokio::runtime::Handle>, event: SystemEvent) -> (delivery:
        Delivery)
        ensures
            delivered(*old(self), runtime, event, *final(self), delivery),
            old(self)@.valid() && final(self)@.sole ==> final(self)@.valid(),
    {
        match runtime {
            Some(handle) => {
                let tx = another_sender(&mut self.tx);
                Delivery::Spawn(WaitingSend { runtime: handle, tx, event })
            },
            None => Delivery::Attempted(
                match try_send_event(&mut self.tx, event) {
                    Answer::Sent => Attempt::Sent,
                    Answer::Full(back) => {
                        back.give_up();
                        Attempt::Full
                    },
                    Answer::Closed(back) => {
                        back.give_up();
                        Attempt::Closed
                    },
                },
            ),
        }
    }
}

impl AsyncEventReceiver {
    /// The waker that is to be woken when another try is worth it, if any.
    pub closed spec fn to_wake(&self) -> Option<core::task::Waker> {
        waker_to_wake(self.rx)
    }

    /// Takes the next event if it is there; else the task in `cx` is woken when it is worth
    /// another try.
    pub fn poll_recv(&mut self, cx: &mut core::task::Context<'_>) -> (polled: Polled)
        ensures
            match polled {
                Polled::Ready(event) => event == old(self)@.upcoming() && final(self)@ == old(
                    self,
                )@.after(event),
                Polled::Pending => final(self)@ == old(self)@ && final(self).to_wake() == Some(
                    waker_of(*old(cx)),
                ),
            },
            old(self)@.valid() ==> final(self)@.valid(),
    {
        poll_event(&mut self.rx, cx)
    }
}

/// A new channel for tasks is empty, has one sender, and holds as many events as asked.
pub proof fn new_task_channel_is_empty(
    cap: usize,
    ends: (AsyncEventSender, AsyncEventReceiver),
)
    requires
        call_ensures(channel, (cap,), ends),
    ensures
        ends.0@.sent.len() == 0,
        ends.0.attempts().len() == 0,
        ends.1@.received.len() == 0,
        ends.0@.traffic == ends.1@.traffic,
        ends.0@.bound == Some(cap as nat),
        ends.0@.sole,
{
}

/// In a runtime, the task that is to be spawned on that very runtime gets the event that was given,
/// whichever it is, and a sender of the same channel to send it with. Nothing is sent meanwhile.
pub proof fn task_is_given_the_event(
    sender: &mut AsyncEventSender,
    runtime: tokio::runtime::Handle,
    event: SystemEvent,
    delivery: Delivery,
)
    requires
        call_ensures(AsyncEventSender::send_on, (sender, Some(runtime), event), delivery),
    ensures
        delivery is Spawn,
        forall|parts: (tokio::runtime::Handle, tokio::sync::mpsc::Sender<SystemEvent>, SystemEvent)|
            #[trigger] call_ensures(WaitingSend::into_parts, (delivery->Spawn_0,), parts) ==> {
                &&& parts.0 == runtime
                &&& parts.2 == event
                &&& task_sender(parts.1).traffic == old(sender)@.traffic
                &&& task_sender(parts.1).bound == old(sender)@.bound
            },
        final(sender)@.sent == old(sender)@.sent,
        final(sender)@.traffic == old(sender)@.traffic,
        final(sender)@.bound == old(sender)@.bound,
        final(sender).attempts() == old(sender).attempts(),
{
}

/// Outside a runtime, the event that was given, whichever it is, is given to the channel at once.
/// It is sent, or lost; it is lost for want of room only if there may be none, and for want of a
/// receiver only if that one goes before the senders do. A handle in a lost event lets its
/// transition proceed.
pub proof fn event_is_sent_at_once_or_lost(
    sender: &mut AsyncEventSender,
    event: SystemEvent,
    delivery: Delivery,
)
    requires
        call_ensures(AsyncEventSender::send_on, (sender, None, event), delivery),
    ensures
        delivery is Attempted,
        final(sender).attempts().len() == old(sender).attempts().len() + 1,
        final(sender).attempts().last() == event,
        final(sender).attempts().drop_last() == old(sender).attempts(),
        final(sender)@.traffic == old(sender)@.traffic,
        final(sender)@.bound == old(sender)@.bound,
        final(sender)@.sole == old(sender)@.sole,
        final(sender).deserted() == old(sender).deserted(),
        delivery->Attempted_0 is Sent ==> final(sender)@.sent == old(sender)@.sent.push(event),
        delivery->Attempted_0 !is Sent ==> final(sender)@.sent == old(sender)@.sent,
        delivery->Attempted_0 is Full && old(sender)@.sole ==> (old(sender)@.bound matches Some(
            bound,
        ) && old(sender)@.sent.len() >= bound),
        delivery->Attempted_0 is Closed ==> old(sender).deserted(),
        delivery->Attempted_0 !is Sent ==> (event matches SystemEvent::ShuttingDown(handle)
            ==> handle.is_live() ==> handle.decisions() == seq![ShutdownDecision::Allow]),
        delivery->Attempted_0 !is Sent ==> (event matches SystemEvent::WillHibernate(handle)
            ==> handle.is_live() ==> handle.decisions() == seq![ShutdownDecision::Allow]),
{
    assert(final(sender).attempts().drop_last() =~= old(sender).attempts());
}

/// Wherever it is called from, sending hands on the event that was given: it is given to the channel
/// at once, or a task gets it and a sender of the same channel.
pub proof fn event_is_handed_on_as_given(
    sender: &mut AsyncEventSender,
    event: SystemEvent,
    delivery: Delivery,
)
    requires
        call_ensures(AsyncEventSender::send, (sender, event), delivery),
    ensures
        delivery is Attempted ==> final(sender).attempts() == old(sender).attempts().push(event),
        delivery matches Delivery::Attempted(attempt) ==> (attempt is Sent ==> final(sender)@.sent
            == old(sender)@.sent.push(event)) && (attempt !is Sent ==> final(sender)@.sent == old(sender)@.sent),
        delivery matches Delivery::Spawn(waiting) ==> waiting.event() == event
            && waiting.sender().traffic == old(sender)@.traffic && final(sender)@.sent == old(sender)@.sent && final(sender).attempts() == old(sender).attempts(),
{
}

/// A task that asks gets the next event that was sent, or learns that none will come, or is the one
/// to be woken; only an event that it gets is taken.
pub proof fn task_gets_the_next_event_or_is_woken(
    receiver: &mut AsyncEventReceiver,
    cx: &mut core::task::Context<'_>,
    polled: Polled,
)
    requires
        call_ensures(AsyncEventReceiver::poll_recv, (receiver, cx), polled),
    ensures
        final(receiver)@.traffic == old(receiver)@.traffic,
        polled matches Polled::Ready(Some(event)) ==> old(receiver)@.received.len() < old(receiver)@.traffic.len() && event == old(receiver)@.traffic[old(receiver)@.received.len() as int]
            && final(receiver)@.received == old(receiver)@.received.push(event),
        polled matches Polled::Ready(None) ==> old(receiver)@.received.len() >= old(receiver)@.traffic.len() && final(receiver)@.received == old(receiver)@.received,
        polled is Pending ==> final(receiver)@.received == old(receiver)@.received && final(receiver).to_wake() == Some(waker_of(*old(cx))),
{
}

} // verus!
