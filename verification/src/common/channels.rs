//! The channels of `std` and `tokio` that the library uses, and what it relies on of them, in
//! terms of the models of their ends. Models exist for proofs only; no code that runs can ask for
//! one. The calls that are marked so do not panic: their documentation knows of no panic.
use core::time::Duration;
use vstd::prelude::*;

use crate::common::model::{ReceiverModel, SenderModel};
use crate::common::shutdown::ShutdownDecision;
use crate::common::SystemEvent;

verus! {

/// `std::sync::mpsc::Sender`: the end that sends and never waits.
#[verifier::external_type_specification]
#[verifier::external_body]
#[verifier::reject_recursive_types(T)]
pub struct ExSender<T>(std::sync::mpsc::Sender<T>);

/// `std::sync::mpsc::SyncSender`: the end that sends on a channel with a bound.
#[verifier::external_type_specification]
#[verifier::external_body]
#[verifier::reject_recursive_types(T)]
pub struct ExSyncSender<T>(std::sync::mpsc::SyncSender<T>);

/// `std::sync::mpsc::Receiver`: the end that receives.
#[verifier::external_type_specification]
#[verifier::external_body]
#[verifier::reject_recursive_types(T)]
pub struct ExReceiver<T>(std::sync::mpsc::Receiver<T>);

/// `tokio::sync::oneshot::Sender`: the end that sends one value to a task.
#[verifier::external_type_specification]
#[verifier::external_body]
#[verifier::reject_recursive_types(T)]
pub struct ExOneshotSender<T>(tokio::sync::oneshot::Sender<T>);

/// What a sending end of the event channel holds.
pub uninterp spec fn event_sender(
    tx: std::sync::mpsc::Sender<SystemEvent>,
) -> SenderModel<SystemEvent>;

/// The values that a sending end of the event channel got back, since there was no receiver left
/// for them, the oldest first.
pub uninterp spec fn event_refused(tx: std::sync::mpsc::Sender<SystemEvent>) -> Seq<SystemEvent>;

/// What the receiving end of the event channel holds.
pub uninterp spec fn event_receiver(
    rx: std::sync::mpsc::Receiver<SystemEvent>,
) -> ReceiverModel<SystemEvent>;

/// How often the receiving end of the event channel has been asked for an event without waiting.
pub uninterp spec fn event_polls(rx: std::sync::mpsc::Receiver<SystemEvent>) -> nat;

/// What a sending end of a decision channel holds.
pub uninterp spec fn decision_sender(
    tx: std::sync::mpsc::SyncSender<ShutdownDecision>,
) -> SenderModel<ShutdownDecision>;

/// What the receiving end of a decision channel holds.
pub uninterp spec fn decision_receiver(
    rx: std::sync::mpsc::Receiver<ShutdownDecision>,
) -> ReceiverModel<ShutdownDecision>;

/// The waits that have been made on the receiving end of a decision channel, each by the longest
/// time that it was to take, the oldest first.
pub uninterp spec fn decision_waits(
    rx: std::sync::mpsc::Receiver<ShutdownDecision>,
) -> Seq<Duration>;

/// The decision that goes out through a one-shot sender in its life: what its one `send` was
/// given, or `None` if it is never used.
pub uninterp spec fn oneshot_verdict(
    tx: tokio::sync::oneshot::Sender<ShutdownDecision>,
) -> Option<ShutdownDecision>;

/// The length of a duration, the number that `Duration::as_nanos` gives for it.
pub uninterp spec fn nanoseconds(duration: Duration) -> nat;

/// `Duration::from_secs`: as many seconds as asked for.
pub assume_specification[ Duration::from_secs ](secs: u64) -> (duration: Duration)
    ensures
        nanoseconds(duration) == secs * 1_000_000_000,
;

/// `std::sync::mpsc::channel`: the two ends of one new channel without a bound. Nothing has
/// been sent or taken, and the sender is the only one.
#[verifier::external_body]
pub(crate) fn event_channel() -> (ends: (
    std::sync::mpsc::Sender<SystemEvent>,
    std::sync::mpsc::Receiver<SystemEvent>,
))
    ensures
        event_sender(ends.0).fresh(),
        event_sender(ends.0).bound is None,
        event_refused(ends.0) == Seq::<SystemEvent>::empty(),
        event_receiver(ends.1).received == Seq::<SystemEvent>::empty(),
        event_receiver(ends.1).traffic == event_sender(ends.0).traffic,
        event_polls(ends.1) == 0,
{
    std::sync::mpsc::channel()
}

/// `Sender::send`: the value takes the next place in the channel's traffic. It never waits.
/// If the receiver is gone the value comes back, and so does every later one; it counts as sent
/// all the same, since nobody is left to see the difference.
#[verifier::external_body]
pub(crate) fn send_event(
    tx: &mut std::sync::mpsc::Sender<SystemEvent>,
    event: SystemEvent,
) -> (refused: Option<SystemEvent>)
    requires
        event_sender(*old(tx)).sole,
    ensures
        event_sender(*final(tx)) == event_sender(*old(tx)).push(event),
        event_sender(*final(tx)).valid(),
        refused matches Some(back) ==> back == event,
        event_refused(*old(tx)).len() > 0 ==> refused is Some,
        event_refused(*final(tx)) == match refused {
            Some(back) => event_refused(*old(tx)).push(back),
            None => event_refused(*old(tx)),
        },
    no_unwind
{
    match tx.send(event) {
        Ok(()) => None,
        Err(std::sync::mpsc::SendError(back)) => Some(back),
    }
}

/// Dropping a `Sender` that is the only one of its channel: nothing follows what it has sent.
#[verifier::external_body]
pub(crate) fn hang_up(slot: &mut Option<std::sync::mpsc::Sender<SystemEvent>>)
    requires
        *old(slot) matches Some(tx) ==> event_sender(tx).sole,
    ensures
        *final(slot) is None,
        *old(slot) matches Some(tx) ==> event_sender(tx).traffic == event_sender(tx).sent,
{
    *slot = None;
}

/// `Receiver::recv`: waits for the next value, and gives up only when the channel has hung up
/// and all that was sent has been taken. So it returns the next value of the traffic if there
/// is one, and `None` if the traffic ends here.
#[verifier::external_body]
pub(crate) fn receive_event(rx: &mut std::sync::mpsc::Receiver<SystemEvent>) -> (event: Option<
    SystemEvent,
>)
    ensures
        event == event_receiver(*old(rx)).upcoming(),
        event_receiver(*final(rx)) == event_receiver(*old(rx)).after(event),
        event_polls(*final(rx)) == event_polls(*old(rx)),
    no_unwind
{
    rx.recv().ok()
}

/// `Receiver::try_recv`: never waits. What it returns is the next value of the traffic. It may
/// return `None` at any time: whether the next value has been sent yet is up to the sender. Each
/// call counts as one more.
#[verifier::external_body]
pub(crate) fn try_receive_event(
    rx: &mut std::sync::mpsc::Receiver<SystemEvent>,
) -> (event: Option<SystemEvent>)
    ensures
        event is Some ==> event == event_receiver(*old(rx)).upcoming(),
        event_receiver(*final(rx)) == event_receiver(*old(rx)).after(event),
        event_polls(*final(rx)) == event_polls(*old(rx)) + 1,
    no_unwind
{
    rx.try_recv().ok()
}

/// `std::sync::mpsc::sync_channel`: the two ends of one new channel that holds up to `bound`
/// values. Nothing has been sent or taken, and the sender is the only one.
#[verifier::external_body]
pub(crate) fn decision_channel(bound: usize) -> (ends: (
    std::sync::mpsc::SyncSender<ShutdownDecision>,
    std::sync::mpsc::Receiver<ShutdownDecision>,
))
    ensures
        decision_sender(ends.0).fresh(),
        decision_sender(ends.0).bound == Some(bound as nat),
        decision_receiver(ends.1).received == Seq::<ShutdownDecision>::empty(),
        decision_receiver(ends.1).traffic == decision_sender(ends.0).traffic,
        decision_waits(ends.1) == Seq::<Duration>::empty(),
{
    std::sync::mpsc::sync_channel(bound)
}

/// `SyncSender::send`: the value takes the next place in the channel's traffic. With room left
/// for it the call does not wait. If the receiver is gone the value is handed back and dropped
/// here, and counts as sent all the same.
#[verifier::external_body]
pub(crate) fn send_decision(
    tx: &mut std::sync::mpsc::SyncSender<ShutdownDecision>,
    decision: ShutdownDecision,
)
    requires
        decision_sender(*old(tx)).sole,
        decision_sender(*old(tx)).bound matches Some(bound)
            && decision_sender(*old(tx)).sent.len() < bound,
    ensures
        decision_sender(*final(tx)) == decision_sender(*old(tx)).push(decision),
        decision_sender(*final(tx)).valid(),
    opens_invariants none
    no_unwind
{
    let _ = tx.send(decision);
}

/// Dropping a `SyncSender` that is the only one of its channel: nothing follows what it has sent.
#[verifier::external_body]
pub(crate) fn hang_up_decisions(slot: &mut Option<std::sync::mpsc::SyncSender<ShutdownDecision>>)
    requires
        *old(slot) matches Some(tx) ==> decision_sender(tx).sole,
    ensures
        *final(slot) is None,
        *old(slot) matches Some(tx) ==> decision_sender(tx).traffic == decision_sender(tx).sent,
    opens_invariants none
    no_unwind
{
    *slot = None;
}

/// `tokio::sync::oneshot::Sender::send`: uses up the sender on the value, without waiting. If the
/// receiver is gone the value comes back; it counts as sent all the same. The call has no panic of
/// its own; it may wake the receiving task, whose waker is taken not to panic either.
#[verifier::external_body]
pub(crate) fn send_oneshot(
    tx: tokio::sync::oneshot::Sender<ShutdownDecision>,
    decision: ShutdownDecision,
) -> (outcome: Result<(), ShutdownDecision>)
    ensures
        match outcome {
            Ok(_) => oneshot_verdict(tx) == Some(decision),
            Err(back) => back == decision && oneshot_verdict(tx) == Some(back),
        },
    opens_invariants none
    no_unwind
{
    tx.send(decision)
}

/// `Receiver::recv_timeout`: waits for the next value, at most for `timeout`. What it returns is
/// the next value of the traffic; `None` stands for the end of the wait and for a channel that
/// has hung up. Each call is one more wait on the receiver. How long it takes is not said.
#[verifier::external_body]
pub(crate) fn await_decision(
    rx: &mut std::sync::mpsc::Receiver<ShutdownDecision>,
    timeout: Duration,
) -> (decision: Option<ShutdownDecision>)
    ensures
        decision is Some ==> decision == decision_receiver(*old(rx)).upcoming(),
        decision_receiver(*final(rx)) == decision_receiver(*old(rx)).after(decision),
        decision_waits(*final(rx)) == decision_waits(*old(rx)).push(timeout),
{
    rx.recv_timeout(timeout).ok()
}

} // verus!
