//! The handle by which an application lets a shutdown proceed, and the side that waits for it.
use core::time::Duration;
use vstd::prelude::*;

use crate::common;
use crate::common::channels;
use crate::common::channels::{
    await_decision, decision_channel, hang_up_decisions, send_decision, send_oneshot,
};
use crate::common::model::{ReceiverModel, SenderModel};
use crate::common::{EventSender, SystemEvent};

verus! {

/// What an application decides about a transition that waits for it.
#[derive(Clone, Copy, Debug, PartialEq, Eq, Structural)]
pub enum ShutdownDecision {
    /// The transition may proceed.
    Allow,
}

/// The sending end of a decision channel that still has room for its one decision.
#[verifier::inline]
pub open spec fn unused(tx: std::sync::mpsc::SyncSender<ShutdownDecision>) -> bool {
    channels::decision_sender(tx).fresh() && channels::decision_sender(tx).bound == Some(1nat)
}

/// All decisions that go out through a one-shot sender: one or none.
pub open spec fn oneshot_decisions(tx: tokio::sync::oneshot::Sender<ShutdownDecision>) -> Seq<
    ShutdownDecision,
> {
    match channels::oneshot_verdict(tx) {
        Some(decision) => seq![decision],
        None => Seq::empty(),
    }
}

/// The channel that carries the decision.
enum ShutdownHandleInner {
    Mpsc(std::sync::mpsc::SyncSender<ShutdownDecision>),
    Tokio(tokio::sync::oneshot::Sender<ShutdownDecision>),
}

/// Holds up a shutdown, restart or logout until `allow` is called. A handle that is dropped
/// without that call allows it too.
pub struct ShutdownHandle {
    inner: Option<ShutdownHandleInner>,
}

impl ShutdownHandle {
    #[verifier::type_invariant]
    spec fn inv(&self) -> bool {
        self.inner matches Some(ShutdownHandleInner::Mpsc(tx)) ==> unused(tx)
    }

    /// Whether the handle still owes its decision.
    pub closed spec fn is_live(&self) -> bool {
        self.inner is Some
    }

    /// All decisions that go out through the handle from now on.
    pub closed spec fn decisions(&self) -> Seq<ShutdownDecision> {
        match self.inner {
            Some(ShutdownHandleInner::Mpsc(tx)) => channels::decision_sender(tx).traffic,
            Some(ShutdownHandleInner::Tokio(tx)) => oneshot_decisions(tx),
            None => Seq::empty(),
        }
    }

    /// A handle together with the side that waits for its decision, for at most `timeout`.
    pub fn with_timeout(timeout: Duration) -> (pair: (ShutdownHandle, PendingDecision))
        ensures
            pair.0.is_live(),
            pair.1.decisions() == pair.0.decisions(),
            pair.1.timeout() == timeout,
            pair.1@.untouched(),
            !pair.1@.announced,
    {
        let (tx, rx) = decision_channel(1);
        (
            ShutdownHandle { inner: Some(ShutdownHandleInner::Mpsc(tx)) },
            PendingDecision::new(rx, timeout),
        )
    }

    /// A handle that sends its decision to a task.
    pub fn from_oneshot(tx: tokio::sync::oneshot::Sender<ShutdownDecision>) -> (handle:
        ShutdownHandle)
        ensures
            handle.is_live(),
            handle.decisions() == oneshot_decisions(tx),
    {
        ShutdownHandle { inner: Some(ShutdownHandleInner::Tokio(tx)) }
    }

    /// Lets the operating system proceed. This is the one decision of the handle; nothing
    /// follows it.
    pub fn allow(self)
        ensures
            self.is_live() ==> self.decisions() == seq![ShutdownDecision::Allow],
        no_unwind
    {
        let mut handle = self;
        handle.send_inner(ShutdownDecision::Allow);
    }

    /// Sends the decision if none has been sent yet, and gives up the channel.
    fn send_inner(&mut self, decision: ShutdownDecision)
        ensures
            decided(*old(self), decision, *final(self)),
        opens_invariants none
        no_unwind
    {
        proof {
            use_type_invariant(&*self);
        }
        let mut taken: Option<ShutdownHandleInner> = None;
        core::mem::swap(&mut taken, &mut self.inner);
        match taken {
            Some(ShutdownHandleInner::Mpsc(tx)) => {
                let mut tx = tx;
                send_decision(&mut tx, decision);
                let mut slot = Some(tx);
                hang_up_decisions(&mut slot);
            },
            Some(ShutdownHandleInner::Tokio(tx)) => {
                let _ = send_oneshot(tx, decision);
            },
            None => {},
        }
    }
}

/// Whether a handle has gone from `before` to `after` by being given `decision`: one that still
/// owed its decision sends this one and nothing after it; a spent one stays as it is.
pub open spec fn decided(
    before: ShutdownHandle,
    decision: ShutdownDecision,
    after: ShutdownHandle,
) -> bool {
    &&& !after.is_live()
    &&& after.decisions() == Seq::<ShutdownDecision>::empty()
    &&& if before.is_live() {
        before.decisions() == seq![decision]
    } else {
        after == before
    }
}

impl Drop for ShutdownHandle {
    /// A handle that goes without a decision allows, and that once.
    fn drop(&mut self)
        ensures
            decided(*old(self), ShutdownDecision::Allow, *final(self)),
        opens_invariants none
        no_unwind
    {
        self.send_inner(ShutdownDecision::Allow);
    }
}

/// A transition that waits for the application's decision.
pub struct PendingDecision {
    rx: std::sync::mpsc::Receiver<ShutdownDecision>,
    timeout: Duration,
    /// Whether the application has been told, kept for proofs.
    announced: Ghost<bool>,
    /// Whether it had been told before each wait so far, kept for proofs.
    told: Ghost<Seq<bool>>,
}

/// What a `PendingDecision` stands for.
#[verifier::ext_equal]
pub struct PendingModel {
    /// The end that receives the decision.
    pub channel: ReceiverModel<ShutdownDecision>,
    /// The longest time that the transition waits.
    pub timeout: Duration,
    /// The waits made so far, each by the longest time that it was to take.
    pub waits: Seq<Duration>,
    /// Whether the application has been told of the transition.
    pub announced: bool,
    /// Whether it had been told before each of those waits.
    pub told: Seq<bool>,
}

impl PendingModel {
    /// Nobody has waited yet, and no decision has been taken.
    pub open spec fn untouched(self) -> bool {
        &&& self.channel.received == Seq::<ShutdownDecision>::empty()
        &&& self.waits == Seq::<Duration>::empty()
        &&& self.told == Seq::<bool>::empty()
    }
}

impl View for PendingDecision {
    type V = PendingModel;

    closed spec fn view(&self) -> PendingModel {
        PendingModel {
            channel: channels::decision_receiver(self.rx),
            timeout: self.timeout,
            waits: channels::decision_waits(self.rx),
            announced: self.announced@,
            told: self.told@,
        }
    }
}

/// Whether a transition has gone from `before` to `after` by waiting once, for no longer than its
/// timeout, with `answer` as what came: the next decision, or none.
pub open spec fn waited(
    before: PendingModel,
    answer: Option<ShutdownDecision>,
    after: PendingModel,
) -> bool {
    &&& answer is Some ==> answer == before.channel.upcoming()
    &&& after == (PendingModel {
        channel: before.channel.after(answer),
        waits: before.waits.push(before.timeout),
        told: before.told.push(before.announced),
        ..before
    })
}

/// What becomes of a wait: the decision if one came, else the transition is allowed.
pub open spec fn outcome(answer: Option<ShutdownDecision>) -> ShutdownDecision {
    match answer {
        Some(given) => given,
        None => ShutdownDecision::Allow,
    }
}

/// Whether a transition has gone from `before` to `after` by waiting once, with `decision` as the
/// outcome.
pub open spec fn settled(
    before: PendingModel,
    decision: ShutdownDecision,
    after: PendingModel,
) -> bool {
    exists|answer: Option<ShutdownDecision>| #[trigger]
        waited(before, answer, after) && decision == outcome(answer)
}

/// Decides on what came of a wait: without a decision the transition is allowed.
pub fn resolve(answer: Option<ShutdownDecision>) -> (decision: ShutdownDecision)
    ensures
        decision == outcome(answer),
{
    match answer {
        Some(given) => given,
        None => ShutdownDecision::Allow,
    }
}

impl PendingDecision {
    /// Waits on the receiving end of a decision channel, of which the application has not been
    /// told yet.
    pub(crate) fn new(
        rx: std::sync::mpsc::Receiver<ShutdownDecision>,
        timeout: Duration,
    ) -> (pending: PendingDecision)
        ensures
            pending@ == (PendingModel {
                channel: channels::decision_receiver(rx),
                timeout,
                waits: channels::decision_waits(rx),
                announced: false,
                told: Seq::empty(),
            }),
    {
        PendingDecision { rx, timeout, announced: Ghost(false), told: Ghost(Seq::empty()) }
    }

    /// All decisions that the handle on the other side sends.
    pub open spec fn decisions(&self) -> Seq<ShutdownDecision> {
        self@.channel.traffic
    }

    /// The longest time that the transition waits.
    pub open spec fn timeout(&self) -> Duration {
        self@.timeout
    }

    /// Waits until the handle has sent its decision or the time is up. Without a decision the
    /// transition is allowed.
    pub fn wait(&mut self) -> (decision: ShutdownDecision)
        ensures
            settled(old(self)@, decision, final(self)@),
            decision == ShutdownDecision::Allow,
    {
        let answer = await_decision(&mut self.rx, self.timeout);
        self.told = Ghost(self.told@.push(self.announced@));
        assert(waited(old(self)@, answer, self@));
        resolve(answer)
    }
}

/// Tells the application of a transition, which from then on counts as announced.
pub(crate) fn announce(
    event_tx: &mut EventSender,
    event: SystemEvent,
    pending: &mut PendingDecision,
)
    ensures
        final(event_tx)@ == old(event_tx)@.push(event),
        final(event_tx)@.valid(),
        common::handed_back(old(event_tx).refused(), event, final(event_tx).refused()),
        final(event_tx).inv(),
        final(pending)@ == (PendingModel { announced: true, ..old(pending)@ }),
{
    event_tx.send(event);
    pending.announced = Ghost(true);
}

/// Whether a sending end has gone from `before` to `after` by reporting a shutdown that waits
/// for `pending`.
pub open spec fn shutdown_reported(
    before: SenderModel<SystemEvent>,
    after: SenderModel<SystemEvent>,
    pending: PendingDecision,
) -> bool {
    &&& after == before.push(after.sent.last())
    &&& after.sent.last() matches SystemEvent::ShuttingDown(handle)
    &&& handle.is_live()
    &&& pending.decisions() == handle.decisions()
    &&& pending@.announced
}

/// Reports that a shutdown has been requested. It waits for the application, for at most
/// `timeout`.
pub fn report_shutdown(event_tx: &mut EventSender, timeout: Duration) -> (pending: PendingDecision)
    ensures
        shutdown_reported(old(event_tx)@, final(event_tx)@, pending),
        final(event_tx)@.valid(),
        common::handed_back(
            old(event_tx).refused(),
            final(event_tx)@.sent.last(),
            final(event_tx).refused(),
        ),
        final(event_tx).inv(),
        pending.timeout() == timeout,
        pending@.untouched(),
{
    let (handle, mut pending) = ShutdownHandle::with_timeout(timeout);
    announce(event_tx, SystemEvent::ShuttingDown(handle), &mut pending);
    pending
}

/// Where a shutdown is reported, the application receives the very handle that the system waits
/// for, once it has taken all that was sent before: what that handle decides is what the system
/// is told.
pub proof fn application_receives_the_awaited_handle(
    before: SenderModel<SystemEvent>,
    after: SenderModel<SystemEvent>,
    pending: PendingDecision,
    rx: ReceiverModel<SystemEvent>,
)
    requires
        shutdown_reported(before, after, pending),
        after.valid(),
        rx.valid(),
        rx.traffic == after.traffic,
        rx.received.len() == before.sent.len(),
    ensures
        rx.upcoming() matches Some(SystemEvent::ShuttingDown(handle)) && handle.is_live()
            && handle.decisions() == pending.decisions(),
{
    assert(after.traffic[before.sent.len() as int] == after.sent.last());
}

/// A shutdown that nobody listens for is not held up: where the event that reports it came back,
/// the decision to allow it is there to be taken.
pub proof fn unheard_shutdown_is_not_held_up(
    before: SenderModel<SystemEvent>,
    event_tx: EventSender,
    pending: PendingDecision,
)
    requires
        event_tx.inv(),
        shutdown_reported(before, event_tx@, pending),
        event_tx.refused().contains(event_tx@.sent.last()),
        pending@.untouched(),
    ensures
        pending.decisions() == seq![ShutdownDecision::Allow],
        pending@.channel.upcoming() == Some(ShutdownDecision::Allow),
{
    let i = choose|i: int|
        0 <= i < event_tx.refused().len() && event_tx.refused()[i] == event_tx@.sent.last();
    assert(event_tx.refused()[i].holds_up_nothing());
}

/// Only the first decision counts: a handle that has been given one sends it and no other, and is
/// not changed by a second.
pub proof fn only_the_first_decision_counts(
    before: ShutdownHandle,
    first: ShutdownDecision,
    between: ShutdownHandle,
    second: ShutdownDecision,
    after: ShutdownHandle,
)
    requires
        decided(before, first, between),
        decided(between, second, after),
    ensures
        before.is_live() ==> before.decisions() == seq![first],
        after == between,
        after.decisions() == Seq::<ShutdownDecision>::empty(),
{
}

/// Dropping a handle that still owes its decision is the same to the waiting side as allowing:
/// one decision to allow, and then nothing more. A spent handle says nothing when it is dropped.
pub proof fn dropped_handle_allows_once(
    handle: ShutdownHandle,
    gone: ShutdownHandle,
    pending: PendingDecision,
)
    requires
        decided(handle, ShutdownDecision::Allow, gone),
        pending.decisions() == handle.decisions(),
        pending@.untouched(),
    ensures
        handle.is_live() ==> pending.decisions() == seq![ShutdownDecision::Allow]
            && pending@.channel.upcoming() == Some(ShutdownDecision::Allow)
            && pending@.channel.after(Some(ShutdownDecision::Allow)).upcoming() is None,
        !handle.is_live() ==> pending.decisions() == Seq::<ShutdownDecision>::empty(),
{
}

/// A handle is heard exactly once, whichever way it ends: its decision comes, and after it the
/// channel has nothing more.
pub proof fn handle_is_heard_once(handle: ShutdownHandle, pending: PendingDecision)
    requires
        pending.decisions() == handle.decisions(),
        handle.decisions() == seq![ShutdownDecision::Allow],
        pending@.untouched(),
    ensures
        pending@.channel.upcoming() == Some(ShutdownDecision::Allow),
        pending@.channel.after(Some(ShutdownDecision::Allow)).upcoming() is None,
{
}

/// A new handle owes its decision, and the side that comes with it waits for that very decision,
/// for as long as asked; nobody has waited yet.
pub proof fn new_handle_is_waited_for(timeout: Duration, pair: (ShutdownHandle, PendingDecision))
    requires
        call_ensures(ShutdownHandle::with_timeout, (timeout,), pair),
    ensures
        pair.0.is_live(),
        pair.1@.channel.traffic == pair.0.decisions(),
        pair.1@.channel.received.len() == 0,
        pair.1@.timeout == timeout,
        pair.1@.waits.len() == 0,
        pair.1@.told.len() == 0,
        !pair.1@.announced,
{
}

/// A handle of a task owes its decision, and what it decides goes out through the task's channel.
pub proof fn handle_of_a_task_decides_through_it(
    tx: tokio::sync::oneshot::Sender<ShutdownDecision>,
    handle: ShutdownHandle,
)
    requires
        call_ensures(ShutdownHandle::from_oneshot, (tx,), handle),
    ensures
        handle.is_live(),
        channels::oneshot_verdict(tx) is None ==> handle.decisions().len() == 0,
        channels::oneshot_verdict(tx) matches Some(decision) ==> handle.decisions() == seq![
            decision,
        ],
{
}

/// Allowing is the one decision of a handle.
pub proof fn allowing_is_the_only_decision(handle: ShutdownHandle)
    requires
        call_ensures(ShutdownHandle::allow, (handle,), ()),
        handle.is_live(),
    ensures
        handle.decisions().len() == 1,
        handle.decisions()[0] == ShutdownDecision::Allow,
{
}

/// A decision stands as it was given; where there is none, the transition is allowed.
pub proof fn missing_decision_allows(
    answer: Option<ShutdownDecision>,
    decision: ShutdownDecision,
)
    requires
        call_ensures(resolve, (answer,), decision),
    ensures
        answer matches Some(given) ==> decision == given,
        answer is None ==> decision == ShutdownDecision::Allow,
{
}

/// A wait is made once, for no longer than the timeout; it takes the next decision and returns it,
/// or takes none and allows. Nothing else changes.
pub proof fn wait_is_made_once(pending: &mut PendingDecision, decision: ShutdownDecision)
    requires
        call_ensures(PendingDecision::wait, (pending,), decision),
    ensures
        final(pending)@.waits == old(pending)@.waits.push(old(pending)@.timeout),
        final(pending)@.told == old(pending)@.told.push(old(pending)@.announced),
        final(pending)@.timeout == old(pending)@.timeout,
        final(pending)@.announced == old(pending)@.announced,
        final(pending)@.channel.traffic == old(pending)@.channel.traffic,
        ({
            let taken = old(pending)@.channel.received;
            ||| final(pending)@.channel.received == taken && decision == ShutdownDecision::Allow
            ||| taken.len() < old(pending)@.channel.traffic.len() && decision == old(pending)@.channel.traffic[taken.len() as int] && final(pending)@.channel.received
                == taken.push(decision)
        }),
{
}

/// A shutdown is reported by one event more, which carries a handle that still owes its decision;
/// what is then waited for is the decision of that handle, for as long as asked. The application
/// has been told, and nobody has waited yet.
pub proof fn shutdown_is_reported_with_its_handle(
    event_tx: &mut EventSender,
    timeout: Duration,
    pending: PendingDecision,
)
    requires
        call_ensures(report_shutdown, (event_tx, timeout), pending),
    ensures
        final(event_tx)@.sent.len() == old(event_tx)@.sent.len() + 1,
        final(event_tx)@.sent.drop_last() == old(event_tx)@.sent,
        final(event_tx)@.traffic == old(event_tx)@.traffic,
        final(event_tx)@.sent.last() matches SystemEvent::ShuttingDown(handle) && handle.is_live()
            && pending@.channel.traffic == handle.decisions(),
        pending@.channel.received.len() == 0,
        pending@.timeout == timeout,
        pending@.waits.len() == 0,
        pending@.told.len() == 0,
        pending@.announced,
{
    assert(final(event_tx)@.sent.drop_last() =~= old(event_tx)@.sent);
}

} // verus!
