//! The end of an application on macOS, and the delegate that was there before.
//!
//! A request to terminate is reported as `ShuttingDown` and answered with "later". Another
//! thread waits for the application and then replies that it may terminate.
use core::time::Duration;
use vstd::prelude::*;

use crate::common::channels;
use crate::common::shutdown as common;
use crate::common::shutdown::{report_shutdown, PendingDecision, ShutdownDecision};
use crate::common::{EventSender, SystemEvent};

verus! {

/// The longest time in seconds that termination waits for the application.
pub const SHUTDOWN_TIMEOUT_SECS: u64 = 10;

/// What a delegate answers to a request to terminate.
#[derive(Clone, Copy, Debug, PartialEq, Eq, Structural)]
pub enum TerminateReply {
    Cancel,
    Now,
    Later,
}

/// Handles `applicationShouldTerminate:`. The answer is always "later"; what is then to be
/// waited for is returned with it.
pub fn application_should_terminate(event_tx: &mut EventSender) -> (answer: (
    TerminateReply,
    PendingDecision,
))
    ensures
        answer.0 == TerminateReply::Later,
        common::shutdown_reported(old(event_tx)@, final(event_tx)@, answer.1),
        final(event_tx)@.valid(),
        crate::common::handed_back(
            old(event_tx).refused(),
            final(event_tx)@.sent.last(),
            final(event_tx).refused(),
        ),
        final(event_tx).inv(),
        channels::nanoseconds(answer.1.timeout()) == 10_000_000_000,
        answer.1@.untouched(),
{
    let pending = report_shutdown(event_tx, Duration::from_secs(SHUTDOWN_TIMEOUT_SECS));
    (TerminateReply::Later, pending)
}

/// Waits once for the application, for no longer than the pending decision says, and then says
/// whether termination proceeds. It always does.
pub fn termination_proceeds(pending: &mut PendingDecision) -> (proceed: bool)
    ensures
        proceed,
        common::settled(old(pending)@, ShutdownDecision::Allow, final(pending)@),
{
    match pending.wait() {
        ShutdownDecision::Allow => true,
    }
}

/// Whether links to open go on to the previous delegate, given by its address; 0 if there was
/// none. It is not asked whether it responds: methods added at run time may go unseen.
pub fn forwards_open_urls(previous: usize) -> (forwards: bool)
    ensures
        forwards == (previous != 0),
{
    previous != 0
}

/// The object that takes a message which the delegate does not handle itself: the previous
/// delegate if it responds to the message, else none.
pub open spec fn forwarding_target(previous: usize, previous_responds: bool) -> usize {
    if previous != 0 && previous_responds {
        previous
    } else {
        0
    }
}

/// Handles `forwardingTargetForSelector:`.
pub fn forwarding_target_for_selector(previous: usize, previous_responds: bool) -> (target: usize)
    ensures
        target == forwarding_target(previous, previous_responds),
{
    if previous != 0 {
        if previous_responds {
            return previous;
        }
    }
    0
}

/// Whether the delegate responds to a message, by itself or through the previous one.
pub open spec fn responds(self_responds: bool, previous: usize, previous_responds: bool) -> bool {
    self_responds || (previous != 0 && previous_responds)
}

/// Handles `respondsToSelector:`.
pub fn responds_to_selector(self_responds: bool, previous: usize, previous_responds: bool) -> (r:
    bool)
    ensures
        r == responds(self_responds, previous, previous_responds),
{
    if self_responds {
        return true;
    }
    previous != 0 && previous_responds
}

/// A message is answered for exactly if the delegate handles it itself or there is an object
/// that takes it; so no message that is announced goes astray, and none is hidden from the
/// previous delegate.
pub proof fn responds_iff_handled_or_forwarded(
    self_responds: bool,
    previous: usize,
    previous_responds: bool,
)
    ensures
        responds(self_responds, previous, previous_responds) <==> self_responds
            || forwarding_target(previous, previous_responds) != 0,
{
}

/// A message that is forwarded goes to the previous delegate and nowhere else.
pub proof fn only_the_previous_delegate_takes_messages(previous: usize, previous_responds: bool)
    ensures
        forwarding_target(previous, previous_responds) != 0 ==> previous_responds
            && forwarding_target(previous, previous_responds) == previous,
{
}

/// A request to terminate is always put off, and reported by one event more, with a handle that still
/// owes its decision; what is then to be waited for is the decision of that handle, for ten seconds.
/// Nobody has waited yet.
pub proof fn termination_is_put_off_and_reported(
    event_tx: &mut EventSender,
    answer: (TerminateReply, PendingDecision),
)
    requires
        call_ensures(application_should_terminate, (event_tx,), answer),
    ensures
        answer.0 is Later,
        final(event_tx)@.traffic == old(event_tx)@.traffic,
        final(event_tx)@.sent.len() == old(event_tx)@.sent.len() + 1,
        final(event_tx)@.sent.drop_last() == old(event_tx)@.sent,
        final(event_tx)@.sent.last() matches SystemEvent::ShuttingDown(handle) && handle.is_live()
            && answer.1@.channel.traffic == handle.decisions(),
        answer.1@.channel.received.len() == 0,
        channels::nanoseconds(answer.1@.timeout) == 10_000_000_000,
        answer.1@.waits.len() == 0,
        answer.1@.told.len() == 0,
        answer.1@.announced,
{
    assert(final(event_tx)@.sent.drop_last() =~= old(event_tx)@.sent);
}

/// Termination proceeds, and only when the application has been waited for once, for no longer than
/// the timeout.
pub proof fn termination_proceeds_after_one_wait(pending: &mut PendingDecision, proceed: bool)
    requires
        call_ensures(termination_proceeds, (pending,), proceed),
    ensures
        proceed,
        final(pending)@.waits == old(pending)@.waits.push(old(pending)@.timeout),
        final(pending)@.told == old(pending)@.told.push(old(pending)@.announced),
        final(pending)@.timeout == old(pending)@.timeout,
        final(pending)@.channel.traffic == old(pending)@.channel.traffic,
{
}

/// Links to open, and messages that the previous delegate responds to, go on to it whenever there is
/// one; nothing else does. The delegate says that it responds exactly where it does so itself or
/// passes the message on.
pub proof fn previous_delegate_is_not_cut_off(
    previous: usize,
    self_responds: bool,
    previous_responds: bool,
    opens: bool,
    target: usize,
    r: bool,
)
    requires
        call_ensures(forwards_open_urls, (previous,), opens),
        call_ensures(forwarding_target_for_selector, (previous, previous_responds), target),
        call_ensures(responds_to_selector, (self_responds, previous, previous_responds), r),
    ensures
        opens <==> previous != 0,
        previous_responds ==> target == previous,
        !previous_responds ==> target == 0,
        r <==> self_responds || (previous != 0 && previous_responds),
        r <==> self_responds || target != 0,
{
}

} // verus!
