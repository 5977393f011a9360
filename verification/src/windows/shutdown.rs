//! The end of a Windows session.
//!
//! `WM_QUERYENDSESSION` is reported as `ShuttingDown`. The answer is always that the session may
//! end: at once when the application allows it, else when the time is up.
use core::time::Duration;
use vstd::prelude::*;

use crate::common::channels;
use crate::common::shutdown as common;
use crate::common::shutdown::{report_shutdown, PendingDecision};
use crate::common::SystemEvent;
use crate::windows::{StateModel, WindowState, LRESULT};

verus! {

/// The longest time in seconds that the end of a session waits for the application.
pub const QUERY_TIMEOUT_SECS: u64 = 2;

/// The level at which the process is told of a shutdown: before most others.
pub const SHUTDOWN_LEVEL: u32 = 0x3FF;

/// What the user is shown as the reason why the session does not end yet.
pub const BLOCK_REASON: &'static str = "Waiting for the application to finish its work";

/// Whether the state has gone from `before` to `after` by reporting a shutdown.
pub open spec fn query_reported(before: StateModel, after: StateModel) -> bool {
    &&& after.last_network_up == before.last_network_up
    &&& after.sender == before.sender.push(after.sender.sent.last())
    &&& after.sender.sent.last() matches SystemEvent::ShuttingDown(handle)
    &&& handle.is_live()
}

/// Whether the query has been reported and its decision then waited for: once, after the report,
/// and for at most two seconds.
pub open spec fn query_waited_for(before: StateModel, after: StateModel) -> bool {
    exists|pending: PendingDecision|
        {
            &&& #[trigger] common::shutdown_reported(before.sender, after.sender, pending)
            &&& pending@.waits == seq![pending@.timeout]
            &&& pending@.told == seq![true]
            &&& channels::nanoseconds(pending@.timeout) == 2_000_000_000
        }
}

/// Reports the query to the application, which has two seconds to decide.
pub fn begin_query(state: &mut WindowState) -> (pending: PendingDecision)
    ensures
        query_reported(old(state)@, final(state)@),
        common::shutdown_reported(old(state)@.sender, final(state)@.sender, pending),
        final(state)@.valid(),
        channels::nanoseconds(pending.timeout()) == 2_000_000_000,
        pending@.untouched(),
{
    report_shutdown(&mut state.event_tx, Duration::from_secs(QUERY_TIMEOUT_SECS))
}

/// Handles `WM_QUERYENDSESSION`: reports the query, then waits for the decision, and answers that
/// the session may end.
pub fn handle_query(state: &mut WindowState) -> (result: LRESULT)
    ensures
        result == LRESULT(1),
        query_reported(old(state)@, final(state)@),
        query_waited_for(old(state)@, final(state)@),
        final(state)@.valid(),
{
    let mut pending = begin_query(state);
    let _ = pending.wait();
    assert(common::shutdown_reported(old(state)@.sender, state@.sender, pending));
    assert(pending@.waits =~= seq![pending@.timeout]);
    assert(pending@.told =~= seq![true]);
    LRESULT(1)
}

/// A query that begins is reported by one event more, with a handle that still owes its decision;
/// what is then to be waited for is the decision of that handle, for two seconds. Nobody has waited
/// yet, and what was seen of the network stays.
pub proof fn query_begins_with_its_report(state: &mut WindowState, pending: PendingDecision)
    requires
        call_ensures(begin_query, (state,), pending),
    ensures
        final(state)@.last_network_up == old(state)@.last_network_up,
        final(state)@.sender.traffic == old(state)@.sender.traffic,
        final(state)@.sender.sent.len() == old(state)@.sender.sent.len() + 1,
        final(state)@.sender.sent.drop_last() == old(state)@.sender.sent,
        final(state)@.sender.sent.last() matches SystemEvent::ShuttingDown(handle)
            && handle.is_live() && pending@.channel.traffic == handle.decisions(),
        pending@.channel.received.len() == 0,
        channels::nanoseconds(pending@.timeout) == 2_000_000_000,
        pending@.waits.len() == 0,
        pending@.told.len() == 0,
        pending@.announced,
{
    assert(final(state)@.sender.sent.drop_last() =~= old(state)@.sender.sent);
}

/// A query is reported by one event more, with a handle that still owes its decision; after that the
/// decision of that very handle is waited for, once and for two seconds, and the answer is that the
/// session may end.
pub proof fn query_is_reported_and_waited_for(state: &mut WindowState, result: LRESULT)
    requires
        call_ensures(handle_query, (state,), result),
    ensures
        result.0 == 1,
        final(state)@.last_network_up == old(state)@.last_network_up,
        final(state)@.sender.traffic == old(state)@.sender.traffic,
        final(state)@.sender.sent.len() == old(state)@.sender.sent.len() + 1,
        final(state)@.sender.sent.drop_last() == old(state)@.sender.sent,
        final(state)@.sender.sent.last() is ShuttingDown,
        (final(state)@.sender.sent.last()->ShuttingDown_0).is_live(),
        exists|pending: PendingDecision|
            {
                &&& (#[trigger] pending@).channel.traffic == (final(state)@.sender.sent.last()->ShuttingDown_0).decisions()
                &&& pending@.waits == seq![pending@.timeout]
                &&& pending@.told == seq![true]
                &&& channels::nanoseconds(pending@.timeout) == 2_000_000_000
            },
{
    let before = old(state)@;
    let after = final(state)@;
    assert(query_waited_for(before, after));
    let pending = choose|pending: PendingDecision|
        {
            &&& #[trigger] common::shutdown_reported(before.sender, after.sender, pending)
            &&& pending@.waits == seq![pending@.timeout]
            &&& pending@.told == seq![true]
            &&& channels::nanoseconds(pending@.timeout) == 2_000_000_000
        };
    assert(pending@.channel.traffic == (after.sender.sent.last()->ShuttingDown_0).decisions());
    assert(after.sender.sent.drop_last() =~= before.sender.sent);
}

} // verus!
