//! Changes of the network path on macOS.
use vstd::prelude::*;

use crate::common::network as common;
use crate::common::network::observe;
use crate::common::{EventSender, SystemEvent};

verus! {

/// The status of a path on which at least one interface can carry traffic.
pub const NW_PATH_STATUS_SATISFIED: u32 = 1;

/// Handles an update of the network path: reports the network if it has changed, and in any
/// case the first time. `last_seen` keeps what was seen last.
pub fn path_update(status: u32, last_seen: &mut Option<bool>, event_tx: &mut EventSender)
    ensures
        *final(last_seen) == Some(status == NW_PATH_STATUS_SATISFIED),
        final(event_tx)@ == common::reported_to(
            old(event_tx)@,
            *old(last_seen),
            status == NW_PATH_STATUS_SATISFIED,
        ),
        final(event_tx)@.valid(),
{
    observe(last_seen, status == NW_PATH_STATUS_SATISFIED, event_tx);
}

/// An update is reported by one event more exactly if it is the first or differs from the one
/// before: `NetworkUp` if the path is satisfied, `NetworkDown` for every other status.
pub proof fn path_is_reported_exactly_if_it_is_news(
    status: u32,
    last_seen: &mut Option<bool>,
    event_tx: &mut EventSender,
)
    requires
        call_ensures(path_update, (status, last_seen, event_tx), ()),
    ensures
        *final(last_seen) == Some(status == 1),
        final(event_tx)@.traffic == old(event_tx)@.traffic,
        *old(last_seen) == Some(status == 1) ==> final(event_tx)@.sent == old(event_tx)@.sent,
        *old(last_seen) != Some(true) && status == 1 ==> final(event_tx)@.sent == old(event_tx)@.sent.push(SystemEvent::NetworkUp),
        *old(last_seen) != Some(false) && status != 1 ==> final(event_tx)@.sent == old(event_tx)@.sent.push(SystemEvent::NetworkDown),
{
}

} // verus!
