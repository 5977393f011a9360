//! Turns observations of the network into events, one for each change.
use vstd::prelude::*;

use crate::common::model::SenderModel;
use crate::common::{EventSender, SystemEvent};

verus! {

/// The event that reports the network as reachable or not.
pub open spec fn network_event(up: bool) -> SystemEvent {
    if up {
        SystemEvent::NetworkUp
    } else {
        SystemEvent::NetworkDown
    }
}

/// Records an observation in `last` and reports it if it differs from the one before. `None`
/// stands for a network that has not been observed yet, so the first observation is always
/// reported.
pub fn observe(last: &mut Option<bool>, up: bool, event_tx: &mut EventSender)
    ensures
        *final(last) == Some(up),
        final(event_tx)@ == reported_to(old(event_tx)@, *old(last), up),
        final(event_tx)@.valid(),
{
    proof {
        use_type_invariant(&*event_tx);
    }
    let repeated = match *last {
        Some(seen) => seen == up,
        None => false,
    };
    if !repeated {
        *last = Some(up);
        if up {
            event_tx.send(SystemEvent::NetworkUp);
        } else {
            event_tx.send(SystemEvent::NetworkDown);
        }
    }
}

/// The sending end after an observation, with `last` observed before.
pub open spec fn reported_to(
    tx: SenderModel<SystemEvent>,
    last: Option<bool>,
    up: bool,
) -> SenderModel<SystemEvent> {
    if last == Some(up) {
        tx
    } else {
        tx.push(network_event(up))
    }
}

/// What is known of the network after the observations `seen`, with `last` known before.
pub open spec fn known_after(last: Option<bool>, seen: Seq<bool>) -> Option<bool> {
    if seen.len() == 0 {
        last
    } else {
        Some(seen.last())
    }
}

/// The observations among `seen` that are reported, with `last` known before.
pub open spec fn reported(last: Option<bool>, seen: Seq<bool>) -> Seq<bool>
    decreases seen.len(),
{
    if seen.len() == 0 {
        Seq::empty()
    } else {
        let earlier = reported(last, seen.drop_last());
        if known_after(last, seen.drop_last()) == Some(seen.last()) {
            earlier
        } else {
            earlier.push(seen.last())
        }
    }
}

/// The sending end after the observations `seen`, made one by one with `observe`.
pub open spec fn all_reported_to(
    tx: SenderModel<SystemEvent>,
    last: Option<bool>,
    seen: Seq<bool>,
) -> SenderModel<SystemEvent>
    decreases seen.len(),
{
    if seen.len() == 0 {
        tx
    } else {
        reported_to(
            all_reported_to(tx, last, seen.drop_last()),
            known_after(last, seen.drop_last()),
            seen.last(),
        )
    }
}

/// A run of observations sends the events of those that are reported, in their order, and
/// nothing else.
pub proof fn run_sends_what_is_reported(
    tx: SenderModel<SystemEvent>,
    last: Option<bool>,
    seen: Seq<bool>,
)
    ensures
        all_reported_to(tx, last, seen) == (SenderModel {
            sent: tx.sent + reported(last, seen).map_values(|up: bool| network_event(up)),
            ..tx
        }),
    decreases seen.len(),
{
    let event = |up: bool| network_event(up);
    if seen.len() == 0 {
        assert(tx.sent + reported(last, seen).map_values(event) =~= tx.sent);
    } else {
        run_sends_what_is_reported(tx, last, seen.drop_last());
        let earlier = reported(last, seen.drop_last());
        assert(earlier.push(seen.last()).map_values(event) =~= earlier.map_values(event).push(
            network_event(seen.last()),
        ));
        assert((tx.sent + earlier.map_values(event)).push(network_event(seen.last())) =~= tx.sent
            + earlier.map_values(event).push(network_event(seen.last())));
    }
}

/// Two reports that follow each other differ, and the first differs from what was known before.
pub proof fn reports_alternate(last: Option<bool>, seen: Seq<bool>)
    ensures
        forall|i: int|
            0 < i < reported(last, seen).len() ==> #[trigger] reported(last, seen)[i] != reported(
                last,
                seen,
            )[i - 1],
        reported(last, seen).len() > 0 ==> last != Some(reported(last, seen)[0]),
        known_after(last, reported(last, seen)) == known_after(last, seen),
    decreases seen.len(),
{
    if seen.len() > 0 {
        reports_alternate(last, seen.drop_last());
    }
}

/// The first observation of a network that was not known before is reported.
pub proof fn first_observation_is_reported(seen: Seq<bool>)
    requires
        seen.len() > 0,
    ensures
        reported(None, seen).len() > 0,
        reported(None, seen)[0] == seen[0],
    decreases seen.len(),
{
    if seen.len() > 1 {
        first_observation_is_reported(seen.drop_last());
    } else {
        assert(seen.drop_last() =~= Seq::<bool>::empty());
        assert(reported(None, seen.drop_last()) =~= Seq::<bool>::empty());
    }
}

/// The last report is what was observed last: who follows the reports knows the network.
pub proof fn last_report_is_current(seen: Seq<bool>)
    requires
        seen.len() > 0,
    ensures
        reported(None, seen).len() > 0,
        reported(None, seen).last() == seen.last(),
{
    first_observation_is_reported(seen);
    reports_alternate(None, seen);
}

/// Observing the same again reports nothing; observing the opposite reports it.
pub proof fn only_changes_are_reported(last: Option<bool>, seen: Seq<bool>)
    requires
        seen.len() > 0,
    ensures
        reported(last, seen.push(seen.last())) == reported(last, seen),
        reported(last, seen.push(!seen.last())) == reported(last, seen).push(!seen.last()),
{
    assert(seen.push(seen.last()).drop_last() =~= seen);
    assert(seen.push(!seen.last()).drop_last() =~= seen);
}

/// Where each observation differs from the one before, all of them are reported.
pub proof fn alternating_observations_are_all_reported(last: Option<bool>, seen: Seq<bool>)
    requires
        forall|i: int| 0 < i < seen.len() ==> #[trigger] seen[i] != seen[i - 1],
        seen.len() > 0 ==> last != Some(seen[0]),
    ensures
        reported(last, seen) == seen,
    decreases seen.len(),
{
    if seen.len() > 0 {
        let earlier = seen.drop_last();
        assert forall|i: int| 0 < i < earlier.len() implies #[trigger] earlier[i] != earlier[i
            - 1] by {
            assert(seen[i] != seen[i - 1]);
        }
        alternating_observations_are_all_reported(last, earlier);
        if seen.len() > 1 {
            assert(seen[seen.len() - 1] != seen[seen.len() - 2]);
        }
        assert(earlier.push(seen.last()) =~= seen);
    }
}

/// An observation is reported by one event more exactly if it is the first or differs from the one
/// before: `NetworkUp` if the network is reachable, `NetworkDown` if not. It is remembered in any
/// case.
pub proof fn observation_is_reported_exactly_if_it_is_news(
    last: &mut Option<bool>,
    up: bool,
    event_tx: &mut EventSender,
)
    requires
        call_ensures(observe, (last, up, event_tx), ()),
    ensures
        *final(last) == Some(up),
        *old(last) == Some(up) ==> final(event_tx)@.sent == old(event_tx)@.sent,
        *old(last) != Some(up) ==> final(event_tx)@.sent.len() == old(event_tx)@.sent.len() + 1
            && final(event_tx)@.sent.drop_last() == old(event_tx)@.sent,
        *old(last) != Some(up) && up ==> final(event_tx)@.sent.last() is NetworkUp,
        *old(last) != Some(up) && !up ==> final(event_tx)@.sent.last() is NetworkDown,
        final(event_tx)@.traffic == old(event_tx)@.traffic,
        final(event_tx)@.bound == old(event_tx)@.bound,
        final(event_tx)@.sole == old(event_tx)@.sole,
{
    if *old(last) != Some(up) {
        assert(final(event_tx)@.sent.drop_last() =~= old(event_tx)@.sent);
    }
}

} // verus!
