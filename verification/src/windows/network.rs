//! Changes of the network on Windows.
use vstd::prelude::*;

use crate::common::network as common;
use crate::common::network::observe;
use crate::common::SystemEvent;
use crate::windows::{StateModel, WindowState, LRESULT, WM_APP, WPARAM};

verus! {

/// Posted to the hidden window when the network changes; the parameter is 1 if it is reachable
/// and 0 if not.
pub const WM_SENTINEL_NETWORK_CHANGE: u32 = WM_APP + 2;

/// The connectivity level of a network with access to the internet.
pub const LEVEL_INTERNET_ACCESS: i32 = 3;

/// The connectivity level of a network whose access is limited, as by a captive portal.
pub const LEVEL_CONSTRAINED_INTERNET_ACCESS: i32 = 4;

/// Whether a connectivity level counts as a reachable network.
pub open spec fn level_is_up(level: i32) -> bool {
    level == LEVEL_INTERNET_ACCESS || level == LEVEL_CONSTRAINED_INTERNET_ACCESS
}

/// The parameter that says whether the network is reachable.
pub open spec fn up_param(up: bool) -> WPARAM {
    WPARAM(
        if up {
            1
        } else {
            0
        },
    )
}

/// What to post to the hidden window when the connectivity level has changed.
pub fn net_change_message(level: i32) -> (message: (u32, WPARAM))
    ensures
        message == (WM_SENTINEL_NETWORK_CHANGE, up_param(level_is_up(level))),
{
    let up = level == LEVEL_INTERNET_ACCESS || level == LEVEL_CONSTRAINED_INTERNET_ACCESS;
    let param: usize = if up {
        1
    } else {
        0
    };
    (WM_SENTINEL_NETWORK_CHANGE, WPARAM(param))
}

/// The state after a network change message. Any parameter but 0 stands for a reachable network.
pub open spec fn after_change(state: StateModel, wparam: WPARAM) -> StateModel {
    StateModel {
        sender: common::reported_to(state.sender, state.last_network_up, wparam.0 != 0),
        last_network_up: Some(wparam.0 != 0),
    }
}

/// Handles `WM_SENTINEL_NETWORK_CHANGE`: reports the network if it has changed.
pub fn handle_change(wparam: WPARAM, state: &mut WindowState) -> (result: LRESULT)
    ensures
        result == LRESULT(0),
        final(state)@ == after_change(old(state)@, wparam),
        final(state)@.valid(),
{
    observe(&mut state.last_network_up, wparam.0 != 0, &mut state.event_tx);
    LRESULT(0)
}

/// A change of the connectivity level, posted to the window and handled there, reports exactly
/// whether the new level counts as a reachable network.
pub proof fn posted_level_is_reported(state: StateModel, level: i32)
    ensures
        after_change(state, up_param(level_is_up(level))) == (StateModel {
            sender: common::reported_to(state.sender, state.last_network_up, level_is_up(level)),
            last_network_up: Some(level_is_up(level)),
        }),
{
}

/// What the user is told when the network is monitored.
pub const NOTICE_ACTIVE: &'static str = "onebox_lifecycle: network connectivity monitoring active (NotifyNetworkConnectivityHintChange)";

/// What the user is told when registering for notifications has failed.
pub const NOTICE_FAILED: &'static str = "onebox_lifecycle: NotifyNetworkConnectivityHintChange failed — network monitoring disabled";

/// What the user is told when the system has no such notifications.
pub const NOTICE_UNAVAILABLE: &'static str = "onebox_lifecycle: NotifyNetworkConnectivityHintChange unavailable (requires Windows 10 2004+) — network monitoring disabled";

/// The notification handle that monitoring the network has in the end, if any.
pub open spec fn setup_handle(api_available: bool, registered: Option<usize>) -> Option<usize> {
    if api_available {
        registered
    } else {
        None
    }
}

/// What the user is told of it.
pub open spec fn setup_notice(api_available: bool, registered: Option<usize>) -> Seq<char> {
    if !api_available {
        NOTICE_UNAVAILABLE@
    } else if registered is Some {
        NOTICE_ACTIVE@
    } else {
        NOTICE_FAILED@
    }
}

/// What setting up comes to: the handle of the notification if the system has one and registering
/// for it gave one, and what to tell the user, who learns whether the network is monitored.
/// `registered` is what came of registering, `None` if it failed or was not tried.
pub fn setup_result(api_available: bool, registered: Option<usize>) -> (r: (Option<usize>, String))
    ensures
        r.0 == setup_handle(api_available, registered),
        r.1@ == setup_notice(api_available, registered),
{
    if !api_available {
        return (None, NOTICE_UNAVAILABLE.to_string());
    }
    match registered {
        Some(handle) => (Some(handle), NOTICE_ACTIVE.to_string()),
        None => (None, NOTICE_FAILED.to_string()),
    }
}

/// The user can tell whether the network is monitored: the notice says that it is exactly if there
/// is a notification handle.
pub proof fn notice_tells_whether_the_network_is_monitored(
    api_available: bool,
    registered: Option<usize>,
)
    ensures
        setup_notice(api_available, registered) == NOTICE_ACTIVE@ <==> setup_handle(
            api_available,
            registered,
        ) is Some,
{
    reveal_strlit("onebox_lifecycle: network connectivity monitoring active (NotifyNetworkConnectivityHintChange)");
    reveal_strlit("onebox_lifecycle: NotifyNetworkConnectivityHintChange failed — network monitoring disabled");
    reveal_strlit("onebox_lifecycle: NotifyNetworkConnectivityHintChange unavailable (requires Windows 10 2004+) — network monitoring disabled");
    assert(NOTICE_FAILED@.len() < NOTICE_ACTIVE@.len() < NOTICE_UNAVAILABLE@.len());
}

/// The message for a connectivity level says that the network is reachable exactly for the two
/// levels with access to the internet.
pub proof fn message_tells_whether_the_level_is_up(level: i32, message: (u32, WPARAM))
    requires
        call_ensures(net_change_message, (level,), message),
    ensures
        message.0 == 0x8002,
        level == 3 || level == 4 ==> message.1.0 == 1,
        level != 3 && level != 4 ==> message.1.0 == 0,
{
}

/// A change is reported by one event more exactly if it is the first or differs from the one before:
/// any parameter but 0 as `NetworkUp`, 0 as `NetworkDown`.
pub proof fn change_is_reported_exactly_if_it_is_news(
    wparam: WPARAM,
    state: &mut WindowState,
    result: LRESULT,
)
    requires
        call_ensures(handle_change, (wparam, state), result),
    ensures
        result.0 == 0,
        final(state)@.last_network_up == Some(wparam.0 != 0),
        final(state)@.sender.traffic == old(state)@.sender.traffic,
        final(state)@.sender.bound == old(state)@.sender.bound,
        final(state)@.sender.sole == old(state)@.sender.sole,
        old(state)@.last_network_up == Some(wparam.0 != 0) ==> final(state)@.sender.sent == old(state)@.sender.sent,
        old(state)@.last_network_up != Some(true) && wparam.0 != 0 ==> final(state)@.sender.sent
            == old(state)@.sender.sent.push(SystemEvent::NetworkUp),
        old(state)@.last_network_up != Some(false) && wparam.0 == 0 ==> final(state)@.sender.sent
            == old(state)@.sender.sent.push(SystemEvent::NetworkDown),
{
}

/// A change of the connectivity level that is posted to the window and handled there leaves the
/// window knowing whether the new level has access to the internet, and reports that if it is news.
pub proof fn level_change_arrives_as_its_event(
    level: i32,
    message: (u32, WPARAM),
    state: &mut WindowState,
    result: LRESULT,
)
    requires
        call_ensures(net_change_message, (level,), message),
        call_ensures(handle_change, (message.1, state), result),
    ensures
        final(state)@.last_network_up == Some(level == 3 || level == 4),
        old(state)@.last_network_up != Some(true) && (level == 3 || level == 4) ==> final(state)@.sender.sent == old(state)@.sender.sent.push(SystemEvent::NetworkUp),
        old(state)@.last_network_up != Some(false) && level != 3 && level != 4 ==> final(state)@.sender.sent == old(state)@.sender.sent.push(SystemEvent::NetworkDown),
        old(state)@.last_network_up == Some(level == 3 || level == 4) ==> final(state)@.sender.sent
            == old(state)@.sender.sent,
{
}

/// There is a notification handle exactly if the system can tell of changes and registering gave
/// one, and then it is that one. The user is told that the network is monitored, that registering
/// failed, or that the system cannot tell of changes, each exactly where it is so.
pub proof fn setting_up_succeeds_only_by_registering(
    api_available: bool,
    registered: Option<usize>,
    r: (Option<usize>, String),
)
    requires
        call_ensures(setup_result, (api_available, registered), r),
    ensures
        r.0 is Some <==> api_available && registered is Some,
        r.0 is Some ==> r.0 == registered,
        r.1@
            == "onebox_lifecycle: network connectivity monitoring active (NotifyNetworkConnectivityHintChange)"@
            <==> api_available && registered is Some,
        api_available && registered is None ==> r.1@
            == "onebox_lifecycle: NotifyNetworkConnectivityHintChange failed — network monitoring disabled"@,
        !api_available ==> r.1@
            == "onebox_lifecycle: NotifyNetworkConnectivityHintChange unavailable (requires Windows 10 2004+) — network monitoring disabled"@,
{
    notice_tells_whether_the_network_is_monitored(api_available, registered);
}

} // verus!
