//! What the hidden window of the Windows backend does with the messages it gets.
use vstd::prelude::*;

use crate::common::channels;
use crate::common::model::SenderModel;
use crate::common::shutdown::PendingDecision;
use crate::common::{EventSender, SystemEvent};
use crate::Features;

pub mod message_loop;
pub mod network;
pub mod shutdown;

verus! {

/// A window is being created.
pub const WM_NCCREATE: u32 = 0x0081;

/// A window is being destroyed.
pub const WM_DESTROY: u32 = 0x0002;

/// The session is about to end.
pub const WM_QUERYENDSESSION: u32 = 0x0011;

/// The power state changes.
pub const WM_POWERBROADCAST: u32 = 0x0218;

/// The first message number that applications may use as they like.
pub const WM_APP: u32 = 0x8000;

/// A `WM_POWERBROADCAST` that says: the system is suspending.
pub const PBT_APMSUSPEND: u32 = 4;

/// A `WM_POWERBROADCAST` that says: the system has resumed from suspend.
pub const PBT_APMRESUMESUSPEND: u32 = 7;

/// The first parameter of a window message.
#[derive(Clone, Copy, Debug, PartialEq, Eq, Structural)]
pub struct WPARAM(pub usize);

/// What a window procedure answers to a message.
#[derive(Clone, Copy, Debug, PartialEq, Eq, Structural)]
pub struct LRESULT(pub isize);

/// How a message is answered.
#[derive(Clone, Copy, Debug, PartialEq, Eq, Structural)]
pub enum Reply {
    /// By the system's default procedure.
    Default,
    /// With this value.
    Handled(LRESULT),
}

/// What the window keeps while it exists.
pub struct WindowState {
    event_tx: EventSender,
    /// What was last reported of the network; `None` if nothing was.
    last_network_up: Option<bool>,
}

/// What a `WindowState` stands for.
#[verifier::ext_equal]
pub struct StateModel {
    pub sender: SenderModel<SystemEvent>,
    pub last_network_up: Option<bool>,
}

impl StateModel {
    /// The sending end is sound.
    pub open spec fn valid(self) -> bool {
        self.sender.valid()
    }
}

impl View for WindowState {
    type V = StateModel;

    closed spec fn view(&self) -> StateModel {
        StateModel { sender: self.event_tx@, last_network_up: self.last_network_up }
    }
}

impl WindowState {
    /// The state of a new window, which reports to `event_tx` and knows nothing of the network.
    pub fn new(event_tx: EventSender) -> (state: WindowState)
        ensures
            state@ == (StateModel { sender: event_tx@, last_network_up: None }),
            state@.valid(),
    {
        proof {
            use_type_invariant(&event_tx);
        }
        WindowState { event_tx, last_network_up: None }
    }

    /// Ends the reports.
    fn close(self)
        ensures
            self@.sender.traffic == self@.sender.sent,
    {
        self.event_tx.close();
    }
}

/// The code of a power broadcast: the low half of its parameter.
pub open spec fn power_code(wparam: WPARAM) -> u32 {
    wparam.0 as u32
}

/// The state after a power broadcast. Only suspend and resume are reported.
pub open spec fn after_power_broadcast(state: StateModel, wparam: WPARAM) -> StateModel {
    if power_code(wparam) == PBT_APMSUSPEND {
        StateModel { sender: state.sender.push(SystemEvent::WillSleep), ..state }
    } else if power_code(wparam) == PBT_APMRESUMESUSPEND {
        StateModel { sender: state.sender.push(SystemEvent::DidWake), ..state }
    } else {
        state
    }
}

/// Handles `WM_POWERBROADCAST`.
pub fn handle_power(wparam: WPARAM, state: &mut WindowState) -> (result: LRESULT)
    ensures
        result == LRESULT(1),
        final(state)@ == after_power_broadcast(old(state)@, wparam),
        final(state)@.valid(),
{
    let code: u32 = #[verifier::truncate] (wparam.0 as u32);
    if code == PBT_APMSUSPEND {
        state.event_tx.send(SystemEvent::WillSleep);
    } else if code == PBT_APMRESUMESUSPEND {
        state.event_tx.send(SystemEvent::DidWake);
    }
    proof {
        use_type_invariant(&state.event_tx);
    }
    LRESULT(1)
}

/// The hidden window. Its state waits outside until the window is created, and is given up
/// when the window is destroyed.
pub struct Window {
    features: Features,
    staged: Option<WindowState>,
    live: Option<WindowState>,
}

/// What a `Window` stands for.
#[verifier::ext_equal]
pub struct WindowModel {
    pub features: Features,
    /// The state of a window that is not created yet.
    pub staged: Option<StateModel>,
    /// The state of a window that exists.
    pub live: Option<StateModel>,
}

impl WindowModel {
    /// The states are sound, and there is at most one of them.
    pub open spec fn valid(self) -> bool {
        &&& self.staged is None || self.live is None
        &&& self.staged matches Some(state) ==> state.valid()
        &&& self.live matches Some(state) ==> state.valid()
    }
}

/// What an optional state stands for.
pub open spec fn model_of(state: Option<WindowState>) -> Option<StateModel> {
    match state {
        Some(s) => Some(s@),
        None => None,
    }
}

impl View for Window {
    type V = WindowModel;

    closed spec fn view(&self) -> WindowModel {
        WindowModel {
            features: self.features,
            staged: model_of(self.staged),
            live: model_of(self.live),
        }
    }
}

/// Whether nothing follows what a state has sent.
pub open spec fn ended(state: Option<StateModel>) -> bool {
    state matches Some(s) ==> s.sender.traffic == s.sender.sent
}

/// How a window that exists answers a message that neither creates nor destroys it.
pub open spec fn answered(
    features: Features,
    before: StateModel,
    msg: u32,
    wparam: WPARAM,
    after: StateModel,
    reply: Reply,
) -> bool {
    if msg == WM_QUERYENDSESSION && features.shutdown {
        &&& reply == Reply::Handled(LRESULT(1))
        &&& shutdown::query_reported(before, after)
        &&& shutdown::query_waited_for(before, after)
    } else if msg == WM_POWERBROADCAST && features.sleep {
        reply == Reply::Handled(LRESULT(1)) && after == after_power_broadcast(before, wparam)
    } else if msg == network::WM_SENTINEL_NETWORK_CHANGE && features.network {
        reply == Reply::Handled(LRESULT(0)) && after == network::after_change(before, wparam)
    } else {
        reply == Reply::Default && after == before
    }
}

/// Whether a message makes the window hold up the end of the session while it is handled.
pub open spec fn holds_up(window: WindowModel, msg: u32) -> bool {
    window.live is Some && msg == WM_QUERYENDSESSION && window.features.shutdown
}

/// What a message does to the window and how it is answered.
pub open spec fn dispatched(
    before: WindowModel,
    msg: u32,
    wparam: WPARAM,
    after: WindowModel,
    reply: Reply,
) -> bool {
    &&& after.features == before.features
    &&& if msg == WM_NCCREATE {
        &&& reply == Reply::Default
        &&& after.staged is None
        &&& after.live == if before.staged is Some {
            before.staged
        } else {
            before.live
        }
    } else if msg == WM_DESTROY {
        &&& reply == Reply::Handled(LRESULT(0))
        &&& after.staged == before.staged
        &&& after.live is None
        &&& ended(before.live)
    } else {
        &&& after.staged == before.staged
        &&& match before.live {
            Some(state) => after.live matches Some(next) && answered(
                before.features,
                state,
                msg,
                wparam,
                next,
                reply,
            ),
            None => after.live is None && reply == Reply::Default,
        }
    }
}

impl Window {
    /// A window that is still to be created.
    pub fn new(features: Features, event_tx: EventSender) -> (window: Window)
        ensures
            window@ == (WindowModel {
                features,
                staged: Some(StateModel { sender: event_tx@, last_network_up: None }),
                live: None,
            }),
            window@.valid(),
    {
        Window { features, staged: Some(WindowState::new(event_tx)), live: None }
    }

    /// The reason to register with the system before a message is handled, and to withdraw when
    /// that is done. There is one where the message holds up the end of the session.
    pub fn block_reason(&self, msg: u32) -> (reason: Option<&'static str>)
        ensures
            reason == if holds_up(self@, msg) {
                Some(shutdown::BLOCK_REASON)
            } else {
                None
            },
    {
        if self.live.is_some() && msg == WM_QUERYENDSESSION && self.features.shutdown {
            Some(shutdown::BLOCK_REASON)
        } else {
            None
        }
    }

    /// The window procedure: acts on a message and says how to answer it.
    pub fn wndproc(&mut self, msg: u32, wparam: WPARAM) -> (reply: Reply)
        ensures
            dispatched(old(self)@, msg, wparam, final(self)@, reply),
            old(self)@.valid() ==> final(self)@.valid(),
    {
        if msg == WM_NCCREATE {
            if let Some(state) = self.staged.take() {
                self.live = Some(state);
            }
            return Reply::Default;
        }
        if msg == WM_DESTROY {
            self.release();
            return Reply::Handled(LRESULT(0));
        }
        let mut taken = self.live.take();
        let reply = match &mut taken {
            None => Reply::Default,
            Some(state) => {
                if msg == WM_QUERYENDSESSION && self.features.shutdown {
                    Reply::Handled(shutdown::handle_query(state))
                } else if msg == WM_POWERBROADCAST && self.features.sleep {
                    Reply::Handled(handle_power(wparam, state))
                } else if msg == network::WM_SENTINEL_NETWORK_CHANGE && self.features.network {
                    Reply::Handled(network::handle_change(wparam, state))
                } else {
                    Reply::Default
                }
            },
        };
        self.live = taken;
        reply
    }

    /// Gives up the state if the window still has it: when the window is destroyed, and again
    /// when the message loop ends.
    pub fn release(&mut self)
        ensures
            final(self)@ == (WindowModel { live: None, ..old(self)@ }),
            ended(old(self)@.live),
    {
        if let Some(state) = self.live.take() {
            state.close();
        }
    }
}

/// A window that is gone stays gone: no message brings it back or makes it act.
pub proof fn destroyed_window_stays_destroyed(
    before: WindowModel,
    msg: u32,
    wparam: WPARAM,
    after: WindowModel,
    reply: Reply,
)
    requires
        dispatched(before, msg, wparam, after, reply),
        before.staged is None,
        before.live is None,
    ensures
        after == before,
        reply == Reply::Default || (msg == WM_DESTROY && reply == Reply::Handled(LRESULT(0))),
{
}

/// Before it is created a window leaves every message to the system, but for its own end.
pub proof fn window_acts_only_while_it_exists(
    before: WindowModel,
    msg: u32,
    wparam: WPARAM,
    after: WindowModel,
    reply: Reply,
)
    requires
        dispatched(before, msg, wparam, after, reply),
        before.live is None,
        msg != WM_DESTROY,
    ensures
        reply == Reply::Default,
        after.live is Some ==> msg == WM_NCCREATE && after.live == before.staged,
{
}

/// The state is used once: it is handed over when the window is created, and there is none to
/// hand over or give up twice.
pub proof fn state_is_given_up_once(
    before: WindowModel,
    msg: u32,
    wparam: WPARAM,
    after: WindowModel,
    reply: Reply,
)
    requires
        dispatched(before, msg, wparam, after, reply),
        before.staged is None || before.live is None,
    ensures
        after.staged is None || after.live is None,
        msg == WM_DESTROY ==> after.live is None,
        msg == WM_NCCREATE ==> after.staged is None,
{
}

/// The end of the session is held up by exactly those messages that are reported as a shutdown,
/// and while such a message is handled the application's decision is waited for.
pub proof fn reported_shutdown_holds_up_the_session(
    before: WindowModel,
    msg: u32,
    wparam: WPARAM,
    after: WindowModel,
    reply: Reply,
)
    requires
        dispatched(before, msg, wparam, after, reply),
        before.valid(),
        before.live is Some,
        after.live is Some,
    ensures
        holds_up(before, msg) <==> after.live->0.sender.sent.len()
            > before.live->0.sender.sent.len() && after.live->0.sender.sent.last() is ShuttingDown,
        holds_up(before, msg) ==> shutdown::query_waited_for(before.live->0, after.live->0),
{
}

/// A message makes a window report at most one event, and nothing that was reported before is
/// touched.
pub proof fn message_reports_at_most_one_event(
    before: WindowModel,
    msg: u32,
    wparam: WPARAM,
    after: WindowModel,
    reply: Reply,
)
    requires
        dispatched(before, msg, wparam, after, reply),
        before.live is Some,
        after.live is Some,
        msg != WM_NCCREATE,
    ensures
        ({
            let old_sent = before.live->0.sender.sent;
            let new_sent = after.live->0.sender.sent;
            new_sent == old_sent || new_sent == old_sent.push(new_sent.last())
        }),
{
}

/// Events of a part that is not in use are never reported.
pub proof fn unused_parts_report_nothing(
    before: WindowModel,
    msg: u32,
    wparam: WPARAM,
    after: WindowModel,
    reply: Reply,
    event: SystemEvent,
)
    requires
        dispatched(before, msg, wparam, after, reply),
        before.live is Some,
        after.live is Some,
        msg != WM_NCCREATE,
        after.live->0.sender.sent == before.live->0.sender.sent.push(event),
    ensures
        event is ShuttingDown ==> before.features.shutdown,
        event is WillSleep || event is DidWake ==> before.features.sleep,
        event is NetworkUp || event is NetworkDown ==> before.features.network,
        event !is WillHibernate && event !is WillPowerOff,
{
    let old_sent = before.live->0.sender.sent;
    let new_sent = after.live->0.sender.sent;
    assert(new_sent.last() == event);
    assert(new_sent.len() == old_sent.len() + 1);
}

/// Whatever is known of the network, a power broadcast is reported by its code alone: suspend as
/// `WillSleep`, resume as `DidWake`, each by one event more, and any other by none. So `WillSleep`
/// is reported exactly for a suspend.
pub proof fn power_broadcast_is_reported_by_its_code(
    wparam: WPARAM,
    state: &mut WindowState,
    result: LRESULT,
)
    requires
        call_ensures(handle_power, (wparam, state), result),
    ensures
        result.0 == 1,
        final(state)@.last_network_up == old(state)@.last_network_up,
        final(state)@.sender.traffic == old(state)@.sender.traffic,
        final(state)@.sender.bound == old(state)@.sender.bound,
        final(state)@.sender.sole == old(state)@.sender.sole,
        wparam.0 as u32 == 4 ==> final(state)@.sender.sent == old(state)@.sender.sent.push(
            SystemEvent::WillSleep,
        ),
        wparam.0 as u32 == 7 ==> final(state)@.sender.sent == old(state)@.sender.sent.push(
            SystemEvent::DidWake,
        ),
        wparam.0 as u32 != 4 && wparam.0 as u32 != 7 ==> final(state)@.sender.sent == old(state)@.sender.sent,
        final(state)@.sender.sent == old(state)@.sender.sent.push(SystemEvent::WillSleep)
            <==> wparam.0 as u32 == 4,
        final(state)@.sender.sent == old(state)@.sender.sent.push(SystemEvent::DidWake)
            <==> wparam.0 as u32 == 7,
{
    let sent = old(state)@.sender.sent;
    assert(sent.push(SystemEvent::WillSleep).last() != sent.push(SystemEvent::DidWake).last());
    assert(sent.push(SystemEvent::WillSleep).len() == sent.len() + 1);
    assert(sent.push(SystemEvent::DidWake).len() == sent.len() + 1);
}

/// A new window is still to be created, has seen nothing of the network, and reports to the sender
/// that it was given.
pub proof fn new_window_waits_to_be_created(
    features: Features,
    event_tx: EventSender,
    window: Window,
)
    requires
        call_ensures(Window::new, (features, event_tx), window),
    ensures
        window@.features == features,
        window@.live is None,
        window@.staged matches Some(state) && state.sender == event_tx@ && state.last_network_up
            is None,
{
}

/// Creating the window hands it the state that waited for it, once, and is left to the system.
pub proof fn creation_hands_over_the_state(
    window: &mut Window,
    wparam: WPARAM,
    reply: Reply,
)
    requires
        call_ensures(Window::wndproc, (window, 0x0081u32, wparam), reply),
    ensures
        reply is Default,
        final(window)@.features == old(window)@.features,
        final(window)@.staged is None,
        old(window)@.staged is Some ==> final(window)@.live == old(window)@.staged,
        old(window)@.staged is None ==> final(window)@.live == old(window)@.live,
{
}

/// Destroying the window ends its reports: nothing follows what was sent.
pub proof fn destruction_ends_the_reports(window: &mut Window, wparam: WPARAM, reply: Reply)
    requires
        call_ensures(Window::wndproc, (window, 0x0002u32, wparam), reply),
    ensures
        reply == Reply::Handled(LRESULT(0)),
        final(window)@.features == old(window)@.features,
        final(window)@.staged == old(window)@.staged,
        final(window)@.live is None,
        old(window)@.live matches Some(state) ==> state.sender.traffic == state.sender.sent,
{
}

/// Giving up the state ends the reports: nothing follows what was sent.
pub proof fn release_ends_the_reports(window: &mut Window)
    requires
        call_ensures(Window::release, (window,), ()),
    ensures
        final(window)@.features == old(window)@.features,
        final(window)@.staged == old(window)@.staged,
        final(window)@.live is None,
        old(window)@.live matches Some(state) ==> state.sender.traffic == state.sender.sent,
{
}

/// Wherever shutdown is in use, a window that exists holds up the end of the session, whatever it
/// has seen of the network and whatever comes with the query. It reports the query by one event
/// more, with a handle that still owes its decision; after that it waits for the decision of that
/// very handle, once and for two seconds, and then answers that the session may end. All the while
/// there is a reason to show.
pub proof fn end_of_session_is_held_up(
    window: &mut Window,
    wparam: WPARAM,
    reply: Reply,
    reason: Option<&'static str>,
)
    requires
        call_ensures(Window::block_reason, (&*window, 0x0011u32), reason),
        call_ensures(Window::wndproc, (window, 0x0011u32, wparam), reply),
        old(window)@.live is Some,
        old(window)@.features.shutdown,
    ensures
        reason is Some,
        reply == Reply::Handled(LRESULT(1)),
        final(window)@.features == old(window)@.features,
        final(window)@.staged == old(window)@.staged,
        final(window)@.live is Some,
        ({
            let before = old(window)@.live->0;
            let after = final(window)@.live->0;
            &&& after.last_network_up == before.last_network_up
            &&& after.sender.traffic == before.sender.traffic
            &&& after.sender.bound == before.sender.bound
            &&& after.sender.sole == before.sender.sole
            &&& after.sender.sent.len() == before.sender.sent.len() + 1
            &&& after.sender.sent.drop_last() == before.sender.sent
            &&& after.sender.sent.last() matches SystemEvent::ShuttingDown(handle)
            &&& handle.is_live()
            &&& exists|pending: PendingDecision|
                {
                    &&& (#[trigger] pending@).channel.traffic == handle.decisions()
                    &&& pending@.waits == seq![pending@.timeout]
                    &&& pending@.told == seq![true]
                    &&& channels::nanoseconds(pending@.timeout) == 2_000_000_000
                }
        }),
{
    let before = old(window)@.live->0;
    let after = final(window)@.live->0;
    assert(shutdown::query_waited_for(before, after));
    let pending = choose|pending: PendingDecision|
        {
            &&& #[trigger] crate::common::shutdown::shutdown_reported(
                before.sender,
                after.sender,
                pending,
            )
            &&& pending@.waits == seq![pending@.timeout]
            &&& pending@.told == seq![true]
            &&& channels::nanoseconds(pending@.timeout) == 2_000_000_000
        };
    assert(pending@.channel.traffic == (after.sender.sent.last()->ShuttingDown_0).decisions());
    assert(after.sender.sent.drop_last() =~= before.sender.sent);
}

/// There is a reason to show exactly while a window that exists, with shutdown in use, handles the
/// query whether the session may end.
pub proof fn reason_is_shown_for_the_end_of_session_only(
    window: Window,
    msg: u32,
    reason: Option<&'static str>,
)
    requires
        call_ensures(Window::block_reason, (&window, msg), reason),
    ensures
        reason is Some <==> window@.live is Some && msg == 0x0011 && window@.features.shutdown,
        reason matches Some(text) ==> text@ == "Waiting for the application to finish its work"@,
{
}

/// Wherever sleep is in use, a window that exists reports suspend and resume, whatever it has seen
/// of the network, and no other power broadcast.
pub proof fn window_reports_suspend_and_resume(
    window: &mut Window,
    wparam: WPARAM,
    reply: Reply,
)
    requires
        call_ensures(Window::wndproc, (window, 0x0218u32, wparam), reply),
        old(window)@.live is Some,
        old(window)@.features.sleep,
    ensures
        reply == Reply::Handled(LRESULT(1)),
        final(window)@.features == old(window)@.features,
        final(window)@.staged == old(window)@.staged,
        final(window)@.live is Some,
        ({
            let before = old(window)@.live->0;
            let after = final(window)@.live->0;
            &&& after.last_network_up == before.last_network_up
            &&& after.sender.traffic == before.sender.traffic
            &&& wparam.0 as u32 == 4 ==> after.sender.sent == before.sender.sent.push(
                SystemEvent::WillSleep,
            )
            &&& wparam.0 as u32 == 7 ==> after.sender.sent == before.sender.sent.push(
                SystemEvent::DidWake,
            )
            &&& wparam.0 as u32 != 4 && wparam.0 as u32 != 7 ==> after.sender.sent
                == before.sender.sent
        }),
{
}

/// Wherever the network is in use, a window that exists reports a change of it: any parameter but 0
/// as `NetworkUp`, 0 as `NetworkDown`, each exactly if it is the first or differs from the one
/// before.
pub proof fn window_reports_changes_of_the_network(
    window: &mut Window,
    wparam: WPARAM,
    reply: Reply,
)
    requires
        call_ensures(Window::wndproc, (window, 0x8002u32, wparam), reply),
        old(window)@.live is Some,
        old(window)@.features.network,
    ensures
        reply == Reply::Handled(LRESULT(0)),
        final(window)@.features == old(window)@.features,
        final(window)@.staged == old(window)@.staged,
        final(window)@.live is Some,
        ({
            let before = old(window)@.live->0;
            let after = final(window)@.live->0;
            let up = wparam.0 != 0;
            &&& after.last_network_up == Some(up)
            &&& after.sender.traffic == before.sender.traffic
            &&& before.last_network_up == Some(up) ==> after.sender.sent == before.sender.sent
            &&& before.last_network_up != Some(up) && up ==> after.sender.sent
                == before.sender.sent.push(SystemEvent::NetworkUp)
            &&& before.last_network_up != Some(up) && !up ==> after.sender.sent
                == before.sender.sent.push(SystemEvent::NetworkDown)
        }),
{
}

/// Every other message, and one for a part that is not in use, is left to the system and changes
/// nothing; so does every message to a window that does not exist, but for its creation and end.
pub proof fn other_messages_are_left_to_the_system(
    window: &mut Window,
    msg: u32,
    wparam: WPARAM,
    reply: Reply,
)
    requires
        call_ensures(Window::wndproc, (window, msg, wparam), reply),
        msg != 0x0081,
        msg != 0x0002,
        old(window)@.live is None || {
            &&& msg == 0x0011 ==> !old(window)@.features.shutdown
            &&& msg == 0x0218 ==> !old(window)@.features.sleep
            &&& msg == 0x8002 ==> !old(window)@.features.network
        },
    ensures
        reply is Default,
        final(window)@ == old(window)@,
{
}

/// The state of a new window reports to the sender that it was given and knows nothing of the
/// network.
pub proof fn new_state_knows_nothing_of_the_network(event_tx: EventSender, state: WindowState)
    requires
        call_ensures(WindowState::new, (event_tx,), state),
    ensures
        state@.sender == event_tx@,
        state@.last_network_up is None,
{
}

} // verus!
