//! The life of the thread that owns the hidden window: what it asks of the system, step by step.
use vstd::prelude::*;

use crate::windows::shutdown::SHUTDOWN_LEVEL;
use crate::Features;

verus! {

/// What is to be done next.
#[derive(Clone, Copy, Debug, PartialEq, Eq, Structural)]
pub enum Action {
    /// Register the window class.
    RegisterClass,
    /// Create the hidden window.
    CreateWindow,
    /// Set the level at which the process is told of a shutdown.
    SetShutdownLevel(u32),
    /// Register for network changes.
    SetUpNetwork,
    /// Get the next message.
    GetMessage,
    /// Hand the message to the window.
    DispatchMessage,
    /// Cancel the notification of network changes.
    CancelNetwork(usize),
    /// Give up the window's state if the window still has it.
    ReleaseWindow,
    /// Unregister the window class.
    UnregisterClass,
    /// Nothing: the thread ends.
    Finish,
    /// Nothing: the class could not be registered or the window could not be created.
    Fail,
}

/// What came of an action.
#[derive(Clone, Copy, Debug, PartialEq, Eq, Structural)]
pub enum Outcome {
    /// The class was registered under this atom; 0 if it was not.
    Registered(u16),
    /// Whether the window was created.
    Created(bool),
    /// The handle of the notification of network changes, if there is one.
    NetworkSetUp(Option<usize>),
    /// What `GetMessageW` returned.
    Message(i32),
    /// Any other action is done.
    Done,
}

/// How far the thread is.
#[derive(Clone, Copy, Debug, PartialEq, Eq, Structural)]
pub enum Phase {
    Registering,
    Creating,
    SettingLevel,
    SettingUpNetwork,
    Waiting { network: Option<usize> },
    Dispatching { network: Option<usize> },
    Cancelling { network: usize },
    Releasing,
    Unregistering,
    Finished,
    Failed,
}

/// What is to be done in a phase.
pub open spec fn action_in(phase: Phase) -> Action {
    match phase {
        Phase::Registering => Action::RegisterClass,
        Phase::Creating => Action::CreateWindow,
        Phase::SettingLevel => Action::SetShutdownLevel(0x3FF),
        Phase::SettingUpNetwork => Action::SetUpNetwork,
        Phase::Waiting { .. } => Action::GetMessage,
        Phase::Dispatching { .. } => Action::DispatchMessage,
        Phase::Cancelling { network } => Action::CancelNetwork(network),
        Phase::Releasing => Action::ReleaseWindow,
        Phase::Unregistering => Action::UnregisterClass,
        Phase::Finished => Action::Finish,
        Phase::Failed => Action::Fail,
    }
}

/// The phase after the shutdown level has been seen to.
pub open spec fn after_level(features: Features) -> Phase {
    if features.network {
        Phase::SettingUpNetwork
    } else {
        Phase::Waiting { network: None }
    }
}

/// The phase that follows. An outcome that does not belong to the phase changes nothing.
pub open spec fn next(features: Features, phase: Phase, outcome: Outcome) -> Phase {
    match (phase, outcome) {
        (Phase::Registering, Outcome::Registered(atom)) => if atom != 0 {
            Phase::Creating
        } else {
            Phase::Failed
        },
        (Phase::Creating, Outcome::Created(created)) => if !created {
            Phase::Failed
        } else if features.shutdown {
            Phase::SettingLevel
        } else {
            after_level(features)
        },
        (Phase::SettingLevel, Outcome::Done) => after_level(features),
        (Phase::SettingUpNetwork, Outcome::NetworkSetUp(network)) => Phase::Waiting { network },
        (Phase::Waiting { network }, Outcome::Message(ret)) => if ret != 0 && ret != -1 {
            Phase::Dispatching { network }
        } else {
            match network {
                Some(handle) => Phase::Cancelling { network: handle },
                None => Phase::Releasing,
            }
        },
        (Phase::Dispatching { network }, Outcome::Done) => Phase::Waiting { network },
        (Phase::Cancelling { .. }, Outcome::Done) => Phase::Releasing,
        (Phase::Releasing, Outcome::Done) => Phase::Unregistering,
        (Phase::Unregistering, Outcome::Done) => Phase::Finished,
        _ => phase,
    }
}

/// The thread that owns the hidden window.
pub struct MessageLoop {
    features: Features,
    phase: Phase,
}

impl MessageLoop {
    /// The parts in use.
    pub closed spec fn features(&self) -> Features {
        self.features
    }

    /// How far the thread is.
    pub closed spec fn phase(&self) -> Phase {
        self.phase
    }

    /// A thread that has done nothing yet.
    pub fn new(features: Features) -> (message_loop: MessageLoop)
        ensures
            message_loop.features() == features,
            message_loop.phase() == Phase::Registering,
    {
        MessageLoop { features, phase: Phase::Registering }
    }

    /// What is to be done next.
    pub fn action(&self) -> (action: Action)
        ensures
            action == action_in(self.phase()),
    {
        match self.phase {
            Phase::Registering => Action::RegisterClass,
            Phase::Creating => Action::CreateWindow,
            Phase::SettingLevel => Action::SetShutdownLevel(SHUTDOWN_LEVEL),
            Phase::SettingUpNetwork => Action::SetUpNetwork,
            Phase::Waiting { network: _ } => Action::GetMessage,
            Phase::Dispatching { network: _ } => Action::DispatchMessage,
            Phase::Cancelling { network } => Action::CancelNetwork(network),
            Phase::Releasing => Action::ReleaseWindow,
            Phase::Unregistering => Action::UnregisterClass,
            Phase::Finished => Action::Finish,
            Phase::Failed => Action::Fail,
        }
    }

    /// Goes on after an action with this outcome.
    pub fn advance(&mut self, outcome: Outcome)
        ensures
            final(self).features() == old(self).features(),
            final(self).phase() == next(old(self).features(), old(self).phase(), outcome),
    {
        let prepared = if self.features.network {
            Phase::SettingUpNetwork
        } else {
            Phase::Waiting { network: None }
        };
        let following = match (self.phase, outcome) {
            (Phase::Registering, Outcome::Registered(atom)) => if atom != 0 {
                Phase::Creating
            } else {
                Phase::Failed
            },
            (Phase::Creating, Outcome::Created(created)) => if !created {
                Phase::Failed
            } else if self.features.shutdown {
                Phase::SettingLevel
            } else {
                prepared
            },
            (Phase::SettingLevel, Outcome::Done) => prepared,
            (Phase::SettingUpNetwork, Outcome::NetworkSetUp(network)) => Phase::Waiting {
                network,
            },
            (Phase::Waiting { network }, Outcome::Message(ret)) => if ret != 0 && ret != -1 {
                Phase::Dispatching { network }
            } else {
                match network {
                    Some(handle) => Phase::Cancelling { network: handle },
                    None => Phase::Releasing,
                }
            },
            (Phase::Dispatching { network }, Outcome::Done) => Phase::Waiting { network },
            (Phase::Cancelling { network: _ }, Outcome::Done) => Phase::Releasing,
            (Phase::Releasing, Outcome::Done) => Phase::Unregistering,
            (Phase::Unregistering, Outcome::Done) => Phase::Finished,
            _ => self.phase,
        };
        self.phase = following;
    }
}

/// The phase after a run of outcomes.
pub open spec fn after_run(features: Features, outcomes: Seq<Outcome>) -> Phase
    decreases outcomes.len(),
{
    if outcomes.len() == 0 {
        Phase::Registering
    } else {
        next(features, after_run(features, outcomes.drop_last()), outcomes.last())
    }
}

/// The notification handle that the thread holds in a phase.
pub open spec fn held(phase: Phase) -> Option<usize> {
    match phase {
        Phase::Waiting { network } => network,
        Phase::Dispatching { network } => network,
        Phase::Cancelling { network } => Some(network),
        _ => None,
    }
}

/// A notification handle is kept until it is cancelled: the thread gives it up only after the
/// action that cancels it, and never trades it for another.
pub proof fn handle_is_cancelled_before_it_is_given_up(
    features: Features,
    phase: Phase,
    outcome: Outcome,
    handle: usize,
)
    requires
        held(phase) == Some(handle),
    ensures
        held(next(features, phase, outcome)) != Some(handle) ==> held(
            next(features, phase, outcome),
        ) is None && action_in(phase) == Action::CancelNetwork(handle),
{
}

/// A handle is cancelled only if setting up the network gave one.
pub proof fn handle_comes_from_setting_up(features: Features, phase: Phase, outcome: Outcome)
    requires
        held(phase) is None,
        held(next(features, phase, outcome)) is Some,
    ensures
        action_in(phase) == Action::SetUpNetwork,
        outcome == Outcome::NetworkSetUp(held(next(features, phase, outcome))),
{
}

/// The network is not set up, and no shutdown level is set, where those parts are not in use.
pub proof fn unused_parts_are_not_set_up(features: Features, outcomes: Seq<Outcome>)
    ensures
        !features.network ==> action_in(after_run(features, outcomes)) != Action::SetUpNetwork
            && held(after_run(features, outcomes)) is None,
        !features.shutdown ==> action_in(after_run(features, outcomes)) !is SetShutdownLevel,
    decreases outcomes.len(),
{
    if outcomes.len() > 0 {
        unused_parts_are_not_set_up(features, outcomes.drop_last());
    }
}

/// A thread that ends as it should has given up the window's state and unregistered the class,
/// in this order, after the message loop.
pub proof fn thread_cleans_up_before_it_finishes(
    features: Features,
    phase: Phase,
    outcome: Outcome,
)
    requires
        phase != next(features, phase, outcome),
    ensures
        next(features, phase, outcome) == Phase::Finished ==> action_in(phase)
            == Action::UnregisterClass,
        next(features, phase, outcome) == Phase::Unregistering ==> action_in(phase)
            == Action::ReleaseWindow,
        next(features, phase, outcome) == Phase::Releasing ==> action_in(phase) is CancelNetwork
            || action_in(phase) == Action::GetMessage,
{
}

/// Where a thread stands is told by the outcomes that it has been given since it was new, and what
/// it asks for next is told by where it stands.
pub proof fn thread_follows_its_outcomes(
    features: Features,
    new: MessageLoop,
    thread: &mut MessageLoop,
    run: Seq<Outcome>,
    outcome: Outcome,
    action: Action,
)
    requires
        call_ensures(MessageLoop::new, (features,), new),
        call_ensures(MessageLoop::advance, (thread, outcome), ()),
        call_ensures(MessageLoop::action, (&*thread,), action),
        old(thread).features() == features,
        old(thread).phase() == after_run(features, run),
    ensures
        new.features() == features,
        new.phase() == after_run(features, Seq::<Outcome>::empty()),
        action == action_in(after_run(features, run)),
        final(thread).features() == features,
        final(thread).phase() == after_run(features, run.push(outcome)),
{
    assert(run.push(outcome).drop_last() =~= run);
}

/// The outcomes of a start that goes well: the class is registered under `atom`, the window is
/// created, the shutdown level is set, and the network is set up with `network` as its handle, as
/// far as those parts are in use.
pub open spec fn good_start(features: Features, atom: u16, network: Option<usize>) -> Seq<Outcome> {
    let created = seq![Outcome::Registered(atom), Outcome::Created(true)];
    let levelled = if features.shutdown {
        created.push(Outcome::Done)
    } else {
        created
    };
    if features.network {
        levelled.push(Outcome::NetworkSetUp(network))
    } else {
        levelled
    }
}

/// The outcomes of getting messages with these results and handing each to the window.
pub open spec fn pumped(results: Seq<i32>) -> Seq<Outcome>
    decreases results.len(),
{
    if results.len() == 0 {
        Seq::empty()
    } else {
        pumped(results.drop_last()).push(Outcome::Message(results.last())).push(Outcome::Done)
    }
}

/// The actions that a thread asks for along a run of outcomes, the last one being what it asks for
/// when the run is over.
pub open spec fn asked(features: Features, outcomes: Seq<Outcome>) -> Seq<Action>
    decreases outcomes.len(),
{
    if outcomes.len() == 0 {
        seq![action_in(after_run(features, outcomes))]
    } else {
        asked(features, outcomes.drop_last()).push(action_in(after_run(features, outcomes)))
    }
}

proof fn run_goes_on(features: Features, run: Seq<Outcome>, outcome: Outcome)
    ensures
        after_run(features, run.push(outcome)) == next(features, after_run(features, run), outcome),
        asked(features, run.push(outcome)) == asked(features, run).push(
            action_in(after_run(features, run.push(outcome))),
        ),
{
    assert(run.push(outcome).drop_last() =~= run);
}

/// A start that goes well asks for the class, then for the window, then for the shutdown level and
/// the network as far as those parts are in use, and then for the first message. Nothing else is
/// asked for.
pub proof fn start_sets_up_what_is_in_use(features: Features, atom: u16, network: Option<usize>)
    requires
        atom != 0,
    ensures
        asked(features, good_start(features, atom, network)) == seq![
            Action::RegisterClass,
            Action::CreateWindow,
        ] + (if features.shutdown {
            seq![Action::SetShutdownLevel(0x3FF)]
        } else {
            seq![]
        }) + (if features.network {
            seq![Action::SetUpNetwork]
        } else {
            seq![]
        }) + seq![Action::GetMessage],
{
    start_leads_to_waiting(features, atom, network);
}

proof fn start_leads_to_waiting(features: Features, atom: u16, network: Option<usize>)
    requires
        atom != 0,
    ensures
        after_run(features, good_start(features, atom, network)) == (Phase::Waiting {
            network: if features.network {
                network
            } else {
                None
            },
        }),
        asked(features, good_start(features, atom, network)) =~= seq![
            Action::RegisterClass,
            Action::CreateWindow,
        ] + (if features.shutdown {
            seq![Action::SetShutdownLevel(0x3FF)]
        } else {
            seq![]
        }) + (if features.network {
            seq![Action::SetUpNetwork]
        } else {
            seq![]
        }) + seq![Action::GetMessage],
{
    let none = Seq::<Outcome>::empty();
    let registered = none.push(Outcome::Registered(atom));
    let created = registered.push(Outcome::Created(true));
    run_goes_on(features, none, Outcome::Registered(atom));
    run_goes_on(features, registered, Outcome::Created(true));
    assert(created =~= seq![Outcome::Registered(atom), Outcome::Created(true)]);
    let levelled = if features.shutdown {
        run_goes_on(features, created, Outcome::Done);
        created.push(Outcome::Done)
    } else {
        created
    };
    if features.network {
        run_goes_on(features, levelled, Outcome::NetworkSetUp(network));
    }
}

/// Every message is dispatched and the next one waited for, until there is none: for all parts in
/// use and every notification handle, present or not, after any number of messages, a further one is
/// handed to the window and the thread then asks for the next. Only at the end of the messages, or
/// when getting one fails, does the thread clean up: it cancels the notification that was set up, if
/// any, gives up the window's state, unregisters the class and ends.
pub proof fn every_message_is_dispatched_until_the_end(
    features: Features,
    atom: u16,
    network: Option<usize>,
    results: Seq<i32>,
    result: i32,
)
    requires
        atom != 0,
        forall|i: int| 0 <= i < results.len() ==> #[trigger] results[i] != 0 && results[i] != -1,
    ensures
        ({
            let run = good_start(features, atom, network) + pumped(results);
            let so_far = asked(features, run);
            &&& so_far.last() == Action::GetMessage
            &&& result != 0 && result != -1 ==> asked(
                features,
                run.push(Outcome::Message(result)).push(Outcome::Done),
            ) == so_far.push(Action::DispatchMessage).push(Action::GetMessage)
            &&& result == 0 || result == -1 ==> if features.network && network is Some {
                asked(
                    features,
                    run.push(Outcome::Message(result)).push(Outcome::Done).push(Outcome::Done).push(
                        Outcome::Done,
                    ),
                ) == so_far.push(Action::CancelNetwork(network->0)).push(
                    Action::ReleaseWindow,
                ).push(Action::UnregisterClass).push(Action::Finish)
            } else {
                asked(
                    features,
                    run.push(Outcome::Message(result)).push(Outcome::Done).push(Outcome::Done),
                ) == so_far.push(Action::ReleaseWindow).push(Action::UnregisterClass).push(
                    Action::Finish,
                )
            }
        }),
{
    let run = good_start(features, atom, network) + pumped(results);
    pumping_keeps_waiting(features, atom, network, results);
    let got = run.push(Outcome::Message(result));
    let done = got.push(Outcome::Done);
    run_goes_on(features, run, Outcome::Message(result));
    run_goes_on(features, got, Outcome::Done);
    run_goes_on(features, done, Outcome::Done);
    run_goes_on(features, done.push(Outcome::Done), Outcome::Done);
}

proof fn pumping_keeps_waiting(
    features: Features,
    atom: u16,
    network: Option<usize>,
    results: Seq<i32>,
)
    requires
        atom != 0,
        forall|i: int| 0 <= i < results.len() ==> #[trigger] results[i] != 0 && results[i] != -1,
    ensures
        after_run(features, good_start(features, atom, network) + pumped(results)) == (
        Phase::Waiting {
            network: if features.network {
                network
            } else {
                None
            },
        }),
        asked(features, good_start(features, atom, network) + pumped(results)).last()
            == Action::GetMessage,
    decreases results.len(),
{
    let start = good_start(features, atom, network);
    start_leads_to_waiting(features, atom, network);
    if results.len() == 0 {
        assert(start + pumped(results) =~= start);
    } else {
        let earlier = results.drop_last();
        assert forall|i: int| 0 <= i < earlier.len() implies #[trigger] earlier[i] != 0
            && earlier[i] != -1 by {
            assert(results[i] != 0);
        }
        pumping_keeps_waiting(features, atom, network, earlier);
        let run = start + pumped(earlier);
        assert(results[results.len() - 1] != 0);
        run_goes_on(features, run, Outcome::Message(results.last()));
        run_goes_on(features, run.push(Outcome::Message(results.last())), Outcome::Done);
        assert(start + pumped(results) =~= run.push(Outcome::Message(results.last())).push(
            Outcome::Done,
        ));
    }
}

/// What a thread asks for next is told by what it asked for and what came of it, wherever it stands:
/// a class or a window that cannot be had is the end; a message that was got is dispatched, whatever
/// the notification handle; the cleanup begins only at the end of the messages or when getting one
/// fails, and goes through to the end; and what does not belong to the action changes nothing.
pub proof fn next_action_follows_from_the_outcome(
    thread: &mut MessageLoop,
    outcome: Outcome,
    action: Action,
    following: Action,
)
    requires
        call_ensures(MessageLoop::action, (&*thread,), action),
        call_ensures(MessageLoop::advance, (thread, outcome), ()),
        call_ensures(MessageLoop::action, (&*final(thread),), following),
    ensures
        final(thread).features() == old(thread).features(),
        following == match (action, outcome) {
            (Action::RegisterClass, Outcome::Registered(atom)) => if atom == 0 {
                Action::Fail
            } else {
                Action::CreateWindow
            },
            (Action::CreateWindow, Outcome::Created(created)) => if !created {
                Action::Fail
            } else if old(thread).features().shutdown {
                Action::SetShutdownLevel(0x3FF)
            } else if old(thread).features().network {
                Action::SetUpNetwork
            } else {
                Action::GetMessage
            },
            (Action::SetShutdownLevel(_), Outcome::Done) => if old(thread).features().network {
                Action::SetUpNetwork
            } else {
                Action::GetMessage
            },
            (Action::SetUpNetwork, Outcome::NetworkSetUp(_)) => Action::GetMessage,
            (Action::GetMessage, Outcome::Message(ret)) => if ret != 0 && ret != -1 {
                Action::DispatchMessage
            } else {
                following
            },
            (Action::DispatchMessage, Outcome::Done) => Action::GetMessage,
            (Action::CancelNetwork(_), Outcome::Done) => Action::ReleaseWindow,
            (Action::ReleaseWindow, Outcome::Done) => Action::UnregisterClass,
            (Action::UnregisterClass, Outcome::Done) => Action::Finish,
            _ => action,
        },
        action is GetMessage ==> (outcome matches Outcome::Message(ret) ==> (ret == 0 || ret == -1)
            ==> following is CancelNetwork || following is ReleaseWindow),
{
}

} // verus!
