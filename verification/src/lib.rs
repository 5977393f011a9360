//! Monitors the life cycle of the system an application runs on: requests to shut down, sleep
//! and wake, and changes of the network.
use vstd::prelude::*;

use crate::common::channel;
use crate::common::model::ReceiverModel;

pub use crate::common::shutdown::ShutdownHandle;
pub use crate::common::sleep::{SleepHandle, SleepMonitorLevel};
pub use crate::common::{EventReceiver, EventSender, SystemEvent};

pub mod common;
pub mod macos;
pub mod windows;

verus! {

/// The parts of the sentinel that are in use.
#[derive(Clone, Copy, Debug, PartialEq, Eq, Structural)]
pub struct Features {
    /// Requests to shut down, restart or log out.
    pub shutdown: bool,
    /// Sleep and wake.
    pub sleep: bool,
    /// Changes of the network.
    pub network: bool,
}

impl Features {
    /// All parts.
    pub fn all() -> (features: Features)
        ensures
            features == (Features { shutdown: true, sleep: true, network: true }),
    {
        Features { shutdown: true, sleep: true, network: true }
    }

    /// Whether any part is in use.
    pub open spec fn any(&self) -> bool {
        self.shutdown || self.sleep || self.network
    }
}

/// How a sentinel is to work. The default suits most applications.
pub struct SentinelConfig {
    /// How deeply sleep is monitored on macOS. Other platforms take no notice of it.
    pub sleep_monitor_level: SleepMonitorLevel,
}

impl Default for SentinelConfig {
    fn default() -> (config: SentinelConfig)
        ensures
            config == (SentinelConfig { sleep_monitor_level: SleepMonitorLevel::Standard }),
    {
        SentinelConfig { sleep_monitor_level: SleepMonitorLevel::Standard }
    }
}

/// The platforms that are told apart.
#[derive(Clone, Copy, Debug, PartialEq, Eq, Structural)]
pub enum Platform {
    Windows,
    MacOs,
    /// A platform without a backend.
    Other,
}

/// The backend that a new sentinel needs: what listens to the system, and the sender that it
/// reports to.
pub enum Backend {
    /// A thread with a hidden window.
    Windows(EventSender),
    /// Listeners on the main thread.
    MacOs(EventSender, SentinelConfig),
    /// Nothing is to be started.
    Absent,
}

/// Receives the system's events. Start one when the application starts.
pub struct Sentinel {
    rx: EventReceiver,
}

impl View for Sentinel {
    type V = ReceiverModel<SystemEvent>;

    closed spec fn view(&self) -> ReceiverModel<SystemEvent> {
        self.rx@
    }
}

/// Whether a sentinel and its backend are the two new ends of one channel, on the given platform.
pub open spec fn started(
    config: SentinelConfig,
    platform: Platform,
    features: Features,
    sentinel: Sentinel,
    backend: Backend,
) -> bool {
    &&& sentinel@.valid()
    &&& sentinel@.received == Seq::<SystemEvent>::empty()
    &&& sentinel.polls() == 0
    &&& match (platform, features.any()) {
        (Platform::Windows, true) => {
            &&& backend matches Backend::Windows(tx)
            &&& tx@.fresh()
            &&& tx@.bound is None
            &&& tx.refused() == Seq::<SystemEvent>::empty()
            &&& tx@.traffic == sentinel@.traffic
        },
        (Platform::MacOs, true) => {
            &&& backend matches Backend::MacOs(tx, given)
            &&& given == config
            &&& tx@.fresh()
            &&& tx@.bound is None
            &&& tx.refused() == Seq::<SystemEvent>::empty()
            &&& tx@.traffic == sentinel@.traffic
        },
        _ => {
            &&& backend is Absent
            &&& sentinel@.traffic == Seq::<SystemEvent>::empty()
        },
    }
}

impl Sentinel {
    /// How often the sentinel has been asked for an event without waiting.
    pub closed spec fn polls(&self) -> nat {
        self.rx.polls()
    }

    /// Starts a sentinel with the default configuration.
    pub fn start(platform: Platform, features: Features) -> (pair: (Sentinel, Backend))
        ensures
            started(
                SentinelConfig { sleep_monitor_level: SleepMonitorLevel::Standard },
                platform,
                features,
                pair.0,
                pair.1,
            ),
    {
        Sentinel::start_with_config(SentinelConfig::default(), platform, features)
    }

    /// Starts a sentinel. The backend that is returned with it has to be started too. Where
    /// there is none, on another platform or with no part in use, the sentinel's channel is
    /// closed from the start.
    pub fn start_with_config(
        config: SentinelConfig,
        platform: Platform,
        features: Features,
    ) -> (pair: (Sentinel, Backend))
        ensures
            started(config, platform, features, pair.0, pair.1),
    {
        let (tx, rx) = channel();
        if !(features.shutdown || features.sleep || features.network) {
            tx.close();
            return (Sentinel { rx }, Backend::Absent);
        }
        match platform {
            Platform::Windows => (Sentinel { rx }, Backend::Windows(tx)),
            Platform::MacOs => (Sentinel { rx }, Backend::MacOs(tx, config)),
            Platform::Other => {
                tx.close();
                (Sentinel { rx }, Backend::Absent)
            },
        }
    }

    /// Waits for the next event. Returns `None` once the backend is gone and every event has
    /// been taken.
    pub fn recv(&mut self) -> (event: Option<SystemEvent>)
        ensures
            event == old(self)@.upcoming(),
            final(self)@ == old(self)@.after(event),
            final(self)@.valid(),
            final(self).polls() == old(self).polls(),
    {
        self.rx.recv()
    }

    /// Returns the next event if it is there, without waiting for it.
    pub fn try_recv(&mut self) -> (event: Option<SystemEvent>)
        ensures
            event is Some ==> event == old(self)@.upcoming(),
            final(self)@ == old(self)@.after(event),
            final(self)@.valid(),
            final(self).polls() == old(self).polls() + 1,
    {
        self.rx.try_recv()
    }

    /// Gives up the sentinel for its receiver, which can move to any thread.
    pub fn into_receiver(self) -> (rx: EventReceiver)
        ensures
            rx@ == self@,
            rx.polls() == self.polls(),
    {
        self.rx
    }
}

/// Without a backend nothing is ever received: the first call already says that there is no more.
pub proof fn absent_backend_yields_nothing(
    config: SentinelConfig,
    platform: Platform,
    features: Features,
    sentinel: Sentinel,
    backend: Backend,
)
    requires
        started(config, platform, features, sentinel, backend),
        platform == Platform::Other || !features.any(),
    ensures
        sentinel@.upcoming() is None,
        backend is Absent,
{
}

/// On Windows the configuration makes no difference.
pub proof fn windows_ignores_the_configuration(
    config: SentinelConfig,
    other: SentinelConfig,
    features: Features,
    sentinel: Sentinel,
    backend: Backend,
)
    requires
        started(config, Platform::Windows, features, sentinel, backend),
    ensures
        started(other, Platform::Windows, features, sentinel, backend),
{
}

/// On Windows with any part in use, whichever, the backend is the one for Windows; it and the
/// sentinel are the two ends of one new channel, which takes any number of events.
pub proof fn windows_backend_feeds_the_sentinel(
    config: SentinelConfig,
    features: Features,
    pair: (Sentinel, Backend),
)
    requires
        call_ensures(Sentinel::start_with_config, (config, Platform::Windows, features), pair),
        features.shutdown || features.sleep || features.network,
    ensures
        pair.1 is Windows,
        pair.1 matches Backend::Windows(tx) ==> {
            &&& tx@.traffic == pair.0@.traffic
            &&& tx@.sent.len() == 0
            &&& tx@.sole
            &&& tx@.bound is None
            &&& tx.refused().len() == 0
        },
        pair.0@.received.len() == 0,
        pair.0.polls() == 0,
{
}

/// On macOS with any part in use, whichever, the backend is the one for macOS and gets the
/// configuration that was given; it and the sentinel are the two ends of one new channel, which
/// takes any number of events.
pub proof fn macos_backend_feeds_the_sentinel(
    config: SentinelConfig,
    features: Features,
    pair: (Sentinel, Backend),
)
    requires
        call_ensures(Sentinel::start_with_config, (config, Platform::MacOs, features), pair),
        features.shutdown || features.sleep || features.network,
    ensures
        pair.1 is MacOs,
        pair.1 matches Backend::MacOs(tx, given) ==> {
            &&& given == config
            &&& tx@.traffic == pair.0@.traffic
            &&& tx@.sent.len() == 0
            &&& tx@.sole
            &&& tx@.bound is None
            &&& tx.refused().len() == 0
        },
        pair.0@.received.len() == 0,
        pair.0.polls() == 0,
{
}

/// There is no backend exactly on another platform or with no part in use, and then the sentinel
/// never receives anything. Each platform gets its own backend and no other.
pub proof fn backend_is_absent_only_without_platform_or_parts(
    config: SentinelConfig,
    platform: Platform,
    features: Features,
    pair: (Sentinel, Backend),
)
    requires
        call_ensures(Sentinel::start_with_config, (config, platform, features), pair),
    ensures
        pair.1 is Absent <==> platform is Other || (!features.shutdown && !features.sleep
            && !features.network),
        pair.1 is Windows ==> platform is Windows,
        pair.1 is MacOs ==> platform is MacOs,
        pair.1 is Absent ==> pair.0@.traffic.len() == 0,
        pair.0@.received.len() == 0,
{
}

/// Starting without a configuration is starting with standard monitoring of sleep.
pub proof fn plain_start_uses_standard_monitoring(
    platform: Platform,
    features: Features,
    pair: (Sentinel, Backend),
)
    requires
        call_ensures(Sentinel::start, (platform, features), pair),
    ensures
        pair.1 is Absent <==> platform is Other || (!features.shutdown && !features.sleep
            && !features.network),
        pair.1 is Windows ==> platform is Windows,
        pair.1 is MacOs ==> platform is MacOs,
        pair.1 matches Backend::Windows(tx) ==> tx@.traffic == pair.0@.traffic && tx@.sent.len()
            == 0 && tx@.bound is None,
        pair.1 matches Backend::MacOs(tx, given) ==> tx@.traffic == pair.0@.traffic
            && tx@.sent.len() == 0 && tx@.bound is None && given.sleep_monitor_level is Standard,
        pair.1 is Absent ==> pair.0@.traffic.len() == 0,
        pair.0@.received.len() == 0,
{
}

/// A sentinel that waits gets the next event that was sent, and takes it; there is none only at the
/// end of all that is ever sent.
pub proof fn sentinel_receives_the_next_event(sentinel: &mut Sentinel, event: Option<SystemEvent>)
    requires
        call_ensures(Sentinel::recv, (sentinel,), event),
    ensures
        final(sentinel)@.traffic == old(sentinel)@.traffic,
        event is Some <==> old(sentinel)@.received.len() < old(sentinel)@.traffic.len(),
        event matches Some(e) ==> e == old(sentinel)@.traffic[old(sentinel)@.received.len() as int]
            && final(sentinel)@.received == old(sentinel)@.received.push(e),
        event is None ==> final(sentinel)@.received == old(sentinel)@.received,
{
}

/// A sentinel that does not wait gets the next event that was sent and takes it, or gets none and
/// takes nothing.
pub proof fn sentinel_polls_the_next_event(sentinel: &mut Sentinel, event: Option<SystemEvent>)
    requires
        call_ensures(Sentinel::try_recv, (sentinel,), event),
    ensures
        final(sentinel)@.traffic == old(sentinel)@.traffic,
        final(sentinel).polls() == old(sentinel).polls() + 1,
        event matches Some(e) ==> old(sentinel)@.received.len() < old(sentinel)@.traffic.len() && e
            == old(sentinel)@.traffic[old(sentinel)@.received.len() as int] && final(sentinel)@.received == old(sentinel)@.received.push(e),
        event is None ==> final(sentinel)@.received == old(sentinel)@.received,
{
}

/// The receiver that a sentinel is given up for goes on where the sentinel was.
pub proof fn receiver_goes_on_where_the_sentinel_was(sentinel: Sentinel, rx: EventReceiver)
    requires
        call_ensures(Sentinel::into_receiver, (sentinel,), rx),
    ensures
        rx@.received == sentinel@.received,
        rx@.traffic == sentinel@.traffic,
        rx.polls() == sentinel.polls(),
{
}

/// With nothing chosen, all parts are in use and sleep is monitored the standard way.
pub proof fn defaults_leave_nothing_out(features: Features, config: SentinelConfig)
    requires
        call_ensures(Features::all, (), features),
        call_ensures(<SentinelConfig as Default>::default, (), config),
    ensures
        features.shutdown && features.sleep && features.network,
        config.sleep_monitor_level is Standard,
{
}

} // verus!
