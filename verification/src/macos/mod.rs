//! What the macOS backend decides, apart from the calls into the system.
use vstd::prelude::*;

use crate::common::sleep::SleepMonitorLevel;
use crate::{Features, SentinelConfig};

pub mod network;
pub mod shutdown;
pub mod sleep;

verus! {

/// The listeners to install.
pub struct InstallPlan {
    /// Whether to take the place of the application's delegate.
    pub delegate: bool,
    /// How deeply to monitor sleep, if at all.
    pub power: Option<SleepMonitorLevel>,
    /// Whether to listen to the system's power messages.
    pub power_messages: bool,
    /// Whether to monitor the network path.
    pub path_monitor: bool,
}

/// Decides which listeners to install.
pub fn plan(features: Features, config: SentinelConfig) -> (plan: InstallPlan)
    ensures
        plan.delegate == features.shutdown,
        plan.power == if features.sleep {
            Some(config.sleep_monitor_level)
        } else {
            None
        },
        plan.power_messages == (features.sleep && config.sleep_monitor_level is Deep),
        plan.path_monitor == features.network,
{
    let deep = match config.sleep_monitor_level {
        SleepMonitorLevel::Deep { .. } => true,
        SleepMonitorLevel::Standard => false,
    };
    InstallPlan {
        delegate: features.shutdown,
        power: if features.sleep {
            Some(config.sleep_monitor_level)
        } else {
            None
        },
        power_messages: features.sleep && deep,
        path_monitor: features.network,
    }
}

/// Each listener is installed exactly if its part is in use: the delegate for shutdown, the path
/// monitor for the network, and for sleep the monitoring that was asked for, with power messages
/// only if it is deep.
pub proof fn listeners_follow_the_parts_in_use(
    features: Features,
    config: SentinelConfig,
    installed: InstallPlan,
)
    requires
        call_ensures(plan, (features, config), installed),
    ensures
        installed.delegate <==> features.shutdown,
        installed.path_monitor <==> features.network,
        installed.power is Some <==> features.sleep,
        installed.power matches Some(level) ==> level == config.sleep_monitor_level,
        installed.power_messages <==> (installed.power matches Some(level) && level is Deep),
{
}

} // verus!
