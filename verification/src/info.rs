//! The static descriptor the effect presents to its host.

use vstd::prelude::*;
use crate::params::PARAM_COUNT;

verus! {

/// Number of input channels, and of output channels: the effect is stereo.
pub const CHANNELS: i32 = 2;

/// Identifier under which hosts tell this effect from others.
pub const UNIQUE_ID: i32 = 1369;

/// What kind of plugin a host should list this as.
#[derive(Clone, Copy, Debug, PartialEq, Eq, Structural)]
pub enum Category {
    /// Not stated.
    Unknown,
    /// Processes incoming audio.
    Effect,
    /// Produces audio from events.
    Synth,
    /// Measures or displays the signal.
    Analysis,
    /// Dynamics and similar finishing tools.
    Mastering,
    /// Places the signal in the stereo field.
    Spacializer,
    /// Delays and reverbs.
    RoomFx,
    /// Surround processing.
    SurroundFx,
    /// Repairs a damaged signal.
    Restoration,
    /// Works on stored audio, not in real time.
    OfflineProcess,
    /// Hosts other plugins.
    Shell,
    /// Generates test or tone signals.
    Generator,
}

/// Static facts about the effect.
#[derive(Debug)]
pub struct PluginInfo {
    pub name: String,
    pub vendor: String,
    pub unique_id: i32,
    pub category: Category,
    pub parameters: i32,
    pub inputs: i32,
    pub outputs: i32,
}

/// The descriptor of this effect: a stereo-in, stereo-out effect named
/// "tanh" with as many parameters as the store holds.
pub fn get_info() -> (info: PluginInfo)
    ensures
        info.name@ == "tanh"@,
        info.vendor@ == "g-s-k"@,
        info.unique_id == UNIQUE_ID,
        info.category == Category::Effect,
        info.parameters == PARAM_COUNT,
        info.inputs == CHANNELS,
        info.outputs == CHANNELS,
{
    PluginInfo {
        name: "tanh".to_string(),
        vendor: "g-s-k".to_string(),
        unique_id: UNIQUE_ID,
        category: Category::Effect,
        parameters: PARAM_COUNT,
        inputs: CHANNELS,
        outputs: CHANNELS,
    }
}

} // verus!
