//! The plugin value and the state that switches its systems on and off.
use vstd::prelude::*;

verus! {

/// State for activating or deactivating the plugin's systems.
#[derive(Clone, Copy, Debug, PartialEq, Eq, Hash, Structural)]
pub enum BevyGpuComputeState {
    Running,
    Stopped,
}

impl Default for BevyGpuComputeState {
    /// The plugin starts out running.
    fn default() -> (r: Self)
        ensures
            r == BevyGpuComputeState::Running,
    {
        BevyGpuComputeState::Running
    }
}

/// The plugin. With the default schedule it also runs the fallback-camera system once at
/// startup; without it, that system runs only in the update schedule.
pub struct BevyGpuComputePlugin {
    with_default_schedule: bool,
}

impl BevyGpuComputePlugin {
    /// Whether this plugin registers the default schedule.
    pub closed spec fn default_schedule(&self) -> bool {
        self.with_default_schedule
    }

    /// A plugin that leaves the startup schedule alone.
    pub fn no_default_schedule() -> (r: Self)
        ensures
            !r.default_schedule(),
    {
        BevyGpuComputePlugin { with_default_schedule: false }
    }

    /// Whether the fallback-camera system is also added to the startup schedule.
    pub fn with_default_schedule(&self) -> (r: bool)
        ensures
            r == self.default_schedule(),
    {
        self.with_default_schedule
    }
}

impl Default for BevyGpuComputePlugin {
    /// By default the plugin registers the default schedule.
    fn default() -> (r: Self)
        ensures
            r.default_schedule(),
    {
        BevyGpuComputePlugin { with_default_schedule: true }
    }
}

} // verus!
