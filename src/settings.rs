use vstd::prelude::*;

verus! {

/// The switches that frame pacing and the overlays read.
#[derive(Clone, Copy, PartialEq, Eq, Debug, Structural)]
pub struct GlobalSettings {
    /// Whether the debug overlay and the detailed window title are shown.
    pub debug_overlay: bool,
    /// When set, every cap-mode change is coerced back to vertical sync.
    pub force_vsync: bool,
}

impl GlobalSettings {
    pub fn toggle_debug_overlay(&mut self)
        ensures
            final(self).debug_overlay == !old(self).debug_overlay,
            final(self).force_vsync == old(self).force_vsync,
    {
        self.debug_overlay = !self.debug_overlay;
    }
}

impl Default for GlobalSettings {
    fn default() -> (r: GlobalSettings)
        ensures
            !r.debug_overlay,
            !r.force_vsync,
    {
        GlobalSettings { debug_overlay: false, force_vsync: false }
    }
}

/// Whether the debug UI is enabled.
#[derive(Clone, Copy, PartialEq, Eq, Debug, Structural)]
pub struct DebugState {
    pub enabled: bool,
}

impl Default for DebugState {
    fn default() -> (r: DebugState)
        ensures
            !r.enabled,
    {
        DebugState { enabled: false }
    }
}

/// The colour scheme the operating system reports.
#[derive(Clone, Copy, PartialEq, Eq, Debug, Structural)]
pub enum ThemeMode {
    Dark,
    Light,
    Unspecified,
}

/// The last colour scheme seen, so that a change can be acted on once.
#[derive(Clone, Copy, PartialEq, Eq, Debug, Structural)]
pub struct SystemThemeState {
    pub mode: ThemeMode,
}

impl SystemThemeState {
    /// Records the scheme just detected and tells whether it differs from the
    /// one seen before.
    pub fn observe(&mut self, detected: ThemeMode) -> (changed: bool)
        ensures
            final(self).mode == detected,
            changed == (old(self).mode != detected),
    {
        let changed = self.mode != detected;
        self.mode = detected;
        changed
    }
}

} // verus!
