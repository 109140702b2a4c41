//! Filter settings that the rejection and recovery logic reads.
use vstd::prelude::*;
use crate::convention::Convention;

verus! {

/// What a [`Settings`] value holds.
#[derive(Clone, Copy, Debug, PartialEq, Eq, Structural)]
pub struct SettingsView {
    pub convention: Convention,
    pub recovery_trigger_period: u32,
}

/// AHRS algorithm settings: the Earth axes convention and the recovery trigger
/// period, in samples.
#[derive(Clone, Copy, Debug)]
pub struct Settings {
    convention: Convention,
    recovery_trigger_period: u32,
}

impl View for Settings {
    type V = SettingsView;

    closed spec fn view(&self) -> SettingsView {
        SettingsView {
            convention: self.convention,
            recovery_trigger_period: self.recovery_trigger_period,
        }
    }
}

/// The settings a new filter starts with.
pub open spec fn default_settings() -> SettingsView {
    SettingsView { convention: Convention::NorthWestUp, recovery_trigger_period: 0 }
}

impl Default for Settings {
    fn default() -> (r: Settings)
        ensures
            r@ == default_settings(),
    {
        Settings { convention: Convention::NorthWestUp, recovery_trigger_period: 0 }
    }
}

impl Settings {
    /// Create a new `Settings` instance with the default values.
    pub fn new() -> (r: Settings)
        ensures
            r@ == default_settings(),
    {
        Settings::default()
    }

    /// The Earth axes convention.
    pub fn convention(&self) -> (r: Convention)
        ensures
            r == self@.convention,
    {
        self.convention
    }

    /// The recovery trigger period, in samples.
    pub fn recovery_trigger_period(&self) -> (r: u32)
        ensures
            r == self@.recovery_trigger_period,
    {
        self.recovery_trigger_period
    }

    /// Sets the Earth axes convention.
    pub fn set_convention(&mut self, convention: Convention)
        ensures
            final(self)@ == (SettingsView { convention, ..old(self)@ }),
    {
        self.convention = convention;
    }

    /// Sets the recovery trigger period, in samples.
    pub fn set_recovery_trigger_period(&mut self, period: u32)
        ensures
            final(self)@ == (SettingsView { recovery_trigger_period: period, ..old(self)@ }),
    {
        self.recovery_trigger_period = period;
    }
}

} // verus!
