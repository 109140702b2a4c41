//! The AHRS algorithm internal states.
use vstd::prelude::*;

verus! {

/// What an [`InternalStates`] value holds.
#[derive(Clone, Copy, Debug, PartialEq, Eq, Structural)]
pub struct InternalStatesView {
    pub accelerometer_ignored: bool,
    pub acceleration_recovery_trigger: u32,
    pub magnetometer_ignored: bool,
    pub magnetic_recovery_trigger: u32,
    pub recovery_trigger_period: u32,
}

/// AHRS algorithm internal states, copied out of the filter state.
///
/// The recovery triggers are counts of samples within
/// `[0, recovery_trigger_period]`.
#[derive(Clone, Copy, Debug)]
pub struct InternalStates {
    accelerometer_ignored: bool,
    acceleration_recovery_trigger: u32,
    magnetometer_ignored: bool,
    magnetic_recovery_trigger: u32,
    recovery_trigger_period: u32,
}

impl View for InternalStates {
    type V = InternalStatesView;

    closed spec fn view(&self) -> InternalStatesView {
        InternalStatesView {
            accelerometer_ignored: self.accelerometer_ignored,
            acceleration_recovery_trigger: self.acceleration_recovery_trigger,
            magnetometer_ignored: self.magnetometer_ignored,
            magnetic_recovery_trigger: self.magnetic_recovery_trigger,
            recovery_trigger_period: self.recovery_trigger_period,
        }
    }
}

impl InternalStates {
    pub(crate) fn new(
        accelerometer_ignored: bool,
        acceleration_recovery_trigger: u32,
        magnetometer_ignored: bool,
        magnetic_recovery_trigger: u32,
        recovery_trigger_period: u32,
    ) -> (r: InternalStates)
        ensures
            r@ == (InternalStatesView {
                accelerometer_ignored,
                acceleration_recovery_trigger,
                magnetometer_ignored,
                magnetic_recovery_trigger,
                recovery_trigger_period,
            }),
    {
        InternalStates {
            accelerometer_ignored,
            acceleration_recovery_trigger,
            magnetometer_ignored,
            magnetic_recovery_trigger,
            recovery_trigger_period,
        }
    }

    /// Whether the last accelerometer sample was left out of the correction.
    pub fn accelerometer_ignored(&self) -> (r: bool)
        ensures
            r == self@.accelerometer_ignored,
    {
        self.accelerometer_ignored
    }

    /// The acceleration recovery trigger, in samples.
    pub fn acceleration_recovery_count(&self) -> (r: u32)
        ensures
            r == self@.acceleration_recovery_trigger,
    {
        self.acceleration_recovery_trigger
    }

    /// Whether the last magnetometer sample was left out of the correction.
    pub fn magnetometer_ignored(&self) -> (r: bool)
        ensures
            r == self@.magnetometer_ignored,
    {
        self.magnetometer_ignored
    }

    /// The magnetic recovery trigger, in samples.
    pub fn magnetic_recovery_count(&self) -> (r: u32)
        ensures
            r == self@.magnetic_recovery_trigger,
    {
        self.magnetic_recovery_trigger
    }

    /// The recovery trigger period the counts are measured against.
    pub fn recovery_trigger_period(&self) -> (r: u32)
        ensures
            r == self@.recovery_trigger_period,
    {
        self.recovery_trigger_period
    }
}

} // verus!
