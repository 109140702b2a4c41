//! The AHRS algorithm flags.
use vstd::prelude::*;

verus! {

/// What a [`Flags`] value holds.
#[derive(Clone, Copy, Debug, PartialEq, Eq, Structural)]
pub struct FlagsView {
    pub initialising: bool,
    pub angular_rate_recovery: bool,
    pub acceleration_recovery: bool,
    pub magnetic_recovery: bool,
}

/// AHRS algorithm flags, copied out of the filter state.
#[derive(Clone, Copy, Debug)]
pub struct Flags {
    initialising: bool,
    angular_rate_recovery: bool,
    acceleration_recovery: bool,
    magnetic_recovery: bool,
}

impl View for Flags {
    type V = FlagsView;

    closed spec fn view(&self) -> FlagsView {
        FlagsView {
            initialising: self.initialising,
            angular_rate_recovery: self.angular_rate_recovery,
            acceleration_recovery: self.acceleration_recovery,
            magnetic_recovery: self.magnetic_recovery,
        }
    }
}

impl Flags {
    pub(crate) fn new(
        initialising: bool,
        angular_rate_recovery: bool,
        acceleration_recovery: bool,
        magnetic_recovery: bool,
    ) -> (r: Flags)
        ensures
            r@ == (FlagsView {
                initialising,
                angular_rate_recovery,
                acceleration_recovery,
                magnetic_recovery,
            }),
    {
        Flags { initialising, angular_rate_recovery, acceleration_recovery, magnetic_recovery }
    }

    /// Set while the filter initialises: corrections are always accepted and the
    /// gain is ramped down towards its setting.
    pub fn initialising(&self) -> (r: bool)
        ensures
            r == self@.initialising,
    {
        self.initialising
    }

    /// Set after the gyroscope range was exceeded, until initialisation ends.
    pub fn angular_rate_recovery(&self) -> (r: bool)
        ensures
            r == self@.angular_rate_recovery,
    {
        self.angular_rate_recovery
    }

    /// Set while rejected accelerometer samples are force-accepted.
    pub fn acceleration_recovery(&self) -> (r: bool)
        ensures
            r == self@.acceleration_recovery,
    {
        self.acceleration_recovery
    }

    /// Set while rejected magnetometer samples are force-accepted.
    pub fn magnetic_recovery(&self) -> (r: bool)
        ensures
            r == self@.magnetic_recovery,
    {
        self.magnetic_recovery
    }
}

} // verus!
