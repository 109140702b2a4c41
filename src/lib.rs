//! Attitude and heading reference system: the decision logic of a
//! complementary orientation filter and of a gyroscope offset estimator.
//!
//! The filter's state machine lives here: initialisation, angular rate
//! recovery, the rejection of implausible accelerometer and magnetometer
//! corrections with the recovery trigger that forces them back in, the Earth
//! axes conventions, and the timeout after which a gyroscope offset estimate
//! adapts. The vector and quaternion arithmetic that feeds it is done by the
//! caller, which reports each sample's outcome as a [`Feedback`] and applies
//! the [`Correction`] it gets back.
mod ahrs;
mod convention;
mod flags;
mod internal_states;
mod offset;
mod recovery;
mod settings;

pub use ahrs::{
    lemma_acceleration_rejection_then_recovery, lemma_angular_rate_recovery_marks_sample,
    lemma_initialisation_stays_over, lemma_no_magnetometer_never_recovers, lemma_reset_replays, run, AhrsState, Correction, FusionAhrs, Tick,
};
pub use convention::{
    axis_direction, gravity_reference, magnetic_reference, opposite, Axis, Convention,
    EarthDirection, SignedAxis,
};
pub use flags::{Flags, FlagsView};
pub use internal_states::{InternalStates, InternalStatesView};
pub use offset::{
    adapts_at, lemma_motion_never_adapts, lemma_rest_adapts_after_timeout, run_offset,
    FusionOffset, OffsetState, TIMEOUT_SECONDS,
};
pub use recovery::{
    clamp, lemma_rejection_then_recovery, repeat, Feedback, RecoveryChannel, TRIGGER_DECREMENT,
};
pub use settings::{default_settings, Settings, SettingsView};
