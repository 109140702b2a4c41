//! The supervisory state of the AHRS filter: initialisation, angular rate
//! recovery, and the rejection and recovery of accelerometer and magnetometer
//! corrections.
//!
//! One sample is taken in two steps. [`FusionAhrs::check_angular_rate`] comes
//! first; the caller then ramps its gain if [`Flags::initialising`] is set,
//! compares each correction source with its predicted direction, and hands the
//! outcome to one of the `update` methods, whose [`Correction`] says which
//! corrections to apply.
use vstd::prelude::*;
use crate::flags::{Flags, FlagsView};
use crate::internal_states::{InternalStates, InternalStatesView};
use crate::recovery::{lemma_rejection_then_recovery, repeat, Feedback, RecoveryChannel};
use crate::settings::{default_settings, Settings, SettingsView};

verus! {

/// What a [`FusionAhrs`] holds.
#[derive(Clone, Copy, Debug, PartialEq, Eq, Structural)]
pub struct AhrsState {
    pub settings: SettingsView,
    /// The gain is still being ramped down and every correction is accepted.
    pub initialising: bool,
    /// A gyroscope axis exceeded the configured range on the last sample.
    pub angular_rate_recovery: bool,
    /// Rejection and recovery of accelerometer corrections.
    pub acceleration: RecoveryChannel,
    /// Rejection and recovery of magnetometer corrections.
    pub magnetic: RecoveryChannel,
}

/// Which corrections the caller applies for the sample just taken.
#[derive(Clone, Copy, Debug, PartialEq, Eq, Structural)]
pub struct Correction {
    /// Apply the accelerometer feedback.
    pub accelerometer: bool,
    /// Apply the magnetometer feedback.
    pub magnetometer: bool,
}

/// The outcome of one sample as the caller observed it.
#[derive(Clone, Copy, Debug, PartialEq, Eq, Structural)]
pub struct Tick {
    /// A gyroscope axis exceeded the configured range.
    pub range_exceeded: bool,
    /// The initialisation gain ramp reached the configured gain.
    pub ramp_complete: bool,
    /// How the accelerometer compared with predicted gravity.
    pub accelerometer: Feedback,
    /// How the magnetometer compared with the predicted magnetic direction.
    pub magnetometer: Feedback,
}

impl AhrsState {
    /// The state after construction, or after a reset with these settings.
    pub open spec fn fresh(settings: SettingsView) -> AhrsState {
        AhrsState {
            settings,
            initialising: true,
            angular_rate_recovery: false,
            acceleration: RecoveryChannel::initial(settings.recovery_trigger_period),
            magnetic: RecoveryChannel::initial(settings.recovery_trigger_period),
        }
    }

    /// Both recovery channels are well formed for the configured period.
    pub open spec fn wf(self) -> bool {
        &&& self.acceleration.wf(self.settings.recovery_trigger_period)
        &&& self.magnetic.wf(self.settings.recovery_trigger_period)
    }

    /// New settings re-arm both timeouts and keep everything else.
    pub open spec fn with_settings(self, settings: SettingsView) -> AhrsState {
        AhrsState {
            settings,
            acceleration: RecoveryChannel {
                timeout: settings.recovery_trigger_period,
                ..self.acceleration
            },
            magnetic: RecoveryChannel { timeout: settings.recovery_trigger_period, ..self.magnetic },
            ..self
        }
    }

    /// The range check is diagnostic only: it marks whether this sample
    /// exceeded the gyroscope range and changes nothing else.
    pub open spec fn after_rate_check(self, range_exceeded: bool) -> AhrsState {
        AhrsState { angular_rate_recovery: range_exceeded, ..self }
    }

    /// Initialisation ends when the gain ramp completes; then each channel
    /// takes its sample.
    pub open spec fn after_update(
        self,
        ramp_complete: bool,
        accelerometer: Feedback,
        magnetometer: Feedback,
    ) -> AhrsState {
        let initialising = self.initialising && !ramp_complete;
        let period = self.settings.recovery_trigger_period;
        AhrsState {
            settings: self.settings,
            initialising,
            angular_rate_recovery: self.angular_rate_recovery,
            acceleration: self.acceleration.next(accelerometer, initialising, period),
            magnetic: self.magnetic.next(magnetometer, initialising, period),
        }
    }

    /// The state after one whole sample.
    pub open spec fn tick(self, t: Tick) -> AhrsState {
        self.after_rate_check(t.range_exceeded).after_update(
            t.ramp_complete,
            t.accelerometer,
            t.magnetometer,
        )
    }

    pub open spec fn flags(self) -> FlagsView {
        FlagsView {
            initialising: self.initialising,
            angular_rate_recovery: self.angular_rate_recovery,
            acceleration_recovery: self.acceleration.recovering(),
            magnetic_recovery: self.magnetic.recovering(),
        }
    }

    pub open spec fn internal_states(self) -> InternalStatesView {
        InternalStatesView {
            accelerometer_ignored: self.acceleration.ignored,
            acceleration_recovery_trigger: self.acceleration.trigger,
            magnetometer_ignored: self.magnetic.ignored,
            magnetic_recovery_trigger: self.magnetic.trigger,
            recovery_trigger_period: self.settings.recovery_trigger_period,
        }
    }
}

/// The state after a sequence of samples.
pub open spec fn run(state: AhrsState, ticks: Seq<Tick>) -> AhrsState
    decreases ticks.len(),
{
    if ticks.len() == 0 {
        state
    } else {
        run(state, ticks.drop_last()).tick(ticks.last())
    }
}

/// AHRS algorithm structure.
pub struct FusionAhrs {
    settings: Settings,
    initialising: bool,
    angular_rate_recovery: bool,
    acceleration: RecoveryChannel,
    magnetic: RecoveryChannel,
}

impl View for FusionAhrs {
    type V = AhrsState;

    closed spec fn view(&self) -> AhrsState {
        AhrsState {
            settings: self.settings@,
            initialising: self.initialising,
            angular_rate_recovery: self.angular_rate_recovery,
            acceleration: self.acceleration,
            magnetic: self.magnetic,
        }
    }
}

impl Default for FusionAhrs {
    fn default() -> (r: FusionAhrs)
        ensures
            r@ == AhrsState::fresh(default_settings()),
    {
        FusionAhrs::new()
    }
}

impl FusionAhrs {
    /// Create a new `FusionAhrs` instance with the default settings.
    pub fn new() -> (r: FusionAhrs)
        ensures
            r@ == AhrsState::fresh(default_settings()),
            r@.wf(),
    {
        let settings = Settings::new();
        let period = settings.recovery_trigger_period();
        FusionAhrs {
            settings,
            initialising: true,
            angular_rate_recovery: false,
            acceleration: RecoveryChannel::new(period),
            magnetic: RecoveryChannel::new(period),
        }
    }

    /// The current settings.
    pub fn settings(&self) -> (r: Settings)
        ensures
            r@ == self@.settings,
    {
        self.settings
    }

    /// Sets the AHRS algorithm settings.
    pub fn set_settings(&mut self, settings: Settings)
        ensures
            final(self)@ == old(self)@.with_settings(settings@),
    {
        let period = settings.recovery_trigger_period();
        self.settings = settings;
        self.acceleration.timeout = period;
        self.magnetic.timeout = period;
    }

    /// Resets the AHRS algorithm. This is equivalent to reinitialising the
    /// algorithm while maintaining the current settings.
    pub fn reset(&mut self)
        ensures
            final(self)@ == AhrsState::fresh(old(self)@.settings),
            final(self)@.wf(),
    {
        let period = self.settings.recovery_trigger_period();
        self.initialising = true;
        self.angular_rate_recovery = false;
        self.acceleration = RecoveryChannel::new(period);
        self.magnetic = RecoveryChannel::new(period);
    }

    /// First step of a sample: records whether a gyroscope axis exceeded the
    /// configured range. The sample is still integrated as usual.
    pub fn check_angular_rate(&mut self, range_exceeded: bool)
        ensures
            final(self)@ == (AhrsState { angular_rate_recovery: range_exceeded, ..old(self)@ }),
            final(self)@ == old(self)@.after_rate_check(range_exceeded),
            old(self)@.wf() ==> final(self)@.wf(),
    {
        self.angular_rate_recovery = range_exceeded;
    }

    /// Second step of a sample, with accelerometer and magnetometer.
    ///
    /// `ramp_complete` tells whether the initialisation gain ramp reached the
    /// configured gain on this sample; it is read only while initialising.
    pub fn update(&mut self, ramp_complete: bool, accelerometer: Feedback, magnetometer: Feedback) -> (r: Correction)
        ensures
            final(self)@ == old(self)@.after_update(ramp_complete, accelerometer, magnetometer),
            old(self)@.wf() ==> final(self)@.wf(),
            r == (Correction {
                accelerometer: !final(self)@.acceleration.ignored,
                magnetometer: !final(self)@.magnetic.ignored,
            }),
    {
        if self.initialising && ramp_complete {
            self.initialising = false;
        }
        let period = self.settings.recovery_trigger_period();
        self.acceleration.step(accelerometer, self.initialising, period);
        self.magnetic.step(magnetometer, self.initialising, period);
        Correction {
            accelerometer: !self.acceleration.ignored,
            magnetometer: !self.magnetic.ignored,
        }
    }

    /// Second step of a sample, without magnetometer: the magnetic correction
    /// is skipped entirely, as `update` does for an unavailable reading.
    pub fn update_no_magnetometer(&mut self, ramp_complete: bool, accelerometer: Feedback) -> (r: Correction)
        ensures
            final(self)@ == old(self)@.after_update(ramp_complete, accelerometer, Feedback::Unavailable),
            old(self)@.wf() ==> final(self)@.wf(),
            r == (Correction {
                accelerometer: !final(self)@.acceleration.ignored,
                magnetometer: false,
            }),
    {
        self.update(ramp_complete, accelerometer, Feedback::Unavailable)
    }

    /// Returns the AHRS algorithm internal states.
    pub fn get_internal_states(&self) -> (r: InternalStates)
        ensures
            r@ == self@.internal_states(),
    {
        InternalStates::new(
            self.acceleration.ignored,
            self.acceleration.trigger,
            self.magnetic.ignored,
            self.magnetic.trigger,
            self.settings.recovery_trigger_period(),
        )
    }

    /// Returns the AHRS algorithm flags.
    pub fn get_flags(&self) -> (r: Flags)
        ensures
            r@ == self@.flags(),
    {
        Flags::new(
            self.initialising,
            self.angular_rate_recovery,
            self.acceleration.is_recovering(),
            self.magnetic.is_recovering(),
        )
    }
}

/// A reset followed by a sequence of samples ends, after every prefix of the
/// sequence, in the same state as a new filter given the same settings and the
/// same samples: no state outlives a reset but the settings.
pub proof fn lemma_reset_replays(state: AhrsState, ticks: Seq<Tick>)
    ensures
        forall|i: int| 0 <= i <= ticks.len() ==>
            run(AhrsState::fresh(state.settings), ticks.take(i))
                == run(AhrsState::fresh(default_settings()).with_settings(state.settings), ticks.take(i)),
{
    assert(AhrsState::fresh(default_settings()).with_settings(state.settings)
        == AhrsState::fresh(state.settings));
}

/// Without a magnetometer, magnetic recovery is never set: a filter that is not
/// in magnetic recovery stays out of it through any sequence of samples that
/// carry no magnetometer reading.
pub proof fn lemma_no_magnetometer_never_recovers(state: AhrsState, ticks: Seq<Tick>)
    requires
        !state.flags().magnetic_recovery,
        forall|i: int| 0 <= i < ticks.len() ==> ticks[i].magnetometer == Feedback::Unavailable,
    ensures
        forall|i: int| 0 <= i <= ticks.len() ==> !run(state, ticks.take(i)).flags().magnetic_recovery,
{
    assert forall|i: int| 0 <= i <= ticks.len() implies !run(state, ticks.take(i)).flags().magnetic_recovery by {
        lemma_no_magnetometer_prefix(state, ticks.take(i));
    }
}

proof fn lemma_no_magnetometer_prefix(state: AhrsState, ticks: Seq<Tick>)
    requires
        !state.flags().magnetic_recovery,
        forall|i: int| 0 <= i < ticks.len() ==> ticks[i].magnetometer == Feedback::Unavailable,
    ensures
        !run(state, ticks).flags().magnetic_recovery,
    decreases ticks.len(),
{
    if ticks.len() > 0 {
        lemma_no_magnetometer_prefix(state, ticks.drop_last());
    }
}

/// An accelerometer reading held beyond the rejection threshold, once
/// initialisation has ended and with the acceleration channel freshly armed for
/// a nonzero recovery trigger period `n`: samples `1..=n` are ignored without
/// acceleration recovery, and sample `n + 1` is force-accepted with
/// acceleration recovery set.
pub proof fn lemma_acceleration_rejection_then_recovery(state: AhrsState, ticks: Seq<Tick>)
    requires
        !state.initialising,
        state.settings.recovery_trigger_period > 0,
        state.acceleration == RecoveryChannel::initial(state.settings.recovery_trigger_period),
        ticks.len() == state.settings.recovery_trigger_period + 1,
        forall|i: int| 0 <= i < ticks.len() ==> !ticks[i].range_exceeded,
        forall|i: int| 0 <= i < ticks.len() ==> ticks[i].accelerometer == Feedback::BeyondThreshold,
    ensures
        forall|k: int| 1 <= k <= state.settings.recovery_trigger_period ==>
            #[trigger] run(state, ticks.take(k)).acceleration.ignored
                && !run(state, ticks.take(k)).flags().acceleration_recovery,
        ({
            let s = run(state, ticks);
            !s.acceleration.ignored && s.flags().acceleration_recovery
        }),
{
    let period = state.settings.recovery_trigger_period;
    assert forall|k: int| 1 <= k <= period + 1 implies {
        &&& k <= period ==> #[trigger] run(state, ticks.take(k)).acceleration.ignored
            && !run(state, ticks.take(k)).acceleration.recovering()
        &&& k == period + 1 ==> !run(state, ticks.take(k)).acceleration.ignored
            && run(state, ticks.take(k)).acceleration.recovering()
    } by {
        lemma_rejected_prefix(state, ticks.take(k));
        lemma_rejection_then_recovery(period, k as nat);
    }
    lemma_rejected_prefix(state, ticks);
    lemma_rejection_then_recovery(period, (period + 1) as nat);
}

/// After a run of rejected accelerometer samples the acceleration channel is
/// where the same number of steps on the channel alone leaves it.
proof fn lemma_rejected_prefix(state: AhrsState, ticks: Seq<Tick>)
    requires
        !state.initialising,
        forall|i: int| 0 <= i < ticks.len() ==> !ticks[i].range_exceeded,
        forall|i: int| 0 <= i < ticks.len() ==> ticks[i].accelerometer == Feedback::BeyondThreshold,
    ensures
        !run(state, ticks).initialising,
        run(state, ticks).settings == state.settings,
        run(state, ticks).acceleration == repeat(
            state.acceleration,
            Feedback::BeyondThreshold,
            false,
            state.settings.recovery_trigger_period,
            ticks.len(),
        ),
    decreases ticks.len(),
{
    if ticks.len() > 0 {
        lemma_rejected_prefix(state, ticks.drop_last());
    }
}

/// The angular rate check is diagnostic only: after any sample the angular
/// rate recovery flag says whether that sample exceeded the gyroscope range,
/// whatever the gain ramp did on it.
pub proof fn lemma_angular_rate_recovery_marks_sample(state: AhrsState, ticks: Seq<Tick>)
    requires
        ticks.len() > 0,
    ensures
        run(state, ticks).flags().angular_rate_recovery == ticks.last().range_exceeded,
{
}

/// Once initialisation is over it stays over: no sequence of samples, whether
/// or not they exceed the gyroscope range, starts it again; only a reset does.
pub proof fn lemma_initialisation_stays_over(state: AhrsState, ticks: Seq<Tick>)
    requires
        !state.initialising,
    ensures
        forall|i: int| 0 <= i <= ticks.len() ==> !(#[trigger] run(state, ticks.take(i))).initialising,
{
    assert forall|i: int| 0 <= i <= ticks.len() implies !(#[trigger] run(state, ticks.take(i))).initialising by {
        lemma_initialisation_prefix(state, ticks.take(i));
    }
}

proof fn lemma_initialisation_prefix(state: AhrsState, ticks: Seq<Tick>)
    requires
        !state.initialising,
    ensures
        !run(state, ticks).initialising,
    decreases ticks.len(),
{
    if ticks.len() > 0 {
        lemma_initialisation_prefix(state, ticks.drop_last());
    }
}

} // verus!
