use fusion_imu::{
    gravity_reference, magnetic_reference, Axis, Convention, Correction, Feedback, FusionAhrs,
    Settings, SignedAxis,
};

fn settings_with_period(period: u32) -> Settings {
    let mut settings = Settings::new();
    settings.set_recovery_trigger_period(period);
    settings
}

/// A filter past initialisation with the given recovery trigger period.
fn settled(period: u32) -> FusionAhrs {
    let mut ahrs = FusionAhrs::new();
    ahrs.set_settings(settings_with_period(period));
    ahrs.check_angular_rate(false);
    ahrs.update(true, Feedback::WithinThreshold, Feedback::WithinThreshold);
    ahrs
}

#[test]
fn settings_defaults() {
    let settings = Settings::new();
    assert_eq!(settings.convention(), Convention::NorthWestUp);
    assert_eq!(settings.recovery_trigger_period(), 0);
    let settings = Settings::default();
    assert_eq!(settings.convention(), Convention::NorthWestUp);
    assert_eq!(Convention::default(), Convention::NorthWestUp);
}

#[test]
fn settings_setters_change_one_field() {
    let mut settings = Settings::new();
    settings.set_convention(Convention::NorthWestDown);
    assert_eq!(settings.convention(), Convention::NorthWestDown);
    assert_eq!(settings.recovery_trigger_period(), 0);
    settings.set_recovery_trigger_period(250);
    assert_eq!(settings.convention(), Convention::NorthWestDown);
    assert_eq!(settings.recovery_trigger_period(), 250);
}

#[test]
fn reference_axes_per_convention() {
    let z = SignedAxis { axis: Axis::Z, negated: false };
    assert_eq!(gravity_reference(Convention::NorthWestUp), z);
    assert_eq!(gravity_reference(Convention::EastNorthUp), z);
    assert_eq!(
        gravity_reference(Convention::NorthWestDown),
        SignedAxis { axis: Axis::Z, negated: true }
    );
    assert_eq!(
        magnetic_reference(Convention::NorthWestUp),
        SignedAxis { axis: Axis::Y, negated: false }
    );
    assert_eq!(
        magnetic_reference(Convention::EastNorthUp),
        SignedAxis { axis: Axis::X, negated: true }
    );
    assert_eq!(
        magnetic_reference(Convention::NorthWestDown),
        SignedAxis { axis: Axis::Y, negated: true }
    );
}

#[test]
fn new_filter_is_initialising() {
    let ahrs = FusionAhrs::new();
    let flags = ahrs.get_flags();
    assert!(flags.initialising());
    assert!(!flags.angular_rate_recovery());
    assert!(!flags.acceleration_recovery());
    assert!(!flags.magnetic_recovery());
    let states = ahrs.get_internal_states();
    assert!(!states.accelerometer_ignored());
    assert!(!states.magnetometer_ignored());
    assert_eq!(states.acceleration_recovery_count(), 0);
    assert_eq!(states.magnetic_recovery_count(), 0);
    assert_eq!(FusionAhrs::default().get_flags().initialising(), true);
}

#[test]
fn initialisation_accepts_every_sample_until_ramp_completes() {
    let mut ahrs = FusionAhrs::new();
    ahrs.set_settings(settings_with_period(3));
    for _ in 0..10 {
        ahrs.check_angular_rate(false);
        let c = ahrs.update(false, Feedback::BeyondThreshold, Feedback::BeyondThreshold);
        assert_eq!(c, Correction { accelerometer: true, magnetometer: true });
        assert!(ahrs.get_flags().initialising());
    }
    ahrs.check_angular_rate(false);
    let c = ahrs.update(true, Feedback::BeyondThreshold, Feedback::WithinThreshold);
    assert!(!ahrs.get_flags().initialising());
    assert!(!c.accelerometer);
    assert!(c.magnetometer);
}

#[test]
fn acceleration_rejected_for_period_then_force_accepted() {
    let period: u32 = 5;
    let mut ahrs = settled(period);
    for tick in 1..=period {
        ahrs.check_angular_rate(false);
        let c = ahrs.update(false, Feedback::BeyondThreshold, Feedback::Unavailable);
        assert!(!c.accelerometer, "tick {}", tick);
        assert!(ahrs.get_internal_states().accelerometer_ignored());
        assert!(!ahrs.get_flags().acceleration_recovery(), "tick {}", tick);
        assert_eq!(ahrs.get_internal_states().acceleration_recovery_count(), tick);
    }
    ahrs.check_angular_rate(false);
    let c = ahrs.update(false, Feedback::BeyondThreshold, Feedback::Unavailable);
    assert!(c.accelerometer);
    assert!(ahrs.get_flags().acceleration_recovery());
    assert_eq!(ahrs.get_internal_states().acceleration_recovery_count(), period);
    // Still force-accepted while the disagreement persists.
    ahrs.check_angular_rate(false);
    assert!(ahrs.update(false, Feedback::BeyondThreshold, Feedback::Unavailable).accelerometer);
    assert!(ahrs.get_flags().acceleration_recovery());
}

#[test]
fn recovery_ends_once_samples_agree_again() {
    let mut ahrs = settled(20);
    for _ in 0..21 {
        ahrs.check_angular_rate(false);
        ahrs.update(false, Feedback::BeyondThreshold, Feedback::Unavailable);
    }
    assert!(ahrs.get_flags().acceleration_recovery());
    assert_eq!(ahrs.get_internal_states().acceleration_recovery_count(), 20);
    ahrs.check_angular_rate(false);
    assert!(ahrs.update(false, Feedback::WithinThreshold, Feedback::Unavailable).accelerometer);
    assert_eq!(ahrs.get_internal_states().acceleration_recovery_count(), 11);
    assert!(ahrs.get_flags().acceleration_recovery());
    ahrs.update(false, Feedback::WithinThreshold, Feedback::Unavailable);
    assert_eq!(ahrs.get_internal_states().acceleration_recovery_count(), 2);
    ahrs.update(false, Feedback::WithinThreshold, Feedback::Unavailable);
    assert_eq!(ahrs.get_internal_states().acceleration_recovery_count(), 0);
    assert!(!ahrs.get_flags().acceleration_recovery());
    // The timeout is armed again: a disagreeing sample is rejected.
    assert!(!ahrs.update(false, Feedback::BeyondThreshold, Feedback::Unavailable).accelerometer);
}

#[test]
fn magnetic_rejected_for_period_then_force_accepted() {
    let mut ahrs = settled(2);
    ahrs.check_angular_rate(false);
    assert!(!ahrs.update(false, Feedback::WithinThreshold, Feedback::BeyondThreshold).magnetometer);
    assert!(!ahrs.update(false, Feedback::WithinThreshold, Feedback::BeyondThreshold).magnetometer);
    assert!(!ahrs.get_flags().magnetic_recovery());
    assert!(ahrs.update(false, Feedback::WithinThreshold, Feedback::BeyondThreshold).magnetometer);
    assert!(ahrs.get_flags().magnetic_recovery());
    assert!(!ahrs.get_flags().acceleration_recovery());
    assert_eq!(ahrs.get_internal_states().magnetic_recovery_count(), 2);
}

#[test]
fn zero_period_never_rejects() {
    let mut ahrs = settled(0);
    for _ in 0..5 {
        let c = ahrs.update(false, Feedback::BeyondThreshold, Feedback::BeyondThreshold);
        assert!(c.accelerometer && c.magnetometer);
        let flags = ahrs.get_flags();
        assert!(!flags.acceleration_recovery() && !flags.magnetic_recovery());
    }
}

#[test]
fn zero_reading_is_ignored_and_leaves_trigger() {
    let mut ahrs = settled(4);
    ahrs.update(false, Feedback::BeyondThreshold, Feedback::BeyondThreshold);
    let c = ahrs.update(false, Feedback::Unavailable, Feedback::Unavailable);
    assert!(!c.accelerometer && !c.magnetometer);
    let states = ahrs.get_internal_states();
    assert!(states.accelerometer_ignored() && states.magnetometer_ignored());
    assert_eq!(states.acceleration_recovery_count(), 1);
    assert_eq!(states.magnetic_recovery_count(), 1);
    assert_eq!(states.recovery_trigger_period(), 4);
}

#[test]
fn gyroscope_range_exceeded_is_diagnostic_only() {
    let mut ahrs = settled(3);
    ahrs.update(false, Feedback::BeyondThreshold, Feedback::Unavailable);
    ahrs.check_angular_rate(true);
    let flags = ahrs.get_flags();
    assert!(!flags.initialising() && flags.angular_rate_recovery());
    assert_eq!(ahrs.get_internal_states().acceleration_recovery_count(), 1);
    ahrs.update(false, Feedback::BeyondThreshold, Feedback::Unavailable);
    assert!(ahrs.get_flags().angular_rate_recovery());
    assert_eq!(ahrs.get_internal_states().acceleration_recovery_count(), 2);
    ahrs.check_angular_rate(false);
    ahrs.update(false, Feedback::WithinThreshold, Feedback::Unavailable);
    let flags = ahrs.get_flags();
    assert!(!flags.initialising() && !flags.angular_rate_recovery());
}

#[test]
fn range_flag_survives_ramp_completing_on_the_same_sample() {
    let mut ahrs = FusionAhrs::new();
    ahrs.check_angular_rate(true);
    ahrs.update(true, Feedback::WithinThreshold, Feedback::Unavailable);
    let flags = ahrs.get_flags();
    assert!(!flags.initialising());
    assert!(flags.angular_rate_recovery());
}

#[test]
fn no_magnetometer_never_sets_magnetic_recovery() {
    let mut ahrs = FusionAhrs::new();
    ahrs.set_settings(settings_with_period(1));
    let c = ahrs.update_no_magnetometer(false, Feedback::WithinThreshold);
    assert_eq!(c, Correction { accelerometer: true, magnetometer: false });
    let c = ahrs.update_no_magnetometer(true, Feedback::WithinThreshold);
    assert_eq!(c, Correction { accelerometer: true, magnetometer: false });
    for _ in 0..50 {
        ahrs.check_angular_rate(false);
        let c = ahrs.update_no_magnetometer(false, Feedback::BeyondThreshold);
        assert!(!c.magnetometer);
        assert!(!ahrs.get_flags().magnetic_recovery());
        assert!(ahrs.get_internal_states().magnetometer_ignored());
    }
    assert!(ahrs.get_flags().acceleration_recovery());
}

#[test]
fn set_settings_keeps_initialisation_and_triggers() {
    let mut ahrs = settled(10);
    ahrs.update(false, Feedback::BeyondThreshold, Feedback::Unavailable);
    ahrs.update(false, Feedback::BeyondThreshold, Feedback::Unavailable);
    let mut settings = settings_with_period(1);
    settings.set_convention(Convention::EastNorthUp);
    ahrs.set_settings(settings);
    assert_eq!(ahrs.settings().convention(), Convention::EastNorthUp);
    assert!(!ahrs.get_flags().initialising());
    assert_eq!(ahrs.get_internal_states().acceleration_recovery_count(), 2);
    // The trigger now exceeds the re-armed timeout of one sample.
    assert!(ahrs.get_flags().acceleration_recovery());
}

#[test]
fn reset_reproduces_a_fresh_filter() {
    let inputs = [
        (false, false, Feedback::BeyondThreshold, Feedback::WithinThreshold),
        (false, true, Feedback::BeyondThreshold, Feedback::BeyondThreshold),
        (false, false, Feedback::BeyondThreshold, Feedback::Unavailable),
        (true, false, Feedback::WithinThreshold, Feedback::BeyondThreshold),
        (false, true, Feedback::BeyondThreshold, Feedback::BeyondThreshold),
        (false, false, Feedback::BeyondThreshold, Feedback::BeyondThreshold),
        (false, false, Feedback::BeyondThreshold, Feedback::BeyondThreshold),
        (false, false, Feedback::Unavailable, Feedback::BeyondThreshold),
    ];
    let mut settings = settings_with_period(2);
    settings.set_convention(Convention::NorthWestDown);
    let feed = |ahrs: &mut FusionAhrs| {
        let mut out = Vec::new();
        for &(exceeded, ramp, acc, mag) in inputs.iter() {
            ahrs.check_angular_rate(exceeded);
            let c = ahrs.update(ramp, acc, mag);
            let f = ahrs.get_flags();
            let s = ahrs.get_internal_states();
            out.push((
                c,
                f.initialising(),
                f.angular_rate_recovery(),
                f.acceleration_recovery(),
                f.magnetic_recovery(),
                s.acceleration_recovery_count(),
                s.magnetic_recovery_count(),
            ));
        }
        out
    };
    let mut used = FusionAhrs::new();
    used.set_settings(settings);
    feed(&mut used);
    used.reset();
    let mut fresh = FusionAhrs::new();
    fresh.set_settings(settings);
    assert_eq!(feed(&mut used), feed(&mut fresh));
    assert_eq!(used.settings().convention(), Convention::NorthWestDown);
}

#[test]
fn no_magnetometer_matches_unavailable_magnetometer() {
    let mut a = settled(3);
    let mut b = settled(3);
    for &acc in [Feedback::BeyondThreshold, Feedback::WithinThreshold, Feedback::BeyondThreshold].iter() {
        a.check_angular_rate(false);
        b.check_angular_rate(false);
        assert_eq!(a.update(false, acc, Feedback::Unavailable), b.update_no_magnetometer(false, acc));
        assert_eq!(
            a.get_internal_states().acceleration_recovery_count(),
            b.get_internal_states().acceleration_recovery_count()
        );
        assert_eq!(a.get_flags().magnetic_recovery(), b.get_flags().magnetic_recovery());
    }
}
