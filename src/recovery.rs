//! Rejection of implausible corrections, and the recovery trigger that forces
//! them to be accepted once they have been rejected for too long.
use vstd::prelude::*;

verus! {

/// How a correction source (accelerometer or magnetometer) compared with the
/// direction the filter predicts for it on one sample.
#[derive(Clone, Copy, Debug, PartialEq, Eq, Structural)]
pub enum Feedback {
    /// The reading is the zero vector: no correction is available.
    Unavailable,
    /// The angular error is within the rejection threshold.
    WithinThreshold,
    /// The angular error exceeds the rejection threshold.
    BeyondThreshold,
}

/// How much an accepted sample lowers the recovery trigger.
pub const TRIGGER_DECREMENT: u32 = 9;

/// Rejection and recovery state of one correction source.
#[derive(Clone, Copy, Debug, PartialEq, Eq, Structural)]
pub struct RecoveryChannel {
    /// Recovery trigger: rises by one for each rejected sample.
    pub trigger: u32,
    /// The trigger value above which rejected samples are accepted anyway.
    pub timeout: u32,
    /// Whether the last sample's correction was left out.
    pub ignored: bool,
}

/// `value` clamped to `[0, max]`.
pub open spec fn clamp(value: int, max: u32) -> u32 {
    if value < 0 {
        0
    } else if value > max {
        max
    } else {
        value as u32
    }
}

impl RecoveryChannel {
    /// The state after construction or reset.
    pub open spec fn initial(period: u32) -> RecoveryChannel {
        RecoveryChannel { trigger: 0, timeout: period, ignored: false }
    }

    /// The trigger lies within the period, and the timeout is either armed at
    /// the period or disarmed at zero.
    pub open spec fn wf(self, period: u32) -> bool {
        &&& self.trigger <= period
        &&& (self.timeout == period || self.timeout == 0)
    }

    /// Whether rejected samples are being force-accepted.
    pub open spec fn recovering(self) -> bool {
        self.trigger > self.timeout
    }

    /// The state after one sample.
    ///
    /// While the filter initialises every available sample is accepted. A
    /// sample beyond the threshold is rejected and raises the trigger by one;
    /// an accepted sample lowers it. Once the trigger exceeds the timeout,
    /// samples are accepted regardless and the timeout is disarmed until the
    /// trigger falls back to it. The trigger is kept within `[0, period]`.
    pub open spec fn next(self, feedback: Feedback, initialising: bool, period: u32) -> RecoveryChannel {
        if feedback is Unavailable {
            RecoveryChannel { ignored: true, ..self }
        } else {
            let accepted = initialising || feedback is WithinThreshold;
            let raised: int = if accepted {
                self.trigger - TRIGGER_DECREMENT
            } else {
                self.trigger + 1
            };
            let forced = raised > self.timeout;
            RecoveryChannel {
                trigger: clamp(raised, period),
                timeout: if forced { 0 } else { period },
                ignored: !accepted && !forced,
            }
        }
    }

    /// Returns the state after construction or reset.
    pub fn new(period: u32) -> (r: RecoveryChannel)
        ensures
            r == RecoveryChannel::initial(period),
    {
        RecoveryChannel { trigger: 0, timeout: period, ignored: false }
    }

    /// Whether rejected samples are being force-accepted.
    pub fn is_recovering(&self) -> (r: bool)
        ensures
            r == self.recovering(),
    {
        self.trigger > self.timeout
    }

    /// Takes one sample into account.
    pub fn step(&mut self, feedback: Feedback, initialising: bool, period: u32)
        ensures
            *final(self) == old(self).next(feedback, initialising, period),
            old(self).wf(period) ==> final(self).wf(period),
    {
        match feedback {
            Feedback::Unavailable => {
                self.ignored = true;
            },
            _ => {
                let accepted = initialising || feedback == Feedback::WithinThreshold;
                let raised: i64 = if accepted {
                    self.trigger as i64 - TRIGGER_DECREMENT as i64
                } else {
                    self.trigger as i64 + 1
                };
                let forced = raised > self.timeout as i64;
                self.trigger = if raised < 0 {
                    0
                } else if raised > period as i64 {
                    period
                } else {
                    raised as u32
                };
                self.timeout = if forced { 0 } else { period };
                self.ignored = !accepted && !forced;
            },
        }
    }
}

/// The state after `n` samples with the same feedback.
pub open spec fn repeat(
    channel: RecoveryChannel,
    feedback: Feedback,
    initialising: bool,
    period: u32,
    n: nat,
) -> RecoveryChannel
    decreases n,
{
    if n == 0 {
        channel
    } else {
        repeat(channel, feedback, initialising, period, (n - 1) as nat).next(
            feedback,
            initialising,
            period,
        )
    }
}

/// A reading held beyond the rejection threshold, after initialisation and
/// from a freshly armed channel with a nonzero period `n`: samples `1..=n` are
/// ignored without recovery, and sample `n + 1` is force-accepted with
/// recovery set.
pub proof fn lemma_rejection_then_recovery(period: u32, k: nat)
    requires
        period > 0,
        1 <= k <= period + 1,
    ensures
        k <= period ==> {
            let c = repeat(RecoveryChannel::initial(period), Feedback::BeyondThreshold, false, period, k);
            c.ignored && !c.recovering()
        },
        k == period + 1 ==> {
            let c = repeat(RecoveryChannel::initial(period), Feedback::BeyondThreshold, false, period, k);
            !c.ignored && c.recovering()
        },
{
    lemma_rejected_run(period, if k <= period { k } else { period as nat });
}

/// The state after `k <= period` rejected samples from a freshly armed channel.
proof fn lemma_rejected_run(period: u32, k: nat)
    requires
        k <= period,
    ensures
        repeat(RecoveryChannel::initial(period), Feedback::BeyondThreshold, false, period, k)
            == (RecoveryChannel { trigger: k as u32, timeout: period, ignored: k > 0 }),
    decreases k,
{
    if k > 0 {
        lemma_rejected_run(period, (k - 1) as nat);
    }
}

} // verus!
