//! The timeout that decides when the gyroscope offset estimate may adapt.
use vstd::prelude::*;

verus! {

/// How long, in seconds, the gyroscope must stay stationary before its offset
/// estimate adapts.
pub const TIMEOUT_SECONDS: u64 = 5;

/// What a [`FusionOffset`] holds.
#[derive(Clone, Copy, Debug, PartialEq, Eq, Structural)]
pub struct OffsetState {
    /// Stationary samples seen in a row, up to the timeout.
    pub timer: u64,
    /// Stationary samples needed before the estimate adapts.
    pub timeout: u64,
}

impl OffsetState {
    /// The state of a new estimator for a sample rate in Hz.
    pub open spec fn initial(sample_rate: u32) -> OffsetState {
        OffsetState { timer: 0, timeout: (TIMEOUT_SECONDS * sample_rate) as u64 }
    }

    pub open spec fn wf(self) -> bool {
        self.timer <= self.timeout
    }

    /// Whether a sample with this stationarity adapts the estimate.
    pub open spec fn adapts(self, stationary: bool) -> bool {
        stationary && self.timer >= self.timeout
    }

    /// Motion restarts the timer; stationary samples advance it until it
    /// reaches the timeout.
    pub open spec fn next(self, stationary: bool) -> OffsetState {
        if !stationary {
            OffsetState { timer: 0, ..self }
        } else if self.timer < self.timeout {
            OffsetState { timer: (self.timer + 1) as u64, ..self }
        } else {
            self
        }
    }
}

/// Gyroscope offset algorithm structure.
///
/// The caller subtracts the current offset estimate from each gyroscope
/// sample, tells [`FusionOffset::update`] whether the result is stationary,
/// and moves the estimate towards the result when `update` says so.
pub struct FusionOffset {
    timer: u64,
    timeout: u64,
}

impl View for FusionOffset {
    type V = OffsetState;

    closed spec fn view(&self) -> OffsetState {
        OffsetState { timer: self.timer, timeout: self.timeout }
    }
}

impl FusionOffset {
    /// Create a new `FusionOffset` instance for a sample rate in Hz.
    pub fn new(sample_rate: u32) -> (r: FusionOffset)
        ensures
            r@ == OffsetState::initial(sample_rate),
            r@.wf(),
    {
        FusionOffset { timer: 0, timeout: TIMEOUT_SECONDS * sample_rate as u64 }
    }

    /// Stationary samples needed before the estimate adapts.
    pub fn timeout(&self) -> (r: u64)
        ensures
            r == self@.timeout,
    {
        self.timeout
    }

    /// Takes one sample into account and returns whether the offset estimate
    /// adapts to it.
    pub fn update(&mut self, stationary: bool) -> (r: bool)
        ensures
            r == old(self)@.adapts(stationary),
            final(self)@ == old(self)@.next(stationary),
            old(self)@.wf() ==> final(self)@.wf(),
    {
        if !stationary {
            self.timer = 0;
            false
        } else if self.timer < self.timeout {
            self.timer = self.timer + 1;
            false
        } else {
            true
        }
    }
}

/// The state after a sequence of samples.
pub open spec fn run_offset(state: OffsetState, samples: Seq<bool>) -> OffsetState
    decreases samples.len(),
{
    if samples.len() == 0 {
        state
    } else {
        run_offset(state, samples.drop_last()).next(samples.last())
    }
}

/// Whether sample `i` of a sequence adapts the estimate.
pub open spec fn adapts_at(state: OffsetState, samples: Seq<bool>, i: int) -> bool {
    run_offset(state, samples.take(i)).adapts(samples[i])
}

/// Sustained motion is never absorbed into the offset estimate: through any
/// run of samples that are not stationary, none adapts it.
pub proof fn lemma_motion_never_adapts(state: OffsetState, samples: Seq<bool>)
    requires
        forall|i: int| 0 <= i < samples.len() ==> !samples[i],
    ensures
        forall|i: int| 0 <= i < samples.len() ==> !adapts_at(state, samples, i),
        samples.len() > 0 ==> run_offset(state, samples).timer == 0,
{
}

/// Through a run of stationary samples from a well-formed state, sample `i`
/// adapts the estimate exactly when the timer has had `i` samples to reach the
/// timeout: the estimate keeps adapting for as long as the sensor rests.
pub proof fn lemma_rest_adapts_after_timeout(state: OffsetState, samples: Seq<bool>)
    requires
        state.wf(),
        forall|i: int| 0 <= i < samples.len() ==> samples[i],
    ensures
        forall|i: int| 0 <= i < samples.len() ==>
            (adapts_at(state, samples, i) <==> state.timer + i >= state.timeout),
{
    assert forall|i: int| 0 <= i < samples.len() implies
        (adapts_at(state, samples, i) <==> state.timer + i >= state.timeout) by {
        lemma_rest_timer(state, samples.take(i));
    }
}

/// The timer after a run of stationary samples.
proof fn lemma_rest_timer(state: OffsetState, samples: Seq<bool>)
    requires
        state.wf(),
        forall|i: int| 0 <= i < samples.len() ==> samples[i],
    ensures
        run_offset(state, samples) == (OffsetState {
            timer: if state.timer + samples.len() < state.timeout {
                (state.timer + samples.len()) as u64
            } else {
                state.timeout
            },
            timeout: state.timeout,
        }),
    decreases samples.len(),
{
    if samples.len() > 0 {
        lemma_rest_timer(state, samples.drop_last());
    }
}

} // verus!
