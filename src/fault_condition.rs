//! Debouncing of fault conditions: a condition counts only once it has held
//! continuously for a minimum duration.
use crate::dual_signal::{DualSignal, HighLowReader};
use vstd::prelude::*;

verus! {

/// Milliseconds from `start` to `now` on a free-running 32-bit counter that
/// wraps around.
pub open spec fn elapsed_ms(start: u32, now: u32) -> int {
    if now >= start {
        now - start
    } else {
        now - start + 0x1_0000_0000
    }
}

/// Whether a sensor pair reads as tied to ground: a zero on either channel.
pub open spec fn is_grounded(high: u16, low: u16) -> bool {
    high == 0 || low == 0
}

/// Tracks how long a boolean condition has held continuously.
pub struct FaultCondition {
    /// Whether the condition held at the last observation.
    pub monitoring_active: bool,
    /// When the condition started to hold; meaningless while not monitoring.
    pub condition_start_time: u32,
}

impl FaultCondition {
    /// The state after observing the condition as `active` at time `now`.
    pub open spec fn observe(self, active: bool, now: u32) -> FaultCondition {
        if !active {
            FaultCondition { monitoring_active: false, ..self }
        } else if !self.monitoring_active {
            FaultCondition { monitoring_active: true, condition_start_time: now }
        } else {
            self
        }
    }

    /// Whether observing `active` at `now` reports the condition as having
    /// held for at least `max_duration` milliseconds.
    pub open spec fn exceeded(self, active: bool, max_duration: u32, now: u32) -> bool {
        active && elapsed_ms(self.observe(active, now).condition_start_time, now) >= max_duration
    }

    /// The state of a condition that has not been observed yet.
    pub open spec fn new_spec() -> FaultCondition {
        FaultCondition { monitoring_active: false, condition_start_time: 0 }
    }

    pub fn new() -> (r: Self)
        ensures
            r == FaultCondition::new_spec(),
    {
        FaultCondition { monitoring_active: false, condition_start_time: 0 }
    }

    /// Observes the condition at time `now` and reports whether it has held
    /// continuously for at least `max_duration` milliseconds.
    pub fn condition_exceeded_duration(&mut self, condition_active: bool, max_duration: u32, now: u32) -> (r: bool)
        ensures
            *final(self) == old(self).observe(condition_active, now),
            r == old(self).exceeded(condition_active, max_duration, now),
    {
        if !condition_active {
            self.monitoring_active = false;
            false
        } else {
            if !self.monitoring_active {
                self.monitoring_active = true;
                self.condition_start_time = now;
            }
            now.wrapping_sub(self.condition_start_time) >= max_duration
        }
    }

    /// Reports whether either channel of `signal` has read zero continuously
    /// for at least `max_duration` milliseconds.
    pub fn check_voltage_grounded<R: HighLowReader>(&mut self, signal: &DualSignal<R>, max_duration: u32, now: u32) -> (r: bool)
        ensures
            *final(self) == old(self).observe(is_grounded(signal.high_value(), signal.low_value()), now),
            r == old(self).exceeded(is_grounded(signal.high_value(), signal.low_value()), max_duration, now),
    {
        let condition_active = signal.high() == 0 || signal.low() == 0;
        self.condition_exceeded_duration(condition_active, max_duration, now)
    }
}

/// The state after a run of observations, each a condition value and a time.
pub open spec fn observe_all(fc: FaultCondition, obs: Seq<(bool, u32)>) -> FaultCondition
    decreases obs.len(),
{
    if obs.len() == 0 {
        fc
    } else {
        observe_all(fc, obs.drop_last()).observe(obs.last().0, obs.last().1)
    }
}

/// What the last call of a non-empty run of observations reports.
pub open spec fn last_report(fc: FaultCondition, obs: Seq<(bool, u32)>, max_duration: u32) -> bool
    recommends
        obs.len() > 0,
{
    observe_all(fc, obs.drop_last()).exceeded(obs.last().0, max_duration, obs.last().1)
}

proof fn lemma_held_state(fc: FaultCondition, obs: Seq<(bool, u32)>)
    requires
        !fc.monitoring_active,
        obs.len() > 0,
        forall|i: int| 0 <= i < obs.len() ==> #[trigger] obs[i].0,
    ensures
        observe_all(fc, obs) == (FaultCondition { monitoring_active: true, condition_start_time: obs[0].1 }),
    decreases obs.len(),
{
    if obs.len() > 1 {
        let prefix = obs.drop_last();
        assert(prefix[0] == obs[0]);
        assert forall|i: int| 0 <= i < prefix.len() implies #[trigger] prefix[i].0 by {
            assert(prefix[i] == obs[i]);
        }
        lemma_held_state(fc, prefix);
    } else {
        assert(obs.drop_last().len() == 0);
        assert(observe_all(fc, obs.drop_last()) == fc);
        assert(obs.last() == obs[0]);
    }
    assert(obs.last().0 == obs[obs.len() - 1].0);
    assert(observe_all(fc, obs) == observe_all(fc, obs.drop_last()).observe(obs.last().0, obs.last().1));
}

/// A condition that holds at every observation of a run that starts while
/// nothing is being monitored is reported exactly when the time since the
/// first observation of the run has reached `max_duration`.
pub proof fn lemma_hysteresis_held(fc: FaultCondition, obs: Seq<(bool, u32)>, max_duration: u32)
    requires
        !fc.monitoring_active,
        obs.len() > 0,
        forall|i: int| 0 <= i < obs.len() ==> #[trigger] obs[i].0,
    ensures
        observe_all(fc, obs).monitoring_active,
        observe_all(fc, obs).condition_start_time == obs[0].1,
        last_report(fc, obs, max_duration) == (elapsed_ms(obs[0].1, obs.last().1) >= max_duration),
{
    lemma_held_state(fc, obs);
    let prefix = obs.drop_last();
    assert(obs.last().0 == obs[obs.len() - 1].0);
    if prefix.len() > 0 {
        assert(prefix[0] == obs[0]);
        assert forall|i: int| 0 <= i < prefix.len() implies #[trigger] prefix[i].0 by {
            assert(prefix[i] == obs[i]);
        }
        lemma_held_state(fc, prefix);
    } else {
        assert(obs.last() == obs[0]);
    }
}

/// One observation of the condition as false resets the timer: a run of
/// true observations after it is reported from its own first observation,
/// whatever the state before.
pub proof fn lemma_hysteresis_reset(fc: FaultCondition, t: u32, obs: Seq<(bool, u32)>, max_duration: u32)
    requires
        obs.len() > 0,
        forall|i: int| 0 <= i < obs.len() ==> #[trigger] obs[i].0,
    ensures
        !fc.observe(false, t).monitoring_active,
        last_report(fc.observe(false, t), obs, max_duration) == (elapsed_ms(obs[0].1, obs.last().1) >= max_duration),
{
    lemma_hysteresis_held(fc.observe(false, t), obs, max_duration);
}

/// On a wrapping millisecond counter, `k` ticks after `t0` the elapsed time
/// is `k`.
pub proof fn lemma_elapsed_ticks(t0: u32, k: u32)
    ensures
        elapsed_ms(t0, ((t0 as int + k as int) % 0x1_0000_0000) as u32) == k,
{
}

/// A run of true observations at consecutive ticks of the wrapping
/// millisecond counter, from `start` to `start + k`.
pub open spec fn tick_run(start: u32, k: nat) -> Seq<(bool, u32)> {
    Seq::new(k + 1, |i: int| (true, ((start as int + i) % 0x1_0000_0000) as u32))
}

/// A condition observed true at every tick from `start`, starting while
/// nothing is monitored, is not reported while it has held for fewer than
/// `max_duration` ticks, and is reported from the tick at which it has held
/// for `max_duration` on.
pub proof fn lemma_hysteresis_ticks(fc: FaultCondition, start: u32, k: nat, max_duration: u32)
    requires
        !fc.monitoring_active,
        k < 0x1_0000_0000,
    ensures
        forall|j: nat| j <= k ==> #[trigger] last_report(fc, tick_run(start, j), max_duration) == (j
            >= max_duration),
{
    assert forall|j: nat| j <= k implies #[trigger] last_report(fc, tick_run(start, j), max_duration)
        == (j >= max_duration) by {
        let obs = tick_run(start, j);
        assert forall|i: int| 0 <= i < obs.len() implies #[trigger] obs[i].0 by {}
        lemma_hysteresis_held(fc, obs, max_duration);
        assert(obs[0].1 == start);
        assert(obs.last().1 == ((start as int + j) % 0x1_0000_0000) as u32);
        lemma_elapsed_ticks(start, j as u32);
    }
}

} // verus!
