//! Storage of the latest conversion of every analog sensor channel, with a
//! count of conversion rounds.
use vstd::prelude::*;

verus! {

/// Number of analog sensor channels.
pub const ADC_CHANNEL_COUNT: usize = 6;

/// The analog sensor channels.
#[derive(Clone, Copy, Debug, PartialEq, Eq, Structural)]
pub enum Signal {
    AcceleratorPositionSensorHigh,
    AcceleratorPositionSensorLow,
    TorqueSensorHigh,
    TorqueSensorLow,
    BrakePedalPositionSensorHigh,
    BrakePedalPositionSensorLow,
}

/// The slot of a channel in the storage.
pub open spec fn signal_index(s: Signal) -> int {
    match s {
        Signal::AcceleratorPositionSensorHigh => 0,
        Signal::AcceleratorPositionSensorLow => 1,
        Signal::TorqueSensorHigh => 2,
        Signal::TorqueSensorLow => 3,
        Signal::BrakePedalPositionSensorHigh => 4,
        Signal::BrakePedalPositionSensorLow => 5,
    }
}

impl Signal {
    pub fn index(&self) -> (r: usize)
        ensures
            r == signal_index(*self),
    {
        match self {
            Signal::AcceleratorPositionSensorHigh => 0,
            Signal::AcceleratorPositionSensorLow => 1,
            Signal::TorqueSensorHigh => 2,
            Signal::TorqueSensorLow => 3,
            Signal::BrakePedalPositionSensorHigh => 4,
            Signal::BrakePedalPositionSensorLow => 5,
        }
    }
}

pub struct AdcStorage {
    samples: [u16; 6],
    count: u64,
}

impl AdcStorage {
    /// The stored samples, one per channel slot.
    pub closed spec fn samples_view(&self) -> Seq<u16> {
        self.samples@
    }

    pub closed spec fn count_view(&self) -> u64 {
        self.count
    }

    /// Every sample zero, no round counted.
    pub fn new() -> (r: Self)
        ensures
            r.samples_view() == Seq::new(6, |i: int| 0u16),
            r.count_view() == 0,
    {
        let r = AdcStorage { samples: [0; 6], count: 0 };
        assert(r.samples@ =~= Seq::new(6, |i: int| 0u16));
        r
    }

    /// Counts one more conversion round.
    pub fn increment(&mut self)
        requires
            old(self).count_view() < u64::MAX,
        ensures
            final(self).count_view() == old(self).count_view() + 1,
            final(self).samples_view() == old(self).samples_view(),
    {
        self.count = self.count + 1;
    }

    pub fn count(&self) -> (r: u64)
        ensures
            r == self.count_view(),
    {
        self.count
    }

    /// The sample in slot `i`.
    pub fn sample_at(&self, i: usize) -> (r: u16)
        requires
            i < ADC_CHANNEL_COUNT,
        ensures
            r == self.samples_view()[i as int],
    {
        self.samples[i]
    }

    /// Replaces the sample in slot `i`.
    pub fn set_sample_at(&mut self, i: usize, value: u16)
        requires
            i < ADC_CHANNEL_COUNT,
        ensures
            final(self).samples_view() == old(self).samples_view().update(i as int, value),
            final(self).count_view() == old(self).count_view(),
    {
        self.samples.set(i, value);
    }

    /// The sample of channel `s`.
    pub fn sample(&self, s: Signal) -> (r: u16)
        ensures
            r == self.samples_view()[signal_index(s)],
    {
        self.sample_at(s.index())
    }

    /// Replaces the sample of channel `s`.
    pub fn set_sample(&mut self, s: Signal, value: u16)
        ensures
            final(self).samples_view() == old(self).samples_view().update(signal_index(s), value),
            final(self).count_view() == old(self).count_view(),
    {
        self.set_sample_at(s.index(), value);
    }
}

} // verus!
