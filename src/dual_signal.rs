//! A redundant pair of analog sensor readings.
use crate::numeric::clamp_u16;
use vstd::prelude::*;

verus! {

/// Number of reads averaged by a discontinuity-avoiding seed.
pub const DAC_SAMPLE_AVERAGE_COUNT: usize = 20;

/// Sum of a sequence of samples.
pub open spec fn seq_sum(s: Seq<u16>) -> nat
    decreases s.len(),
{
    if s.len() == 0 {
        0
    } else {
        seq_sum(s.drop_last()) + s.last() as nat
    }
}

/// Integer-truncated mean of a non-empty sequence of samples.
pub open spec fn seq_average(s: Seq<u16>) -> nat
    recommends
        s.len() > 0,
{
    seq_sum(s) / s.len()
}

/// Mean of the pair, truncated.
pub open spec fn pair_average(high: u16, low: u16) -> int {
    (high as int + low as int) / 2
}

/// Absolute difference of the pair.
pub open spec fn pair_diff(high: u16, low: u16) -> int {
    if high >= low {
        high - low
    } else {
        low - high
    }
}

proof fn lemma_seq_sum_bound(s: Seq<u16>)
    ensures
        seq_sum(s) <= s.len() * 0xFFFF,
    decreases s.len(),
{
    if s.len() > 0 {
        lemma_seq_sum_bound(s.drop_last());
    }
}

proof fn lemma_seq_sum_bounded_by(s: Seq<u16>, bound: u16)
    requires
        forall|i: int| 0 <= i < s.len() ==> #[trigger] s[i] <= bound,
    ensures
        seq_sum(s) <= s.len() * bound,
    decreases s.len(),
{
    if s.len() > 0 {
        let p = s.drop_last();
        assert forall|i: int| 0 <= i < p.len() implies #[trigger] p[i] <= bound by {
            assert(p[i] == s[i]);
        }
        lemma_seq_sum_bounded_by(p, bound);
        assert(s.last() == s[s.len() - 1]);
        let n = s.len() as int;
        assert((n - 1) * bound + bound == n * bound) by (nonlinear_arith);
    }
}

/// The mean of samples that are all at most `bound` is at most `bound`.
pub proof fn lemma_average_bounded_by(s: Seq<u16>, bound: u16)
    requires
        s.len() > 0,
        forall|i: int| 0 <= i < s.len() ==> #[trigger] s[i] <= bound,
    ensures
        seq_average(s) <= bound,
{
    lemma_seq_sum_bounded_by(s, bound);
    let n = s.len() as int;
    let t = seq_sum(s) as int;
    let b = bound as int;
    assert(t / n <= b) by (nonlinear_arith)
        requires
            t <= n * b,
            n > 0,
            t >= 0,
    ;
}

proof fn lemma_average_fits(s: Seq<u16>)
    requires
        s.len() > 0,
    ensures
        seq_average(s) <= 0xFFFF,
{
    lemma_seq_sum_bound(s);
    let n = s.len() as int;
    let t = seq_sum(s) as int;
    assert(t / n <= 0xFFFF) by (nonlinear_arith)
        requires
            t <= n * 0xFFFF,
            n > 0,
            t >= 0,
    ;
}

/// The truncated mean of the samples.
pub fn sample_average(samples: &Vec<u16>) -> (r: u16)
    requires
        0 < samples@.len() <= 0xFFFF_FFFF,
    ensures
        r as nat == seq_average(samples@),
{
    let mut sum: u64 = 0;
    let mut i: usize = 0;
    while i < samples.len()
        invariant
            i <= samples@.len() <= 0xFFFF_FFFF,
            sum as nat == seq_sum(samples@.take(i as int)),
        decreases samples@.len() - i,
    {
        proof {
            lemma_seq_sum_bound(samples@.take(i as int));
            assert(samples@.take(i as int + 1).drop_last() == samples@.take(i as int));
        }
        sum = sum + samples[i] as u64;
        i = i + 1;
    }
    proof {
        assert(samples@.take(i as int) == samples@);
        lemma_average_fits(samples@);
    }
    (sum / (samples.len() as u64)) as u16
}

/// A source of raw readings of a sensor pair, one channel at a time.
pub trait HighLowReader {
    /// One reading of the high channel.
    fn read_high(&self) -> u16;

    /// One reading of the low channel.
    fn read_low(&self) -> u16;
}

/// Largest reading of the ADC (12 bits).
pub const ADC_MAX: u16 = 4095;

/// A run of seeding reads: `DAC_SAMPLE_AVERAGE_COUNT` readings, each within
/// the ADC's range.
pub open spec fn valid_seed_samples(s: Seq<u16>) -> bool {
    s.len() == DAC_SAMPLE_AVERAGE_COUNT && forall|i: int| 0 <= i < s.len() ==> #[trigger] s[i] <= ADC_MAX
}

/// Whether `high` and `low` are the truncated means of runs of seeding
/// reads of the high and the low channel.
pub open spec fn is_seed_pair(high: u16, low: u16) -> bool {
    exists|highs: Seq<u16>, lows: Seq<u16>|
        valid_seed_samples(highs) && valid_seed_samples(lows) && high as nat == seq_average(highs)
            && low as nat == seq_average(lows)
}

/// The two most recent readings of a redundant sensor pair, and the source
/// they are read from.
pub struct DualSignal<R: HighLowReader> {
    high: u16,
    low: u16,
    reader: R,
}

impl<R: HighLowReader> DualSignal<R> {
    /// The stored high reading.
    pub closed spec fn high_value(&self) -> u16 {
        self.high
    }

    /// The stored low reading.
    pub closed spec fn low_value(&self) -> u16 {
        self.low
    }

    /// The source of readings.
    pub closed spec fn source(&self) -> R {
        self.reader
    }

    /// Both stored readings are within the ADC's range.
    pub open spec fn wf(&self) -> bool {
        self.high_value() <= ADC_MAX && self.low_value() <= ADC_MAX
    }

    pub fn new(high: u16, low: u16, high_low_reader: R) -> (r: Self)
        requires
            high <= ADC_MAX,
            low <= ADC_MAX,
        ensures
            r.wf(),
            r.high_value() == high,
            r.low_value() == low,
            r.source() == high_low_reader,
    {
        DualSignal { high, low, reader: high_low_reader }
    }

    /// One reading of the high channel, limited to the ADC's range.
    fn read_high(&self) -> (r: u16)
        ensures
            r <= ADC_MAX,
    {
        clamp_u16(self.reader.read_high(), 0, ADC_MAX)
    }

    /// One reading of the low channel, limited to the ADC's range.
    fn read_low(&self) -> (r: u16)
        ensures
            r <= ADC_MAX,
    {
        clamp_u16(self.reader.read_low(), 0, ADC_MAX)
    }

    /// Replaces both readings with fresh ones from the source.
    pub fn update(&mut self)
        ensures
            final(self).wf(),
            final(self).source() == old(self).source(),
    {
        let high = self.read_high();
        let low = self.read_low();
        self.store(high, low);
    }

    /// Replaces both readings with the given ones.
    pub fn store(&mut self, high: u16, low: u16)
        requires
            high <= ADC_MAX,
            low <= ADC_MAX,
        ensures
            final(self).wf(),
            final(self).high_value() == high,
            final(self).low_value() == low,
            final(self).source() == old(self).source(),
    {
        self.high = high;
        self.low = low;
    }

    /// Stores, for each channel, the truncated mean of a run of seeding
    /// reads.
    pub fn seed_from_samples(&mut self, highs: &Vec<u16>, lows: &Vec<u16>)
        requires
            valid_seed_samples(highs@),
            valid_seed_samples(lows@),
        ensures
            final(self).wf(),
            final(self).high_value() as nat == seq_average(highs@),
            final(self).low_value() as nat == seq_average(lows@),
            final(self).source() == old(self).source(),
    {
        proof {
            lemma_average_bounded_by(highs@, ADC_MAX);
            lemma_average_bounded_by(lows@, ADC_MAX);
        }
        self.high = sample_average(highs);
        self.low = sample_average(lows);
    }

    /// `DAC_SAMPLE_AVERAGE_COUNT` consecutive reads of each channel, the low
    /// channel's first: (highs, lows).
    pub fn read_samples(&self) -> (r: (Vec<u16>, Vec<u16>))
        ensures
            valid_seed_samples(r.0@),
            valid_seed_samples(r.1@),
    {
        let mut lows: Vec<u16> = Vec::new();
        let mut i: usize = 0;
        while i < DAC_SAMPLE_AVERAGE_COUNT
            invariant
                i <= DAC_SAMPLE_AVERAGE_COUNT,
                lows@.len() == i,
                forall|k: int| 0 <= k < lows@.len() ==> #[trigger] lows@[k] <= ADC_MAX,
            decreases DAC_SAMPLE_AVERAGE_COUNT - i,
        {
            let v = self.read_low();
            lows.push(v);
            i = i + 1;
        }
        let mut highs: Vec<u16> = Vec::new();
        let mut j: usize = 0;
        while j < DAC_SAMPLE_AVERAGE_COUNT
            invariant
                j <= DAC_SAMPLE_AVERAGE_COUNT,
                highs@.len() == j,
                forall|k: int| 0 <= k < highs@.len() ==> #[trigger] highs@[k] <= ADC_MAX,
            decreases DAC_SAMPLE_AVERAGE_COUNT - j,
        {
            let v = self.read_high();
            highs.push(v);
            j = j + 1;
        }
        (highs, lows)
    }

    /// Stores, for each channel, the truncated mean of
    /// `DAC_SAMPLE_AVERAGE_COUNT` consecutive reads.
    pub fn prevent_signal_discontinuity(&mut self)
        ensures
            final(self).wf(),
            final(self).source() == old(self).source(),
            is_seed_pair(final(self).high_value(), final(self).low_value()),
    {
        let (highs, lows) = self.read_samples();
        self.seed_from_samples(&highs, &lows);
        assert(valid_seed_samples(highs@) && valid_seed_samples(lows@));
    }

    /// Mean of the two readings, truncated; within the ADC's range.
    pub fn average(&self) -> (r: u16)
        requires
            self.wf(),
        ensures
            r as int == pair_average(self.high_value(), self.low_value()),
            r <= ADC_MAX,
    {
        ((self.high as u32 + self.low as u32) / 2) as u16
    }

    /// Absolute difference of the two readings.
    pub fn diff(&self) -> (r: u16)
        ensures
            r as int == pair_diff(self.high_value(), self.low_value()),
    {
        crate::numeric::abs_i32(self.high as i32 - self.low as i32) as u16
    }

    pub fn high(&self) -> (r: u16)
        ensures
            r == self.high_value(),
    {
        self.high
    }

    pub fn low(&self) -> (r: u16)
        ensures
            r == self.low_value(),
    {
        self.low
    }
}

} // verus!
