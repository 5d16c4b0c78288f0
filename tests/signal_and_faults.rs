use oxcc::adc_storage::{AdcStorage, Signal};
use oxcc::dtc::DtcBitfield;
use oxcc::dual_signal::{sample_average, DualSignal, HighLowReader, DAC_SAMPLE_AVERAGE_COUNT};
use oxcc::fault_condition::FaultCondition;
use std::cell::Cell;

struct FixedReader {
    high: u16,
    low: u16,
}

impl HighLowReader for FixedReader {
    fn read_high(&self) -> u16 {
        self.high
    }

    fn read_low(&self) -> u16 {
        self.low
    }
}

/// Returns 1, 2, 3, ... on each channel.
struct CountingReader {
    high: Cell<u16>,
    low: Cell<u16>,
}

impl HighLowReader for CountingReader {
    fn read_high(&self) -> u16 {
        self.high.set(self.high.get() + 1);
        self.high.get()
    }

    fn read_low(&self) -> u16 {
        self.low.set(self.low.get() + 1);
        self.low.get()
    }
}

#[test]
fn average_truncates() {
    let s = DualSignal::new(3, 4, FixedReader { high: 0, low: 0 });
    assert_eq!(s.average(), 3);
    let s = DualSignal::new(4095, 4095, FixedReader { high: 0, low: 0 });
    assert_eq!(s.average(), 4095);
}

#[test]
fn diff_is_absolute() {
    let s = DualSignal::new(5, 9, FixedReader { high: 0, low: 0 });
    assert_eq!(s.diff(), 4);
    let s = DualSignal::new(9, 5, FixedReader { high: 0, low: 0 });
    assert_eq!(s.diff(), 4);
    let s = DualSignal::new(0, 4095, FixedReader { high: 0, low: 0 });
    assert_eq!(s.diff(), 4095);
}

#[test]
fn update_reads_both_channels() {
    let mut s = DualSignal::new(0, 0, FixedReader { high: 812, low: 407 });
    s.update();
    assert_eq!(s.high(), 812);
    assert_eq!(s.low(), 407);
}

#[test]
fn sample_average_is_truncated_mean() {
    assert_eq!(sample_average(&vec![1, 2, 4]), 2);
    assert_eq!(sample_average(&vec![65535, 65535]), 65535);
    assert_eq!(sample_average(&vec![7]), 7);
}

#[test]
fn seed_is_average_of_reads_not_last_read() {
    let reader = CountingReader { high: Cell::new(100), low: Cell::new(0) };
    let mut s = DualSignal::new(0, 0, reader);
    s.prevent_signal_discontinuity();
    // low reads 1..=20, high reads 101..=120
    assert_eq!(DAC_SAMPLE_AVERAGE_COUNT, 20);
    assert_eq!(s.low(), 10);
    assert_eq!(s.high(), 110);
}

#[test]
fn hysteresis_reports_at_max_duration() {
    let mut fc = FaultCondition::new();
    let t0: u32 = 1000;
    let max: u32 = 150;
    assert!(!fc.condition_exceeded_duration(true, max, t0));
    assert!(!fc.condition_exceeded_duration(true, max, t0 + max - 1));
    assert!(fc.condition_exceeded_duration(true, max, t0 + max));
    assert!(fc.condition_exceeded_duration(true, max, t0 + max + 40));
}

#[test]
fn hysteresis_false_reading_resets() {
    let mut fc = FaultCondition::new();
    let max: u32 = 100;
    assert!(!fc.condition_exceeded_duration(true, max, 0));
    assert!(!fc.condition_exceeded_duration(true, max, 99));
    assert!(!fc.condition_exceeded_duration(false, max, 100));
    assert!(!fc.condition_exceeded_duration(true, max, 101));
    assert!(!fc.condition_exceeded_duration(true, max, 200));
    assert!(fc.condition_exceeded_duration(true, max, 201));
}

#[test]
fn hysteresis_across_counter_wraparound() {
    let mut fc = FaultCondition::new();
    let t0: u32 = u32::MAX - 10;
    assert!(!fc.condition_exceeded_duration(true, 20, t0));
    assert!(!fc.condition_exceeded_duration(true, 20, t0.wrapping_add(19)));
    assert!(fc.condition_exceeded_duration(true, 20, t0.wrapping_add(20)));
}

#[test]
fn grounded_high_channel_detected() {
    let s = DualSignal::new(0, 5, FixedReader { high: 0, low: 0 });
    let mut fc = FaultCondition::new();
    assert!(!fc.check_voltage_grounded(&s, 100, 0));
    assert!(fc.check_voltage_grounded(&s, 100, 100));
}

#[test]
fn grounded_low_channel_detected() {
    let s = DualSignal::new(5, 0, FixedReader { high: 0, low: 0 });
    let mut fc = FaultCondition::new();
    assert!(fc.check_voltage_grounded(&s, 0, 7));
    assert!(!fc.check_voltage_grounded(&s, 100, 50));
    assert!(fc.check_voltage_grounded(&s, 100, 107));
}

#[test]
fn nonzero_pair_is_not_grounded() {
    let s = DualSignal::new(1, 1, FixedReader { high: 0, low: 0 });
    let mut fc = FaultCondition::new();
    assert!(!fc.check_voltage_grounded(&s, 0, 0));
    assert!(!fc.check_voltage_grounded(&s, 0, 5000));
}

#[test]
fn dtc_bits() {
    let mut d: u8 = 0;
    assert!(!d.are_any_set());
    d.set(0);
    d.set(3);
    assert_eq!(d, 0b1001);
    assert!(d.check(3));
    assert!(!d.check(1));
    assert!(d.are_any_set());
    d.clear(0);
    assert_eq!(d, 0b1000);
    d.set(7);
    assert_eq!(d, 0b1000_1000);
    d.clear_all();
    assert_eq!(d, 0);
}

#[test]
fn update_limits_reads_to_adc_range() {
    let mut s = DualSignal::new(0, 0, FixedReader { high: 65535, low: 4096 });
    s.update();
    assert_eq!(s.high(), 4095);
    assert_eq!(s.low(), 4095);
    assert_eq!(s.average(), 4095);
}

#[test]
fn adc_storage_counts_and_stores() {
    let mut a = AdcStorage::new();
    assert_eq!(a.count(), 0);
    a.increment();
    a.increment();
    assert_eq!(a.count(), 2);
    assert_eq!(a.sample(Signal::TorqueSensorLow), 0);
    a.set_sample(Signal::TorqueSensorLow, 812);
    assert_eq!(a.sample(Signal::TorqueSensorLow), 812);
    assert_eq!(a.sample_at(3), 812);
    a.set_sample_at(0, 9);
    assert_eq!(a.sample(Signal::AcceleratorPositionSensorHigh), 9);
    assert_eq!(a.sample(Signal::BrakePedalPositionSensorLow), 0);
}
