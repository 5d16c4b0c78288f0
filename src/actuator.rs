//! The control state machine shared by the brake, throttle and steering
//! modules: enabling and disabling spoofing, clamping commands, detecting
//! grounded sensors and operator override, and reacting to control frames.
//!
//! Every operation returns the physical outputs it decided on as an
//! `Actuation`; the caller drives the DAC and the pins from it, DAC first.
use crate::can_frame::{CanFrame, OxccError, SpiError};
use crate::dtc::{dtc_mask, DtcBitfield};
use crate::dual_signal::{
    is_seed_pair, lemma_average_bounded_by, pair_average, pair_diff, seq_average,
    valid_seed_samples, DualSignal, HighLowReader, ADC_MAX, DAC_SAMPLE_AVERAGE_COUNT,
};
use crate::fault_can_protocol::{OsccFaultReport, OSCC_FAULT_REPORT_CAN_ID};
use crate::fault_condition::{is_grounded, FaultCondition};
use crate::numeric::{clamp_spec, clamp_u16};
use crate::oscc_magic_byte::{decode_command, decoded_command, has_magic, has_magic_bytes};
use crate::vehicle::{ActuatorProfile, BrakeLightThresholds, OverrideDetection, DAC_MAX};
use vstd::prelude::*;

verus! {

/// Whether control is handed to the spoofed signal, whether the operator
/// has taken it back, and the asserted diagnostic trouble codes.
#[derive(Clone, Copy, Debug, PartialEq, Eq, Structural)]
pub struct ControlState {
    pub enabled: bool,
    pub operator_override: bool,
    pub dtcs: u8,
}

/// Values for the two channels of a DAC, written in one transaction.
#[derive(Clone, Copy, Debug, PartialEq, Eq, Structural)]
pub struct DacOutputs {
    pub channel_a: u16,
    pub channel_b: u16,
}

/// Physical outputs decided by a module; `None` leaves an output as it is.
#[derive(Clone, Copy, Debug, PartialEq, Eq, Structural)]
pub struct Actuation {
    /// Written first.
    pub dac: Option<DacOutputs>,
    /// The relay that hands actuation to the spoofed signal.
    pub spoof_enable: Option<bool>,
    /// The brake lights, on modules that drive them.
    pub brake_light: Option<bool>,
}

impl Actuation {
    /// No output changes.
    pub open spec fn idle() -> Actuation {
        Actuation { dac: None, spoof_enable: None, brake_light: None }
    }

    pub fn none() -> (r: Actuation)
        ensures
            r == Actuation::idle(),
    {
        Actuation { dac: None, spoof_enable: None, brake_light: None }
    }
}

/// What a module does after a fault check: the fault report to broadcast,
/// if any, and the outputs to drive.
#[derive(Clone, Copy, Debug, PartialEq, Eq, Structural)]
pub struct FaultCheck {
    pub report: Option<OsccFaultReport>,
    pub actuation: Actuation,
}

/// What a module does with a received frame: the outputs to drive, and the
/// bit pattern of a received command, which the caller converts to spoof
/// values and hands to the module's update.
#[derive(Clone, Copy, Debug, PartialEq, Eq, Structural)]
pub struct FrameOutcome {
    pub actuation: Actuation,
    pub command_bits: Option<u32>,
}

/// The abstract state of a module.
pub struct ModuleView {
    pub state: ControlState,
    /// The stored readings of the sensor pair.
    pub high: u16,
    pub low: u16,
    pub grounded_fault: FaultCondition,
    pub override_fault: FaultCondition,
    /// Filtered absolute difference of the pair (torque detection only).
    pub filtered_diff: u16,
    pub profile: ActuatorProfile,
}

/// A module's state is consistent: a valid profile, never enabled while the
/// operator override is latched, readings within the ADC's range.
pub open spec fn module_wf(v: ModuleView) -> bool {
    &&& v.profile.wf()
    &&& !(v.state.enabled && v.state.operator_override)
    &&& v.high <= ADC_MAX
    &&& v.low <= ADC_MAX
}

/// The DAC values that reproduce stored readings: low on channel A, high on
/// channel B, each limited to the DAC's range.
pub open spec fn seed_outputs(high: u16, low: u16) -> DacOutputs {
    DacOutputs {
        channel_a: clamp_spec(low as int, 0, DAC_MAX as int) as u16,
        channel_b: clamp_spec(high as int, 0, DAC_MAX as int) as u16,
    }
}

/// The state after an enable request, where seeding stored `seed_high` and
/// `seed_low`.
pub open spec fn after_enable(v: ModuleView, seed_high: u16, seed_low: u16) -> ModuleView {
    if v.state.enabled || v.state.operator_override {
        v
    } else {
        ModuleView {
            state: ControlState { enabled: true, ..v.state },
            high: seed_high,
            low: seed_low,
            ..v
        }
    }
}

/// The outputs of an enable request.
pub open spec fn enable_actuation(v: ModuleView, seed_high: u16, seed_low: u16) -> Actuation {
    if v.state.enabled || v.state.operator_override {
        Actuation::idle()
    } else {
        Actuation {
            dac: Some(seed_outputs(seed_high, seed_low)),
            spoof_enable: Some(true),
            brake_light: None,
        }
    }
}

/// The state after a disable request, where seeding stored `seed_high` and
/// `seed_low`.
pub open spec fn after_disable(v: ModuleView, seed_high: u16, seed_low: u16) -> ModuleView {
    if !v.state.enabled {
        v
    } else {
        ModuleView {
            state: ControlState { enabled: false, ..v.state },
            high: seed_high,
            low: seed_low,
            ..v
        }
    }
}

/// The outputs of a disable request.
pub open spec fn disable_actuation(v: ModuleView, seed_high: u16, seed_low: u16) -> Actuation {
    if !v.state.enabled {
        Actuation::idle()
    } else {
        Actuation {
            dac: Some(seed_outputs(seed_high, seed_low)),
            spoof_enable: Some(false),
            brake_light: if v.profile.brake_light.is_some() {
                Some(false)
            } else {
                None
            },
        }
    }
}

/// Commanded spoof values clamped to their channels' ranges: high on
/// channel A, low on channel B.
pub open spec fn spoof_outputs(p: ActuatorProfile, high_cmd: u16, low_cmd: u16) -> DacOutputs {
    DacOutputs {
        channel_a: clamp_spec(
            high_cmd as int,
            p.spoof_high_range.min as int,
            p.spoof_high_range.max as int,
        ) as u16,
        channel_b: clamp_spec(
            low_cmd as int,
            p.spoof_low_range.min as int,
            p.spoof_low_range.max as int,
        ) as u16,
    }
}

/// Whether spoof outputs call for the brake lights.
pub open spec fn brake_light_on(t: BrakeLightThresholds, out: DacOutputs) -> bool {
    out.channel_a > t.high || out.channel_b > t.low
}

/// The outputs of a spoof command: none while disabled.
pub open spec fn update_actuation(v: ModuleView, high_cmd: u16, low_cmd: u16) -> Actuation {
    if !v.state.enabled {
        Actuation::idle()
    } else {
        let out = spoof_outputs(v.profile, high_cmd, low_cmd);
        Actuation {
            dac: Some(out),
            spoof_enable: None,
            brake_light: match v.profile.brake_light {
                Some(t) => Some(brake_light_on(t, out)),
                None => None,
            },
        }
    }
}

/// One step of the exponential moving average with smoothing factor 1/100,
/// seeded with the input while the average is still zero.
pub open spec fn filtered_next(prev: u16, diff: int) -> int {
    let base = if prev == 0 {
        diff
    } else {
        prev as int
    };
    (diff + 99 * base) / 100
}

/// Whether a reading indicates operator override.
pub open spec fn override_active(p: ActuatorProfile, high: u16, low: u16, filtered: u16) -> bool {
    match p.override_detection {
        OverrideDetection::Position(t) => pair_average(high, low) >= t,
        OverrideDetection::TorqueDifference(t) => filtered > t,
    }
}

/// The state after taking in a reading at time `now`, before any decision:
/// readings stored, filter and both fault timers updated.
pub open spec fn observed(v: ModuleView, high: u16, low: u16, now: u32) -> ModuleView {
    let filtered = match v.profile.override_detection {
        OverrideDetection::TorqueDifference(_) => filtered_next(
            v.filtered_diff,
            pair_diff(high, low),
        ) as u16,
        OverrideDetection::Position(_) => v.filtered_diff,
    };
    ModuleView {
        high,
        low,
        filtered_diff: filtered,
        grounded_fault: v.grounded_fault.observe(is_grounded(high, low), now),
        override_fault: v.override_fault.observe(
            override_active(v.profile, high, low, filtered),
            now,
        ),
        ..v
    }
}

/// Whether the reading has been grounded for the hysteresis duration.
pub open spec fn grounded_exceeded(v: ModuleView, high: u16, low: u16, now: u32) -> bool {
    v.grounded_fault.exceeded(is_grounded(high, low), v.profile.fault_hysteresis, now)
}

/// Whether override has been indicated for the hysteresis duration.
pub open spec fn override_exceeded(v: ModuleView, high: u16, low: u16, now: u32) -> bool {
    v.override_fault.exceeded(
        override_active(v.profile, high, low, observed(v, high, low, now).filtered_diff),
        v.profile.fault_hysteresis,
        now,
    )
}

/// The outcome of a fault check.
pub enum FaultDecision {
    /// A grounded sensor: disable, assert its DTC, report.
    Grounded,
    /// A fresh operator override: disable, assert its DTC, latch, report.
    Override,
    /// An override that is still held while latched: keep the latch and the
    /// DTCs, report nothing.
    OverrideHeld,
    /// Neither condition holds: clear every DTC and the override latch.
    Clear,
}

pub open spec fn fault_decision(v: ModuleView, high: u16, low: u16, now: u32) -> FaultDecision {
    if grounded_exceeded(v, high, low, now) {
        FaultDecision::Grounded
    } else if override_exceeded(v, high, low, now) {
        if v.state.operator_override {
            FaultDecision::OverrideHeld
        } else {
            FaultDecision::Override
        }
    } else {
        FaultDecision::Clear
    }
}

/// `v` with DTC `dtc` asserted.
pub open spec fn with_dtc(v: ModuleView, dtc: u8) -> ModuleView {
    ModuleView { state: ControlState { dtcs: v.state.dtcs | dtc_mask(dtc), ..v.state }, ..v }
}

/// The state after a fault check on reading `(high, low)` at `now`, where a
/// disable seeded `seed_high` and `seed_low`.
pub open spec fn after_fault_check(
    v: ModuleView,
    high: u16,
    low: u16,
    now: u32,
    seed_high: u16,
    seed_low: u16,
) -> ModuleView {
    let m = observed(v, high, low, now);
    match fault_decision(v, high, low, now) {
        FaultDecision::Grounded => with_dtc(
            after_disable(m, seed_high, seed_low),
            v.profile.dtc_invalid_sensor_val,
        ),
        FaultDecision::Override => {
            let d = with_dtc(after_disable(m, seed_high, seed_low), v.profile.dtc_operator_override);
            ModuleView { state: ControlState { operator_override: true, ..d.state }, ..d }
        },
        FaultDecision::OverrideHeld => m,
        FaultDecision::Clear => ModuleView {
            state: ControlState { enabled: m.state.enabled, operator_override: false, dtcs: 0 },
            ..m
        },
    }
}

/// What a fault check on reading `(high, low)` at `now` returns.
pub open spec fn fault_check_result(
    v: ModuleView,
    high: u16,
    low: u16,
    now: u32,
    seed_high: u16,
    seed_low: u16,
) -> FaultCheck {
    match fault_decision(v, high, low, now) {
        FaultDecision::Clear | FaultDecision::OverrideHeld => FaultCheck {
            report: None,
            actuation: Actuation::idle(),
        },
        _ => FaultCheck {
            report: Some(
                OsccFaultReport {
                    fault_origin_id: v.profile.fault_origin_id,
                    dtcs: after_fault_check(v, high, low, now, seed_high, seed_low).state.dtcs,
                },
            ),
            actuation: disable_actuation(observed(v, high, low, now), seed_high, seed_low),
        },
    }
}

/// Whether a fault check returns at once: nothing is enabled and no fault
/// is left to clear.
pub open spec fn fault_check_idle(v: ModuleView) -> bool {
    !v.state.enabled && v.state.dtcs == 0
}

/// How a module treats a received frame.
pub enum FrameAction {
    Ignore,
    Enable,
    Disable,
    Command(u32),
    Fault,
}

/// How a module with profile `p` treats `frame`: only data frames with the
/// magic bytes count; a command too short to carry a request is ignored.
pub open spec fn frame_action(p: ActuatorProfile, frame: CanFrame) -> FrameAction {
    match frame {
        CanFrame::RemoteFrame(_) => FrameAction::Ignore,
        CanFrame::DataFrame(f) => {
            if !has_magic(f.data@) {
                FrameAction::Ignore
            } else if f.id == p.enable_can_id as u32 {
                FrameAction::Enable
            } else if f.id == p.disable_can_id as u32 {
                FrameAction::Disable
            } else if f.id == p.command_can_id as u32 {
                match decoded_command(f.id, f.data@, p.command_can_id as u32) {
                    Some(bits) => FrameAction::Command(bits),
                    None => FrameAction::Ignore,
                }
            } else if f.id == OSCC_FAULT_REPORT_CAN_ID as u32 {
                FrameAction::Fault
            } else {
                FrameAction::Ignore
            }
        },
    }
}

/// The state after a received frame, where seeding stored `seed_high` and
/// `seed_low`.
pub open spec fn after_frame(v: ModuleView, frame: CanFrame, seed_high: u16, seed_low: u16) -> ModuleView {
    match frame_action(v.profile, frame) {
        FrameAction::Enable => after_enable(v, seed_high, seed_low),
        FrameAction::Disable | FrameAction::Fault => after_disable(v, seed_high, seed_low),
        _ => v,
    }
}

/// What a module returns for a received frame.
pub open spec fn frame_outcome(v: ModuleView, frame: CanFrame, seed_high: u16, seed_low: u16) -> FrameOutcome {
    match frame_action(v.profile, frame) {
        FrameAction::Enable => FrameOutcome {
            actuation: enable_actuation(v, seed_high, seed_low),
            command_bits: None,
        },
        FrameAction::Disable | FrameAction::Fault => FrameOutcome {
            actuation: disable_actuation(v, seed_high, seed_low),
            command_bits: None,
        },
        FrameAction::Command(bits) => FrameOutcome {
            actuation: Actuation::idle(),
            command_bits: Some(bits),
        },
        FrameAction::Ignore => FrameOutcome { actuation: Actuation::idle(), command_bits: None },
    }
}

/// A freshly built module: disabled, nothing latched or asserted, zeroed
/// readings and filter, timers idle.
pub open spec fn initial_view(p: ActuatorProfile) -> ModuleView {
    ModuleView {
        state: ControlState { enabled: false, operator_override: false, dtcs: 0 },
        high: 0,
        low: 0,
        grounded_fault: FaultCondition::new_spec(),
        override_fault: FaultCondition::new_spec(),
        filtered_diff: 0,
        profile: p,
    }
}

/// The outputs that put a freshly built module in its safe state.
pub open spec fn prepare_actuation(p: ActuatorProfile) -> Actuation {
    Actuation {
        dac: None,
        spoof_enable: Some(false),
        brake_light: if p.brake_light.is_some() {
            Some(false)
        } else {
            None
        },
    }
}

/// Whether `new` and `r` are what a fault check on reading `(high, low)`
/// leaves and returns, where a disable seeded the readings stored in `new`.
pub open spec fn final_matches(v: ModuleView, high: u16, low: u16, now: u32, new: ModuleView, r: FaultCheck) -> bool {
    new == after_fault_check(v, high, low, now, new.high, new.low) && r == fault_check_result(
        v,
        high,
        low,
        now,
        new.high,
        new.low,
    )
}

/// Whether a fault check at `now` took the module from `old` to `new` and
/// returned `r`: nothing at all when idle, else the outcome for some fresh
/// reading of the sensor pair.
pub open spec fn fault_check_post(old: ModuleView, new: ModuleView, now: u32, r: FaultCheck) -> bool {
    &&& fault_check_idle(old) ==> new == old && r == (FaultCheck {
        report: None,
        actuation: Actuation::idle(),
    })
    &&& !fault_check_idle(old) ==> exists|high: u16, low: u16| final_matches(old, high, low, now, new, r)
}

/// The state and the rest of the outputs once the DAC part of `actuation`
/// was written with result `written`: the pins as decided, except that a
/// failed write of an enable's seed hands nothing over and the module is
/// disabled again; a failed write is returned for the error handler.
pub open spec fn dac_write_outcome(v: ModuleView, actuation: Actuation, written: Result<(), SpiError>) -> (
    ModuleView,
    Actuation,
    Result<(), OxccError>,
) {
    match written {
        Ok(()) => (v, Actuation { dac: None, ..actuation }, Ok(())),
        Err(e) => if actuation.spoof_enable == Some(true) {
            (
                ModuleView { state: ControlState { enabled: false, ..v.state }, ..v },
                Actuation { dac: None, spoof_enable: None, ..actuation },
                Err(OxccError::Spi(e)),
            )
        } else {
            (v, Actuation { dac: None, ..actuation }, Err(OxccError::Spi(e)))
        },
    }
}

/// One actuator: its sensor pair, control state and fault timers.
pub struct ActuatorModule<R: HighLowReader> {
    signal: DualSignal<R>,
    control_state: ControlState,
    grounded_fault_state: FaultCondition,
    operator_override_state: FaultCondition,
    filtered_diff: u16,
    profile: ActuatorProfile,
}

impl<R: HighLowReader> View for ActuatorModule<R> {
    type V = ModuleView;

    closed spec fn view(&self) -> ModuleView {
        ModuleView {
            state: self.control_state,
            high: self.signal.high_value(),
            low: self.signal.low_value(),
            grounded_fault: self.grounded_fault_state,
            override_fault: self.operator_override_state,
            filtered_diff: self.filtered_diff,
            profile: self.profile,
        }
    }
}

impl<R: HighLowReader> ActuatorModule<R> {
    /// The source of sensor readings.
    pub closed spec fn reader(&self) -> R {
        self.signal.source()
    }

    pub open spec fn wf(&self) -> bool {
        module_wf(self@)
    }

    /// A disabled module with no fault asserted and zeroed readings.
    pub fn new(profile: ActuatorProfile, reader: R) -> (r: Self)
        requires
            profile.wf(),
        ensures
            r.wf(),
            r@ == initial_view(profile),
            r.reader() == reader,
    {
        ActuatorModule {
            signal: DualSignal::new(0, 0, reader),
            control_state: ControlState { enabled: false, operator_override: false, dtcs: 0 },
            grounded_fault_state: FaultCondition::new(),
            operator_override_state: FaultCondition::new(),
            filtered_diff: 0,
            profile,
        }
    }

    /// The outputs that put the module in its safe state before first use.
    pub fn prepare(&self) -> (r: Actuation)
        ensures
            r == prepare_actuation(self@.profile),
    {
        Actuation {
            dac: None,
            spoof_enable: Some(false),
            brake_light: if self.profile.brake_light.is_some() {
                Some(false)
            } else {
                None
            },
        }
    }

    pub fn control_state(&self) -> (r: ControlState)
        ensures
            r == self@.state,
    {
        self.control_state
    }

    pub fn profile(&self) -> (r: ActuatorProfile)
        ensures
            r == self@.profile,
    {
        self.profile
    }

    /// Seeds the sensor pair from runs of reads and returns the DAC values
    /// that reproduce it.
    fn seed_with(&mut self, highs: &Vec<u16>, lows: &Vec<u16>) -> (r: DacOutputs)
        requires
            valid_seed_samples(highs@),
            valid_seed_samples(lows@),
        ensures
            final(self)@ == (ModuleView {
                high: seq_average(highs@) as u16,
                low: seq_average(lows@) as u16,
                ..old(self)@
            }),
            final(self).signal.wf(),
            final(self).reader() == old(self).reader(),
            r == seed_outputs(final(self)@.high, final(self)@.low),
    {
        self.signal.seed_from_samples(highs, lows);
        DacOutputs {
            channel_a: clamp_u16(self.signal.low(), 0, DAC_MAX),
            channel_b: clamp_u16(self.signal.high(), 0, DAC_MAX),
        }
    }

    /// `enable_control` with the seeding reads given: the DAC is set to
    /// their means.
    pub fn enable_control_with_seed(&mut self, highs: &Vec<u16>, lows: &Vec<u16>) -> (r: Actuation)
        requires
            old(self).wf(),
            valid_seed_samples(highs@),
            valid_seed_samples(lows@),
        ensures
            final(self).wf(),
            final(self).reader() == old(self).reader(),
            final(self)@ == after_enable(old(self)@, seq_average(highs@) as u16, seq_average(lows@) as u16),
            r == enable_actuation(old(self)@, seq_average(highs@) as u16, seq_average(lows@) as u16),
    {
        proof {
            lemma_average_bounded_by(highs@, ADC_MAX);
            lemma_average_bounded_by(lows@, ADC_MAX);
        }
        if !self.control_state.enabled && !self.control_state.operator_override {
            let dac = self.seed_with(highs, lows);
            self.control_state.enabled = true;
            Actuation { dac: Some(dac), spoof_enable: Some(true), brake_light: None }
        } else {
            Actuation::none()
        }
    }

    /// `disable_control` with the seeding reads given: the DAC is set to
    /// their means.
    pub fn disable_control_with_seed(&mut self, highs: &Vec<u16>, lows: &Vec<u16>) -> (r: Actuation)
        requires
            old(self).wf(),
            valid_seed_samples(highs@),
            valid_seed_samples(lows@),
        ensures
            final(self).wf(),
            final(self).reader() == old(self).reader(),
            final(self)@ == after_disable(old(self)@, seq_average(highs@) as u16, seq_average(lows@) as u16),
            r == disable_actuation(old(self)@, seq_average(highs@) as u16, seq_average(lows@) as u16),
    {
        proof {
            lemma_average_bounded_by(highs@, ADC_MAX);
            lemma_average_bounded_by(lows@, ADC_MAX);
        }
        if self.control_state.enabled {
            let dac = self.seed_with(highs, lows);
            self.control_state.enabled = false;
            Actuation {
                dac: Some(dac),
                spoof_enable: Some(false),
                brake_light: if self.profile.brake_light.is_some() {
                    Some(false)
                } else {
                    None
                },
            }
        } else {
            Actuation::none()
        }
    }

    /// Hands actuation to the spoofed signal, unless it already has it or
    /// the operator override is latched. The DAC is first set to the mean of
    /// `DAC_SAMPLE_AVERAGE_COUNT` reads of each sensor channel, so that the
    /// handover is smooth.
    pub fn enable_control(&mut self) -> (r: Actuation)
        requires
            old(self).wf(),
        ensures
            final(self).wf(),
            final(self).reader() == old(self).reader(),
            final(self)@ == after_enable(old(self)@, final(self)@.high, final(self)@.low),
            r == enable_actuation(old(self)@, final(self)@.high, final(self)@.low),
            !old(self)@.state.enabled && !old(self)@.state.operator_override ==> is_seed_pair(
                final(self)@.high,
                final(self)@.low,
            ),
    {
        if !self.control_state.enabled && !self.control_state.operator_override {
            let (highs, lows) = self.signal.read_samples();
            let r = self.enable_control_with_seed(&highs, &lows);
            proof {
                lemma_average_bounded_by(highs@, ADC_MAX);
                lemma_average_bounded_by(lows@, ADC_MAX);
                assert(self@.high as nat == seq_average(highs@));
                assert(self@.low as nat == seq_average(lows@));
            }
            r
        } else {
            Actuation::none()
        }
    }

    /// Returns actuation to the vehicle, first setting the DAC to the mean
    /// of `DAC_SAMPLE_AVERAGE_COUNT` reads of each sensor channel. Never
    /// blocked by the override latch or by asserted faults; a no-op only
    /// when already disabled.
    pub fn disable_control(&mut self) -> (r: Actuation)
        requires
            old(self).wf(),
        ensures
            final(self).wf(),
            final(self).reader() == old(self).reader(),
            final(self)@ == after_disable(old(self)@, final(self)@.high, final(self)@.low),
            r == disable_actuation(old(self)@, final(self)@.high, final(self)@.low),
            old(self)@.state.enabled ==> is_seed_pair(final(self)@.high, final(self)@.low),
    {
        if self.control_state.enabled {
            let (highs, lows) = self.signal.read_samples();
            let r = self.disable_control_with_seed(&highs, &lows);
            proof {
                lemma_average_bounded_by(highs@, ADC_MAX);
                lemma_average_bounded_by(lows@, ADC_MAX);
                assert(self@.high as nat == seq_average(highs@));
                assert(self@.low as nat == seq_average(lows@));
            }
            r
        } else {
            Actuation::none()
        }
    }

    /// Takes the result of writing the DAC part of `actuation`, and returns
    /// the pin outputs still to drive. Control is handed over only once the
    /// seed is on the DAC: where that write failed, the module goes back to
    /// disabled and spoofing stays off.
    pub fn confirm_dac_write(&mut self, actuation: Actuation, written: Result<(), SpiError>) -> (r: (
        Actuation,
        Result<(), OxccError>,
    ))
        requires
            old(self).wf(),
        ensures
            final(self).wf(),
            final(self).reader() == old(self).reader(),
            (final(self)@, r.0, r.1) == dac_write_outcome(old(self)@, actuation, written),
    {
        match written {
            Ok(()) => (Actuation { dac: None, ..actuation }, Ok(())),
            Err(e) => {
                if actuation.spoof_enable == Some(true) {
                    self.control_state.enabled = false;
                    (Actuation { dac: None, spoof_enable: None, ..actuation }, Err(OxccError::from(e)))
                } else {
                    (Actuation { dac: None, ..actuation }, Err(OxccError::from(e)))
                }
            },
        }
    }

    /// The outputs for commanded spoof values: each clamped to its channel's
    /// range, and the brake lights where the module drives them. Nothing
    /// while disabled.
    pub fn update_spoof_outputs(&self, spoof_command_high: u16, spoof_command_low: u16) -> (r: Actuation)
        requires
            self.wf(),
        ensures
            r == update_actuation(self@, spoof_command_high, spoof_command_low),
    {
        if self.control_state.enabled {
            let out = DacOutputs {
                channel_a: clamp_u16(
                    spoof_command_high,
                    self.profile.spoof_high_range.min,
                    self.profile.spoof_high_range.max,
                ),
                channel_b: clamp_u16(
                    spoof_command_low,
                    self.profile.spoof_low_range.min,
                    self.profile.spoof_low_range.max,
                ),
            };
            let brake_light = match self.profile.brake_light {
                Some(t) => Some(out.channel_a > t.high || out.channel_b > t.low),
                None => None,
            };
            Actuation { dac: Some(out), spoof_enable: None, brake_light }
        } else {
            Actuation::none()
        }
    }

    /// Evaluates both fault conditions on the reading `(high, low)` taken at
    /// `now`, and acts on them: a grounded sensor disables and reports every
    /// time; an override disables, latches and reports once, and stays
    /// latched while it is held; once neither condition holds every DTC and
    /// the latch are cleared.
    pub fn evaluate_faults(&mut self, high: u16, low: u16, now: u32) -> (r: FaultCheck)
        requires
            old(self).wf(),
            high <= ADC_MAX,
            low <= ADC_MAX,
        ensures
            final(self).wf(),
            final(self).reader() == old(self).reader(),
            final(self)@ == after_fault_check(old(self)@, high, low, now, final(self)@.high, final(self)@.low),
            r == fault_check_result(old(self)@, high, low, now, final(self)@.high, final(self)@.low),
    {
        let ghost v0 = self@;
        self.signal.store(high, low);
        match self.profile.override_detection {
            OverrideDetection::TorqueDifference(_) => {
                let unfiltered = self.signal.diff();
                let base: u32 = if self.filtered_diff == 0 {
                    unfiltered as u32
                } else {
                    self.filtered_diff as u32
                };
                self.filtered_diff = ((unfiltered as u32 + 99 * base) / 100) as u16;
            },
            OverrideDetection::Position(_) => {},
        }
        let overriding = match self.profile.override_detection {
            OverrideDetection::Position(t) => self.signal.average() >= t,
            OverrideDetection::TorqueDifference(t) => self.filtered_diff > t,
        };
        let hysteresis = self.profile.fault_hysteresis;
        let operator_overridden = self.operator_override_state.condition_exceeded_duration(
            overriding,
            hysteresis,
            now,
        );
        let inputs_grounded = self.grounded_fault_state.check_voltage_grounded(
            &self.signal,
            hysteresis,
            now,
        );
        assert(self@ == observed(v0, high, low, now));
        if inputs_grounded {
            let actuation = self.disable_control();
            let dtc = self.profile.dtc_invalid_sensor_val;
            self.control_state.dtcs.set(dtc);
            FaultCheck {
                report: Some(
                    OsccFaultReport {
                        fault_origin_id: self.profile.fault_origin_id,
                        dtcs: self.control_state.dtcs,
                    },
                ),
                actuation,
            }
        } else if operator_overridden && !self.control_state.operator_override {
            let actuation = self.disable_control();
            let dtc = self.profile.dtc_operator_override;
            self.control_state.dtcs.set(dtc);
            self.control_state.operator_override = true;
            FaultCheck {
                report: Some(
                    OsccFaultReport {
                        fault_origin_id: self.profile.fault_origin_id,
                        dtcs: self.control_state.dtcs,
                    },
                ),
                actuation,
            }
        } else if operator_overridden {
            // the override is still held: it stays latched, and is not
            // reported again
            FaultCheck { report: None, actuation: Actuation::none() }
        } else {
            self.control_state.dtcs.clear_all();
            self.control_state.operator_override = false;
            FaultCheck { report: None, actuation: Actuation::none() }
        }
    }

    /// Checks for fresh faults at time `now`. Returns at once when the
    /// module is disabled with no DTC asserted, so that a handled fault is
    /// not reported twice; otherwise reads the sensor pair and evaluates it.
    pub fn check_for_faults(&mut self, now: u32) -> (r: FaultCheck)
        requires
            old(self).wf(),
        ensures
            final(self).wf(),
            final(self).reader() == old(self).reader(),
            fault_check_post(old(self)@, final(self)@, now, r),
    {
        if !self.control_state.enabled && !self.control_state.dtcs.are_any_set() {
            return FaultCheck { report: None, actuation: Actuation::none() };
        }
        let ghost v0 = self@;
        self.signal.update();
        let high = self.signal.high();
        let low = self.signal.low();
        let ghost v1 = self@;
        assert(v1 == ModuleView { high, low, ..v0 });
        assert(observed(v1, high, low, now) == observed(v0, high, low, now));
        let r = self.evaluate_faults(high, low, now);
        assert(final_matches(v0, high, low, now, self@, r));
        r
    }

    /// Acts on a received frame: enable, disable, or a fault report from any
    /// module, which disables this one. A command's request is handed back
    /// for conversion. Other frames, and frames without the magic bytes, are
    /// ignored.
    pub fn process_rx_frame(&mut self, frame: &CanFrame) -> (r: FrameOutcome)
        requires
            old(self).wf(),
        ensures
            final(self).wf(),
            final(self).reader() == old(self).reader(),
            final(self)@ == after_frame(old(self)@, *frame, final(self)@.high, final(self)@.low),
            r == frame_outcome(old(self)@, *frame, final(self)@.high, final(self)@.low),
    {
        match frame {
            CanFrame::RemoteFrame(_) => FrameOutcome { actuation: Actuation::none(), command_bits: None },
            CanFrame::DataFrame(f) => {
                if !has_magic_bytes(f) {
                    FrameOutcome { actuation: Actuation::none(), command_bits: None }
                } else if f.id == self.profile.enable_can_id as u32 {
                    FrameOutcome { actuation: self.enable_control(), command_bits: None }
                } else if f.id == self.profile.disable_can_id as u32 {
                    FrameOutcome { actuation: self.disable_control(), command_bits: None }
                } else if f.id == self.profile.command_can_id as u32 {
                    FrameOutcome {
                        actuation: Actuation::none(),
                        command_bits: decode_command(f, self.profile.command_can_id as u32),
                    }
                } else if f.id == OSCC_FAULT_REPORT_CAN_ID as u32 {
                    FrameOutcome { actuation: self.disable_control(), command_bits: None }
                } else {
                    FrameOutcome { actuation: Actuation::none(), command_bits: None }
                }
            },
        }
    }
}

/// Clamping is idempotent and lands inside the range.
pub proof fn lemma_clamp_idempotent(v: int, lo: int, hi: int)
    requires
        lo <= hi,
    ensures
        lo <= clamp_spec(v, lo, hi) <= hi,
        clamp_spec(clamp_spec(v, lo, hi), lo, hi) == clamp_spec(v, lo, hi),
{
}

/// Spoof outputs always lie within their channels' ranges, and clamping
/// them again changes nothing.
pub proof fn lemma_spoof_outputs_in_range(p: ActuatorProfile, high_cmd: u16, low_cmd: u16)
    requires
        p.wf(),
    ensures
        p.spoof_high_range.min <= spoof_outputs(p, high_cmd, low_cmd).channel_a <= p.spoof_high_range.max,
        p.spoof_low_range.min <= spoof_outputs(p, high_cmd, low_cmd).channel_b <= p.spoof_low_range.max,
        spoof_outputs(
            p,
            spoof_outputs(p, high_cmd, low_cmd).channel_a,
            spoof_outputs(p, high_cmd, low_cmd).channel_b,
        ) == spoof_outputs(p, high_cmd, low_cmd),
{
}

/// Every transition keeps a module consistent; in particular control is
/// never enabled while the operator override is latched, whatever sequence
/// of enables, disables, fault checks and frames it goes through.
pub proof fn lemma_transitions_keep_override_exclusive(
    v: ModuleView,
    frame: CanFrame,
    high: u16,
    low: u16,
    now: u32,
    seed_high: u16,
    seed_low: u16,
)
    requires
        module_wf(v),
        high <= ADC_MAX,
        low <= ADC_MAX,
        seed_high <= ADC_MAX,
        seed_low <= ADC_MAX,
    ensures
        module_wf(after_enable(v, seed_high, seed_low)),
        module_wf(after_disable(v, seed_high, seed_low)),
        module_wf(after_fault_check(v, high, low, now, seed_high, seed_low)),
        module_wf(after_frame(v, frame, seed_high, seed_low)),
        !(after_frame(v, frame, seed_high, seed_low).state.enabled && after_frame(
            v,
            frame,
            seed_high,
            seed_low,
        ).state.operator_override),
{
}

/// A fault report frame from any origin leaves the receiving module
/// disabled, whatever state it was in.
pub proof fn lemma_fault_report_disables(v: ModuleView, frame: CanFrame, seed_high: u16, seed_low: u16)
    requires
        module_wf(v),
        frame is DataFrame,
        frame->DataFrame_0.id == OSCC_FAULT_REPORT_CAN_ID as u32,
        has_magic(frame->DataFrame_0.data@),
    ensures
        frame_action(v.profile, frame) == FrameAction::Fault,
        !after_frame(v, frame, seed_high, seed_low).state.enabled,
{
}

/// Enabling writes to the DAC the means of the seeding reads, not any single
/// read: where the module seeded its pair from runs of readings within the
/// ADC's range, channel A gets the mean of the low channel's run and channel
/// B that of the high channel's.
pub proof fn lemma_enable_writes_seed_average(v: ModuleView, highs: Seq<u16>, lows: Seq<u16>)
    requires
        module_wf(v),
        !v.state.enabled,
        !v.state.operator_override,
        highs.len() == DAC_SAMPLE_AVERAGE_COUNT,
        lows.len() == DAC_SAMPLE_AVERAGE_COUNT,
        forall|i: int| 0 <= i < highs.len() ==> #[trigger] highs[i] <= DAC_MAX,
        forall|i: int| 0 <= i < lows.len() ==> #[trigger] lows[i] <= DAC_MAX,
    ensures
        enable_actuation(v, seq_average(highs) as u16, seq_average(lows) as u16).dac == Some(
            DacOutputs { channel_a: seq_average(lows) as u16, channel_b: seq_average(highs) as u16 },
        ),
{
    lemma_average_bounded_by(highs, DAC_MAX);
    lemma_average_bounded_by(lows, DAC_MAX);
}

/// While the operator override is latched and still held, a fault check
/// keeps the latch and every DTC, reports nothing and changes no output.
pub proof fn lemma_override_latch_kept_while_held(
    v: ModuleView,
    high: u16,
    low: u16,
    now: u32,
    seed_high: u16,
    seed_low: u16,
)
    requires
        module_wf(v),
        v.state.operator_override,
        !grounded_exceeded(v, high, low, now),
        override_exceeded(v, high, low, now),
    ensures
        after_fault_check(v, high, low, now, seed_high, seed_low).state == v.state,
        fault_check_result(v, high, low, now, seed_high, seed_low) == (FaultCheck {
            report: None,
            actuation: Actuation::idle(),
        }),
{
}

/// A fault check clears the override latch, or clears asserted DTCs, only
/// when neither the grounded-sensor nor the override condition holds.
pub proof fn lemma_clear_only_when_neither_holds(
    v: ModuleView,
    high: u16,
    low: u16,
    now: u32,
    seed_high: u16,
    seed_low: u16,
)
    requires
        module_wf(v),
    ensures
        ({
            let after = after_fault_check(v, high, low, now, seed_high, seed_low);
            ((v.state.operator_override && !after.state.operator_override) || (v.state.dtcs != 0
                && after.state.dtcs == 0)) ==> !grounded_exceeded(v, high, low, now)
                && !override_exceeded(v, high, low, now)
        }),
{
    let d = v.state.dtcs;
    let a = v.profile.dtc_invalid_sensor_val;
    let b = v.profile.dtc_operator_override;
    assert(a < 8 ==> (d | ((1u8 << a) as u8)) != 0) by (bit_vector);
    assert(b < 8 ==> (d | ((1u8 << b) as u8)) != 0) by (bit_vector);
}

} // verus!
