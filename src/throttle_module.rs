//! The throttle control module.
use crate::actuator::{
    after_disable, after_enable, after_fault_check, after_frame, dac_write_outcome, disable_actuation,
    enable_actuation, fault_check_idle, fault_check_post, fault_check_result, final_matches,
    frame_outcome, initial_view, module_wf, prepare_actuation, update_actuation, ActuatorModule,
    Actuation, FaultCheck, FrameOutcome, ModuleView,
};
use crate::can_frame::{CanFrame, OxccError, SpiError};
use crate::dual_signal::{is_seed_pair, seq_average, valid_seed_samples, HighLowReader, ADC_MAX};
use crate::fault_can_protocol::{FaultReportSupplier, OsccFaultReport};
use crate::throttle_can_protocol::{OsccThrottleReport, ThrottleReportSupplier};
use crate::vehicle::{is_throttle_profile, ActuatorProfile};
use vstd::prelude::*;

verus! {

/// The throttle module as built, before its outputs are put in a safe state.
pub struct UnpreparedThrottleModule<R: HighLowReader> {
    throttle_module: ThrottleModule<R>,
}

impl<R: HighLowReader> UnpreparedThrottleModule<R> {
    pub closed spec fn module(&self) -> ThrottleModule<R> {
        self.throttle_module
    }

    pub fn new(profile: ActuatorProfile, accelerator_position_sensor: R) -> (r: Self)
        requires
            profile.wf(),
            is_throttle_profile(profile),
        ensures
            r.module().wf(),
            r.module()@ == initial_view(profile),
            r.module().reader() == accelerator_position_sensor,
    {
        UnpreparedThrottleModule { throttle_module: ThrottleModule { module: ActuatorModule::new(profile, accelerator_position_sensor) } }
    }

    /// The module, and the outputs that make it safe: spoofing off.
    pub fn prepare_module(self) -> (r: (ThrottleModule<R>, Actuation))
        requires
            self.module().wf(),
        ensures
            r.0 == self.module(),
            r.1 == prepare_actuation(self.module()@.profile),
    {
        let actuation = self.throttle_module.module.prepare();
        (self.throttle_module, actuation)
    }
}

/// The throttle actuator: spoofs the accelerator position sensor.
pub struct ThrottleModule<R: HighLowReader> {
    module: ActuatorModule<R>,
}

impl<R: HighLowReader> View for ThrottleModule<R> {
    type V = ModuleView;

    closed spec fn view(&self) -> ModuleView {
        self.module@
    }
}

impl<R: HighLowReader> ThrottleModule<R> {
    pub closed spec fn reader(&self) -> R {
        self.module.reader()
    }

    /// A consistent state, with a throttle profile.
    pub open spec fn wf(&self) -> bool {
        module_wf(self@) && is_throttle_profile(self@.profile)
    }

    pub fn enable_control(&mut self) -> (r: Actuation)
        requires
            old(self).wf(),
        ensures
            final(self).wf(),
            final(self).reader() == old(self).reader(),
            final(self)@ == after_enable(old(self)@, final(self)@.high, final(self)@.low),
            r == enable_actuation(old(self)@, final(self)@.high, final(self)@.low),
            !old(self)@.state.enabled && !old(self)@.state.operator_override ==> is_seed_pair(
                final(self)@.high,
                final(self)@.low,
            ),
    {
        self.module.enable_control()
    }

    pub fn enable_control_with_seed(&mut self, highs: &Vec<u16>, lows: &Vec<u16>) -> (r: Actuation)
        requires
            old(self).wf(),
            valid_seed_samples(highs@),
            valid_seed_samples(lows@),
        ensures
            final(self).wf(),
            final(self).reader() == old(self).reader(),
            final(self)@ == after_enable(old(self)@, seq_average(highs@) as u16, seq_average(lows@) as u16),
            r == enable_actuation(old(self)@, seq_average(highs@) as u16, seq_average(lows@) as u16),
    {
        self.module.enable_control_with_seed(highs, lows)
    }

    pub fn disable_control(&mut self) -> (r: Actuation)
        requires
            old(self).wf(),
        ensures
            final(self).wf(),
            final(self).reader() == old(self).reader(),
            final(self)@ == after_disable(old(self)@, final(self)@.high, final(self)@.low),
            r == disable_actuation(old(self)@, final(self)@.high, final(self)@.low),
            old(self)@.state.enabled ==> is_seed_pair(final(self)@.high, final(self)@.low),
    {
        self.module.disable_control()
    }

    pub fn disable_control_with_seed(&mut self, highs: &Vec<u16>, lows: &Vec<u16>) -> (r: Actuation)
        requires
            old(self).wf(),
            valid_seed_samples(highs@),
            valid_seed_samples(lows@),
        ensures
            final(self).wf(),
            final(self).reader() == old(self).reader(),
            final(self)@ == after_disable(old(self)@, seq_average(highs@) as u16, seq_average(lows@) as u16),
            r == disable_actuation(old(self)@, seq_average(highs@) as u16, seq_average(lows@) as u16),
    {
        self.module.disable_control_with_seed(highs, lows)
    }

    /// Takes the result of writing the DAC part of `actuation`; returns the
    /// pin outputs still to drive and the error, if any.
    pub fn confirm_dac_write(&mut self, actuation: Actuation, written: Result<(), SpiError>) -> (r: (
        Actuation,
        Result<(), OxccError>,
    ))
        requires
            old(self).wf(),
        ensures
            final(self).wf(),
            final(self).reader() == old(self).reader(),
            (final(self)@, r.0, r.1) == dac_write_outcome(old(self)@, actuation, written),
    {
        self.module.confirm_dac_write(actuation, written)
    }

    /// The outputs for commanded spoof values, in DAC steps.
    pub fn update_throttle(&self, spoof_command_high: u16, spoof_command_low: u16) -> (r: Actuation)
        requires
            self.wf(),
        ensures
            r == update_actuation(self@, spoof_command_high, spoof_command_low),
    {
        self.module.update_spoof_outputs(spoof_command_high, spoof_command_low)
    }

    pub fn evaluate_faults(&mut self, high: u16, low: u16, now: u32) -> (r: FaultCheck)
        requires
            old(self).wf(),
            high <= ADC_MAX,
            low <= ADC_MAX,
        ensures
            final(self).wf(),
            final(self).reader() == old(self).reader(),
            final(self)@ == after_fault_check(old(self)@, high, low, now, final(self)@.high, final(self)@.low),
            r == fault_check_result(old(self)@, high, low, now, final(self)@.high, final(self)@.low),
    {
        self.module.evaluate_faults(high, low, now)
    }

    pub fn check_for_faults(&mut self, now: u32) -> (r: FaultCheck)
        requires
            old(self).wf(),
        ensures
            final(self).wf(),
            final(self).reader() == old(self).reader(),
            fault_check_post(old(self)@, final(self)@, now, r),
    {
        let ghost v0 = self@;
        let r = self.module.check_for_faults(now);
        proof {
            if !fault_check_idle(v0) {
                let (high, low) = choose|high: u16, low: u16| final_matches(v0, high, low, now, self.module@, r);
                assert(final_matches(v0, high, low, now, self@, r));
            }
        }
        r
    }

    pub fn process_rx_frame(&mut self, can_frame: &CanFrame) -> (r: FrameOutcome)
        requires
            old(self).wf(),
        ensures
            final(self).wf(),
            final(self).reader() == old(self).reader(),
            final(self)@ == after_frame(old(self)@, *can_frame, final(self)@.high, final(self)@.low),
            r == frame_outcome(old(self)@, *can_frame, final(self)@.high, final(self)@.low),
    {
        self.module.process_rx_frame(can_frame)
    }

    /// The control state as a report, taken at the time of the call.
    pub fn supply_throttle_report(&self) -> (r: OsccThrottleReport)
        ensures
            r == (OsccThrottleReport {
                enabled: self@.state.enabled,
                operator_override: self@.state.operator_override,
                dtcs: self@.state.dtcs,
            }),
    {
        let state = self.module.control_state();
        OsccThrottleReport { enabled: state.enabled, operator_override: state.operator_override, dtcs: state.dtcs }
    }
}

impl<R: HighLowReader> ThrottleReportSupplier for ThrottleModule<R> {
    fn supply_throttle_report(&self) -> (r: OsccThrottleReport)
        ensures
            r == (OsccThrottleReport {
                enabled: self@.state.enabled,
                operator_override: self@.state.operator_override,
                dtcs: self@.state.dtcs,
            }),
    {
        ThrottleModule::supply_throttle_report(self)
    }
}

impl<R: HighLowReader> FaultReportSupplier for ThrottleModule<R> {
    /// This module as the origin of a fault, with its asserted DTCs.
    fn supply_fault_report(&self) -> (r: OsccFaultReport)
        ensures
            r == (OsccFaultReport { fault_origin_id: self@.profile.fault_origin_id, dtcs: self@.state.dtcs }),
    {
        let state = self.module.control_state();
        OsccFaultReport { fault_origin_id: self.module.profile().fault_origin_id, dtcs: state.dtcs }
    }
}

} // verus!
