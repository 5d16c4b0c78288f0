//! The three actuator modules driven together, as the main loop does: every
//! control frame is offered to each of them, faults are checked on each,
//! and on an unrecoverable error all of them are disabled.
use crate::actuator::{
    after_disable, after_frame, disable_actuation, fault_check_post, frame_outcome,
    lemma_fault_report_disables, Actuation, FaultCheck, FrameOutcome,
};
use crate::fault_can_protocol::OSCC_FAULT_REPORT_CAN_ID;
use crate::oscc_magic_byte::has_magic;
use crate::brake_module::BrakeModule;
use crate::can_frame::{CanError, CanFrame, OxccError};
use crate::dual_signal::HighLowReader;
use crate::steering_module::SteeringModule;
use crate::throttle_module::ThrottleModule;
use vstd::prelude::*;

verus! {

/// Outputs decided by each module.
#[derive(Clone, Copy, Debug, PartialEq, Eq, Structural)]
pub struct ModuleActuations {
    pub brake: Actuation,
    pub throttle: Actuation,
    pub steering: Actuation,
}

/// What each module made of one received frame.
#[derive(Clone, Copy, Debug, PartialEq, Eq, Structural)]
pub struct ModuleFrameOutcomes {
    pub brake: FrameOutcome,
    pub throttle: FrameOutcome,
    pub steering: FrameOutcome,
}

/// What each module's fault check returned.
#[derive(Clone, Copy, Debug, PartialEq, Eq, Structural)]
pub struct ModuleFaultChecks {
    pub brake: FaultCheck,
    pub throttle: FaultCheck,
    pub steering: FaultCheck,
}

/// Whether a frame is a fault report: a data frame with the fault report
/// identifier and the magic bytes, whatever its origin and length.
pub open spec fn is_fault_report_frame(frame: CanFrame) -> bool {
    frame is DataFrame && frame->DataFrame_0.id == OSCC_FAULT_REPORT_CAN_ID as u32 && has_magic(
        frame->DataFrame_0.data@,
    )
}

/// The brake, throttle and steering modules.
pub struct ControlModules<RB: HighLowReader, RT: HighLowReader, RS: HighLowReader> {
    pub brake: BrakeModule<RB>,
    pub throttle: ThrottleModule<RT>,
    pub steering: SteeringModule<RS>,
}

impl<RB: HighLowReader, RT: HighLowReader, RS: HighLowReader> ControlModules<RB, RT, RS> {
    pub open spec fn wf(&self) -> bool {
        self.brake.wf() && self.throttle.wf() && self.steering.wf()
    }

    /// Whether every module kept its source of readings.
    pub open spec fn same_readers(&self, other: &Self) -> bool {
        &&& self.brake.reader() == other.brake.reader()
        &&& self.throttle.reader() == other.throttle.reader()
        &&& self.steering.reader() == other.steering.reader()
    }

    /// Offers a frame to the brake, throttle and steering modules, in that
    /// order; each decides by the identifier whether it is concerned.
    pub fn process_rx_frame(&mut self, frame: &CanFrame) -> (r: ModuleFrameOutcomes)
        requires
            old(self).wf(),
        ensures
            final(self).wf(),
            final(self).same_readers(old(self)),
            final(self).brake@ == after_frame(old(self).brake@, *frame, final(self).brake@.high, final(self).brake@.low),
            r.brake == frame_outcome(old(self).brake@, *frame, final(self).brake@.high, final(self).brake@.low),
            final(self).throttle@ == after_frame(
                old(self).throttle@,
                *frame,
                final(self).throttle@.high,
                final(self).throttle@.low,
            ),
            r.throttle == frame_outcome(
                old(self).throttle@,
                *frame,
                final(self).throttle@.high,
                final(self).throttle@.low,
            ),
            final(self).steering@ == after_frame(
                old(self).steering@,
                *frame,
                final(self).steering@.high,
                final(self).steering@.low,
            ),
            r.steering == frame_outcome(
                old(self).steering@,
                *frame,
                final(self).steering@.high,
                final(self).steering@.low,
            ),
            is_fault_report_frame(*frame) ==> !final(self).brake@.state.enabled
                && !final(self).throttle@.state.enabled && !final(self).steering@.state.enabled,
    {
        let ghost (b0, t0, s0) = (self.brake@, self.throttle@, self.steering@);
        let brake = self.brake.process_rx_frame(frame);
        let throttle = self.throttle.process_rx_frame(frame);
        let steering = self.steering.process_rx_frame(frame);
        proof {
            if is_fault_report_frame(*frame) {
                lemma_fault_report_disables(b0, *frame, self.brake@.high, self.brake@.low);
                lemma_fault_report_disables(t0, *frame, self.throttle@.high, self.throttle@.low);
                lemma_fault_report_disables(s0, *frame, self.steering@.high, self.steering@.low);
            }
        }
        ModuleFrameOutcomes { brake, throttle, steering }
    }

    /// Handles the result of polling one receive queue of the control bus:
    /// a frame is offered to every module; an empty queue changes nothing
    /// and is no error; any other receive error is returned for the error
    /// handler, with nothing changed.
    pub fn process_received(&mut self, received: Result<CanFrame, CanError>) -> (r: Result<
        Option<ModuleFrameOutcomes>,
        OxccError,
    >)
        requires
            old(self).wf(),
        ensures
            final(self).wf(),
            final(self).same_readers(old(self)),
            match received {
                Ok(frame) => {
                    &&& r is Ok && r->Ok_0 is Some
                    &&& final(self).brake@ == after_frame(
                        old(self).brake@,
                        frame,
                        final(self).brake@.high,
                        final(self).brake@.low,
                    )
                    &&& final(self).throttle@ == after_frame(
                        old(self).throttle@,
                        frame,
                        final(self).throttle@.high,
                        final(self).throttle@.low,
                    )
                    &&& final(self).steering@ == after_frame(
                        old(self).steering@,
                        frame,
                        final(self).steering@.high,
                        final(self).steering@.low,
                    )
                    &&& r->Ok_0->Some_0.brake == frame_outcome(
                        old(self).brake@,
                        frame,
                        final(self).brake@.high,
                        final(self).brake@.low,
                    )
                    &&& r->Ok_0->Some_0.throttle == frame_outcome(
                        old(self).throttle@,
                        frame,
                        final(self).throttle@.high,
                        final(self).throttle@.low,
                    )
                    &&& r->Ok_0->Some_0.steering == frame_outcome(
                        old(self).steering@,
                        frame,
                        final(self).steering@.high,
                        final(self).steering@.low,
                    )
                },
                Err(e) => {
                    &&& final(self).brake@ == old(self).brake@
                    &&& final(self).throttle@ == old(self).throttle@
                    &&& final(self).steering@ == old(self).steering@
                    &&& r == if e == CanError::BufferExhausted {
                        Ok(None::<ModuleFrameOutcomes>)
                    } else {
                        Err(OxccError::Can(e))
                    }
                },
            },
    {
        match received {
            Ok(frame) => Ok(Some(self.process_rx_frame(&frame))),
            Err(CanError::BufferExhausted) => Ok(None),
            Err(e) => Err(OxccError::from(e)),
        }
    }

    /// Checks every module for fresh faults at time `now`, brake first.
    pub fn check_for_faults(&mut self, now: u32) -> (r: ModuleFaultChecks)
        requires
            old(self).wf(),
        ensures
            final(self).wf(),
            final(self).same_readers(old(self)),
            fault_check_post(old(self).brake@, final(self).brake@, now, r.brake),
            fault_check_post(old(self).throttle@, final(self).throttle@, now, r.throttle),
            fault_check_post(old(self).steering@, final(self).steering@, now, r.steering),
    {
        let brake = self.brake.check_for_faults(now);
        let throttle = self.throttle.check_for_faults(now);
        let steering = self.steering.check_for_faults(now);
        ModuleFaultChecks { brake, throttle, steering }
    }

    /// Disables every module, whatever its state: the error handler's
    /// recovery action. Afterwards none of them is enabled.
    pub fn disable_all(&mut self) -> (r: ModuleActuations)
        requires
            old(self).wf(),
        ensures
            final(self).wf(),
            final(self).same_readers(old(self)),
            final(self).brake@ == after_disable(old(self).brake@, final(self).brake@.high, final(self).brake@.low),
            r.brake == disable_actuation(old(self).brake@, final(self).brake@.high, final(self).brake@.low),
            final(self).throttle@ == after_disable(
                old(self).throttle@,
                final(self).throttle@.high,
                final(self).throttle@.low,
            ),
            r.throttle == disable_actuation(
                old(self).throttle@,
                final(self).throttle@.high,
                final(self).throttle@.low,
            ),
            final(self).steering@ == after_disable(
                old(self).steering@,
                final(self).steering@.high,
                final(self).steering@.low,
            ),
            r.steering == disable_actuation(
                old(self).steering@,
                final(self).steering@.high,
                final(self).steering@.low,
            ),
            !final(self).brake@.state.enabled,
            !final(self).throttle@.state.enabled,
            !final(self).steering@.state.enabled,
    {
        let throttle = self.throttle.disable_control();
        let steering = self.steering.disable_control();
        let brake = self.brake.disable_control();
        ModuleActuations { brake, throttle, steering }
    }
}

} // verus!
