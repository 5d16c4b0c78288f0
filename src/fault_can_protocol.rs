//! Fault report frames, broadcast by a module that has just faulted.
use crate::can_frame::DataFrame;
use crate::oscc_magic_byte::{
    decode_fault, decoded_fault, encode_fault, fault_payload, lemma_fault_round_trip,
};
use vstd::prelude::*;

verus! {

pub const OSCC_FAULT_REPORT_CAN_ID: u16 = 0xAF;

pub const OSCC_FAULT_REPORT_CAN_DLC: u8 = 8;

pub const FAULT_ORIGIN_BRAKE: u32 = 0;

pub const FAULT_ORIGIN_STEERING: u32 = 1;

pub const FAULT_ORIGIN_THROTTLE: u32 = 2;

/// Which module faulted, and the DTCs it had asserted.
#[derive(Clone, Copy, Debug, PartialEq, Eq, Structural)]
pub struct OsccFaultReport {
    pub fault_origin_id: u32,
    pub dtcs: u8,
}

impl OsccFaultReport {
    /// The frame that carries this report.
    pub fn to_frame(&self) -> (r: DataFrame)
        ensures
            r.id == OSCC_FAULT_REPORT_CAN_ID as u32,
            r.data@ == fault_payload(self.fault_origin_id, self.dtcs),
    {
        encode_fault(OSCC_FAULT_REPORT_CAN_ID as u32, self.fault_origin_id, self.dtcs)
    }

    /// The report carried by a frame, or `None` where the frame is not a
    /// well-formed fault report.
    pub fn from_frame(frame: &DataFrame) -> (r: Option<OsccFaultReport>)
        ensures
            r == match decoded_fault(frame.id, frame.data@, OSCC_FAULT_REPORT_CAN_ID as u32) {
                Some((origin, dtcs)) => Some(OsccFaultReport { fault_origin_id: origin, dtcs }),
                None => None,
            },
    {
        match decode_fault(frame, OSCC_FAULT_REPORT_CAN_ID as u32) {
            Some((origin, dtcs)) => Some(OsccFaultReport { fault_origin_id: origin, dtcs }),
            None => None,
        }
    }
}

/// A source of the latest fault report.
pub trait FaultReportSupplier {
    fn supply_fault_report(&self) -> OsccFaultReport;
}

/// Reading back the frame of a fault report gives its origin and DTCs.
pub proof fn lemma_fault_report_frame_round_trip(r: OsccFaultReport)
    ensures
        decoded_fault(
            OSCC_FAULT_REPORT_CAN_ID as u32,
            fault_payload(r.fault_origin_id, r.dtcs),
            OSCC_FAULT_REPORT_CAN_ID as u32,
        ) == Some((r.fault_origin_id, r.dtcs)),
{
    lemma_fault_round_trip(OSCC_FAULT_REPORT_CAN_ID as u32, r.fault_origin_id, r.dtcs);
}

} // verus!
