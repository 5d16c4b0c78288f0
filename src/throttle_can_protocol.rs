//! Throttle CAN protocol: enable, disable, command and report frames.
use crate::can_frame::DataFrame;
use crate::oscc_magic_byte::{
    command_payload, decode_command, decode_report, decoded_command, decoded_report, encode_command,
    encode_report, lemma_command_round_trip, lemma_report_round_trip, report_payload,
};
use vstd::prelude::*;

verus! {

pub const OSCC_THROTTLE_ENABLE_CAN_ID: u16 = 0x90;

pub const OSCC_THROTTLE_DISABLE_CAN_ID: u16 = 0x91;

pub const OSCC_THROTTLE_COMMAND_CAN_ID: u16 = 0x92;

pub const OSCC_THROTTLE_REPORT_CAN_ID: u16 = 0x93;

pub const OSCC_THROTTLE_REPORT_CAN_DLC: u8 = 8;

/// DTC bit of an invalid (grounded) sensor reading.
pub const OSCC_THROTTLE_DTC_INVALID_SENSOR_VAL: u8 = 0;

/// DTC bit of an operator override.
pub const OSCC_THROTTLE_DTC_OPERATOR_OVERRIDE: u8 = 1;

/// A throttle command: the IEEE-754 bit pattern of the accelerator position request
/// (the float itself is interpreted outside the library).
#[derive(Clone, Copy, Debug, PartialEq, Eq, Structural)]
pub struct OsccThrottleCommand {
    pub torque_request_bits: u32,
}

impl OsccThrottleCommand {
    /// The command carried by a frame, or `None` where the frame is not a
    /// well-formed throttle command.
    pub fn from_frame(frame: &DataFrame) -> (r: Option<OsccThrottleCommand>)
        ensures
            r == match decoded_command(frame.id, frame.data@, OSCC_THROTTLE_COMMAND_CAN_ID as u32) {
                Some(bits) => Some(OsccThrottleCommand { torque_request_bits: bits }),
                None => None,
            },
    {
        match decode_command(frame, OSCC_THROTTLE_COMMAND_CAN_ID as u32) {
            Some(bits) => Some(OsccThrottleCommand { torque_request_bits: bits }),
            None => None,
        }
    }

    /// The frame that carries this command.
    pub fn to_frame(&self) -> (r: DataFrame)
        ensures
            r.id == OSCC_THROTTLE_COMMAND_CAN_ID as u32,
            r.data@ == command_payload(self.torque_request_bits),
    {
        encode_command(OSCC_THROTTLE_COMMAND_CAN_ID as u32, self.torque_request_bits)
    }
}

/// The published state of the throttle module.
#[derive(Clone, Copy, Debug, PartialEq, Eq, Structural)]
pub struct OsccThrottleReport {
    pub enabled: bool,
    pub operator_override: bool,
    pub dtcs: u8,
}

impl OsccThrottleReport {
    pub fn new() -> (r: Self)
        ensures
            !r.enabled,
            !r.operator_override,
            r.dtcs == 0,
    {
        OsccThrottleReport { enabled: false, operator_override: false, dtcs: 0 }
    }

    /// The frame that carries this report.
    pub fn to_frame(&self) -> (r: DataFrame)
        ensures
            r.id == OSCC_THROTTLE_REPORT_CAN_ID as u32,
            r.data@ == report_payload(self.enabled, self.operator_override, self.dtcs),
    {
        encode_report(OSCC_THROTTLE_REPORT_CAN_ID as u32, self.enabled, self.operator_override, self.dtcs)
    }

    /// The report carried by a frame, or `None` where the frame is not a
    /// well-formed throttle report.
    pub fn from_frame(frame: &DataFrame) -> (r: Option<OsccThrottleReport>)
        ensures
            r == match decoded_report(frame.id, frame.data@, OSCC_THROTTLE_REPORT_CAN_ID as u32) {
                Some((e, o, d)) => Some(OsccThrottleReport { enabled: e, operator_override: o, dtcs: d }),
                None => None,
            },
    {
        match decode_report(frame, OSCC_THROTTLE_REPORT_CAN_ID as u32) {
            Some((e, o, d)) => Some(OsccThrottleReport { enabled: e, operator_override: o, dtcs: d }),
            None => None,
        }
    }
}

/// A source of up-to-date throttle reports.
pub trait ThrottleReportSupplier {
    fn supply_throttle_report(&self) -> OsccThrottleReport;
}

/// Reading back the frame of a throttle report gives the report.
pub proof fn lemma_throttle_report_frame_round_trip(r: OsccThrottleReport)
    ensures
        decoded_report(
            OSCC_THROTTLE_REPORT_CAN_ID as u32,
            report_payload(r.enabled, r.operator_override, r.dtcs),
            OSCC_THROTTLE_REPORT_CAN_ID as u32,
        ) == Some((r.enabled, r.operator_override, r.dtcs)),
{
    lemma_report_round_trip(OSCC_THROTTLE_REPORT_CAN_ID as u32, r.enabled, r.operator_override, r.dtcs);
}

/// Reading back the frame of a throttle command gives the exact request bit
/// pattern.
pub proof fn lemma_throttle_command_frame_round_trip(c: OsccThrottleCommand)
    ensures
        decoded_command(
            OSCC_THROTTLE_COMMAND_CAN_ID as u32,
            command_payload(c.torque_request_bits),
            OSCC_THROTTLE_COMMAND_CAN_ID as u32,
        ) == Some(c.torque_request_bits),
{
    lemma_command_round_trip(OSCC_THROTTLE_COMMAND_CAN_ID as u32, c.torque_request_bits);
}

} // verus!
