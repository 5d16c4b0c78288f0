//! Steering CAN protocol: enable, disable, command and report frames.
use crate::can_frame::DataFrame;
use crate::oscc_magic_byte::{
    command_payload, decode_command, decode_report, decoded_command, decoded_report, encode_command,
    encode_report, lemma_command_round_trip, lemma_report_round_trip, report_payload,
};
use vstd::prelude::*;

verus! {

pub const OSCC_STEERING_ENABLE_CAN_ID: u16 = 0x80;

pub const OSCC_STEERING_DISABLE_CAN_ID: u16 = 0x81;

pub const OSCC_STEERING_COMMAND_CAN_ID: u16 = 0x82;

pub const OSCC_STEERING_REPORT_CAN_ID: u16 = 0x83;

pub const OSCC_STEERING_REPORT_CAN_DLC: u8 = 8;

/// DTC bit of an invalid (grounded) sensor reading.
pub const OSCC_STEERING_DTC_INVALID_SENSOR_VAL: u8 = 0;

/// DTC bit of an operator override.
pub const OSCC_STEERING_DTC_OPERATOR_OVERRIDE: u8 = 1;

/// A steering command: the IEEE-754 bit pattern of the steering torque request
/// (the float itself is interpreted outside the library).
#[derive(Clone, Copy, Debug, PartialEq, Eq, Structural)]
pub struct OsccSteeringCommand {
    pub torque_request_bits: u32,
}

impl OsccSteeringCommand {
    /// The command carried by a frame, or `None` where the frame is not a
    /// well-formed steering command.
    pub fn from_frame(frame: &DataFrame) -> (r: Option<OsccSteeringCommand>)
        ensures
            r == match decoded_command(frame.id, frame.data@, OSCC_STEERING_COMMAND_CAN_ID as u32) {
                Some(bits) => Some(OsccSteeringCommand { torque_request_bits: bits }),
                None => None,
            },
    {
        match decode_command(frame, OSCC_STEERING_COMMAND_CAN_ID as u32) {
            Some(bits) => Some(OsccSteeringCommand { torque_request_bits: bits }),
            None => None,
        }
    }

    /// The frame that carries this command.
    pub fn to_frame(&self) -> (r: DataFrame)
        ensures
            r.id == OSCC_STEERING_COMMAND_CAN_ID as u32,
            r.data@ == command_payload(self.torque_request_bits),
    {
        encode_command(OSCC_STEERING_COMMAND_CAN_ID as u32, self.torque_request_bits)
    }
}

/// The published state of the steering module.
#[derive(Clone, Copy, Debug, PartialEq, Eq, Structural)]
pub struct OsccSteeringReport {
    pub enabled: bool,
    pub operator_override: bool,
    pub dtcs: u8,
}

impl OsccSteeringReport {
    pub fn new() -> (r: Self)
        ensures
            !r.enabled,
            !r.operator_override,
            r.dtcs == 0,
    {
        OsccSteeringReport { enabled: false, operator_override: false, dtcs: 0 }
    }

    /// The frame that carries this report.
    pub fn to_frame(&self) -> (r: DataFrame)
        ensures
            r.id == OSCC_STEERING_REPORT_CAN_ID as u32,
            r.data@ == report_payload(self.enabled, self.operator_override, self.dtcs),
    {
        encode_report(OSCC_STEERING_REPORT_CAN_ID as u32, self.enabled, self.operator_override, self.dtcs)
    }

    /// The report carried by a frame, or `None` where the frame is not a
    /// well-formed steering report.
    pub fn from_frame(frame: &DataFrame) -> (r: Option<OsccSteeringReport>)
        ensures
            r == match decoded_report(frame.id, frame.data@, OSCC_STEERING_REPORT_CAN_ID as u32) {
                Some((e, o, d)) => Some(OsccSteeringReport { enabled: e, operator_override: o, dtcs: d }),
                None => None,
            },
    {
        match decode_report(frame, OSCC_STEERING_REPORT_CAN_ID as u32) {
            Some((e, o, d)) => Some(OsccSteeringReport { enabled: e, operator_override: o, dtcs: d }),
            None => None,
        }
    }
}

/// A source of up-to-date steering reports.
pub trait SteeringReportSupplier {
    fn supply_steering_report(&self) -> OsccSteeringReport;
}

/// Reading back the frame of a steering report gives the report.
pub proof fn lemma_steering_report_frame_round_trip(r: OsccSteeringReport)
    ensures
        decoded_report(
            OSCC_STEERING_REPORT_CAN_ID as u32,
            report_payload(r.enabled, r.operator_override, r.dtcs),
            OSCC_STEERING_REPORT_CAN_ID as u32,
        ) == Some((r.enabled, r.operator_override, r.dtcs)),
{
    lemma_report_round_trip(OSCC_STEERING_REPORT_CAN_ID as u32, r.enabled, r.operator_override, r.dtcs);
}

/// Reading back the frame of a steering command gives the exact request bit
/// pattern.
pub proof fn lemma_steering_command_frame_round_trip(c: OsccSteeringCommand)
    ensures
        decoded_command(
            OSCC_STEERING_COMMAND_CAN_ID as u32,
            command_payload(c.torque_request_bits),
            OSCC_STEERING_COMMAND_CAN_ID as u32,
        ) == Some(c.torque_request_bits),
{
    lemma_command_round_trip(OSCC_STEERING_COMMAND_CAN_ID as u32, c.torque_request_bits);
}

} // verus!
