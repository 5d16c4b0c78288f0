//! Brake CAN protocol: enable, disable, command and report frames.
use crate::can_frame::DataFrame;
use crate::oscc_magic_byte::{
    command_payload, decode_command, decode_report, decoded_command, decoded_report, encode_command,
    encode_report, lemma_command_round_trip, lemma_report_round_trip, report_payload,
};
use vstd::prelude::*;

verus! {

pub const OSCC_BRAKE_ENABLE_CAN_ID: u16 = 0x70;

pub const OSCC_BRAKE_DISABLE_CAN_ID: u16 = 0x71;

pub const OSCC_BRAKE_COMMAND_CAN_ID: u16 = 0x72;

pub const OSCC_BRAKE_REPORT_CAN_ID: u16 = 0x73;

pub const OSCC_BRAKE_REPORT_CAN_DLC: u8 = 8;

/// DTC bit of an invalid (grounded) sensor reading.
pub const OSCC_BRAKE_DTC_INVALID_SENSOR_VAL: u8 = 0;

/// DTC bit of an operator override.
pub const OSCC_BRAKE_DTC_OPERATOR_OVERRIDE: u8 = 1;

/// A brake command: the IEEE-754 bit pattern of the pedal position request
/// (the float itself is interpreted outside the library).
#[derive(Clone, Copy, Debug, PartialEq, Eq, Structural)]
pub struct OsccBrakeCommand {
    pub pedal_command_bits: u32,
}

impl OsccBrakeCommand {
    /// The command carried by a frame, or `None` where the frame is not a
    /// well-formed brake command.
    pub fn from_frame(frame: &DataFrame) -> (r: Option<OsccBrakeCommand>)
        ensures
            r == match decoded_command(frame.id, frame.data@, OSCC_BRAKE_COMMAND_CAN_ID as u32) {
                Some(bits) => Some(OsccBrakeCommand { pedal_command_bits: bits }),
                None => None,
            },
    {
        match decode_command(frame, OSCC_BRAKE_COMMAND_CAN_ID as u32) {
            Some(bits) => Some(OsccBrakeCommand { pedal_command_bits: bits }),
            None => None,
        }
    }

    /// The frame that carries this command.
    pub fn to_frame(&self) -> (r: DataFrame)
        ensures
            r.id == OSCC_BRAKE_COMMAND_CAN_ID as u32,
            r.data@ == command_payload(self.pedal_command_bits),
    {
        encode_command(OSCC_BRAKE_COMMAND_CAN_ID as u32, self.pedal_command_bits)
    }
}

/// The published state of the brake module.
#[derive(Clone, Copy, Debug, PartialEq, Eq, Structural)]
pub struct OsccBrakeReport {
    pub enabled: bool,
    pub operator_override: bool,
    pub dtcs: u8,
}

impl OsccBrakeReport {
    pub fn new() -> (r: Self)
        ensures
            !r.enabled,
            !r.operator_override,
            r.dtcs == 0,
    {
        OsccBrakeReport { enabled: false, operator_override: false, dtcs: 0 }
    }

    /// The frame that carries this report.
    pub fn to_frame(&self) -> (r: DataFrame)
        ensures
            r.id == OSCC_BRAKE_REPORT_CAN_ID as u32,
            r.data@ == report_payload(self.enabled, self.operator_override, self.dtcs),
    {
        encode_report(OSCC_BRAKE_REPORT_CAN_ID as u32, self.enabled, self.operator_override, self.dtcs)
    }

    /// The report carried by a frame, or `None` where the frame is not a
    /// well-formed brake report.
    pub fn from_frame(frame: &DataFrame) -> (r: Option<OsccBrakeReport>)
        ensures
            r == match decoded_report(frame.id, frame.data@, OSCC_BRAKE_REPORT_CAN_ID as u32) {
                Some((e, o, d)) => Some(OsccBrakeReport { enabled: e, operator_override: o, dtcs: d }),
                None => None,
            },
    {
        match decode_report(frame, OSCC_BRAKE_REPORT_CAN_ID as u32) {
            Some((e, o, d)) => Some(OsccBrakeReport { enabled: e, operator_override: o, dtcs: d }),
            None => None,
        }
    }
}

/// A source of up-to-date brake reports.
pub trait BrakeReportSupplier {
    fn supply_brake_report(&self) -> OsccBrakeReport;
}

/// Reading back the frame of a brake report gives the report.
pub proof fn lemma_brake_report_frame_round_trip(r: OsccBrakeReport)
    ensures
        decoded_report(
            OSCC_BRAKE_REPORT_CAN_ID as u32,
            report_payload(r.enabled, r.operator_override, r.dtcs),
            OSCC_BRAKE_REPORT_CAN_ID as u32,
        ) == Some((r.enabled, r.operator_override, r.dtcs)),
{
    lemma_report_round_trip(OSCC_BRAKE_REPORT_CAN_ID as u32, r.enabled, r.operator_override, r.dtcs);
}

/// Reading back the frame of a brake command gives the exact request bit
/// pattern.
pub proof fn lemma_brake_command_frame_round_trip(c: OsccBrakeCommand)
    ensures
        decoded_command(
            OSCC_BRAKE_COMMAND_CAN_ID as u32,
            command_payload(c.pedal_command_bits),
            OSCC_BRAKE_COMMAND_CAN_ID as u32,
        ) == Some(c.pedal_command_bits),
{
    lemma_command_round_trip(OSCC_BRAKE_COMMAND_CAN_ID as u32, c.pedal_command_bits);
}

} // verus!
