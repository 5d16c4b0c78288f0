//! Vehicle calibration that the control logic reads: CAN identifiers,
//! spoof ranges in DAC steps, override thresholds and fault hysteresis.
use crate::brake_can_protocol::{
    OSCC_BRAKE_COMMAND_CAN_ID, OSCC_BRAKE_DISABLE_CAN_ID, OSCC_BRAKE_DTC_INVALID_SENSOR_VAL,
    OSCC_BRAKE_DTC_OPERATOR_OVERRIDE, OSCC_BRAKE_ENABLE_CAN_ID,
};
use crate::fault_can_protocol::{
    FAULT_ORIGIN_BRAKE, FAULT_ORIGIN_STEERING, FAULT_ORIGIN_THROTTLE, OSCC_FAULT_REPORT_CAN_ID,
};
use crate::steering_can_protocol::{
    OSCC_STEERING_COMMAND_CAN_ID, OSCC_STEERING_DISABLE_CAN_ID, OSCC_STEERING_DTC_INVALID_SENSOR_VAL,
    OSCC_STEERING_DTC_OPERATOR_OVERRIDE, OSCC_STEERING_ENABLE_CAN_ID,
};
use crate::throttle_can_protocol::{
    OSCC_THROTTLE_COMMAND_CAN_ID, OSCC_THROTTLE_DISABLE_CAN_ID, OSCC_THROTTLE_DTC_INVALID_SENSOR_VAL,
    OSCC_THROTTLE_DTC_OPERATOR_OVERRIDE, OSCC_THROTTLE_ENABLE_CAN_ID,
};
use vstd::prelude::*;

verus! {

/// Largest value of the 12-bit DAC.
pub const DAC_MAX: u16 = 4095;

/// An inclusive range of DAC steps.
#[derive(Clone, Copy, Debug, PartialEq, Eq, Structural)]
pub struct SpoofRange {
    pub min: u16,
    pub max: u16,
}

impl SpoofRange {
    pub open spec fn wf(self) -> bool {
        self.min <= self.max <= DAC_MAX
    }
}

/// How a module recognises that the operator has taken back control.
#[derive(Clone, Copy, Debug, PartialEq, Eq, Structural)]
pub enum OverrideDetection {
    /// The averaged sensor position reaches the threshold (pedals).
    Position(u16),
    /// The filtered difference of the sensor pair exceeds the threshold
    /// (steering torque).
    TorqueDifference(u16),
}

/// Spoof values above which the brake lights are turned on.
#[derive(Clone, Copy, Debug, PartialEq, Eq, Structural)]
pub struct BrakeLightThresholds {
    pub high: u16,
    pub low: u16,
}

/// Calibration and identity of one actuator module.
#[derive(Clone, Copy, Debug, PartialEq, Eq, Structural)]
pub struct ActuatorProfile {
    pub enable_can_id: u16,
    pub disable_can_id: u16,
    pub command_can_id: u16,
    pub fault_origin_id: u32,
    pub dtc_invalid_sensor_val: u8,
    pub dtc_operator_override: u8,
    pub spoof_high_range: SpoofRange,
    pub spoof_low_range: SpoofRange,
    pub override_detection: OverrideDetection,
    pub brake_light: Option<BrakeLightThresholds>,
    pub fault_hysteresis: u32,
}

impl ActuatorProfile {
    pub open spec fn wf(self) -> bool {
        &&& self.spoof_high_range.wf()
        &&& self.spoof_low_range.wf()
        &&& self.dtc_invalid_sensor_val < 8
        &&& self.dtc_operator_override < 8
        &&& self.enable_can_id != self.disable_can_id
        &&& self.enable_can_id != self.command_can_id
        &&& self.disable_can_id != self.command_can_id
        &&& self.enable_can_id != OSCC_FAULT_REPORT_CAN_ID
        &&& self.disable_can_id != OSCC_FAULT_REPORT_CAN_ID
        &&& self.command_can_id != OSCC_FAULT_REPORT_CAN_ID
    }
}

/// Identifiers of the vehicle's OBD frames that are forwarded to the
/// control bus.
#[derive(Clone, Copy, Debug, PartialEq, Eq, Structural)]
pub struct ObdAllowList {
    pub steering_wheel_angle: u16,
    pub wheel_speed: u16,
    pub brake_pressure: u16,
    /// Only on vehicles that report it.
    pub throttle_pressure: Option<u16>,
}

impl ObdAllowList {
    /// Whether frames with identifier `id` are forwarded.
    pub open spec fn allows(self, id: u32) -> bool {
        id == self.steering_wheel_angle as u32 || id == self.wheel_speed as u32 || id
            == self.brake_pressure as u32 || (self.throttle_pressure.is_some() && id
            == self.throttle_pressure.unwrap() as u32)
    }

    /// Whether frames with identifier `id` are forwarded.
    pub fn contains(&self, id: u32) -> (r: bool)
        ensures
            r == self.allows(id),
    {
        let mut is_a_match = id == self.steering_wheel_angle as u32 || id == self.wheel_speed as u32
            || id == self.brake_pressure as u32;
        if let Some(throttle_pressure) = self.throttle_pressure {
            if id == throttle_pressure as u32 {
                is_a_match = true;
            }
        }
        is_a_match
    }
}

/// Everything the control logic needs to know about one vehicle.
#[derive(Clone, Copy, Debug, PartialEq, Eq, Structural)]
pub struct VehicleProfile {
    pub brake: ActuatorProfile,
    pub throttle: ActuatorProfile,
    pub steering: ActuatorProfile,
    pub obd: ObdAllowList,
}

impl VehicleProfile {
    pub open spec fn wf(self) -> bool {
        self.brake.wf() && self.throttle.wf() && self.steering.wf()
    }
}

/// The brake module's profile built from the given calibration.
pub open spec fn brake_profile_spec(
    spoof_high_range: SpoofRange,
    spoof_low_range: SpoofRange,
    pedal_override_threshold: u16,
    brake_light: BrakeLightThresholds,
    fault_hysteresis: u32,
) -> ActuatorProfile {
    ActuatorProfile {
        enable_can_id: OSCC_BRAKE_ENABLE_CAN_ID,
        disable_can_id: OSCC_BRAKE_DISABLE_CAN_ID,
        command_can_id: OSCC_BRAKE_COMMAND_CAN_ID,
        fault_origin_id: FAULT_ORIGIN_BRAKE,
        dtc_invalid_sensor_val: OSCC_BRAKE_DTC_INVALID_SENSOR_VAL,
        dtc_operator_override: OSCC_BRAKE_DTC_OPERATOR_OVERRIDE,
        spoof_high_range,
        spoof_low_range,
        override_detection: OverrideDetection::Position(pedal_override_threshold),
        brake_light: Some(brake_light),
        fault_hysteresis,
    }
}

/// The brake module's profile: pedal-position override, brake lights.
pub fn brake_profile(
    spoof_high_range: SpoofRange,
    spoof_low_range: SpoofRange,
    pedal_override_threshold: u16,
    brake_light: BrakeLightThresholds,
    fault_hysteresis: u32,
) -> (r: ActuatorProfile)
    requires
        spoof_high_range.wf(),
        spoof_low_range.wf(),
    ensures
        r.wf(),
        is_brake_profile(r),
        r == brake_profile_spec(spoof_high_range, spoof_low_range, pedal_override_threshold, brake_light, fault_hysteresis),
{
    ActuatorProfile {
        enable_can_id: OSCC_BRAKE_ENABLE_CAN_ID,
        disable_can_id: OSCC_BRAKE_DISABLE_CAN_ID,
        command_can_id: OSCC_BRAKE_COMMAND_CAN_ID,
        fault_origin_id: FAULT_ORIGIN_BRAKE,
        dtc_invalid_sensor_val: OSCC_BRAKE_DTC_INVALID_SENSOR_VAL,
        dtc_operator_override: OSCC_BRAKE_DTC_OPERATOR_OVERRIDE,
        spoof_high_range,
        spoof_low_range,
        override_detection: OverrideDetection::Position(pedal_override_threshold),
        brake_light: Some(brake_light),
        fault_hysteresis,
    }
}

/// The throttle module's profile built from the given calibration.
pub open spec fn throttle_profile_spec(
    spoof_high_range: SpoofRange,
    spoof_low_range: SpoofRange,
    accelerator_override_threshold: u16,
    fault_hysteresis: u32,
) -> ActuatorProfile {
    ActuatorProfile {
        enable_can_id: OSCC_THROTTLE_ENABLE_CAN_ID,
        disable_can_id: OSCC_THROTTLE_DISABLE_CAN_ID,
        command_can_id: OSCC_THROTTLE_COMMAND_CAN_ID,
        fault_origin_id: FAULT_ORIGIN_THROTTLE,
        dtc_invalid_sensor_val: OSCC_THROTTLE_DTC_INVALID_SENSOR_VAL,
        dtc_operator_override: OSCC_THROTTLE_DTC_OPERATOR_OVERRIDE,
        spoof_high_range,
        spoof_low_range,
        override_detection: OverrideDetection::Position(accelerator_override_threshold),
        brake_light: None,
        fault_hysteresis,
    }
}

/// The throttle module's profile: accelerator-position override.
pub fn throttle_profile(
    spoof_high_range: SpoofRange,
    spoof_low_range: SpoofRange,
    accelerator_override_threshold: u16,
    fault_hysteresis: u32,
) -> (r: ActuatorProfile)
    requires
        spoof_high_range.wf(),
        spoof_low_range.wf(),
    ensures
        r.wf(),
        is_throttle_profile(r),
        r == throttle_profile_spec(spoof_high_range, spoof_low_range, accelerator_override_threshold, fault_hysteresis),
{
    ActuatorProfile {
        enable_can_id: OSCC_THROTTLE_ENABLE_CAN_ID,
        disable_can_id: OSCC_THROTTLE_DISABLE_CAN_ID,
        command_can_id: OSCC_THROTTLE_COMMAND_CAN_ID,
        fault_origin_id: FAULT_ORIGIN_THROTTLE,
        dtc_invalid_sensor_val: OSCC_THROTTLE_DTC_INVALID_SENSOR_VAL,
        dtc_operator_override: OSCC_THROTTLE_DTC_OPERATOR_OVERRIDE,
        spoof_high_range,
        spoof_low_range,
        override_detection: OverrideDetection::Position(accelerator_override_threshold),
        brake_light: None,
        fault_hysteresis,
    }
}

/// The steering module's profile built from the given calibration.
pub open spec fn steering_profile_spec(
    spoof_high_range: SpoofRange,
    spoof_low_range: SpoofRange,
    torque_difference_override_threshold: u16,
    fault_hysteresis: u32,
) -> ActuatorProfile {
    ActuatorProfile {
        enable_can_id: OSCC_STEERING_ENABLE_CAN_ID,
        disable_can_id: OSCC_STEERING_DISABLE_CAN_ID,
        command_can_id: OSCC_STEERING_COMMAND_CAN_ID,
        fault_origin_id: FAULT_ORIGIN_STEERING,
        dtc_invalid_sensor_val: OSCC_STEERING_DTC_INVALID_SENSOR_VAL,
        dtc_operator_override: OSCC_STEERING_DTC_OPERATOR_OVERRIDE,
        spoof_high_range,
        spoof_low_range,
        override_detection: OverrideDetection::TorqueDifference(torque_difference_override_threshold),
        brake_light: None,
        fault_hysteresis,
    }
}

/// The steering module's profile: torque-difference override.
pub fn steering_profile(
    spoof_high_range: SpoofRange,
    spoof_low_range: SpoofRange,
    torque_difference_override_threshold: u16,
    fault_hysteresis: u32,
) -> (r: ActuatorProfile)
    requires
        spoof_high_range.wf(),
        spoof_low_range.wf(),
    ensures
        r.wf(),
        is_steering_profile(r),
        r == steering_profile_spec(spoof_high_range, spoof_low_range, torque_difference_override_threshold, fault_hysteresis),
{
    ActuatorProfile {
        enable_can_id: OSCC_STEERING_ENABLE_CAN_ID,
        disable_can_id: OSCC_STEERING_DISABLE_CAN_ID,
        command_can_id: OSCC_STEERING_COMMAND_CAN_ID,
        fault_origin_id: FAULT_ORIGIN_STEERING,
        dtc_invalid_sensor_val: OSCC_STEERING_DTC_INVALID_SENSOR_VAL,
        dtc_operator_override: OSCC_STEERING_DTC_OPERATOR_OVERRIDE,
        spoof_high_range,
        spoof_low_range,
        override_detection: OverrideDetection::TorqueDifference(torque_difference_override_threshold),
        brake_light: None,
        fault_hysteresis,
    }
}

/// Whether a profile is one of the brake module: its identifiers, fault
/// origin and DTC bits, and the kind of override detection it uses.
pub open spec fn is_brake_profile(p: ActuatorProfile) -> bool {
    &&& p.enable_can_id == OSCC_BRAKE_ENABLE_CAN_ID
    &&& p.disable_can_id == OSCC_BRAKE_DISABLE_CAN_ID
    &&& p.command_can_id == OSCC_BRAKE_COMMAND_CAN_ID
    &&& p.fault_origin_id == FAULT_ORIGIN_BRAKE
    &&& p.dtc_invalid_sensor_val == OSCC_BRAKE_DTC_INVALID_SENSOR_VAL
    &&& p.dtc_operator_override == OSCC_BRAKE_DTC_OPERATOR_OVERRIDE
    &&& p.brake_light is Some
    &&& p.override_detection is Position
}

/// Whether a profile is one of the throttle module: its identifiers, fault
/// origin and DTC bits, and the kind of override detection it uses.
pub open spec fn is_throttle_profile(p: ActuatorProfile) -> bool {
    &&& p.enable_can_id == OSCC_THROTTLE_ENABLE_CAN_ID
    &&& p.disable_can_id == OSCC_THROTTLE_DISABLE_CAN_ID
    &&& p.command_can_id == OSCC_THROTTLE_COMMAND_CAN_ID
    &&& p.fault_origin_id == FAULT_ORIGIN_THROTTLE
    &&& p.dtc_invalid_sensor_val == OSCC_THROTTLE_DTC_INVALID_SENSOR_VAL
    &&& p.dtc_operator_override == OSCC_THROTTLE_DTC_OPERATOR_OVERRIDE
    &&& p.brake_light is None
    &&& p.override_detection is Position
}

/// Whether a profile is one of the steering module: its identifiers, fault
/// origin and DTC bits, and the kind of override detection it uses.
pub open spec fn is_steering_profile(p: ActuatorProfile) -> bool {
    &&& p.enable_can_id == OSCC_STEERING_ENABLE_CAN_ID
    &&& p.disable_can_id == OSCC_STEERING_DISABLE_CAN_ID
    &&& p.command_can_id == OSCC_STEERING_COMMAND_CAN_ID
    &&& p.fault_origin_id == FAULT_ORIGIN_STEERING
    &&& p.dtc_invalid_sensor_val == OSCC_STEERING_DTC_INVALID_SENSOR_VAL
    &&& p.dtc_operator_override == OSCC_STEERING_DTC_OPERATOR_OVERRIDE
    &&& p.brake_light is None
    &&& p.override_detection is TorqueDifference
}

} // verus!
