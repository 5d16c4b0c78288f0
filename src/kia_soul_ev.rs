//! Kia Soul EV calibration data.
//!
//! These values keep the vehicle's components inside the range they can
//! handle; changing them risks actuating outside it.
use crate::vehicle::{
    brake_profile, brake_profile_spec, steering_profile, steering_profile_spec, throttle_profile,
    throttle_profile_spec, BrakeLightThresholds, ObdAllowList, SpoofRange, VehicleProfile,
};
use vstd::prelude::*;

verus! {

/// ID of the OBD steering wheel angle frame.
pub const KIA_SOUL_OBD_STEERING_WHEEL_ANGLE_CAN_ID: u16 = 0x2B0;

/// ID of the OBD wheel speed frame.
pub const KIA_SOUL_OBD_WHEEL_SPEED_CAN_ID: u16 = 0x4B0;

/// ID of the OBD brake pressure frame.
pub const KIA_SOUL_OBD_BRAKE_PRESSURE_CAN_ID: u16 = 0x220;

/// ID of the OBD throttle pressure frame.
pub const KIA_SOUL_OBD_THROTTLE_PRESSURE_CAN_ID: u16 = 0x200;

/// Time in ms that a fault condition must hold before it is acted on.
pub const FAULT_HYSTERESIS: u32 = 100;

pub const BRAKE_SPOOF_LOW_SIGNAL_RANGE_MIN: u16 = 273;

pub const BRAKE_SPOOF_LOW_SIGNAL_RANGE_MAX: u16 = 917;

pub const BRAKE_SPOOF_HIGH_SIGNAL_RANGE_MIN: u16 = 572;

pub const BRAKE_SPOOF_HIGH_SIGNAL_RANGE_MAX: u16 = 1875;

/// Brake pedal position that indicates operator override. [steps]
pub const BRAKE_PEDAL_OVERRIDE_THRESHOLD: u16 = 130;

/// High spoof value above which the brake lights are turned on. [steps]
pub const BRAKE_LIGHT_SPOOF_HIGH_THRESHOLD: u16 = 600;

/// Low spoof value above which the brake lights are turned on. [steps]
pub const BRAKE_LIGHT_SPOOF_LOW_THRESHOLD: u16 = 300;

pub const STEERING_SPOOF_LOW_SIGNAL_RANGE_MIN: u16 = 656;

pub const STEERING_SPOOF_LOW_SIGNAL_RANGE_MAX: u16 = 3358;

pub const STEERING_SPOOF_HIGH_SIGNAL_RANGE_MIN: u16 = 738;

pub const STEERING_SPOOF_HIGH_SIGNAL_RANGE_MAX: u16 = 3440;

/// Torque sensor difference that indicates likely operator override.
pub const TORQUE_DIFFERENCE_OVERRIDE_THRESHOLD: u16 = 1600;

pub const THROTTLE_SPOOF_LOW_SIGNAL_RANGE_MIN: u16 = 245;

pub const THROTTLE_SPOOF_LOW_SIGNAL_RANGE_MAX: u16 = 1638;

pub const THROTTLE_SPOOF_HIGH_SIGNAL_RANGE_MIN: u16 = 573;

pub const THROTTLE_SPOOF_HIGH_SIGNAL_RANGE_MAX: u16 = 3358;

/// Accelerator position that indicates operator override. [steps]
pub const ACCELERATOR_OVERRIDE_THRESHOLD: u16 = 185;

/// The Kia Soul EV's profile.
pub fn vehicle_profile() -> (r: VehicleProfile)
    ensures
        r.wf(),
        r.brake == brake_profile_spec(
            SpoofRange { min: BRAKE_SPOOF_HIGH_SIGNAL_RANGE_MIN, max: BRAKE_SPOOF_HIGH_SIGNAL_RANGE_MAX },
            SpoofRange { min: BRAKE_SPOOF_LOW_SIGNAL_RANGE_MIN, max: BRAKE_SPOOF_LOW_SIGNAL_RANGE_MAX },
            BRAKE_PEDAL_OVERRIDE_THRESHOLD,
            BrakeLightThresholds { high: BRAKE_LIGHT_SPOOF_HIGH_THRESHOLD, low: BRAKE_LIGHT_SPOOF_LOW_THRESHOLD },
            FAULT_HYSTERESIS,
        ),
        r.throttle == throttle_profile_spec(
            SpoofRange { min: THROTTLE_SPOOF_HIGH_SIGNAL_RANGE_MIN, max: THROTTLE_SPOOF_HIGH_SIGNAL_RANGE_MAX },
            SpoofRange { min: THROTTLE_SPOOF_LOW_SIGNAL_RANGE_MIN, max: THROTTLE_SPOOF_LOW_SIGNAL_RANGE_MAX },
            ACCELERATOR_OVERRIDE_THRESHOLD,
            FAULT_HYSTERESIS,
        ),
        r.steering == steering_profile_spec(
            SpoofRange { min: STEERING_SPOOF_HIGH_SIGNAL_RANGE_MIN, max: STEERING_SPOOF_HIGH_SIGNAL_RANGE_MAX },
            SpoofRange { min: STEERING_SPOOF_LOW_SIGNAL_RANGE_MIN, max: STEERING_SPOOF_LOW_SIGNAL_RANGE_MAX },
            TORQUE_DIFFERENCE_OVERRIDE_THRESHOLD,
            FAULT_HYSTERESIS,
        ),
        r.obd == (ObdAllowList {
            steering_wheel_angle: KIA_SOUL_OBD_STEERING_WHEEL_ANGLE_CAN_ID,
            wheel_speed: KIA_SOUL_OBD_WHEEL_SPEED_CAN_ID,
            brake_pressure: KIA_SOUL_OBD_BRAKE_PRESSURE_CAN_ID,
            throttle_pressure: Some(KIA_SOUL_OBD_THROTTLE_PRESSURE_CAN_ID),
        }),
{
    VehicleProfile {
        brake: brake_profile(
            SpoofRange { min: BRAKE_SPOOF_HIGH_SIGNAL_RANGE_MIN, max: BRAKE_SPOOF_HIGH_SIGNAL_RANGE_MAX },
            SpoofRange { min: BRAKE_SPOOF_LOW_SIGNAL_RANGE_MIN, max: BRAKE_SPOOF_LOW_SIGNAL_RANGE_MAX },
            BRAKE_PEDAL_OVERRIDE_THRESHOLD,
            BrakeLightThresholds { high: BRAKE_LIGHT_SPOOF_HIGH_THRESHOLD, low: BRAKE_LIGHT_SPOOF_LOW_THRESHOLD },
            FAULT_HYSTERESIS,
        ),
        throttle: throttle_profile(
            SpoofRange { min: THROTTLE_SPOOF_HIGH_SIGNAL_RANGE_MIN, max: THROTTLE_SPOOF_HIGH_SIGNAL_RANGE_MAX },
            SpoofRange { min: THROTTLE_SPOOF_LOW_SIGNAL_RANGE_MIN, max: THROTTLE_SPOOF_LOW_SIGNAL_RANGE_MAX },
            ACCELERATOR_OVERRIDE_THRESHOLD,
            FAULT_HYSTERESIS,
        ),
        steering: steering_profile(
            SpoofRange { min: STEERING_SPOOF_HIGH_SIGNAL_RANGE_MIN, max: STEERING_SPOOF_HIGH_SIGNAL_RANGE_MAX },
            SpoofRange { min: STEERING_SPOOF_LOW_SIGNAL_RANGE_MIN, max: STEERING_SPOOF_LOW_SIGNAL_RANGE_MAX },
            TORQUE_DIFFERENCE_OVERRIDE_THRESHOLD,
            FAULT_HYSTERESIS,
        ),
        obd: ObdAllowList {
            steering_wheel_angle: KIA_SOUL_OBD_STEERING_WHEEL_ANGLE_CAN_ID,
            wheel_speed: KIA_SOUL_OBD_WHEEL_SPEED_CAN_ID,
            brake_pressure: KIA_SOUL_OBD_BRAKE_PRESSURE_CAN_ID,
            throttle_pressure: Some(KIA_SOUL_OBD_THROTTLE_PRESSURE_CAN_ID),
        },
    }
}

} // verus!
