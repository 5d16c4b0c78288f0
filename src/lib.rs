//! Fault and state engine of a drive-by-wire override controller.
//!
//! The library holds the verified logic: dual-sensor sampling, fault
//! hysteresis, diagnostic trouble codes, the control CAN protocol and the
//! per-actuator enable/disable/override state machine.
pub mod actuator;
pub mod adc_storage;
pub mod brake_can_protocol;
pub mod brake_module;
pub mod can_frame;
pub mod can_gateway_module;
pub mod control_modules;
pub mod dac_mcp4922;
pub mod dtc;
pub mod dual_signal;
pub mod fault_can_protocol;
pub mod fault_condition;
pub mod kia_niro;
pub mod kia_soul_ev;
pub mod numeric;
pub mod oscc_magic_byte;
pub mod steering_can_protocol;
pub mod steering_module;
pub mod throttle_can_protocol;
pub mod throttle_module;
pub mod vehicle;
