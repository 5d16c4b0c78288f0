use oxcc::actuator::{Actuation, DacOutputs};
use oxcc::brake_module::{BrakeModule, UnpreparedBrakeModule};
use oxcc::can_frame::{CanError, CanFrame, DataFrame, OxccError, SpiError};
use oxcc::control_modules::ControlModules;
use oxcc::dual_signal::HighLowReader;
use oxcc::fault_can_protocol::{FaultReportSupplier, OsccFaultReport, FAULT_ORIGIN_BRAKE};
use oxcc::brake_can_protocol::{OsccBrakeReport, OSCC_BRAKE_DTC_INVALID_SENSOR_VAL};
use oxcc::kia_niro;
use oxcc::steering_can_protocol::OsccSteeringCommand;
use oxcc::steering_module::{SteeringModule, UnpreparedSteeringModule};
use oxcc::throttle_can_protocol::OSCC_THROTTLE_DTC_OPERATOR_OVERRIDE;
use oxcc::throttle_module::{ThrottleModule, UnpreparedThrottleModule};
use std::cell::Cell;
use std::rc::Rc;

/// A sensor pair whose readings the test sets.
#[derive(Clone)]
struct Sensor(Rc<Cell<(u16, u16)>>);

impl Sensor {
    fn new(high: u16, low: u16) -> Self {
        Sensor(Rc::new(Cell::new((high, low))))
    }

    fn set(&self, high: u16, low: u16) {
        self.0.set((high, low));
    }
}

impl HighLowReader for Sensor {
    fn read_high(&self) -> u16 {
        self.0.get().0
    }

    fn read_low(&self) -> u16 {
        self.0.get().1
    }
}

fn frame(id: u32, data: Vec<u8>) -> CanFrame {
    CanFrame::DataFrame(DataFrame::new(id, data))
}

fn brake(sensor: &Sensor) -> BrakeModule<Sensor> {
    let (m, act) = UnpreparedBrakeModule::new(kia_niro::vehicle_profile().brake, sensor.clone()).prepare_module();
    assert_eq!(act, Actuation { dac: None, spoof_enable: Some(false), brake_light: Some(false) });
    m
}

fn throttle(sensor: &Sensor) -> ThrottleModule<Sensor> {
    let (m, act) = UnpreparedThrottleModule::new(kia_niro::vehicle_profile().throttle, sensor.clone()).prepare_module();
    assert_eq!(act, Actuation { dac: None, spoof_enable: Some(false), brake_light: None });
    m
}

fn steering(sensor: &Sensor) -> SteeringModule<Sensor> {
    let (m, _) = UnpreparedSteeringModule::new(kia_niro::vehicle_profile().steering, sensor.clone()).prepare_module();
    m
}

#[test]
fn enable_frame_enables_brake_with_seeded_dac() {
    let sensor = Sensor::new(1000, 500);
    let mut m = brake(&sensor);
    assert_eq!(m.supply_brake_report(), OsccBrakeReport { enabled: false, operator_override: false, dtcs: 0 });
    let out = m.process_rx_frame(&frame(0x70, vec![0x05, 0xCC]));
    assert_eq!(out.command_bits, None);
    assert_eq!(
        out.actuation,
        Actuation {
            dac: Some(DacOutputs { channel_a: 500, channel_b: 1000 }),
            spoof_enable: Some(true),
            brake_light: None,
        }
    );
    assert!(m.supply_brake_report().enabled);
    // a second enable changes nothing
    assert_eq!(m.enable_control(), Actuation { dac: None, spoof_enable: None, brake_light: None });
}

#[test]
fn frames_without_magic_are_ignored() {
    let sensor = Sensor::new(1000, 500);
    let mut m = brake(&sensor);
    let out = m.process_rx_frame(&frame(0x70, vec![0x05, 0xCD]));
    assert_eq!(out.actuation, Actuation { dac: None, spoof_enable: None, brake_light: None });
    assert!(!m.supply_brake_report().enabled);
    m.process_rx_frame(&frame(0x70, vec![0x05]));
    m.process_rx_frame(&CanFrame::RemoteFrame(0x70));
    assert!(!m.supply_brake_report().enabled);
}

#[test]
fn grounded_brake_sensor_faults_after_hysteresis() {
    let sensor = Sensor::new(1000, 500);
    let mut m = brake(&sensor);
    m.enable_control();
    sensor.set(0, 0);
    let start: u32 = 5000;
    let none = m.check_for_faults(start);
    assert_eq!(none.report, None);
    assert_eq!(m.check_for_faults(start + kia_niro::FAULT_HYSTERESIS - 1).report, None);
    assert!(m.supply_brake_report().enabled);
    let fault = m.check_for_faults(start + kia_niro::FAULT_HYSTERESIS);
    assert_eq!(
        fault.report,
        Some(OsccFaultReport { fault_origin_id: FAULT_ORIGIN_BRAKE, dtcs: 1 << OSCC_BRAKE_DTC_INVALID_SENSOR_VAL })
    );
    assert_eq!(fault.actuation.spoof_enable, Some(false));
    assert_eq!(fault.actuation.brake_light, Some(false));
    assert_eq!(fault.actuation.dac, Some(DacOutputs { channel_a: 0, channel_b: 0 }));
    let report = m.supply_brake_report();
    assert!(!report.enabled);
    assert_eq!(report.dtcs & 1, 1);
    assert_eq!(m.supply_fault_report(), OsccFaultReport { fault_origin_id: FAULT_ORIGIN_BRAKE, dtcs: 1 });
}

#[test]
fn idle_module_skips_fault_check() {
    let sensor = Sensor::new(0, 0);
    let mut m = brake(&sensor);
    for t in 0..1000u32 {
        let r = m.check_for_faults(t);
        assert_eq!(r.report, None);
    }
}

#[test]
fn throttle_override_latched_while_held() {
    let sensor = Sensor::new(600, 300);
    let mut m = throttle(&sensor);
    m.enable_control();
    // average at the override threshold
    sensor.set(800, 680);
    assert_eq!(m.check_for_faults(0).report, None);
    let fault = m.check_for_faults(kia_niro::FAULT_HYSTERESIS);
    assert_eq!(fault.report.unwrap().dtcs, 1 << OSCC_THROTTLE_DTC_OPERATOR_OVERRIDE);
    let report = m.supply_throttle_report();
    assert!(!report.enabled && report.operator_override);
    // while the pedal is held: latched, no second report, enabling refused
    for t in 1..5u32 {
        let check = m.check_for_faults(kia_niro::FAULT_HYSTERESIS + t);
        assert_eq!(check.report, None);
        assert_eq!(check.actuation, Actuation { dac: None, spoof_enable: None, brake_light: None });
        let report = m.supply_throttle_report();
        assert!(report.operator_override);
        assert_eq!(report.dtcs, 1 << OSCC_THROTTLE_DTC_OPERATOR_OVERRIDE);
        assert_eq!(m.enable_control().spoof_enable, None);
        assert!(!m.supply_throttle_report().enabled);
    }
    // once released, the latch and DTCs clear
    sensor.set(600, 300);
    assert_eq!(m.check_for_faults(kia_niro::FAULT_HYSTERESIS + 10).report, None);
    let report = m.supply_throttle_report();
    assert!(!report.operator_override && report.dtcs == 0 && !report.enabled);
    // after which enabling works again
    assert_eq!(m.enable_control().spoof_enable, Some(true));
}

#[test]
fn failed_seed_write_hands_nothing_over() {
    let sensor = Sensor::new(1000, 500);
    let mut m = brake(&sensor);
    let act = m.enable_control();
    assert!(m.supply_brake_report().enabled);
    let (pins, result) = m.confirm_dac_write(act, Err(SpiError::ModeFault));
    assert_eq!(result, Err(OxccError::Spi(SpiError::ModeFault)));
    assert_eq!(pins, Actuation { dac: None, spoof_enable: None, brake_light: None });
    assert!(!m.supply_brake_report().enabled);
    // a successful write keeps the enable and asks for the relay
    let act = m.enable_control();
    let (pins, result) = m.confirm_dac_write(act, Ok(()));
    assert_eq!(result, Ok(()));
    assert_eq!(pins.spoof_enable, Some(true));
    assert!(m.supply_brake_report().enabled);
    // a failed write on disable still disables
    let act = m.disable_control();
    let (pins, result) = m.confirm_dac_write(act, Err(SpiError::Overrun));
    assert!(result.is_err());
    assert_eq!(pins.spoof_enable, Some(false));
    assert!(!m.supply_brake_report().enabled);
}

#[test]
fn enable_with_given_seed_writes_its_means() {
    let sensor = Sensor::new(0, 0);
    let mut m = steering(&sensor);
    let highs: Vec<u16> = (1..=20).map(|i| i * 10).collect();
    let lows: Vec<u16> = vec![7; 20];
    let act = m.enable_control_with_seed(&highs, &lows);
    assert_eq!(act.dac, Some(DacOutputs { channel_a: 7, channel_b: 105 }));
    assert!(m.supply_steering_report().enabled);
    let act = m.disable_control_with_seed(&lows, &highs);
    assert_eq!(act.dac, Some(DacOutputs { channel_a: 105, channel_b: 7 }));
}

#[test]
fn readings_above_adc_range_are_limited() {
    let sensor = Sensor::new(60000, 5000);
    let mut m = throttle(&sensor);
    let act = m.enable_control();
    assert_eq!(act.dac, Some(DacOutputs { channel_a: 4095, channel_b: 4095 }));
}

#[test]
fn fault_report_frame_disables_every_module() {
    let sensor = Sensor::new(1000, 500);
    let mut b = brake(&sensor);
    let mut t = throttle(&sensor);
    let mut s = steering(&sensor);
    b.enable_control();
    t.enable_control();
    s.enable_control();
    let fault = frame(0xAF, vec![0x05, 0xCC, 7, 0, 0, 0, 3, 0]);
    b.process_rx_frame(&fault);
    t.process_rx_frame(&fault);
    let out = s.process_rx_frame(&fault);
    assert_eq!(out.actuation.spoof_enable, Some(false));
    assert!(!b.supply_brake_report().enabled);
    assert!(!t.supply_throttle_report().enabled);
    assert!(!s.supply_steering_report().enabled);
}

#[test]
fn disable_frame_disables() {
    let sensor = Sensor::new(1000, 500);
    let mut t = throttle(&sensor);
    t.enable_control();
    let out = t.process_rx_frame(&frame(0x91, vec![0x05, 0xCC]));
    assert_eq!(out.actuation.spoof_enable, Some(false));
    assert!(!t.supply_throttle_report().enabled);
    // disabling a disabled module changes nothing
    assert_eq!(t.disable_control(), Actuation { dac: None, spoof_enable: None, brake_light: None });
}

/// The steering calibration of the Kia Niro, as the firmware applies it to a
/// torque request.
fn steering_spoof_steps(request: f32) -> (u16, u16) {
    let torque = (request * 12.7f32).max(-12.8).min(12.7);
    let volts_low = (-0.145f32 * torque + 2.42).max(0.80).min(4.10);
    let volts_high = (0.135f32 * torque + 2.39).max(0.90).min(4.20);
    ((819.2f32 * volts_high) as u16, (819.2f32 * volts_low) as u16)
}

#[test]
fn steering_full_torque_command_clamps_each_channel() {
    let sensor = Sensor::new(1000, 1000);
    let mut s = steering(&sensor);
    s.enable_control();
    let cmd = OsccSteeringCommand { torque_request_bits: 1.0f32.to_bits() }.to_frame();
    let out = s.process_rx_frame(&CanFrame::DataFrame(cmd));
    let bits = out.command_bits.unwrap();
    let (high, low) = steering_spoof_steps(f32::from_bits(bits));
    assert_eq!((high, low), (3362, 655));
    let act = s.update_steering(high, low);
    // the low channel's 655 steps fall below its range and are raised to 656
    assert_eq!(act.dac, Some(DacOutputs { channel_a: 3362, channel_b: 656 }));
}

#[test]
fn command_while_disabled_has_no_effect() {
    let sensor = Sensor::new(1000, 1000);
    let s = steering(&sensor);
    assert_eq!(s.update_steering(3000, 3000), Actuation { dac: None, spoof_enable: None, brake_light: None });
}

#[test]
fn brake_spoof_values_clamped_and_light_driven() {
    let sensor = Sensor::new(1000, 1000);
    let mut b = brake(&sensor);
    b.enable_control();
    // Niro: high range 229..=1135, low range 499..=2359
    let act = b.update_brake(0, 65535);
    assert_eq!(act.dac, Some(DacOutputs { channel_a: 229, channel_b: 2359 }));
    assert_eq!(act.brake_light, Some(true));
    let act = b.update_brake(65535, 0);
    assert_eq!(act.dac, Some(DacOutputs { channel_a: 1135, channel_b: 499 }));
    assert_eq!(act.brake_light, Some(true));
    let act = b.update_brake(250, 550);
    assert_eq!(act.dac, Some(DacOutputs { channel_a: 250, channel_b: 550 }));
    assert_eq!(act.brake_light, Some(false));
    // clamping an already clamped pair changes nothing
    let again = b.update_brake(1135, 499);
    assert_eq!(again.dac, Some(DacOutputs { channel_a: 1135, channel_b: 499 }));
}

#[test]
fn steering_override_from_filtered_torque_difference() {
    let sensor = Sensor::new(1000, 1000);
    let mut s = steering(&sensor);
    s.enable_control();
    // the filter seeds with the first difference, then moves by 1/100
    sensor.set(3000, 1000);
    assert_eq!(s.check_for_faults(0).report, None);
    let fault = s.check_for_faults(kia_niro::FAULT_HYSTERESIS);
    assert!(fault.report.is_some());
    assert!(s.supply_steering_report().operator_override);
}

#[test]
fn empty_receive_queues_are_not_errors() {
    let sensor = Sensor::new(1000, 500);
    let mut modules = ControlModules { brake: brake(&sensor), throttle: throttle(&sensor), steering: steering(&sensor) };
    assert_eq!(modules.process_received(Err(CanError::BufferExhausted)), Ok(None));
    assert_eq!(modules.process_received(Err(CanError::BufferExhausted)), Ok(None));
    let checks = modules.check_for_faults(10);
    assert_eq!(checks.brake.report, None);
    assert_eq!(checks.throttle.report, None);
    assert_eq!(checks.steering.report, None);
    assert!(modules.process_received(Err(CanError::Bus)).is_err());
}

#[test]
fn control_frames_reach_every_module() {
    let sensor = Sensor::new(1000, 500);
    let mut modules = ControlModules { brake: brake(&sensor), throttle: throttle(&sensor), steering: steering(&sensor) };
    let out = modules.process_received(Ok(frame(0x80, vec![0x05, 0xCC]))).unwrap().unwrap();
    assert_eq!(out.steering.actuation.spoof_enable, Some(true));
    assert_eq!(out.brake.actuation.spoof_enable, None);
    modules.process_rx_frame(&frame(0x70, vec![0x05, 0xCC]));
    assert!(modules.brake.supply_brake_report().enabled);
    let acts = modules.disable_all();
    assert_eq!(acts.brake.spoof_enable, Some(false));
    assert_eq!(acts.steering.spoof_enable, Some(false));
    assert_eq!(acts.throttle.spoof_enable, None);
    assert!(!modules.brake.supply_brake_report().enabled);
    assert!(!modules.steering.supply_steering_report().enabled);
}

/// Returns 1, 2, 3, ... on the low channel and 101, 102, ... on the high.
struct RampSensor(Cell<u16>, Cell<u16>);

impl HighLowReader for RampSensor {
    fn read_high(&self) -> u16 {
        self.0.set(self.0.get() + 1);
        self.0.get()
    }

    fn read_low(&self) -> u16 {
        self.1.set(self.1.get() + 1);
        self.1.get()
    }
}

#[test]
fn enable_writes_mean_of_twenty_reads() {
    let sensor = RampSensor(Cell::new(100), Cell::new(0));
    let (mut m, _) = UnpreparedThrottleModule::new(kia_niro::vehicle_profile().throttle, sensor).prepare_module();
    let act = m.enable_control();
    // low: mean of 1..=20; high: mean of 101..=120
    assert_eq!(act.dac, Some(DacOutputs { channel_a: 10, channel_b: 110 }));
}

#[test]
fn fault_frame_disables_all_modules_together() {
    let sensor = Sensor::new(1000, 500);
    let mut modules = ControlModules { brake: brake(&sensor), throttle: throttle(&sensor), steering: steering(&sensor) };
    modules.brake.enable_control();
    modules.throttle.enable_control();
    modules.steering.enable_control();
    // a fault frame from any origin, even one too short to carry its fields
    modules.process_rx_frame(&frame(0xAF, vec![0x05, 0xCC]));
    assert!(!modules.brake.supply_brake_report().enabled);
    assert!(!modules.throttle.supply_throttle_report().enabled);
    assert!(!modules.steering.supply_steering_report().enabled);
}
