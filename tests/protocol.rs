use oxcc::brake_can_protocol::{OsccBrakeCommand, OsccBrakeReport, OSCC_BRAKE_COMMAND_CAN_ID, OSCC_BRAKE_REPORT_CAN_ID};
use oxcc::can_frame::{CanError, CanFrame, DataFrame, OxccError};
use oxcc::can_gateway_module::{combine_publish_results, receive_outcome, republish_obd_frame, transmit_outcome};
use oxcc::dac_mcp4922::{Channel, Mcp4922};
use oxcc::fault_can_protocol::{OsccFaultReport, FAULT_ORIGIN_STEERING, OSCC_FAULT_REPORT_CAN_ID};
use oxcc::kia_niro;
use oxcc::kia_soul_ev;
use oxcc::oscc_magic_byte::{has_magic_bytes, read_u32_le};
use oxcc::steering_can_protocol::{OsccSteeringCommand, OsccSteeringReport};
use oxcc::throttle_can_protocol::{OsccThrottleCommand, OsccThrottleReport, OSCC_THROTTLE_REPORT_CAN_ID};

#[test]
fn brake_report_frame_layout() {
    let report = OsccBrakeReport { enabled: true, operator_override: false, dtcs: 0b10 };
    let frame = report.to_frame();
    assert_eq!(frame.id, 0x73);
    assert_eq!(frame.data, vec![0x05, 0xCC, 1, 0, 2, 0, 0, 0]);
}

#[test]
fn report_round_trips() {
    for &(e, o, d) in &[(false, false, 0u8), (true, false, 3), (false, true, 255)] {
        let b = OsccBrakeReport { enabled: e, operator_override: o, dtcs: d };
        assert_eq!(OsccBrakeReport::from_frame(&b.to_frame()), Some(b));
        let t = OsccThrottleReport { enabled: e, operator_override: o, dtcs: d };
        assert_eq!(OsccThrottleReport::from_frame(&t.to_frame()), Some(t));
        let s = OsccSteeringReport { enabled: e, operator_override: o, dtcs: d };
        assert_eq!(OsccSteeringReport::from_frame(&s.to_frame()), Some(s));
    }
}

#[test]
fn report_decode_checks_id_and_magic() {
    let t = OsccThrottleReport { enabled: true, operator_override: true, dtcs: 1 }.to_frame();
    assert_eq!(t.id, u32::from(OSCC_THROTTLE_REPORT_CAN_ID));
    assert_eq!(OsccBrakeReport::from_frame(&t), None);
    let bad = DataFrame::new(u32::from(OSCC_BRAKE_REPORT_CAN_ID), vec![0x05, 0xCD, 1, 0, 0]);
    assert_eq!(OsccBrakeReport::from_frame(&bad), None);
    let short = DataFrame::new(u32::from(OSCC_BRAKE_REPORT_CAN_ID), vec![0x05, 0xCC, 1, 0]);
    assert_eq!(OsccBrakeReport::from_frame(&short), None);
}

#[test]
fn new_reports_are_idle() {
    assert_eq!(OsccBrakeReport::new(), OsccBrakeReport { enabled: false, operator_override: false, dtcs: 0 });
    assert_eq!(OsccThrottleReport::new(), OsccThrottleReport { enabled: false, operator_override: false, dtcs: 0 });
    assert_eq!(OsccSteeringReport::new(), OsccSteeringReport { enabled: false, operator_override: false, dtcs: 0 });
}

#[test]
fn command_half_round_trips_exactly() {
    let cmd = OsccSteeringCommand { torque_request_bits: 0.5f32.to_bits() };
    let frame = cmd.to_frame();
    assert_eq!(frame.data, vec![0x05, 0xCC, 0x00, 0x00, 0x00, 0x3F, 0, 0]);
    let back = OsccSteeringCommand::from_frame(&frame).unwrap();
    assert_eq!(f32::from_bits(back.torque_request_bits), 0.5);
}

#[test]
fn command_decode_is_little_endian() {
    let frame = DataFrame::new(u32::from(OSCC_BRAKE_COMMAND_CAN_ID), vec![0x05, 0xCC, 0x78, 0x56, 0x34, 0x12]);
    assert_eq!(OsccBrakeCommand::from_frame(&frame), Some(OsccBrakeCommand { pedal_command_bits: 0x1234_5678 }));
    let short = DataFrame::new(u32::from(OSCC_BRAKE_COMMAND_CAN_ID), vec![0x05, 0xCC, 0x78, 0x56, 0x34]);
    assert_eq!(OsccBrakeCommand::from_frame(&short), None);
    let t = OsccThrottleCommand { torque_request_bits: 0.25f32.to_bits() };
    assert_eq!(OsccThrottleCommand::from_frame(&t.to_frame()), Some(t));
    assert_eq!(OsccBrakeCommand::from_frame(&t.to_frame()), None);
}

#[test]
fn fault_report_round_trips() {
    let report = OsccFaultReport { fault_origin_id: FAULT_ORIGIN_STEERING, dtcs: 1 };
    let frame = report.to_frame();
    assert_eq!(frame.id, u32::from(OSCC_FAULT_REPORT_CAN_ID));
    assert_eq!(frame.data, vec![0x05, 0xCC, 1, 0, 0, 0, 1, 0]);
    assert_eq!(OsccFaultReport::from_frame(&frame), Some(report));
    let odd = OsccFaultReport { fault_origin_id: 0xDEAD_BEEF, dtcs: 0x81 };
    assert_eq!(OsccFaultReport::from_frame(&odd.to_frame()), Some(odd));
}

#[test]
fn magic_and_u32_reading() {
    assert!(has_magic_bytes(&DataFrame::new(0x70, vec![0x05, 0xCC])));
    assert!(!has_magic_bytes(&DataFrame::new(0x70, vec![0x05])));
    assert!(!has_magic_bytes(&DataFrame::new(0x70, vec![])));
    assert_eq!(read_u32_le(&vec![0, 0xFF, 0xFF, 0xFF, 0xFF], 1), u32::MAX);
}

#[test]
fn obd_frame_outside_allow_list_is_dropped() {
    let allow = kia_niro::vehicle_profile().obd;
    let frame = CanFrame::DataFrame(DataFrame::new(0x123, vec![1, 2, 3]));
    assert_eq!(republish_obd_frame(&allow, frame), None);
    // throttle pressure is forwarded only on vehicles that report it
    let throttle = CanFrame::DataFrame(DataFrame::new(0x200, vec![9]));
    assert_eq!(republish_obd_frame(&allow, throttle.clone()), None);
    let ev = kia_soul_ev::vehicle_profile().obd;
    assert_eq!(republish_obd_frame(&ev, throttle.clone()), Some(throttle));
}

#[test]
fn obd_frame_in_allow_list_is_forwarded_verbatim() {
    let allow = kia_niro::vehicle_profile().obd;
    for id in [0x2B0u32, 0x386, 0x220] {
        let frame = CanFrame::DataFrame(DataFrame::new(id, vec![0xDE, 0xAD, 0xBE, 0xEF, 0, 1, 2, 3]));
        assert_eq!(republish_obd_frame(&allow, frame.clone()), Some(frame));
    }
}

#[test]
fn receive_and_transmit_error_policy() {
    assert_eq!(receive_outcome(Err(CanError::BufferExhausted)), Ok(None));
    assert_eq!(receive_outcome(Err(CanError::Timeout)), Err(OxccError::Can(CanError::Timeout)));
    let f = CanFrame::RemoteFrame(0x70);
    assert_eq!(receive_outcome(Ok(f.clone())), Ok(Some(f)));
    assert_eq!(transmit_outcome(Err(CanError::Timeout)), Ok(()));
    assert_eq!(transmit_outcome(Err(CanError::Bus)), Err(OxccError::Can(CanError::Bus)));
    assert_eq!(transmit_outcome(Ok(())), Ok(()));
}

#[test]
fn publish_results_keep_last_escalated_error() {
    assert_eq!(combine_publish_results(Ok(()), Err(CanError::Timeout), Ok(())), Ok(()));
    assert_eq!(
        combine_publish_results(Err(CanError::Bus), Err(CanError::Timeout), Ok(())),
        Err(OxccError::Can(CanError::Bus))
    );
    assert_eq!(
        combine_publish_results(Err(CanError::Bus), Ok(()), Err(CanError::BufferExhausted)),
        Err(OxccError::Can(CanError::BufferExhausted))
    );
}

#[test]
fn dac_command_words() {
    let dac = Mcp4922::new();
    assert_eq!(dac.output(0x0ABC, Channel::ChannelA), [0xBC, 0x1A]);
    assert_eq!(dac.output(0x0ABC, Channel::ChannelB), [0xBC, 0x9A]);
    assert_eq!(dac.output_ab(4095, 0), ([0xFF, 0x1F], [0x00, 0x90]));
    assert_eq!(u8::from(Channel::ChannelB), 1);
}
