use rust_powered_lego::error::LegoError;
use rust_powered_lego::hub::get_motor;
use rust_powered_lego::hub::get_port_info_combinations;
use rust_powered_lego::hub::get_port_info_mode;
use rust_powered_lego::hub::get_port_info_raw_value;
use rust_powered_lego::hub::get_port_info_value;
use rust_powered_lego::hub::mode_information_request;
use rust_powered_lego::hub::port_info_request;
use rust_powered_lego::hub::send_output_command_request;
use rust_powered_lego::hub::setup_port_input_format_request;
use rust_powered_lego::hub::shut_down_hub_request;
use rust_powered_lego::hub::PortInfoCombinationsReply;
use rust_powered_lego::hub::PortInfoModeReply;
use rust_powered_lego::hub::PortInfoValueReply;
use rust_powered_lego::hub::PortRawValueReply;
use rust_powered_lego::hub::MODE_INFO_REPLY_LEN;
use rust_powered_lego::hub::PORT_VALUE_REPLY_LEN;
use rust_powered_lego::lego::consts::EndState;
use rust_powered_lego::lego::consts::PortInfoModeReplyCapabilities;
use rust_powered_lego::lego::consts::PortType;
use rust_powered_lego::lego::consts::Profile;
use rust_powered_lego::lego::consts::TechnicHubPorts;
use rust_powered_lego::lego::message_parameters::PortInformationType;
use rust_powered_lego::lego::message_parameters::PortModeInformationType;
use rust_powered_lego::lego::message_parameters::StartupAndCompletionInfo;
use rust_powered_lego::ports::Motor;
use rust_powered_lego::MotorType;

#[test]
fn shut_down_request_frame() {
    assert_eq!(shut_down_hub_request(), vec![0x04, 0x00, 0x02, 0x2f]);
}

#[test]
fn port_info_request_frames() {
    assert_eq!(
        port_info_request(TechnicHubPorts::A.code(), PortInformationType::PortValue),
        vec![0x05, 0x00, 0x21, 0x00, 0x00]
    );
    assert_eq!(
        port_info_request(TechnicHubPorts::D.code(), PortInformationType::ModeInfo),
        vec![0x05, 0x00, 0x21, 0x03, 0x01]
    );
    assert_eq!(
        port_info_request(0x63, PortInformationType::PossibleModeCombinations),
        vec![0x05, 0x00, 0x21, 0x63, 0x02]
    );
}

#[test]
fn mode_information_request_frame() {
    assert_eq!(
        mode_information_request(0x01, 0x02, PortModeInformationType::Name),
        vec![0x06, 0x00, 0x22, 0x01, 0x02, 0x00]
    );
    assert_eq!(
        mode_information_request(0x00, 0x05, PortModeInformationType::ValueFormat),
        vec![0x06, 0x00, 0x22, 0x00, 0x05, 0x80]
    );
}

#[test]
fn input_format_setup_request_frame() {
    assert_eq!(
        setup_port_input_format_request(0x00, 0x02, 5, true),
        vec![0x0a, 0x00, 0x41, 0x00, 0x02, 0x05, 0x00, 0x00, 0x00, 0x01]
    );
    assert_eq!(
        setup_port_input_format_request(0x3c, 0x00, 0x01000000, false),
        vec![0x0a, 0x00, 0x41, 0x3c, 0x00, 0x00, 0x00, 0x00, 0x01, 0x00]
    );
}

#[test]
fn output_command_request_frame() {
    let motor = Motor::new(0x00, Some(PortType::TechnicXlargeLinearMotor)).unwrap();
    let command = motor.start_speed_for_deg(
        180,
        50,
        25,
        EndState::HOLD,
        Profile::AccDec,
        StartupAndCompletionInfo::ExecuteImmediatelyAndFeedback,
    );
    assert_eq!(
        send_output_command_request(&command),
        vec![0x0e, 0x00, 0x81, 0x00, 0x11, 0x0b, 0xb4, 0x00, 0x00, 0x00, 0x32, 0x19, 0x7e, 0x03]
    );
}

#[test]
fn port_value_reply_names_the_device() {
    assert_eq!(
        get_port_info_value(&vec![6, 0, 0x43, 0, 0, 47]),
        Ok(PortInfoValueReply { port_type: Some(PortType::TechnicXlargeLinearMotor) })
    );
    assert_eq!(
        get_port_info_value(&vec![6, 0, 0x43, 0, 0, 23, 1, 2]),
        Ok(PortInfoValueReply { port_type: Some(PortType::HubLed) })
    );
    assert_eq!(
        get_port_info_value(&vec![6, 0, 0x43, 0, 0, 0]),
        Ok(PortInfoValueReply { port_type: Some(PortType::UnknownDevice) })
    );
}

#[test]
fn port_value_reply_with_an_unknown_device() {
    assert_eq!(
        get_port_info_value(&vec![6, 0, 0x43, 0, 0, 3]),
        Ok(PortInfoValueReply { port_type: None })
    );
    assert_eq!(
        get_port_info_value(&vec![6, 0, 0x43, 0, 0, 255]),
        Ok(PortInfoValueReply { port_type: None })
    );
}

#[test]
fn port_value_reply_that_ends_too_early() {
    assert_eq!(PORT_VALUE_REPLY_LEN, 6);
    assert_eq!(get_port_info_value(&vec![]), Err(LegoError::MalformedFrame));
    assert_eq!(get_port_info_value(&vec![5, 0, 0x43, 0, 0]), Err(LegoError::MalformedFrame));
}

#[test]
fn raw_value_of_eight_bits() {
    assert_eq!(get_port_info_raw_value(&vec![0x05, 0, 0x45, 0, 0]), Ok(0));
    assert_eq!(get_port_info_raw_value(&vec![0x05, 0, 0x45, 0, 200]), Ok(200));
    assert_eq!(get_port_info_raw_value(&vec![0x05, 0, 0x45, 0, 255]), Ok(255));
}

#[test]
fn raw_value_of_sixteen_bits() {
    assert_eq!(get_port_info_raw_value(&vec![0x06, 0, 0x45, 0, 0x34, 0x12]), Ok(0x1234));
    assert_eq!(get_port_info_raw_value(&vec![0x06, 0, 0x45, 0, 0x00, 0x01]), Ok(256));
    assert_eq!(get_port_info_raw_value(&vec![0x06, 0, 0x45, 0, 0xff, 0xff]), Ok(65535));
}

#[test]
fn raw_value_of_thirty_two_bits() {
    assert_eq!(
        get_port_info_raw_value(&vec![0x08, 0, 0x45, 0, 0x78, 0x56, 0x34, 0x12]),
        Ok(0x12345678)
    );
    assert_eq!(get_port_info_raw_value(&vec![0x08, 0, 0x45, 0, 0xfe, 0xff, 0xff, 0xff]), Ok(-2));
    assert_eq!(
        get_port_info_raw_value(&vec![0x08, 0, 0x45, 0, 0x00, 0x00, 0x00, 0x80]),
        Ok(i32::MIN)
    );
    assert_eq!(
        get_port_info_raw_value(&vec![0x08, 0, 0x45, 0, 0xff, 0xff, 0xff, 0x7f]),
        Ok(i32::MAX)
    );
}

#[test]
fn raw_value_of_another_width_is_unsupported() {
    assert_eq!(
        get_port_info_raw_value(&vec![0x07, 0, 0x45, 0, 1, 2, 3]),
        Err(LegoError::UnsupportedValueWidth)
    );
    assert_eq!(
        get_port_info_raw_value(&vec![0x04, 0, 0x45, 0]),
        Err(LegoError::UnsupportedValueWidth)
    );
    assert_eq!(
        get_port_info_raw_value(&vec![0x09, 0, 0x45, 0, 1, 2, 3, 4, 5]),
        Err(LegoError::UnsupportedValueWidth)
    );
    assert_eq!(get_port_info_raw_value(&vec![0x00]), Err(LegoError::UnsupportedValueWidth));
}

#[test]
fn raw_value_frame_that_ends_too_early() {
    assert_eq!(get_port_info_raw_value(&vec![]), Err(LegoError::MalformedFrame));
    assert_eq!(get_port_info_raw_value(&vec![0x05, 0, 0x45, 0]), Err(LegoError::MalformedFrame));
    assert_eq!(get_port_info_raw_value(&vec![0x06, 0, 0x45, 0, 1]), Err(LegoError::MalformedFrame));
    assert_eq!(
        get_port_info_raw_value(&vec![0x08, 0, 0x45, 0, 1, 2, 3]),
        Err(LegoError::MalformedFrame)
    );
}

#[test]
fn mode_info_reply_is_decoded() {
    let frame = vec![11, 0, 67, 0, 1, 15, 6, 30, 0, 31, 0, 0, 16, 0, 0, 0, 0, 0, 0, 0];
    let expected = PortInfoModeReply {
        port_id: 0,
        info_type: 1,
        capabilities: vec![
            PortInfoModeReplyCapabilities::Output,
            PortInfoModeReplyCapabilities::Input,
            PortInfoModeReplyCapabilities::LogicalCombinable,
            PortInfoModeReplyCapabilities::LogicalSynchronizable,
        ],
        total_mode_count: 6,
        input_modes: vec![1, 2, 3, 4],
        output_modes: vec![0, 1, 2, 3, 4],
    };
    assert_eq!(get_port_info_mode(&frame), Ok(expected));
}

#[test]
fn mode_info_bitmaps_are_read_low_byte_first() {
    let frame = vec![11, 0, 0x43, 0x01, 1, 0x04, 3, 0x00, 0x80, 0x01, 0x01];
    let reply = get_port_info_mode(&frame).unwrap();
    assert_eq!(reply.port_id, 0x01);
    assert_eq!(reply.capabilities, vec![]);
    assert_eq!(reply.total_mode_count, 3);
    assert_eq!(reply.input_modes, vec![15]);
    assert_eq!(reply.output_modes, vec![0, 8]);
}

#[test]
fn mode_info_reply_that_ends_too_early() {
    assert_eq!(MODE_INFO_REPLY_LEN, 11);
    assert_eq!(
        get_port_info_mode(&vec![10, 0, 67, 0, 1, 15, 6, 30, 0, 31]),
        Err(LegoError::MalformedFrame)
    );
    assert_eq!(get_port_info_mode(&vec![]), Err(LegoError::MalformedFrame));
}

#[test]
fn combinations_reply_is_the_frame() {
    let frame = vec![7, 0, 0x43, 0x00, 0x02, 0x0f, 0x00];
    assert_eq!(
        get_port_info_combinations(frame.clone()),
        PortInfoCombinationsReply { data: frame }
    );
}

#[test]
fn raw_value_reply_holds_port_and_value() {
    let reply = PortRawValueReply { port_id: 3, value: -7 };
    assert_eq!(reply.port_id, 3);
    assert_eq!(reply.value, -7);
}

#[test]
fn motor_is_given_for_the_three_motor_types() {
    for code in [46u8, 47, 2] {
        let motor = get_motor(0x01, &vec![6, 0, 0x43, 0x01, 0, code]);
        assert!(motor.is_ok());
        assert_eq!(motor.unwrap().port_id(), 0x01);
    }
}

#[test]
fn motor_is_refused_for_every_other_device() {
    for code in 0..=255u8 {
        let motor = get_motor(0x02, &vec![6, 0, 0x43, 0x02, 0, code]);
        if code == 46 || code == 47 || code == 2 {
            assert_eq!(motor.map(|m| m.port_id()), Ok(0x02));
        } else {
            assert_eq!(motor, Err(LegoError::IncompatiblePortType));
        }
    }
}

#[test]
fn motor_is_refused_where_the_reply_is_malformed() {
    assert_eq!(get_motor(0x00, &vec![5, 0, 0x43, 0x00, 0]), Err(LegoError::MalformedFrame));
    assert_eq!(get_motor(0x00, &vec![]), Err(LegoError::MalformedFrame));
}
