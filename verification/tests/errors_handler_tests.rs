use rust_powered_lego::error::describe_hub_error;
use rust_powered_lego::error::LegoError;
use rust_powered_lego::lego::check_for_lego_error;
use rust_powered_lego::lego::consts::LegoErrorTypes;
use rust_powered_lego::lego::errors_handler::parse_lego_error;
use rust_powered_lego::lego::MessageTypes;

#[test]
fn parse_lego_error_test() {
    let arr = vec![0x03, 0x04];
    let res = check_for_lego_error(&arr);

    assert_eq!(res.is_ok(), false);
}

#[test]
fn too_short_frame_is_malformed() {
    assert_eq!(check_for_lego_error(&vec![]), Err(LegoError::MalformedFrame));
    assert_eq!(check_for_lego_error(&vec![0x03, 0x04]), Err(LegoError::MalformedFrame));
    assert_eq!(check_for_lego_error(&vec![0x03, 0x00, 0x04]), Ok(()));
    assert_eq!(LegoError::MalformedFrame.message(), "[Error] Not a valid message");
}

#[test]
fn error_frame_names_command_and_error() {
    let frame = vec![0x05, 0x00, 0x05, 0x02, 0x04];
    let res = check_for_lego_error(&frame);
    assert_eq!(
        res,
        Err(LegoError::ProtocolError {
            command: Some(MessageTypes::HubActions),
            error: Some(LegoErrorTypes::Timeout),
        })
    );
    assert_eq!(res.unwrap_err().message(), "[Error] On command HubActions: Timeout");
    assert_eq!(
        parse_lego_error(&frame),
        Ok(String::from("[Error] On command HubActions: Timeout"))
    );
}

#[test]
fn unknown_error_code_is_reported_as_unknown() {
    let frame = vec![0x05, 0x00, 0x05, 0x02, 0xff];
    let res = check_for_lego_error(&frame);
    assert_eq!(
        res,
        Err(LegoError::ProtocolError { command: Some(MessageTypes::HubActions), error: None })
    );
    assert_eq!(res.unwrap_err().message(), "[Error] On command HubActions: UnknownError");
}

#[test]
fn unknown_command_is_reported_as_unknown() {
    let frame = vec![0x05, 0x00, 0x05, 0x99, 0x06];
    let res = check_for_lego_error(&frame);
    assert_eq!(
        res,
        Err(LegoError::ProtocolError { command: None, error: Some(LegoErrorTypes::InvalidUse) })
    );
    assert_eq!(res.unwrap_err().message(), "[Error] On command UnknownCommand: InvalidUse");
    assert_eq!(
        parse_lego_error(&vec![0x05, 0x00, 0x05, 0x99, 0x00]),
        Ok(String::from("[Error] On command UnknownCommand: UnknownError"))
    );
}

#[test]
fn error_frame_without_its_codes_is_malformed() {
    assert_eq!(check_for_lego_error(&vec![0x03, 0x00, 0x05]), Err(LegoError::MalformedFrame));
    assert_eq!(check_for_lego_error(&vec![0x04, 0x00, 0x05, 0x02]), Err(LegoError::MalformedFrame));
    assert_eq!(parse_lego_error(&vec![0x04, 0x00, 0x05, 0x02]), Err(LegoError::MalformedFrame));
}

#[test]
fn frame_of_another_type_is_no_error() {
    assert_eq!(check_for_lego_error(&vec![0x05, 0x00, 0x82, 0x00, 0x0a]), Ok(()));
    assert_eq!(check_for_lego_error(&vec![0x05, 0x00, 0x04, 0x05, 0x05]), Ok(()));
}

#[test]
fn parse_lego_error_reads_the_codes_of_any_frame() {
    assert_eq!(
        parse_lego_error(&vec![0x05, 0x00, 0x43, 0x81, 0x07]),
        Ok(String::from("[Error] On command PortOutputCommand: Overcurrent"))
    );
}

#[test]
fn every_error_code_has_its_name() {
    let all = [
        (0x01, LegoErrorTypes::Ack, "Ack"),
        (0x02, LegoErrorTypes::Mack, "Mack"),
        (0x03, LegoErrorTypes::BufferOverflow, "BufferOverflow"),
        (0x04, LegoErrorTypes::Timeout, "Timeout"),
        (0x05, LegoErrorTypes::CommandNotRecognized, "CommandNotRecognized"),
        (0x06, LegoErrorTypes::InvalidUse, "InvalidUse"),
        (0x07, LegoErrorTypes::Overcurrent, "Overcurrent"),
        (0x08, LegoErrorTypes::InternalError, "InternalError"),
    ];
    for (code, error, name) in all {
        assert_eq!(error.code(), code);
        assert_eq!(LegoErrorTypes::from_u8(code), Some(error));
        assert_eq!(error.name(), name);
        assert_eq!(
            describe_hub_error(Some(MessageTypes::HubAlerts), Some(error)),
            format!("[Error] On command HubAlerts: {}", name)
        );
    }
    assert_eq!(LegoErrorTypes::from_u8(0x00), None);
    assert_eq!(LegoErrorTypes::from_u8(0x09), None);
    assert_eq!(describe_hub_error(None, None), "[Error] On command UnknownCommand: UnknownError");
}

#[test]
fn every_failure_has_its_text() {
    assert_eq!(
        LegoError::UnexpectedMessageType.message(),
        "[Error] The submitted reply is not valid reply for port information request"
    );
    assert_eq!(LegoError::UnsupportedInfoType.message(), "[Error] Information type not supported");
    assert_eq!(
        LegoError::UnsupportedValueWidth.message(),
        "Such port value reply is not currently supported."
    );
    assert_eq!(
        LegoError::IncompatiblePortType.message(),
        "[Error] The device on the port is not a motor"
    );
    assert_eq!(
        LegoError::MessageTooLong.message(),
        "[Error] The message does not fit into a frame"
    );
}
