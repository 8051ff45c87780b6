use rust_powered_lego::lego::CommonMessageHeader;
use rust_powered_lego::lego::MessageTypes;

#[test]
fn get_header() {
    println!("{:?}", CommonMessageHeader::get_header(MessageTypes::HubAlerts));
    assert_eq!(CommonMessageHeader::get_header(MessageTypes::HubAlerts), vec![0x00, 0x00, 0x03]);
}

#[test]
fn header_of_every_message_type() {
    let all = [
        (MessageTypes::HubProperties, 0x01),
        (MessageTypes::HubActions, 0x02),
        (MessageTypes::HubAlerts, 0x03),
        (MessageTypes::HubAttachedIO, 0x04),
        (MessageTypes::GenericErrorMessages, 0x05),
        (MessageTypes::HWNetWorkCommands, 0x08),
        (MessageTypes::FWUpdateGoIntoBootMode, 0x10),
        (MessageTypes::FWUpdateLockMemory, 0x11),
        (MessageTypes::FWUpdateLockStatusRequest, 0x12),
        (MessageTypes::FWLockStatus, 0x13),
        (MessageTypes::PortInformationRequest, 0x21),
        (MessageTypes::PortModeInformationRequest, 0x22),
        (MessageTypes::PortInputFormatSetupSingle, 0x41),
        (MessageTypes::PortInputFormatSetupCombinedMode, 0x42),
        (MessageTypes::PortInformation, 0x43),
        (MessageTypes::PortModeInformation, 0x44),
        (MessageTypes::PortValueSingle, 0x45),
        (MessageTypes::PortValueCombinedMode, 0x46),
        (MessageTypes::PortInputFormatSingle, 0x47),
        (MessageTypes::PortInputFormatCombinedMode, 0x48),
        (MessageTypes::VirtualPortSetup, 0x61),
        (MessageTypes::PortOutputCommand, 0x81),
        (MessageTypes::PortOutputCommandFeedback, 0x82),
    ];
    for (message_type, code) in all {
        assert_eq!(message_type.code(), code);
        assert_eq!(CommonMessageHeader::get_header(message_type), vec![0, 0, code]);
        assert_eq!(MessageTypes::from_u8(code), Some(message_type));
    }
}

#[test]
fn message_type_of_every_byte() {
    let mut known = 0;
    for code in 0..=255u8 {
        match MessageTypes::from_u8(code) {
            Some(message_type) => {
                assert_eq!(message_type.code(), code);
                known += 1;
            }
            None => {}
        }
    }
    assert_eq!(known, 23);
    assert_eq!(MessageTypes::from_u8(0x00), None);
    assert_eq!(MessageTypes::from_u8(0x06), None);
    assert_eq!(MessageTypes::from_u8(0xff), None);
}

#[test]
fn message_type_names() {
    assert_eq!(MessageTypes::HubActions.name(), "HubActions");
    assert_eq!(MessageTypes::PortOutputCommandFeedback.name(), "PortOutputCommandFeedback");
    assert_eq!(MessageTypes::HWNetWorkCommands.name(), "HWNetWorkCommands");
}
