//! What a hub is asked and what it answers: the frames of the requests, and
//! the decoding of the replies.
use crate::error::LegoError;
use crate::lego::communicator::{frame_message, frame_of};
use crate::lego::consts::{PortInfoModeReplyCapabilities, PortType};
use crate::lego::encoding::{
    i32_from_le, i32_from_le_bytes, i32_from_u16, i32_from_u8, read_u16, u16_from_le,
};
use crate::lego::message_parameters::{
    HubActionsParams, HubActionsTypes, PortInformationRequestParams, PortInformationType,
    PortInputFormatSetupSingleParams, PortModeInformationRequestParams, PortModeInformationType,
    PortOutputCommandParams, Serialized,
};
use crate::lego::message_types::MessageTypes;
use crate::ports::{drives_motor, Motor};
use crate::utils::{
    capabilities_of, io_modes, parse_capabilities, parse_io_modes, CapabilityDecoding,
};
use vstd::prelude::*;

verus! {

/// The reply to a request for the value of a port: the kind of device on it,
/// or `None` where the hub names a kind that the library does not know.
#[derive(Clone, Copy, Debug, PartialEq, Eq)]
pub struct PortInfoValueReply {
    pub port_type: Option<PortType>,
}

/// The reply to a request for the possible mode combinations of a port: the
/// frame as it came.
#[derive(Debug, PartialEq, Eq)]
pub struct PortInfoCombinationsReply {
    pub data: Vec<u8>,
}

/// A raw value of a port.
#[derive(Clone, Copy, Debug, PartialEq, Eq)]
pub struct PortRawValueReply {
    pub port_id: u8,
    pub value: i32,
}

/// The reply to a request for the mode information of a port.
#[derive(Debug, PartialEq, Eq)]
pub struct PortInfoModeReply {
    pub port_id: u8,
    pub info_type: u8,
    pub capabilities: Vec<PortInfoModeReplyCapabilities>,
    pub total_mode_count: u8,
    /// The modes in which the port takes input, in ascending order.
    pub input_modes: Vec<u8>,
    /// The modes in which the port gives output, in ascending order.
    pub output_modes: Vec<u8>,
}

/// A mode information reply as a mathematical value.
pub struct PortInfoModeReplyView {
    pub port_id: u8,
    pub info_type: u8,
    pub capabilities: Seq<PortInfoModeReplyCapabilities>,
    pub total_mode_count: u8,
    pub input_modes: Seq<u8>,
    pub output_modes: Seq<u8>,
}

impl View for PortInfoModeReply {
    type V = PortInfoModeReplyView;

    open spec fn view(&self) -> PortInfoModeReplyView {
        PortInfoModeReplyView {
            port_id: self.port_id,
            info_type: self.info_type,
            capabilities: self.capabilities@,
            total_mode_count: self.total_mode_count,
            input_modes: self.input_modes@,
            output_modes: self.output_modes@,
        }
    }
}

/// The number of bytes that a frame must have for a device kind to be read
/// from it.
pub const PORT_VALUE_REPLY_LEN: usize = 6;

/// The number of bytes that a frame must have for mode information to be
/// read from it.
pub const MODE_INFO_REPLY_LEN: usize = 11;

/// The mode information that a frame of at least `MODE_INFO_REPLY_LEN` bytes
/// holds: the port at offset 3, the information type at 4, the capabilities
/// at 5, the number of modes at 6, and two bitmaps of 16 bits, the low byte
/// first, the input modes at 7 and the output modes at 9.
pub open spec fn mode_info_of(frame: Seq<u8>) -> PortInfoModeReplyView {
    PortInfoModeReplyView {
        port_id: frame[3],
        info_type: frame[4],
        capabilities: capabilities_of(frame[5], CapabilityDecoding::SharedBit),
        total_mode_count: frame[6],
        input_modes: io_modes(u16_from_le(frame[7], frame[8])),
        output_modes: io_modes(u16_from_le(frame[9], frame[10])),
    }
}

/// Reads mode information from a frame that is long enough.
pub(crate) fn read_mode_info(msg: &Vec<u8>) -> (reply: PortInfoModeReply)
    requires
        msg@.len() >= MODE_INFO_REPLY_LEN,
    ensures
        reply@ == mode_info_of(msg@),
{
    let input_bitmap: u16 = read_u16(&msg[7..9]);
    let output_bitmap: u16 = read_u16(&msg[9..11]);
    PortInfoModeReply {
        port_id: msg[3],
        info_type: msg[4],
        capabilities: parse_capabilities(msg[5]),
        total_mode_count: msg[6],
        input_modes: parse_io_modes(input_bitmap),
        output_modes: parse_io_modes(output_bitmap),
    }
}

/// The frame that switches the hub off.
pub fn shut_down_hub_request() -> (frame: Vec<u8>)
    ensures
        frame@ == seq![4u8, 0u8, 0x02u8, 0x2fu8],
{
    let params = HubActionsParams { action_type: HubActionsTypes::Shutdown };
    request_frame(MessageTypes::HubActions, params.serialize())
}

/// The frame that asks for information on a port.
pub fn port_info_request(port_id: u8, information_type: PortInformationType) -> (frame: Vec<u8>)
    ensures
        frame@ == seq![5u8, 0u8, 0x21u8, port_id, information_type.spec_code()],
{
    let params = PortInformationRequestParams { port_id, information_type };
    request_frame(MessageTypes::PortInformationRequest, params.serialize())
}

/// The frame that asks for information on a mode of a port.
pub fn mode_information_request(
    port_id: u8,
    mode_id: u8,
    info_type: PortModeInformationType,
) -> (frame: Vec<u8>)
    ensures
        frame@ == seq![6u8, 0u8, 0x22u8, port_id, mode_id, info_type.spec_code()],
{
    let params = PortModeInformationRequestParams { port_id, mode_id, information_type: info_type };
    request_frame(MessageTypes::PortModeInformationRequest, params.serialize())
}

/// The frame that sets up the input format of a mode of a port.
pub fn setup_port_input_format_request(
    port_id: u8,
    mode_id: u8,
    delta: u32,
    enable_notifications: bool,
) -> (frame: Vec<u8>)
    ensures
        frame@ == frame_of(
            MessageTypes::PortInputFormatSetupSingle,
            (PortInputFormatSetupSingleParams {
                port_id,
                mode_id,
                delta,
                enable_notifications,
            }).wire_bytes(),
        ),
        frame@.len() == 10,
{
    let params = PortInputFormatSetupSingleParams { port_id, mode_id, delta, enable_notifications };
    request_frame(MessageTypes::PortInputFormatSetupSingle, params.serialize())
}

/// The frame of a port output command.
pub fn send_output_command_request(subcommand: &PortOutputCommandParams) -> (frame: Vec<u8>)
    ensures
        frame@ == frame_of(MessageTypes::PortOutputCommand, subcommand.wire_bytes()),
        frame@.len() == 3 + subcommand.wire_bytes().len(),
        frame@[0] == frame@.len(),
{
    proof {
        lemma_output_command_is_short(*subcommand);
    }
    request_frame(MessageTypes::PortOutputCommand, subcommand.serialize())
}

/// A port output command is at most 11 bytes long.
proof fn lemma_output_command_is_short(subcommand: PortOutputCommandParams)
    ensures
        4 <= subcommand.wire_bytes().len() <= 11,
{
}

/// The frame of a request, whose payload is short enough for any frame.
fn request_frame(msg_type: MessageTypes, payload: Vec<u8>) -> (frame: Vec<u8>)
    requires
        payload@.len() <= 100,
    ensures
        frame@ == frame_of(msg_type, payload@),
{
    match frame_message(msg_type, payload) {
        Ok(frame) => frame,
        Err(_) => unreached(),
    }
}

/// What a frame is decoded to as the reply to a request for the value of a
/// port: the kind of the device, which stands at offset 5.
pub open spec fn port_info_value_of(frame: Seq<u8>) -> Result<PortInfoValueReply, LegoError> {
    if frame.len() < PORT_VALUE_REPLY_LEN {
        Err(LegoError::MalformedFrame)
    } else {
        Ok(PortInfoValueReply { port_type: PortType::spec_from_u8(frame[5]) })
    }
}

/// Decodes the reply to a request for the value of a port. A kind of device
/// that the library does not know is no failure: the reply then holds none.
pub fn get_port_info_value(msg: &Vec<u8>) -> (res: Result<PortInfoValueReply, LegoError>)
    ensures
        res == port_info_value_of(msg@),
{
    if msg.len() < PORT_VALUE_REPLY_LEN {
        return Err(LegoError::MalformedFrame);
    }
    Ok(PortInfoValueReply { port_type: PortType::from_u8(msg[5]) })
}

/// The raw value that a port value frame holds. The first byte of the frame,
/// its length, tells the width of the value, which stands at offset 4: a
/// length of 5 an unsigned byte, of 6 an unsigned number of 16 bits, of 8 a
/// signed number of 32 bits, the low byte first. A frame that ends before the
/// value does is malformed.
pub open spec fn raw_value_of(frame: Seq<u8>) -> Result<i32, LegoError> {
    if frame.len() < 1 {
        Err(LegoError::MalformedFrame)
    } else if frame[0] == 0x05 {
        if frame.len() < 5 {
            Err(LegoError::MalformedFrame)
        } else {
            Ok(frame[4] as i32)
        }
    } else if frame[0] == 0x06 {
        if frame.len() < 6 {
            Err(LegoError::MalformedFrame)
        } else {
            Ok(u16_from_le(frame[4], frame[5]) as i32)
        }
    } else if frame[0] == 0x08 {
        if frame.len() < 8 {
            Err(LegoError::MalformedFrame)
        } else {
            Ok(i32_from_le(frame[4], frame[5], frame[6], frame[7]))
        }
    } else {
        Err(LegoError::UnsupportedValueWidth)
    }
}

/// Decodes the raw value of a port from a port value frame.
pub fn get_port_info_raw_value(msg: &Vec<u8>) -> (res: Result<i32, LegoError>)
    ensures
        res == raw_value_of(msg@),
{
    if msg.len() < 1 {
        return Err(LegoError::MalformedFrame);
    }
    match msg[0] {
        0x05 => {
            if msg.len() < 5 {
                return Err(LegoError::MalformedFrame);
            }
            Ok(i32_from_u8(msg[4]).unwrap())
        },
        0x06 => {
            if msg.len() < 6 {
                return Err(LegoError::MalformedFrame);
            }
            let value: u16 = read_u16(&msg[4..6]);
            Ok(i32_from_u16(value).unwrap())
        },
        0x08 => {
            if msg.len() < 8 {
                return Err(LegoError::MalformedFrame);
            }
            Ok(i32_from_le_bytes(msg[4], msg[5], msg[6], msg[7]))
        },
        _ => Err(LegoError::UnsupportedValueWidth),
    }
}

/// Decodes the reply to a request for the mode information of a port.
pub fn get_port_info_mode(msg: &Vec<u8>) -> (res: Result<PortInfoModeReply, LegoError>)
    ensures
        match res {
            Ok(reply) => msg@.len() >= MODE_INFO_REPLY_LEN && reply@ == mode_info_of(msg@),
            Err(e) => msg@.len() < MODE_INFO_REPLY_LEN && e == LegoError::MalformedFrame,
        },
{
    if msg.len() < MODE_INFO_REPLY_LEN {
        return Err(LegoError::MalformedFrame);
    }
    Ok(read_mode_info(msg))
}

/// The reply to a request for the possible mode combinations of a port: the
/// frame, kept as it came.
pub fn get_port_info_combinations(msg: Vec<u8>) -> (reply: PortInfoCombinationsReply)
    ensures
        reply.data@ == msg@,
{
    PortInfoCombinationsReply { data: msg }
}

/// Gives the motor on a port, from the reply of the hub to a request for the
/// value of that port. This is the only guard against commands for a motor
/// that go to another device: it fails with `IncompatiblePortType` unless
/// the hub reports a motor on the port.
pub fn get_motor(port_id: u8, msg: &Vec<u8>) -> (res: Result<Motor, LegoError>)
    ensures
        match res {
            Ok(motor) => {
                &&& port_info_value_of(msg@) matches Ok(reply)
                &&& drives_motor(reply.port_type)
                &&& motor.spec_port_id() == port_id
            },
            Err(e) => match port_info_value_of(msg@) {
                Ok(reply) => !drives_motor(reply.port_type) && e == LegoError::IncompatiblePortType,
                Err(malformed) => e == malformed,
            },
        },
{
    match get_port_info_value(msg) {
        Ok(reply) => Motor::new(port_id, reply.port_type),
        Err(e) => Err(e),
    }
}

} // verus!
