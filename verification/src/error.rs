//! The failures that the library reports, and the text of each.
use crate::lego::consts::LegoErrorTypes;
use crate::lego::message_types::MessageTypes;
use vstd::prelude::*;
use vstd::string::StringExecFns;

verus! {

/// Why a frame could not be built, or a reply not be used.
#[derive(Clone, Copy, Debug, PartialEq, Eq)]
pub enum LegoError {
    /// The frame is too short to hold what is to be read from it.
    MalformedFrame,
    /// The hub answered with a generic error message. `command` is the
    /// message type that the hub objects to and `error` its reason; either is
    /// `None` where the hub sent a byte that names no known value.
    ProtocolError { command: Option<MessageTypes>, error: Option<LegoErrorTypes> },
    /// The frame is not of the port information family.
    UnexpectedMessageType,
    /// The information type of a port information reply is none of value,
    /// mode info and possible mode combinations.
    UnsupportedInfoType,
    /// The length of a port value reply is none of those of an 8-bit, a
    /// 16-bit and a 32-bit value.
    UnsupportedValueWidth,
    /// The device on the port is not a motor that this library drives.
    IncompatiblePortType,
    /// Header and payload together are longer than a frame may be.
    MessageTooLong,
}

/// The name of the command in an error text.
pub open spec fn command_name(command: Option<MessageTypes>) -> Seq<char> {
    match command {
        Some(message_type) => message_type.spec_name(),
        None => "UnknownCommand"@,
    }
}

/// The name of the error in an error text.
pub open spec fn error_name(error: Option<LegoErrorTypes>) -> Seq<char> {
    match error {
        Some(error_type) => error_type.spec_name(),
        None => "UnknownError"@,
    }
}

/// The text that reports an error of the hub.
pub open spec fn hub_error_text(
    command: Option<MessageTypes>,
    error: Option<LegoErrorTypes>,
) -> Seq<char> {
    "[Error] On command "@ + command_name(command) + ": "@ + error_name(error)
}

/// Writes the text that reports an error of the hub: the command that the
/// hub objects to and its reason, each by name, or as unknown where the hub
/// named none that the library knows.
pub fn describe_hub_error(command: Option<MessageTypes>, error: Option<LegoErrorTypes>) -> (text:
    String)
    ensures
        text@ == hub_error_text(command, error),
{
    let command_str: &'static str = match command {
        Some(message_type) => message_type.name(),
        None => "UnknownCommand",
    };
    let error_str: &'static str = match error {
        Some(error_type) => error_type.name(),
        None => "UnknownError",
    };
    String::from_str("[Error] On command ").concat(command_str).concat(": ").concat(error_str)
}

impl LegoError {
    /// The text of the failure, for people.
    pub open spec fn spec_message(self) -> Seq<char> {
        match self {
            LegoError::MalformedFrame => "[Error] Not a valid message"@,
            LegoError::ProtocolError { command, error } => hub_error_text(command, error),
            LegoError::UnexpectedMessageType =>
                "[Error] The submitted reply is not valid reply for port information request"@,
            LegoError::UnsupportedInfoType => "[Error] Information type not supported"@,
            LegoError::UnsupportedValueWidth =>
                "Such port value reply is not currently supported."@,
            LegoError::IncompatiblePortType => "[Error] The device on the port is not a motor"@,
            LegoError::MessageTooLong => "[Error] The message does not fit into a frame"@,
        }
    }

    pub fn message(&self) -> (text: String)
        ensures
            text@ == self.spec_message(),
    {
        match self {
            LegoError::MalformedFrame => String::from_str("[Error] Not a valid message"),
            LegoError::ProtocolError { command, error } => describe_hub_error(*command, *error),
            LegoError::UnexpectedMessageType => String::from_str(
                "[Error] The submitted reply is not valid reply for port information request",
            ),
            LegoError::UnsupportedInfoType => String::from_str(
                "[Error] Information type not supported",
            ),
            LegoError::UnsupportedValueWidth => String::from_str(
                "Such port value reply is not currently supported.",
            ),
            LegoError::IncompatiblePortType => String::from_str(
                "[Error] The device on the port is not a motor",
            ),
            LegoError::MessageTooLong => String::from_str(
                "[Error] The message does not fit into a frame",
            ),
        }
    }
}

} // verus!
