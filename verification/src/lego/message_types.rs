//! The message types of the protocol and the subcommands of a port output command.
use vstd::prelude::*;

verus! {

/// The messages of the protocol. The payloads of some of them are in
/// `message_parameters`.
#[derive(Clone, Copy, Debug, PartialEq, Eq, Structural)]
pub enum MessageTypes {
    /// Down and up: set or retrieve standard hub property information.
    HubProperties,
    /// Down and up: perform actions on the connected hub.
    HubActions,
    /// Down and up: subscribe to or retrieve hub alerts.
    HubAlerts,
    /// Up: sent when the hub detects an attached I/O.
    HubAttachedIO,
    /// Up: generic error messages from the hub.
    GenericErrorMessages,
    /// Down and up: commands used for hardware networks.
    HWNetWorkCommands,
    /// Down: set the hub in a special boot loader mode.
    FWUpdateGoIntoBootMode,
    /// Down: lock the memory.
    FWUpdateLockMemory,
    /// Down: request the memory locking state.
    FWUpdateLockStatusRequest,
    /// Up: answer to the lock status request.
    FWLockStatus,
    /// Down: request port information.
    PortInformationRequest,
    /// Down: request port mode information.
    PortModeInformationRequest,
    /// Down: set up the input format for a single mode.
    PortInputFormatSetupSingle,
    /// Down: set up the input format for several modes.
    PortInputFormatSetupCombinedMode,
    /// Up: reply to a port information request.
    PortInformation,
    /// Up: reply to a port mode information request.
    PortModeInformation,
    /// Up: value update of a single port mode.
    PortValueSingle,
    /// Up: value update of several port modes in combination.
    PortValueCombinedMode,
    /// Up: reply to an input format setup for a single mode.
    PortInputFormatSingle,
    /// Up: reply to an input format setup for several modes.
    PortInputFormatCombinedMode,
    /// Down: control synchronization between synchronizable ports.
    VirtualPortSetup,
    /// Down: execute a port output command.
    PortOutputCommand,
    /// Up: feedback on completed port output commands.
    PortOutputCommandFeedback,
}

impl MessageTypes {
    /// The message type byte of a frame.
    pub open spec fn spec_code(self) -> u8 {
        match self {
            MessageTypes::HubProperties => 0x01,
            MessageTypes::HubActions => 0x02,
            MessageTypes::HubAlerts => 0x03,
            MessageTypes::HubAttachedIO => 0x04,
            MessageTypes::GenericErrorMessages => 0x05,
            MessageTypes::HWNetWorkCommands => 0x08,
            MessageTypes::FWUpdateGoIntoBootMode => 0x10,
            MessageTypes::FWUpdateLockMemory => 0x11,
            MessageTypes::FWUpdateLockStatusRequest => 0x12,
            MessageTypes::FWLockStatus => 0x13,
            MessageTypes::PortInformationRequest => 0x21,
            MessageTypes::PortModeInformationRequest => 0x22,
            MessageTypes::PortInputFormatSetupSingle => 0x41,
            MessageTypes::PortInputFormatSetupCombinedMode => 0x42,
            MessageTypes::PortInformation => 0x43,
            MessageTypes::PortModeInformation => 0x44,
            MessageTypes::PortValueSingle => 0x45,
            MessageTypes::PortValueCombinedMode => 0x46,
            MessageTypes::PortInputFormatSingle => 0x47,
            MessageTypes::PortInputFormatCombinedMode => 0x48,
            MessageTypes::VirtualPortSetup => 0x61,
            MessageTypes::PortOutputCommand => 0x81,
            MessageTypes::PortOutputCommandFeedback => 0x82,
        }
    }

    #[verifier::when_used_as_spec(spec_code)]
    pub fn code(self) -> (c: u8)
        ensures
            c == self.spec_code(),
    {
        match self {
            MessageTypes::HubProperties => 0x01,
            MessageTypes::HubActions => 0x02,
            MessageTypes::HubAlerts => 0x03,
            MessageTypes::HubAttachedIO => 0x04,
            MessageTypes::GenericErrorMessages => 0x05,
            MessageTypes::HWNetWorkCommands => 0x08,
            MessageTypes::FWUpdateGoIntoBootMode => 0x10,
            MessageTypes::FWUpdateLockMemory => 0x11,
            MessageTypes::FWUpdateLockStatusRequest => 0x12,
            MessageTypes::FWLockStatus => 0x13,
            MessageTypes::PortInformationRequest => 0x21,
            MessageTypes::PortModeInformationRequest => 0x22,
            MessageTypes::PortInputFormatSetupSingle => 0x41,
            MessageTypes::PortInputFormatSetupCombinedMode => 0x42,
            MessageTypes::PortInformation => 0x43,
            MessageTypes::PortModeInformation => 0x44,
            MessageTypes::PortValueSingle => 0x45,
            MessageTypes::PortValueCombinedMode => 0x46,
            MessageTypes::PortInputFormatSingle => 0x47,
            MessageTypes::PortInputFormatCombinedMode => 0x48,
            MessageTypes::VirtualPortSetup => 0x61,
            MessageTypes::PortOutputCommand => 0x81,
            MessageTypes::PortOutputCommandFeedback => 0x82,
        }
    }

    /// The message type that a byte of a frame names; `None` for a byte that
    /// names no known type.
    pub open spec fn spec_from_u8(code: u8) -> Option<MessageTypes> {
        if code == 0x01 {
            Some(MessageTypes::HubProperties)
        } else if code == 0x02 {
            Some(MessageTypes::HubActions)
        } else if code == 0x03 {
            Some(MessageTypes::HubAlerts)
        } else if code == 0x04 {
            Some(MessageTypes::HubAttachedIO)
        } else if code == 0x05 {
            Some(MessageTypes::GenericErrorMessages)
        } else if code == 0x08 {
            Some(MessageTypes::HWNetWorkCommands)
        } else if code == 0x10 {
            Some(MessageTypes::FWUpdateGoIntoBootMode)
        } else if code == 0x11 {
            Some(MessageTypes::FWUpdateLockMemory)
        } else if code == 0x12 {
            Some(MessageTypes::FWUpdateLockStatusRequest)
        } else if code == 0x13 {
            Some(MessageTypes::FWLockStatus)
        } else if code == 0x21 {
            Some(MessageTypes::PortInformationRequest)
        } else if code == 0x22 {
            Some(MessageTypes::PortModeInformationRequest)
        } else if code == 0x41 {
            Some(MessageTypes::PortInputFormatSetupSingle)
        } else if code == 0x42 {
            Some(MessageTypes::PortInputFormatSetupCombinedMode)
        } else if code == 0x43 {
            Some(MessageTypes::PortInformation)
        } else if code == 0x44 {
            Some(MessageTypes::PortModeInformation)
        } else if code == 0x45 {
            Some(MessageTypes::PortValueSingle)
        } else if code == 0x46 {
            Some(MessageTypes::PortValueCombinedMode)
        } else if code == 0x47 {
            Some(MessageTypes::PortInputFormatSingle)
        } else if code == 0x48 {
            Some(MessageTypes::PortInputFormatCombinedMode)
        } else if code == 0x61 {
            Some(MessageTypes::VirtualPortSetup)
        } else if code == 0x81 {
            Some(MessageTypes::PortOutputCommand)
        } else if code == 0x82 {
            Some(MessageTypes::PortOutputCommandFeedback)
        } else {
            None
        }
    }

    #[verifier::when_used_as_spec(spec_from_u8)]
    pub fn from_u8(code: u8) -> (decoded: Option<MessageTypes>)
        ensures
            decoded == MessageTypes::spec_from_u8(code),
    {
        match code {
            0x01 => Some(MessageTypes::HubProperties),
            0x02 => Some(MessageTypes::HubActions),
            0x03 => Some(MessageTypes::HubAlerts),
            0x04 => Some(MessageTypes::HubAttachedIO),
            0x05 => Some(MessageTypes::GenericErrorMessages),
            0x08 => Some(MessageTypes::HWNetWorkCommands),
            0x10 => Some(MessageTypes::FWUpdateGoIntoBootMode),
            0x11 => Some(MessageTypes::FWUpdateLockMemory),
            0x12 => Some(MessageTypes::FWUpdateLockStatusRequest),
            0x13 => Some(MessageTypes::FWLockStatus),
            0x21 => Some(MessageTypes::PortInformationRequest),
            0x22 => Some(MessageTypes::PortModeInformationRequest),
            0x41 => Some(MessageTypes::PortInputFormatSetupSingle),
            0x42 => Some(MessageTypes::PortInputFormatSetupCombinedMode),
            0x43 => Some(MessageTypes::PortInformation),
            0x44 => Some(MessageTypes::PortModeInformation),
            0x45 => Some(MessageTypes::PortValueSingle),
            0x46 => Some(MessageTypes::PortValueCombinedMode),
            0x47 => Some(MessageTypes::PortInputFormatSingle),
            0x48 => Some(MessageTypes::PortInputFormatCombinedMode),
            0x61 => Some(MessageTypes::VirtualPortSetup),
            0x81 => Some(MessageTypes::PortOutputCommand),
            0x82 => Some(MessageTypes::PortOutputCommandFeedback),
            _ => None,
        }
    }

    /// The name of the value, as it is written in messages for people.
    pub open spec fn spec_name(self) -> Seq<char> {
        match self {
            MessageTypes::HubProperties => "HubProperties"@,
            MessageTypes::HubActions => "HubActions"@,
            MessageTypes::HubAlerts => "HubAlerts"@,
            MessageTypes::HubAttachedIO => "HubAttachedIO"@,
            MessageTypes::GenericErrorMessages => "GenericErrorMessages"@,
            MessageTypes::HWNetWorkCommands => "HWNetWorkCommands"@,
            MessageTypes::FWUpdateGoIntoBootMode => "FWUpdateGoIntoBootMode"@,
            MessageTypes::FWUpdateLockMemory => "FWUpdateLockMemory"@,
            MessageTypes::FWUpdateLockStatusRequest => "FWUpdateLockStatusRequest"@,
            MessageTypes::FWLockStatus => "FWLockStatus"@,
            MessageTypes::PortInformationRequest => "PortInformationRequest"@,
            MessageTypes::PortModeInformationRequest => "PortModeInformationRequest"@,
            MessageTypes::PortInputFormatSetupSingle => "PortInputFormatSetupSingle"@,
            MessageTypes::PortInputFormatSetupCombinedMode => "PortInputFormatSetupCombinedMode"@,
            MessageTypes::PortInformation => "PortInformation"@,
            MessageTypes::PortModeInformation => "PortModeInformation"@,
            MessageTypes::PortValueSingle => "PortValueSingle"@,
            MessageTypes::PortValueCombinedMode => "PortValueCombinedMode"@,
            MessageTypes::PortInputFormatSingle => "PortInputFormatSingle"@,
            MessageTypes::PortInputFormatCombinedMode => "PortInputFormatCombinedMode"@,
            MessageTypes::VirtualPortSetup => "VirtualPortSetup"@,
            MessageTypes::PortOutputCommand => "PortOutputCommand"@,
            MessageTypes::PortOutputCommandFeedback => "PortOutputCommandFeedback"@,
        }
    }

    pub fn name(self) -> (text: &'static str)
        ensures
            text@ == self.spec_name(),
    {
        match self {
            MessageTypes::HubProperties => "HubProperties",
            MessageTypes::HubActions => "HubActions",
            MessageTypes::HubAlerts => "HubAlerts",
            MessageTypes::HubAttachedIO => "HubAttachedIO",
            MessageTypes::GenericErrorMessages => "GenericErrorMessages",
            MessageTypes::HWNetWorkCommands => "HWNetWorkCommands",
            MessageTypes::FWUpdateGoIntoBootMode => "FWUpdateGoIntoBootMode",
            MessageTypes::FWUpdateLockMemory => "FWUpdateLockMemory",
            MessageTypes::FWUpdateLockStatusRequest => "FWUpdateLockStatusRequest",
            MessageTypes::FWLockStatus => "FWLockStatus",
            MessageTypes::PortInformationRequest => "PortInformationRequest",
            MessageTypes::PortModeInformationRequest => "PortModeInformationRequest",
            MessageTypes::PortInputFormatSetupSingle => "PortInputFormatSetupSingle",
            MessageTypes::PortInputFormatSetupCombinedMode => "PortInputFormatSetupCombinedMode",
            MessageTypes::PortInformation => "PortInformation",
            MessageTypes::PortModeInformation => "PortModeInformation",
            MessageTypes::PortValueSingle => "PortValueSingle",
            MessageTypes::PortValueCombinedMode => "PortValueCombinedMode",
            MessageTypes::PortInputFormatSingle => "PortInputFormatSingle",
            MessageTypes::PortInputFormatCombinedMode => "PortInputFormatCombinedMode",
            MessageTypes::VirtualPortSetup => "VirtualPortSetup",
            MessageTypes::PortOutputCommand => "PortOutputCommand",
            MessageTypes::PortOutputCommandFeedback => "PortOutputCommandFeedback",
        }
    }
}

/// Decoding inverts encoding: the code of every message type decodes to that message type.
pub proof fn lemma_message_types_code_decodes(value: MessageTypes)
    ensures
        MessageTypes::spec_from_u8(value.spec_code()) == Some(value),
{
}

/// A byte decodes only to the message type whose code it is, and to a message type
/// whenever it is the code of one.
pub proof fn lemma_message_types_decodes_by_code(code: u8)
    ensures
        match MessageTypes::spec_from_u8(code) {
            Some(value) => value.spec_code() == code,
            None => forall|value: MessageTypes| value.spec_code() != code,
        },
{
}

/// The subcommands of a port output command. The payloads of some of them are
/// in `message_parameters`.
#[derive(Clone, Copy, Debug, PartialEq, Eq, Structural)]
pub enum SubcommandType {
    StartPowerSync,
    SetAccTime,
    SetDecTime,
    StartSpeed,
    StartSpeedSync,
    StartSpeedForTime,
    StartSpeedForTimeSync,
    StartSpeedForDegrees,
    StartSpeedForDegreesSync,
    GotoAbsolutePosition,
    GotoAbsolutePositionSync,
    WriteDirectModeData,
}

impl SubcommandType {
    /// The subcommand byte of a port output command.
    pub open spec fn spec_code(self) -> u8 {
        match self {
            SubcommandType::StartPowerSync => 0x02,
            SubcommandType::SetAccTime => 0x05,
            SubcommandType::SetDecTime => 0x06,
            SubcommandType::StartSpeed => 0x07,
            SubcommandType::StartSpeedSync => 0x08,
            SubcommandType::StartSpeedForTime => 0x09,
            SubcommandType::StartSpeedForTimeSync => 0x0a,
            SubcommandType::StartSpeedForDegrees => 0x0b,
            SubcommandType::StartSpeedForDegreesSync => 0x0c,
            SubcommandType::GotoAbsolutePosition => 0x0d,
            SubcommandType::GotoAbsolutePositionSync => 0x0e,
            SubcommandType::WriteDirectModeData => 0x51,
        }
    }

    #[verifier::when_used_as_spec(spec_code)]
    pub fn code(self) -> (c: u8)
        ensures
            c == self.spec_code(),
    {
        match self {
            SubcommandType::StartPowerSync => 0x02,
            SubcommandType::SetAccTime => 0x05,
            SubcommandType::SetDecTime => 0x06,
            SubcommandType::StartSpeed => 0x07,
            SubcommandType::StartSpeedSync => 0x08,
            SubcommandType::StartSpeedForTime => 0x09,
            SubcommandType::StartSpeedForTimeSync => 0x0a,
            SubcommandType::StartSpeedForDegrees => 0x0b,
            SubcommandType::StartSpeedForDegreesSync => 0x0c,
            SubcommandType::GotoAbsolutePosition => 0x0d,
            SubcommandType::GotoAbsolutePositionSync => 0x0e,
            SubcommandType::WriteDirectModeData => 0x51,
        }
    }
}

} // verus!
