//! The payload of each message and of each subcommand of a port output
//! command, with the values that its fields may take and the bytes that stand
//! for it.
use crate::lego::consts::Profile;
use crate::lego::consts::EndState;
use crate::lego::encoding::{
    i16_to_le_bytes, i32_to_le_bytes, i8_to_byte, le_bytes_16, le_bytes_32, low_byte,
    u32_to_le_bytes,
};
use crate::lego::message_types::SubcommandType;
use vstd::prelude::*;

verus! {

/// A payload that can be written into a message. The hub is sent bytes, and
/// every payload has its own layout: `wire_bytes` says which bytes stand for
/// a value, and `serialize` makes them.
pub trait Serialized {
    /// The bytes that stand for the value in a message.
    spec fn wire_bytes(&self) -> Seq<u8>;

    fn serialize(&self) -> (bytes: Vec<u8>)
        ensures
            bytes@ == self.wire_bytes(),
    ;
}

/// The payload of a hub properties message.
#[derive(Clone, Copy, Debug, PartialEq, Eq)]
pub struct HubPropertiesParams {
    pub property: HubPropertiesProperties,
    pub operation: HubPropertiesOperations,
}

/// The properties of a hub.
#[derive(Clone, Copy, Debug, PartialEq, Eq, Structural)]
pub enum HubPropertiesProperties {
    AdvertisingName,
    Button,
    FWVersion,
    HWVersion,
    RSSI,
    BatteryVoltage,
    BatteryType,
    ManufacturerName,
    RadioFirmwareVersion,
    LEGOWirelessProtocolVersion,
    SystemTypeID,
    HWNetworkID,
    PrimaryMACAddress,
    SecondaryMACAddress,
    HardwareNetworkFamily,
}

impl HubPropertiesProperties {
    /// The property byte of a hub properties message.
    pub open spec fn spec_code(self) -> u8 {
        match self {
            HubPropertiesProperties::AdvertisingName => 0x01,
            HubPropertiesProperties::Button => 0x02,
            HubPropertiesProperties::FWVersion => 0x03,
            HubPropertiesProperties::HWVersion => 0x04,
            HubPropertiesProperties::RSSI => 0x05,
            HubPropertiesProperties::BatteryVoltage => 0x06,
            HubPropertiesProperties::BatteryType => 0x07,
            HubPropertiesProperties::ManufacturerName => 0x08,
            HubPropertiesProperties::RadioFirmwareVersion => 0x09,
            HubPropertiesProperties::LEGOWirelessProtocolVersion => 0x0a,
            HubPropertiesProperties::SystemTypeID => 0x0b,
            HubPropertiesProperties::HWNetworkID => 0x0c,
            HubPropertiesProperties::PrimaryMACAddress => 0x0d,
            HubPropertiesProperties::SecondaryMACAddress => 0x0e,
            HubPropertiesProperties::HardwareNetworkFamily => 0x0f,
        }
    }

    #[verifier::when_used_as_spec(spec_code)]
    pub fn code(self) -> (c: u8)
        ensures
            c == self.spec_code(),
    {
        match self {
            HubPropertiesProperties::AdvertisingName => 0x01,
            HubPropertiesProperties::Button => 0x02,
            HubPropertiesProperties::FWVersion => 0x03,
            HubPropertiesProperties::HWVersion => 0x04,
            HubPropertiesProperties::RSSI => 0x05,
            HubPropertiesProperties::BatteryVoltage => 0x06,
            HubPropertiesProperties::BatteryType => 0x07,
            HubPropertiesProperties::ManufacturerName => 0x08,
            HubPropertiesProperties::RadioFirmwareVersion => 0x09,
            HubPropertiesProperties::LEGOWirelessProtocolVersion => 0x0a,
            HubPropertiesProperties::SystemTypeID => 0x0b,
            HubPropertiesProperties::HWNetworkID => 0x0c,
            HubPropertiesProperties::PrimaryMACAddress => 0x0d,
            HubPropertiesProperties::SecondaryMACAddress => 0x0e,
            HubPropertiesProperties::HardwareNetworkFamily => 0x0f,
        }
    }
}

/// What is done with a property of a hub.
#[derive(Clone, Copy, Debug, PartialEq, Eq, Structural)]
pub enum HubPropertiesOperations {
    /// Set the property. Downstream.
    SetProperty,
    /// Downstream.
    EnableUpdates,
    /// Downstream.
    DisableUpdates,
    /// Downstream.
    Reset,
    /// Downstream.
    RequestUpdate,
    /// Upstream.
    Update,
}

impl HubPropertiesOperations {
    /// The operation byte of a hub properties message.
    pub open spec fn spec_code(self) -> u8 {
        match self {
            HubPropertiesOperations::SetProperty => 0x01,
            HubPropertiesOperations::EnableUpdates => 0x02,
            HubPropertiesOperations::DisableUpdates => 0x03,
            HubPropertiesOperations::Reset => 0x04,
            HubPropertiesOperations::RequestUpdate => 0x05,
            HubPropertiesOperations::Update => 0x06,
        }
    }

    #[verifier::when_used_as_spec(spec_code)]
    pub fn code(self) -> (c: u8)
        ensures
            c == self.spec_code(),
    {
        match self {
            HubPropertiesOperations::SetProperty => 0x01,
            HubPropertiesOperations::EnableUpdates => 0x02,
            HubPropertiesOperations::DisableUpdates => 0x03,
            HubPropertiesOperations::Reset => 0x04,
            HubPropertiesOperations::RequestUpdate => 0x05,
            HubPropertiesOperations::Update => 0x06,
        }
    }
}

impl Serialized for HubPropertiesParams {
    /// property(1) ‖ operation(1).
    open spec fn wire_bytes(&self) -> Seq<u8> {
        seq![self.property.spec_code(), self.operation.spec_code()]
    }

    fn serialize(&self) -> (bytes: Vec<u8>) {
        let bytes = vec![self.property.code(), self.operation.code()];
        assert(bytes@ =~= self.wire_bytes());
        bytes
    }
}

/// The payload of a hub actions message.
#[derive(Clone, Copy, Debug, PartialEq, Eq)]
pub struct HubActionsParams {
    pub action_type: HubActionsTypes,
}

/// The actions of a hub.
#[derive(Clone, Copy, Debug, PartialEq, Eq, Structural)]
pub enum HubActionsTypes {
    SwitchOffHub,
    Disconnect,
    VCCPortControlOn,
    VCCPortControlOff,
    /// Shown by the LED; the LED's own setting is kept.
    ActivateBUSYIndication,
    /// The LED shows its own setting again.
    ResetBUSYIndication,
    /// Switches the hub off at once, with nothing sent upstream.
    Shutdown,
    /// Upstream only.
    HubWillSwitchOff,
    /// Upstream only.
    HubWillDisconnect,
    /// Upstream only.
    HubWillGoIntoBootMode,
}

impl HubActionsTypes {
    /// The action byte of a hub actions message.
    pub open spec fn spec_code(self) -> u8 {
        match self {
            HubActionsTypes::SwitchOffHub => 0x01,
            HubActionsTypes::Disconnect => 0x02,
            HubActionsTypes::VCCPortControlOn => 0x03,
            HubActionsTypes::VCCPortControlOff => 0x04,
            HubActionsTypes::ActivateBUSYIndication => 0x05,
            HubActionsTypes::ResetBUSYIndication => 0x06,
            HubActionsTypes::Shutdown => 0x2f,
            HubActionsTypes::HubWillSwitchOff => 0x30,
            HubActionsTypes::HubWillDisconnect => 0x31,
            HubActionsTypes::HubWillGoIntoBootMode => 0x32,
        }
    }

    #[verifier::when_used_as_spec(spec_code)]
    pub fn code(self) -> (c: u8)
        ensures
            c == self.spec_code(),
    {
        match self {
            HubActionsTypes::SwitchOffHub => 0x01,
            HubActionsTypes::Disconnect => 0x02,
            HubActionsTypes::VCCPortControlOn => 0x03,
            HubActionsTypes::VCCPortControlOff => 0x04,
            HubActionsTypes::ActivateBUSYIndication => 0x05,
            HubActionsTypes::ResetBUSYIndication => 0x06,
            HubActionsTypes::Shutdown => 0x2f,
            HubActionsTypes::HubWillSwitchOff => 0x30,
            HubActionsTypes::HubWillDisconnect => 0x31,
            HubActionsTypes::HubWillGoIntoBootMode => 0x32,
        }
    }
}

impl Serialized for HubActionsParams {
    /// action(1).
    open spec fn wire_bytes(&self) -> Seq<u8> {
        seq![self.action_type.spec_code()]
    }

    fn serialize(&self) -> (bytes: Vec<u8>) {
        let bytes = vec![self.action_type.code()];
        assert(bytes@ =~= self.wire_bytes());
        bytes
    }
}

/// The payload of a port information request.
#[derive(Clone, Copy, Debug, PartialEq, Eq)]
pub struct PortInformationRequestParams {
    pub port_id: u8,
    pub information_type: PortInformationType,
}

/// What a port information request asks for.
#[derive(Clone, Copy, Debug, PartialEq, Eq, Structural)]
pub enum PortInformationType {
    PortValue,
    ModeInfo,
    /// To be asked for only where the mode info says that the port is logically combinable.
    PossibleModeCombinations,
}

impl PortInformationType {
    /// The information type byte of a port information request.
    pub open spec fn spec_code(self) -> u8 {
        match self {
            PortInformationType::PortValue => 0x00,
            PortInformationType::ModeInfo => 0x01,
            PortInformationType::PossibleModeCombinations => 0x02,
        }
    }

    #[verifier::when_used_as_spec(spec_code)]
    pub fn code(self) -> (c: u8)
        ensures
            c == self.spec_code(),
    {
        match self {
            PortInformationType::PortValue => 0x00,
            PortInformationType::ModeInfo => 0x01,
            PortInformationType::PossibleModeCombinations => 0x02,
        }
    }
}

impl Serialized for PortInformationRequestParams {
    /// port_id(1) ‖ information_type(1).
    open spec fn wire_bytes(&self) -> Seq<u8> {
        seq![self.port_id, self.information_type.spec_code()]
    }

    fn serialize(&self) -> (bytes: Vec<u8>) {
        let bytes = vec![self.port_id, self.information_type.code()];
        assert(bytes@ =~= self.wire_bytes());
        bytes
    }
}

/// The payload of a port mode information request.
#[derive(Clone, Copy, Debug, PartialEq, Eq)]
pub struct PortModeInformationRequestParams {
    pub port_id: u8,
    pub mode_id: u8,
    pub information_type: PortModeInformationType,
}

/// What a port mode information request asks for.
#[derive(Clone, Copy, Debug, PartialEq, Eq, Structural)]
pub enum PortModeInformationType {
    /// The name of the mode.
    Name,
    /// The raw range.
    Raw,
    /// The percent range.
    Pct,
    /// The SI value range.
    Si,
    /// The standard name of the value.
    Symbol,
    Mapping,
    /// Used internally.
    Internal,
    /// Motor bias, 0 to 100 percent.
    MotorBias,
    /// Six bytes of capability bits.
    CapabilityBits,
    /// The encoding of the value.
    ValueFormat,
}

impl PortModeInformationType {
    /// The information type byte of a port mode information request.
    pub open spec fn spec_code(self) -> u8 {
        match self {
            PortModeInformationType::Name => 0x00,
            PortModeInformationType::Raw => 0x01,
            PortModeInformationType::Pct => 0x02,
            PortModeInformationType::Si => 0x03,
            PortModeInformationType::Symbol => 0x04,
            PortModeInformationType::Mapping => 0x05,
            PortModeInformationType::Internal => 0x06,
            PortModeInformationType::MotorBias => 0x07,
            PortModeInformationType::CapabilityBits => 0x08,
            PortModeInformationType::ValueFormat => 0x80,
        }
    }

    #[verifier::when_used_as_spec(spec_code)]
    pub fn code(self) -> (c: u8)
        ensures
            c == self.spec_code(),
    {
        match self {
            PortModeInformationType::Name => 0x00,
            PortModeInformationType::Raw => 0x01,
            PortModeInformationType::Pct => 0x02,
            PortModeInformationType::Si => 0x03,
            PortModeInformationType::Symbol => 0x04,
            PortModeInformationType::Mapping => 0x05,
            PortModeInformationType::Internal => 0x06,
            PortModeInformationType::MotorBias => 0x07,
            PortModeInformationType::CapabilityBits => 0x08,
            PortModeInformationType::ValueFormat => 0x80,
        }
    }
}

impl Serialized for PortModeInformationRequestParams {
    /// port_id(1) ‖ mode_id(1) ‖ information_type(1).
    open spec fn wire_bytes(&self) -> Seq<u8> {
        seq![self.port_id, self.mode_id, self.information_type.spec_code()]
    }

    fn serialize(&self) -> (bytes: Vec<u8>) {
        let bytes = vec![self.port_id, self.mode_id, self.information_type.code()];
        assert(bytes@ =~= self.wire_bytes());
        bytes
    }
}

/// The payload of an input format setup for a single mode.
#[derive(Clone, Copy, Debug, PartialEq, Eq)]
pub struct PortInputFormatSetupSingleParams {
    pub port_id: u8,
    pub mode_id: u8,
    /// By how much the value has to change before the hub sends it again.
    pub delta: u32,
    pub enable_notifications: bool,
}

/// A flag as it stands in a message: 1 where it is set, 0 where it is not.
pub open spec fn flag_byte(flag: bool) -> u8 {
    if flag {
        1
    } else {
        0
    }
}

impl Serialized for PortInputFormatSetupSingleParams {
    /// port_id(1) ‖ mode_id(1) ‖ delta(4, low byte first) ‖ enable_notifications(1).
    open spec fn wire_bytes(&self) -> Seq<u8> {
        seq![self.port_id, self.mode_id] + le_bytes_32(self.delta as int) + seq![
            flag_byte(self.enable_notifications),
        ]
    }

    fn serialize(&self) -> (bytes: Vec<u8>) {
        let mut data = vec![self.port_id, self.mode_id];
        let mut delta = u32_to_le_bytes(self.delta);
        data.append(&mut delta);
        data.push(if self.enable_notifications { 1 } else { 0 });
        assert(data@ =~= self.wire_bytes());
        data
    }
}

/// The payload of a port output command: the port, when the command starts
/// and whether its end is reported, the subcommand, and the subcommand's own
/// payload.
#[derive(Clone, Copy, Debug, PartialEq, Eq)]
pub struct PortOutputCommandParams {
    pub port_id: u8,
    pub start_up_info: StartupAndCompletionInfo,
    pub subcommand_id: SubcommandType,
    pub payload: SubcommandPayload,
}

impl PortOutputCommandParams {
    /// The subcommand that the command names is the one whose payload it
    /// carries.
    pub open spec fn wf(&self) -> bool {
        self.subcommand_id == self.payload.spec_subcommand_type()
    }

    /// Whether the subcommand that the command names is the one whose
    /// payload it carries.
    pub fn is_well_formed(&self) -> (b: bool)
        ensures
            b == self.wf(),
    {
        self.subcommand_id == self.payload.subcommand_type()
    }
}

impl Serialized for PortOutputCommandParams {
    /// port_id(1) ‖ start_up_info(1) ‖ subcommand_id(1) ‖ payload.
    open spec fn wire_bytes(&self) -> Seq<u8> {
        seq![self.port_id, self.start_up_info.spec_code(), self.subcommand_id.spec_code()]
            + self.payload.wire_bytes()
    }

    fn serialize(&self) -> (bytes: Vec<u8>) {
        let mut res = vec![self.port_id, self.start_up_info.code(), self.subcommand_id.code()];
        let mut payload = self.payload.serialize();
        res.append(&mut payload);
        assert(res@ =~= self.wire_bytes());
        res
    }
}

/// When a port output command starts, and whether the hub reports its end.
#[derive(Clone, Copy, Debug, PartialEq, Eq, Structural)]
pub enum StartupAndCompletionInfo {
    BufferAndNoAction,
    BufferAndFeedback,
    ExecuteImmediatelyAndNoAction,
    ExecuteImmediatelyAndFeedback,
}

impl StartupAndCompletionInfo {
    /// The startup and completion byte of a port output command.
    pub open spec fn spec_code(self) -> u8 {
        match self {
            StartupAndCompletionInfo::BufferAndNoAction => 0x00,
            StartupAndCompletionInfo::BufferAndFeedback => 0x01,
            StartupAndCompletionInfo::ExecuteImmediatelyAndNoAction => 0x10,
            StartupAndCompletionInfo::ExecuteImmediatelyAndFeedback => 0x11,
        }
    }

    #[verifier::when_used_as_spec(spec_code)]
    pub fn code(self) -> (c: u8)
        ensures
            c == self.spec_code(),
    {
        match self {
            StartupAndCompletionInfo::BufferAndNoAction => 0x00,
            StartupAndCompletionInfo::BufferAndFeedback => 0x01,
            StartupAndCompletionInfo::ExecuteImmediatelyAndNoAction => 0x10,
            StartupAndCompletionInfo::ExecuteImmediatelyAndFeedback => 0x11,
        }
    }
}

/// The payload of a subcommand of a port output command.
#[derive(Clone, Copy, Debug, PartialEq, Eq)]
pub enum SubcommandPayload {
    SetAccTime(SetAccTimePayload),
    SetDecTime(SetDecTimePayload),
    StartSpeed(StartSpeedPayload),
    StartSpeedForDegrees(StartSpeedForDegreesPayload),
    GotoAbsolutePosition(GotoAbsolutePositionPayload),
    WriteDirectModeData(WriteDirectModeDataPayload),
}

impl SubcommandPayload {
    /// The subcommand that the payload belongs to.
    pub open spec fn spec_subcommand_type(self) -> SubcommandType {
        match self {
            SubcommandPayload::SetAccTime(_) => SubcommandType::SetAccTime,
            SubcommandPayload::SetDecTime(_) => SubcommandType::SetDecTime,
            SubcommandPayload::StartSpeed(_) => SubcommandType::StartSpeed,
            SubcommandPayload::StartSpeedForDegrees(_) => SubcommandType::StartSpeedForDegrees,
            SubcommandPayload::GotoAbsolutePosition(_) => SubcommandType::GotoAbsolutePosition,
            SubcommandPayload::WriteDirectModeData(_) => SubcommandType::WriteDirectModeData,
        }
    }

    #[verifier::when_used_as_spec(spec_subcommand_type)]
    pub fn subcommand_type(self) -> (subcommand: SubcommandType)
        ensures
            subcommand == self.spec_subcommand_type(),
    {
        match self {
            SubcommandPayload::SetAccTime(_) => SubcommandType::SetAccTime,
            SubcommandPayload::SetDecTime(_) => SubcommandType::SetDecTime,
            SubcommandPayload::StartSpeed(_) => SubcommandType::StartSpeed,
            SubcommandPayload::StartSpeedForDegrees(_) => SubcommandType::StartSpeedForDegrees,
            SubcommandPayload::GotoAbsolutePosition(_) => SubcommandType::GotoAbsolutePosition,
            SubcommandPayload::WriteDirectModeData(_) => SubcommandType::WriteDirectModeData,
        }
    }
}

impl Serialized for SubcommandPayload {
    /// The bytes of the payload that the value carries.
    open spec fn wire_bytes(&self) -> Seq<u8> {
        match self {
            SubcommandPayload::SetAccTime(payload) => payload.wire_bytes(),
            SubcommandPayload::SetDecTime(payload) => payload.wire_bytes(),
            SubcommandPayload::StartSpeed(payload) => payload.wire_bytes(),
            SubcommandPayload::StartSpeedForDegrees(payload) => payload.wire_bytes(),
            SubcommandPayload::GotoAbsolutePosition(payload) => payload.wire_bytes(),
            SubcommandPayload::WriteDirectModeData(payload) => payload.wire_bytes(),
        }
    }

    fn serialize(&self) -> (bytes: Vec<u8>) {
        match self {
            SubcommandPayload::SetAccTime(payload) => payload.serialize(),
            SubcommandPayload::SetDecTime(payload) => payload.serialize(),
            SubcommandPayload::StartSpeed(payload) => payload.serialize(),
            SubcommandPayload::StartSpeedForDegrees(payload) => payload.serialize(),
            SubcommandPayload::GotoAbsolutePosition(payload) => payload.serialize(),
            SubcommandPayload::WriteDirectModeData(payload) => payload.serialize(),
        }
    }
}

/// Sets the time that a motor takes to reach full speed.
#[derive(Clone, Copy, Debug, PartialEq, Eq)]
pub struct SetAccTimePayload {
    pub time: i16,
}

impl Serialized for SetAccTimePayload {
    /// time(2, low byte first) ‖ the code of the acceleration profile.
    open spec fn wire_bytes(&self) -> Seq<u8> {
        le_bytes_16(self.time as int) + seq![Profile::Acc.spec_code()]
    }

    fn serialize(&self) -> (bytes: Vec<u8>) {
        let mut data = i16_to_le_bytes(self.time);
        data.push(Profile::Acc.code());
        assert(data@ =~= self.wire_bytes());
        data
    }
}

/// Sets the time that a motor takes to come to rest from full speed.
#[derive(Clone, Copy, Debug, PartialEq, Eq)]
pub struct SetDecTimePayload {
    pub time: i16,
}

impl Serialized for SetDecTimePayload {
    /// time(2, low byte first) ‖ the code of the deceleration profile.
    open spec fn wire_bytes(&self) -> Seq<u8> {
        le_bytes_16(self.time as int) + seq![Profile::Dec.spec_code()]
    }

    fn serialize(&self) -> (bytes: Vec<u8>) {
        let mut data = i16_to_le_bytes(self.time);
        data.push(Profile::Dec.code());
        assert(data@ =~= self.wire_bytes());
        data
    }
}

/// Runs a motor at a speed until another command comes.
#[derive(Clone, Copy, Debug, PartialEq, Eq)]
pub struct StartSpeedPayload {
    pub speed: i8,
    pub max_power: i8,
    pub use_profile: Profile,
}

impl Serialized for StartSpeedPayload {
    /// speed(1) ‖ max_power(1) ‖ use_profile(1).
    open spec fn wire_bytes(&self) -> Seq<u8> {
        seq![
            low_byte(self.speed as int),
            low_byte(self.max_power as int),
            self.use_profile.spec_code(),
        ]
    }

    fn serialize(&self) -> (bytes: Vec<u8>) {
        let bytes = vec![
            i8_to_byte(self.speed),
            i8_to_byte(self.max_power),
            self.use_profile.code(),
        ];
        assert(bytes@ =~= self.wire_bytes());
        bytes
    }
}

/// Runs a motor at a speed for a number of degrees.
#[derive(Clone, Copy, Debug, PartialEq, Eq)]
pub struct StartSpeedForDegreesPayload {
    pub degrees: i32,
    pub speed: i8,
    pub max_power: i8,
    pub end_state: EndState,
    pub use_profile: Profile,
}

impl Serialized for StartSpeedForDegreesPayload {
    /// degrees(4, low byte first) ‖ speed(1) ‖ max_power(1) ‖ end_state(1) ‖
    /// use_profile(1).
    open spec fn wire_bytes(&self) -> Seq<u8> {
        le_bytes_32(self.degrees as int) + seq![
            low_byte(self.speed as int),
            low_byte(self.max_power as int),
            self.end_state.spec_code(),
            self.use_profile.spec_code(),
        ]
    }

    fn serialize(&self) -> (bytes: Vec<u8>) {
        let mut data = i32_to_le_bytes(self.degrees);
        data.push(i8_to_byte(self.speed));
        data.push(i8_to_byte(self.max_power));
        data.push(self.end_state.code());
        data.push(self.use_profile.code());
        assert(data@ =~= self.wire_bytes());
        data
    }
}

/// Turns a motor to an absolute position, in degrees.
#[derive(Clone, Copy, Debug, PartialEq, Eq)]
pub struct GotoAbsolutePositionPayload {
    /// The position, in degrees.
    pub abs_pos: i32,
    pub speed: i8,
    pub max_power: i8,
    pub end_state: EndState,
    pub use_profile: Profile,
}

impl Serialized for GotoAbsolutePositionPayload {
    /// abs_pos(4, low byte first) ‖ speed(1) ‖ max_power(1) ‖ end_state(1) ‖
    /// use_profile(1).
    open spec fn wire_bytes(&self) -> Seq<u8> {
        le_bytes_32(self.abs_pos as int) + seq![
            low_byte(self.speed as int),
            low_byte(self.max_power as int),
            self.end_state.spec_code(),
            self.use_profile.spec_code(),
        ]
    }

    fn serialize(&self) -> (bytes: Vec<u8>) {
        let mut data = i32_to_le_bytes(self.abs_pos);
        data.push(i8_to_byte(self.speed));
        data.push(i8_to_byte(self.max_power));
        data.push(self.end_state.code());
        data.push(self.use_profile.code());
        assert(data@ =~= self.wire_bytes());
        data
    }
}

/// Writes a value straight to a mode of the port.
#[derive(Clone, Copy, Debug, PartialEq, Eq)]
pub struct WriteDirectModeDataPayload {
    pub mode: u8,
    pub payload: WriteDirectModeDataCommands,
}

impl Serialized for WriteDirectModeDataPayload {
    /// mode(1) ‖ the bytes of the command.
    open spec fn wire_bytes(&self) -> Seq<u8> {
        seq![self.mode] + self.payload.wire_bytes()
    }

    fn serialize(&self) -> (bytes: Vec<u8>) {
        let mut data = vec![self.mode];
        let mut payload = self.payload.serialize();
        data.append(&mut payload);
        assert(data@ =~= self.wire_bytes());
        data
    }
}

/// The commands that are written straight to a mode of the port.
#[derive(Clone, Copy, Debug, PartialEq, Eq)]
pub enum WriteDirectModeDataCommands {
    StartPower(StartPowerPayload),
    SetAbsolutePosition(SetAbsolutePositionPayload),
}

impl Serialized for WriteDirectModeDataCommands {
    /// The bytes of the command that the value carries.
    open spec fn wire_bytes(&self) -> Seq<u8> {
        match self {
            WriteDirectModeDataCommands::StartPower(payload) => payload.wire_bytes(),
            WriteDirectModeDataCommands::SetAbsolutePosition(payload) => payload.wire_bytes(),
        }
    }

    fn serialize(&self) -> (bytes: Vec<u8>) {
        match self {
            WriteDirectModeDataCommands::StartPower(payload) => payload.serialize(),
            WriteDirectModeDataCommands::SetAbsolutePosition(payload) => payload.serialize(),
        }
    }
}

/// Drives a motor with a power.
#[derive(Clone, Copy, Debug, PartialEq, Eq)]
pub struct StartPowerPayload {
    pub power: i8,
}

impl Serialized for StartPowerPayload {
    /// power(1).
    open spec fn wire_bytes(&self) -> Seq<u8> {
        seq![low_byte(self.power as int)]
    }

    fn serialize(&self) -> (bytes: Vec<u8>) {
        let bytes = vec![i8_to_byte(self.power)];
        assert(bytes@ =~= self.wire_bytes());
        bytes
    }
}

/// Declares the position at which a motor stands to be the given one.
#[derive(Clone, Copy, Debug, PartialEq, Eq)]
pub struct SetAbsolutePositionPayload {
    pub position: i32,
}

impl Serialized for SetAbsolutePositionPayload {
    /// position(4, low byte first).
    open spec fn wire_bytes(&self) -> Seq<u8> {
        le_bytes_32(self.position as int)
    }

    fn serialize(&self) -> (bytes: Vec<u8>) {
        i32_to_le_bytes(self.position)
    }
}

} // verus!
