//! Constants of the hub and of the devices on its ports, each with its wire code.
use vstd::prelude::*;

verus! {

/// The hubs this library knows of.
#[derive(Clone, Copy, Debug, PartialEq, Eq, Structural)]
pub enum HubTypes {
    /// Technic Hub, item 88012.
    TechnicHub,
    /// Powered Up Hub, item 88009.
    HubHub,
}

impl HubTypes {
    /// The system type id that a hub of this kind reports.
    pub open spec fn spec_system_id(self) -> u8 {
        match self {
            HubTypes::TechnicHub => 0b1000000,
            HubTypes::HubHub => 0b1000001,
        }
    }

    #[verifier::when_used_as_spec(spec_system_id)]
    pub fn system_id(self) -> (id: u8)
        ensures
            id == self.spec_system_id(),
    {
        match self {
            HubTypes::TechnicHub => 0b1000000,
            HubTypes::HubHub => 0b1000001,
        }
    }
}

/// The ports of the Technic Hub: four connectors and six built-in devices.
#[derive(Clone, Copy, Debug, PartialEq, Eq, Structural)]
pub enum TechnicHubPorts {
    A,
    B,
    C,
    D,
    LED,
    CURRENT,
    VOLTAGE,
    ACCELEROMETER,
    GYRO,
    TILT,
}

impl TechnicHubPorts {
    /// The port id that names the port in a message.
    pub open spec fn spec_code(self) -> u8 {
        match self {
            TechnicHubPorts::A => 0x00,
            TechnicHubPorts::B => 0x01,
            TechnicHubPorts::C => 0x02,
            TechnicHubPorts::D => 0x03,
            TechnicHubPorts::LED => 0x32,
            TechnicHubPorts::CURRENT => 0x3b,
            TechnicHubPorts::VOLTAGE => 0x3c,
            TechnicHubPorts::ACCELEROMETER => 0x61,
            TechnicHubPorts::GYRO => 0x62,
            TechnicHubPorts::TILT => 0x63,
        }
    }

    #[verifier::when_used_as_spec(spec_code)]
    pub fn code(self) -> (c: u8)
        ensures
            c == self.spec_code(),
    {
        match self {
            TechnicHubPorts::A => 0x00,
            TechnicHubPorts::B => 0x01,
            TechnicHubPorts::C => 0x02,
            TechnicHubPorts::D => 0x03,
            TechnicHubPorts::LED => 0x32,
            TechnicHubPorts::CURRENT => 0x3b,
            TechnicHubPorts::VOLTAGE => 0x3c,
            TechnicHubPorts::ACCELEROMETER => 0x61,
            TechnicHubPorts::GYRO => 0x62,
            TechnicHubPorts::TILT => 0x63,
        }
    }
}

/// The kind of device that is attached to a port, as the hub reports it.
#[derive(Clone, Copy, Debug, PartialEq, Eq, Structural)]
pub enum PortType {
    UnknownDevice,
    SimpleMediumLinearMotor,
    TrainMotor,
    Light,
    VoltageSensor,
    CurrentSensor,
    PiezoBuzzer,
    HubLed,
    TiltSensor,
    MotionSensor,
    ColorDistanceSensor,
    MediumLinearMotor,
    MoveHubMediumLinearMotor,
    MoveHubTiltSensor,
    DuploTrainBaseMotor,
    DuploTrainBaseSpeaker,
    DuploTrainBaseColorSensor,
    DuploTrainBaseSpeedometer,
    /// Technic Control+.
    TechnicLargeLinearMotor,
    /// Technic Control+.
    TechnicXlargeLinearMotor,
    /// Spike Prime.
    TechnicMediumAngularMotor,
    /// Spike Prime.
    TechnicLargeAngularMotor,
    TechnicMediumHubGestSensor,
    RemoteControlButton,
    RemoteControlRssi,
    TechnicMediumHubAccelerometer,
    TechnicMediumHubGyroSensor,
    TechnicMediumHubTiltSensor,
    TechnicMediumHubTemperatureSensor,
    /// Spike Prime.
    TechnicColorSensor,
    /// Spike Prime.
    TechnicDistanceSensor,
    /// Spike Prime.
    TechnicForceSensor,
    MarioHubGestureSensor,
    MarioHubBarcodeSensor,
    MarioHubPantSensor,
    /// Mindstorms.
    TechnicMediumAngularMotorGrey,
    /// Mindstorms.
    TechnicLargeAngularMotorGrey,
}

impl PortType {
    /// The byte by which the hub names the device kind.
    pub open spec fn spec_code(self) -> u8 {
        match self {
            PortType::UnknownDevice => 0,
            PortType::SimpleMediumLinearMotor => 1,
            PortType::TrainMotor => 2,
            PortType::Light => 8,
            PortType::VoltageSensor => 20,
            PortType::CurrentSensor => 21,
            PortType::PiezoBuzzer => 22,
            PortType::HubLed => 23,
            PortType::TiltSensor => 34,
            PortType::MotionSensor => 35,
            PortType::ColorDistanceSensor => 37,
            PortType::MediumLinearMotor => 38,
            PortType::MoveHubMediumLinearMotor => 39,
            PortType::MoveHubTiltSensor => 40,
            PortType::DuploTrainBaseMotor => 41,
            PortType::DuploTrainBaseSpeaker => 42,
            PortType::DuploTrainBaseColorSensor => 43,
            PortType::DuploTrainBaseSpeedometer => 44,
            PortType::TechnicLargeLinearMotor => 46,
            PortType::TechnicXlargeLinearMotor => 47,
            PortType::TechnicMediumAngularMotor => 48,
            PortType::TechnicLargeAngularMotor => 49,
            PortType::TechnicMediumHubGestSensor => 54,
            PortType::RemoteControlButton => 55,
            PortType::RemoteControlRssi => 56,
            PortType::TechnicMediumHubAccelerometer => 57,
            PortType::TechnicMediumHubGyroSensor => 58,
            PortType::TechnicMediumHubTiltSensor => 59,
            PortType::TechnicMediumHubTemperatureSensor => 60,
            PortType::TechnicColorSensor => 61,
            PortType::TechnicDistanceSensor => 62,
            PortType::TechnicForceSensor => 63,
            PortType::MarioHubGestureSensor => 71,
            PortType::MarioHubBarcodeSensor => 73,
            PortType::MarioHubPantSensor => 74,
            PortType::TechnicMediumAngularMotorGrey => 75,
            PortType::TechnicLargeAngularMotorGrey => 76,
        }
    }

    #[verifier::when_used_as_spec(spec_code)]
    pub fn code(self) -> (c: u8)
        ensures
            c == self.spec_code(),
    {
        match self {
            PortType::UnknownDevice => 0,
            PortType::SimpleMediumLinearMotor => 1,
            PortType::TrainMotor => 2,
            PortType::Light => 8,
            PortType::VoltageSensor => 20,
            PortType::CurrentSensor => 21,
            PortType::PiezoBuzzer => 22,
            PortType::HubLed => 23,
            PortType::TiltSensor => 34,
            PortType::MotionSensor => 35,
            PortType::ColorDistanceSensor => 37,
            PortType::MediumLinearMotor => 38,
            PortType::MoveHubMediumLinearMotor => 39,
            PortType::MoveHubTiltSensor => 40,
            PortType::DuploTrainBaseMotor => 41,
            PortType::DuploTrainBaseSpeaker => 42,
            PortType::DuploTrainBaseColorSensor => 43,
            PortType::DuploTrainBaseSpeedometer => 44,
            PortType::TechnicLargeLinearMotor => 46,
            PortType::TechnicXlargeLinearMotor => 47,
            PortType::TechnicMediumAngularMotor => 48,
            PortType::TechnicLargeAngularMotor => 49,
            PortType::TechnicMediumHubGestSensor => 54,
            PortType::RemoteControlButton => 55,
            PortType::RemoteControlRssi => 56,
            PortType::TechnicMediumHubAccelerometer => 57,
            PortType::TechnicMediumHubGyroSensor => 58,
            PortType::TechnicMediumHubTiltSensor => 59,
            PortType::TechnicMediumHubTemperatureSensor => 60,
            PortType::TechnicColorSensor => 61,
            PortType::TechnicDistanceSensor => 62,
            PortType::TechnicForceSensor => 63,
            PortType::MarioHubGestureSensor => 71,
            PortType::MarioHubBarcodeSensor => 73,
            PortType::MarioHubPantSensor => 74,
            PortType::TechnicMediumAngularMotorGrey => 75,
            PortType::TechnicLargeAngularMotorGrey => 76,
        }
    }

    /// The device kind that a byte of a reply names; `None` for a byte that
    /// names no known kind.
    pub open spec fn spec_from_u8(code: u8) -> Option<PortType> {
        if code == 0 {
            Some(PortType::UnknownDevice)
        } else if code == 1 {
            Some(PortType::SimpleMediumLinearMotor)
        } else if code == 2 {
            Some(PortType::TrainMotor)
        } else if code == 8 {
            Some(PortType::Light)
        } else if code == 20 {
            Some(PortType::VoltageSensor)
        } else if code == 21 {
            Some(PortType::CurrentSensor)
        } else if code == 22 {
            Some(PortType::PiezoBuzzer)
        } else if code == 23 {
            Some(PortType::HubLed)
        } else if code == 34 {
            Some(PortType::TiltSensor)
        } else if code == 35 {
            Some(PortType::MotionSensor)
        } else if code == 37 {
            Some(PortType::ColorDistanceSensor)
        } else if code == 38 {
            Some(PortType::MediumLinearMotor)
        } else if code == 39 {
            Some(PortType::MoveHubMediumLinearMotor)
        } else if code == 40 {
            Some(PortType::MoveHubTiltSensor)
        } else if code == 41 {
            Some(PortType::DuploTrainBaseMotor)
        } else if code == 42 {
            Some(PortType::DuploTrainBaseSpeaker)
        } else if code == 43 {
            Some(PortType::DuploTrainBaseColorSensor)
        } else if code == 44 {
            Some(PortType::DuploTrainBaseSpeedometer)
        } else if code == 46 {
            Some(PortType::TechnicLargeLinearMotor)
        } else if code == 47 {
            Some(PortType::TechnicXlargeLinearMotor)
        } else if code == 48 {
            Some(PortType::TechnicMediumAngularMotor)
        } else if code == 49 {
            Some(PortType::TechnicLargeAngularMotor)
        } else if code == 54 {
            Some(PortType::TechnicMediumHubGestSensor)
        } else if code == 55 {
            Some(PortType::RemoteControlButton)
        } else if code == 56 {
            Some(PortType::RemoteControlRssi)
        } else if code == 57 {
            Some(PortType::TechnicMediumHubAccelerometer)
        } else if code == 58 {
            Some(PortType::TechnicMediumHubGyroSensor)
        } else if code == 59 {
            Some(PortType::TechnicMediumHubTiltSensor)
        } else if code == 60 {
            Some(PortType::TechnicMediumHubTemperatureSensor)
        } else if code == 61 {
            Some(PortType::TechnicColorSensor)
        } else if code == 62 {
            Some(PortType::TechnicDistanceSensor)
        } else if code == 63 {
            Some(PortType::TechnicForceSensor)
        } else if code == 71 {
            Some(PortType::MarioHubGestureSensor)
        } else if code == 73 {
            Some(PortType::MarioHubBarcodeSensor)
        } else if code == 74 {
            Some(PortType::MarioHubPantSensor)
        } else if code == 75 {
            Some(PortType::TechnicMediumAngularMotorGrey)
        } else if code == 76 {
            Some(PortType::TechnicLargeAngularMotorGrey)
        } else {
            None
        }
    }

    #[verifier::when_used_as_spec(spec_from_u8)]
    pub fn from_u8(code: u8) -> (decoded: Option<PortType>)
        ensures
            decoded == PortType::spec_from_u8(code),
    {
        match code {
            0 => Some(PortType::UnknownDevice),
            1 => Some(PortType::SimpleMediumLinearMotor),
            2 => Some(PortType::TrainMotor),
            8 => Some(PortType::Light),
            20 => Some(PortType::VoltageSensor),
            21 => Some(PortType::CurrentSensor),
            22 => Some(PortType::PiezoBuzzer),
            23 => Some(PortType::HubLed),
            34 => Some(PortType::TiltSensor),
            35 => Some(PortType::MotionSensor),
            37 => Some(PortType::ColorDistanceSensor),
            38 => Some(PortType::MediumLinearMotor),
            39 => Some(PortType::MoveHubMediumLinearMotor),
            40 => Some(PortType::MoveHubTiltSensor),
            41 => Some(PortType::DuploTrainBaseMotor),
            42 => Some(PortType::DuploTrainBaseSpeaker),
            43 => Some(PortType::DuploTrainBaseColorSensor),
            44 => Some(PortType::DuploTrainBaseSpeedometer),
            46 => Some(PortType::TechnicLargeLinearMotor),
            47 => Some(PortType::TechnicXlargeLinearMotor),
            48 => Some(PortType::TechnicMediumAngularMotor),
            49 => Some(PortType::TechnicLargeAngularMotor),
            54 => Some(PortType::TechnicMediumHubGestSensor),
            55 => Some(PortType::RemoteControlButton),
            56 => Some(PortType::RemoteControlRssi),
            57 => Some(PortType::TechnicMediumHubAccelerometer),
            58 => Some(PortType::TechnicMediumHubGyroSensor),
            59 => Some(PortType::TechnicMediumHubTiltSensor),
            60 => Some(PortType::TechnicMediumHubTemperatureSensor),
            61 => Some(PortType::TechnicColorSensor),
            62 => Some(PortType::TechnicDistanceSensor),
            63 => Some(PortType::TechnicForceSensor),
            71 => Some(PortType::MarioHubGestureSensor),
            73 => Some(PortType::MarioHubBarcodeSensor),
            74 => Some(PortType::MarioHubPantSensor),
            75 => Some(PortType::TechnicMediumAngularMotorGrey),
            76 => Some(PortType::TechnicLargeAngularMotorGrey),
            _ => None,
        }
    }
}

/// Decoding inverts encoding: the code of every device kind decodes to that device kind.
pub proof fn lemma_port_type_code_decodes(value: PortType)
    ensures
        PortType::spec_from_u8(value.spec_code()) == Some(value),
{
}

/// A byte decodes only to the device kind whose code it is, and to a device kind
/// whenever it is the code of one.
pub proof fn lemma_port_type_decodes_by_code(code: u8)
    ensures
        match PortType::spec_from_u8(code) {
            Some(value) => value.spec_code() == code,
            None => forall|value: PortType| value.spec_code() != code,
        },
{
}

/// Which of the acceleration and deceleration profiles a motor command uses.
#[derive(Clone, Copy, Debug, PartialEq, Eq, Structural)]
pub enum Profile {
    Acc,
    Dec,
    AccDec,
}

impl Profile {
    /// The profile byte of a motor command.
    pub open spec fn spec_code(self) -> u8 {
        match self {
            Profile::Acc => 0x01,
            Profile::Dec => 0x02,
            Profile::AccDec => 0x03,
        }
    }

    #[verifier::when_used_as_spec(spec_code)]
    pub fn code(self) -> (c: u8)
        ensures
            c == self.spec_code(),
    {
        match self {
            Profile::Acc => 0x01,
            Profile::Dec => 0x02,
            Profile::AccDec => 0x03,
        }
    }
}

/// What a motor does when a command ends.
#[derive(Clone, Copy, Debug, PartialEq, Eq, Structural)]
pub enum EndState {
    /// No power is supplied to the motor.
    FLOAT,
    /// The driver keeps the motor actively at its position.
    HOLD,
    /// The motor is shorted through its driver.
    BRAKE,
}

impl EndState {
    /// The end state byte of a motor command.
    pub open spec fn spec_code(self) -> u8 {
        match self {
            EndState::FLOAT => 0x00,
            EndState::HOLD => 0x7e,
            EndState::BRAKE => 0x7f,
        }
    }

    #[verifier::when_used_as_spec(spec_code)]
    pub fn code(self) -> (c: u8)
        ensures
            c == self.spec_code(),
    {
        match self {
            EndState::FLOAT => 0x00,
            EndState::HOLD => 0x7e,
            EndState::BRAKE => 0x7f,
        }
    }
}

/// The modes of a motor port. The values were found by trial on a Technic Hub.
#[derive(Clone, Copy, Debug, PartialEq, Eq, Structural)]
pub enum MotorModes {
    Power,
    Speed,
    Pos,
    Apos,
    Load,
    Calib,
}

impl MotorModes {
    /// The mode byte of a direct write to the port.
    pub open spec fn spec_code(self) -> u8 {
        match self {
            MotorModes::Power => 0x00,
            MotorModes::Speed => 0x01,
            MotorModes::Pos => 0x02,
            MotorModes::Apos => 0x03,
            MotorModes::Load => 0x04,
            MotorModes::Calib => 0x05,
        }
    }

    #[verifier::when_used_as_spec(spec_code)]
    pub fn code(self) -> (c: u8)
        ensures
            c == self.spec_code(),
    {
        match self {
            MotorModes::Power => 0x00,
            MotorModes::Speed => 0x01,
            MotorModes::Pos => 0x02,
            MotorModes::Apos => 0x03,
            MotorModes::Load => 0x04,
            MotorModes::Calib => 0x05,
        }
    }
}

/// What a port can do, as the capabilities byte of a mode information reply
/// tells it, seen from the hub.
#[derive(Clone, Copy, Debug, PartialEq, Eq, Structural)]
pub enum PortInfoModeReplyCapabilities {
    Output,
    Input,
    LogicalCombinable,
    LogicalSynchronizable,
}

impl PortInfoModeReplyCapabilities {
    /// The position of the capability's bit in the capabilities byte.
    pub open spec fn spec_code(self) -> u8 {
        match self {
            PortInfoModeReplyCapabilities::Output => 0,
            PortInfoModeReplyCapabilities::Input => 1,
            PortInfoModeReplyCapabilities::LogicalCombinable => 2,
            PortInfoModeReplyCapabilities::LogicalSynchronizable => 3,
        }
    }

    #[verifier::when_used_as_spec(spec_code)]
    pub fn code(self) -> (c: u8)
        ensures
            c == self.spec_code(),
    {
        match self {
            PortInfoModeReplyCapabilities::Output => 0,
            PortInfoModeReplyCapabilities::Input => 1,
            PortInfoModeReplyCapabilities::LogicalCombinable => 2,
            PortInfoModeReplyCapabilities::LogicalSynchronizable => 3,
        }
    }
}

/// The error codes that a hub reports in a generic error message.
#[derive(Clone, Copy, Debug, PartialEq, Eq, Structural)]
pub enum LegoErrorTypes {
    Ack,
    Mack,
    BufferOverflow,
    Timeout,
    CommandNotRecognized,
    /// For example a parameter error.
    InvalidUse,
    Overcurrent,
    InternalError,
}

impl LegoErrorTypes {
    /// The error code byte of a generic error message.
    pub open spec fn spec_code(self) -> u8 {
        match self {
            LegoErrorTypes::Ack => 0x01,
            LegoErrorTypes::Mack => 0x02,
            LegoErrorTypes::BufferOverflow => 0x03,
            LegoErrorTypes::Timeout => 0x04,
            LegoErrorTypes::CommandNotRecognized => 0x05,
            LegoErrorTypes::InvalidUse => 0x06,
            LegoErrorTypes::Overcurrent => 0x07,
            LegoErrorTypes::InternalError => 0x08,
        }
    }

    #[verifier::when_used_as_spec(spec_code)]
    pub fn code(self) -> (c: u8)
        ensures
            c == self.spec_code(),
    {
        match self {
            LegoErrorTypes::Ack => 0x01,
            LegoErrorTypes::Mack => 0x02,
            LegoErrorTypes::BufferOverflow => 0x03,
            LegoErrorTypes::Timeout => 0x04,
            LegoErrorTypes::CommandNotRecognized => 0x05,
            LegoErrorTypes::InvalidUse => 0x06,
            LegoErrorTypes::Overcurrent => 0x07,
            LegoErrorTypes::InternalError => 0x08,
        }
    }

    /// The error that a code byte names; `None` for a byte that names no
    /// known error.
    pub open spec fn spec_from_u8(code: u8) -> Option<LegoErrorTypes> {
        if code == 0x01 {
            Some(LegoErrorTypes::Ack)
        } else if code == 0x02 {
            Some(LegoErrorTypes::Mack)
        } else if code == 0x03 {
            Some(LegoErrorTypes::BufferOverflow)
        } else if code == 0x04 {
            Some(LegoErrorTypes::Timeout)
        } else if code == 0x05 {
            Some(LegoErrorTypes::CommandNotRecognized)
        } else if code == 0x06 {
            Some(LegoErrorTypes::InvalidUse)
        } else if code == 0x07 {
            Some(LegoErrorTypes::Overcurrent)
        } else if code == 0x08 {
            Some(LegoErrorTypes::InternalError)
        } else {
            None
        }
    }

    #[verifier::when_used_as_spec(spec_from_u8)]
    pub fn from_u8(code: u8) -> (decoded: Option<LegoErrorTypes>)
        ensures
            decoded == LegoErrorTypes::spec_from_u8(code),
    {
        match code {
            0x01 => Some(LegoErrorTypes::Ack),
            0x02 => Some(LegoErrorTypes::Mack),
            0x03 => Some(LegoErrorTypes::BufferOverflow),
            0x04 => Some(LegoErrorTypes::Timeout),
            0x05 => Some(LegoErrorTypes::CommandNotRecognized),
            0x06 => Some(LegoErrorTypes::InvalidUse),
            0x07 => Some(LegoErrorTypes::Overcurrent),
            0x08 => Some(LegoErrorTypes::InternalError),
            _ => None,
        }
    }

    /// The name of the value, as it is written in messages for people.
    pub open spec fn spec_name(self) -> Seq<char> {
        match self {
            LegoErrorTypes::Ack => "Ack"@,
            LegoErrorTypes::Mack => "Mack"@,
            LegoErrorTypes::BufferOverflow => "BufferOverflow"@,
            LegoErrorTypes::Timeout => "Timeout"@,
            LegoErrorTypes::CommandNotRecognized => "CommandNotRecognized"@,
            LegoErrorTypes::InvalidUse => "InvalidUse"@,
            LegoErrorTypes::Overcurrent => "Overcurrent"@,
            LegoErrorTypes::InternalError => "InternalError"@,
        }
    }

    pub fn name(self) -> (text: &'static str)
        ensures
            text@ == self.spec_name(),
    {
        match self {
            LegoErrorTypes::Ack => "Ack",
            LegoErrorTypes::Mack => "Mack",
            LegoErrorTypes::BufferOverflow => "BufferOverflow",
            LegoErrorTypes::Timeout => "Timeout",
            LegoErrorTypes::CommandNotRecognized => "CommandNotRecognized",
            LegoErrorTypes::InvalidUse => "InvalidUse",
            LegoErrorTypes::Overcurrent => "Overcurrent",
            LegoErrorTypes::InternalError => "InternalError",
        }
    }
}

/// Decoding inverts encoding: the code of every error decodes to that error.
pub proof fn lemma_lego_error_types_code_decodes(value: LegoErrorTypes)
    ensures
        LegoErrorTypes::spec_from_u8(value.spec_code()) == Some(value),
{
}

/// A byte decodes only to the error whose code it is, and to a error
/// whenever it is the code of one.
pub proof fn lemma_lego_error_types_decodes_by_code(code: u8)
    ensures
        match LegoErrorTypes::spec_from_u8(code) {
            Some(value) => value.spec_code() == code,
            None => forall|value: LegoErrorTypes| value.spec_code() != code,
        },
{
}

/// The colours of the hub's LED.
#[derive(Clone, Copy, Debug, PartialEq, Eq, Structural)]
pub enum Color {
    Black,
    Pink,
    Purple,
    Blue,
    LightBlue,
    Cyan,
    Green,
    Yellow,
    Orange,
    Red,
    White,
    /// The LED is off.
    NoColor,
}

impl Color {
    /// The colour's index.
    pub open spec fn spec_code(self) -> u8 {
        match self {
            Color::Black => 0,
            Color::Pink => 1,
            Color::Purple => 2,
            Color::Blue => 3,
            Color::LightBlue => 4,
            Color::Cyan => 5,
            Color::Green => 6,
            Color::Yellow => 7,
            Color::Orange => 8,
            Color::Red => 9,
            Color::White => 10,
            Color::NoColor => 255,
        }
    }

    #[verifier::when_used_as_spec(spec_code)]
    pub fn code(self) -> (c: u8)
        ensures
            c == self.spec_code(),
    {
        match self {
            Color::Black => 0,
            Color::Pink => 1,
            Color::Purple => 2,
            Color::Blue => 3,
            Color::LightBlue => 4,
            Color::Cyan => 5,
            Color::Green => 6,
            Color::Yellow => 7,
            Color::Orange => 8,
            Color::Red => 9,
            Color::White => 10,
            Color::NoColor => 255,
        }
    }
}

} // verus!
