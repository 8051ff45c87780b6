//! The devices on the ports of a hub and the commands that drive them.
use crate::error::LegoError;
use crate::lego::consts::{EndState, MotorModes, PortType, Profile};
use crate::lego::message_parameters::{
    GotoAbsolutePositionPayload, PortOutputCommandParams, Serialized, SetAbsolutePositionPayload,
    SetAccTimePayload, SetDecTimePayload, StartPowerPayload, StartSpeedForDegreesPayload,
    StartSpeedPayload, StartupAndCompletionInfo, SubcommandPayload, WriteDirectModeDataCommands,
    WriteDirectModeDataPayload,
};
use crate::lego::message_types::SubcommandType;
use crate::MotorType;
use vstd::prelude::*;

verus! {

/// The kinds of device that the library drives as motors.
pub const MOTOR_TYPES: [PortType; 3] = [
    PortType::TechnicLargeLinearMotor,
    PortType::TechnicXlargeLinearMotor,
    PortType::TrainMotor,
];

/// Whether a device of this kind is a motor that the library drives: a
/// Technic large or extra large linear motor, or a train motor.
pub open spec fn spec_is_motor_type(port_type: PortType) -> bool {
    ||| port_type == PortType::TechnicLargeLinearMotor
    ||| port_type == PortType::TechnicXlargeLinearMotor
    ||| port_type == PortType::TrainMotor
}

#[verifier::when_used_as_spec(spec_is_motor_type)]
pub fn is_motor_type(port_type: PortType) -> (b: bool)
    ensures
        b == spec_is_motor_type(port_type),
{
    match port_type {
        PortType::TechnicLargeLinearMotor => true,
        PortType::TechnicXlargeLinearMotor => true,
        PortType::TrainMotor => true,
        _ => false,
    }
}

/// The motors that the library drives are those of `MOTOR_TYPES`.
pub proof fn lemma_motor_types_are_listed(port_type: PortType)
    ensures
        spec_is_motor_type(port_type) <==> MOTOR_TYPES@.contains(port_type),
{
    assert(MOTOR_TYPES@[0] == PortType::TechnicLargeLinearMotor);
    assert(MOTOR_TYPES@[1] == PortType::TechnicXlargeLinearMotor);
    assert(MOTOR_TYPES@[2] == PortType::TrainMotor);
}

/// Whether what a hub reports of a port allows to drive a motor on it: the
/// hub names a kind of device, and the kind is a motor.
pub open spec fn drives_motor(port_type: Option<PortType>) -> bool {
    port_type matches Some(kind) && spec_is_motor_type(kind)
}

/// The port output command for a port with a subcommand and its payload,
/// just as they are given.
pub open spec fn output_command(
    port_id: u8,
    subcommand_id: SubcommandType,
    payload: SubcommandPayload,
    start_up_info: StartupAndCompletionInfo,
) -> PortOutputCommandParams {
    PortOutputCommandParams { port_id, start_up_info, subcommand_id, payload }
}

/// The port output command that writes a command straight to a mode of a
/// port.
pub open spec fn wdm_output_command(
    port_id: u8,
    mode: MotorModes,
    payload: WriteDirectModeDataCommands,
    start_up_info: StartupAndCompletionInfo,
) -> PortOutputCommandParams {
    output_command(
        port_id,
        SubcommandType::WriteDirectModeData,
        SubcommandPayload::WriteDirectModeData(
            WriteDirectModeDataPayload { mode: mode.spec_code(), payload },
        ),
        start_up_info,
    )
}

/// The command that drives the motor on a port with a power.
pub open spec fn start_power_command(
    port_id: u8,
    power: i8,
    start_up_info: StartupAndCompletionInfo,
) -> PortOutputCommandParams {
    wdm_output_command(
        port_id,
        MotorModes::Power,
        WriteDirectModeDataCommands::StartPower(StartPowerPayload { power }),
        start_up_info,
    )
}

/// The command that runs the motor on a port at a speed.
pub open spec fn start_speed_command(
    port_id: u8,
    speed: i8,
    max_power: i8,
    use_profile: Profile,
    start_up_info: StartupAndCompletionInfo,
) -> PortOutputCommandParams {
    output_command(
        port_id,
        SubcommandType::StartSpeed,
        SubcommandPayload::StartSpeed(StartSpeedPayload { speed, max_power, use_profile }),
        start_up_info,
    )
}

/// The command that stops the motor on a port. The protocol has no
/// subcommand that holds a motor: to hold, the motor is run at speed zero
/// with power zero. To float or to brake, the code of the end state is
/// written to the motor as its power.
pub open spec fn stop_motor_command(
    port_id: u8,
    end_state: EndState,
    use_profile: Profile,
    start_up_info: StartupAndCompletionInfo,
) -> PortOutputCommandParams {
    match end_state {
        EndState::HOLD => start_speed_command(port_id, 0, 0, use_profile, start_up_info),
        _ => start_power_command(port_id, end_state.spec_code() as i8, start_up_info),
    }
}

/// A motor on a port of a hub. A value of this type exists only where the
/// hub has reported a motor on the port.
#[derive(Clone, Copy, Debug, PartialEq, Eq)]
pub struct Motor {
    port_id: u8,
}

impl Motor {
    /// The port that the motor is on.
    pub closed spec fn spec_port_id(&self) -> u8 {
        self.port_id
    }

    #[verifier::when_used_as_spec(spec_port_id)]
    pub fn port_id(&self) -> (port_id: u8)
        ensures
            port_id == self.spec_port_id(),
    {
        self.port_id
    }

    /// The motor on a port, given the kind of device that the hub reports
    /// there. Fails with `IncompatiblePortType` unless the hub names a kind
    /// and the kind is a motor.
    pub fn new(port_id: u8, port_type: Option<PortType>) -> (res: Result<Motor, LegoError>)
        ensures
            match res {
                Ok(motor) => drives_motor(port_type) && motor.spec_port_id() == port_id,
                Err(e) => !drives_motor(port_type) && e == LegoError::IncompatiblePortType,
            },
    {
        match port_type {
            Some(kind) => {
                if is_motor_type(kind) {
                    Ok(Motor { port_id })
                } else {
                    Err(LegoError::IncompatiblePortType)
                }
            },
            None => Err(LegoError::IncompatiblePortType),
        }
    }

    /// The port output command for this motor with a subcommand and its
    /// payload.
    pub fn get_ouput_command_params(
        &self,
        subcommand_id: SubcommandType,
        payload: SubcommandPayload,
        start_up_info: StartupAndCompletionInfo,
    ) -> (cmd: PortOutputCommandParams)
        ensures
            cmd == output_command(self.spec_port_id(), subcommand_id, payload, start_up_info),
    {
        PortOutputCommandParams { port_id: self.port_id, start_up_info, subcommand_id, payload }
    }

    /// The port output command that writes a command straight to a mode of
    /// this motor.
    pub fn get_wdm_ouput_command_params(
        &self,
        mode: MotorModes,
        payload: WriteDirectModeDataCommands,
        start_up_info: StartupAndCompletionInfo,
    ) -> (cmd: PortOutputCommandParams)
        ensures
            cmd == wdm_output_command(self.spec_port_id(), mode, payload, start_up_info),
            cmd.wf(),
    {
        self.get_ouput_command_params(
            SubcommandType::WriteDirectModeData,
            SubcommandPayload::WriteDirectModeData(
                WriteDirectModeDataPayload { mode: mode.code(), payload },
            ),
            start_up_info,
        )
    }
}

impl MotorType for Motor {
    open spec fn motor_port(&self) -> u8 {
        self.spec_port_id()
    }

    fn set_acceleration_time(&self, time: i16, start_up_info: StartupAndCompletionInfo) -> (cmd:
        PortOutputCommandParams) {
        self.get_ouput_command_params(
            SubcommandType::SetAccTime,
            SubcommandPayload::SetAccTime(SetAccTimePayload { time }),
            start_up_info,
        )
    }

    fn set_deceleration_time(&self, time: i16, start_up_info: StartupAndCompletionInfo) -> (cmd:
        PortOutputCommandParams) {
        self.get_ouput_command_params(
            SubcommandType::SetDecTime,
            SubcommandPayload::SetDecTime(SetDecTimePayload { time }),
            start_up_info,
        )
    }

    fn start_power(&self, power: i8, start_up_info: StartupAndCompletionInfo) -> (cmd:
        PortOutputCommandParams) {
        self.get_wdm_ouput_command_params(
            MotorModes::Power,
            WriteDirectModeDataCommands::StartPower(StartPowerPayload { power }),
            start_up_info,
        )
    }

    fn start_speed(
        &self,
        speed: i8,
        max_power: i8,
        use_profile: Profile,
        start_up_info: StartupAndCompletionInfo,
    ) -> (cmd: PortOutputCommandParams) {
        self.get_ouput_command_params(
            SubcommandType::StartSpeed,
            SubcommandPayload::StartSpeed(StartSpeedPayload { speed, max_power, use_profile }),
            start_up_info,
        )
    }

    fn stop_motor(
        &self,
        end_state: EndState,
        use_profile: Profile,
        start_up_info: StartupAndCompletionInfo,
    ) -> (cmd: PortOutputCommandParams) {
        match end_state {
            EndState::HOLD => self.start_speed(0, 0, use_profile, start_up_info),
            _ => self.start_power(end_state.code() as i8, start_up_info),
        }
    }

    fn set_abs_position(&self, position: i32, start_up_info: StartupAndCompletionInfo) -> (cmd:
        PortOutputCommandParams) {
        self.get_wdm_ouput_command_params(
            MotorModes::Pos,
            WriteDirectModeDataCommands::SetAbsolutePosition(
                SetAbsolutePositionPayload { position },
            ),
            start_up_info,
        )
    }

    fn go_to_abs_position(
        &self,
        abs_pos: i32,
        speed: i8,
        max_power: i8,
        end_state: EndState,
        use_profile: Profile,
        start_up_info: StartupAndCompletionInfo,
    ) -> (cmd: PortOutputCommandParams) {
        self.get_ouput_command_params(
            SubcommandType::GotoAbsolutePosition,
            SubcommandPayload::GotoAbsolutePosition(
                GotoAbsolutePositionPayload { abs_pos, speed, max_power, end_state, use_profile },
            ),
            start_up_info,
        )
    }

    fn start_speed_for_deg(
        &self,
        degrees: i32,
        speed: i8,
        max_power: i8,
        end_state: EndState,
        use_profile: Profile,
        start_up_info: StartupAndCompletionInfo,
    ) -> (cmd: PortOutputCommandParams) {
        self.get_ouput_command_params(
            SubcommandType::StartSpeedForDegrees,
            SubcommandPayload::StartSpeedForDegrees(
                StartSpeedForDegreesPayload { degrees, speed, max_power, end_state, use_profile },
            ),
            start_up_info,
        )
    }
}

/// To stop a motor and hold it is to run it at speed zero with power zero:
/// the two commands are the same, and so are their bytes.
pub proof fn lemma_stop_and_hold_is_zero_speed(
    port_id: u8,
    use_profile: Profile,
    start_up_info: StartupAndCompletionInfo,
)
    ensures
        stop_motor_command(port_id, EndState::HOLD, use_profile, start_up_info)
            == start_speed_command(port_id, 0, 0, use_profile, start_up_info),
        stop_motor_command(port_id, EndState::HOLD, use_profile, start_up_info).wire_bytes()
            == start_speed_command(port_id, 0, 0, use_profile, start_up_info).wire_bytes(),
        start_speed_command(port_id, 0, 0, use_profile, start_up_info).wire_bytes() == seq![
            port_id,
            start_up_info.spec_code(),
            SubcommandType::StartSpeed.spec_code(),
            0u8,
            0u8,
            use_profile.spec_code(),
        ],
{
    let cmd = start_speed_command(port_id, 0, 0, use_profile, start_up_info);
    assert(cmd.wire_bytes() =~= seq![
        port_id,
        start_up_info.spec_code(),
        SubcommandType::StartSpeed.spec_code(),
        0u8,
        0u8,
        use_profile.spec_code(),
    ]);
}

/// To stop a motor and let it float, or brake it, is to write the code of
/// the end state to the motor as its power: the command is a direct write to
/// the power mode, and its last byte is that code, 0x00 for `FLOAT`.
pub proof fn lemma_stop_without_hold_is_start_power(
    port_id: u8,
    end_state: EndState,
    use_profile: Profile,
    start_up_info: StartupAndCompletionInfo,
)
    requires
        end_state != EndState::HOLD,
    ensures
        stop_motor_command(port_id, end_state, use_profile, start_up_info) == start_power_command(
            port_id,
            end_state.spec_code() as i8,
            start_up_info,
        ),
        stop_motor_command(port_id, end_state, use_profile, start_up_info).wire_bytes() == seq![
            port_id,
            start_up_info.spec_code(),
            SubcommandType::WriteDirectModeData.spec_code(),
            MotorModes::Power.spec_code(),
            end_state.spec_code(),
        ],
        EndState::FLOAT.spec_code() == 0x00,
{
    let cmd = stop_motor_command(port_id, end_state, use_profile, start_up_info);
    assert(cmd.wire_bytes() =~= seq![
        port_id,
        start_up_info.spec_code(),
        SubcommandType::WriteDirectModeData.spec_code(),
        MotorModes::Power.spec_code(),
        end_state.spec_code(),
    ]);
}

} // verus!
