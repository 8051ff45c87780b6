//! Host-side protocol layer for LEGO Powered Up / Technic hubs.
//!
//! The crate holds the message layer of the LEGO Wireless Protocol: the wire
//! codes of the protocol's enumerations, the byte layout of every message
//! payload, the framing of a payload into a message, the detection of error
//! frames, and the decoding of port information replies. It performs no I/O:
//! a caller writes the frames it builds to the hub and hands the bytes it
//! reads back to the decoders.
use crate::lego::consts::{EndState, MotorModes, Profile};
use crate::lego::message_parameters::{
    GotoAbsolutePositionPayload, PortOutputCommandParams, SetAbsolutePositionPayload,
    SetAccTimePayload, SetDecTimePayload, StartSpeedForDegreesPayload, StartupAndCompletionInfo,
    SubcommandPayload, WriteDirectModeDataCommands,
};
use crate::lego::message_types::SubcommandType;
use crate::ports::{
    output_command, start_power_command, start_speed_command, stop_motor_command,
    wdm_output_command,
};
use vstd::prelude::*;

pub mod connection_manager;
pub mod error;
pub mod hub;
pub mod lego;
pub mod ports;
pub mod utils;

verus! {

/// What a motor can be told to do. Each method gives the port output command
/// that tells the motor on `motor_port` to do it; the caller sends the
/// command to the hub. Every command names the subcommand whose payload it
/// carries.
pub trait MotorType {
    /// The port that the motor is on.
    spec fn motor_port(&self) -> u8;

    /// Sets the time that the motor takes to reach full speed.
    fn set_acceleration_time(&self, time: i16, start_up_info: StartupAndCompletionInfo) -> (cmd:
        PortOutputCommandParams)
        ensures
            cmd == output_command(
                self.motor_port(),
                SubcommandType::SetAccTime,
                SubcommandPayload::SetAccTime(SetAccTimePayload { time }),
                start_up_info,
            ),
            cmd.wf(),
    ;

    /// Sets the time that the motor takes to come to rest from full speed.
    fn set_deceleration_time(&self, time: i16, start_up_info: StartupAndCompletionInfo) -> (cmd:
        PortOutputCommandParams)
        ensures
            cmd == output_command(
                self.motor_port(),
                SubcommandType::SetDecTime,
                SubcommandPayload::SetDecTime(SetDecTimePayload { time }),
                start_up_info,
            ),
            cmd.wf(),
    ;

    /// Drives the motor with a power.
    fn start_power(&self, power: i8, start_up_info: StartupAndCompletionInfo) -> (cmd:
        PortOutputCommandParams)
        ensures
            cmd == start_power_command(self.motor_port(), power, start_up_info),
            cmd.wf(),
    ;

    /// Runs the motor at a speed. The hub takes the speed as a percentage
    /// from -100 to 100, whose sign is the direction, and the greatest power
    /// as a percentage from 0 to 100; the command carries both as they are
    /// given.
    fn start_speed(
        &self,
        speed: i8,
        max_power: i8,
        use_profile: Profile,
        start_up_info: StartupAndCompletionInfo,
    ) -> (cmd: PortOutputCommandParams)
        ensures
            cmd == start_speed_command(
                self.motor_port(),
                speed,
                max_power,
                use_profile,
                start_up_info,
            ),
            cmd.wf(),
    ;

    /// Stops the motor, and holds it, lets it float or brakes it.
    fn stop_motor(
        &self,
        end_state: EndState,
        use_profile: Profile,
        start_up_info: StartupAndCompletionInfo,
    ) -> (cmd: PortOutputCommandParams)
        ensures
            cmd == stop_motor_command(self.motor_port(), end_state, use_profile, start_up_info),
            cmd.wf(),
    ;

    /// Declares the position at which the motor stands to be the given one.
    fn set_abs_position(&self, position: i32, start_up_info: StartupAndCompletionInfo) -> (cmd:
        PortOutputCommandParams)
        ensures
            cmd == wdm_output_command(
                self.motor_port(),
                MotorModes::Pos,
                WriteDirectModeDataCommands::SetAbsolutePosition(
                    SetAbsolutePositionPayload { position },
                ),
                start_up_info,
            ),
            cmd.wf(),
    ;

    /// Turns the motor to an absolute position, in degrees.
    fn go_to_abs_position(
        &self,
        abs_pos: i32,
        speed: i8,
        max_power: i8,
        end_state: EndState,
        use_profile: Profile,
        start_up_info: StartupAndCompletionInfo,
    ) -> (cmd: PortOutputCommandParams)
        ensures
            cmd == output_command(
                self.motor_port(),
                SubcommandType::GotoAbsolutePosition,
                SubcommandPayload::GotoAbsolutePosition(
                    GotoAbsolutePositionPayload { abs_pos, speed, max_power, end_state, use_profile },
                ),
                start_up_info,
            ),
            cmd.wf(),
    ;

    /// Runs the motor at a speed for a number of degrees.
    fn start_speed_for_deg(
        &self,
        degrees: i32,
        speed: i8,
        max_power: i8,
        end_state: EndState,
        use_profile: Profile,
        start_up_info: StartupAndCompletionInfo,
    ) -> (cmd: PortOutputCommandParams)
        ensures
            cmd == output_command(
                self.motor_port(),
                SubcommandType::StartSpeedForDegrees,
                SubcommandPayload::StartSpeedForDegrees(
                    StartSpeedForDegreesPayload { degrees, speed, max_power, end_state, use_profile },
                ),
                start_up_info,
            ),
            cmd.wf(),
    ;
}

} // verus!
