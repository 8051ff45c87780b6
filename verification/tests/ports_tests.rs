use rust_powered_lego::error::LegoError;
use rust_powered_lego::lego::consts::EndState;
use rust_powered_lego::lego::consts::MotorModes;
use rust_powered_lego::lego::consts::PortType;
use rust_powered_lego::lego::consts::Profile;
use rust_powered_lego::lego::consts::TechnicHubPorts;
use rust_powered_lego::lego::message_parameters::GotoAbsolutePositionPayload;
use rust_powered_lego::lego::message_parameters::PortOutputCommandParams;
use rust_powered_lego::lego::message_parameters::Serialized;
use rust_powered_lego::lego::message_parameters::SetAccTimePayload;
use rust_powered_lego::lego::message_parameters::StartPowerPayload;
use rust_powered_lego::lego::message_parameters::StartSpeedPayload;
use rust_powered_lego::lego::message_parameters::StartupAndCompletionInfo;
use rust_powered_lego::lego::message_parameters::SubcommandPayload;
use rust_powered_lego::lego::message_parameters::WriteDirectModeDataCommands;
use rust_powered_lego::lego::message_parameters::WriteDirectModeDataPayload;
use rust_powered_lego::lego::SubcommandType;
use rust_powered_lego::ports::is_motor_type;
use rust_powered_lego::ports::Motor;
use rust_powered_lego::ports::MOTOR_TYPES;
use rust_powered_lego::MotorType;

fn motor_on(port: TechnicHubPorts) -> Motor {
    Motor::new(port.code(), Some(PortType::TechnicLargeLinearMotor)).unwrap()
}

#[test]
fn motor_types_are_listed() {
    assert_eq!(
        MOTOR_TYPES,
        [
            PortType::TechnicLargeLinearMotor,
            PortType::TechnicXlargeLinearMotor,
            PortType::TrainMotor,
        ]
    );
    for code in 0..=255u8 {
        if let Some(port_type) = PortType::from_u8(code) {
            assert_eq!(is_motor_type(port_type), MOTOR_TYPES.contains(&port_type));
        }
    }
}

#[test]
fn motor_types_are_three() {
    assert!(is_motor_type(PortType::TechnicLargeLinearMotor));
    assert!(is_motor_type(PortType::TechnicXlargeLinearMotor));
    assert!(is_motor_type(PortType::TrainMotor));
    assert!(!is_motor_type(PortType::TechnicLargeAngularMotor));
    assert!(!is_motor_type(PortType::MediumLinearMotor));
    assert!(!is_motor_type(PortType::HubLed));
    let mut motors = 0;
    for code in 0..=255u8 {
        match PortType::from_u8(code) {
            Some(port_type) => {
                assert_eq!(port_type.code(), code);
                if is_motor_type(port_type) {
                    motors += 1;
                }
            }
            None => {}
        }
    }
    assert_eq!(motors, 3);
}

#[test]
fn motor_needs_a_motor_on_the_port() {
    assert_eq!(Motor::new(0, Some(PortType::TrainMotor)).map(|m| m.port_id()), Ok(0));
    assert_eq!(Motor::new(3, Some(PortType::TechnicXlargeLinearMotor)).map(|m| m.port_id()), Ok(3));
    assert_eq!(Motor::new(0, Some(PortType::Light)), Err(LegoError::IncompatiblePortType));
    assert_eq!(
        Motor::new(0, Some(PortType::TechnicMediumAngularMotor)),
        Err(LegoError::IncompatiblePortType)
    );
    assert_eq!(Motor::new(0, Some(PortType::UnknownDevice)), Err(LegoError::IncompatiblePortType));
    assert_eq!(Motor::new(0, None), Err(LegoError::IncompatiblePortType));
}

#[test]
fn start_speed_command() {
    let motor = motor_on(TechnicHubPorts::A);
    let command =
        motor.start_speed(100, 100, Profile::Acc, StartupAndCompletionInfo::BufferAndFeedback);
    assert_eq!(
        command,
        PortOutputCommandParams {
            port_id: 0x00,
            start_up_info: StartupAndCompletionInfo::BufferAndFeedback,
            subcommand_id: SubcommandType::StartSpeed,
            payload: SubcommandPayload::StartSpeed(StartSpeedPayload {
                speed: 100,
                max_power: 100,
                use_profile: Profile::Acc,
            }),
        }
    );
    assert_eq!(command.serialize(), vec![0x00, 0x01, 0x07, 0x64, 0x64, 0x01]);
    assert!(command.is_well_formed());
    let back = motor.start_speed(
        -100,
        100,
        Profile::AccDec,
        StartupAndCompletionInfo::ExecuteImmediatelyAndNoAction,
    );
    assert_eq!(back.serialize(), vec![0x00, 0x10, 0x07, 0x9c, 0x64, 0x03]);
}

#[test]
fn stop_and_hold_is_start_speed_zero() {
    let motor = motor_on(TechnicHubPorts::B);
    for profile in [Profile::Acc, Profile::Dec, Profile::AccDec] {
        for start_up_info in [
            StartupAndCompletionInfo::BufferAndNoAction,
            StartupAndCompletionInfo::BufferAndFeedback,
            StartupAndCompletionInfo::ExecuteImmediatelyAndNoAction,
            StartupAndCompletionInfo::ExecuteImmediatelyAndFeedback,
        ] {
            let stop = motor.stop_motor(EndState::HOLD, profile, start_up_info);
            let zero = motor.start_speed(0, 0, profile, start_up_info);
            assert_eq!(stop, zero);
            assert_eq!(stop.serialize(), zero.serialize());
            assert_eq!(
                stop.serialize(),
                vec![0x01, start_up_info.code(), 0x07, 0x00, 0x00, profile.code()]
            );
        }
    }
}

#[test]
fn stop_and_float_is_start_power_zero() {
    let motor = motor_on(TechnicHubPorts::C);
    let stop = motor.stop_motor(
        EndState::FLOAT,
        Profile::AccDec,
        StartupAndCompletionInfo::ExecuteImmediatelyAndFeedback,
    );
    assert_eq!(stop.serialize(), vec![0x02, 0x11, 0x51, 0x00, 0x00]);
    assert_eq!(
        stop,
        motor.start_power(0, StartupAndCompletionInfo::ExecuteImmediatelyAndFeedback)
    );
    assert_eq!(stop.subcommand_id, SubcommandType::WriteDirectModeData);
    assert_eq!(
        stop.payload,
        SubcommandPayload::WriteDirectModeData(WriteDirectModeDataPayload {
            mode: MotorModes::Power.code(),
            payload: WriteDirectModeDataCommands::StartPower(StartPowerPayload { power: 0 }),
        })
    );
}

#[test]
fn stop_and_brake_is_start_power_127() {
    let motor = motor_on(TechnicHubPorts::D);
    let stop =
        motor.stop_motor(EndState::BRAKE, Profile::Acc, StartupAndCompletionInfo::BufferAndNoAction);
    assert_eq!(stop.serialize(), vec![0x03, 0x00, 0x51, 0x00, 0x7f]);
    assert_eq!(stop, motor.start_power(127, StartupAndCompletionInfo::BufferAndNoAction));
}

#[test]
fn start_power_command() {
    let motor = motor_on(TechnicHubPorts::A);
    let command = motor.start_power(-50, StartupAndCompletionInfo::ExecuteImmediatelyAndNoAction);
    assert_eq!(command.serialize(), vec![0x00, 0x10, 0x51, 0x00, 0xce]);
    assert!(command.is_well_formed());
}

#[test]
fn set_abs_position_command() {
    let motor = motor_on(TechnicHubPorts::B);
    let command = motor.set_abs_position(-2, StartupAndCompletionInfo::BufferAndFeedback);
    assert_eq!(command.serialize(), vec![0x01, 0x01, 0x51, 0x02, 0xfe, 0xff, 0xff, 0xff]);
    assert!(command.is_well_formed());
}

#[test]
fn go_to_abs_position_command() {
    let motor = motor_on(TechnicHubPorts::A);
    let command = motor.go_to_abs_position(
        100,
        10,
        100,
        EndState::BRAKE,
        Profile::AccDec,
        StartupAndCompletionInfo::ExecuteImmediatelyAndFeedback,
    );
    assert_eq!(
        command.payload,
        SubcommandPayload::GotoAbsolutePosition(GotoAbsolutePositionPayload {
            abs_pos: 100,
            speed: 10,
            max_power: 100,
            end_state: EndState::BRAKE,
            use_profile: Profile::AccDec,
        })
    );
    assert_eq!(
        command.serialize(),
        vec![0x00, 0x11, 0x0d, 0x64, 0x00, 0x00, 0x00, 0x0a, 0x64, 0x7f, 0x03]
    );
    assert!(command.is_well_formed());
}

#[test]
fn start_speed_for_deg_command() {
    let motor = motor_on(TechnicHubPorts::A);
    let command = motor.start_speed_for_deg(
        180,
        50,
        25,
        EndState::HOLD,
        Profile::AccDec,
        StartupAndCompletionInfo::ExecuteImmediatelyAndFeedback,
    );
    assert_eq!(
        command.serialize(),
        vec![0x00, 0x11, 0x0b, 0xb4, 0x00, 0x00, 0x00, 0x32, 0x19, 0x7e, 0x03]
    );
    assert!(command.is_well_formed());
}

#[test]
fn acceleration_and_deceleration_time_commands() {
    let motor = motor_on(TechnicHubPorts::C);
    let acc = motor.set_acceleration_time(1000, StartupAndCompletionInfo::BufferAndNoAction);
    assert_eq!(acc.serialize(), vec![0x02, 0x00, 0x05, 0xe8, 0x03, 0x01]);
    assert!(acc.is_well_formed());
    let dec = motor.set_deceleration_time(500, StartupAndCompletionInfo::BufferAndFeedback);
    assert_eq!(dec.serialize(), vec![0x02, 0x01, 0x06, 0xf4, 0x01, 0x02]);
    assert!(dec.is_well_formed());
}

#[test]
fn output_command_params_are_as_given() {
    let motor = motor_on(TechnicHubPorts::D);
    let payload = SubcommandPayload::SetAccTime(SetAccTimePayload { time: 7 });
    let command = motor.get_ouput_command_params(
        SubcommandType::SetAccTime,
        payload,
        StartupAndCompletionInfo::BufferAndFeedback,
    );
    assert_eq!(command.port_id, 0x03);
    assert_eq!(command.start_up_info, StartupAndCompletionInfo::BufferAndFeedback);
    assert_eq!(command.subcommand_id, SubcommandType::SetAccTime);
    assert_eq!(command.payload, payload);
    let direct = motor.get_wdm_ouput_command_params(
        MotorModes::Speed,
        WriteDirectModeDataCommands::StartPower(StartPowerPayload { power: 5 }),
        StartupAndCompletionInfo::BufferAndNoAction,
    );
    assert_eq!(direct.serialize(), vec![0x03, 0x00, 0x51, 0x01, 0x05]);
}

#[test]
fn start_speed_there_and_back() {
    let motor = motor_on(TechnicHubPorts::A);
    let start_up_info = StartupAndCompletionInfo::ExecuteImmediatelyAndFeedback;
    assert_eq!(
        motor.start_speed(100, 100, Profile::AccDec, start_up_info).serialize(),
        vec![0x00, 0x11, 0x07, 0x64, 0x64, 0x03]
    );
    assert_eq!(
        motor.start_speed(0, 0, Profile::AccDec, start_up_info).serialize(),
        vec![0x00, 0x11, 0x07, 0x00, 0x00, 0x03]
    );
    assert_eq!(
        motor.start_speed(-100, 100, Profile::AccDec, start_up_info).serialize(),
        vec![0x00, 0x11, 0x07, 0x9c, 0x64, 0x03]
    );
}

#[test]
fn go_to_abs_position_and_home() {
    let motor = motor_on(TechnicHubPorts::A);
    let start_up_info = StartupAndCompletionInfo::ExecuteImmediatelyAndFeedback;
    assert_eq!(
        motor
            .go_to_abs_position(3, 5, 100, EndState::HOLD, Profile::AccDec, start_up_info)
            .serialize(),
        vec![0x00, 0x11, 0x0d, 0x03, 0x00, 0x00, 0x00, 0x05, 0x64, 0x7e, 0x03]
    );
    assert_eq!(
        motor
            .go_to_abs_position(0, 5, 100, EndState::HOLD, Profile::AccDec, start_up_info)
            .serialize(),
        vec![0x00, 0x11, 0x0d, 0x00, 0x00, 0x00, 0x00, 0x05, 0x64, 0x7e, 0x03]
    );
}

#[test]
fn start_speed_for_deg_there_and_back() {
    let motor = motor_on(TechnicHubPorts::A);
    let start_up_info = StartupAndCompletionInfo::ExecuteImmediatelyAndFeedback;
    assert_eq!(
        motor
            .start_speed_for_deg(180, 50, 25, EndState::HOLD, Profile::Acc, start_up_info)
            .serialize(),
        vec![0x00, 0x11, 0x0b, 0xb4, 0x00, 0x00, 0x00, 0x32, 0x19, 0x7e, 0x01]
    );
    assert_eq!(
        motor
            .start_speed_for_deg(180, -50, 25, EndState::HOLD, Profile::Acc, start_up_info)
            .serialize(),
        vec![0x00, 0x11, 0x0b, 0xb4, 0x00, 0x00, 0x00, 0xce, 0x19, 0x7e, 0x01]
    );
}
