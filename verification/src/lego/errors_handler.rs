//! Detection of the generic error messages of a hub.
use crate::error::{describe_hub_error, hub_error_text, LegoError};
use crate::lego::consts::LegoErrorTypes;
use crate::lego::message_types::MessageTypes;
use vstd::prelude::*;

verus! {

/// The error that a frame read from the hub stands for, if any. A frame is
/// an error message where its third byte is the code of
/// `GenericErrorMessages`; its fourth byte then names the command that the
/// hub objects to and its fifth the reason. A frame of fewer than three
/// bytes, or an error message of fewer than five, is malformed.
pub open spec fn lego_error_of(msg: Seq<u8>) -> Option<LegoError> {
    if msg.len() < 3 {
        Some(LegoError::MalformedFrame)
    } else if msg[2] != MessageTypes::GenericErrorMessages.spec_code() {
        None
    } else if msg.len() < 5 {
        Some(LegoError::MalformedFrame)
    } else {
        Some(
            LegoError::ProtocolError {
                command: MessageTypes::spec_from_u8(msg[3]),
                error: LegoErrorTypes::spec_from_u8(msg[4]),
            },
        )
    }
}

/// Writes the text of an error message of the hub from its fourth and fifth
/// byte, whatever the message type of the frame is. A byte that names no
/// known command or error is written as unknown.
pub fn parse_lego_error(msg: &Vec<u8>) -> (res: Result<String, LegoError>)
    ensures
        match res {
            Ok(text) => msg@.len() >= 5 && text@ == hub_error_text(
                MessageTypes::spec_from_u8(msg@[3]),
                LegoErrorTypes::spec_from_u8(msg@[4]),
            ),
            Err(e) => msg@.len() < 5 && e == LegoError::MalformedFrame,
        },
{
    if msg.len() < 5 {
        return Err(LegoError::MalformedFrame);
    }
    let err_cmd: u8 = msg[3];
    let err_code: u8 = msg[4];
    Ok(describe_hub_error(MessageTypes::from_u8(err_cmd), LegoErrorTypes::from_u8(err_code)))
}

/// Looks at a frame that was read from the hub, and fails where it is
/// malformed or an error message.
pub fn check_for_lego_error(msg: &Vec<u8>) -> (res: Result<(), LegoError>)
    ensures
        match res {
            Ok(_) => lego_error_of(msg@) is None,
            Err(e) => lego_error_of(msg@) == Some(e),
        },
{
    if msg.len() < 3 {
        return Err(LegoError::MalformedFrame);
    }
    if msg[2] == MessageTypes::GenericErrorMessages.code() {
        if msg.len() < 5 {
            return Err(LegoError::MalformedFrame);
        }
        return Err(
            LegoError::ProtocolError {
                command: MessageTypes::from_u8(msg[3]),
                error: LegoErrorTypes::from_u8(msg[4]),
            },
        );
    }
    Ok(())
}

/// The failure that an error message is detected as carries the text that
/// the message is parsed to.
pub proof fn lemma_detected_error_text(msg: Seq<u8>)
    requires
        msg.len() >= 5,
        msg[2] == MessageTypes::GenericErrorMessages.spec_code(),
    ensures
        lego_error_of(msg) matches Some(e) && e.spec_message() == hub_error_text(
            MessageTypes::spec_from_u8(msg[3]),
            LegoErrorTypes::spec_from_u8(msg[4]),
        ),
{
}

} // verus!
