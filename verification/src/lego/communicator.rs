//! Frames: how a payload is made into a message for the hub, and what is done
//! with what a read returns.
use crate::error::LegoError;
use crate::lego::encoding::usize_to_u8;
use crate::lego::errors_handler::{check_for_lego_error, lego_error_of};
use crate::lego::message_parameters::Serialized;
use crate::lego::message_types::MessageTypes;
use vstd::prelude::*;

verus! {

/// The most bytes that a frame may have.
pub const MAX_MESSAGE_SIZE: usize = 130;

/// The largest size of header and payload together that is sent without a
/// continuation byte.
pub const MAX_SHORT_MESSAGE_SIZE: usize = 127;

/// The header that every message starts with.
pub struct CommonMessageHeader {}

impl CommonMessageHeader {
    /// The header of a message of the given type: the length byte, which is
    /// zero until the whole message is known, a zero byte, and the code of
    /// the message type.
    pub fn get_header(msg_type: MessageTypes) -> (header: Vec<u8>)
        ensures
            header@ == seq![0u8, 0u8, msg_type.spec_code()],
    {
        let header = vec![0x0, 0x0, msg_type.code()];
        assert(header@ =~= seq![0u8, 0u8, msg_type.spec_code()]);
        header
    }
}

/// The size of a message: its header of three bytes and its payload.
pub open spec fn message_size(payload: Seq<u8>) -> nat {
    3 + payload.len()
}

/// The number of bytes of the frame of a message: its size, and one more for
/// the continuation byte where the size is over `MAX_SHORT_MESSAGE_SIZE`.
pub open spec fn frame_len(payload: Seq<u8>) -> nat {
    if message_size(payload) > MAX_SHORT_MESSAGE_SIZE {
        message_size(payload) + 1
    } else {
        message_size(payload)
    }
}

/// Whether the frame of a message with this payload is no longer than
/// `MAX_MESSAGE_SIZE`.
pub open spec fn fits_in_frame(payload: Seq<u8>) -> bool {
    frame_len(payload) <= MAX_MESSAGE_SIZE
}

/// The frame of a message: the size of the message, a zero byte, the code of
/// the message type, and the payload; where the size is over
/// `MAX_SHORT_MESSAGE_SIZE`, the continuation byte 0x01 stands behind the
/// size.
pub open spec fn frame_of(msg_type: MessageTypes, payload: Seq<u8>) -> Seq<u8> {
    if message_size(payload) > MAX_SHORT_MESSAGE_SIZE {
        seq![message_size(payload) as u8, 0x01u8, 0u8, msg_type.spec_code()] + payload
    } else {
        seq![message_size(payload) as u8, 0u8, msg_type.spec_code()] + payload
    }
}

/// Makes the frame of a message from its type and its payload. Fails with
/// `MessageTooLong` where the frame would be longer than `MAX_MESSAGE_SIZE`.
pub fn frame_message(msg_type: MessageTypes, payload: Vec<u8>) -> (res: Result<Vec<u8>, LegoError>)
    ensures
        match res {
            Ok(frame) => {
                &&& fits_in_frame(payload@)
                &&& frame@ == frame_of(msg_type, payload@)
                &&& frame@.len() <= MAX_MESSAGE_SIZE
            },
            Err(e) => !fits_in_frame(payload@) && e == LegoError::MessageTooLong,
        },
{
    if payload.len() > MAX_MESSAGE_SIZE {
        return Err(LegoError::MessageTooLong);
    }
    let mut body = payload;
    let mut data = CommonMessageHeader::get_header(msg_type);
    data.append(&mut body);
    let size: usize = data.len();
    if size > MAX_SHORT_MESSAGE_SIZE && size + 1 > MAX_MESSAGE_SIZE {
        return Err(LegoError::MessageTooLong);
    }
    let length: u8 = usize_to_u8(size).unwrap();
    data.set(0, length);
    if size > MAX_SHORT_MESSAGE_SIZE {
        data.insert(1, 0x01);
    }
    assert(data@ =~= frame_of(msg_type, payload@));
    Ok(data)
}

/// Makes the frame of a message from its type and its parameters, without
/// sending it.
pub fn get_message_only<T: Serialized>(msg_type: MessageTypes, mp: &T) -> (res: Result<
    Vec<u8>,
    LegoError,
>)
    ensures
        match res {
            Ok(frame) => {
                &&& fits_in_frame(mp.wire_bytes())
                &&& frame@ == frame_of(msg_type, mp.wire_bytes())
                &&& frame@.len() <= MAX_MESSAGE_SIZE
            },
            Err(e) => !fits_in_frame(mp.wire_bytes()) && e == LegoError::MessageTooLong,
        },
{
    frame_message(msg_type, mp.serialize())
}

/// The length extension of frames. A message whose size is over
/// `MAX_SHORT_MESSAGE_SIZE` has the continuation byte at offset 1 of its
/// frame, and the rest of the message behind it; a smaller one has no byte
/// added. A message is framed only where its frame is no longer than
/// `MAX_MESSAGE_SIZE`, and the first byte of its frame is then its size.
pub proof fn lemma_frame_length_extension(msg_type: MessageTypes, payload: Seq<u8>)
    ensures
        frame_of(msg_type, payload).len() == frame_len(payload),
        fits_in_frame(payload) <==> frame_of(msg_type, payload).len() <= MAX_MESSAGE_SIZE,
        fits_in_frame(payload) ==> frame_of(msg_type, payload)[0] == message_size(payload),
        message_size(payload) > MAX_SHORT_MESSAGE_SIZE ==> {
            &&& frame_of(msg_type, payload)[1] == 0x01
            &&& frame_of(msg_type, payload).len() == message_size(payload) + 1
            &&& frame_of(msg_type, payload).subrange(2, frame_len(payload) as int) == seq![
                0u8,
                msg_type.spec_code(),
            ] + payload
        },
        message_size(payload) <= MAX_SHORT_MESSAGE_SIZE ==> {
            &&& frame_of(msg_type, payload).len() == message_size(payload)
            &&& frame_of(msg_type, payload)[0] == frame_of(msg_type, payload).len()
            &&& frame_of(msg_type, payload).subrange(1, message_size(payload) as int) == seq![
                0u8,
                msg_type.spec_code(),
            ] + payload
        },
{
    let frame = frame_of(msg_type, payload);
    if message_size(payload) > MAX_SHORT_MESSAGE_SIZE {
        assert(frame.subrange(2, frame_len(payload) as int) =~= seq![0u8, msg_type.spec_code()]
            + payload);
    } else {
        assert(frame.subrange(1, message_size(payload) as int) =~= seq![
            0u8,
            msg_type.spec_code(),
        ] + payload);
    }
}

/// What the reader does after a read from the hub.
#[derive(Debug, PartialEq, Eq)]
pub enum ReadStep {
    /// Nothing came: read once more.
    ReadAgain,
    /// The reply of the hub.
    Reply(Vec<u8>),
    /// The frame is malformed, or the hub reports an error.
    Failed(LegoError),
}

/// Decides what to do with the bytes that a read returned. The first read
/// after a write can come before the hub has answered and return nothing; a
/// reader that gets nothing reads once more, and only once. What came
/// otherwise is the reply, unless it is malformed or an error message.
pub fn read_message(res: Vec<u8>, retried: bool) -> (step: ReadStep)
    ensures
        match step {
            ReadStep::ReadAgain => res@.len() == 0 && !retried,
            ReadStep::Reply(reply) => {
                &&& res@.len() > 0 || retried
                &&& lego_error_of(res@) is None
                &&& reply@ == res@
            },
            ReadStep::Failed(e) => {
                &&& res@.len() > 0 || retried
                &&& lego_error_of(res@) == Some(e)
            },
        },
{
    if res.is_empty() && !retried {
        return ReadStep::ReadAgain;
    }
    match check_for_lego_error(&res) {
        Ok(_) => ReadStep::Reply(res),
        Err(e) => ReadStep::Failed(e),
    }
}

} // verus!
