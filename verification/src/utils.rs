//! Decoding that belongs to no single device: the reply to a port
//! information request, the capabilities byte and the mode bitmaps in it.
use crate::error::LegoError;
use crate::hub::{
    mode_info_of, read_mode_info, PortInfoCombinationsReply, PortInfoModeReply,
    PortInfoModeReplyView, PortInfoValueReply, MODE_INFO_REPLY_LEN, PORT_VALUE_REPLY_LEN,
};
use crate::lego::consts::{PortInfoModeReplyCapabilities, PortType};
use crate::lego::message_types::MessageTypes;
use vstd::prelude::*;

verus! {

/// A reply to a port information request.
#[derive(Debug, PartialEq, Eq)]
pub enum PortInfoReply {
    PortInfoValueReplyParsed(PortInfoValueReply),
    PortInfoModeReplyParsed(PortInfoModeReply),
    PortInfoCombinationsReplyParsed(PortInfoCombinationsReply),
}

/// A reply to a port information request as a mathematical value.
pub enum PortInfoReplyView {
    Value(PortInfoValueReply),
    Mode(PortInfoModeReplyView),
    Combinations(Seq<u8>),
}

impl View for PortInfoReply {
    type V = PortInfoReplyView;

    open spec fn view(&self) -> PortInfoReplyView {
        match self {
            PortInfoReply::PortInfoValueReplyParsed(reply) => PortInfoReplyView::Value(*reply),
            PortInfoReply::PortInfoModeReplyParsed(reply) => PortInfoReplyView::Mode(reply@),
            PortInfoReply::PortInfoCombinationsReplyParsed(reply) => PortInfoReplyView::Combinations(
                reply.data@,
            ),
        }
    }
}

/// Whether a message type byte is one of the port information family:
/// `PortInformation`, `PortValueSingle` or `PortValueCombinedMode`.
pub open spec fn is_port_info_family(code: u8) -> bool {
    ||| code == MessageTypes::PortInformation.spec_code()
    ||| code == MessageTypes::PortValueSingle.spec_code()
    ||| code == MessageTypes::PortValueCombinedMode.spec_code()
}

/// What a frame is parsed to as a reply to a port information request.
///
/// The message type at offset 2 must be of the port information family. The
/// byte at offset 4 then tells what the reply holds: 0 the kind of the device
/// on the port, which stands at offset 5; 1 mode information; 2 the possible
/// mode combinations, which are handed on as the whole frame. A frame that
/// ends before a byte that is to be read is malformed.
pub open spec fn port_info_reply_of(frame: Seq<u8>) -> Result<PortInfoReplyView, LegoError> {
    if frame.len() < 3 {
        Err(LegoError::MalformedFrame)
    } else if !is_port_info_family(frame[2]) {
        Err(LegoError::UnexpectedMessageType)
    } else if frame.len() < 5 {
        Err(LegoError::MalformedFrame)
    } else if frame[4] == 0x0 {
        if frame.len() < PORT_VALUE_REPLY_LEN {
            Err(LegoError::MalformedFrame)
        } else {
            Ok(
                PortInfoReplyView::Value(
                    PortInfoValueReply { port_type: PortType::spec_from_u8(frame[5]) },
                ),
            )
        }
    } else if frame[4] == 0x1 {
        if frame.len() < MODE_INFO_REPLY_LEN {
            Err(LegoError::MalformedFrame)
        } else {
            Ok(PortInfoReplyView::Mode(mode_info_of(frame)))
        }
    } else if frame[4] == 0x2 {
        Ok(PortInfoReplyView::Combinations(frame))
    } else {
        Err(LegoError::UnsupportedInfoType)
    }
}

/// Parses a whole upstream frame as a reply to a port information request.
pub fn parse_port_info_reply(reply: Vec<u8>) -> (res: Result<PortInfoReply, LegoError>)
    ensures
        match res {
            Ok(parsed) => port_info_reply_of(reply@) == Ok::<PortInfoReplyView, LegoError>(parsed@),
            Err(e) => port_info_reply_of(reply@) == Err::<PortInfoReplyView, LegoError>(e),
        },
{
    if reply.len() < 3 {
        return Err(LegoError::MalformedFrame);
    }
    if !((reply[2] == 0x43) || (reply[2] == 0x45) || (reply[2] == 0x46)) {
        return Err(LegoError::UnexpectedMessageType);
    }
    if reply.len() < 5 {
        return Err(LegoError::MalformedFrame);
    }
    match reply[4] {
        0x0 => {
            if reply.len() < PORT_VALUE_REPLY_LEN {
                return Err(LegoError::MalformedFrame);
            }
            Ok(
                PortInfoReply::PortInfoValueReplyParsed(
                    PortInfoValueReply { port_type: PortType::from_u8(reply[5]) },
                ),
            )
        },
        0x1 => {
            if reply.len() < MODE_INFO_REPLY_LEN {
                return Err(LegoError::MalformedFrame);
            }
            Ok(PortInfoReply::PortInfoModeReplyParsed(read_mode_info(&reply)))
        },
        0x2 => Ok(
            PortInfoReply::PortInfoCombinationsReplyParsed(
                PortInfoCombinationsReply { data: reply },
            ),
        ),
        _ => Err(LegoError::UnsupportedInfoType),
    }
}

/// Whether the bit at a position of a word is set. Position 0 is the least
/// significant bit.
pub open spec fn bit_is_set(word: u16, position: u8) -> bool {
    (word >> position) & 0x1 == 0x1
}

/// How the capabilities byte of a mode information reply is read.
///
/// Bit 0 of the byte stands for output. For input, logical combinability and
/// logical synchronizability two readings are in use: by the bits 1, 2 and 3,
/// one for each, and by bit 1 for all three, so that the three are reported
/// together or not at all. Which of the two a hub means is an open question,
/// and the library does not settle it in silence: replies are decoded by the
/// shared bit, `SharedBit`, and a caller may read a capabilities byte by the
/// bits of their own, `OwnBits`, with `parse_capabilities_with`.
#[derive(Clone, Copy, Debug, PartialEq, Eq, Structural)]
pub enum CapabilityDecoding {
    /// Input, logical combinability and logical synchronizability are all
    /// read from bit 1.
    SharedBit,
    /// Every capability is read from the bit of its own.
    OwnBits,
}

/// The bit of the capabilities byte from which a capability is read.
pub open spec fn capability_bit(
    capability: PortInfoModeReplyCapabilities,
    decoding: CapabilityDecoding,
) -> u8 {
    match decoding {
        CapabilityDecoding::OwnBits => capability.spec_code(),
        CapabilityDecoding::SharedBit => match capability {
            PortInfoModeReplyCapabilities::Output => 0,
            _ => 1,
        },
    }
}

/// A capability as a list: of one item where its bit is set, of none where
/// it is not.
pub open spec fn capability_if_set(
    capabilities: u8,
    capability: PortInfoModeReplyCapabilities,
    decoding: CapabilityDecoding,
) -> Seq<PortInfoModeReplyCapabilities> {
    if bit_is_set(capabilities as u16, capability_bit(capability, decoding)) {
        seq![capability]
    } else {
        Seq::empty()
    }
}

/// The capabilities that a capabilities byte tells of, in the order output,
/// input, logically combinable, logically synchronizable.
pub open spec fn capabilities_of(capabilities: u8, decoding: CapabilityDecoding) -> Seq<
    PortInfoModeReplyCapabilities,
> {
    capability_if_set(capabilities, PortInfoModeReplyCapabilities::Output, decoding)
        + capability_if_set(capabilities, PortInfoModeReplyCapabilities::Input, decoding)
        + capability_if_set(capabilities, PortInfoModeReplyCapabilities::LogicalCombinable, decoding)
        + capability_if_set(
        capabilities,
        PortInfoModeReplyCapabilities::LogicalSynchronizable,
        decoding,
    )
}

/// Reads a capabilities byte in the way asked for.
pub fn parse_capabilities_with(capabilities: u8, decoding: CapabilityDecoding) -> (res: Vec<
    PortInfoModeReplyCapabilities,
>)
    ensures
        res@ == capabilities_of(capabilities, decoding),
{
    let word: u16 = capabilities as u16;
    let (combinable_bit, synchronizable_bit): (u8, u8) = match decoding {
        CapabilityDecoding::SharedBit => (1, 1),
        CapabilityDecoding::OwnBits => (2, 3),
    };
    let mut res: Vec<PortInfoModeReplyCapabilities> = Vec::new();
    if word & 0x1 == 0x1 {
        assert(word >> 0u8 == word) by (bit_vector);
        res.push(PortInfoModeReplyCapabilities::Output);
    } else {
        assert(word >> 0u8 == word) by (bit_vector);
    }
    if (word >> 1u8) & 0x1 == 0x1 {
        res.push(PortInfoModeReplyCapabilities::Input);
    }
    if (word >> combinable_bit) & 0x1 == 0x1 {
        res.push(PortInfoModeReplyCapabilities::LogicalCombinable);
    }
    if (word >> synchronizable_bit) & 0x1 == 0x1 {
        res.push(PortInfoModeReplyCapabilities::LogicalSynchronizable);
    }
    assert(res@ =~= capabilities_of(capabilities, decoding));
    res
}

/// Reads a capabilities byte as replies are decoded: with bit 1 taken for
/// input, logical combinability and logical synchronizability alike.
pub fn parse_capabilities(capabilities: u8) -> (res: Vec<PortInfoModeReplyCapabilities>)
    ensures
        res@ == capabilities_of(capabilities, CapabilityDecoding::SharedBit),
{
    parse_capabilities_with(capabilities, CapabilityDecoding::SharedBit)
}

/// The modes below `limit` whose bit is set in a bitmap, in ascending order.
pub open spec fn io_modes_below(modes: u16, limit: nat) -> Seq<u8>
    decreases limit,
{
    if limit == 0 {
        Seq::empty()
    } else {
        let mode = (limit - 1) as u8;
        if bit_is_set(modes, mode) {
            io_modes_below(modes, (limit - 1) as nat).push(mode)
        } else {
            io_modes_below(modes, (limit - 1) as nat)
        }
    }
}

/// The modes that a bitmap of 16 bits names: mode `i` is in the list where
/// bit `i` is set, and the list ascends.
pub open spec fn io_modes(modes: u16) -> Seq<u8> {
    io_modes_below(modes, 16)
}

/// Lists the modes whose bit is set in a bitmap, in ascending order.
pub fn parse_io_modes(modes: u16) -> (res: Vec<u8>)
    ensures
        res@ == io_modes(modes),
        forall|mode: u8| #[trigger] res@.contains(mode) <==> mode < 16 && bit_is_set(modes, mode),
        forall|i: int, j: int| 0 <= i < j < res@.len() ==> res@[i] < res@[j],
{
    proof {
        lemma_io_modes(modes);
    }
    let mut res: Vec<u8> = Vec::new();
    let mut i: u8 = 0;
    while i < 16
        invariant
            i <= 16,
            res@ == io_modes_below(modes, i as nat),
        decreases 16 - i,
    {
        if (modes >> i) & 0x1 == 0x1 {
            res.push(i);
        }
        i += 1;
    }
    res
}

/// The list of modes of a bitmap holds exactly the modes whose bit is set,
/// and each of them once, the smaller before the larger.
pub proof fn lemma_io_modes(modes: u16)
    ensures
        forall|mode: u8|
            #[trigger] io_modes(modes).contains(mode) <==> mode < 16 && bit_is_set(modes, mode),
        forall|i: int, j: int|
            0 <= i < j < io_modes(modes).len() ==> io_modes(modes)[i] < io_modes(modes)[j],
        io_modes(modes).len() <= 16,
{
    lemma_io_modes_below(modes, 16);
    assert forall|mode: u8|
        #[trigger] io_modes(modes).contains(mode) <==> mode < 16 && bit_is_set(modes, mode) by {
        assert(io_modes_below(modes, 16).contains(mode) <==> mode < 16 && bit_is_set(modes, mode));
    }
}

/// What `lemma_io_modes` says, of the modes below a limit.
proof fn lemma_io_modes_below(modes: u16, limit: nat)
    requires
        limit <= 16,
    ensures
        forall|mode: u8|
            #[trigger] io_modes_below(modes, limit).contains(mode) <==> mode < limit && bit_is_set(
                modes,
                mode,
            ),
        forall|i: int, j: int|
            0 <= i < j < io_modes_below(modes, limit).len() ==> io_modes_below(modes, limit)[i]
                < io_modes_below(modes, limit)[j],
        io_modes_below(modes, limit).len() <= limit,
    decreases limit,
{
    if limit > 0 {
        lemma_io_modes_below(modes, (limit - 1) as nat);
        let rest = io_modes_below(modes, (limit - 1) as nat);
        let mode = (limit - 1) as u8;
        let all = io_modes_below(modes, limit);
        assert forall|i: int| 0 <= i < rest.len() implies rest[i] < mode by {
            assert(rest.contains(rest[i]));
        }
        assert forall|m: u8| #[trigger] all.contains(m) <==> m < limit && bit_is_set(modes, m) by {
            if bit_is_set(modes, mode) {
                assert(all == rest.push(mode));
                assert(all[rest.len() as int] == mode);
                if all.contains(m) {
                    let k = choose|k: int| 0 <= k < all.len() && all[k] == m;
                    if k < rest.len() {
                        assert(rest[k] == m);
                        assert(rest.contains(m));
                    }
                }
                if m < limit && bit_is_set(modes, m) {
                    if m != mode {
                        assert(rest.contains(m));
                        let k = choose|k: int| 0 <= k < rest.len() && rest[k] == m;
                        assert(all[k] == m);
                    }
                }
            } else {
                assert(all == rest);
                assert(rest.contains(m) <==> m < limit - 1 && bit_is_set(modes, m));
            }
        }
    }
}

} // verus!
