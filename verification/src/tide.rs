//! The message of the first generation of the channel controller. It shares
//! its wire format with `BittideMessage`.

use vstd::prelude::*;
use crate::message::{BittideMessage, decoded, encoded, fits, lemma_decode_encode};

verus! {

/// One word exchanged with a neighbour, decoded.
#[derive(Debug, Clone, Copy, PartialEq, Eq, Structural)]
pub enum TideMessage {
    /// Constant filler sent when no user word is ready.
    SyncMessage,
    /// A user word: three bits of neighbour id and 28 bits of data.
    CommMessage { neighbor: u8, data: u32 },
}

/// The same message in the current controller's type.
pub open spec fn as_bittide(m: TideMessage) -> BittideMessage {
    match m {
        TideMessage::SyncMessage => BittideMessage::SyncMessage,
        TideMessage::CommMessage { neighbor, data } => BittideMessage::CommMessage {
            neighbor,
            data,
        },
    }
}

impl TideMessage {
    /// Packs the message into its wire word.
    pub fn serialize(self) -> (raw: u32)
        ensures
            raw == encoded(as_bittide(self)),
    {
        match self {
            TideMessage::SyncMessage => 0b0001,
            TideMessage::CommMessage { neighbor, data } => {
                let data: u32 = data & 0x0fff_ffff;
                let neighbor: u8 = neighbor & 0b111;
                let low: u32 = (neighbor as u32) << 1;
                low | (data << 4)
            },
        }
    }

    /// Unpacks a wire word.
    pub fn deserialize(raw: u32) -> (m: Self)
        ensures
            as_bittide(m) == decoded(raw),
            fits(as_bittide(m)),
    {
        if raw == 0b0001 {
            TideMessage::SyncMessage
        } else {
            let data: u32 = (raw >> 4) & 0x0fff_ffff;
            let field: u32 = (raw >> 1) & 0b111;
            assert(field < 8) by (bit_vector)
                requires
                    field == (raw >> 1u32) & 0b111u32,
            ;
            assert(data <= 0x0fff_ffffu32) by (bit_vector)
                requires
                    data == (raw >> 4u32) & 0x0fff_ffffu32,
            ;
            let neighbor: u8 = field as u8;
            TideMessage::CommMessage { neighbor, data }
        }
    }

    /// The same message in the current controller's type.
    pub fn into_bittide(self) -> (m: BittideMessage)
        ensures
            m == as_bittide(self),
    {
        match self {
            TideMessage::SyncMessage => BittideMessage::SyncMessage,
            TideMessage::CommMessage { neighbor, data } => BittideMessage::CommMessage {
                neighbor,
                data,
            },
        }
    }
}

/// Decoding undoes encoding for every message whose fields lie within their
/// widths.
pub proof fn lemma_tide_round_trip(m: TideMessage)
    requires
        fits(as_bittide(m)),
    ensures
        decoded(encoded(as_bittide(m))) == as_bittide(m),
{
    lemma_decode_encode(as_bittide(m));
}

} // verus!
