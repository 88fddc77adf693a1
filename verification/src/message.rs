//! The wire word and its tagged form.
//!
//! Bit 0 alone marks the sync filler; bits 1 to 3 hold the neighbour id and
//! bits 4 to 31 the payload of a data word.

use vstd::prelude::*;

verus! {

/// Mask of the payload field once it is shifted down to bit 0.
pub const PAYLOAD_MASK: u32 = 0x0fff_ffff;

/// Mask of the neighbour field once it is shifted down to bit 0.
pub const NEIGHBOR_MASK: u8 = 0b111;

/// The wire word of the sync filler.
pub const SYNC_WORD: u32 = 0b0001;

/// One word exchanged with a neighbour, decoded.
#[derive(Debug, Clone, Copy, PartialEq, Eq, Structural)]
pub enum BittideMessage {
    /// Constant filler sent when no user word is ready.
    SyncMessage,
    /// A user word: three bits of neighbour id and 28 bits of data.
    CommMessage { neighbor: u8, data: u32 },
}

/// The wire word of a message: both fields are masked to their widths.
pub open spec fn encoded(m: BittideMessage) -> u32 {
    match m {
        BittideMessage::SyncMessage => 1u32,
        BittideMessage::CommMessage { neighbor, data } => (((neighbor & 0b111u8) as u32) << 1u32)
            | ((data & 0x0fff_ffffu32) << 4u32),
    }
}

/// The message that a wire word stands for.
pub open spec fn decoded(raw: u32) -> BittideMessage {
    if raw == 1u32 {
        BittideMessage::SyncMessage
    } else {
        BittideMessage::CommMessage {
            neighbor: ((raw >> 1u32) & 0b111u32) as u8,
            data: (raw >> 4u32) & 0x0fff_ffffu32,
        }
    }
}

/// Both fields of the message lie within their bit widths.
pub open spec fn fits(m: BittideMessage) -> bool {
    match m {
        BittideMessage::SyncMessage => true,
        BittideMessage::CommMessage { neighbor, data } => neighbor < 8 && data <= 0x0fff_ffffu32,
    }
}

/// The message as the receiver files it: a data word takes the index of the
/// link it arrived on, whatever the sender wrote; a filler stays a filler.
pub open spec fn retagged(m: BittideMessage, link: u8) -> BittideMessage {
    match m {
        BittideMessage::SyncMessage => BittideMessage::SyncMessage,
        BittideMessage::CommMessage { neighbor, data } => BittideMessage::CommMessage {
            neighbor: link,
            data,
        },
    }
}

impl BittideMessage {
    /// Packs the message into its wire word.
    pub fn serialize(self) -> (raw: u32)
        ensures
            raw == encoded(self),
            (self is SyncMessage) <==> raw == SYNC_WORD,
    {
        match self {
            BittideMessage::SyncMessage => 0b0001,
            BittideMessage::CommMessage { neighbor, data } => {
                let data: u32 = data & 0x0fff_ffff;
                let neighbor: u8 = neighbor & 0b111;
                let low: u32 = (neighbor as u32) << 1;
                let raw: u32 = low | (data << 4);
                proof {
                    let n: u32 = neighbor as u32;
                    assert(((n << 1u32) | (data << 4u32)) != 1u32) by (bit_vector);
                }
                raw
            },
        }
    }

    /// Unpacks a wire word. Every word decodes: only the sync word gives the
    /// filler, any other is taken as data.
    pub fn deserialize(raw: u32) -> (m: Self)
        ensures
            m == decoded(raw),
            fits(m),
            (m is SyncMessage) <==> raw == SYNC_WORD,
    {
        if raw == 0b0001 {
            BittideMessage::SyncMessage
        } else {
            let data: u32 = (raw >> 4) & 0x0fff_ffff;
            let field: u32 = (raw >> 1) & 0b111;
            assert(field < 8) by (bit_vector)
                requires
                    field == (raw >> 1u32) & 0b111u32,
            ;
            assert(data <= 0x0fff_ffffu32) by (bit_vector)
                requires
                    data == (raw >> 4u32) & 0x0fff_ffffu32,
            ;
            let neighbor: u8 = field as u8;
            BittideMessage::CommMessage { neighbor, data }
        }
    }

    /// The message as filed by the receiver on link `link`.
    pub fn received_on(self, link: u8) -> (m: Self)
        ensures
            m == retagged(self, link),
            (m is SyncMessage) <==> (self is SyncMessage),
            m matches BittideMessage::CommMessage { neighbor, .. } ==> neighbor == link,
    {
        match self {
            BittideMessage::SyncMessage => BittideMessage::SyncMessage,
            BittideMessage::CommMessage { neighbor: _, data } => BittideMessage::CommMessage {
                neighbor: link,
                data,
            },
        }
    }
}

/// Decoding undoes encoding for every message whose fields lie within their
/// widths: the filler comes back as the filler, a data word with its
/// neighbour and payload unchanged.
pub proof fn lemma_decode_encode(m: BittideMessage)
    requires
        fits(m),
    ensures
        decoded(encoded(m)) == m,
{
    match m {
        BittideMessage::SyncMessage => {},
        BittideMessage::CommMessage { neighbor, data } => {
            let n: u32 = (neighbor & 0b111u8) as u32;
            let nn: u32 = neighbor as u32;
            assert(n == nn) by (bit_vector)
                requires
                    neighbor < 8,
                    n == (neighbor & 0b111u8) as u32,
                    nn == neighbor as u32,
            ;
            let raw: u32 = (n << 1u32) | ((data & 0x0fff_ffffu32) << 4u32);
            assert(raw != 1u32 && ((raw >> 1u32) & 0b111u32) == n && ((raw >> 4u32)
                & 0x0fff_ffffu32) == data) by (bit_vector)
                requires
                    n < 8,
                    data <= 0x0fff_ffffu32,
                    raw == (n << 1u32) | ((data & 0x0fff_ffffu32) << 4u32),
            ;
        },
    }
}

/// Outside their widths the fields are cut, never refused: encoding a
/// message gives the word of the message with both fields masked.
pub proof fn lemma_encode_masks(neighbor: u8, data: u32)
    ensures
        fits(
            BittideMessage::CommMessage {
                neighbor: neighbor & 0b111u8,
                data: data & 0x0fff_ffffu32,
            },
        ),
        encoded(BittideMessage::CommMessage { neighbor, data }) == encoded(
            BittideMessage::CommMessage {
                neighbor: neighbor & 0b111u8,
                data: data & 0x0fff_ffffu32,
            },
        ),
        decoded(encoded(BittideMessage::CommMessage { neighbor, data }))
            == (BittideMessage::CommMessage {
            neighbor: neighbor & 0b111u8,
            data: data & 0x0fff_ffffu32,
        }),
{
    let n: u8 = neighbor & 0b111u8;
    let d: u32 = data & 0x0fff_ffffu32;
    assert(n < 8 && (n & 0b111u8) == n) by (bit_vector)
        requires
            n == neighbor & 0b111u8,
    ;
    assert(d <= 0x0fff_ffffu32 && (d & 0x0fff_ffffu32) == d) by (bit_vector)
        requires
            d == data & 0x0fff_ffffu32,
    ;
    lemma_decode_encode(BittideMessage::CommMessage { neighbor: n, data: d });
}

/// A data word never encodes to the sync word, and every word that is not
/// the sync word decodes to data.
pub proof fn lemma_tag_exclusive(m: BittideMessage)
    ensures
        (encoded(m) == 1u32) <==> (m is SyncMessage),
{
    match m {
        BittideMessage::SyncMessage => {},
        BittideMessage::CommMessage { neighbor, data } => {
            let n: u32 = (neighbor & 0b111u8) as u32;
            let d: u32 = data & 0x0fff_ffffu32;
            assert(((n << 1u32) | (d << 4u32)) != 1u32) by (bit_vector);
        },
    }
}

} // verus!
