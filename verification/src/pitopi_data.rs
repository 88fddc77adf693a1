//! The data word of the serial transport and the values that fit in it.
//!
//! The transport keeps three bits of every word for itself, so a word
//! carries 29 bits. The largest such word stands for "no value".

use vstd::prelude::*;
use crate::state_machine::{SurfDeserialize, SurfSerialize};

verus! {

/// The number of data bits in a word.
pub const PITOPI_DATA_WIDTH: usize = 29;

/// The largest data word, which stands for "no value" where one may be
/// missing.
pub const PITOPI_NONE: u32 = 0x1fff_ffff;

/// One data word.
#[derive(Debug, Clone, Copy, PartialEq, Eq, Structural)]
pub struct PitopiData(pub u32);

impl SurfSerialize<PitopiData> for u32 {
    /// A number has a word if it fits in 29 bits.
    open spec fn serialized(&self) -> Option<PitopiData> {
        if *self > 0x1fff_ffffu32 {
            None
        } else {
            Some(PitopiData(*self))
        }
    }

    fn serialize(&self) -> (word: Option<PitopiData>) {
        if *self > 0x1fff_ffff {
            None
        } else {
            Some(PitopiData(*self))
        }
    }
}

impl SurfDeserialize<PitopiData> for u32 {
    /// A word has a number if it fits in 29 bits.
    open spec fn deserialized(word: PitopiData) -> Option<u32> {
        if word.0 > 0x1fff_ffffu32 {
            None
        } else {
            Some(word.0)
        }
    }

    fn deserialize(word: PitopiData) -> (value: Option<u32>) {
        if word.0 > 0x1fff_ffff {
            None
        } else {
            let bits: u32 = word.0;
            let low: u32 = bits & 0x1fff_ffff;
            assert(low == bits) by (bit_vector)
                requires
                    bits <= 0x1fff_ffffu32,
                    low == bits & 0x1fff_ffffu32,
            ;
            Some(low)
        }
    }
}

impl<T: SurfSerialize<PitopiData>> SurfSerialize<PitopiData> for Option<T> {
    /// A missing value has the largest word; a value has its own word unless
    /// that is at or beyond the largest.
    open spec fn serialized(&self) -> Option<PitopiData> {
        match *self {
            Some(t) => match t.serialized() {
                Some(word) => if word.0 >= 0x1fff_ffffu32 {
                    None
                } else {
                    Some(word)
                },
                None => None,
            },
            None => Some(PitopiData(0x1fff_ffffu32)),
        }
    }

    fn serialize(&self) -> (word: Option<PitopiData>) {
        match self {
            Some(t) => match t.serialize() {
                Some(serialized) => if serialized.0 >= 0x1fff_ffff {
                    None
                } else {
                    Some(serialized)
                },
                None => None,
            },
            None => Some(PitopiData(0x1fff_ffff)),
        }
    }
}

impl<T: SurfDeserialize<PitopiData>> SurfDeserialize<PitopiData> for Option<T> {
    /// The largest word is a missing value; any other word is whatever
    /// value it has.
    open spec fn deserialized(word: PitopiData) -> Option<Option<T>> {
        if word.0 == 0x1fff_ffffu32 {
            Some(None)
        } else {
            match T::deserialized(word) {
                Some(value) => Some(Some(value)),
                None => None,
            }
        }
    }

    fn deserialize(word: PitopiData) -> (value: Option<Option<T>>) {
        if word.0 == 0x1fff_ffff {
            Some(None)
        } else {
            match T::deserialize(word) {
                Some(deserialized) => Some(Some(deserialized)),
                None => None,
            }
        }
    }
}

/// A number that fits in 29 bits comes back from its word unchanged.
pub proof fn lemma_number_round_trip(n: u32)
    requires
        n <= 0x1fff_ffffu32,
    ensures
        n.serialized() matches Some(word) && <u32 as SurfDeserialize<PitopiData>>::deserialized(
            word,
        ) == Some(n),
{
}

/// A number that may be missing comes back from its word unchanged, as long
/// as the number, where there is one, is below the largest word.
pub proof fn lemma_optional_round_trip(n: Option<u32>)
    requires
        n matches Some(v) ==> v < 0x1fff_ffffu32,
    ensures
        n.serialized() matches Some(word) && <Option<u32> as SurfDeserialize<
            PitopiData,
        >>::deserialized(word) == Some(n),
{
}

} // verus!
