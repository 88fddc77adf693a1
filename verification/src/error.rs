//! What can go wrong in a tick, and its one-word code for telemetry.

use vstd::prelude::*;

verus! {

/// The failures of a tick.
#[derive(Debug, Clone, Copy, PartialEq, Eq, Structural)]
pub enum BittideChannelControlError {
    /// A result code that names no known outcome.
    DecodeError,
    /// The local producer handed over the sync word.
    SyncMessageFromUserCode,
    /// The local producer addressed a link that does not exist.
    InvalidNeigbor,
    /// An elastic buffer was full when a received message had to go in.
    TideFifoFull,
    /// The frequency controller could not apply its correction.
    FrequenceControllerError,
}

/// The code of a result.
pub open spec fn result_code(result: Result<(), BittideChannelControlError>) -> u32 {
    match result {
        Ok(_) => 0u32,
        Err(BittideChannelControlError::DecodeError) => 1u32,
        Err(BittideChannelControlError::SyncMessageFromUserCode) => 2u32,
        Err(BittideChannelControlError::InvalidNeigbor) => 3u32,
        Err(BittideChannelControlError::TideFifoFull) => 4u32,
        Err(BittideChannelControlError::FrequenceControllerError) => 5u32,
    }
}

/// The result that a code stands for. Every code outside the table,
/// and the code 1 itself, reads as a decode error.
pub open spec fn code_result(value: u32) -> Result<(), BittideChannelControlError> {
    if value == 0 {
        Ok(())
    } else if value == 2 {
        Err(BittideChannelControlError::SyncMessageFromUserCode)
    } else if value == 3 {
        Err(BittideChannelControlError::InvalidNeigbor)
    } else if value == 4 {
        Err(BittideChannelControlError::TideFifoFull)
    } else if value == 5 {
        Err(BittideChannelControlError::FrequenceControllerError)
    } else {
        Err(BittideChannelControlError::DecodeError)
    }
}

impl BittideChannelControlError {
    /// The code of a result: 0 for success, 1 to 5 for the failures.
    pub fn encode(result: Result<(), Self>) -> (value: u32)
        ensures
            value == result_code(result),
            value <= 5,
            value == 0 <==> result is Ok,
    {
        match result {
            Ok(()) => 0,
            Err(Self::DecodeError) => 1,
            Err(Self::SyncMessageFromUserCode) => 2,
            Err(Self::InvalidNeigbor) => 3,
            Err(Self::TideFifoFull) => 4,
            Err(Self::FrequenceControllerError) => 5,
        }
    }

    /// The result behind a code.
    pub fn decode(value: u32) -> (result: Result<(), Self>)
        ensures
            result == code_result(value),
            result is Ok <==> value == 0,
    {
        match value {
            0 => Ok(()),
            2 => Err(Self::SyncMessageFromUserCode),
            3 => Err(Self::InvalidNeigbor),
            4 => Err(Self::TideFifoFull),
            5 => Err(Self::FrequenceControllerError),
            _ => Err(Self::DecodeError),
        }
    }
}

/// Every result survives the way through its code.
pub proof fn lemma_code_round_trip(result: Result<(), BittideChannelControlError>)
    ensures
        code_result(result_code(result)) == result,
{
    match result {
        Ok(unit) => {
            assert(unit == ());
        },
        Err(_) => {},
    }
}

/// A code survives the way through its result exactly when it is one of the
/// six codes of the table; any other comes back as 1.
pub proof fn lemma_result_round_trip(value: u32)
    ensures
        value <= 5 ==> result_code(code_result(value)) == value,
        value > 5 ==> result_code(code_result(value)) == 1,
{
}

} // verus!
