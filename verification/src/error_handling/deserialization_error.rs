//! Errors of the decoders.

use vstd::prelude::*;

verus! {

/// Why a hexadecimal text could not be decoded.
#[derive(Debug, Clone, Copy, PartialEq, Eq, Structural)]
pub enum HexDecodeError {
    /// A byte that is not one of `0-9`, `a-f`, `A-F`, with its position.
    InvalidHexCharacter { c: char, index: usize },
    /// The text has an odd number of digits.
    OddLength,
    /// The text does not fit the fixed size it is decoded into.
    InvalidStringLength,
}

/// Why a Beast frame could not be decoded.
#[derive(Debug, Clone, Copy, PartialEq, Eq, Structural)]
pub enum BeastFrameError {
    /// The input ended before the frame did.
    Incomplete,
    /// The first byte is not the id of a Beast message type.
    UnknownMessageType(u8),
}

/// Why an input could not be decoded.
#[derive(Debug, Clone, Copy, PartialEq, Eq, Structural)]
pub enum DeserializationError {
    HexError(HexDecodeError),
    BeastError(BeastFrameError),
}

/// The result of a decoder.
pub type MessageResult<T> = Result<T, DeserializationError>;

} // verus!
