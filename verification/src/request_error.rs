//! The errors that decoding a client's message can end in.

use vstd::prelude::*;

verus! {

/// Why a message was rejected. Every error is final for the message it was
/// found in: nothing in this crate retries.
#[derive(Copy, Clone, Eq, PartialEq, Debug, Structural)]
pub enum RequestError {
    /// The version byte is not the one this crate speaks.
    UnsupportedVersion(u8),
    /// The command code names none of the known commands.
    CommandNotSupported(u8),
    /// The address tag names none of the known address kinds.
    AddressTypeNotSupported(u8),
    /// The buffer ends before the structure that is being read from it does.
    PacketTooShort,
    /// The buffer has not the length that the number of methods in it
    /// announces.
    LengthMismatch { received: usize, expected: usize },
    /// The reply code names none of the known reply types.
    ReplyTypeNotSupported(u8),
}

} // verus!
