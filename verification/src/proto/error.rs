//! Failures of the wire codec.

use vstd::prelude::*;

verus! {

/// Why a byte stream could not be decoded, or a value could not be encoded.
#[derive(Debug, Clone, Copy, PartialEq, Eq, Structural)]
pub enum ProtocolError {
    /// The frame starts with a byte that the packet catalog does not list.
    UnknownOpcode(u8),
    /// A string is longer than the wire format allows, or declares such a length.
    OversizedString,
    /// The bytes of a string field are not UTF-8.
    InvalidUtf8,
    /// The input ends before the field does.
    MalformedField,
}

impl ProtocolError {
    /// The text that describes the failure to a client.
    pub open spec fn spec_message(self) -> Seq<char> {
        match self {
            ProtocolError::UnknownOpcode(_) => "Invalid packet ID!"@,
            ProtocolError::OversizedString => "String buffer overflow!"@,
            ProtocolError::InvalidUtf8 => "Invalid UTF-8!"@,
            ProtocolError::MalformedField => "Unexpected end of packet!"@,
        }
    }

    /// The text that describes the failure to a client.
    pub fn message(self) -> (text: &'static str)
        ensures
            text@ == self.spec_message(),
    {
        match self {
            ProtocolError::UnknownOpcode(_) => "Invalid packet ID!",
            ProtocolError::OversizedString => "String buffer overflow!",
            ProtocolError::InvalidUtf8 => "Invalid UTF-8!",
            ProtocolError::MalformedField => "Unexpected end of packet!",
        }
    }
}

} // verus!
