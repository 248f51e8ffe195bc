//! Clients of the bridge: their two families, the handshake that tells them
//! apart, and the steps of the relay between a paired couple.

pub mod brand;
pub mod handshake;
pub mod relay;
pub mod transmitter;

pub use transmitter::{Transmitter, TransmitterMT, TransmitterTM};

use vstd::prelude::*;

verus! {

/// The family that a client belongs to, fixed once by its handshake.
#[derive(Debug, Copy, Clone, PartialEq, Eq, Structural)]
pub enum ClientType {
    Terraria,
    Minecraft,
}

impl ClientType {
    /// The family on the other side of the bridge.
    pub open spec fn spec_peer(self) -> ClientType {
        match self {
            ClientType::Terraria => ClientType::Minecraft,
            ClientType::Minecraft => ClientType::Terraria,
        }
    }

    /// The family on the other side of the bridge.
    #[verifier::when_used_as_spec(spec_peer)]
    pub fn peer(self) -> (other: ClientType)
        ensures
            other == self.spec_peer(),
    {
        match self {
            ClientType::Terraria => ClientType::Minecraft,
            ClientType::Minecraft => ClientType::Terraria,
        }
    }

    /// The family's name as the bridge prints it.
    pub open spec fn spec_name(self) -> Seq<char> {
        match self {
            ClientType::Terraria => "Terraria"@,
            ClientType::Minecraft => "Minecraft"@,
        }
    }

    /// The family's name as the bridge prints it.
    pub fn name(self) -> (name: &'static str)
        ensures
            name@ == self.spec_name(),
    {
        match self {
            ClientType::Terraria => "Terraria",
            ClientType::Minecraft => "Minecraft",
        }
    }
}

/// Why a read on a client's socket gave no packet.
#[derive(Debug, Copy, Clone, PartialEq, Eq, Structural)]
pub enum IoError {
    /// The read returned no bytes: the client has closed its side.
    ZeroByteRead,
    /// The socket failed.
    ConnectionReset,
    /// Nothing arrived before the deadline.
    Timeout,
}

impl IoError {
    /// The text that describes the failure to a client.
    pub open spec fn spec_message(self) -> Seq<char> {
        match self {
            IoError::ZeroByteRead => "Read 0 bytes!"@,
            IoError::ConnectionReset => "Connection reset!"@,
            IoError::Timeout => "Deadline has elapsed!"@,
        }
    }

    /// The text that describes the failure to a client.
    pub fn message(self) -> (text: &'static str)
        ensures
            text@ == self.spec_message(),
    {
        match self {
            IoError::ZeroByteRead => "Read 0 bytes!",
            IoError::ConnectionReset => "Connection reset!",
            IoError::Timeout => "Deadline has elapsed!",
        }
    }
}

/// What one bounded read on a client's socket brought.
#[derive(Debug, Clone, PartialEq, Eq)]
pub enum ReadEvent {
    /// The bytes that were read; none when the client has closed its side.
    Data(Vec<u8>),
    /// The deadline passed first.
    TimedOut,
    /// The socket failed.
    Failed,
}

} // verus!
