//! The handshake: one read on a fresh connection decides the client's family
//! or rejects the client.

use super::{ClientType, IoError, ReadEvent};
use crate::proto::catalog::{frame_decoding, Disconnect, DisconnectView, PacketView};
use crate::proto::cursor::ByteCursor;
use crate::proto::error::ProtocolError;
use crate::proto::packet::Packet;
use crate::proto::ProtocolPacket;
use vstd::prelude::*;
use vstd::string::{StrSliceExecFns, StringExecFns};

verus! {

/// How long, in seconds, the bridge waits for a client's first packet.
pub const HANDSHAKE_DEADLINE_SECS: u64 = 5;

/// Why a handshake was rejected.
#[derive(Debug, Clone, PartialEq, Eq)]
pub enum HandshakeError {
    /// The client's brand starts with no family that the bridge knows.
    UnsupportedBrand(String),
    /// The client's first packet was not `Connect`.
    UnexpectedPacket,
    /// The read brought nothing to decode.
    IoFailure(IoError),
    /// The client's first bytes are no packet.
    Malformed(ProtocolError),
}

/// The start of every brand of the Terraria family.
pub open spec fn terraria_prefix() -> Seq<char> {
    "TModLoader"@
}

/// The start of every brand of the Minecraft family.
pub open spec fn minecraft_prefix() -> Seq<char> {
    "Minecraft"@
}

/// The family that a brand announces, if the bridge knows it.
pub open spec fn brand_family(brand: Seq<char>) -> Option<ClientType> {
    if terraria_prefix().is_prefix_of(brand) {
        Some(ClientType::Terraria)
    } else if minecraft_prefix().is_prefix_of(brand) {
        Some(ClientType::Minecraft)
    } else {
        None
    }
}

/// Whether `text` starts with `prefix`.
pub fn starts_with(text: &str, prefix: &str) -> (found: bool)
    ensures
        found == prefix@.is_prefix_of(text@),
{
    let wanted = prefix.unicode_len();
    if text.unicode_len() < wanted {
        return false;
    }
    let mut i: usize = 0;
    while i < wanted
        invariant
            i <= wanted,
            wanted == prefix@.len(),
            wanted <= text@.len(),
            forall|j: int| 0 <= j < i ==> prefix@[j] == text@[j],
        decreases wanted - i,
    {
        if prefix.get_char(i) != text.get_char(i) {
            assert(prefix@[i as int] != text@.subrange(0, prefix@.len() as int)[i as int]);
            return false;
        }
        i = i + 1;
    }
    assert(prefix@ =~= text@.subrange(0, prefix@.len() as int));
    true
}

/// The family that `brand` announces, if the bridge knows it.
pub fn classify_brand(brand: &str) -> (family: Option<ClientType>)
    ensures
        family == brand_family(brand@),
{
    if starts_with(brand, "TModLoader") {
        Some(ClientType::Terraria)
    } else if starts_with(brand, "Minecraft") {
        Some(ClientType::Minecraft)
    } else {
        None
    }
}

/// Whether `outcome` is what the handshake makes of `packet` as a client's
/// first packet: `Connect` with a known brand gives the family; `Connect`
/// with another brand is `UnsupportedBrand` and carries the brand; every
/// other packet is `UnexpectedPacket`.
pub open spec fn classifies(packet: PacketView, outcome: Result<ClientType, HandshakeError>) -> bool {
    match packet {
        PacketView::Connect(connect) => match brand_family(connect.brand) {
            Some(family) => outcome == Ok::<ClientType, HandshakeError>(family),
            None => outcome matches Err(HandshakeError::UnsupportedBrand(brand)) && brand@
                == connect.brand,
        },
        _ => outcome == Err::<ClientType, HandshakeError>(HandshakeError::UnexpectedPacket),
    }
}

/// Whether `outcome` is what the handshake makes of the one read `event`.
/// A read that timed out, failed or brought no bytes is an `IoFailure`;
/// bytes that are no packet are `Malformed`; a packet is classified.
pub open spec fn negotiates(event: ReadEvent, outcome: Result<ClientType, HandshakeError>) -> bool {
    match event {
        ReadEvent::TimedOut => outcome == Err::<ClientType, HandshakeError>(
            HandshakeError::IoFailure(IoError::Timeout),
        ),
        ReadEvent::Failed => outcome == Err::<ClientType, HandshakeError>(
            HandshakeError::IoFailure(IoError::ConnectionReset),
        ),
        ReadEvent::Data(bytes) => if bytes@.len() == 0 {
            outcome == Err::<ClientType, HandshakeError>(
                HandshakeError::IoFailure(IoError::ZeroByteRead),
            )
        } else {
            match frame_decoding(bytes@).outcome {
                Ok(packet) => classifies(packet, outcome),
                Err(error) => outcome == Err::<ClientType, HandshakeError>(
                    HandshakeError::Malformed(error),
                ),
            }
        },
    }
}

/// Classifies a client by its first packet.
pub fn classify(packet: ProtocolPacket) -> (outcome: Result<ClientType, HandshakeError>)
    ensures
        classifies(packet@, outcome),
{
    match packet {
        ProtocolPacket::Connect(connect) => match classify_brand(connect.brand.as_str()) {
            Some(family) => Ok(family),
            None => Err(HandshakeError::UnsupportedBrand(connect.brand)),
        },
        _ => Err(HandshakeError::UnexpectedPacket),
    }
}

/// Decides a handshake from the one read that it is allowed.
pub fn negotiate(event: ReadEvent) -> (outcome: Result<ClientType, HandshakeError>)
    ensures
        negotiates(event, outcome),
{
    match event {
        ReadEvent::TimedOut => Err(HandshakeError::IoFailure(IoError::Timeout)),
        ReadEvent::Failed => Err(HandshakeError::IoFailure(IoError::ConnectionReset)),
        ReadEvent::Data(bytes) => {
            if bytes.len() == 0 {
                return Err(HandshakeError::IoFailure(IoError::ZeroByteRead));
            }
            let mut cursor = ByteCursor::new(bytes);
            match ProtocolPacket::read(&mut cursor) {
                Ok(packet) => classify(packet),
                Err(error) => Err(HandshakeError::Malformed(error)),
            }
        },
    }
}

/// Where a connection stands in its handshake.
#[derive(Debug, Clone, PartialEq, Eq)]
pub enum HandshakeState {
    /// Nothing has been read yet.
    AwaitingConnect,
    /// The client belongs to a family; its connection goes to the registry.
    Classified(ClientType),
    /// The client is turned away; nothing more is read from it.
    Rejected(HandshakeError),
}

impl HandshakeState {
    /// The outcome that a state stands for, once the handshake is over.
    pub open spec fn verdict(self) -> Option<Result<ClientType, HandshakeError>> {
        match self {
            HandshakeState::AwaitingConnect => None,
            HandshakeState::Classified(family) => Some(Ok(family)),
            HandshakeState::Rejected(error) => Some(Err(error)),
        }
    }

    /// The state after the read `event`. A handshake that waits is decided by
    /// it; one that is over stays as it is.
    pub fn on_read(self, event: ReadEvent) -> (next: HandshakeState)
        ensures
            self is AwaitingConnect ==> (next.verdict() matches Some(outcome) && negotiates(
                event,
                outcome,
            )),
            !(self is AwaitingConnect) ==> next == self,
    {
        match self {
            HandshakeState::AwaitingConnect => match negotiate(event) {
                Ok(family) => HandshakeState::Classified(family),
                Err(error) => HandshakeState::Rejected(error),
            },
            over => over,
        }
    }
}

impl HandshakeError {
    /// The text that describes the failure to the client.
    pub open spec fn spec_message(self) -> Seq<char> {
        match self {
            HandshakeError::UnsupportedBrand(_) => "Invalid brand!"@,
            HandshakeError::UnexpectedPacket => "Invalid packet!"@,
            HandshakeError::IoFailure(error) => error.spec_message(),
            HandshakeError::Malformed(error) => error.spec_message(),
        }
    }

    /// The text that describes the failure to the client.
    pub fn message(&self) -> (text: &'static str)
        ensures
            text@ == self.spec_message(),
    {
        match self {
            HandshakeError::UnsupportedBrand(_) => "Invalid brand!",
            HandshakeError::UnexpectedPacket => "Invalid packet!",
            HandshakeError::IoFailure(error) => error.message(),
            HandshakeError::Malformed(error) => error.message(),
        }
    }
}

/// The reason that a client is given when its handshake is rejected.
pub open spec fn rejection_reason(error: HandshakeError) -> Seq<char> {
    "Invalid connection sequence: "@ + error.spec_message()
}

/// The packet that tells a client why its handshake was rejected.
pub fn rejection_notice(error: &HandshakeError) -> (notice: ProtocolPacket)
    ensures
        notice@ == PacketView::Disconnect(DisconnectView { reason: rejection_reason(*error) }),
{
    let reason = String::from_str("Invalid connection sequence: ").concat(error.message());
    ProtocolPacket::Disconnect(Disconnect { reason })
}

/// No brand announces both families.
pub proof fn lemma_families_are_distinct(brand: Seq<char>)
    ensures
        !(terraria_prefix().is_prefix_of(brand) && minecraft_prefix().is_prefix_of(brand)),
{
    reveal_strlit("TModLoader");
    reveal_strlit("Minecraft");
    if terraria_prefix().is_prefix_of(brand) && minecraft_prefix().is_prefix_of(brand) {
        assert(brand[0] == terraria_prefix()[0]);
        assert(brand[0] == minecraft_prefix()[0]);
    }
}

/// A brand that is a family's prefix followed by anything announces that
/// family.
pub proof fn lemma_prefix_decides_family(rest: Seq<char>)
    ensures
        brand_family(minecraft_prefix() + rest) == Some(ClientType::Minecraft),
        brand_family(terraria_prefix() + rest) == Some(ClientType::Terraria),
{
    let minecraft = minecraft_prefix() + rest;
    let terraria = terraria_prefix() + rest;
    assert(minecraft.subrange(0, minecraft_prefix().len() as int) =~= minecraft_prefix());
    assert(terraria.subrange(0, terraria_prefix().len() as int) =~= terraria_prefix());
    lemma_families_are_distinct(minecraft);
}

/// Only `Connect` classifies: every other first packet is rejected as
/// unexpected, and a `Connect` is never rejected as unexpected.
pub proof fn lemma_only_connect_classifies(
    packet: PacketView,
    outcome: Result<ClientType, HandshakeError>,
)
    requires
        classifies(packet, outcome),
    ensures
        !(packet is Connect) ==> outcome == Err::<ClientType, HandshakeError>(
            HandshakeError::UnexpectedPacket,
        ),
        packet is Connect ==> outcome is Ok || outcome matches Err(
            HandshakeError::UnsupportedBrand(_),
        ),
        outcome matches Ok(family) ==> packet matches PacketView::Connect(connect)
            && brand_family(connect.brand) == Some(family),
{
}

/// A handshake succeeds only on a read that brought a `Connect` frame; a
/// read that timed out or failed is always an `IoFailure`.
pub proof fn lemma_family_needs_connect_frame(
    event: ReadEvent,
    outcome: Result<ClientType, HandshakeError>,
)
    requires
        negotiates(event, outcome),
    ensures
        event is TimedOut || event is Failed ==> outcome matches Err(
            HandshakeError::IoFailure(_),
        ),
        outcome is Ok ==> (event matches ReadEvent::Data(bytes) && (bytes@.len() > 0 && (
        frame_decoding(bytes@).outcome matches Ok(packet) && packet is Connect))),
{
}

} // verus!
