//! The transmitters: one for each direction of a pair. A transmitter holds
//! the two queue ends of its direction and sees every packet that passes.

use super::relay::RelayError;
use super::ClientType;
use crate::opt::BridgeOptions;
use crate::proto::catalog::PacketView;
use crate::proto::ProtocolPacket;
use flume::{Receiver, Sender};
use vstd::prelude::*;

verus! {

/// The sending end of a `flume` channel. Nothing is known of what it holds.
#[verifier::external_type_specification]
#[verifier::external_body]
#[verifier::reject_recursive_types(T)]
pub struct ExSender<T>(Sender<T>);

/// The receiving end of a `flume` channel. Nothing is known of what it holds.
#[verifier::external_type_specification]
#[verifier::external_body]
#[verifier::reject_recursive_types(T)]
pub struct ExReceiver<T>(Receiver<T>);

/// The number of packets that the channel behind `end` holds at most, as
/// `Sender::capacity` of `flume` reports it: `None` for a channel without a
/// bound. A channel keeps the capacity that it was made with.
pub uninterp spec fn sender_capacity(end: Sender<ProtocolPacket>) -> Option<usize>;

/// `flume::bounded`: a new channel that holds at most `capacity` packets,
/// as its two ends. Its sending end reports that capacity.
#[verifier::external_body]
fn bounded_queue(capacity: usize) -> (ends: (Sender<ProtocolPacket>, Receiver<ProtocolPacket>))
    ensures
        sender_capacity(ends.0) == Some(capacity),
{
    flume::bounded(capacity)
}

/// `Sender::capacity` of `flume`: the bound of the channel behind `end`.
#[verifier::external_body]
fn capacity_of(end: &Sender<ProtocolPacket>) -> (capacity: Option<usize>)
    ensures
        capacity == sender_capacity(*end),
{
    end.capacity()
}

/// One direction of a pair: from the clients of `source` to their peer.
pub trait Transmitter: Sized {
    /// The family whose packets pass through.
    spec fn source(&self) -> ClientType;

    /// The end through which packets leave for the peer's queue.
    spec fn outbound(&self) -> Sender<ProtocolPacket>;

    /// The end through which the packets for this side arrive.
    spec fn inbound(&self) -> Receiver<ProtocolPacket>;

    /// What the transmitter makes of a packet before it is forwarded.
    spec fn processed(&self, packet: PacketView) -> Result<PacketView, RelayError>;

    /// A transmitter over the two ends of its direction.
    fn new(to_tx: Sender<ProtocolPacket>, from_rx: Receiver<ProtocolPacket>) -> (transmitter: Self)
        ensures
            transmitter.outbound() == to_tx,
            transmitter.inbound() == from_rx,
    ;

    /// Looks at a packet, and may change or refuse it, before it is forwarded.
    fn process(&self, packet: ProtocolPacket) -> (result: Result<ProtocolPacket, RelayError>)
        ensures
            match self.processed(packet@) {
                Ok(value) => result matches Ok(passed) && passed@ == value,
                Err(error) => result matches Err(e) && e == error,
            },
    ;

    /// The end to send processed packets through.
    fn sender(&self) -> (end: &Sender<ProtocolPacket>)
        ensures
            *end == self.outbound(),
    ;

    /// The end to take this side's packets from.
    fn receiver(&self) -> (end: &Receiver<ProtocolPacket>)
        ensures
            *end == self.inbound(),
    ;

    /// The family whose packets pass through.
    fn source_family(&self) -> (family: ClientType)
        ensures
            family == self.source(),
    ;

    /// How many packets may wait on the way to the peer before the reader of
    /// this side has to wait itself; `None` when nothing bounds them.
    fn backlog_limit(&self) -> (limit: Option<usize>)
        ensures
            limit == sender_capacity(self.outbound()),
    ;
}

/// The transmitter from the Minecraft client to the Terraria client. It
/// passes every packet on as it is.
pub struct TransmitterMT {
    terraria_tx: Sender<ProtocolPacket>,
    minecraft_rx: Receiver<ProtocolPacket>,
}

/// The transmitter from the Terraria client to the Minecraft client. It
/// passes every packet on as it is.
pub struct TransmitterTM {
    minecraft_tx: Sender<ProtocolPacket>,
    terraria_rx: Receiver<ProtocolPacket>,
}

impl Transmitter for TransmitterMT {
    open spec fn source(&self) -> ClientType {
        ClientType::Minecraft
    }

    closed spec fn outbound(&self) -> Sender<ProtocolPacket> {
        self.terraria_tx
    }

    closed spec fn inbound(&self) -> Receiver<ProtocolPacket> {
        self.minecraft_rx
    }

    open spec fn processed(&self, packet: PacketView) -> Result<PacketView, RelayError> {
        Ok(packet)
    }

    fn new(to_tx: Sender<ProtocolPacket>, from_rx: Receiver<ProtocolPacket>) -> (transmitter:
        Self) {
        Self { terraria_tx: to_tx, minecraft_rx: from_rx }
    }

    fn process(&self, packet: ProtocolPacket) -> (result: Result<ProtocolPacket, RelayError>) {
        Ok(packet)
    }

    fn sender(&self) -> (end: &Sender<ProtocolPacket>) {
        &self.terraria_tx
    }

    fn receiver(&self) -> (end: &Receiver<ProtocolPacket>) {
        &self.minecraft_rx
    }

    fn source_family(&self) -> (family: ClientType) {
        ClientType::Minecraft
    }

    fn backlog_limit(&self) -> (limit: Option<usize>) {
        capacity_of(&self.terraria_tx)
    }
}

impl Transmitter for TransmitterTM {
    open spec fn source(&self) -> ClientType {
        ClientType::Terraria
    }

    closed spec fn outbound(&self) -> Sender<ProtocolPacket> {
        self.minecraft_tx
    }

    closed spec fn inbound(&self) -> Receiver<ProtocolPacket> {
        self.terraria_rx
    }

    open spec fn processed(&self, packet: PacketView) -> Result<PacketView, RelayError> {
        Ok(packet)
    }

    fn new(to_tx: Sender<ProtocolPacket>, from_rx: Receiver<ProtocolPacket>) -> (transmitter:
        Self) {
        Self { minecraft_tx: to_tx, terraria_rx: from_rx }
    }

    fn process(&self, packet: ProtocolPacket) -> (result: Result<ProtocolPacket, RelayError>) {
        Ok(packet)
    }

    fn sender(&self) -> (end: &Sender<ProtocolPacket>) {
        &self.minecraft_tx
    }

    fn receiver(&self) -> (end: &Receiver<ProtocolPacket>) {
        &self.terraria_rx
    }

    fn source_family(&self) -> (family: ClientType) {
        ClientType::Terraria
    }

    fn backlog_limit(&self) -> (limit: Option<usize>) {
        capacity_of(&self.minecraft_tx)
    }
}

/// The two transmitters of a pair, joined by two new queues: what one sends
/// the other receives. Each queue holds at most `opts.packet_bounds` packets.
pub fn link(opts: &BridgeOptions) -> (pair: (TransmitterMT, TransmitterTM))
    ensures
        sender_capacity(pair.0.outbound()) == Some(opts.packet_bounds),
        sender_capacity(pair.1.outbound()) == Some(opts.packet_bounds),
{
    let (terraria_tx, terraria_rx) = bounded_queue(opts.packet_bounds);
    let (minecraft_tx, minecraft_rx) = bounded_queue(opts.packet_bounds);
    (
        TransmitterMT::new(terraria_tx, minecraft_rx),
        TransmitterTM::new(minecraft_tx, terraria_rx),
    )
}

} // verus!
