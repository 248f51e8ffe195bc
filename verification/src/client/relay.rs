//! The relay between a paired couple, one step at a time. The reader of a
//! connection turns what a read brought into the packet to forward; the
//! writer turns what its queue gave into the frame to send.

use super::transmitter::{Transmitter, TransmitterMT, TransmitterTM};
use super::{IoError, ReadEvent};
use crate::proto::catalog::{
    frame_decoding, frame_encoding, lemma_frame_reencodes, lemma_frame_round_trip, PacketView,
};
use crate::proto::error::ProtocolError;
use crate::proto::ProtocolPacket;
use vstd::prelude::*;

verus! {

/// How long, in seconds, a relay waits for the next packet of its client.
pub const RELAY_DEADLINE_SECS: u64 = 6;

/// Why a relay loop ended.
#[derive(Debug, Copy, Clone, PartialEq, Eq, Structural)]
pub enum RelayError {
    /// The client's bytes are no packet, or a packet has no frame.
    Protocol(ProtocolError),
    /// The read brought nothing to decode.
    Io(IoError),
    /// The queue was closed by the other side of the pair.
    ChannelClosed,
}

/// What the reader of a connection does after a read.
#[derive(Debug, Clone, PartialEq, Eq)]
pub enum ReaderStep {
    /// Put the packet in the peer's queue, waiting while the queue is full.
    Forward(ProtocolPacket),
    /// End the loop and close the queue.
    Stop(RelayError),
}

/// What the writer of a connection does after taking from its queue.
#[derive(Debug, Clone, PartialEq, Eq)]
pub enum WriterStep {
    /// Write the whole frame to the socket, under the socket's lock.
    Transmit(Vec<u8>),
    /// End the loop.
    Stop(RelayError),
}

/// The packet that a read brought, if it brought one. A read that timed out,
/// failed or brought no bytes ends the relay, and so do bytes that are no
/// packet.
pub open spec fn received(event: ReadEvent) -> Result<PacketView, RelayError> {
    match event {
        ReadEvent::TimedOut => Err(RelayError::Io(IoError::Timeout)),
        ReadEvent::Failed => Err(RelayError::Io(IoError::ConnectionReset)),
        ReadEvent::Data(bytes) => if bytes@.len() == 0 {
            Err(RelayError::Io(IoError::ZeroByteRead))
        } else {
            match frame_decoding(bytes@).outcome {
                Ok(packet) => Ok(packet),
                Err(error) => Err(RelayError::Protocol(error)),
            }
        },
    }
}

/// Decodes the packet that a read brought.
pub fn read_packet(event: ReadEvent) -> (result: Result<ProtocolPacket, RelayError>)
    ensures
        match received(event) {
            Ok(value) => result matches Ok(packet) && packet@ == value,
            Err(error) => result matches Err(e) && e == error,
        },
{
    match event {
        ReadEvent::TimedOut => Err(RelayError::Io(IoError::Timeout)),
        ReadEvent::Failed => Err(RelayError::Io(IoError::ConnectionReset)),
        ReadEvent::Data(bytes) => {
            if bytes.len() == 0 {
                return Err(RelayError::Io(IoError::ZeroByteRead));
            }
            match ProtocolPacket::from_bytes(bytes) {
                Ok(packet) => Ok(packet),
                Err(error) => Err(RelayError::Protocol(error)),
            }
        },
    }
}

/// The packet to forward after the read `event`, as `transmitter` passes it on.
pub open spec fn forwarded<T: Transmitter>(transmitter: &T, event: ReadEvent) -> Result<
    PacketView,
    RelayError,
> {
    match received(event) {
        Ok(packet) => transmitter.processed(packet),
        Err(error) => Err(error),
    }
}

/// One turn of a connection's reader: decode what the read brought and pass
/// it through the transmitter of the connection's direction.
pub fn reader_step<T: Transmitter>(transmitter: &T, event: ReadEvent) -> (step: ReaderStep)
    ensures
        match forwarded(transmitter, event) {
            Ok(value) => step matches ReaderStep::Forward(packet) && packet@ == value,
            Err(error) => step matches ReaderStep::Stop(e) && e == error,
        },
{
    match read_packet(event) {
        Ok(packet) => match transmitter.process(packet) {
            Ok(packet) => ReaderStep::Forward(packet),
            Err(error) => ReaderStep::Stop(error),
        },
        Err(error) => ReaderStep::Stop(error),
    }
}

/// The frame to send for what the queue gave: nothing, once the queue is
/// closed and empty.
pub open spec fn transmitted(taken: Option<PacketView>) -> Result<Seq<u8>, RelayError> {
    match taken {
        None => Err(RelayError::ChannelClosed),
        Some(packet) => match frame_encoding(packet).outcome {
            Ok(_) => Ok(frame_encoding(packet).bytes),
            Err(error) => Err(RelayError::Protocol(error)),
        },
    }
}

/// One turn of a connection's writer: encode the packet that the queue gave.
pub fn writer_step(taken: Option<ProtocolPacket>) -> (step: WriterStep)
    ensures
        match transmitted(
            match taken {
                Some(packet) => Some(packet@),
                None => None,
            },
        ) {
            Ok(frame) => step matches WriterStep::Transmit(bytes) && bytes@ == frame,
            Err(error) => step matches WriterStep::Stop(e) && e == error,
        },
{
    match taken {
        None => WriterStep::Stop(RelayError::ChannelClosed),
        Some(packet) => match packet.to_bytes() {
            Ok(frame) => WriterStep::Transmit(frame),
            Err(error) => WriterStep::Stop(RelayError::Protocol(error)),
        },
    }
}

/// What the peer's socket is sent for the read `event`, when the packet
/// passes through `transmitter` and the queue hands it to the peer's writer.
pub open spec fn relayed<T: Transmitter>(transmitter: &T, event: ReadEvent) -> Result<
    Seq<u8>,
    RelayError,
> {
    match forwarded(transmitter, event) {
        Ok(packet) => transmitted(Some(packet)),
        Err(error) => Err(error),
    }
}

/// From Minecraft to Terraria the bridge changes nothing: a read that brings
/// a frame has the peer sent that very frame, byte for byte.
pub proof fn lemma_minecraft_frames_pass_unmodified(transmitter: &TransmitterMT, bytes: Vec<u8>)
    requires
        frame_decoding(bytes@).outcome is Ok,
    ensures
        relayed(transmitter, ReadEvent::Data(bytes)) == Ok::<Seq<u8>, RelayError>(
            bytes@.take(frame_decoding(bytes@).used as int),
        ),
{
    lemma_frame_reencodes(bytes@);
}

/// From Terraria to Minecraft the bridge changes nothing: a read that brings
/// a frame has the peer sent that very frame, byte for byte.
pub proof fn lemma_terraria_frames_pass_unmodified(transmitter: &TransmitterTM, bytes: Vec<u8>)
    requires
        frame_decoding(bytes@).outcome is Ok,
    ensures
        relayed(transmitter, ReadEvent::Data(bytes)) == Ok::<Seq<u8>, RelayError>(
            bytes@.take(frame_decoding(bytes@).used as int),
        ),
{
    lemma_frame_reencodes(bytes@);
}

/// A packet that one client wrote arrives at the other as the same packet:
/// the frame that the writer sends decodes to what the reader decoded.
pub proof fn lemma_relayed_packet_is_unchanged(packet: PacketView)
    requires
        frame_encoding(packet).outcome is Ok,
    ensures
        transmitted(Some(packet)) == Ok::<Seq<u8>, RelayError>(frame_encoding(packet).bytes),
        frame_decoding(frame_encoding(packet).bytes).outcome == Ok::<PacketView, ProtocolError>(
            packet,
        ),
{
    lemma_frame_round_trip(packet);
}

/// A relay never forwards after a read that brought no packet: it stops
/// with the reason.
pub proof fn lemma_reader_stops_without_packet<T: Transmitter>(transmitter: &T, event: ReadEvent)
    requires
        received(event) is Err,
    ensures
        forwarded(transmitter, event) == Err::<PacketView, RelayError>(received(event)->Err_0),
        event is TimedOut ==> received(event) == Err::<PacketView, RelayError>(
            RelayError::Io(IoError::Timeout),
        ),
        event is Failed ==> received(event) == Err::<PacketView, RelayError>(
            RelayError::Io(IoError::ConnectionReset),
        ),
{
}

} // verus!
