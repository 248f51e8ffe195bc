//! The packet catalog: which opcode stands for which packet, and the fields
//! of each packet in the order in which they travel.

use super::cursor::ByteCursor;
use super::error::ProtocolError;
use super::packet::{Packet, Parsed, Written};
use super::text::{
    declared_length, lemma_oversized_string_rejected, lemma_string_reencodes, string_decoding,
    string_encoding, MAX_STR_LEN,
};
use vstd::prelude::*;
use vstd::utf8::encode_utf8;

verus! {

/// The opcode of `Connect`.
pub const CONNECT_OPCODE: u8 = 0x00;

/// The opcode of `Disconnect`.
pub const DISCONNECT_OPCODE: u8 = 0x01;

/// The opcode of `AdvanceState`.
pub const ADVANCE_STATE_OPCODE: u8 = 0x02;

/// The first packet of every client: it names the client's family.
#[derive(Debug, Clone, PartialEq, Eq)]
pub struct Connect {
    /// The client's family, then a slash and what the client says of itself.
    pub brand: String,
}

/// What a `Connect` packet holds.
pub struct ConnectView {
    pub brand: Seq<char>,
}

impl View for Connect {
    type V = ConnectView;

    open spec fn view(&self) -> ConnectView {
        ConnectView { brand: self.brand@ }
    }
}

impl Packet for Connect {
    open spec fn decoding(input: Seq<u8>) -> Parsed<ConnectView> {
        let brand = string_decoding(input);
        Parsed {
            outcome: match brand.outcome {
                Ok(text) => Ok(ConnectView { brand: text }),
                Err(error) => Err(error),
            },
            used: brand.used,
        }
    }

    open spec fn encoding(value: ConnectView) -> Written {
        string_encoding(value.brand)
    }

    proof fn lemma_decoding_in_bounds(input: Seq<u8>) {
    }

    proof fn lemma_round_trip(value: ConnectView, rest: Seq<u8>) {
        <String as Packet>::lemma_round_trip(value.brand, rest);
    }

    fn read(bytes: &mut ByteCursor) -> (result: Result<Self, ProtocolError>) {
        match <String as Packet>::read(bytes) {
            Ok(brand) => Ok(Connect { brand }),
            Err(error) => Err(error),
        }
    }

    fn write(&self, buf: &mut Vec<u8>) -> (result: Result<(), ProtocolError>) {
        self.brand.write(buf)
    }
}

/// Tells a client that the bridge closes its connection.
#[derive(Debug, Clone, PartialEq, Eq)]
pub struct Disconnect {
    /// Why the connection is closed.
    pub reason: String,
}

/// What a `Disconnect` packet holds.
pub struct DisconnectView {
    pub reason: Seq<char>,
}

impl View for Disconnect {
    type V = DisconnectView;

    open spec fn view(&self) -> DisconnectView {
        DisconnectView { reason: self.reason@ }
    }
}

impl Packet for Disconnect {
    open spec fn decoding(input: Seq<u8>) -> Parsed<DisconnectView> {
        let reason = string_decoding(input);
        Parsed {
            outcome: match reason.outcome {
                Ok(text) => Ok(DisconnectView { reason: text }),
                Err(error) => Err(error),
            },
            used: reason.used,
        }
    }

    open spec fn encoding(value: DisconnectView) -> Written {
        string_encoding(value.reason)
    }

    proof fn lemma_decoding_in_bounds(input: Seq<u8>) {
    }

    proof fn lemma_round_trip(value: DisconnectView, rest: Seq<u8>) {
        <String as Packet>::lemma_round_trip(value.reason, rest);
    }

    fn read(bytes: &mut ByteCursor) -> (result: Result<Self, ProtocolError>) {
        match <String as Packet>::read(bytes) {
            Ok(reason) => Ok(Disconnect { reason }),
            Err(error) => Err(error),
        }
    }

    fn write(&self, buf: &mut Vec<u8>) -> (result: Result<(), ProtocolError>) {
        self.reason.write(buf)
    }
}

/// Tells a client that the bridge has accepted it.
#[derive(Debug, Clone, PartialEq, Eq)]
pub struct AdvanceState {
    /// The bridge's name and version.
    pub bridge_info: String,
}

/// What a `AdvanceState` packet holds.
pub struct AdvanceStateView {
    pub bridge_info: Seq<char>,
}

impl View for AdvanceState {
    type V = AdvanceStateView;

    open spec fn view(&self) -> AdvanceStateView {
        AdvanceStateView { bridge_info: self.bridge_info@ }
    }
}

impl Packet for AdvanceState {
    open spec fn decoding(input: Seq<u8>) -> Parsed<AdvanceStateView> {
        let bridge_info = string_decoding(input);
        Parsed {
            outcome: match bridge_info.outcome {
                Ok(text) => Ok(AdvanceStateView { bridge_info: text }),
                Err(error) => Err(error),
            },
            used: bridge_info.used,
        }
    }

    open spec fn encoding(value: AdvanceStateView) -> Written {
        string_encoding(value.bridge_info)
    }

    proof fn lemma_decoding_in_bounds(input: Seq<u8>) {
    }

    proof fn lemma_round_trip(value: AdvanceStateView, rest: Seq<u8>) {
        <String as Packet>::lemma_round_trip(value.bridge_info, rest);
    }

    fn read(bytes: &mut ByteCursor) -> (result: Result<Self, ProtocolError>) {
        match <String as Packet>::read(bytes) {
            Ok(bridge_info) => Ok(AdvanceState { bridge_info }),
            Err(error) => Err(error),
        }
    }

    fn write(&self, buf: &mut Vec<u8>) -> (result: Result<(), ProtocolError>) {
        self.bridge_info.write(buf)
    }
}

/// Every packet that travels between a client and the bridge.
#[derive(Debug, Clone, PartialEq, Eq)]
pub enum ProtocolPacket {
    Connect(Connect),
    Disconnect(Disconnect),
    AdvanceState(AdvanceState),
}

/// What a packet holds.
pub enum PacketView {
    Connect(ConnectView),
    Disconnect(DisconnectView),
    AdvanceState(AdvanceStateView),
}

impl View for ProtocolPacket {
    type V = PacketView;

    open spec fn view(&self) -> PacketView {
        match self {
            ProtocolPacket::Connect(packet) => PacketView::Connect(packet@),
            ProtocolPacket::Disconnect(packet) => PacketView::Disconnect(packet@),
            ProtocolPacket::AdvanceState(packet) => PacketView::AdvanceState(packet@),
        }
    }
}

impl PacketView {
    /// The byte that announces this packet on the wire.
    pub open spec fn opcode(self) -> u8 {
        match self {
            PacketView::Connect(_) => CONNECT_OPCODE,
            PacketView::Disconnect(_) => DISCONNECT_OPCODE,
            PacketView::AdvanceState(_) => ADVANCE_STATE_OPCODE,
        }
    }

    /// The wire form of the packet's fields, without the opcode.
    pub open spec fn fields(self) -> Written {
        match self {
            PacketView::Connect(packet) => <Connect as Packet>::encoding(packet),
            PacketView::Disconnect(packet) => <Disconnect as Packet>::encoding(packet),
            PacketView::AdvanceState(packet) => <AdvanceState as Packet>::encoding(packet),
        }
    }
}

/// Whether the catalog lists `opcode`.
pub open spec fn in_catalog(opcode: u8) -> bool {
    opcode == CONNECT_OPCODE || opcode == DISCONNECT_OPCODE || opcode == ADVANCE_STATE_OPCODE
}

/// The fields of the packet that `opcode` announces, read from `input`.
pub open spec fn fields_decoding(opcode: u8, input: Seq<u8>) -> Parsed<PacketView>
    recommends
        in_catalog(opcode),
{
    if opcode == CONNECT_OPCODE {
        let body = <Connect as Packet>::decoding(input);
        Parsed {
            outcome: match body.outcome {
                Ok(packet) => Ok(PacketView::Connect(packet)),
                Err(error) => Err(error),
            },
            used: body.used,
        }
    } else if opcode == DISCONNECT_OPCODE {
        let body = <Disconnect as Packet>::decoding(input);
        Parsed {
            outcome: match body.outcome {
                Ok(packet) => Ok(PacketView::Disconnect(packet)),
                Err(error) => Err(error),
            },
            used: body.used,
        }
    } else {
        let body = <AdvanceState as Packet>::decoding(input);
        Parsed {
            outcome: match body.outcome {
                Ok(packet) => Ok(PacketView::AdvanceState(packet)),
                Err(error) => Err(error),
            },
            used: body.used,
        }
    }
}

/// One frame at the start of `input`: an opcode of the catalog, then the
/// fields of the packet that it announces. There is no length in front.
pub open spec fn frame_decoding(input: Seq<u8>) -> Parsed<PacketView> {
    if input.len() == 0 {
        Parsed { outcome: Err(ProtocolError::MalformedField), used: 0 }
    } else if !in_catalog(input[0]) {
        Parsed { outcome: Err(ProtocolError::UnknownOpcode(input[0])), used: 1 }
    } else {
        let body = fields_decoding(input[0], input.skip(1));
        Parsed { outcome: body.outcome, used: 1 + body.used }
    }
}

/// The frame of a packet: its opcode, then its fields. Where a field is
/// refused, the opcode has been written already.
pub open spec fn frame_encoding(value: PacketView) -> Written {
    let body = value.fields();
    Written { outcome: body.outcome, bytes: seq![value.opcode()] + body.bytes }
}

impl ProtocolPacket {
    /// Decodes the frame at the start of `data`. What follows the frame is
    /// left unread.
    pub fn from_bytes(data: Vec<u8>) -> (result: Result<ProtocolPacket, ProtocolError>)
        ensures
            match frame_decoding(data@).outcome {
                Ok(value) => result matches Ok(packet) && packet@ == value,
                Err(error) => result matches Err(e) && e == error,
            },
    {
        let mut cursor = ByteCursor::new(data);
        ProtocolPacket::read(&mut cursor)
    }

    /// The frame of the packet, or the reason why it has none.
    pub fn to_bytes(&self) -> (result: Result<Vec<u8>, ProtocolError>)
        ensures
            match frame_encoding(self@).outcome {
                Ok(_) => result matches Ok(frame) && frame@ == frame_encoding(self@).bytes,
                Err(error) => result matches Err(e) && e == error,
            },
    {
        let mut frame: Vec<u8> = Vec::new();
        match self.write(&mut frame) {
            Ok(_) => {
                assert(frame@ =~= frame_encoding(self@).bytes);
                Ok(frame)
            },
            Err(error) => Err(error),
        }
    }
}

impl Packet for ProtocolPacket {
    open spec fn decoding(input: Seq<u8>) -> Parsed<PacketView> {
        frame_decoding(input)
    }

    open spec fn encoding(value: PacketView) -> Written {
        frame_encoding(value)
    }

    proof fn lemma_decoding_in_bounds(input: Seq<u8>) {
    }

    proof fn lemma_round_trip(value: PacketView, rest: Seq<u8>) {
        let body = value.fields().bytes;
        let input = frame_encoding(value).bytes + rest;
        assert(input.skip(1) =~= body + rest);
        assert(input[0] == value.opcode());
        match value {
            PacketView::Connect(packet) => {
                <Connect as Packet>::lemma_round_trip(packet, rest);
            },
            PacketView::Disconnect(packet) => {
                <Disconnect as Packet>::lemma_round_trip(packet, rest);
            },
            PacketView::AdvanceState(packet) => {
                <AdvanceState as Packet>::lemma_round_trip(packet, rest);
            },
        }
    }

    fn read(bytes: &mut ByteCursor) -> (result: Result<Self, ProtocolError>) {
        let ghost input = bytes.remaining();
        proof {
            use_type_invariant(&*bytes);
            bytes.lemma_in_bounds();
        }
        let opcode = match bytes.next_byte() {
            Some(opcode) => opcode,
            None => {
                assert(input.skip(0) =~= input);
                return Err(ProtocolError::MalformedField);
            },
        };
        let ghost body = fields_decoding(opcode, input.skip(1));
        proof {
            assert(input.skip(1).skip(body.used as int) =~= input.skip((1 + body.used) as int));
        }
        if opcode == CONNECT_OPCODE {
            match Connect::read(bytes) {
                Ok(packet) => Ok(ProtocolPacket::Connect(packet)),
                Err(error) => Err(error),
            }
        } else if opcode == DISCONNECT_OPCODE {
            match Disconnect::read(bytes) {
                Ok(packet) => Ok(ProtocolPacket::Disconnect(packet)),
                Err(error) => Err(error),
            }
        } else if opcode == ADVANCE_STATE_OPCODE {
            match AdvanceState::read(bytes) {
                Ok(packet) => Ok(ProtocolPacket::AdvanceState(packet)),
                Err(error) => Err(error),
            }
        } else {
            Err(ProtocolError::UnknownOpcode(opcode))
        }
    }

    fn write(&self, buf: &mut Vec<u8>) -> (result: Result<(), ProtocolError>) {
        let result = match self {
            ProtocolPacket::Connect(packet) => {
                buf.push(CONNECT_OPCODE);
                packet.write(buf)
            },
            ProtocolPacket::Disconnect(packet) => {
                buf.push(DISCONNECT_OPCODE);
                packet.write(buf)
            },
            ProtocolPacket::AdvanceState(packet) => {
                buf.push(ADVANCE_STATE_OPCODE);
                packet.write(buf)
            },
        };
        assert(buf@ =~= old(buf)@ + frame_encoding(self@).bytes);
        result
    }
}

/// The text of the one field that every packet of the catalog carries.
pub open spec fn text_of(packet: PacketView) -> Seq<char> {
    match packet {
        PacketView::Connect(connect) => connect.brand,
        PacketView::Disconnect(disconnect) => disconnect.reason,
        PacketView::AdvanceState(advance) => advance.bridge_info,
    }
}

/// A packet has a frame exactly when its text fits the wire format; a packet
/// without one is refused as oversized.
pub proof fn lemma_frame_exists(packet: PacketView)
    ensures
        frame_encoding(packet).outcome is Ok <==> encode_utf8(text_of(packet)).len()
            <= MAX_STR_LEN,
        frame_encoding(packet).outcome is Err ==> frame_encoding(packet).outcome == Err::<
            (),
            ProtocolError,
        >(ProtocolError::OversizedString),
{
}

/// Every packet that has a frame decodes from its frame to itself, and the
/// whole frame is consumed.
pub proof fn lemma_frame_round_trip(packet: PacketView)
    requires
        frame_encoding(packet).outcome is Ok,
    ensures
        frame_decoding(frame_encoding(packet).bytes) == (Parsed {
            outcome: Ok(packet),
            used: frame_encoding(packet).bytes.len(),
        }),
{
    let frame = frame_encoding(packet).bytes;
    assert(<ProtocolPacket as Packet>::encoding(packet) == frame_encoding(packet));
    <ProtocolPacket as Packet>::lemma_round_trip(packet, Seq::<u8>::empty());
    assert(frame + Seq::<u8>::empty() =~= frame);
    assert(<ProtocolPacket as Packet>::decoding(frame) == frame_decoding(frame));
}

/// Input that starts with a byte outside the catalog is refused as an
/// unknown opcode, whatever follows, and only that byte is consumed.
pub proof fn lemma_unknown_opcode_rejected(input: Seq<u8>)
    requires
        input.len() > 0,
        !in_catalog(input[0]),
    ensures
        frame_decoding(input) == (Parsed::<PacketView> {
            outcome: Err(ProtocolError::UnknownOpcode(input[0])),
            used: 1,
        }),
{
}

/// A frame whose text declares more than `MAX_STR_LEN` bytes, or fewer than
/// none, is refused as oversized: the opcode and the four bytes of the
/// length are consumed and nothing more.
pub proof fn lemma_oversized_frame_rejected(input: Seq<u8>)
    requires
        input.len() >= 5,
        in_catalog(input[0]),
        declared_length(input.skip(1)) > MAX_STR_LEN || declared_length(input.skip(1)) < 0,
    ensures
        frame_decoding(input) == (Parsed::<PacketView> {
            outcome: Err(ProtocolError::OversizedString),
            used: 5,
        }),
{
    lemma_oversized_string_rejected(input.skip(1));
}

/// A frame that decodes is the frame of the packet it decodes to: encoding
/// the packet gives back exactly the bytes that were consumed.
pub proof fn lemma_frame_reencodes(input: Seq<u8>)
    requires
        frame_decoding(input).outcome is Ok,
    ensures
        frame_encoding(frame_decoding(input).outcome->Ok_0) == (Written {
            outcome: Ok(()),
            bytes: input.take(frame_decoding(input).used as int),
        }),
{
    let fields = input.skip(1);
    let packet = frame_decoding(input).outcome->Ok_0;
    lemma_string_reencodes(fields);
    let used = string_decoding(fields).used;
    assert(string_decoding(fields).outcome == Ok::<Seq<char>, ProtocolError>(text_of(packet)));
    assert(seq![input[0]] + fields.take(used as int) =~= input.take((1 + used) as int));
}

} // verus!
