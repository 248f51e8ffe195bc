//! The contract that every wire value meets.

use super::cursor::ByteCursor;
use super::error::ProtocolError;
use vstd::prelude::*;

verus! {

/// What decoding makes of an input: a value or an error, and how many bytes
/// of the input it consumed on the way.
pub struct Parsed<V> {
    pub outcome: Result<V, ProtocolError>,
    pub used: nat,
}

/// What encoding makes of a value: success or an error, and the bytes that it
/// appended to the output on the way.
pub struct Written {
    pub outcome: Result<(), ProtocolError>,
    pub bytes: Seq<u8>,
}

/// A value with a wire form. `decoding` and `encoding` define the format;
/// `read` and `write` implement it.
pub trait Packet: Sized + View {
    /// The format, read from the start of `input`.
    spec fn decoding(input: Seq<u8>) -> Parsed<Self::V>;

    /// The format, written for `value`.
    spec fn encoding(value: Self::V) -> Written;

    /// Decoding never consumes more than the input holds.
    proof fn lemma_decoding_in_bounds(input: Seq<u8>)
        ensures
            Self::decoding(input).used <= input.len(),
    ;

    /// Decoding what encoding wrote gives the value back and consumes exactly
    /// the bytes written, whatever follows them.
    proof fn lemma_round_trip(value: Self::V, rest: Seq<u8>)
        requires
            Self::encoding(value).outcome is Ok,
        ensures
            Self::decoding(Self::encoding(value).bytes + rest) == (Parsed {
                outcome: Ok(value),
                used: Self::encoding(value).bytes.len(),
            }),
    ;

    /// Decodes one value at the cursor and moves the cursor past what was
    /// consumed, on failure too.
    fn read(bytes: &mut ByteCursor) -> (result: Result<Self, ProtocolError>)
        ensures
            final(bytes).bytes() == old(bytes).bytes(),
            final(bytes).consumed() == old(bytes).consumed() + Self::decoding(
                old(bytes).remaining(),
            ).used,
            final(bytes).remaining() == old(bytes).remaining().skip(
                Self::decoding(old(bytes).remaining()).used as int,
            ),
            match Self::decoding(old(bytes).remaining()).outcome {
                Ok(value) => result matches Ok(packet) && packet@ == value,
                Err(error) => result matches Err(e) && e == error,
            },
    ;

    /// Appends the wire form of the value to `buf`.
    fn write(&self, buf: &mut Vec<u8>) -> (result: Result<(), ProtocolError>)
        ensures
            result == Self::encoding(self@).outcome,
            final(buf)@ == old(buf)@ + Self::encoding(self@).bytes,
    ;
}

} // verus!
