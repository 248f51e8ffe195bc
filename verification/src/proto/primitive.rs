//! Fixed-width integers and booleans on the wire. Every multi-byte value is
//! written most significant byte first.

use super::cursor::ByteCursor;
use super::error::ProtocolError;
use super::packet::{Packet, Parsed, Written};
use super::wire::{
    be_bytes, be_value, lemma_be_bytes_len, lemma_be_bytes_of_value, lemma_be_value_bound,
    lemma_be_value_of_bytes, lemma_radix_values, lemma_signed_round_trip,
    lemma_unsigned_round_trip, radix, to_signed, to_unsigned,
};
use vstd::prelude::*;

verus! {

/// An unsigned integer of `width` bytes at the start of `input`. Input that
/// ends early is consumed whole.
pub open spec fn unsigned_decoding(input: Seq<u8>, width: nat) -> Parsed<nat> {
    if input.len() < width {
        Parsed { outcome: Err(ProtocolError::MalformedField), used: input.len() }
    } else {
        Parsed { outcome: Ok(be_value(input.take(width as int))), used: width }
    }
}

/// A two's complement integer of `width` bytes at the start of `input`.
pub open spec fn signed_decoding(input: Seq<u8>, width: nat) -> Parsed<int> {
    let raw = unsigned_decoding(input, width);
    Parsed {
        outcome: match raw.outcome {
            Ok(value) => Ok(to_signed(value, width)),
            Err(error) => Err(error),
        },
        used: raw.used,
    }
}

/// An unsigned integer that was written on `width` bytes decodes to itself.
pub proof fn lemma_unsigned_round_trip_on_wire(value: nat, width: nat, rest: Seq<u8>)
    requires
        value < radix(width),
    ensures
        unsigned_decoding(be_bytes(value, width) + rest, width) == (Parsed::<nat> {
            outcome: Ok(value),
            used: width,
        }),
{
    let bytes = be_bytes(value, width);
    lemma_be_bytes_len(value, width);
    lemma_be_value_of_bytes(value, width);
    assert((bytes + rest).take(width as int) =~= bytes);
}

/// A signed integer that was written on `width` bytes decodes to itself.
pub proof fn lemma_signed_round_trip_on_wire(value: int, width: nat, rest: Seq<u8>)
    requires
        width > 0,
        -(radix(width) as int) <= 2 * value < radix(width),
    ensures
        signed_decoding(be_bytes(to_unsigned(value, width), width) + rest, width) == (Parsed::<
            int,
        > { outcome: Ok(value), used: width }),
{
    lemma_signed_round_trip(value, width);
    lemma_unsigned_round_trip_on_wire(to_unsigned(value, width), width, rest);
}

/// An unsigned integer that decodes is written back as the bytes it was read from.
pub proof fn lemma_unsigned_reencodes(input: Seq<u8>, width: nat)
    requires
        unsigned_decoding(input, width).outcome is Ok,
    ensures
        be_bytes(unsigned_decoding(input, width).outcome->Ok_0, width) == input.take(
            width as int,
        ),
{
    lemma_be_bytes_of_value(input.take(width as int));
}

/// A signed integer that decodes is written back as the bytes it was read from.
pub proof fn lemma_signed_reencodes(input: Seq<u8>, width: nat)
    requires
        width > 0,
        signed_decoding(input, width).outcome is Ok,
    ensures
        be_bytes(to_unsigned(signed_decoding(input, width).outcome->Ok_0, width), width)
            == input.take(width as int),
{
    let field = input.take(width as int);
    lemma_be_value_bound(field);
    lemma_unsigned_round_trip(be_value(field), width);
    lemma_be_bytes_of_value(field);
}

proof fn lemma_radix_grows(low: nat, high: nat)
    requires
        low <= high,
    ensures
        radix(low) <= radix(high),
        radix(low) >= 1,
    decreases high,
{
    if low < high {
        lemma_radix_grows(low, (high - 1) as nat);
    } else if low > 0 {
        lemma_radix_grows((low - 1) as nat, (low - 1) as nat);
    }
}

/// Reads an unsigned integer of `width` bytes.
pub(crate) fn read_unsigned(bytes: &mut ByteCursor, width: usize) -> (result: Result<
    u64,
    ProtocolError,
>)
    requires
        1 <= width <= 8,
    ensures
        final(bytes).bytes() == old(bytes).bytes(),
        final(bytes).consumed() == old(bytes).consumed() + unsigned_decoding(
            old(bytes).remaining(),
            width as nat,
        ).used,
        final(bytes).remaining() == old(bytes).remaining().skip(
            unsigned_decoding(old(bytes).remaining(), width as nat).used as int,
        ),
        match unsigned_decoding(old(bytes).remaining(), width as nat).outcome {
            Ok(value) => result == Ok::<u64, ProtocolError>(value as u64) && value < radix(
                width as nat,
            ),
            Err(error) => result == Err::<u64, ProtocolError>(error),
        },
{
    let ghost input = bytes.remaining();
    proof {
        use_type_invariant(&*bytes);
        bytes.lemma_in_bounds();
    }
    match bytes.take(width) {
        None => {
            proof {
                assert(input.skip(input.len() as int) =~= Seq::<u8>::empty());
            }
            Err(ProtocolError::MalformedField)
        },
        Some(field) => {
            let mut value: u64 = 0;
            let mut i: usize = 0;
            proof {
                assert(field@.take(0) =~= Seq::<u8>::empty());
            }
            while i < width
                invariant
                    i <= width <= 8,
                    field@.len() == width,
                    value == be_value(field@.take(i as int)),
                decreases width - i,
            {
                proof {
                    let shorter = field@.take(i as int);
                    let longer = field@.take(i + 1);
                    lemma_be_value_bound(shorter);
                    lemma_radix_grows(i as nat, 7);
                    lemma_radix_values();
                    assert(radix(8) == 256 * radix(7));
                    assert(longer.drop_last() =~= shorter);
                    assert(longer.last() == field@[i as int]);
                }
                value = value * 256 + field[i] as u64;
                i = i + 1;
            }
            proof {
                assert(field@.take(width as int) =~= field@);
                lemma_be_value_bound(field@);
            }
            Ok(value)
        },
    }
}

/// Appends the `width` low-order bytes of `value`.
pub(crate) fn write_unsigned(buf: &mut Vec<u8>, value: u64, width: usize)
    requires
        1 <= width <= 8,
    ensures
        final(buf)@ == old(buf)@ + be_bytes(value as nat, width as nat),
{
    let mut tail: Vec<u8> = Vec::new();
    let mut rest: u64 = value;
    let mut i: usize = 0;
    while i < width
        invariant
            i <= width,
            tail@.len() == i,
            be_bytes(value as nat, width as nat) == be_bytes(rest as nat, (width - i) as nat)
                + tail@,
        decreases width - i,
    {
        let low: u8 = (rest % 256) as u8;
        proof {
            let shorter = be_bytes((rest / 256) as nat, (width - i - 1) as nat);
            assert(be_bytes(rest as nat, (width - i) as nat) == shorter.push(low));
            assert(shorter.push(low) + tail@ =~= shorter + tail@.insert(0, low));
        }
        tail.insert(0, low);
        rest = rest / 256;
        i = i + 1;
    }
    proof {
        assert(be_bytes(rest as nat, 0) + tail@ =~= tail@);
    }
    buf.append(&mut tail);
}

/// Reads a two's complement integer of `width` bytes.
pub(crate) fn read_signed(bytes: &mut ByteCursor, width: usize) -> (result: Result<
    i64,
    ProtocolError,
>)
    requires
        width == 1 || width == 2 || width == 4 || width == 8,
    ensures
        final(bytes).bytes() == old(bytes).bytes(),
        final(bytes).consumed() == old(bytes).consumed() + signed_decoding(
            old(bytes).remaining(),
            width as nat,
        ).used,
        final(bytes).remaining() == old(bytes).remaining().skip(
            signed_decoding(old(bytes).remaining(), width as nat).used as int,
        ),
        match signed_decoding(old(bytes).remaining(), width as nat).outcome {
            Ok(value) => result == Ok::<i64, ProtocolError>(value as i64) && -(radix(
                width as nat,
            ) as int) <= 2 * value < radix(width as nat),
            Err(error) => result == Err::<i64, ProtocolError>(error),
        },
{
    proof {
        lemma_radix_values();
    }
    match read_unsigned(bytes, width) {
        Err(error) => Err(error),
        Ok(raw) => {
            let half: u64 = if width == 1 {
                0x80
            } else if width == 2 {
                0x8000
            } else if width == 4 {
                0x8000_0000
            } else {
                0x8000_0000_0000_0000
            };
            if raw >= half {
                let offset: i128 = raw as i128 - 2 * (half as i128);
                Ok(offset as i64)
            } else {
                Ok(raw as i64)
            }
        },
    }
}

/// Appends `value` in two's complement on `width` bytes.
pub(crate) fn write_signed(buf: &mut Vec<u8>, value: i64, width: usize)
    requires
        width == 1 || width == 2 || width == 4 || width == 8,
        -(radix(width as nat) as int) <= 2 * value < radix(width as nat),
    ensures
        final(buf)@ == old(buf)@ + be_bytes(to_unsigned(value as int, width as nat), width as nat),
{
    proof {
        lemma_radix_values();
    }
    let raw: u64 = if value >= 0 {
        value as u64
    } else if width == 1 {
        (value + 0x100) as u64
    } else if width == 2 {
        (value + 0x1_0000) as u64
    } else if width == 4 {
        (value + 0x1_0000_0000) as u64
    } else {
        (value as i128 + 0x1_0000_0000_0000_0000) as u64
    };
    write_unsigned(buf, raw, width);
}

impl Packet for u8 {
    open spec fn decoding(input: Seq<u8>) -> Parsed<u8> {
        let raw = unsigned_decoding(input, 1);
        Parsed {
            outcome: match raw.outcome {
                Ok(value) => Ok(value as u8),
                Err(error) => Err(error),
            },
            used: raw.used,
        }
    }

    open spec fn encoding(value: u8) -> Written {
        Written { outcome: Ok(()), bytes: be_bytes(value as nat, 1) }
    }

    proof fn lemma_decoding_in_bounds(input: Seq<u8>) {
    }

    proof fn lemma_round_trip(value: u8, rest: Seq<u8>) {
        lemma_radix_values();
        lemma_be_bytes_len(value as nat, 1);
        lemma_unsigned_round_trip_on_wire(value as nat, 1, rest);
    }

    fn read(bytes: &mut ByteCursor) -> (result: Result<Self, ProtocolError>) {
        proof {
            lemma_radix_values();
        }
        match read_unsigned(bytes, 1) {
            Ok(value) => Ok(value as u8),
            Err(error) => Err(error),
        }
    }

    fn write(&self, buf: &mut Vec<u8>) -> (result: Result<(), ProtocolError>) {
        write_unsigned(buf, *self as u64, 1);
        Ok(())
    }
}

impl Packet for i8 {
    open spec fn decoding(input: Seq<u8>) -> Parsed<i8> {
        let raw = signed_decoding(input, 1);
        Parsed {
            outcome: match raw.outcome {
                Ok(value) => Ok(value as i8),
                Err(error) => Err(error),
            },
            used: raw.used,
        }
    }

    open spec fn encoding(value: i8) -> Written {
        Written { outcome: Ok(()), bytes: be_bytes(to_unsigned(value as int, 1), 1) }
    }

    proof fn lemma_decoding_in_bounds(input: Seq<u8>) {
    }

    proof fn lemma_round_trip(value: i8, rest: Seq<u8>) {
        lemma_radix_values();
        lemma_be_bytes_len(to_unsigned(value as int, 1), 1);
        lemma_signed_round_trip_on_wire(value as int, 1, rest);
    }

    fn read(bytes: &mut ByteCursor) -> (result: Result<Self, ProtocolError>) {
        proof {
            lemma_radix_values();
        }
        match read_signed(bytes, 1) {
            Ok(value) => Ok(value as i8),
            Err(error) => Err(error),
        }
    }

    fn write(&self, buf: &mut Vec<u8>) -> (result: Result<(), ProtocolError>) {
        proof {
            lemma_radix_values();
        }
        write_signed(buf, *self as i64, 1);
        Ok(())
    }
}

impl Packet for i16 {
    open spec fn decoding(input: Seq<u8>) -> Parsed<i16> {
        let raw = signed_decoding(input, 2);
        Parsed {
            outcome: match raw.outcome {
                Ok(value) => Ok(value as i16),
                Err(error) => Err(error),
            },
            used: raw.used,
        }
    }

    open spec fn encoding(value: i16) -> Written {
        Written { outcome: Ok(()), bytes: be_bytes(to_unsigned(value as int, 2), 2) }
    }

    proof fn lemma_decoding_in_bounds(input: Seq<u8>) {
    }

    proof fn lemma_round_trip(value: i16, rest: Seq<u8>) {
        lemma_radix_values();
        lemma_be_bytes_len(to_unsigned(value as int, 2), 2);
        lemma_signed_round_trip_on_wire(value as int, 2, rest);
    }

    fn read(bytes: &mut ByteCursor) -> (result: Result<Self, ProtocolError>) {
        proof {
            lemma_radix_values();
        }
        match read_signed(bytes, 2) {
            Ok(value) => Ok(value as i16),
            Err(error) => Err(error),
        }
    }

    fn write(&self, buf: &mut Vec<u8>) -> (result: Result<(), ProtocolError>) {
        proof {
            lemma_radix_values();
        }
        write_signed(buf, *self as i64, 2);
        Ok(())
    }
}

impl Packet for i32 {
    open spec fn decoding(input: Seq<u8>) -> Parsed<i32> {
        let raw = signed_decoding(input, 4);
        Parsed {
            outcome: match raw.outcome {
                Ok(value) => Ok(value as i32),
                Err(error) => Err(error),
            },
            used: raw.used,
        }
    }

    open spec fn encoding(value: i32) -> Written {
        Written { outcome: Ok(()), bytes: be_bytes(to_unsigned(value as int, 4), 4) }
    }

    proof fn lemma_decoding_in_bounds(input: Seq<u8>) {
    }

    proof fn lemma_round_trip(value: i32, rest: Seq<u8>) {
        lemma_radix_values();
        lemma_be_bytes_len(to_unsigned(value as int, 4), 4);
        lemma_signed_round_trip_on_wire(value as int, 4, rest);
    }

    fn read(bytes: &mut ByteCursor) -> (result: Result<Self, ProtocolError>) {
        proof {
            lemma_radix_values();
        }
        match read_signed(bytes, 4) {
            Ok(value) => Ok(value as i32),
            Err(error) => Err(error),
        }
    }

    fn write(&self, buf: &mut Vec<u8>) -> (result: Result<(), ProtocolError>) {
        proof {
            lemma_radix_values();
        }
        write_signed(buf, *self as i64, 4);
        Ok(())
    }
}

impl Packet for i64 {
    open spec fn decoding(input: Seq<u8>) -> Parsed<i64> {
        let raw = signed_decoding(input, 8);
        Parsed {
            outcome: match raw.outcome {
                Ok(value) => Ok(value as i64),
                Err(error) => Err(error),
            },
            used: raw.used,
        }
    }

    open spec fn encoding(value: i64) -> Written {
        Written { outcome: Ok(()), bytes: be_bytes(to_unsigned(value as int, 8), 8) }
    }

    proof fn lemma_decoding_in_bounds(input: Seq<u8>) {
    }

    proof fn lemma_round_trip(value: i64, rest: Seq<u8>) {
        lemma_radix_values();
        lemma_be_bytes_len(to_unsigned(value as int, 8), 8);
        lemma_signed_round_trip_on_wire(value as int, 8, rest);
    }

    fn read(bytes: &mut ByteCursor) -> (result: Result<Self, ProtocolError>) {
        proof {
            lemma_radix_values();
        }
        match read_signed(bytes, 8) {
            Ok(value) => Ok(value as i64),
            Err(error) => Err(error),
        }
    }

    fn write(&self, buf: &mut Vec<u8>) -> (result: Result<(), ProtocolError>) {
        proof {
            lemma_radix_values();
        }
        write_signed(buf, *self as i64, 8);
        Ok(())
    }
}

impl Packet for u16 {
    open spec fn decoding(input: Seq<u8>) -> Parsed<u16> {
        let raw = unsigned_decoding(input, 2);
        Parsed {
            outcome: match raw.outcome {
                Ok(value) => Ok(value as u16),
                Err(error) => Err(error),
            },
            used: raw.used,
        }
    }

    open spec fn encoding(value: u16) -> Written {
        Written { outcome: Ok(()), bytes: be_bytes(value as nat, 2) }
    }

    proof fn lemma_decoding_in_bounds(input: Seq<u8>) {
    }

    proof fn lemma_round_trip(value: u16, rest: Seq<u8>) {
        lemma_radix_values();
        lemma_be_bytes_len(value as nat, 2);
        lemma_unsigned_round_trip_on_wire(value as nat, 2, rest);
    }

    fn read(bytes: &mut ByteCursor) -> (result: Result<Self, ProtocolError>) {
        proof {
            lemma_radix_values();
        }
        match read_unsigned(bytes, 2) {
            Ok(value) => Ok(value as u16),
            Err(error) => Err(error),
        }
    }

    fn write(&self, buf: &mut Vec<u8>) -> (result: Result<(), ProtocolError>) {
        write_unsigned(buf, *self as u64, 2);
        Ok(())
    }
}

impl Packet for u32 {
    open spec fn decoding(input: Seq<u8>) -> Parsed<u32> {
        let raw = unsigned_decoding(input, 4);
        Parsed {
            outcome: match raw.outcome {
                Ok(value) => Ok(value as u32),
                Err(error) => Err(error),
            },
            used: raw.used,
        }
    }

    open spec fn encoding(value: u32) -> Written {
        Written { outcome: Ok(()), bytes: be_bytes(value as nat, 4) }
    }

    proof fn lemma_decoding_in_bounds(input: Seq<u8>) {
    }

    proof fn lemma_round_trip(value: u32, rest: Seq<u8>) {
        lemma_radix_values();
        lemma_be_bytes_len(value as nat, 4);
        lemma_unsigned_round_trip_on_wire(value as nat, 4, rest);
    }

    fn read(bytes: &mut ByteCursor) -> (result: Result<Self, ProtocolError>) {
        proof {
            lemma_radix_values();
        }
        match read_unsigned(bytes, 4) {
            Ok(value) => Ok(value as u32),
            Err(error) => Err(error),
        }
    }

    fn write(&self, buf: &mut Vec<u8>) -> (result: Result<(), ProtocolError>) {
        write_unsigned(buf, *self as u64, 4);
        Ok(())
    }
}

impl Packet for u64 {
    open spec fn decoding(input: Seq<u8>) -> Parsed<u64> {
        let raw = unsigned_decoding(input, 8);
        Parsed {
            outcome: match raw.outcome {
                Ok(value) => Ok(value as u64),
                Err(error) => Err(error),
            },
            used: raw.used,
        }
    }

    open spec fn encoding(value: u64) -> Written {
        Written { outcome: Ok(()), bytes: be_bytes(value as nat, 8) }
    }

    proof fn lemma_decoding_in_bounds(input: Seq<u8>) {
    }

    proof fn lemma_round_trip(value: u64, rest: Seq<u8>) {
        lemma_radix_values();
        lemma_be_bytes_len(value as nat, 8);
        lemma_unsigned_round_trip_on_wire(value as nat, 8, rest);
    }

    fn read(bytes: &mut ByteCursor) -> (result: Result<Self, ProtocolError>) {
        proof {
            lemma_radix_values();
        }
        match read_unsigned(bytes, 8) {
            Ok(value) => Ok(value as u64),
            Err(error) => Err(error),
        }
    }

    fn write(&self, buf: &mut Vec<u8>) -> (result: Result<(), ProtocolError>) {
        write_unsigned(buf, *self as u64, 8);
        Ok(())
    }
}

impl Packet for bool {
    /// Exactly the byte 1 decodes to `true`; every other byte decodes to `false`.
    open spec fn decoding(input: Seq<u8>) -> Parsed<bool> {
        let raw = unsigned_decoding(input, 1);
        Parsed {
            outcome: match raw.outcome {
                Ok(value) => Ok(value == 1),
                Err(error) => Err(error),
            },
            used: raw.used,
        }
    }

    /// `true` is written as the byte 1, `false` as the byte 0.
    open spec fn encoding(value: bool) -> Written {
        Written {
            outcome: Ok(()),
            bytes: be_bytes(
                if value {
                    1
                } else {
                    0
                },
                1,
            ),
        }
    }

    proof fn lemma_decoding_in_bounds(input: Seq<u8>) {
    }

    proof fn lemma_round_trip(value: bool, rest: Seq<u8>) {
        let byte: nat = if value {
            1
        } else {
            0
        };
        lemma_radix_values();
        lemma_be_bytes_len(byte, 1);
        lemma_unsigned_round_trip_on_wire(byte, 1, rest);
    }

    fn read(bytes: &mut ByteCursor) -> (result: Result<Self, ProtocolError>) {
        proof {
            lemma_radix_values();
        }
        match read_unsigned(bytes, 1) {
            Ok(value) => Ok(value == 1),
            Err(error) => Err(error),
        }
    }

    fn write(&self, buf: &mut Vec<u8>) -> (result: Result<(), ProtocolError>) {
        write_unsigned(
            buf,
            if *self {
                1
            } else {
                0
            },
            1,
        );
        Ok(())
    }
}

} // verus!
