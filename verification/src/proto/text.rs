//! Strings on the wire: a signed 32-bit length, then that many bytes of UTF-8.

use super::cursor::ByteCursor;
use super::error::ProtocolError;
use super::packet::{Packet, Parsed, Written};
use vstd::prelude::*;
use super::wire::{
    be_value, lemma_be_bytes_of_value, lemma_be_value_bound, lemma_radix_values, to_signed,
};
use vstd::utf8::{
    decode_utf8, decode_utf8_encode_utf8, encode_utf8, encode_utf8_decode_utf8,
    encode_utf8_valid_utf8, valid_utf8,
};

verus! {

/// The longest string, in bytes of UTF-8, that the wire format carries.
pub const MAX_STR_LEN: usize = 32767;

/// A string field at the start of `input`. A declared length that is
/// negative or above `MAX_STR_LEN` is refused once its four bytes are read;
/// input that ends inside the text is consumed whole.
pub open spec fn string_decoding(input: Seq<u8>) -> Parsed<Seq<char>> {
    let length = <i32 as Packet>::decoding(input);
    match length.outcome {
        Err(error) => Parsed { outcome: Err(error), used: length.used },
        Ok(declared) => {
            if declared < 0 || declared > MAX_STR_LEN {
                Parsed { outcome: Err(ProtocolError::OversizedString), used: length.used }
            } else if input.len() - length.used < declared {
                Parsed { outcome: Err(ProtocolError::MalformedField), used: input.len() }
            } else {
                let text = input.subrange(length.used as int, length.used + declared);
                Parsed {
                    outcome: if valid_utf8(text) {
                        Ok(decode_utf8(text))
                    } else {
                        Err(ProtocolError::InvalidUtf8)
                    },
                    used: (length.used + declared) as nat,
                }
            }
        },
    }
}

/// The wire form of a string. A string whose UTF-8 is longer than
/// `MAX_STR_LEN` is refused before anything is written.
pub open spec fn string_encoding(value: Seq<char>) -> Written {
    let text = encode_utf8(value);
    if text.len() > MAX_STR_LEN {
        Written { outcome: Err(ProtocolError::OversizedString), bytes: Seq::<u8>::empty() }
    } else {
        Written {
            outcome: Ok(()),
            bytes: <i32 as Packet>::encoding(text.len() as i32).bytes + text,
        }
    }
}

/// The length that a string field declares in its first four bytes.
pub open spec fn declared_length(input: Seq<u8>) -> int
    recommends
        input.len() >= 4,
{
    to_signed(be_value(input.take(4)), 4)
}

/// A string field that declares more than `MAX_STR_LEN` bytes, or fewer than
/// none, is refused as oversized, and nothing is consumed after the four
/// bytes of the length.
pub proof fn lemma_oversized_string_rejected(input: Seq<u8>)
    requires
        input.len() >= 4,
        declared_length(input) > MAX_STR_LEN || declared_length(input) < 0,
    ensures
        string_decoding(input) == (Parsed::<Seq<char>> {
            outcome: Err(ProtocolError::OversizedString),
            used: 4,
        }),
{
    lemma_radix_values();
    lemma_be_value_bound(input.take(4));
}

/// A string field that decodes is the wire form of the string it decodes to:
/// encoding the string gives back exactly the bytes that were consumed.
pub proof fn lemma_string_reencodes(input: Seq<u8>)
    requires
        string_decoding(input).outcome is Ok,
    ensures
        string_encoding(string_decoding(input).outcome->Ok_0) == (Written {
            outcome: Ok(()),
            bytes: input.take(string_decoding(input).used as int),
        }),
{
    lemma_radix_values();
    let prefix = input.take(4);
    lemma_be_value_bound(prefix);
    lemma_be_bytes_of_value(prefix);
    let declared = declared_length(input);
    assert(declared == be_value(prefix));
    let text = input.subrange(4, 4 + declared);
    decode_utf8_encode_utf8(text);
    let value = decode_utf8(text);
    assert(string_decoding(input).outcome == Ok::<Seq<char>, ProtocolError>(value));
    assert(string_encoding(value).bytes =~= input.take(4 + declared));
}

/// `String::from_utf8` of std. It succeeds exactly on valid UTF-8, and the
/// string it returns is made of the very bytes it was given.
#[verifier::external_body]
fn string_from_utf8(bytes: Vec<u8>) -> (text: Option<String>)
    ensures
        text is Some <==> valid_utf8(bytes@),
        text matches Some(s) ==> encode_utf8(s@) == bytes@,
{
    match String::from_utf8(bytes) {
        Ok(text) => Some(text),
        Err(_) => None,
    }
}

/// Appends every byte of `bytes` to `buf`.
pub(crate) fn append_bytes(buf: &mut Vec<u8>, bytes: &[u8])
    ensures
        final(buf)@ == old(buf)@ + bytes@,
{
    let mut i: usize = 0;
    while i < bytes.len()
        invariant
            i <= bytes@.len(),
            buf@ == old(buf)@ + bytes@.take(i as int),
        decreases bytes@.len() - i,
    {
        buf.push(bytes[i]);
        i = i + 1;
        assert(buf@ =~= old(buf)@ + bytes@.take(i as int));
    }
    assert(bytes@.take(i as int) =~= bytes@);
}

impl Packet for String {
    open spec fn decoding(input: Seq<u8>) -> Parsed<Seq<char>> {
        string_decoding(input)
    }

    open spec fn encoding(value: Seq<char>) -> Written {
        string_encoding(value)
    }

    proof fn lemma_decoding_in_bounds(input: Seq<u8>) {
    }

    proof fn lemma_round_trip(value: Seq<char>, rest: Seq<u8>) {
        let text = encode_utf8(value);
        assert(<String as Packet>::encoding(value).outcome is Ok);
        let size = text.len() as i32;
        let prefix = <i32 as Packet>::encoding(size).bytes;
        let input = string_encoding(value).bytes + rest;
        assert(input =~= prefix + (text + rest));
        <i32 as Packet>::lemma_round_trip(size, text + rest);
        let length = <i32 as Packet>::decoding(input);
        assert(length.outcome == Ok::<i32, ProtocolError>(size));
        assert(length.used == prefix.len());
        assert(input.len() - length.used >= size);
        assert(input.subrange(length.used as int, length.used + size) =~= text);
        encode_utf8_valid_utf8(value);
        encode_utf8_decode_utf8(value);
        assert(string_decoding(input).used == prefix.len() + text.len());
        assert(string_decoding(input).outcome == Ok::<Seq<char>, ProtocolError>(value));
        assert(<String as Packet>::encoding(value).bytes + rest == input);
        assert(<String as Packet>::decoding(input) == string_decoding(input));
    }

    fn read(bytes: &mut ByteCursor) -> (result: Result<Self, ProtocolError>) {
        let ghost input = bytes.remaining();
        proof {
            use_type_invariant(&*bytes);
            bytes.lemma_in_bounds();
        }
        let declared = match <i32 as Packet>::read(bytes) {
            Ok(declared) => declared,
            Err(error) => {
                return Err(error);
            },
        };
        if declared < 0 || declared > MAX_STR_LEN as i32 {
            return Err(ProtocolError::OversizedString);
        }
        proof {
            use_type_invariant(&*bytes);
            bytes.lemma_in_bounds();
        }
        let ghost used = <i32 as Packet>::decoding(input).used;
        match bytes.take(declared as usize) {
            None => Err(ProtocolError::MalformedField),
            Some(text) => {
                proof {
                    assert(text@ =~= input.subrange(used as int, used + declared));
                    assert(input.skip(used as int).skip(declared as int) =~= input.skip(
                        used + declared,
                    ));
                }
                match string_from_utf8(text) {
                    Some(value) => {
                        proof {
                            encode_utf8_decode_utf8(value@);
                        }
                        Ok(value)
                    },
                    None => Err(ProtocolError::InvalidUtf8),
                }
            },
        }
    }

    fn write(&self, buf: &mut Vec<u8>) -> (result: Result<(), ProtocolError>) {
        let text = self.as_str().as_bytes();
        let size = text.len();
        if size > MAX_STR_LEN {
            assert(buf@ =~= old(buf)@ + Seq::<u8>::empty());
            return Err(ProtocolError::OversizedString);
        }
        let _ = (size as i32).write(buf);
        append_bytes(buf, text);
        assert(buf@ =~= old(buf)@ + string_encoding(self@).bytes);
        Ok(())
    }
}

} // verus!
