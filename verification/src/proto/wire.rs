//! Big-endian integers as sequences of bytes.

use vstd::prelude::*;

verus! {

/// The number of values that `width` bytes can hold: 256 to the power `width`.
pub open spec fn radix(width: nat) -> nat
    decreases width,
{
    if width == 0 {
        1
    } else {
        256 * radix((width - 1) as nat)
    }
}

/// The number that `bytes` denote, most significant byte first.
pub open spec fn be_value(bytes: Seq<u8>) -> nat
    decreases bytes.len(),
{
    if bytes.len() == 0 {
        0
    } else {
        256 * be_value(bytes.drop_last()) + bytes.last() as nat
    }
}

/// The `width` low-order bytes of `value`, most significant byte first.
pub open spec fn be_bytes(value: nat, width: nat) -> Seq<u8>
    decreases width,
{
    if width == 0 {
        Seq::<u8>::empty()
    } else {
        be_bytes(value / 256, (width - 1) as nat).push((value % 256) as u8)
    }
}

/// The unsigned number that stands for `value` in two's complement on `width` bytes.
pub open spec fn to_unsigned(value: int, width: nat) -> nat {
    if value < 0 {
        (value + radix(width)) as nat
    } else {
        value as nat
    }
}

/// The signed number that `value` stands for in two's complement on `width` bytes.
pub open spec fn to_signed(value: nat, width: nat) -> int {
    if 2 * value >= radix(width) {
        value - radix(width)
    } else {
        value as int
    }
}

/// The values of `radix` at the widths of the machine integers.
pub proof fn lemma_radix_values()
    ensures
        radix(1) == 0x100,
        radix(2) == 0x1_0000,
        radix(4) == 0x1_0000_0000,
        radix(8) == 0x1_0000_0000_0000_0000,
{
    reveal_with_fuel(radix, 9);
}

/// `be_bytes` gives exactly `width` bytes.
pub proof fn lemma_be_bytes_len(value: nat, width: nat)
    ensures
        be_bytes(value, width).len() == width,
    decreases width,
{
    if width > 0 {
        lemma_be_bytes_len(value / 256, (width - 1) as nat);
    }
}

/// A sequence of bytes denotes a number below `radix` of its length.
pub proof fn lemma_be_value_bound(bytes: Seq<u8>)
    ensures
        be_value(bytes) < radix(bytes.len()),
    decreases bytes.len(),
{
    if bytes.len() > 0 {
        lemma_be_value_bound(bytes.drop_last());
    }
}

/// Writing a number that fits and reading the bytes back gives the number.
pub proof fn lemma_be_value_of_bytes(value: nat, width: nat)
    requires
        value < radix(width),
    ensures
        be_value(be_bytes(value, width)) == value,
    decreases width,
{
    if width > 0 {
        let shorter = (width - 1) as nat;
        lemma_be_value_of_bytes(value / 256, shorter);
        let bytes = be_bytes(value, width);
        assert(bytes.drop_last() =~= be_bytes(value / 256, shorter));
        assert(bytes.last() == (value % 256) as u8);
    }
}

/// Reading bytes and writing the number back on as many bytes gives the bytes.
pub proof fn lemma_be_bytes_of_value(bytes: Seq<u8>)
    ensures
        be_bytes(be_value(bytes), bytes.len()) == bytes,
    decreases bytes.len(),
{
    if bytes.len() > 0 {
        let value = be_value(bytes);
        lemma_be_bytes_of_value(bytes.drop_last());
        assert(value / 256 == be_value(bytes.drop_last()));
        assert(value % 256 == bytes.last() as nat);
        assert(be_bytes(value, bytes.len()) =~= bytes);
    } else {
        assert(be_bytes(be_value(bytes), bytes.len()) =~= bytes);
    }
}

/// Two's complement loses nothing on the numbers that `width` bytes can hold.
pub proof fn lemma_signed_round_trip(value: int, width: nat)
    requires
        width > 0,
        -(radix(width) as int) <= 2 * value < radix(width),
    ensures
        to_unsigned(value, width) < radix(width),
        to_signed(to_unsigned(value, width), width) == value,
{
}

/// Every unsigned number on `width` bytes stands for one signed number.
pub proof fn lemma_unsigned_round_trip(value: nat, width: nat)
    requires
        width > 0,
        value < radix(width),
    ensures
        -(radix(width) as int) <= 2 * to_signed(value, width) < radix(width),
        to_unsigned(to_signed(value, width), width) == value,
{
}

} // verus!
