//! Variable-length (LEB128) integer encodings.
//!
//! The binary format writes vector lengths and most indices as unsigned
//! LEB128 integers, and type-reference indices as signed LEB128 integers
//! (they are decoded as a signed 33-bit quantity, so a non-negative index
//! still carries sign-continuation bits).

use vstd::prelude::*;

verus! {

/// The unsigned LEB128 encoding of `n`: seven bits per byte, least
/// significant group first, high bit set on every byte but the last.
pub open spec fn unsigned_leb128(n: nat) -> Seq<u8>
    decreases n,
{
    if n < 128 {
        seq![n as u8]
    } else {
        seq![(n % 128 + 128) as u8] + unsigned_leb128(n / 128)
    }
}

/// The signed LEB128 encoding of a non-negative value `n`: as the unsigned
/// form, except that a final byte with its bit 6 set would read back as a
/// negative number, so the encoding continues until bit 6 of the last byte
/// is clear.
pub open spec fn signed_leb128(n: nat) -> Seq<u8>
    decreases n,
{
    if n < 64 {
        seq![n as u8]
    } else {
        seq![(n % 128 + 128) as u8] + signed_leb128(n / 128)
    }
}

/// Append the unsigned LEB128 encoding of `n` to `sink`.
pub fn push_unsigned_leb128(sink: &mut Vec<u8>, n: u32)
    ensures
        final(sink)@ == old(sink)@ + unsigned_leb128(n as nat),
    decreases n,
{
    if n < 128 {
        sink.push(n as u8);
        assert(sink@ =~= old(sink)@ + unsigned_leb128(n as nat));
    } else {
        sink.push((n % 128 + 128) as u8);
        push_unsigned_leb128(sink, n / 128);
        assert(sink@ =~= old(sink)@ + unsigned_leb128(n as nat));
    }
}

/// Append the signed LEB128 encoding of the non-negative value `n` to
/// `sink`.
pub fn push_signed_leb128(sink: &mut Vec<u8>, n: u32)
    ensures
        final(sink)@ == old(sink)@ + signed_leb128(n as nat),
    decreases n,
{
    if n < 64 {
        sink.push(n as u8);
        assert(sink@ =~= old(sink)@ + signed_leb128(n as nat));
    } else {
        sink.push((n % 128 + 128) as u8);
        push_signed_leb128(sink, n / 128);
        assert(sink@ =~= old(sink)@ + signed_leb128(n as nat));
    }
}

} // verus!
