//! Wire primitives: bounds-checked reads from a byte buffer, and the
//! big-endian layout of 16-bit integers.
//!
//! No function here indexes out of bounds: a read past the end of the buffer
//! is reported as [`RequestError::PacketTooShort`].

use vstd::prelude::*;
use crate::request_error::RequestError;

verus! {

/// The 16-bit integer whose big-endian bytes are `hi`, `lo`.
pub open spec fn u16_from_be(hi: u8, lo: u8) -> u16 {
    (hi as int * 256 + lo as int) as u16
}

/// The most significant byte of `value`.
pub open spec fn u16_hi(value: u16) -> u8 {
    (value as int / 256) as u8
}

/// The least significant byte of `value`.
pub open spec fn u16_lo(value: u16) -> u8 {
    (value as int % 256) as u8
}

/// The two bytes of `value`, most significant first.
pub open spec fn u16_to_be(value: u16) -> Seq<u8> {
    seq![u16_hi(value), u16_lo(value)]
}

/// The 16-bit integers that `bytes` holds, two bytes each, most significant
/// byte first. A last odd byte is left out.
pub open spec fn u16s_from_be(bytes: Seq<u8>) -> Seq<u16> {
    Seq::new(bytes.len() / 2, |i: int| u16_from_be(bytes[2 * i], bytes[2 * i + 1]))
}

/// The bytes of `values`, two for each, most significant byte first.
pub open spec fn u16s_to_be(values: Seq<u16>) -> Seq<u8> {
    Seq::new(
        2 * values.len(),
        |j: int| if j % 2 == 0 { u16_hi(values[j / 2]) } else { u16_lo(values[j / 2]) },
    )
}

/// The byte at `index`, or the error that reading it gives when the buffer
/// ends before it.
pub open spec fn spec_read_u8(bytes: Seq<u8>, index: int) -> Result<u8, RequestError> {
    if 0 <= index < bytes.len() {
        Ok(bytes[index])
    } else {
        Err(RequestError::PacketTooShort)
    }
}

/// The `len` bytes that start at `start`, or the error that reading them
/// gives when the buffer holds fewer than `start + len` bytes.
pub open spec fn spec_read_slice(bytes: Seq<u8>, start: int, len: int) -> Result<
    Seq<u8>,
    RequestError,
> {
    if 0 <= start && 0 <= len && start + len <= bytes.len() {
        Ok(bytes.subrange(start, start + len))
    } else {
        Err(RequestError::PacketTooShort)
    }
}

/// The 16-bit big-endian integer that starts at `index`, or the error that
/// reading it gives when the buffer holds fewer than `index + 2` bytes.
pub open spec fn spec_read_u16(bytes: Seq<u8>, index: int) -> Result<u16, RequestError> {
    if 0 <= index && index + 2 <= bytes.len() {
        Ok(u16_from_be(bytes[index], bytes[index + 1]))
    } else {
        Err(RequestError::PacketTooShort)
    }
}

/// Splitting a 16-bit integer into its two bytes and joining them again
/// gives the integer back.
pub proof fn lemma_u16_split_join(value: u16)
    ensures
        u16_from_be(u16_hi(value), u16_lo(value)) == value,
{
}

/// Joining two bytes and splitting the result gives the two bytes back.
pub proof fn lemma_u16_join_split(hi: u8, lo: u8)
    ensures
        u16_hi(u16_from_be(hi, lo)) == hi,
        u16_lo(u16_from_be(hi, lo)) == lo,
{
}

/// Laying a sequence of 16-bit integers out as bytes and reading them back
/// gives the sequence back.
pub proof fn lemma_u16s_to_from(values: Seq<u16>)
    ensures
        u16s_to_be(values).len() == 2 * values.len(),
        u16s_from_be(u16s_to_be(values)) == values,
{
    let bytes = u16s_to_be(values);
    assert forall|i: int| 0 <= i < values.len() implies u16s_from_be(bytes)[i] == values[i] by {
        lemma_u16_split_join(values[i]);
    }
    assert(u16s_from_be(bytes) =~= values);
}

/// Reading an even number of bytes as 16-bit integers and laying those out
/// again gives the bytes back.
pub proof fn lemma_u16s_from_to(bytes: Seq<u8>)
    requires
        bytes.len() % 2 == 0,
    ensures
        u16s_from_be(bytes).len() * 2 == bytes.len(),
        u16s_to_be(u16s_from_be(bytes)) == bytes,
{
    let values = u16s_from_be(bytes);
    assert forall|j: int| 0 <= j < bytes.len() implies u16s_to_be(values)[j] == bytes[j] by {
        lemma_u16_join_split(bytes[2 * (j / 2)], bytes[2 * (j / 2) + 1]);
    }
    assert(u16s_to_be(values) =~= bytes);
}

/// Laying out one more integer appends its two bytes.
pub proof fn lemma_u16s_to_be_push(values: Seq<u16>, value: u16)
    ensures
        u16s_to_be(values.push(value)) == u16s_to_be(values) + u16_to_be(value),
{
    assert(u16s_to_be(values.push(value)) =~= u16s_to_be(values) + u16_to_be(value));
}

/// Reads the byte at `index`.
pub fn read_u8(bytes: &[u8], index: usize) -> (res: Result<u8, RequestError>)
    ensures
        res == spec_read_u8(bytes@, index as int),
{
    if index < bytes.len() {
        Ok(bytes[index])
    } else {
        Err(RequestError::PacketTooShort)
    }
}

/// Reads the 16-bit big-endian integer whose first byte is at `index`.
pub fn read_u16(bytes: &[u8], index: usize) -> (res: Result<u16, RequestError>)
    ensures
        res == spec_read_u16(bytes@, index as int),
{
    if index < bytes.len() && 1 < bytes.len() - index {
        let hi: u8 = bytes[index];
        let lo: u8 = bytes[index + 1];
        let value: u16 = ((hi as u16) << 8) | (lo as u16);
        assert(value == u16_from_be(hi, lo)) by (bit_vector)
            requires
                value == ((hi as u16) << 8) | (lo as u16),
        ;
        Ok(value)
    } else {
        Err(RequestError::PacketTooShort)
    }
}

/// Borrows the `len` bytes that start at `start`.
pub fn read_slice(bytes: &[u8], start: usize, len: usize) -> (res: Result<&[u8], RequestError>)
    ensures
        match res {
            Ok(slice) => spec_read_slice(bytes@, start as int, len as int) == Ok::<
                Seq<u8>,
                RequestError,
            >(slice@),
            Err(error) => spec_read_slice(bytes@, start as int, len as int) == Err::<
                Seq<u8>,
                RequestError,
            >(error),
        },
{
    if start <= bytes.len() && len <= bytes.len() - start {
        Ok(&bytes[start..start + len])
    } else {
        Err(RequestError::PacketTooShort)
    }
}

/// Appends the two bytes of `value` to `buf`, most significant first.
pub fn push_u16(buf: &mut Vec<u8>, value: u16)
    ensures
        final(buf)@ == old(buf)@ + u16_to_be(value),
{
    let hi: u8 = (value >> 8) as u8;
    let lo: u8 = (value & 0xff) as u8;
    assert(hi == u16_hi(value) && lo == u16_lo(value)) by (bit_vector)
        requires
            hi == (value >> 8) as u8,
            lo == (value & 0xff) as u8,
    ;
    buf.push(hi);
    buf.push(lo);
}

} // verus!
