//! The XDR wire codec: fixed-width integers, booleans and variable-length
//! byte arrays in the canonical big-endian, 4-byte-aligned encoding, plus
//! UTF-8 strings as length-prefixed byte arrays.

use crate::Error;
use vstd::prelude::*;

verus! {

/// The big-endian 32-bit value held by four bytes.
pub open spec fn be_u32_of(b: Seq<u8>) -> u32
    recommends
        b.len() == 4,
{
    ((b[0] as u32) << 24) | ((b[1] as u32) << 16) | ((b[2] as u32) << 8) | (b[3] as u32)
}

/// The XDR wire form of a 32-bit unsigned integer: four big-endian bytes.
pub open spec fn xdr_u32_bytes(v: u32) -> Seq<u8> {
    seq![
        ((v >> 24) & 0xff) as u8,
        ((v >> 16) & 0xff) as u8,
        ((v >> 8) & 0xff) as u8,
        (v & 0xff) as u8,
    ]
}

/// The XDR wire form of a boolean: a 32-bit 0 or 1.
pub open spec fn xdr_bool_bytes(b: bool) -> Seq<u8> {
    if b {
        xdr_u32_bytes(1)
    } else {
        xdr_u32_bytes(0)
    }
}

/// How many zero bytes XDR appends after `n` bytes of variable-length
/// data to keep the stream 4-byte-aligned.
pub open spec fn xdr_pad_len(n: int) -> int {
    if n % 4 == 0 {
        0
    } else {
        4 - n % 4
    }
}

/// The XDR wire form of a variable-length byte array: a 4-byte length,
/// the bytes themselves, then zero padding up to a 4-byte boundary.
pub open spec fn xdr_opaque_bytes(d: Seq<u8>) -> Seq<u8>
    recommends
        d.len() <= u32::MAX,
{
    xdr_u32_bytes(d.len() as u32) + d + Seq::new(xdr_pad_len(d.len() as int) as nat, |i: int| 0u8)
}

/// The XDR wire form of a string: its UTF-8 bytes as a variable-length
/// byte array.
pub open spec fn xdr_string_bytes(s: Seq<char>) -> Seq<u8> {
    xdr_opaque_bytes(vstd::utf8::encode_utf8(s))
}

/// Round-trip: reading back the four bytes written for a value yields
/// the value.
pub broadcast proof fn lemma_be_u32_round_trip(v: u32)
    ensures
        #[trigger] be_u32_of(xdr_u32_bytes(v)) == v,
{
    assert((((((v >> 24) & 0xff) as u8) as u32) << 24) | (((((v >> 16) & 0xff) as u8) as u32)
        << 16) | (((((v >> 8) & 0xff) as u8) as u32) << 8) | (((v & 0xff) as u8) as u32)
        == v) by (bit_vector);
}

/// Appends the XDR form of a 32-bit unsigned integer to `out`.
pub fn write_u32(v: u32, out: &mut Vec<u8>)
    ensures
        final(out)@ == old(out)@ + xdr_u32_bytes(v),
{
    proof {
        assert(((v >> 24) & 0xff) < 256 && ((v >> 16) & 0xff) < 256 && ((v >> 8) & 0xff) < 256 && (
        v & 0xff) < 256) by (bit_vector);
    }
    out.push(((v >> 24) & 0xff) as u8);
    out.push(((v >> 16) & 0xff) as u8);
    out.push(((v >> 8) & 0xff) as u8);
    out.push((v & 0xff) as u8);
    assert(out@ =~= old(out)@ + xdr_u32_bytes(v));
}

/// Appends the XDR form of a boolean to `out`.
pub fn write_bool(b: bool, out: &mut Vec<u8>)
    ensures
        final(out)@ == old(out)@ + xdr_bool_bytes(b),
{
    if b {
        write_u32(1, out);
    } else {
        write_u32(0, out);
    }
}

/// Appends the XDR form of a variable-length byte array to `out`.
pub fn write_opaque(d: &[u8], out: &mut Vec<u8>)
    requires
        d@.len() <= 0xffff_fffc,
    ensures
        final(out)@ == old(out)@ + xdr_opaque_bytes(d@),
{
    write_u32(d.len() as u32, out);
    let mut body = vstd::slice::slice_to_vec(d);
    out.append(&mut body);
    let pad: usize = (4 - (d.len() % 4)) % 4;
    assert(pad == xdr_pad_len(d@.len() as int));
    assert(out@ =~= old(out)@ + xdr_u32_bytes(d@.len() as u32) + d@ + Seq::new(
        0nat,
        |i: int| 0u8,
    ));
    let mut j: usize = 0;
    while j < pad
        invariant
            j <= pad,
            pad == xdr_pad_len(d@.len() as int),
            out@ == old(out)@ + xdr_u32_bytes(d@.len() as u32) + d@ + Seq::new(
                j as nat,
                |i: int| 0u8,
            ),
        decreases pad - j,
    {
        out.push(0u8);
        j = j + 1;
        assert(Seq::new(j as nat, |i: int| 0u8) =~= Seq::new((j - 1) as nat, |i: int| 0u8).push(
            0u8,
        ));
        assert(out@ =~= old(out)@ + xdr_u32_bytes(d@.len() as u32) + d@ + Seq::new(
            j as nat,
            |i: int| 0u8,
        ));
    }
    assert(out@ =~= old(out)@ + xdr_opaque_bytes(d@));
}

/// Appends the XDR form of a string to `out`: its UTF-8 bytes as a
/// length-prefixed, padded byte array.
pub fn write_string(s: &str, out: &mut Vec<u8>)
    requires
        vstd::utf8::encode_utf8(s@).len() <= 0xffff_fffc,
    ensures
        final(out)@ == old(out)@ + xdr_string_bytes(s@),
{
    let bytes = s.as_bytes();
    write_opaque(bytes, out);
}

/// Reads a 32-bit unsigned integer at `offset`; on success also returns
/// the offset just past it. Fails with the offset of the short read.
pub fn read_u32_at(data: &[u8], offset: usize) -> (r: Result<(u32, usize), Error>)
    ensures
        offset + 4 <= data@.len() ==> r == Ok::<_, Error>(
            (be_u32_of(data@.subrange(offset as int, offset as int + 4)), (offset + 4) as usize),
        ),
        offset + 4 > data@.len() ==> r == Err::<(u32, usize), _>(Error::XdrError(offset)),
{
    if data.len() < 4 || offset > data.len() - 4 {
        return Err(Error::XdrError(offset));
    }
    let b0 = data[offset];
    let b1 = data[offset + 1];
    let b2 = data[offset + 2];
    let b3 = data[offset + 3];
    let v = ((b0 as u32) << 24) | ((b1 as u32) << 16) | ((b2 as u32) << 8) | (b3 as u32);
    proof {
        let s = data@.subrange(offset as int, offset as int + 4);
        assert(s[0] == b0 && s[1] == b1 && s[2] == b2 && s[3] == b3);
    }
    Ok((v, offset + 4))
}

/// The declared byte count of the variable-length array at `offset`.
pub open spec fn spec_opaque_len(data: Seq<u8>, offset: int) -> int {
    be_u32_of(data.subrange(offset, offset + 4)) as int
}

/// Reads a variable-length byte array at `offset`: a 4-byte length, the
/// bytes, then padding up to a 4-byte boundary. On success also returns
/// the offset just past the padding. Fails with the offset of the array
/// when the declared bytes or their padding run past the input.
pub fn read_opaque_at(data: &[u8], offset: usize) -> (r: Result<(Vec<u8>, usize), Error>)
    ensures
        ({
            let n = spec_opaque_len(data@, offset as int);
            let end = offset + 4 + n + xdr_pad_len(n);
            &&& offset + 4 > data@.len() ==> r == Err::<(Vec<u8>, usize), _>(
                Error::XdrError(offset),
            )
            &&& offset + 4 <= data@.len() && end > data@.len() ==> r == Err::<
                (Vec<u8>, usize),
                _,
            >(Error::XdrError(offset))
            &&& offset + 4 <= data@.len() && end <= data@.len() ==> {
                &&& r is Ok
                &&& r.unwrap().0@ == data@.subrange(offset + 4, offset + 4 + n)
                &&& r.unwrap().1 == end
            }
        }),
{
    let (n32, pos) = match read_u32_at(data, offset) {
        Ok(v) => v,
        Err(e) => {
            return Err(e);
        },
    };
    let n = n32 as usize;
    if data.len() - pos < n {
        return Err(Error::XdrError(offset));
    }
    let end = pos + n;
    let pad: usize = (4 - (n % 4)) % 4;
    if data.len() - end < pad {
        return Err(Error::XdrError(offset));
    }
    let body = vstd::slice::slice_to_vec(vstd::slice::slice_subrange(data, pos, end));
    Ok((body, end + pad))
}

} // verus!
