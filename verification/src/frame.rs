//! The record-marking transport layer: one RPC message travels as one
//! *record*, split into fragments. Each fragment is prefixed by a 4-byte
//! big-endian header whose high bit marks the last fragment and whose low
//! 31 bits give the fragment's byte length. A record's payload is the
//! concatenation of its fragment bodies, in arrival order, up to the
//! first fragment with the last-fragment bit set, that one counted too.

use crate::xdr::{be_u32_of, xdr_u32_bytes};
use crate::Error;
use vstd::prelude::*;

verus! {

/// The 4-byte header of a fragment whose body holds `len` bytes, with
/// the last-fragment bit set iff `last`.
pub open spec fn fragment_header_bytes(last: bool, len: u32) -> Seq<u8>
    recommends
        len < 0x8000_0000,
{
    if last {
        xdr_u32_bytes(0x8000_0000u32 | len)
    } else {
        xdr_u32_bytes(len)
    }
}

/// One whole record sent as a single fragment carrying `payload`.
pub open spec fn record_bytes(payload: Seq<u8>) -> Seq<u8>
    recommends
        payload.len() <= 0x7fff_ffff,
{
    fragment_header_bytes(true, payload.len() as u32) + payload
}

/// What decoding one record from the front of a byte stream yields: the
/// record's payload and how many stream bytes the record occupies; `None`
/// when the stream ends before a last-marked fragment is complete.
pub open spec fn spec_decode_record(data: Seq<u8>) -> Option<(Seq<u8>, int)>
    decreases data.len(),
{
    if data.len() < 4 {
        None
    } else {
        let header = be_u32_of(data.subrange(0, 4));
        let len = (header & 0x7fff_ffff) as int;
        if data.len() < 4 + len {
            None
        } else if header & 0x8000_0000u32 != 0 {
            Some((data.subrange(4, 4 + len), 4 + len))
        } else {
            match spec_decode_record(data.skip(4 + len)) {
                None => None,
                Some((p, c)) => Some((data.subrange(4, 4 + len) + p, 4 + len + c)),
            }
        }
    }
}

/// Unfolds the decoder across one whole fragment at the front of the
/// stream: a last-marked fragment ends the record there, and any other
/// fragment contributes its body before whatever the rest decodes to.
pub proof fn lemma_decode_step(last: bool, body: Seq<u8>, tail: Seq<u8>)
    requires
        body.len() < 0x8000_0000,
    ensures
        ({
            let stream = fragment_header_bytes(last, body.len() as u32) + body + tail;
            if last {
                spec_decode_record(stream) == Some((body, 4 + body.len() as int))
            } else {
                match spec_decode_record(tail) {
                    None => spec_decode_record(stream) is None,
                    Some((p, c)) => spec_decode_record(stream) == Some(
                        (body + p, 4 + body.len() + c),
                    ),
                }
            }
        }),
{
    let len32 = body.len() as u32;
    let header: u32 = if last {
        0x8000_0000u32 | len32
    } else {
        len32
    };
    let stream = fragment_header_bytes(last, len32) + body + tail;
    assert(stream.subrange(0, 4) =~= xdr_u32_bytes(header));
    crate::xdr::lemma_be_u32_round_trip(header);
    assert(len32 < 0x8000_0000u32 ==> ((0x8000_0000u32 | len32) & 0x7fff_ffff == len32 && (
    0x8000_0000u32 | len32) & 0x8000_0000u32 != 0 && len32 & 0x7fff_ffff == len32 && len32
        & 0x8000_0000u32 == 0)) by (bit_vector);
    assert(stream.subrange(4, 4 + body.len() as int) =~= body);
    assert(stream.skip(4 + body.len() as int) =~= tail);
}

/// Framing round-trip: for every byte sequence, the record that frames
/// it as a single fragment decodes back to exactly that sequence, and
/// decoding consumes exactly the record's bytes.
pub proof fn lemma_record_round_trip(payload: Seq<u8>)
    requires
        payload.len() <= 0x7fff_ffff,
    ensures
        spec_decode_record(record_bytes(payload)) == Some((payload, 4 + payload.len() as int)),
{
    lemma_decode_step(true, payload, Seq::<u8>::empty());
    assert(fragment_header_bytes(true, payload.len() as u32) + payload + Seq::<u8>::empty()
        =~= record_bytes(payload));
}

/// Multi-fragment reassembly: a record split into three fragments with
/// only the third marked last decodes to the three bodies concatenated,
/// and decoding consumes exactly the record's bytes, leaving any
/// subsequent stream bytes untouched.
pub proof fn lemma_multi_fragment_reassembly(f1: Seq<u8>, f2: Seq<u8>, f3: Seq<u8>, rest: Seq<u8>)
    requires
        f1.len() < 0x8000_0000,
        f2.len() < 0x8000_0000,
        f3.len() < 0x8000_0000,
    ensures
        ({
            let stream = fragment_header_bytes(false, f1.len() as u32) + f1
                + fragment_header_bytes(false, f2.len() as u32) + f2 + fragment_header_bytes(
                true,
                f3.len() as u32,
            ) + f3 + rest;
            spec_decode_record(stream) == Some(
                (f1 + f2 + f3, 12 + f1.len() as int + f2.len() + f3.len()),
            )
        }),
{
    let s3 = fragment_header_bytes(true, f3.len() as u32) + f3 + rest;
    lemma_decode_step(true, f3, rest);
    let s2 = fragment_header_bytes(false, f2.len() as u32) + f2 + s3;
    lemma_decode_step(false, f2, s3);
    let s1 = fragment_header_bytes(false, f1.len() as u32) + f1 + s2;
    lemma_decode_step(false, f1, s2);
    let stream = fragment_header_bytes(false, f1.len() as u32) + f1 + fragment_header_bytes(
        false,
        f2.len() as u32,
    ) + f2 + fragment_header_bytes(true, f3.len() as u32) + f3 + rest;
    assert(stream =~= s1);
    assert(f1 + (f2 + f3) =~= f1 + f2 + f3);
}

/// Frames `payload` as one record of a single fragment with the
/// last-fragment bit set.
pub fn encode_record(payload: &Vec<u8>) -> (r: Vec<u8>)
    requires
        payload@.len() <= 0x7fff_ffff,
    ensures
        r@ == record_bytes(payload@),
{
    let len32: u32 = payload.len() as u32;
    let mut out: Vec<u8> = Vec::new();
    crate::xdr::write_u32(0x8000_0000u32 | len32, &mut out);
    let mut body = vstd::slice::slice_to_vec(payload.as_slice());
    out.append(&mut body);
    assert(out@ =~= record_bytes(payload@));
    out
}

/// Splits a 4-byte fragment header into its last-fragment flag and its
/// 31-bit body length.
pub fn parse_header(h: &[u8]) -> (r: (bool, u32))
    requires
        h@.len() == 4,
    ensures
        r.0 == (be_u32_of(h@) & 0x8000_0000u32 != 0),
        r.1 == be_u32_of(h@) & 0x7fff_ffff,
{
    let v = match crate::xdr::read_u32_at(h, 0) {
        Ok((v, _)) => v,
        Err(_) => {
            proof {
                assert(false);
            }
            0
        },
    };
    proof {
        assert(h@.subrange(0, 4) =~= h@);
    }
    (v & 0x8000_0000u32 != 0, v & 0x7fff_ffff)
}

/// Reassembles one record from fragment bodies pushed in arrival order;
/// the record is complete once a body arrives with the last-fragment
/// flag.
pub struct RecordAssembler {
    /// The fragment bodies accumulated so far, concatenated.
    pub payload: Vec<u8>,
    /// Whether a last-marked fragment has been pushed.
    pub complete: bool,
}

impl RecordAssembler {
    /// An assembler holding no bytes of an incomplete record.
    pub fn new() -> (r: Self)
        ensures
            r.payload@ == Seq::<u8>::empty(),
            !r.complete,
    {
        RecordAssembler { payload: Vec::new(), complete: false }
    }

    /// Appends one fragment body; `last` is the fragment header's
    /// last-fragment bit.
    pub fn push_fragment(&mut self, body: Vec<u8>, last: bool)
        requires
            !old(self).complete,
        ensures
            final(self).payload@ == old(self).payload@ + body@,
            final(self).complete == last,
    {
        let mut b = body;
        self.payload.append(&mut b);
        self.complete = last;
    }

    /// Whether a last-marked fragment has been pushed.
    pub fn is_complete(&self) -> (r: bool)
        ensures
            r == self.complete,
    {
        self.complete
    }

    /// The reassembled record payload.
    pub fn into_payload(self) -> (r: Vec<u8>)
        requires
            self.complete,
        ensures
            r@ == self.payload@,
    {
        self.payload
    }
}

/// Decodes one record from the front of `data`: walks fragment headers,
/// concatenates the declared bodies, and stops at the first last-marked
/// fragment, returning the payload and the bytes consumed. Fails when
/// the input ends before the record is complete, which models the
/// transport's short read.
pub fn decode_record(data: &[u8]) -> (r: Result<(Vec<u8>, usize), Error>)
    ensures
        ({
            match spec_decode_record(data@) {
                Some((p, c)) => {
                    &&& r is Ok
                    &&& r.unwrap().0@ == p
                    &&& r.unwrap().1 == c
                },
                None => r == Err::<(Vec<u8>, usize), _>(Error::Io),
            }
        }),
{
    let mut acc: Vec<u8> = Vec::new();
    let mut pos: usize = 0;
    proof {
        assert(data@.skip(0) =~= data@);
    }
    loop
        invariant
            pos <= data@.len(),
            ({
                match spec_decode_record(data@) {
                    Some((p, c)) => match spec_decode_record(data@.skip(pos as int)) {
                        Some((p2, c2)) => p == acc@ + p2 && c == pos + c2,
                        None => false,
                    },
                    None => spec_decode_record(data@.skip(pos as int)) is None,
                }
            }),
        decreases data@.len() - pos,
    {
        let ghost tail = data@.skip(pos as int);
        if data.len() - pos < 4 {
            return Err(Error::Io);
        }
        let header = vstd::slice::slice_subrange(data, pos, pos + 4);
        let (last, len32) = parse_header(header);
        proof {
            assert(tail.subrange(0, 4) =~= data@.subrange(pos as int, pos as int + 4));
        }
        let len = len32 as usize;
        if data.len() - (pos + 4) < len {
            proof {
                assert(spec_decode_record(tail) is None);
            }
            return Err(Error::Io);
        }
        let mut body = vstd::slice::slice_to_vec(
            vstd::slice::slice_subrange(data, pos + 4, pos + 4 + len),
        );
        proof {
            assert(body@ =~= tail.subrange(4, 4 + len as int));
        }
        acc.append(&mut body);
        pos = pos + 4 + len;
        if last {
            proof {
                assert(spec_decode_record(data@) is Some);
            }
            return Ok((acc, pos));
        }
        proof {
            assert(data@.skip(pos as int) =~= tail.skip(4 + len as int));
        }
    }
}

} // verus!
