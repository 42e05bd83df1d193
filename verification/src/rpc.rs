//! The RPC call engine and its interfaces: serialization traits for the
//! XDR payloads, the transport trait a caller implements, and the
//! transaction-id bookkeeping that pairs each call with its reply.
//!
//! The engine issues one call at a time. Replies whose transaction id is
//! below the one awaited are stale leftovers of an earlier call and are
//! discarded; a transaction id above the awaited one signals a
//! desynchronized connection and fails the call.

use crate::xdr::{be_u32_of, xdr_u32_bytes};
use crate::Error;
use vstd::prelude::*;

verus! {

/// XDR serialization of a request payload.
pub trait Serialize {
    /// The value's canonical wire form.
    spec fn wire(&self) -> Seq<u8>;

    /// Whether the value is small enough for its wire form to be
    /// well-defined (every length fits its 32-bit XDR field).
    spec fn serializable(&self) -> bool;

    /// Appends the value's wire form to `out`.
    fn serialize(&self, out: &mut Vec<u8>)
        requires
            self.serializable(),
        ensures
            final(out)@ == old(out)@ + self.wire(),
    ;
}

/// XDR deserialization of a response payload.
pub trait Deserialize: Sized {
    /// When parsing the given bytes fails: the error it fails with,
    /// or `None` when parsing succeeds.
    spec fn parse_err(data: Seq<u8>) -> Option<Error>;

    /// Whether `v` is what parsing the given bytes yields. For each
    /// input that parses, the implementing type makes this hold of
    /// exactly one value.
    spec fn parse_ok(data: Seq<u8>, v: Self) -> bool;

    /// The offset just past the value's bytes, on inputs that parse.
    spec fn parse_len(data: Seq<u8>) -> int;

    /// Parses a value from the front of `data`, returning it with the
    /// offset just past the bytes it occupied.
    fn deserialize_partial(data: &[u8]) -> (r: Result<(Self, usize), Error>)
        ensures
            match Self::parse_err(data@) {
                Some(e) => r == Err::<(Self, usize), _>(e),
                None => r is Ok && Self::parse_ok(data@, r->Ok_0.0) && r->Ok_0.1 as int
                    == Self::parse_len(data@),
            },
    ;

    /// Parses a value from the front of `data`, discarding the offset.
    fn deserialize(data: &[u8]) -> (r: Result<Self, Error>)
        ensures
            match Self::parse_err(data@) {
                Some(e) => r == Err::<Self, _>(e),
                None => r is Ok && Self::parse_ok(data@, r->Ok_0),
            },
    {
        match Self::deserialize_partial(data) {
            Ok((v, _)) => Ok(v),
            Err(e) => Err(e),
        }
    }
}

impl Serialize for u32 {
    open spec fn wire(&self) -> Seq<u8> {
        crate::xdr::xdr_u32_bytes(*self)
    }

    open spec fn serializable(&self) -> bool {
        true
    }

    fn serialize(&self, out: &mut Vec<u8>) {
        crate::xdr::write_u32(*self, out);
    }
}

impl Deserialize for u32 {
    open spec fn parse_err(data: Seq<u8>) -> Option<Error> {
        if data.len() < 4 {
            Some(Error::XdrError(0))
        } else {
            None
        }
    }

    open spec fn parse_ok(data: Seq<u8>, v: Self) -> bool {
        v == be_u32_of(data.subrange(0, 4))
    }

    open spec fn parse_len(data: Seq<u8>) -> int {
        4
    }

    fn deserialize_partial(data: &[u8]) -> (r: Result<(Self, usize), Error>) {
        match crate::xdr::read_u32_at(data, 0) {
            Ok((v, n)) => {
                proof {
                    assert(Self::parse_len(data@) == 4);
                }
                Ok((v, n))
            },
            Err(e) => Err(e),
        }
    }
}

/// The transport over which the protocol runs: one RPC call at a time,
/// returning the matched reply's opaque response payload. Implement it
/// over a real connection, most simply by driving [`CallEngine`] and the
/// record decoder of [`crate::frame`] over a socket.
pub trait Client {
    /// Performs one RPC call and returns the response payload.
    fn call(&mut self, prog: u32, vers: u32, proc_num: u32, payload: Vec<u8>) -> Result<
        Vec<u8>,
        Error,
    >;
}

/// What a received message means, once parsed as an RPC envelope, to a
/// client awaiting a reply.
pub enum ReplyKind {
    /// An accepted reply with a successful status; carries the opaque
    /// response payload.
    Success(Vec<u8>),
    /// An accepted reply with any non-success status.
    Rejected,
    /// The peer rejected the call's authentication.
    Denied,
    /// A well-formed message that is not a reply.
    NotReply,
}

/// The outcome of parsing one received record as an RPC message.
pub enum ParsedReply {
    /// The bytes did not parse as an RPC message.
    Malformed,
    /// A parsed message with its transaction id and its meaning.
    Parsed { xid: u32, kind: ReplyKind },
}

/// What the receive loop does with one received record.
pub enum ReplyAction {
    /// A stale reply: keep waiting for the next record.
    Ignore,
    /// The call is over, with this outcome.
    Finish(Result<Vec<u8>, Error>),
}

/// The receive loop's judgment of one parsed message while
/// `expected_xid` is awaited: unparsable bytes fail the call; a lower
/// transaction id is a stale reply, silently discarded; a higher one
/// is a protocol violation and fails the call; on the awaited id,
/// success yields the payload, a non-success acceptance, a denial,
/// and a non-reply each fail with their own error.
pub open spec fn spec_reply_action(expected_xid: u32, reply: ParsedReply) -> ReplyAction {
    match reply {
        ParsedReply::Malformed => ReplyAction::Finish(Err(Error::Rpc)),
        ParsedReply::Parsed { xid, kind } => if xid < expected_xid {
            ReplyAction::Ignore
        } else if xid > expected_xid {
            ReplyAction::Finish(Err(Error::UnexpectedXid { expected: expected_xid, actual: xid }))
        } else {
            match kind {
                ReplyKind::Success(p) => ReplyAction::Finish(Ok(p)),
                ReplyKind::Rejected => ReplyAction::Finish(Err(Error::RpcInvalidArgs)),
                ReplyKind::Denied => ReplyAction::Finish(Err(Error::RpcDenied)),
                ReplyKind::NotReply => ReplyAction::Finish(Err(Error::WrongMessageType)),
            }
        },
    }
}

/// Decides what one parsed message means while `expected_xid` is
/// awaited; the judgment is exactly [`spec_reply_action`].
pub fn evaluate_reply(expected_xid: u32, reply: ParsedReply) -> (r: ReplyAction)
    ensures
        r == spec_reply_action(expected_xid, reply),
{
    match reply {
        ParsedReply::Malformed => ReplyAction::Finish(Err(Error::Rpc)),
        ParsedReply::Parsed { xid, kind } => {
            if xid < expected_xid {
                ReplyAction::Ignore
            } else if xid > expected_xid {
                ReplyAction::Finish(Err(Error::UnexpectedXid { expected: expected_xid, actual: xid }))
            } else {
                match kind {
                    ReplyKind::Success(p) => ReplyAction::Finish(Ok(p)),
                    ReplyKind::Rejected => ReplyAction::Finish(Err(Error::RpcInvalidArgs)),
                    ReplyKind::Denied => ReplyAction::Finish(Err(Error::RpcDenied)),
                    ReplyKind::NotReply => ReplyAction::Finish(Err(Error::WrongMessageType)),
                }
            }
        },
    }
}

/// The RPC call message for the given transaction id, program,
/// version, procedure and payload, under AUTH_NONE authentication:
/// the transaction id, message type 0 (a call), RPC version 2, the
/// three numbers, two AUTH_NONE entries (flavor 0, empty body), then
/// the opaque payload bytes.
pub open spec fn call_message_bytes(
    xid: u32,
    prog: u32,
    vers: u32,
    proc_num: u32,
    payload: Seq<u8>,
) -> Seq<u8> {
    xdr_u32_bytes(xid) + xdr_u32_bytes(0) + xdr_u32_bytes(2) + xdr_u32_bytes(prog) + xdr_u32_bytes(
        vers,
    ) + xdr_u32_bytes(proc_num) + xdr_u32_bytes(0) + xdr_u32_bytes(0) + xdr_u32_bytes(0)
        + xdr_u32_bytes(0) + payload
}

/// Relies on onc_rpc::RpcMessage::serialise: for a call message under
/// AUTH_NONE it writes the 4-byte last-fragment record header, then
/// the transaction id, message type 0, RPC version 2, program,
/// version and procedure, two empty AUTH_NONE entries, then the raw
/// payload bytes; its only failure is a message over the 31-bit
/// record bound, which the bound on the payload rules out, and its
/// length arithmetic overflows above that same bound.
#[verifier::external_body]
fn serialize_call_message(xid: u32, prog: u32, vers: u32, proc_num: u32, payload: Vec<u8>) -> (r:
    Result<Vec<u8>, Error>)
    requires
        payload@.len() + 44 <= 0x7fff_ffff,
    ensures
        r is Ok,
        r.unwrap()@ == crate::frame::record_bytes(
            call_message_bytes(xid, prog, vers, proc_num, payload@),
        ),
{
    let body: onc_rpc::CallBody<Vec<u8>, Vec<u8>> = onc_rpc::CallBody::new(
        prog,
        vers,
        proc_num,
        onc_rpc::auth::AuthFlavor::AuthNone(None),
        onc_rpc::auth::AuthFlavor::AuthNone(None),
        payload,
    );
    let msg = onc_rpc::RpcMessage::new(xid, onc_rpc::MessageType::Call(body));
    msg.serialise().map_err(|_| Error::Io)
}

/// What the RPC-envelope parser makes of one received record: a
/// function of the record's bytes alone.
pub uninterp spec fn parse_of(data: Seq<u8>) -> ParsedReply;

/// Relies on onc_rpc::RpcMessage's parser: sorts one received record
/// into the shapes the engine distinguishes, moving the fields out.
/// The outcome depends on the record's bytes alone; which shape comes
/// back from which bytes is not assumed, and the engine handles every
/// shape.
#[verifier::external_body]
fn parse_reply_message(data: &Vec<u8>) -> (r: ParsedReply)
    ensures
        r == parse_of(data@),
{
    let msg = match onc_rpc::RpcMessage::try_from(data.as_slice()) {
        Ok(m) => m,
        Err(_) => return ParsedReply::Malformed,
    };
    let kind = match msg.reply_body() {
        None => ReplyKind::NotReply,
        Some(onc_rpc::ReplyBody::Accepted(a)) => match a.status() {
            onc_rpc::AcceptedStatus::Success(p) => ReplyKind::Success(p.to_vec()),
            _ => ReplyKind::Rejected,
        },
        Some(onc_rpc::ReplyBody::Denied(_)) => ReplyKind::Denied,
    };
    ParsedReply::Parsed { xid: msg.xid(), kind }
}

/// The per-connection call bookkeeping: a transaction id that grows by
/// one with each call issued, never reused, so that every reply can be
/// told apart as stale, awaited, or from the future.
pub struct CallEngine {
    xid: u32,
}

impl CallEngine {
    /// The transaction id of the most recently issued call; zero before
    /// the first.
    pub closed spec fn spec_xid(&self) -> u32 {
        self.xid
    }

    /// An engine for a fresh connection: no call issued yet.
    pub fn new() -> (r: Self)
        ensures
            r.spec_xid() == 0,
    {
        CallEngine { xid: 0 }
    }

    /// Starts the next call: advances the transaction id and returns
    /// the serialized call message to put on the wire — one record of
    /// a single fragment whose header carries the last-fragment bit
    /// and the message length, then the call message itself. A
    /// message over the 31-bit record bound cannot be framed and
    /// fails as an I/O error, its transaction id consumed like any
    /// failed call's; ids cannot wrap, so an exhausted counter
    /// refuses the call.
    pub fn begin_call(&mut self, prog: u32, vers: u32, proc_num: u32, payload: Vec<u8>) -> (r:
        Result<Vec<u8>, Error>)
        ensures
            old(self).spec_xid() < u32::MAX ==> {
                &&& final(self).spec_xid() == old(self).spec_xid() + 1
                &&& (payload@.len() + 44 <= 0x7fff_ffff ==> r is Ok && r.unwrap()@
                    == crate::frame::record_bytes(
                    call_message_bytes(
                        (old(self).spec_xid() + 1) as u32,
                        prog,
                        vers,
                        proc_num,
                        payload@,
                    ),
                ))
                &&& (payload@.len() + 44 > 0x7fff_ffff ==> r == Err::<Vec<u8>, _>(Error::Io))
            },
            old(self).spec_xid() == u32::MAX ==> r == Err::<Vec<u8>, _>(Error::Io)
                && final(self).spec_xid() == old(self).spec_xid(),
    {
        if self.xid == u32::MAX {
            return Err(Error::Io);
        }
        self.xid = self.xid + 1;
        if payload.len() > 0x7fff_ffff - 44 {
            return Err(Error::Io);
        }
        match serialize_call_message(self.xid, prog, vers, proc_num, payload) {
            Ok(m) => Ok(m),
            Err(e) => Err(e),
        }
    }

    /// Judges one received record payload against the call in flight:
    /// repacks it as a single-fragment record, parses it as an RPC
    /// message, and applies [`spec_reply_action`] to the awaited
    /// transaction id. A payload too large to repack fails the call.
    pub fn check_reply(&self, record_payload: Vec<u8>) -> (r: ReplyAction)
        ensures
            record_payload@.len() > 0x7fff_ffff ==> r == ReplyAction::Finish(
                Err::<Vec<u8>, Error>(Error::CannotUnpack),
            ),
            record_payload@.len() <= 0x7fff_ffff ==> r == spec_reply_action(
                self.spec_xid(),
                parse_of(crate::frame::record_bytes(record_payload@)),
            ),
    {
        if record_payload.len() > 0x7fff_ffff {
            return ReplyAction::Finish(Err(Error::CannotUnpack));
        }
        let framed = crate::frame::encode_record(&record_payload);
        let parsed = parse_reply_message(&framed);
        evaluate_reply(self.xid, parsed)
    }
}

/// Performs one RPC call with the given client: serializes the request,
/// sends it, and parses the reply payload as a `Resp`. Every value it
/// returns on success is one that the response parser vouches for.
pub fn call<C: Client, Req: Serialize, Resp: Deserialize>(
    client: &mut C,
    req: &Req,
    prog: u32,
    vers: u32,
    proc_num: u32,
) -> (r: Result<Resp, Error>)
    requires
        req.serializable(),
    ensures
        r is Ok ==> exists|d: Seq<u8>| #[trigger] Resp::parse_ok(d, r->Ok_0),
{
    let mut payload: Vec<u8> = Vec::new();
    req.serialize(&mut payload);
    let data = match client.call(prog, vers, proc_num, payload) {
        Ok(d) => d,
        Err(e) => {
            return Err(e);
        },
    };
    match Resp::deserialize(data.as_slice()) {
        Ok(v) => Ok(v),
        Err(e) => Err(e),
    }
}

} // verus!
