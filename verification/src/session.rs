//! The device-link session: the protocol state machine over an open
//! transport. A session starts unlinked, opens a link with one
//! link-creation call, streams writes out in chunks bounded by the
//! server's advertised transfer size, reads until the server signals
//! an end condition, and ends with one destroy call that consumes the
//! session.

use crate::calls::{
    CreateLinkRequest, CreateLinkResponse, DeviceReadRequest, DeviceReadResponse,
    DeviceWriteRequest, DeviceWriteResponse,
};
use crate::rpc::Client;
use crate::Error;
use vstd::prelude::*;

verus! {

/// The device-link service's RPC program number.
const PROG: u32 = 0x0607af;

/// The device-link service's RPC program version.
const VERS: u32 = 1;

/// The link-creation procedure.
const CALL_CREATE_LINK: u32 = 10;

/// The link-destruction procedure.
const CALL_DESTROY_LINK: u32 = 23;

/// The device-write procedure.
const CALL_DEVICE_WRITE: u32 = 11;

/// The device-read procedure.
const CALL_DEVICE_READ: u32 = 12;

/// The default I/O timeout, in milliseconds.
pub const IO_TIMEOUT_MS: u32 = 1000;

/// Write-call flag: this chunk ends the message.
pub const OP_FLAG_END: u32 = 8;

/// Read-call flag: the carried termination character is in force.
pub const OP_FLAG_TERMCHAR_SET: u32 = 128;

/// Read-reason bit: the termination character was seen.
pub const RX_CHR: u32 = 2;

/// Read-reason bit: end of message.
pub const RX_END: u32 = 4;

/// The client-side ceiling on the server's advertised transfer size,
/// bounding how much memory one chunk may take.
pub const MAX_RECV_CLAMP: u32 = 1024 * 1024;

/// Per-session configuration, read by every write and read call the
/// session issues.
#[derive(Clone, Copy, Debug)]
pub struct VxiOptions {
    /// The termination character that ends a read, when set.
    pub termchr: Option<u8>,
    /// How long the server may wait for the device lock, in
    /// milliseconds.
    pub lock_timeout_ms: u32,
    /// How long the server may wait on device I/O, in milliseconds.
    pub io_timeout_ms: u32,
}

impl Default for VxiOptions {
    /// No termination character, no lock patience, one second of I/O
    /// patience.
    fn default() -> (r: Self)
        ensures
            r.termchr is None,
            r.lock_timeout_ms == 0,
            r.io_timeout_ms == IO_TIMEOUT_MS,
    {
        VxiOptions { termchr: None, lock_timeout_ms: 0, io_timeout_ms: IO_TIMEOUT_MS }
    }
}

/// Turns a reply's application-level error code into this client's
/// error: zero is success, anything else is the remote error, code
/// kept.
pub fn check_remote_error(err: u32) -> (r: Result<(), Error>)
    ensures
        err == 0 ==> r == Ok::<(), Error>(()),
        err != 0 ==> r == Err::<(), Error>(Error::VxiRemoteError(err)),
{
    if err != 0 {
        Err(Error::VxiRemoteError(err))
    } else {
        Ok(())
    }
}

/// Whether a read reply's reason code ends the read loop: the end bit
/// or the termination-character bit does.
pub fn read_done(reason: u32) -> (r: bool)
    ensures
        r == ((reason & (RX_END | RX_CHR)) != 0),
{
    reason & (RX_END | RX_CHR) != 0
}

/// Where the write chunk starting at `offset` ends: `max` bytes on,
/// or at the end of the data, whichever comes first.
pub open spec fn spec_chunk_end(len: int, offset: int, max: int) -> int {
    if offset + max < len {
        offset + max
    } else {
        len
    }
}

/// The chunks in which a write leaves: full `max`-byte chunks, then
/// whatever remains. Meaningful for a positive `max`.
pub open spec fn write_chunks(data: Seq<u8>, max: int) -> Seq<Seq<u8>>
    recommends
        max >= 1,
    decreases data.len(),
{
    if max < 1 || data.len() == 0 {
        Seq::empty()
    } else if data.len() <= max {
        seq![data]
    } else {
        seq![data.subrange(0, max)] + write_chunks(data.skip(max), max)
    }
}

/// Write chunking, in general: with a positive transfer size the
/// chunks reassemble to exactly the data; every chunk is nonempty and
/// at most the transfer size; every chunk but the last is exactly the
/// transfer size; no data takes no chunk, and otherwise the chunk
/// count is the data's length divided by the transfer size, rounded
/// up.
pub proof fn lemma_write_chunks_reassemble(data: Seq<u8>, max: int)
    requires
        max >= 1,
    ensures
        write_chunks(data, max).flatten() == data,
        forall|i: int|
            0 <= i < write_chunks(data, max).len() ==> 1 <= #[trigger] write_chunks(data, max)[i].len()
                <= max,
        forall|i: int|
            0 <= i < write_chunks(data, max).len() - 1 ==> #[trigger] write_chunks(data, max)[i].len()
                == max,
        data.len() == 0 ==> write_chunks(data, max).len() == 0,
        data.len() > 0 ==> (write_chunks(data, max).len() - 1) * max < data.len() <= write_chunks(
            data,
            max,
        ).len() * max,
    decreases data.len(),
{
    let cs = write_chunks(data, max);
    if data.len() == 0 {
        assert(cs.flatten() =~= data);
    } else if data.len() <= max {
        assert(cs =~= seq![data]);
        cs.lemma_flatten_one_element();
        assert(cs.flatten() =~= data);
        assert((cs.len() - 1) * max < data.len() <= cs.len() * max) by (nonlinear_arith)
            requires
                cs.len() == 1,
                0 < data.len() <= max,
        ;
    } else {
        let head = data.subrange(0, max);
        let rest = data.skip(max);
        lemma_write_chunks_reassemble(rest, max);
        let cst = write_chunks(rest, max);
        assert(cs == seq![head] + cst);
        assert(cs.first() == head);
        assert(cs.drop_first() =~= cst);
        assert(head + rest =~= data);
        assert(cs.flatten() =~= cs.first().add(cs.drop_first().flatten()));
        assert(cs.flatten() =~= data);
        assert forall|i: int| 0 <= i < cs.len() implies 1 <= #[trigger] cs[i].len() <= max by {
            if i > 0 {
                assert(cs[i] == cst[i - 1]);
            }
        }
        assert forall|i: int| 0 <= i < cs.len() - 1 implies #[trigger] cs[i].len() == max by {
            if i > 0 {
                assert(cs[i] == cst[i - 1]);
            }
        }
        assert((cs.len() - 1) * max < data.len() <= cs.len() * max) by (nonlinear_arith)
            requires
                cs.len() == cst.len() + 1,
                data.len() == rest.len() + max,
                (cst.len() - 1) * max < rest.len() <= cst.len() * max,
        ;
    }
}

/// Folds one read reply into the accumulated data: a remote error
/// aborts and leaves the accumulator as it was; otherwise the reply's
/// bytes are appended and the result says whether the reason code ends
/// the read.
pub fn process_read_reply(acc: &mut Vec<u8>, resp: DeviceReadResponse) -> (r: Result<bool, Error>)
    ensures
        resp.error != 0 ==> r == Err::<bool, Error>(Error::VxiRemoteError(resp.error))
            && final(acc)@ == old(acc)@,
        resp.error == 0 ==> final(acc)@ == old(acc)@ + resp.data@ && r == Ok::<bool, Error>(
            (resp.reason & (RX_END | RX_CHR)) != 0,
        ),
{
    if resp.error != 0 {
        return Err(Error::VxiRemoteError(resp.error));
    }
    let reason = resp.reason;
    let mut d = resp.data;
    acc.append(&mut d);
    Ok(read_done(reason))
}

/// Relies on rand::random: draws one machine-random 16-bit value.
/// Nothing is assumed of which value comes back.
#[verifier::external_body]
fn random_u16() -> u16 {
    rand::random::<u16>()
}

/// The fixed device name carried in every link-creation call.
fn device_name() -> (r: String)
    ensures
        r@ == "instr"@,
        vstd::utf8::encode_utf8(r@).len() == 5,
{
    let s: &str = "instr";
    proof {
        reveal_strlit("instr");
        assert(vstd::utf8::is_ascii_chars(s@));
        vstd::utf8::is_ascii_chars_encode_utf8(s@);
    }
    s.to_owned()
}

/// The device-link session over a transport `C`. It owns the
/// transport exclusively; the link fields are those the server
/// assigned at link creation, with the transfer size clamped to
/// [`MAX_RECV_CLAMP`] so a session never holds more than that per
/// chunk.
pub struct CoreClient<C: Client> {
    /// The transport the session owns exclusively for its lifetime.
    pub client: C,
    /// The abort channel's port, as validated at link creation.
    pub abort_port: u16,
    /// Per-session configuration.
    pub options: VxiOptions,
    /// The largest payload per write call, clamped server value.
    pub max_recv_size: u32,
    /// The server-assigned link handle.
    pub link_id: u32,
    /// The locally drawn id that tells this session apart server-side.
    pub client_id: u32,
}

impl<C: Client> CoreClient<C> {
    /// A session over a freshly connected transport: unlinked, with
    /// default options and a client id drawn at random — two 16-bit
    /// draws summed, plus one, so it is never zero.
    pub fn new(client: C) -> (r: Self)
        ensures
            r.abort_port == 0,
            r.options.termchr is None,
            r.options.lock_timeout_ms == 0,
            r.options.io_timeout_ms == IO_TIMEOUT_MS,
            r.max_recv_size == 0,
            r.link_id == 0,
            1 <= r.client_id <= 0x1ffff,
    {
        let rnd1 = random_u16() as u32;
        let rnd2 = random_u16() as u32;
        CoreClient {
            client,
            abort_port: 0,
            options: VxiOptions::default(),
            max_recv_size: 0,
            link_id: 0,
            client_id: rnd1 + rnd2 + 1,
        }
    }

    /// The link-creation call for this session: the session's client
    /// id, the lock flag and timeout asked for, and the fixed device
    /// name.
    pub fn create_link_request(&self, lock: bool, lock_timeout_ms: u32) -> (r: CreateLinkRequest)
        ensures
            r.client_id == self.client_id,
            r.lock == lock,
            r.lock_timeout_ms == lock_timeout_ms,
            r.device@ == "instr"@,
            vstd::utf8::encode_utf8(r.device@).len() == 5,
    {
        CreateLinkRequest {
            client_id: self.client_id,
            lock,
            lock_timeout_ms,
            device: device_name(),
        }
    }

    /// Applies one link-creation reply, exactly as the protocol
    /// prescribes: the link id is stored, the server's transfer size
    /// is clamped to the client ceiling, then the port must fit the
    /// 16-bit range, and only then does a nonzero error code surface
    /// as the remote error. The link fields stay populated even on a
    /// remote error, which keeps that error apart from a transport
    /// failure; a caller must see Ok before trusting them.
    pub fn apply_create_link(&mut self, resp: CreateLinkResponse) -> (r: Result<(), Error>)
        ensures
            final(self).link_id == resp.link_id,
            final(self).max_recv_size == if resp.max_recv_size < MAX_RECV_CLAMP {
                resp.max_recv_size
            } else {
                MAX_RECV_CLAMP
            },
            final(self).max_recv_size <= MAX_RECV_CLAMP,
            final(self).options == old(self).options,
            final(self).client_id == old(self).client_id,
            resp.port >= 65535 ==> r == Err::<(), Error>(Error::InvalidPortNumber)
                && final(self).abort_port == old(self).abort_port,
            resp.port < 65535 ==> {
                &&& final(self).abort_port == resp.port as u16
                &&& (resp.error == 0 ==> r == Ok::<(), Error>(()))
                &&& (resp.error != 0 ==> r == Err::<(), Error>(Error::VxiRemoteError(resp.error)))
            },
    {
        self.link_id = resp.link_id;
        self.max_recv_size = if resp.max_recv_size < MAX_RECV_CLAMP {
            resp.max_recv_size
        } else {
            MAX_RECV_CLAMP
        };
        if resp.port < 65535 {
            self.abort_port = resp.port as u16;
        } else {
            return Err(Error::InvalidPortNumber);
        }
        check_remote_error(resp.error)
    }

    /// Opens the link: one link-creation call carrying the client id,
    /// the lock flag and timeout, and the fixed device name, whose
    /// reply is applied by [`Self::apply_create_link`]. On success the
    /// stored abort port fits the 16-bit range and the transfer size
    /// is within the client ceiling.
    pub fn create_link(&mut self, lock: bool, lock_timeout_ms: u32) -> (r: Result<(), Error>)
        ensures
            final(self).options == old(self).options,
            final(self).client_id == old(self).client_id,
            final(self).max_recv_size <= MAX_RECV_CLAMP || final(self).max_recv_size == old(self).max_recv_size,
            r is Ok ==> final(self).abort_port < 65535 && final(self).max_recv_size
                <= MAX_RECV_CLAMP,
    {
        let req = self.create_link_request(lock, lock_timeout_ms);
        let resp: CreateLinkResponse = match crate::rpc::call(
            &mut self.client,
            &req,
            PROG,
            VERS,
            CALL_CREATE_LINK,
        ) {
            Ok(v) => v,
            Err(e) => {
                return Err(e);
            },
        };
        self.apply_create_link(resp)
    }

    /// Ends the session with one destroy call carrying the link id;
    /// the session is consumed whatever the outcome, and a nonzero
    /// error code from the server surfaces as the remote error.
    pub fn destroy_link(self) -> (r: Result<(), Error>) {
        let mut this = self;
        let link_id = this.link_id;
        let err: u32 = match crate::rpc::call(
            &mut this.client,
            &link_id,
            PROG,
            VERS,
            CALL_DESTROY_LINK,
        ) {
            Ok(v) => v,
            Err(e) => {
                return Err(e);
            },
        };
        check_remote_error(err)
    }

    /// The write call for the chunk of `data` starting at `offset`:
    /// the next `max_recv_size` bytes, or what remains if less, with
    /// the link id and the timeouts this session carries on every
    /// write; the end-of-message flag goes on exactly the chunk that
    /// reaches the end of the data.
    pub fn write_request(&self, data: &Vec<u8>, offset: usize) -> (r: DeviceWriteRequest)
        requires
            offset < data@.len(),
            self.max_recv_size >= 1,
        ensures
            r.link_id == self.link_id,
            r.io_timeout == self.options.io_timeout_ms,
            r.lock_timeout == self.options.lock_timeout_ms,
            r.data@ == data@.subrange(
                offset as int,
                spec_chunk_end(data@.len() as int, offset as int, self.max_recv_size as int),
            ),
            r.flags == (if spec_chunk_end(
                data@.len() as int,
                offset as int,
                self.max_recv_size as int,
            ) == data@.len() {
                OP_FLAG_END
            } else {
                0u32
            }),
    {
        let remaining = data.len() - offset;
        let chunk_len = if remaining < self.max_recv_size as usize {
            remaining
        } else {
            self.max_recv_size as usize
        };
        let end = offset + chunk_len;
        let flags: u32 = if end == data.len() {
            OP_FLAG_END
        } else {
            0
        };
        let chunk = vstd::slice::slice_to_vec(
            vstd::slice::slice_subrange(data.as_slice(), offset, end),
        );
        DeviceWriteRequest {
            link_id: self.link_id,
            io_timeout: self.options.io_timeout_ms,
            lock_timeout: self.options.lock_timeout_ms,
            flags,
            data: chunk,
        }
    }

    /// Streams `data` through the link in consecutive chunks of at
    /// most `max_recv_size` bytes, each one write call built by
    /// [`Self::write_request`]: every chunk but the last carries no
    /// flags, the last carries the end-of-message flag. How the
    /// chunks as a whole cover the data is stated by
    /// [`lemma_write_chunks_reassemble`]. A remote error on any chunk
    /// stops the remaining chunks. Writing no bytes issues no call at
    /// all and succeeds; for anything else the transfer size must be
    /// positive, else no chunk could ever leave.
    pub fn device_write(&mut self, data: Vec<u8>) -> (r: Result<(), Error>)
        requires
            data@.len() > 0 ==> old(self).max_recv_size > 0,
            old(self).max_recv_size <= MAX_RECV_CLAMP,
        ensures
            final(self).link_id == old(self).link_id,
            final(self).options == old(self).options,
            final(self).max_recv_size == old(self).max_recv_size,
            final(self).abort_port == old(self).abort_port,
            final(self).client_id == old(self).client_id,
            data@.len() == 0 ==> r == Ok::<(), Error>(()),
    {
        let mut offset: usize = 0;
        while offset < data.len()
            invariant
                offset <= data@.len(),
                data@.len() > 0 ==> self.max_recv_size > 0,
                self.max_recv_size <= MAX_RECV_CLAMP,
                self.link_id == old(self).link_id,
                self.options == old(self).options,
                self.max_recv_size == old(self).max_recv_size,
                self.abort_port == old(self).abort_port,
                self.client_id == old(self).client_id,
            decreases data@.len() - offset,
        {
            let request = self.write_request(&data, offset);
            let next = offset + request.data.len();
            let resp: DeviceWriteResponse = match crate::rpc::call(
                &mut self.client,
                &request,
                PROG,
                VERS,
                CALL_DEVICE_WRITE,
            ) {
                Ok(v) => v,
                Err(e) => {
                    return Err(e);
                },
            };
            match check_remote_error(resp.error) {
                Ok(u) => u,
                Err(e) => {
                    return Err(e);
                },
            };
            offset = next;
        }
        Ok(())
    }

    /// The read call this session issues: it asks for up to
    /// `max_recv_size` bytes and, when a termination character is
    /// configured, carries it with its enabling flag set.
    pub fn read_request(&self) -> (r: DeviceReadRequest)
        ensures
            r.link_id == self.link_id,
            r.request_size == self.max_recv_size,
            r.io_timeout == self.options.io_timeout_ms,
            r.lock_timeout == self.options.lock_timeout_ms,
            match self.options.termchr {
                Some(t) => r.flags == OP_FLAG_TERMCHAR_SET && r.term_char == t as u32,
                None => r.flags == 0 && r.term_char == 0,
            },
    {
        let (flags, term_char): (u32, u32) = match self.options.termchr {
            Some(t) => (OP_FLAG_TERMCHAR_SET, t as u32),
            None => (0, 0),
        };
        DeviceReadRequest {
            link_id: self.link_id,
            request_size: self.max_recv_size,
            io_timeout: self.options.io_timeout_ms,
            lock_timeout: self.options.lock_timeout_ms,
            flags,
            term_char,
        }
    }

    /// One turn of the read loop: issues one read call and folds the
    /// reply into `acc` through [`process_read_reply`]. `Ok(true)`
    /// means the reply carried an end condition and the read is
    /// complete; `Ok(false)` means more data is expected and the
    /// caller goes around again; an error leaves `acc` as it was.
    /// The reply count is the server's to decide, so the loop itself
    /// has no bound.
    pub fn device_read_step(&mut self, acc: &mut Vec<u8>) -> (r: Result<bool, Error>)
        ensures
            final(self).link_id == old(self).link_id,
            final(self).options == old(self).options,
            final(self).max_recv_size == old(self).max_recv_size,
            final(self).abort_port == old(self).abort_port,
            final(self).client_id == old(self).client_id,
            r is Err ==> final(acc)@ == old(acc)@,
            r is Ok ==> old(acc)@.is_prefix_of(final(acc)@),
    {
        let request = self.read_request();
        let resp: DeviceReadResponse = match crate::rpc::call(
            &mut self.client,
            &request,
            PROG,
            VERS,
            CALL_DEVICE_READ,
        ) {
            Ok(v) => v,
            Err(e) => {
                return Err(e);
            },
        };
        process_read_reply(acc, resp)
    }
}

} // verus!
