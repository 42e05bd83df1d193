//! The request and response payloads of the device-link calls, with
//! their XDR wire forms.
//!
//! Requests state their exact wire bytes through [`Serialize::wire`];
//! responses state through [`Deserialize`] exactly which inputs parse,
//! to which values, and with which decode error otherwise.

use crate::rpc::{Deserialize, Serialize};
use crate::xdr::{
    be_u32_of, spec_opaque_len, xdr_bool_bytes, xdr_opaque_bytes, xdr_pad_len, xdr_string_bytes,
    xdr_u32_bytes,
};
use crate::Error;
use vstd::prelude::*;

verus! {

/// Asks the server to open a device link.
pub struct CreateLinkRequest {
    /// The locally chosen id that tells this session apart server-side.
    pub client_id: u32,
    /// Whether to acquire the device lock.
    pub lock: bool,
    /// How long to wait for the lock, in milliseconds.
    pub lock_timeout_ms: u32,
    /// The device name to link to.
    pub device: String,
}

impl Serialize for CreateLinkRequest {
    open spec fn wire(&self) -> Seq<u8> {
        xdr_u32_bytes(self.client_id) + xdr_bool_bytes(self.lock) + xdr_u32_bytes(
            self.lock_timeout_ms,
        ) + xdr_string_bytes(self.device@)
    }

    open spec fn serializable(&self) -> bool {
        vstd::utf8::encode_utf8(self.device@).len() <= 0xffff_fffc
    }

    fn serialize(&self, out: &mut Vec<u8>) {
        crate::xdr::write_u32(self.client_id, out);
        crate::xdr::write_bool(self.lock, out);
        crate::xdr::write_u32(self.lock_timeout_ms, out);
        crate::xdr::write_string(self.device.as_str(), out);
        assert(out@ =~= old(out)@ + self.wire());
    }
}

/// The server's answer to [`CreateLinkRequest`]: an error code, the
/// link to use in every later call, a secondary port for out-of-band
/// aborts, and the largest payload the server accepts per write.
pub struct CreateLinkResponse {
    /// Zero on success; any other value is a remote protocol error.
    pub error: u32,
    /// The handle for all subsequent device calls.
    pub link_id: u32,
    /// The abort channel's port; must fit 16 bits.
    pub port: u32,
    /// The server's advertised maximum payload per device-write call.
    pub max_recv_size: u32,
}

impl Deserialize for CreateLinkResponse {
    open spec fn parse_err(data: Seq<u8>) -> Option<Error> {
        if data.len() < 4 {
            Some(Error::XdrError(0))
        } else if data.len() < 8 {
            Some(Error::XdrError(4))
        } else if data.len() < 12 {
            Some(Error::XdrError(8))
        } else if data.len() < 16 {
            Some(Error::XdrError(12))
        } else {
            None
        }
    }

    open spec fn parse_ok(data: Seq<u8>, v: Self) -> bool {
        &&& v.error == be_u32_of(data.subrange(0, 4))
        &&& v.link_id == be_u32_of(data.subrange(4, 8))
        &&& v.port == be_u32_of(data.subrange(8, 12))
        &&& v.max_recv_size == be_u32_of(data.subrange(12, 16))
    }

    open spec fn parse_len(data: Seq<u8>) -> int {
        16
    }

    fn deserialize_partial(data: &[u8]) -> (r: Result<(Self, usize), Error>) {
        let (error, _) = match crate::xdr::read_u32_at(data, 0) {
            Ok(v) => v,
            Err(e) => {
                return Err(e);
            },
        };
        let (link_id, _) = match crate::xdr::read_u32_at(data, 4) {
            Ok(v) => v,
            Err(e) => {
                return Err(e);
            },
        };
        let (port, _) = match crate::xdr::read_u32_at(data, 8) {
            Ok(v) => v,
            Err(e) => {
                return Err(e);
            },
        };
        let (max_recv_size, _) = match crate::xdr::read_u32_at(data, 12) {
            Ok(v) => v,
            Err(e) => {
                return Err(e);
            },
        };
        proof {
            assert(Self::parse_len(data@) == 16);
        }
        Ok((CreateLinkResponse { error, link_id, port, max_recv_size }, 16))
    }
}

/// Sends one chunk of outgoing data through an open link.
pub struct DeviceWriteRequest {
    /// The link the chunk travels through.
    pub link_id: u32,
    /// The I/O timeout carried with the call, in milliseconds.
    pub io_timeout: u32,
    /// The lock timeout carried with the call, in milliseconds.
    pub lock_timeout: u32,
    /// Operation flags; the end-of-message bit marks the last chunk.
    pub flags: u32,
    /// The chunk's bytes.
    pub data: Vec<u8>,
}

impl Serialize for DeviceWriteRequest {
    open spec fn wire(&self) -> Seq<u8> {
        xdr_u32_bytes(self.link_id) + xdr_u32_bytes(self.io_timeout) + xdr_u32_bytes(
            self.lock_timeout,
        ) + xdr_u32_bytes(self.flags) + xdr_opaque_bytes(self.data@)
    }

    open spec fn serializable(&self) -> bool {
        self.data@.len() <= 0xffff_fffc
    }

    fn serialize(&self, out: &mut Vec<u8>) {
        crate::xdr::write_u32(self.link_id, out);
        crate::xdr::write_u32(self.io_timeout, out);
        crate::xdr::write_u32(self.lock_timeout, out);
        crate::xdr::write_u32(self.flags, out);
        crate::xdr::write_opaque(self.data.as_slice(), out);
        assert(out@ =~= old(out)@ + self.wire());
    }
}

/// The server's answer to one write chunk.
pub struct DeviceWriteResponse {
    /// Zero on success; any other value is a remote protocol error.
    pub error: u32,
    /// How many bytes the server took.
    pub size: u32,
}

impl Deserialize for DeviceWriteResponse {
    open spec fn parse_err(data: Seq<u8>) -> Option<Error> {
        if data.len() < 4 {
            Some(Error::XdrError(0))
        } else if data.len() < 8 {
            Some(Error::XdrError(4))
        } else {
            None
        }
    }

    open spec fn parse_ok(data: Seq<u8>, v: Self) -> bool {
        &&& v.error == be_u32_of(data.subrange(0, 4))
        &&& v.size == be_u32_of(data.subrange(4, 8))
    }

    open spec fn parse_len(data: Seq<u8>) -> int {
        8
    }

    fn deserialize_partial(data: &[u8]) -> (r: Result<(Self, usize), Error>) {
        let (error, _) = match crate::xdr::read_u32_at(data, 0) {
            Ok(v) => v,
            Err(e) => {
                return Err(e);
            },
        };
        let (size, _) = match crate::xdr::read_u32_at(data, 4) {
            Ok(v) => v,
            Err(e) => {
                return Err(e);
            },
        };
        proof {
            assert(Self::parse_len(data@) == 8);
        }
        Ok((DeviceWriteResponse { error, size }, 8))
    }
}

/// Asks the server for the next stretch of incoming data.
pub struct DeviceReadRequest {
    /// The link to read through.
    pub link_id: u32,
    /// How many bytes the client is ready to take.
    pub request_size: u32,
    /// The I/O timeout carried with the call, in milliseconds.
    pub io_timeout: u32,
    /// The lock timeout carried with the call, in milliseconds.
    pub lock_timeout: u32,
    /// Operation flags; the termination-character bit says `term_char`
    /// is meaningful.
    pub flags: u32,
    /// The configured termination character, when enabled.
    pub term_char: u32,
}

impl Serialize for DeviceReadRequest {
    open spec fn wire(&self) -> Seq<u8> {
        xdr_u32_bytes(self.link_id) + xdr_u32_bytes(self.request_size) + xdr_u32_bytes(
            self.io_timeout,
        ) + xdr_u32_bytes(self.lock_timeout) + xdr_u32_bytes(self.flags) + xdr_u32_bytes(
            self.term_char,
        )
    }

    open spec fn serializable(&self) -> bool {
        true
    }

    fn serialize(&self, out: &mut Vec<u8>) {
        crate::xdr::write_u32(self.link_id, out);
        crate::xdr::write_u32(self.request_size, out);
        crate::xdr::write_u32(self.io_timeout, out);
        crate::xdr::write_u32(self.lock_timeout, out);
        crate::xdr::write_u32(self.flags, out);
        crate::xdr::write_u32(self.term_char, out);
        assert(out@ =~= old(out)@ + self.wire());
    }
}

/// The server's answer to one read call: a stretch of data and the
/// reason the stretch ended.
pub struct DeviceReadResponse {
    /// Zero on success; any other value is a remote protocol error.
    pub error: u32,
    /// Why the read ended; the end and termination-character bits stop
    /// the read loop.
    pub reason: u32,
    /// The bytes read.
    pub data: Vec<u8>,
}

impl Deserialize for DeviceReadResponse {
    open spec fn parse_err(data: Seq<u8>) -> Option<Error> {
        if data.len() < 4 {
            Some(Error::XdrError(0))
        } else if data.len() < 8 {
            Some(Error::XdrError(4))
        } else {
            let n = spec_opaque_len(data, 8);
            if data.len() < 12 || data.len() < 12 + n + xdr_pad_len(n) {
                Some(Error::XdrError(8))
            } else {
                None
            }
        }
    }

    open spec fn parse_ok(data: Seq<u8>, v: Self) -> bool {
        let n = spec_opaque_len(data, 8);
        &&& v.error == be_u32_of(data.subrange(0, 4))
        &&& v.reason == be_u32_of(data.subrange(4, 8))
        &&& v.data@ == data.subrange(12, 12 + n)
    }

    open spec fn parse_len(data: Seq<u8>) -> int {
        let n = spec_opaque_len(data, 8);
        12 + n + xdr_pad_len(n)
    }

    fn deserialize_partial(data: &[u8]) -> (r: Result<(Self, usize), Error>) {
        let (error, _) = match crate::xdr::read_u32_at(data, 0) {
            Ok(v) => v,
            Err(e) => {
                return Err(e);
            },
        };
        let (reason, _) = match crate::xdr::read_u32_at(data, 4) {
            Ok(v) => v,
            Err(e) => {
                return Err(e);
            },
        };
        let (body, end) = match crate::xdr::read_opaque_at(data, 8) {
            Ok(v) => v,
            Err(e) => {
                return Err(e);
            },
        };
        proof {
            assert(Self::parse_len(data@) == end);
        }
        Ok((DeviceReadResponse { error, reason, data: body }, end))
    }
}

} // verus!
