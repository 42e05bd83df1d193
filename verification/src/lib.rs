//! Client implementation of the VXI-11 instrument-control protocol.
//!
//! The protocol is a stack of three layers, each with its own module here:
//!
//! - a record-marking transport ([`frame`]) that turns a raw byte stream
//!   into whole RPC messages and back, reassembling fragmented records;
//! - an RPC call engine ([`rpc`]) that pairs each call with its reply by
//!   transaction id, discarding stale replies and rejecting future ones,
//!   together with the XDR wire codec ([`xdr`]) and the request/response
//!   value types ([`calls`]);
//! - the device-link session ([`session`]) that creates a link, performs
//!   chunked writes and accumulating reads through it, and destroys it,
//!   with the port-mapper bootstrap lookup in [`portmapper`].
//!
//! Socket handling is left to the caller: the session is generic over the
//! [`rpc::Client`] trait, so any transport that can carry one RPC call at
//! a time can drive it.

use vstd::prelude::*;

pub mod calls;
pub mod frame;
pub mod portmapper;
pub mod rpc;
pub mod session;
pub mod xdr;

pub use crate::rpc::{Client, Deserialize, Serialize};
pub use crate::session::{CoreClient, VxiOptions};

verus! {

/// The failures this client can surface. Every operation reports enough
/// structure to tell a transport failure from a remote protocol error.
#[derive(Clone, Copy, Debug, PartialEq, Eq, Structural)]
pub enum Error {
    /// An I/O failure on the underlying connection.
    Io,
    /// A received record could not be repacked into one RPC message.
    CannotUnpack,
    /// The reply bytes could not be parsed as an RPC message.
    Rpc,
    /// A reply carried a transaction id above the one awaited.
    UnexpectedXid { expected: u32, actual: u32 },
    /// The received message was not a reply.
    WrongMessageType,
    /// The peer rejected the call's authentication.
    RpcDenied,
    /// Malformed payload bytes; carries the offset of the failed read.
    XdrError(usize),
    /// A resolved or link-provided port lies outside the 16-bit range.
    InvalidPortNumber,
    /// A nonzero application-level error code inside a well-formed reply.
    VxiRemoteError(u32),
    /// The peer accepted the call but did not return success.
    RpcInvalidArgs,
}

} // verus!
