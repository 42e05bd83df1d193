//! The port-mapper bootstrap lookup: before the real session starts,
//! one call against the registry on its well-known port asks which
//! dynamic port serves a given program and version. The registry
//! answers with a single integer; a value outside the 16-bit port
//! range, the registry's way of saying "not mapped" among them, is an
//! invalid-port error.

use crate::rpc::{Client, Serialize};
use crate::xdr::xdr_u32_bytes;
use crate::Error;
use vstd::prelude::*;

verus! {

/// The registry's own RPC program number.
const PROG: u32 = 100000;

/// The registry's RPC program version.
const VERS: u32 = 2;

/// The registry procedure that looks a mapping up.
const PROC_GETPORT: u32 = 3;

/// The protocol id of the stream transport in registry mappings.
const IPPROTO_TCP: u32 = 6;

/// One registry mapping: which port serves `prog`/`vers` over the
/// protocol `prot`; `port` is zero on a lookup request.
struct Mapping {
    prog: u32,
    vers: u32,
    prot: u32,
    port: u32,
}

impl Serialize for Mapping {
    closed spec fn wire(&self) -> Seq<u8> {
        xdr_u32_bytes(self.prog) + xdr_u32_bytes(self.vers) + xdr_u32_bytes(self.prot)
            + xdr_u32_bytes(self.port)
    }

    closed spec fn serializable(&self) -> bool {
        true
    }

    fn serialize(&self, out: &mut Vec<u8>) {
        crate::xdr::write_u32(self.prog, out);
        crate::xdr::write_u32(self.vers, out);
        crate::xdr::write_u32(self.prot, out);
        crate::xdr::write_u32(self.port, out);
        assert(out@ =~= old(out)@ + self.wire());
    }
}

/// Checks a value claiming to be a port against the 16-bit port range:
/// any value of 65535 or above, the registry's not-mapped sentinel
/// among them, is the invalid-port error; anything below succeeds.
pub fn validate_port(port: u32) -> (r: Result<u16, Error>)
    ensures
        port < 65535 ==> r == Ok::<u16, Error>(port as u16),
        port >= 65535 ==> r == Err::<u16, Error>(Error::InvalidPortNumber),
{
    if port < 65535 {
        Ok(port as u16)
    } else {
        Err(Error::InvalidPortNumber)
    }
}

/// Resolves the dynamic port serving `prog`/`vers` over the stream
/// protocol, with one lookup call through `client`, which must be
/// connected to the registry's well-known port. Every port returned
/// lies inside the 16-bit range; the caller connects to it with a
/// fresh connection.
pub fn get_port<C: Client>(client: &mut C, prog: u32, vers: u32) -> (r: Result<u16, Error>)
    ensures
        r is Ok ==> r->Ok_0 < 65535,
{
    let request = Mapping { prog, vers, prot: IPPROTO_TCP, port: 0 };
    let ret: u32 = match crate::rpc::call::<C, Mapping, u32>(
        client,
        &request,
        PROG,
        VERS,
        PROC_GETPORT,
    ) {
        Ok(v) => v,
        Err(e) => {
            return Err(e);
        },
    };
    validate_port(ret)
}

} // verus!
