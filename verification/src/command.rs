use vstd::prelude::*;
use crate::error::Socks5Error;
use crate::greeting::SOCKS_VERSION;

verus! {

/// CMD byte of the one executable command.
pub const CMD_CONNECT: u8 = 0x01;
/// CMD byte of UDP ASSOCIATE: parsed, but rejected as unsupported.
pub const CMD_UDP_ASSOCIATE: u8 = 0x03;
/// The reserved byte, fixed to zero on the wire.
pub const RSV_BYTE: u8 = 0x00;

/// A command header the parser accepts: right version, the CONNECT
/// command, and a zero reserved byte.
pub open spec fn header_ok(h: Seq<u8>) -> bool {
    h[0] == SOCKS_VERSION && h[1] == CMD_CONNECT && h[2] == RSV_BYTE
}

/// The error a rejected header earns.  Checks run in wire order: the
/// version, then the command byte, then the reserved byte.  A known but
/// unexecutable command (UDP ASSOCIATE) is rejected as unsupported; any
/// unknown field is a protocol error.
pub open spec fn header_err(h: Seq<u8>) -> Socks5Error {
    if h[0] != SOCKS_VERSION {
        Socks5Error::Protocol
    } else if h[1] != CMD_CONNECT && h[1] != CMD_UDP_ASSOCIATE {
        Socks5Error::Protocol
    } else if h[2] != RSV_BYTE {
        Socks5Error::Protocol
    } else {
        Socks5Error::Unsupported
    }
}

/// Validates the fixed 4-byte command header VER/CMD/RSV/ATYP and
/// returns the ATYP byte.  Succeeds exactly when the header announces a
/// CONNECT with the right version and reserved byte, so every rejection
/// happens before any address is read and before any outbound work.
pub fn parse_command_header(hdr: &[u8]) -> (r: Result<u8, Socks5Error>)
    requires
        hdr@.len() == 4,
    ensures
        r is Ok <==> header_ok(hdr@),
        r matches Ok(atyp) ==> atyp == hdr@[3],
        r matches Err(e) ==> e == header_err(hdr@),
{
    if hdr[0] != SOCKS_VERSION {
        return Err(Socks5Error::Protocol);
    }
    if hdr[1] != CMD_CONNECT && hdr[1] != CMD_UDP_ASSOCIATE {
        return Err(Socks5Error::Protocol);
    }
    if hdr[2] != RSV_BYTE {
        return Err(Socks5Error::Protocol);
    }
    if hdr[1] == CMD_UDP_ASSOCIATE {
        return Err(Socks5Error::Unsupported);
    }
    Ok(hdr[3])
}

} // verus!
