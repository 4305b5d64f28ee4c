use vstd::prelude::*;

verus! {

/// Error taxonomy of the proxy core.  Every error is fatal to the one
/// connection it occurs on; no variant is ever retried.
#[derive(Clone, Copy, Debug, PartialEq, Eq, Structural)]
pub enum Socks5Error {
    /// Malformed or unsupported wire fields: bad version, unacceptable
    /// method set, bad RSV, bad ATYP, bad CMD, non-UTF-8 domain name.
    Protocol,
    /// A command that parses but is not executable (UDP ASSOCIATE).
    Unsupported,
    /// DNS lookup yielded no candidate addresses.
    Resolution,
    /// The outbound connect failed.
    Connect,
    /// A read or write on either stream failed.
    Io,
}

impl Socks5Error {
    /// True of the errors that arise from the wire bytes alone, before
    /// any outbound work is attempted.
    pub open spec fn is_parse_error(self) -> bool {
        self == Socks5Error::Protocol || self == Socks5Error::Unsupported
    }
}

} // verus!
