use vstd::prelude::*;
use crate::addr::{encode_addr, spec_encode_addr, TargetAddress};
use crate::command::RSV_BYTE;
use crate::greeting::SOCKS_VERSION;

verus! {

/// REP byte for success — the only reply this design ever sends; every
/// failure closes the connection before a reply.
pub const REP_SUCCESS: u8 = 0x00;

/// The CONNECT reply frame for a bound address: VER, REP, RSV, then the
/// ATYP-tagged address with its port in big-endian order.
pub open spec fn spec_reply(a: TargetAddress) -> Seq<u8> {
    seq![SOCKS_VERSION, REP_SUCCESS, RSV_BYTE] + spec_encode_addr(a)
}

/// Builds the CONNECT reply from the outbound socket's local address.
/// The ATYP is re-derived from that address's family, and the port is
/// written in big-endian wire order.
pub fn encode_reply(local: &TargetAddress) -> (r: Vec<u8>)
    requires
        local.wf(),
        local.is_ip(),
    ensures
        r@ == spec_reply(*local),
{
    let mut out: Vec<u8> = Vec::new();
    out.push(SOCKS_VERSION);
    out.push(REP_SUCCESS);
    out.push(RSV_BYTE);
    let mut tail = encode_addr(local);
    out.append(&mut tail);
    proof {
        assert(out@ =~= spec_reply(*local));
    }
    out
}

} // verus!
