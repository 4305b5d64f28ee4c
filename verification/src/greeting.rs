use vstd::prelude::*;
use crate::error::Socks5Error;

verus! {

/// The only protocol version the proxy speaks.
pub const SOCKS_VERSION: u8 = 0x05;
/// The only authentication method the proxy selects: none.
pub const METHOD_NO_AUTH: u8 = 0x00;

/// A greeting whose framing is right: a version byte equal to 0x05, a
/// count byte, then exactly that many method bytes.
pub open spec fn greeting_wf(g: Seq<u8>) -> bool {
    g.len() >= 2 && g[0] == SOCKS_VERSION && g.len() == 2 + g[1]
}

/// A greeting the negotiator accepts: well formed, with a method list
/// that offers "no authentication required".
pub open spec fn greeting_acceptable(g: Seq<u8>) -> bool {
    greeting_wf(g) && g.subrange(2, g.len() as int).contains(METHOD_NO_AUTH)
}

/// True when the offered method list contains "no authentication".
pub fn contains_no_auth(methods: &[u8]) -> (r: bool)
    ensures
        r == methods@.contains(METHOD_NO_AUTH),
{
    let mut i: usize = 0;
    while i < methods.len()
        invariant
            i <= methods@.len(),
            forall|j: int| 0 <= j < i ==> methods@[j] != METHOD_NO_AUTH,
        decreases methods@.len() - i,
    {
        if methods[i] == METHOD_NO_AUTH {
            proof {
                assert(methods@[i as int] == METHOD_NO_AUTH);
            }
            return true;
        }
        i = i + 1;
    }
    false
}

/// Runs method negotiation on a complete greeting.  Succeeds exactly on
/// acceptable greetings, and then the reply to send is exactly
/// `[0x05, 0x00]`; on any other input it fails with a protocol error and
/// produces nothing to write.
pub fn negotiate(greeting: &[u8]) -> (r: Result<Vec<u8>, Socks5Error>)
    ensures
        r is Ok <==> greeting_acceptable(greeting@),
        r matches Ok(reply) ==> reply@ == seq![SOCKS_VERSION, METHOD_NO_AUTH],
        r matches Err(e) ==> e == Socks5Error::Protocol,
{
    if greeting.len() < 2 {
        return Err(Socks5Error::Protocol);
    }
    if greeting[0] != SOCKS_VERSION {
        return Err(Socks5Error::Protocol);
    }
    let n: usize = greeting[1] as usize;
    if greeting.len() != 2 + n {
        return Err(Socks5Error::Protocol);
    }
    if !contains_no_auth(&greeting[2..2 + n]) {
        return Err(Socks5Error::Protocol);
    }
    let mut reply: Vec<u8> = Vec::new();
    reply.push(SOCKS_VERSION);
    reply.push(METHOD_NO_AUTH);
    proof {
        assert(reply@ =~= seq![SOCKS_VERSION, METHOD_NO_AUTH]);
    }
    Ok(reply)
}

} // verus!
