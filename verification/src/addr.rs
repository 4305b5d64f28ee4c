use vstd::prelude::*;
use vstd::utf8::valid_utf8;
use crate::error::Socks5Error;

verus! {

/// ATYP tag for a 4-octet IPv4 address.
pub const ATYP_V4: u8 = 0x01;
/// ATYP tag for a length-prefixed domain name.
pub const ATYP_DOMAIN: u8 = 0x03;
/// ATYP tag for a 16-octet IPv6 address.
pub const ATYP_V6: u8 = 0x04;

/// A destination address as it appears in a command request or a reply:
/// IPv4 octets, IPv6 octets, or a domain name, each with a port.
#[derive(Debug, Clone, PartialEq, Eq)]
pub enum TargetAddress {
    V4 { ip: Vec<u8>, port: u16 },
    V6 { ip: Vec<u8>, port: u16 },
    Domain { name: Vec<u8>, port: u16 },
}

impl TargetAddress {
    /// Well-formedness: the octet counts fit the family, and a domain
    /// name is at most 255 bytes of valid UTF-8 (its wire length field
    /// is a single byte).
    pub open spec fn wf(self) -> bool {
        match self {
            TargetAddress::V4 { ip, port } => ip@.len() == 4,
            TargetAddress::V6 { ip, port } => ip@.len() == 16,
            TargetAddress::Domain { name, port } => name@.len() <= 255 && valid_utf8(name@),
        }
    }

    /// An address that is already an IP literal, as opposed to a domain
    /// name that still needs resolution.
    pub open spec fn is_ip(self) -> bool {
        !(self is Domain)
    }

    pub open spec fn spec_port(self) -> u16 {
        match self {
            TargetAddress::V4 { ip, port } => port,
            TargetAddress::V6 { ip, port } => port,
            TargetAddress::Domain { name, port } => port,
        }
    }
}

/// Two addresses that agree on family, octets and port.
pub open spec fn same_addr(a: TargetAddress, b: TargetAddress) -> bool {
    match (a, b) {
        (
            TargetAddress::V4 { ip: ia, port: pa },
            TargetAddress::V4 { ip: ib, port: pb },
        ) => ia@ == ib@ && pa == pb,
        (
            TargetAddress::V6 { ip: ia, port: pa },
            TargetAddress::V6 { ip: ib, port: pb },
        ) => ia@ == ib@ && pa == pb,
        (
            TargetAddress::Domain { name: na, port: pa },
            TargetAddress::Domain { name: nb, port: pb },
        ) => na@ == nb@ && pa == pb,
        _ => false,
    }
}

/// High byte of a port in network (big-endian) order.
pub open spec fn port_hi(p: u16) -> u8 {
    (p / 256) as u8
}

/// Low byte of a port in network (big-endian) order.
pub open spec fn port_lo(p: u16) -> u8 {
    (p % 256) as u8
}

/// The port value read from two wire bytes in big-endian order.
pub open spec fn port_val(hi: u8, lo: u8) -> u16 {
    (hi as int * 256 + lo as int) as u16
}

/// Splitting a port into its two wire bytes and reading them back is the
/// identity; reading two bytes and splitting the value returns the bytes.
pub proof fn lemma_port_bytes_inverse(p: u16, hi: u8, lo: u8)
    ensures
        port_val(port_hi(p), port_lo(p)) == p,
        port_hi(port_val(hi, lo)) == hi,
        port_lo(port_val(hi, lo)) == lo,
{
    assert(p as int / 256 * 256 + p as int % 256 == p as int) by (nonlinear_arith);
    assert(p as int / 256 <= 255) by (nonlinear_arith);
    assert((hi as int * 256 + lo as int) / 256 == hi as int) by (nonlinear_arith);
    assert((hi as int * 256 + lo as int) % 256 == lo as int) by (nonlinear_arith);
}

/// The ATYP-tagged wire form of an address: tag, octets (or length byte
/// and name bytes), then the port in big-endian order.
pub open spec fn spec_encode_addr(a: TargetAddress) -> Seq<u8> {
    match a {
        TargetAddress::V4 { ip, port } => seq![ATYP_V4] + ip@ + seq![
            port_hi(port),
            port_lo(port),
        ],
        TargetAddress::V6 { ip, port } => seq![ATYP_V6] + ip@ + seq![
            port_hi(port),
            port_lo(port),
        ],
        TargetAddress::Domain { name, port } => seq![ATYP_DOMAIN, name@.len() as u8] + name@
            + seq![port_hi(port), port_lo(port)],
    }
}

/// Appends every byte of `b` to `out`.
fn push_bytes(out: &mut Vec<u8>, b: &[u8])
    ensures
        final(out)@ == old(out)@ + b@,
{
    let mut i: usize = 0;
    while i < b.len()
        invariant
            i <= b@.len(),
            out@ == old(out)@ + b@.subrange(0, i as int),
        decreases b@.len() - i,
    {
        out.push(b[i]);
        proof {
            assert(out@ =~= old(out)@ + b@.subrange(0, i + 1));
        }
        i = i + 1;
    }
    proof {
        assert(out@ =~= old(out)@ + b@);
    }
}

/// Appends a port as its two big-endian wire bytes.
fn push_port(out: &mut Vec<u8>, p: u16)
    ensures
        final(out)@ == old(out)@ + seq![port_hi(p), port_lo(p)],
{
    out.push((p / 256) as u8);
    out.push((p % 256) as u8);
    proof {
        assert(out@ =~= old(out)@ + seq![port_hi(p), port_lo(p)]);
    }
}

/// Encodes an address into its ATYP-tagged wire form.
pub fn encode_addr(a: &TargetAddress) -> (r: Vec<u8>)
    requires
        a.wf(),
    ensures
        r@ == spec_encode_addr(*a),
{
    let mut out: Vec<u8> = Vec::new();
    match a {
        TargetAddress::V4 { ip, port } => {
            out.push(ATYP_V4);
            push_bytes(&mut out, ip.as_slice());
            push_port(&mut out, *port);
            proof {
                assert(out@ =~= spec_encode_addr(*a));
            }
        }
        TargetAddress::V6 { ip, port } => {
            out.push(ATYP_V6);
            push_bytes(&mut out, ip.as_slice());
            push_port(&mut out, *port);
            proof {
                assert(out@ =~= spec_encode_addr(*a));
            }
        }
        TargetAddress::Domain { name, port } => {
            out.push(ATYP_DOMAIN);
            out.push(name.len() as u8);
            push_bytes(&mut out, name.as_slice());
            push_port(&mut out, *port);
            proof {
                assert(out@ =~= spec_encode_addr(*a));
            }
        }
    }
    out
}

/// Relies on core::str::from_utf8: it returns Ok exactly when the bytes
/// are valid UTF-8, the property vstd's `valid_utf8` states.
#[verifier::external_body]
pub(crate) fn utf8_check(b: &[u8]) -> (r: bool)
    ensures
        r == valid_utf8(b@),
{
    core::str::from_utf8(b).is_ok()
}

/// Decodes the fixed-size (IPv4 or IPv6) address body that follows an
/// ATYP tag: the octets, then the port in big-endian order.
pub fn decode_fixed_addr(atyp: u8, b: &[u8]) -> (r: TargetAddress)
    requires
        atyp == ATYP_V4 && b@.len() == 6 || atyp == ATYP_V6 && b@.len() == 18,
    ensures
        r.wf(),
        fixed_addr_matches(atyp, b@, r),
{
    let n: usize = if atyp == ATYP_V4 { 4 } else { 16 };
    let mut ip: Vec<u8> = Vec::new();
    let mut i: usize = 0;
    while i < n
        invariant
            i <= n,
            n + 2 == b@.len(),
            ip@ == b@.subrange(0, i as int),
        decreases n - i,
    {
        ip.push(b[i]);
        proof {
            assert(ip@ =~= b@.subrange(0, i + 1));
        }
        i = i + 1;
    }
    let port: u16 = (b[n] as u16) * 256 + (b[n + 1] as u16);
    proof {
        lemma_port_bytes_inverse(port, b@[n as int], b@[n as int + 1]);
    }
    if atyp == ATYP_V4 {
        TargetAddress::V4 { ip, port }
    } else {
        TargetAddress::V6 { ip, port }
    }
}

/// What `decode_fixed_addr` returns: the address of the family the tag
/// names, with the octets and big-endian port taken from the body.
pub open spec fn fixed_addr_matches(atyp: u8, b: Seq<u8>, t: TargetAddress) -> bool {
    if atyp == ATYP_V4 {
        t matches TargetAddress::V4 { ip, port } && ip@ == b.subrange(0, 4) && port == port_val(
            b[4],
            b[5],
        )
    } else {
        t matches TargetAddress::V6 { ip, port } && ip@ == b.subrange(0, 16) && port == port_val(
            b[16],
            b[17],
        )
    }
}

/// The buffers that the address codec accepts: a known ATYP tag, the
/// exact length that tag demands, and (for a domain) valid UTF-8.
pub open spec fn spec_addr_decodable(b: Seq<u8>) -> bool {
    b.len() >= 1 && (b[0] == ATYP_V4 && b.len() == 7 || b[0] == ATYP_V6 && b.len() == 19 || b[0]
        == ATYP_DOMAIN && b.len() >= 2 && b.len() == 4 + b[1] && valid_utf8(
        b.subrange(2, 2 + b[1]),
    ))
}

/// Decodes an ATYP-tagged address buffer.  On success the result is the
/// unique well-formed address whose wire form is the input.
pub fn decode_addr(b: &[u8]) -> (r: Result<TargetAddress, Socks5Error>)
    ensures
        r matches Ok(a) ==> a.wf() && spec_encode_addr(a) == b@,
        r is Ok <==> spec_addr_decodable(b@),
        r matches Err(e) ==> e == Socks5Error::Protocol,
{
    if b.len() < 1 {
        return Err(Socks5Error::Protocol);
    }
    let atyp: u8 = b[0];
    if atyp == ATYP_V4 {
        if b.len() != 7 {
            return Err(Socks5Error::Protocol);
        }
        let a = decode_fixed_addr(ATYP_V4, &b[1..7]);
        proof {
            lemma_port_bytes_inverse(a.spec_port(), b@[5], b@[6]);
            assert(spec_encode_addr(a) =~= b@);
        }
        Ok(a)
    } else if atyp == ATYP_V6 {
        if b.len() != 19 {
            return Err(Socks5Error::Protocol);
        }
        let a = decode_fixed_addr(ATYP_V6, &b[1..19]);
        proof {
            lemma_port_bytes_inverse(a.spec_port(), b@[17], b@[18]);
            assert(spec_encode_addr(a) =~= b@);
        }
        Ok(a)
    } else if atyp == ATYP_DOMAIN {
        if b.len() < 2 {
            return Err(Socks5Error::Protocol);
        }
        let n: usize = b[1] as usize;
        if b.len() != 4 + n {
            return Err(Socks5Error::Protocol);
        }
        let mut name: Vec<u8> = Vec::new();
        let mut i: usize = 0;
        while i < n
            invariant
                i <= n,
                n <= 255,
                4 + n == b@.len(),
                name@ == b@.subrange(2, 2 + i as int),
            decreases n - i,
        {
            name.push(b[2 + i]);
            proof {
                assert(name@ =~= b@.subrange(2, 2 + (i + 1)));
            }
            i = i + 1;
        }
        if !utf8_check(name.as_slice()) {
            return Err(Socks5Error::Protocol);
        }
        let port: u16 = (b[2 + n] as u16) * 256 + (b[3 + n] as u16);
        let a = TargetAddress::Domain { name, port };
        proof {
            lemma_port_bytes_inverse(port, b@[2 + n as int], b@[3 + n as int]);
            assert(spec_encode_addr(a) =~= b@);
        }
        Ok(a)
    } else {
        Err(Socks5Error::Protocol)
    }
}

/// The bytes of an encoded address, element by element: the tag in
/// front, then octets (or length and name), then the two port bytes.
pub proof fn lemma_encode_addr_shape(a: TargetAddress)
    requires
        a.wf(),
    ensures
        a matches TargetAddress::V4 { ip, port } ==> {
            let e = spec_encode_addr(a);
            &&& e.len() == 7
            &&& e[0] == ATYP_V4
            &&& forall|i: int| 0 <= i < 4 ==> e[i + 1] == ip@[i]
            &&& e[5] == port_hi(port)
            &&& e[6] == port_lo(port)
        },
        a matches TargetAddress::V6 { ip, port } ==> {
            let e = spec_encode_addr(a);
            &&& e.len() == 19
            &&& e[0] == ATYP_V6
            &&& forall|i: int| 0 <= i < 16 ==> e[i + 1] == ip@[i]
            &&& e[17] == port_hi(port)
            &&& e[18] == port_lo(port)
        },
        a matches TargetAddress::Domain { name, port } ==> {
            let e = spec_encode_addr(a);
            &&& e.len() == 4 + name@.len()
            &&& e[0] == ATYP_DOMAIN
            &&& e[1] == name@.len() as u8
            &&& forall|i: int| 0 <= i < name@.len() ==> e[i + 2] == name@[i]
            &&& e[name@.len() as int + 2] == port_hi(port)
            &&& e[name@.len() as int + 3] == port_lo(port)
        },
{
    match a {
        TargetAddress::V4 { ip, port } => {
            let head = seq![ATYP_V4] + ip@;
            let e = head + seq![port_hi(port), port_lo(port)];
            assert(spec_encode_addr(a) == e);
            assert forall|i: int| 0 <= i < 4 implies e[i + 1] == ip@[i] by {
                assert(e[i + 1] == head[i + 1]);
                assert(head[i + 1] == ip@[i]);
            }
            assert(e[0] == head[0] && head[0] == ATYP_V4);
        }
        TargetAddress::V6 { ip, port } => {
            let head = seq![ATYP_V6] + ip@;
            let e = head + seq![port_hi(port), port_lo(port)];
            assert(spec_encode_addr(a) == e);
            assert forall|i: int| 0 <= i < 16 implies e[i + 1] == ip@[i] by {
                assert(e[i + 1] == head[i + 1]);
                assert(head[i + 1] == ip@[i]);
            }
            assert(e[0] == head[0] && head[0] == ATYP_V6);
        }
        TargetAddress::Domain { name, port } => {
            let head = seq![ATYP_DOMAIN, name@.len() as u8] + name@;
            let e = head + seq![port_hi(port), port_lo(port)];
            assert(spec_encode_addr(a) == e);
            assert forall|i: int| 0 <= i < name@.len() implies e[i + 2] == name@[i] by {
                assert(e[i + 2] == head[i + 2]);
                assert(head[i + 2] == name@[i]);
            }
            assert(e[0] == head[0] && head[0] == ATYP_DOMAIN);
            assert(e[1] == head[1] && head[1] == name@.len() as u8);
        }
    }
}

/// Law: the wire form determines the address.  Two well-formed addresses
/// with the same encoding agree on family, octets and port, so decoding
/// an encoded address gives back the original pair.
pub proof fn lemma_encode_addr_injective(a: TargetAddress, b: TargetAddress)
    requires
        a.wf(),
        b.wf(),
        spec_encode_addr(a) == spec_encode_addr(b),
    ensures
        same_addr(a, b),
{
    lemma_encode_addr_shape(a);
    lemma_encode_addr_shape(b);
    let ea = spec_encode_addr(a);
    let eb = spec_encode_addr(b);
    match (a, b) {
        (TargetAddress::V4 { ip: ia, port: pa }, TargetAddress::V4 { ip: ib, port: pb }) => {
            assert forall|i: int| 0 <= i < 4 implies ia@[i] == ib@[i] by {
                assert(ea[i + 1] == ia@[i] && eb[i + 1] == ib@[i]);
            }
            assert(ia@ =~= ib@);
            lemma_port_bytes_inverse(pa, 0, 0);
            lemma_port_bytes_inverse(pb, 0, 0);
        }
        (TargetAddress::V6 { ip: ia, port: pa }, TargetAddress::V6 { ip: ib, port: pb }) => {
            assert forall|i: int| 0 <= i < 16 implies ia@[i] == ib@[i] by {
                assert(ea[i + 1] == ia@[i] && eb[i + 1] == ib@[i]);
            }
            assert(ia@ =~= ib@);
            lemma_port_bytes_inverse(pa, 0, 0);
            lemma_port_bytes_inverse(pb, 0, 0);
        }
        (
            TargetAddress::Domain { name: na, port: pa },
            TargetAddress::Domain { name: nb, port: pb },
        ) => {
            assert(na@.len() == ea.len() - 4 && nb@.len() == eb.len() - 4);
            assert forall|i: int| 0 <= i < na@.len() implies na@[i] == nb@[i] by {
                assert(ea[i + 2] == na@[i] && eb[i + 2] == nb@[i]);
            }
            assert(na@ =~= nb@);
            lemma_port_bytes_inverse(pa, 0, 0);
            lemma_port_bytes_inverse(pb, 0, 0);
        }
        _ => {}
    }
}

/// The index the resolver's tie-break picks from a candidate list: the
/// first IPv4 entry if the list has one, otherwise the first entry.
pub open spec fn is_chosen(c: Seq<TargetAddress>, i: int) -> bool {
    &&& 0 <= i < c.len()
    &&& if exists|j: int| 0 <= j < c.len() && c[j] is V4 {
        c[i] is V4 && forall|j: int| 0 <= j < i ==> !(c[j] is V4)
    } else {
        i == 0
    }
}

/// Picks the candidate to connect to: the first IPv4 address in the
/// list's order, or the first candidate of any family when no IPv4
/// candidate exists.  `None` exactly when the list is empty.
pub fn select_candidate(candidates: &Vec<TargetAddress>) -> (r: Option<usize>)
    ensures
        r is Some <==> candidates@.len() > 0,
        r matches Some(i) ==> is_chosen(candidates@, i as int),
{
    if candidates.len() == 0 {
        return None;
    }
    let mut i: usize = 0;
    while i < candidates.len()
        invariant
            i <= candidates@.len(),
            forall|j: int| 0 <= j < i ==> !(candidates@[j] is V4),
        decreases candidates@.len() - i,
    {
        if matches!(&candidates[i], TargetAddress::V4 { .. }) {
            return Some(i);
        }
        i = i + 1;
    }
    Some(0)
}

} // verus!
