use vstd::prelude::*;
use vstd::utf8::valid_utf8;
use crate::addr::{
    decode_fixed_addr, fixed_addr_matches, is_chosen, port_val, select_candidate, utf8_check,
    TargetAddress, ATYP_DOMAIN, ATYP_V4, ATYP_V6,
};
use crate::command::{header_err, header_ok, parse_command_header};
use crate::error::Socks5Error;
use crate::greeting::{contains_no_auth, METHOD_NO_AUTH, SOCKS_VERSION};
use crate::reply::{encode_reply, spec_reply};

verus! {

/// Where a connection stands in the pipeline.  The flow is strictly
/// sequential: greeting, negotiation, command, address, resolution,
/// connect, reply, relay; a failure at any step is terminal.
#[derive(Debug, Clone, Copy, PartialEq, Eq, Structural)]
pub enum Phase {
    /// Awaiting the 2-byte greeting header VER and NMETHODS.
    Greeting,
    /// Awaiting the NMETHODS method bytes.
    GreetingMethods { nmethods: u8 },
    /// The method-selection reply is being written.
    Negotiated,
    /// Awaiting the 4-byte command header VER, CMD, RSV, ATYP.
    CommandHeader,
    /// Awaiting a fixed-size address body and port (IPv4 or IPv6).
    AddrFixed { atyp: u8 },
    /// Awaiting the domain length byte.
    DomainLength,
    /// Awaiting the domain name bytes and the port.
    DomainBody { dlen: u8 },
    /// Awaiting the DNS candidates for the domain.
    Resolving,
    /// Awaiting the outbound connect result.
    Connecting,
    /// The CONNECT reply is being written.
    Connected,
    /// Bytes are being relayed in both directions.
    Relaying,
    /// Terminal: the relay finished with these byte counts.
    Closed { to_dest: u64, to_client: u64 },
    /// Terminal: the connection was aborted by this error.
    Failed { err: Socks5Error },
}

/// What the connection supplier reports back to the handler.
#[derive(Debug, Clone, PartialEq, Eq)]
pub enum ConnEvent {
    /// Exactly the bytes the last `ReadBytes` action asked for.
    Bytes(Vec<u8>),
    /// The last `WriteBytes` action completed in full.
    Wrote,
    /// The candidates of the last `Resolve` action, in resolver order.
    Resolved(Vec<TargetAddress>),
    /// The resolver itself failed.
    ResolveFailed,
    /// The outbound connect succeeded; carries the socket's local
    /// (bound) address.
    ConnectDone(TargetAddress),
    /// The outbound connect failed.
    ConnectFailed,
    /// A read or write on the client stream failed.
    IoFailed,
    /// The relay ended, with the byte counts moved in each direction.
    RelayDone(u64, u64),
}

/// What the handler asks the connection supplier to do next.
#[derive(Debug, Clone, PartialEq, Eq)]
pub enum ConnAction {
    /// Read exactly this many bytes from the client.
    ReadBytes(usize),
    /// Write these bytes to the client, in full.
    WriteBytes(Vec<u8>),
    /// Resolve this domain name (valid UTF-8 bytes) for this port.
    Resolve(Vec<u8>, u16),
    /// Open the outbound TCP connection to this address.
    Connect(TargetAddress),
    /// Copy bytes both ways until EOF or error.
    Relay,
    /// Close the client stream (and the destination, if open).
    Close,
}

/// The events a phase can digest: a byte event must carry exactly the
/// count the phase's read asked for, and a connect result must carry a
/// well-formed IP-literal bound address.
pub open spec fn event_fits(p: Phase, ev: ConnEvent) -> bool {
    match ev {
        ConnEvent::Bytes(b) => match p {
            Phase::Greeting => b@.len() == 2,
            Phase::GreetingMethods { nmethods } => b@.len() == nmethods,
            Phase::CommandHeader => b@.len() == 4,
            Phase::AddrFixed { atyp } => b@.len() == if atyp == ATYP_V4 {
                6int
            } else {
                18int
            },
            Phase::DomainLength => b@.len() == 1,
            Phase::DomainBody { dlen } => b@.len() == dlen + 2,
            _ => true,
        },
        ConnEvent::ConnectDone(local) => local.wf() && local.is_ip(),
        _ => true,
    }
}

/// The phase a connection moves to on an event.  Terminal phases absorb
/// everything; an event that does not belong to the phase is treated as
/// an I/O fault and aborts the connection.
pub open spec fn phase_after(p: Phase, ev: ConnEvent) -> Phase {
    match p {
        Phase::Closed { to_dest, to_client } => p,
        Phase::Failed { err } => p,
        _ => match ev {
            ConnEvent::Bytes(b) => match p {
                Phase::Greeting => if b[0] == SOCKS_VERSION {
                    Phase::GreetingMethods { nmethods: b[1] }
                } else {
                    Phase::Failed { err: Socks5Error::Protocol }
                },
                Phase::GreetingMethods { nmethods } => if b@.contains(METHOD_NO_AUTH) {
                    Phase::Negotiated
                } else {
                    Phase::Failed { err: Socks5Error::Protocol }
                },
                Phase::CommandHeader => if header_ok(b@) {
                    if b[3] == ATYP_V4 {
                        Phase::AddrFixed { atyp: ATYP_V4 }
                    } else if b[3] == ATYP_V6 {
                        Phase::AddrFixed { atyp: ATYP_V6 }
                    } else if b[3] == ATYP_DOMAIN {
                        Phase::DomainLength
                    } else {
                        Phase::Failed { err: Socks5Error::Protocol }
                    }
                } else {
                    Phase::Failed { err: header_err(b@) }
                },
                Phase::AddrFixed { atyp } => Phase::Connecting,
                Phase::DomainLength => Phase::DomainBody { dlen: b[0] },
                Phase::DomainBody { dlen } => if valid_utf8(b@.subrange(0, dlen as int)) {
                    Phase::Resolving
                } else {
                    Phase::Failed { err: Socks5Error::Protocol }
                },
                _ => Phase::Failed { err: Socks5Error::Io },
            },
            ConnEvent::Wrote => match p {
                Phase::Negotiated => Phase::CommandHeader,
                Phase::Connected => Phase::Relaying,
                _ => Phase::Failed { err: Socks5Error::Io },
            },
            ConnEvent::Resolved(v) => match p {
                Phase::Resolving => if v@.len() > 0 {
                    Phase::Connecting
                } else {
                    Phase::Failed { err: Socks5Error::Resolution }
                },
                _ => Phase::Failed { err: Socks5Error::Io },
            },
            ConnEvent::ResolveFailed => match p {
                Phase::Resolving => Phase::Failed { err: Socks5Error::Resolution },
                _ => Phase::Failed { err: Socks5Error::Io },
            },
            ConnEvent::ConnectDone(local) => match p {
                Phase::Connecting => Phase::Connected,
                _ => Phase::Failed { err: Socks5Error::Io },
            },
            ConnEvent::ConnectFailed => match p {
                Phase::Connecting => Phase::Failed { err: Socks5Error::Connect },
                _ => Phase::Failed { err: Socks5Error::Io },
            },
            ConnEvent::IoFailed => Phase::Failed { err: Socks5Error::Io },
            ConnEvent::RelayDone(n_out, n_in) => match p {
                Phase::Relaying => Phase::Closed { to_dest: n_out, to_client: n_in },
                _ => Phase::Failed { err: Socks5Error::Io },
            },
        },
    }
}

/// The action a step must hand back: the next exact read, the exact
/// reply bytes, the resolve or connect request, the relay, or a close
/// on every aborting path.
pub open spec fn action_ok(p: Phase, ev: ConnEvent, a: ConnAction) -> bool {
    match p {
        Phase::Closed { to_dest, to_client } => a is Close,
        Phase::Failed { err } => a is Close,
        _ => match ev {
            ConnEvent::Bytes(b) => match p {
                Phase::Greeting => if b[0] == SOCKS_VERSION {
                    a == ConnAction::ReadBytes(b[1] as usize)
                } else {
                    a is Close
                },
                Phase::GreetingMethods { nmethods } => if b@.contains(METHOD_NO_AUTH) {
                    a matches ConnAction::WriteBytes(w) && w@ == seq![
                        SOCKS_VERSION,
                        METHOD_NO_AUTH,
                    ]
                } else {
                    a is Close
                },
                Phase::CommandHeader => if header_ok(b@) {
                    if b[3] == ATYP_V4 {
                        a == ConnAction::ReadBytes(6)
                    } else if b[3] == ATYP_V6 {
                        a == ConnAction::ReadBytes(18)
                    } else if b[3] == ATYP_DOMAIN {
                        a == ConnAction::ReadBytes(1)
                    } else {
                        a is Close
                    }
                } else {
                    a is Close
                },
                Phase::AddrFixed { atyp } => a matches ConnAction::Connect(t) && t.wf()
                    && fixed_addr_matches(atyp, b@, t),
                Phase::DomainLength => a == ConnAction::ReadBytes((b[0] + 2) as usize),
                Phase::DomainBody { dlen } => if valid_utf8(b@.subrange(0, dlen as int)) {
                    a matches ConnAction::Resolve(name, port) && name@ == b@.subrange(
                        0,
                        dlen as int,
                    ) && port == port_val(b[dlen as int], b[dlen as int + 1])
                } else {
                    a is Close
                },
                _ => a is Close,
            },
            ConnEvent::Wrote => match p {
                Phase::Negotiated => a == ConnAction::ReadBytes(4),
                Phase::Connected => a is Relay,
                _ => a is Close,
            },
            ConnEvent::Resolved(v) => match p {
                Phase::Resolving => if v@.len() > 0 {
                    a matches ConnAction::Connect(t) && exists|i: int|
                        #[trigger] is_chosen(v@, i) && t == v@[i]
                } else {
                    a is Close
                },
                _ => a is Close,
            },
            ConnEvent::ConnectDone(local) => match p {
                Phase::Connecting => a matches ConnAction::WriteBytes(w) && w@ == spec_reply(
                    local,
                ),
                _ => a is Close,
            },
            _ => a is Close,
        },
    }
}

/// The per-connection orchestrator.  One connection is one independent
/// instance; nothing is shared between instances.  The driver performs
/// each returned action and feeds the outcome back as the next event.
pub struct Handler {
    pub phase: Phase,
}

impl Handler {
    /// The phase never holds an ATYP other than the two fixed-size ones.
    pub open spec fn wf(self) -> bool {
        self.phase matches Phase::AddrFixed { atyp } ==> atyp == ATYP_V4 || atyp == ATYP_V6
    }

    /// A connection always opens the same way: in the greeting phase,
    /// asking for the 2-byte greeting header.
    pub fn begin() -> (r: (Handler, ConnAction))
        ensures
            r.0.phase == Phase::Greeting,
            r.0.wf(),
            r.1 == ConnAction::ReadBytes(2),
    {
        (Handler { phase: Phase::Greeting }, ConnAction::ReadBytes(2))
    }

    /// Digests one event: moves to `phase_after` and returns the one
    /// action the new phase calls for.
    pub fn step(&mut self, ev: ConnEvent) -> (a: ConnAction)
        requires
            old(self).wf(),
            event_fits(old(self).phase, ev),
        ensures
            final(self).wf(),
            final(self).phase == phase_after(old(self).phase, ev),
            action_ok(old(self).phase, ev, a),
    {
        let p = self.phase;
        match p {
            Phase::Closed { .. } => ConnAction::Close,
            Phase::Failed { .. } => ConnAction::Close,
            _ => match ev {
                ConnEvent::Bytes(bytes) => match p {
                    Phase::Greeting => {
                        if bytes[0] == SOCKS_VERSION {
                            let n = bytes[1];
                            self.phase = Phase::GreetingMethods { nmethods: n };
                            ConnAction::ReadBytes(n as usize)
                        } else {
                            self.fail(Socks5Error::Protocol)
                        }
                    }
                    Phase::GreetingMethods { .. } => {
                        if contains_no_auth(bytes.as_slice()) {
                            self.phase = Phase::Negotiated;
                            let mut w: Vec<u8> = Vec::new();
                            w.push(SOCKS_VERSION);
                            w.push(METHOD_NO_AUTH);
                            proof {
                                assert(w@ =~= seq![SOCKS_VERSION, METHOD_NO_AUTH]);
                            }
                            ConnAction::WriteBytes(w)
                        } else {
                            self.fail(Socks5Error::Protocol)
                        }
                    }
                    Phase::CommandHeader => {
                        match parse_command_header(bytes.as_slice()) {
                            Err(e) => self.fail(e),
                            Ok(atyp) => {
                                if atyp == ATYP_V4 {
                                    self.phase = Phase::AddrFixed { atyp: ATYP_V4 };
                                    ConnAction::ReadBytes(6)
                                } else if atyp == ATYP_V6 {
                                    self.phase = Phase::AddrFixed { atyp: ATYP_V6 };
                                    ConnAction::ReadBytes(18)
                                } else if atyp == ATYP_DOMAIN {
                                    self.phase = Phase::DomainLength;
                                    ConnAction::ReadBytes(1)
                                } else {
                                    self.fail(Socks5Error::Protocol)
                                }
                            }
                        }
                    }
                    Phase::AddrFixed { atyp } => {
                        let t = decode_fixed_addr(atyp, bytes.as_slice());
                        self.phase = Phase::Connecting;
                        ConnAction::Connect(t)
                    }
                    Phase::DomainLength => {
                        let n = bytes[0];
                        self.phase = Phase::DomainBody { dlen: n };
                        ConnAction::ReadBytes(n as usize + 2)
                    }
                    Phase::DomainBody { dlen } => {
                        let n = dlen as usize;
                        let mut name: Vec<u8> = Vec::new();
                        let mut i: usize = 0;
                        while i < n
                            invariant
                                i <= n,
                                n + 2 == bytes@.len(),
                                name@ == bytes@.subrange(0, i as int),
                            decreases n - i,
                        {
                            name.push(bytes[i]);
                            proof {
                                assert(name@ =~= bytes@.subrange(0, i + 1));
                            }
                            i = i + 1;
                        }
                        if utf8_check(name.as_slice()) {
                            let port: u16 = (bytes[n] as u16) * 256 + (bytes[n + 1] as u16);
                            self.phase = Phase::Resolving;
                            proof {
                                crate::addr::lemma_port_bytes_inverse(
                                    port,
                                    bytes@[n as int],
                                    bytes@[n as int + 1],
                                );
                            }
                            ConnAction::Resolve(name, port)
                        } else {
                            self.fail(Socks5Error::Protocol)
                        }
                    }
                    _ => self.fail(Socks5Error::Io),
                },
                ConnEvent::Wrote => match p {
                    Phase::Negotiated => {
                        self.phase = Phase::CommandHeader;
                        ConnAction::ReadBytes(4)
                    }
                    Phase::Connected => {
                        self.phase = Phase::Relaying;
                        ConnAction::Relay
                    }
                    _ => self.fail(Socks5Error::Io),
                },
                ConnEvent::Resolved(candidates) => match p {
                    Phase::Resolving => {
                        let ghost c0 = candidates@;
                        match select_candidate(&candidates) {
                            None => self.fail(Socks5Error::Resolution),
                            Some(i) => {
                                let mut candidates = candidates;
                                let t = candidates.swap_remove(i);
                                self.phase = Phase::Connecting;
                                proof {
                                    assert(is_chosen(c0, i as int) && t == c0[i as int]);
                                }
                                ConnAction::Connect(t)
                            }
                        }
                    }
                    _ => self.fail(Socks5Error::Io),
                },
                ConnEvent::ResolveFailed => match p {
                    Phase::Resolving => self.fail(Socks5Error::Resolution),
                    _ => self.fail(Socks5Error::Io),
                },
                ConnEvent::ConnectDone(local) => match p {
                    Phase::Connecting => {
                        let w = encode_reply(&local);
                        self.phase = Phase::Connected;
                        ConnAction::WriteBytes(w)
                    }
                    _ => self.fail(Socks5Error::Io),
                },
                ConnEvent::ConnectFailed => match p {
                    Phase::Connecting => self.fail(Socks5Error::Connect),
                    _ => self.fail(Socks5Error::Io),
                },
                ConnEvent::IoFailed => self.fail(Socks5Error::Io),
                ConnEvent::RelayDone(n_out, n_in) => match p {
                    Phase::Relaying => {
                        self.phase = Phase::Closed { to_dest: n_out, to_client: n_in };
                        ConnAction::Close
                    }
                    _ => self.fail(Socks5Error::Io),
                },
            },
        }
    }

    /// Aborts the connection with `err`; the only action left is Close.
    fn fail(&mut self, err: Socks5Error) -> (a: ConnAction)
        ensures
            final(self).phase == (Phase::Failed { err }),
            a == ConnAction::Close,
    {
        self.phase = Phase::Failed { err };
        ConnAction::Close
    }
}

/// Law: a command header with a wrong version, a command other than
/// CONNECT, or a nonzero reserved byte aborts the connection during
/// parsing, so no resolution and no outbound connect is ever attempted.
pub proof fn lemma_bad_command_header_fails(b: Vec<u8>)
    requires
        b@.len() == 4,
        b@[0] != SOCKS_VERSION || b@[1] != crate::command::CMD_CONNECT || b@[2]
            != crate::command::RSV_BYTE,
    ensures
        phase_after(Phase::CommandHeader, ConnEvent::Bytes(b)) matches Phase::Failed { err }
            && err.is_parse_error(),
{
}

/// Law: the staged greeting phases agree with the one-shot negotiator.
/// Fed the two header bytes and then the method bytes of a greeting,
/// the handler reaches Negotiated exactly when the whole greeting is
/// acceptable — the version byte is 0x05 and the method list offers
/// "no authentication"; a wrong version aborts at once.
pub proof fn lemma_staged_greeting_matches_negotiator(hdr: Vec<u8>, methods: Vec<u8>)
    requires
        hdr@.len() == 2,
        methods@.len() == hdr@[1],
    ensures
        hdr@[0] != SOCKS_VERSION ==> phase_after(Phase::Greeting, ConnEvent::Bytes(hdr)) == (
        Phase::Failed { err: Socks5Error::Protocol }),
        hdr@[0] == SOCKS_VERSION ==> phase_after(Phase::Greeting, ConnEvent::Bytes(hdr)) == (
        Phase::GreetingMethods { nmethods: hdr@[1] }),
        hdr@[0] == SOCKS_VERSION ==> (phase_after(
            Phase::GreetingMethods { nmethods: hdr@[1] },
            ConnEvent::Bytes(methods),
        ) == Phase::Negotiated <==> crate::greeting::greeting_acceptable(hdr@ + methods@)),
{
    let g = hdr@ + methods@;
    assert(g.subrange(2, g.len() as int) =~= methods@);
    assert(g[0] == hdr@[0] && g[1] == hdr@[1]);
}

/// Events that carry the same payload, byte for byte.
pub open spec fn same_event(e1: ConnEvent, e2: ConnEvent) -> bool {
    match (e1, e2) {
        (ConnEvent::Bytes(a), ConnEvent::Bytes(b)) => a@ == b@,
        (ConnEvent::Wrote, ConnEvent::Wrote) => true,
        (ConnEvent::Resolved(a), ConnEvent::Resolved(b)) => a@ == b@,
        (ConnEvent::ResolveFailed, ConnEvent::ResolveFailed) => true,
        (ConnEvent::ConnectDone(a), ConnEvent::ConnectDone(b)) => a == b,
        (ConnEvent::ConnectFailed, ConnEvent::ConnectFailed) => true,
        (ConnEvent::IoFailed, ConnEvent::IoFailed) => true,
        (ConnEvent::RelayDone(a1, a2), ConnEvent::RelayDone(b1, b2)) => a1 == b1 && a2 == b2,
        _ => false,
    }
}

/// Law: connections are independent and the pipeline is deterministic.
/// Two handlers in the same phase, fed events with the same payloads,
/// move through the same phases — so repeating an identical valid
/// handshake and CONNECT sequence on two fresh connections produces two
/// sessions that cannot interfere or diverge.
pub proof fn lemma_sessions_independent(p: Phase, e1: ConnEvent, e2: ConnEvent)
    requires
        same_event(e1, e2),
    ensures
        phase_after(p, e1) == phase_after(p, e2),
{
}

} // verus!
