use socks5_core::addr::TargetAddress;
use socks5_core::error::Socks5Error;
use socks5_core::handler::{ConnAction, ConnEvent, Handler, Phase};
use socks5_core::relay::{RelayDirective, RelayState};

fn v4(ip: [u8; 4], port: u16) -> TargetAddress {
    TargetAddress::V4 { ip: ip.to_vec(), port }
}

fn v6(ip: [u8; 16], port: u16) -> TargetAddress {
    TargetAddress::V6 { ip: ip.to_vec(), port }
}

/// Drives one handler through the full no-auth CONNECT exchange to
/// 127.0.0.1:80 and returns it in the relaying phase.
fn run_handshake(h: &mut Handler) {
    let a = h.step(ConnEvent::Bytes(vec![0x05, 0x01]));
    assert_eq!(a, ConnAction::ReadBytes(1));
    let a = h.step(ConnEvent::Bytes(vec![0x00]));
    assert_eq!(a, ConnAction::WriteBytes(vec![0x05, 0x00]));
    let a = h.step(ConnEvent::Wrote);
    assert_eq!(a, ConnAction::ReadBytes(4));
    let a = h.step(ConnEvent::Bytes(vec![0x05, 0x01, 0x00, 0x01]));
    assert_eq!(a, ConnAction::ReadBytes(6));
    let a = h.step(ConnEvent::Bytes(vec![127, 0, 0, 1, 0x00, 0x50]));
    assert_eq!(a, ConnAction::Connect(v4([127, 0, 0, 1], 80)));
    let a = h.step(ConnEvent::ConnectDone(v4([127, 0, 0, 1], 4321)));
    assert_eq!(
        a,
        ConnAction::WriteBytes(vec![0x05, 0x00, 0x00, 0x01, 127, 0, 0, 1, 0x10, 0xe1])
    );
    let a = h.step(ConnEvent::Wrote);
    assert_eq!(a, ConnAction::Relay);
    assert_eq!(h.phase, Phase::Relaying);
}

#[test]
fn connect_exchange_end_to_end() {
    let (mut h, first) = Handler::begin();
    assert_eq!(first, ConnAction::ReadBytes(2));
    run_handshake(&mut h);
    let a = h.step(ConnEvent::RelayDone(10, 20));
    assert_eq!(a, ConnAction::Close);
    assert_eq!(
        h.phase,
        Phase::Closed {
            to_dest: 10,
            to_client: 20
        }
    );
}

#[test]
fn wrong_version_closes_without_reply() {
    let (mut h, _) = Handler::begin();
    let a = h.step(ConnEvent::Bytes(vec![0x04, 0x01]));
    assert_eq!(a, ConnAction::Close);
    assert_eq!(
        h.phase,
        Phase::Failed {
            err: Socks5Error::Protocol
        }
    );
}

#[test]
fn method_list_without_no_auth_closes_without_reply() {
    let (mut h, _) = Handler::begin();
    let a = h.step(ConnEvent::Bytes(vec![0x05, 0x02]));
    assert_eq!(a, ConnAction::ReadBytes(2));
    let a = h.step(ConnEvent::Bytes(vec![0x01, 0x02]));
    assert_eq!(a, ConnAction::Close);
    assert_eq!(
        h.phase,
        Phase::Failed {
            err: Socks5Error::Protocol
        }
    );
}

#[test]
fn identical_sessions_stay_in_lockstep() {
    let (mut h1, a1) = Handler::begin();
    let (mut h2, a2) = Handler::begin();
    assert_eq!(a1, a2);
    let script: Vec<ConnEvent> = vec![
        ConnEvent::Bytes(vec![0x05, 0x01]),
        ConnEvent::Bytes(vec![0x00]),
        ConnEvent::Wrote,
        ConnEvent::Bytes(vec![0x05, 0x01, 0x00, 0x01]),
        ConnEvent::Bytes(vec![127, 0, 0, 1, 0x00, 0x50]),
        ConnEvent::ConnectDone(v4([127, 0, 0, 1], 4321)),
        ConnEvent::Wrote,
        ConnEvent::RelayDone(7, 9),
    ];
    for ev in script {
        let r1 = h1.step(ev.clone());
        let r2 = h2.step(ev);
        assert_eq!(r1, r2);
        assert_eq!(h1.phase, h2.phase);
    }
    assert_eq!(
        h1.phase,
        Phase::Closed {
            to_dest: 7,
            to_client: 9
        }
    );
}

#[test]
fn domain_connect_resolves_and_prefers_ipv4() {
    let (mut h, _) = Handler::begin();
    let a = h.step(ConnEvent::Bytes(vec![0x05, 0x01]));
    assert_eq!(a, ConnAction::ReadBytes(1));
    let a = h.step(ConnEvent::Bytes(vec![0x00]));
    assert_eq!(a, ConnAction::WriteBytes(vec![0x05, 0x00]));
    let a = h.step(ConnEvent::Wrote);
    assert_eq!(a, ConnAction::ReadBytes(4));
    let a = h.step(ConnEvent::Bytes(vec![0x05, 0x01, 0x00, 0x03]));
    assert_eq!(a, ConnAction::ReadBytes(1));
    let a = h.step(ConnEvent::Bytes(vec![11]));
    assert_eq!(a, ConnAction::ReadBytes(13));
    let mut body = b"example.com".to_vec();
    body.extend_from_slice(&[0x00, 0x50]);
    let a = h.step(ConnEvent::Bytes(body));
    assert_eq!(a, ConnAction::Resolve(b"example.com".to_vec(), 80));
    let mut loopback6 = [0u8; 16];
    loopback6[15] = 1;
    let a = h.step(ConnEvent::Resolved(vec![
        v6(loopback6, 80),
        v4([127, 0, 0, 1], 80),
    ]));
    assert_eq!(a, ConnAction::Connect(v4([127, 0, 0, 1], 80)));
    assert_eq!(h.phase, Phase::Connecting);
}

#[test]
fn domain_with_invalid_utf8_fails_parsing() {
    let (mut h, _) = Handler::begin();
    h.step(ConnEvent::Bytes(vec![0x05, 0x01]));
    h.step(ConnEvent::Bytes(vec![0x00]));
    h.step(ConnEvent::Wrote);
    h.step(ConnEvent::Bytes(vec![0x05, 0x01, 0x00, 0x03]));
    h.step(ConnEvent::Bytes(vec![2]));
    let a = h.step(ConnEvent::Bytes(vec![0xff, 0xfe, 0x00, 0x50]));
    assert_eq!(a, ConnAction::Close);
    assert_eq!(
        h.phase,
        Phase::Failed {
            err: Socks5Error::Protocol
        }
    );
}

#[test]
fn udp_associate_is_unsupported() {
    let (mut h, _) = Handler::begin();
    h.step(ConnEvent::Bytes(vec![0x05, 0x01]));
    h.step(ConnEvent::Bytes(vec![0x00]));
    h.step(ConnEvent::Wrote);
    let a = h.step(ConnEvent::Bytes(vec![0x05, 0x03, 0x00, 0x01]));
    assert_eq!(a, ConnAction::Close);
    assert_eq!(
        h.phase,
        Phase::Failed {
            err: Socks5Error::Unsupported
        }
    );
}

#[test]
fn empty_resolution_fails() {
    let (mut h, _) = Handler::begin();
    h.step(ConnEvent::Bytes(vec![0x05, 0x01]));
    h.step(ConnEvent::Bytes(vec![0x00]));
    h.step(ConnEvent::Wrote);
    h.step(ConnEvent::Bytes(vec![0x05, 0x01, 0x00, 0x03]));
    h.step(ConnEvent::Bytes(vec![1]));
    h.step(ConnEvent::Bytes(vec![b'a', 0x00, 0x50]));
    let a = h.step(ConnEvent::Resolved(Vec::new()));
    assert_eq!(a, ConnAction::Close);
    assert_eq!(
        h.phase,
        Phase::Failed {
            err: Socks5Error::Resolution
        }
    );
}

#[test]
fn resolver_failure_fails() {
    let (mut h, _) = Handler::begin();
    h.step(ConnEvent::Bytes(vec![0x05, 0x01]));
    h.step(ConnEvent::Bytes(vec![0x00]));
    h.step(ConnEvent::Wrote);
    h.step(ConnEvent::Bytes(vec![0x05, 0x01, 0x00, 0x03]));
    h.step(ConnEvent::Bytes(vec![1]));
    h.step(ConnEvent::Bytes(vec![b'a', 0x00, 0x50]));
    let a = h.step(ConnEvent::ResolveFailed);
    assert_eq!(a, ConnAction::Close);
    assert_eq!(
        h.phase,
        Phase::Failed {
            err: Socks5Error::Resolution
        }
    );
}

#[test]
fn connect_failure_fails() {
    let (mut h, _) = Handler::begin();
    h.step(ConnEvent::Bytes(vec![0x05, 0x01]));
    h.step(ConnEvent::Bytes(vec![0x00]));
    h.step(ConnEvent::Wrote);
    h.step(ConnEvent::Bytes(vec![0x05, 0x01, 0x00, 0x01]));
    h.step(ConnEvent::Bytes(vec![127, 0, 0, 1, 0x00, 0x50]));
    let a = h.step(ConnEvent::ConnectFailed);
    assert_eq!(a, ConnAction::Close);
    assert_eq!(
        h.phase,
        Phase::Failed {
            err: Socks5Error::Connect
        }
    );
}

#[test]
fn io_failure_fails_anywhere() {
    let (mut h, _) = Handler::begin();
    let a = h.step(ConnEvent::IoFailed);
    assert_eq!(a, ConnAction::Close);
    assert_eq!(h.phase, Phase::Failed { err: Socks5Error::Io });
}

#[test]
fn terminal_phases_absorb_events() {
    let (mut h, _) = Handler::begin();
    h.step(ConnEvent::IoFailed);
    let a = h.step(ConnEvent::Bytes(vec![0x05, 0x01]));
    assert_eq!(a, ConnAction::Close);
    assert_eq!(h.phase, Phase::Failed { err: Socks5Error::Io });
}

#[test]
fn relay_counts_and_half_close() {
    let mut r = RelayState::begin();
    assert!(!r.is_done());
    assert_eq!(r.on_client_chunk(100), RelayDirective::Proceed);
    assert_eq!(r.on_dest_chunk(40), RelayDirective::Proceed);
    assert_eq!(r.on_client_chunk(1), RelayDirective::Proceed);
    assert_eq!(r.on_client_eof(), RelayDirective::ShutdownDestWrite);
    assert!(!r.is_done());
    assert_eq!(r.on_dest_chunk(2), RelayDirective::Proceed);
    assert_eq!(r.on_dest_eof(), RelayDirective::ShutdownClientWrite);
    assert!(r.is_done());
    assert_eq!(r.totals(), (101, 42));
}

#[test]
fn relay_error_stops_both_directions() {
    let mut r = RelayState::begin();
    r.on_client_chunk(5);
    assert_eq!(r.on_error(), RelayDirective::Stop);
    assert!(r.is_done());
    assert_eq!(r.totals(), (5, 0));
}
