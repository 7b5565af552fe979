use outbound::addr::{IpAddr, SocketAddr};
use outbound::socks5::{step, Handshake, HandshakeError, Outcome, Reply};

/// Plays a whole conversation: hands the handshake the bytes it asks for, in
/// order, and collects what the proxy sends.
fn converse(mut input: &[u8]) -> (Vec<u8>, Result<SocketAddr, HandshakeError>) {
    let mut sent = Vec::new();
    let mut state = Handshake::start();
    loop {
        let n = state.wants();
        let take = n.min(input.len());
        let (now, rest) = input.split_at(take);
        input = rest;
        match step(state, now) {
            Outcome::Continue { send, state: next } => {
                sent.extend(send.bytes());
                state = next;
            }
            Outcome::Connect { send, target } => {
                sent.extend(send.bytes());
                return (sent, Ok(target));
            }
            Outcome::Fail(e) => return (sent, Err(e)),
        }
    }
}

#[test]
fn connect_to_ipv4_literal() {
    let (sent, r) = converse(&[5, 1, 0, 5, 1, 0, 1, 127, 0, 0, 2, 0x1f, 0x90]);
    assert_eq!(r, Ok(SocketAddr::new(IpAddr::V4(127, 0, 0, 2), 8080)));
    assert_eq!(sent, vec![5, 0, 5, 0, 0, 1, 0, 0, 0, 0, 0, 0]);
}

#[test]
fn connect_to_ipv6_literal() {
    let mut input = vec![5, 2, 1, 0, 5, 1, 0, 4];
    input.extend([0x20, 0x01, 0x0d, 0xb8, 0, 0, 0, 0, 0, 0, 0, 0, 0, 0, 0, 1]);
    input.extend([0x01, 0xbb]);
    let (sent, r) = converse(&input);
    assert_eq!(r, Ok(SocketAddr::new(IpAddr::V6(0x2001, 0x0db8, 0, 0, 0, 0, 0, 1), 443)));
    assert_eq!(sent, vec![5, 0, 5, 0, 0, 1, 0, 0, 0, 0, 0, 0]);
}

#[test]
fn port_is_read_high_byte_first() {
    let state = Handshake::Port { ip: IpAddr::V4(1, 2, 3, 4) };
    assert_eq!(
        step(state, &[0x12, 0x34]),
        Outcome::Connect { send: Reply::Succeeded, target: SocketAddr::new(IpAddr::V4(1, 2, 3, 4), 0x1234) }
    );
    assert_eq!(
        step(state, &[0xff, 0xff]),
        Outcome::Connect { send: Reply::Succeeded, target: SocketAddr::new(IpAddr::V4(1, 2, 3, 4), 65535) }
    );
    assert_eq!(
        step(state, &[0, 1]),
        Outcome::Connect { send: Reply::Succeeded, target: SocketAddr::new(IpAddr::V4(1, 2, 3, 4), 1) }
    );
}

#[test]
fn greeting_errors() {
    assert_eq!(converse(&[4, 1, 0]).1, Err(HandshakeError::InvalidVersion));
    assert_eq!(converse(&[5, 0]).1, Err(HandshakeError::InvalidAuthMethods));
    assert_eq!(converse(&[5, 2, 1, 2]).1, Err(HandshakeError::UnsupportedAuthMethod));
    let (sent, _) = converse(&[5, 2, 1, 2]);
    assert!(sent.is_empty());
}

#[test]
fn command_errors() {
    assert_eq!(converse(&[5, 1, 0, 4, 1]).1, Err(HandshakeError::UnsupportedVersion));
    assert_eq!(converse(&[5, 1, 0, 5, 2]).1, Err(HandshakeError::UnsupportedCommand));
    let (sent, _) = converse(&[5, 1, 0, 5, 2]);
    assert_eq!(sent, vec![5, 0]);
}

#[test]
fn domain_name_is_read_and_refused() {
    let (sent, r) = converse(&[5, 1, 0, 5, 1, 0, 3, 3, b'a', b'b', b'c', 0, 80]);
    assert_eq!(r, Err(HandshakeError::UnsupportedHost));
    assert_eq!(sent, vec![5, 0]);
    assert_eq!(
        step(Handshake::DomainLength, &[3]),
        Outcome::Continue { send: Reply::Nothing, state: Handshake::Domain { length: 3 } }
    );
    assert_eq!(step(Handshake::Domain { length: 3 }, b"abc"), Outcome::Fail(HandshakeError::UnsupportedHost));
    assert_eq!(step(Handshake::Domain { length: 0 }, b""), Outcome::Fail(HandshakeError::UnsupportedHost));
}

#[test]
fn unknown_address_type_is_refused() {
    assert_eq!(converse(&[5, 1, 0, 5, 1, 0, 9]).1, Err(HandshakeError::UnsupportedHost));
}

#[test]
fn short_input_is_refused() {
    assert_eq!(converse(&[5]).1, Err(HandshakeError::Truncated));
    assert_eq!(converse(&[5, 1, 0, 5, 1, 0, 1, 127, 0]).1, Err(HandshakeError::Truncated));
    assert_eq!(step(Handshake::Greeting, &[5, 1, 0]), Outcome::Fail(HandshakeError::Truncated));
}

#[test]
fn each_state_asks_for_its_bytes() {
    assert_eq!(Handshake::Greeting.wants(), 2);
    assert_eq!(Handshake::Methods { count: 7 }.wants(), 7);
    assert_eq!(Handshake::Command.wants(), 2);
    assert_eq!(Handshake::Reserved.wants(), 1);
    assert_eq!(Handshake::AddressType.wants(), 1);
    assert_eq!(Handshake::V4Host.wants(), 4);
    assert_eq!(Handshake::V6Host.wants(), 16);
    assert_eq!(Handshake::DomainLength.wants(), 1);
    assert_eq!(Handshake::Domain { length: 200 }.wants(), 200);
    assert_eq!(Handshake::Port { ip: IpAddr::V4(0, 0, 0, 0) }.wants(), 2);
}

#[test]
fn replies_and_messages() {
    assert_eq!(Reply::Nothing.bytes(), Vec::<u8>::new());
    assert_eq!(Reply::MethodSelected.bytes(), vec![5, 0]);
    assert_eq!(Reply::Succeeded.bytes(), vec![5, 0, 0, 1, 0, 0, 0, 0, 0, 0]);
    assert_eq!(HandshakeError::InvalidVersion.message(), "Invalid version");
    assert_eq!(HandshakeError::InvalidAuthMethods.message(), "Invalid auth methods");
    assert_eq!(HandshakeError::UnsupportedAuthMethod.message(), "unsupported auth method");
    assert_eq!(HandshakeError::UnsupportedVersion.message(), "unsupported version");
    assert_eq!(HandshakeError::UnsupportedCommand.message(), "unsupported command");
    assert_eq!(HandshakeError::UnsupportedHost.message(), "unsupported host");
    assert_eq!(HandshakeError::Truncated.message(), "unexpected end of handshake");
}
