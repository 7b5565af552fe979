//! The SOCKS5 front end's handshake: unauthenticated clients, the CONNECT
//! command, IPv4 and IPv6 literals.
//!
//! The handshake reads a fixed number of bytes at a time. `Handshake::wants`
//! says how many come next; `step` takes them and says what to send and how
//! to go on.

use vstd::prelude::*;
use byteorder::{BigEndian, ByteOrder};
use crate::addr::{IpAddr, SocketAddr};

verus! {

/// Why a handshake was given up.
#[derive(Clone, Copy, Debug, PartialEq, Eq, Hash, Structural)]
pub enum HandshakeError {
    /// The greeting is not of version 5.
    InvalidVersion,
    /// The greeting offers no method at all.
    InvalidAuthMethods,
    /// The client does not offer to go unauthenticated.
    UnsupportedAuthMethod,
    /// The command is not of version 5.
    UnsupportedVersion,
    /// The command is not CONNECT.
    UnsupportedCommand,
    /// The target is a domain name or of an unknown kind.
    UnsupportedHost,
    /// Fewer or more bytes were handed over than the handshake asked for.
    Truncated,
}

impl HandshakeError {
    pub open spec fn spec_message(self) -> Seq<char> {
        match self {
            HandshakeError::InvalidVersion => "Invalid version"@,
            HandshakeError::InvalidAuthMethods => "Invalid auth methods"@,
            HandshakeError::UnsupportedAuthMethod => "unsupported auth method"@,
            HandshakeError::UnsupportedVersion => "unsupported version"@,
            HandshakeError::UnsupportedCommand => "unsupported command"@,
            HandshakeError::UnsupportedHost => "unsupported host"@,
            HandshakeError::Truncated => "unexpected end of handshake"@,
        }
    }

    /// The error in words.
    pub fn message(self) -> (r: &'static str)
        ensures
            r@ == self.spec_message(),
    {
        match self {
            HandshakeError::InvalidVersion => "Invalid version",
            HandshakeError::InvalidAuthMethods => "Invalid auth methods",
            HandshakeError::UnsupportedAuthMethod => "unsupported auth method",
            HandshakeError::UnsupportedVersion => "unsupported version",
            HandshakeError::UnsupportedCommand => "unsupported command",
            HandshakeError::UnsupportedHost => "unsupported host",
            HandshakeError::Truncated => "unexpected end of handshake",
        }
    }
}

/// What the handshake reads next.
#[derive(Clone, Copy, Debug, PartialEq, Eq, Hash, Structural)]
pub enum Handshake {
    /// Version and number of methods.
    Greeting,
    /// The methods the client offers, `count` of them.
    Methods { count: u8 },
    /// Version and command.
    Command,
    /// The reserved byte.
    Reserved,
    /// The kind of address.
    AddressType,
    /// Four octets.
    V4Host,
    /// Sixteen octets.
    V6Host,
    /// The length of a domain name.
    DomainLength,
    /// A domain name of `length` bytes.
    Domain { length: u8 },
    /// The port, after the address `ip`.
    Port { ip: IpAddr },
}

/// What the proxy sends to the client after a step.
#[derive(Clone, Copy, Debug, PartialEq, Eq, Hash, Structural)]
pub enum Reply {
    /// Nothing.
    Nothing,
    /// Version 5, method 0: go on unauthenticated.
    MethodSelected,
    /// Version 5, success, and an all-zero IPv4 address and port, which
    /// clients ignore.
    Succeeded,
}

impl Reply {
    pub open spec fn spec_bytes(self) -> Seq<u8> {
        match self {
            Reply::Nothing => seq![],
            Reply::MethodSelected => seq![5u8, 0u8],
            Reply::Succeeded => seq![5u8, 0u8, 0u8, 1u8, 0u8, 0u8, 0u8, 0u8, 0u8, 0u8],
        }
    }

    /// The bytes to send.
    pub fn bytes(self) -> (r: Vec<u8>)
        ensures
            r@ == self.spec_bytes(),
    {
        let r = match self {
            Reply::Nothing => Vec::new(),
            Reply::MethodSelected => vec![5u8, 0u8],
            Reply::Succeeded => vec![5u8, 0u8, 0u8, 1u8, 0u8, 0u8, 0u8, 0u8, 0u8, 0u8],
        };
        proof {
            assert(r@ =~= self.spec_bytes());
        }
        r
    }
}

/// Where the handshake stands after a step.
#[derive(Clone, Copy, Debug, PartialEq, Eq, Hash, Structural)]
pub enum Outcome {
    /// Send `send`, then read what `state` wants and step again.
    Continue { send: Reply, state: Handshake },
    /// Send `send`, then proxy the connection to `target`.
    Connect { send: Reply, target: SocketAddr },
    /// Give the connection up.
    Fail(HandshakeError),
}

/// The 16-bit number that two bytes spell, the high byte first.
pub open spec fn be16(hi: u8, lo: u8) -> int {
    hi * 256 + lo
}

/// The IPv4 address that four octets spell.
pub open spec fn spec_v4(b: Seq<u8>) -> IpAddr
    recommends
        b.len() == 4,
{
    IpAddr::V4(b[0], b[1], b[2], b[3])
}

/// The IPv6 address that sixteen octets spell: eight segments, each with its
/// high byte first.
pub open spec fn spec_v6(b: Seq<u8>) -> IpAddr
    recommends
        b.len() == 16,
{
    IpAddr::V6(
        be16(b[0], b[1]) as u16,
        be16(b[2], b[3]) as u16,
        be16(b[4], b[5]) as u16,
        be16(b[6], b[7]) as u16,
        be16(b[8], b[9]) as u16,
        be16(b[10], b[11]) as u16,
        be16(b[12], b[13]) as u16,
        be16(b[14], b[15]) as u16,
    )
}

impl Handshake {
    pub open spec fn spec_wants(self) -> nat {
        match self {
            Handshake::Greeting => 2,
            Handshake::Methods { count } => count as nat,
            Handshake::Command => 2,
            Handshake::Reserved => 1,
            Handshake::AddressType => 1,
            Handshake::V4Host => 4,
            Handshake::V6Host => 16,
            Handshake::DomainLength => 1,
            Handshake::Domain { length } => length as nat,
            Handshake::Port { .. } => 2,
        }
    }

    /// The state in which every handshake begins.
    pub fn start() -> (r: Handshake)
        ensures
            r == Handshake::Greeting,
    {
        Handshake::Greeting
    }

    /// How many bytes the next step takes.
    pub fn wants(self) -> (n: usize)
        ensures
            n == self.spec_wants(),
    {
        match self {
            Handshake::Greeting => 2,
            Handshake::Methods { count } => count as usize,
            Handshake::Command => 2,
            Handshake::Reserved => 1,
            Handshake::AddressType => 1,
            Handshake::V4Host => 4,
            Handshake::V6Host => 16,
            Handshake::DomainLength => 1,
            Handshake::Domain { length } => length as usize,
            Handshake::Port { .. } => 2,
        }
    }
}

/// What follows when the handshake in state `state` is handed `bytes`.
pub open spec fn spec_step(state: Handshake, bytes: Seq<u8>) -> Outcome {
    if bytes.len() != state.spec_wants() {
        Outcome::Fail(HandshakeError::Truncated)
    } else {
        match state {
            Handshake::Greeting => if bytes[0] != 5 {
                Outcome::Fail(HandshakeError::InvalidVersion)
            } else if bytes[1] == 0 {
                Outcome::Fail(HandshakeError::InvalidAuthMethods)
            } else {
                Outcome::Continue {
                    send: Reply::Nothing,
                    state: Handshake::Methods { count: bytes[1] },
                }
            },
            Handshake::Methods { .. } => if bytes.contains(0u8) {
                Outcome::Continue { send: Reply::MethodSelected, state: Handshake::Command }
            } else {
                Outcome::Fail(HandshakeError::UnsupportedAuthMethod)
            },
            Handshake::Command => if bytes[0] != 5 {
                Outcome::Fail(HandshakeError::UnsupportedVersion)
            } else if bytes[1] != 1 {
                Outcome::Fail(HandshakeError::UnsupportedCommand)
            } else {
                Outcome::Continue { send: Reply::Nothing, state: Handshake::Reserved }
            },
            Handshake::Reserved => Outcome::Continue {
                send: Reply::Nothing,
                state: Handshake::AddressType,
            },
            Handshake::AddressType => if bytes[0] == 1 {
                Outcome::Continue { send: Reply::Nothing, state: Handshake::V4Host }
            } else if bytes[0] == 4 {
                Outcome::Continue { send: Reply::Nothing, state: Handshake::V6Host }
            } else if bytes[0] == 3 {
                Outcome::Continue { send: Reply::Nothing, state: Handshake::DomainLength }
            } else {
                Outcome::Fail(HandshakeError::UnsupportedHost)
            },
            Handshake::V4Host => Outcome::Continue {
                send: Reply::Nothing,
                state: Handshake::Port { ip: spec_v4(bytes) },
            },
            Handshake::V6Host => Outcome::Continue {
                send: Reply::Nothing,
                state: Handshake::Port { ip: spec_v6(bytes) },
            },
            Handshake::DomainLength => Outcome::Continue {
                send: Reply::Nothing,
                state: Handshake::Domain { length: bytes[0] },
            },
            Handshake::Domain { .. } => Outcome::Fail(HandshakeError::UnsupportedHost),
            Handshake::Port { ip } => Outcome::Connect {
                send: Reply::Succeeded,
                target: SocketAddr { ip, port: be16(bytes[0], bytes[1]) as u16 },
            },
        }
    }
}

/// `byteorder`'s `BigEndian::read_u16`: the number that the first two bytes of
/// `buf` spell, the first of them the high byte. It panics on a shorter
/// buffer, which the precondition leaves out.
#[verifier::external_body]
fn read_u16_be(buf: &[u8]) -> (r: u16)
    requires
        buf@.len() >= 2,
    ensures
        r == be16(buf@[0], buf@[1]),
{
    BigEndian::read_u16(buf)
}

fn segment(hi: u8, lo: u8) -> (r: u16)
    ensures
        r == be16(hi, lo),
{
    (hi as u16) * 256 + (lo as u16)
}

fn offers_unauthenticated(methods: &[u8]) -> (r: bool)
    ensures
        r == methods@.contains(0u8),
{
    let mut i: usize = 0;
    while i < methods.len()
        invariant
            i <= methods@.len(),
            forall|j: int| 0 <= j < i ==> methods@[j] != 0,
        decreases methods@.len() - i,
    {
        if methods[i] == 0 {
            return true;
        }
        i = i + 1;
    }
    false
}

fn v6_of(b: &[u8]) -> (r: IpAddr)
    requires
        b@.len() == 16,
    ensures
        r == spec_v6(b@),
{
    IpAddr::V6(
        segment(b[0], b[1]),
        segment(b[2], b[3]),
        segment(b[4], b[5]),
        segment(b[6], b[7]),
        segment(b[8], b[9]),
        segment(b[10], b[11]),
        segment(b[12], b[13]),
        segment(b[14], b[15]),
    )
}

/// Takes the bytes that the handshake asked for and says what follows.
///
/// The client's greeting has to be of version 5 and offer at least one
/// method, among them method 0; the proxy then selects method 0. The command
/// has to be of version 5 and be CONNECT; the target has to be an IPv4 or an
/// IPv6 literal. A domain name is read to its end and then refused. After the
/// port the proxy reports success and the connection is proxied to the target.
pub fn step(state: Handshake, bytes: &[u8]) -> (r: Outcome)
    ensures
        r == spec_step(state, bytes@),
{
    if bytes.len() != state.wants() {
        return Outcome::Fail(HandshakeError::Truncated);
    }
    match state {
        Handshake::Greeting => if bytes[0] != 5 {
            Outcome::Fail(HandshakeError::InvalidVersion)
        } else if bytes[1] == 0 {
            Outcome::Fail(HandshakeError::InvalidAuthMethods)
        } else {
            Outcome::Continue { send: Reply::Nothing, state: Handshake::Methods { count: bytes[1] } }
        },
        Handshake::Methods { .. } => if offers_unauthenticated(bytes) {
            Outcome::Continue { send: Reply::MethodSelected, state: Handshake::Command }
        } else {
            Outcome::Fail(HandshakeError::UnsupportedAuthMethod)
        },
        Handshake::Command => if bytes[0] != 5 {
            Outcome::Fail(HandshakeError::UnsupportedVersion)
        } else if bytes[1] != 1 {
            Outcome::Fail(HandshakeError::UnsupportedCommand)
        } else {
            Outcome::Continue { send: Reply::Nothing, state: Handshake::Reserved }
        },
        Handshake::Reserved => Outcome::Continue {
            send: Reply::Nothing,
            state: Handshake::AddressType,
        },
        Handshake::AddressType => if bytes[0] == 1 {
            Outcome::Continue { send: Reply::Nothing, state: Handshake::V4Host }
        } else if bytes[0] == 4 {
            Outcome::Continue { send: Reply::Nothing, state: Handshake::V6Host }
        } else if bytes[0] == 3 {
            Outcome::Continue { send: Reply::Nothing, state: Handshake::DomainLength }
        } else {
            Outcome::Fail(HandshakeError::UnsupportedHost)
        },
        Handshake::V4Host => Outcome::Continue {
            send: Reply::Nothing,
            state: Handshake::Port { ip: IpAddr::V4(bytes[0], bytes[1], bytes[2], bytes[3]) },
        },
        Handshake::V6Host => Outcome::Continue {
            send: Reply::Nothing,
            state: Handshake::Port { ip: v6_of(bytes) },
        },
        Handshake::DomainLength => Outcome::Continue {
            send: Reply::Nothing,
            state: Handshake::Domain { length: bytes[0] },
        },
        Handshake::Domain { .. } => Outcome::Fail(HandshakeError::UnsupportedHost),
        Handshake::Port { ip } => {
            let port = read_u16_be(bytes);
            Outcome::Connect { send: Reply::Succeeded, target: SocketAddr::new(ip, port) }
        },
    }
}

} // verus!
