//! Socket addresses written as a bare port, as `:port`, as `localhost:port`,
//! or as a host for the platform's resolver.

use crate::decimal::{
    decimal_text, is_digit, lemma_decimal_text_digits, lemma_decimal_text_parses, parse_u16,
    parse_unsigned, u16_parse_error,
};
use crate::text::strip_prefix;
use std::num::ParseIntError;
use vstd::prelude::*;

verus! {

/// The error of the platform's resolver, carried through unopened.
#[verifier::external_type_specification]
#[verifier::external_body]
pub struct ExIoError(std::io::Error);

/// An IP address by its octets in network order.
#[derive(Clone, Copy, Debug, PartialEq, Eq)]
pub enum IpAddress {
    /// The four octets of an IPv4 address.
    V4([u8; 4]),
    /// The sixteen octets of an IPv6 address.
    V6([u8; 16]),
}

/// An IP address together with a port.
#[allow(inconsistent_fields)]
#[derive(Clone, Copy, Debug, PartialEq, Eq)]
pub enum SocketAddress {
    /// An IPv4 address and a port.
    V4 { octets: [u8; 4], port: u16 },
    /// An IPv6 address and a port, with the flow information and scope of the endpoint.
    V6 { octets: [u8; 16], port: u16, flowinfo: u32, scope_id: u32 },
}

/// Error thrown while parsing a socket address.
#[derive(Debug)]
pub enum SocketAddressParsingError {
    /// Failed to convert the string into a socket addr
    Io(std::io::Error),
    /// Input must not be empty
    Empty,
    /// Failed to parse the address
    Parse(String),
    /// Failed to parse port
    Port(ParseIntError),
}

/// What reading a socket address text leaves to be done.
#[derive(Clone, Copy, Debug, PartialEq, Eq)]
pub enum SocketAddressStep {
    /// The text named a local port: this is the address.
    Ready(SocketAddress),
    /// The text names a host: the resolver has to be asked for its addresses.
    Resolve,
}

/// What a socket address text says, as far as its characters decide it.
pub enum SocketAddressReading {
    /// The text is empty.
    Empty,
    /// The text has a port prefix, and what follows is no port number.
    BadPort,
    /// The text names this port on the local host.
    Loopback(u16),
    /// The text is neither a port nor prefixed: it names a host.
    Host,
}

/// The octets of 127.0.0.1.
pub open spec fn localhost_octets() -> Seq<u8> {
    seq![127u8, 0u8, 0u8, 1u8]
}

/// The octets of ::1.
pub open spec fn localhost_v6_octets() -> Seq<u8> {
    Seq::new(16, |i: int| if i == 15 { 1u8 } else { 0u8 })
}

/// What follows a leading `:` or `localhost:`, where the text has one.
pub open spec fn port_text(value: Seq<char>) -> Option<Seq<char>> {
    if ":"@.is_prefix_of(value) {
        Some(value.skip(":"@.len() as int))
    } else if "localhost:"@.is_prefix_of(value) {
        Some(value.skip("localhost:"@.len() as int))
    } else {
        None
    }
}

/// The reading of a socket address text: a prefixed text must hold a port, an
/// unprefixed one is a port where it is a number that fits, and a host otherwise.
pub open spec fn socket_address_reading(value: Seq<char>) -> SocketAddressReading {
    if value.len() == 0 {
        SocketAddressReading::Empty
    } else if let Some(port) = port_text(value) {
        match parse_unsigned(port, u16::MAX as nat) {
            Some(p) => SocketAddressReading::Loopback(p as u16),
            None => SocketAddressReading::BadPort,
        }
    } else {
        match parse_unsigned(value, u16::MAX as nat) {
            Some(p) => SocketAddressReading::Loopback(p as u16),
            None => SocketAddressReading::Host,
        }
    }
}

impl IpAddress {
    /// The IPv4 address of the local host, 127.0.0.1.
    pub fn localhost() -> (ip: IpAddress)
        ensures
            ip matches IpAddress::V4(octets) && octets@ == localhost_octets(),
    {
        let octets: [u8; 4] = [127, 0, 0, 1];
        assert(octets@ =~= localhost_octets());
        IpAddress::V4(octets)
    }

    /// The address is 127.0.0.0/8 or ::1.
    pub open spec fn spec_is_loopback(&self) -> bool {
        match self {
            IpAddress::V4(octets) => octets@[0] == 127,
            IpAddress::V6(octets) => octets@ == localhost_v6_octets(),
        }
    }

    /// Whether the address routes to the local host only.
    pub fn is_loopback(&self) -> (b: bool)
        ensures
            b == self.spec_is_loopback(),
    {
        match self {
            IpAddress::V4(octets) => octets[0] == 127,
            IpAddress::V6(octets) => {
                let mut i: usize = 0;
                while i < 15
                    invariant
                        *self == IpAddress::V6(*octets),
                        i <= 15,
                        forall|j: int| 0 <= j < i ==> octets@[j] == 0,
                    decreases 15 - i,
                {
                    if octets[i] != 0 {
                        assert(localhost_v6_octets()[i as int] == 0);
                        return false;
                    }
                    i += 1;
                }
                assert(octets[15] == 1 ==> octets@ =~= localhost_v6_octets());
                assert(localhost_v6_octets()[15] == 1);
                octets[15] == 1
            },
        }
    }
}

impl SocketAddress {
    /// The address part.
    pub open spec fn spec_ip(&self) -> IpAddress {
        match self {
            SocketAddress::V4 { octets, .. } => IpAddress::V4(*octets),
            SocketAddress::V6 { octets, .. } => IpAddress::V6(*octets),
        }
    }

    /// The port part.
    pub open spec fn spec_port(&self) -> u16 {
        match self {
            SocketAddress::V4 { port, .. } => *port,
            SocketAddress::V6 { port, .. } => *port,
        }
    }

    /// The address is 127.0.0.1 with the port `port`.
    pub open spec fn is_localhost(&self, port: u16) -> bool {
        &&& *self matches SocketAddress::V4 { octets, port: p }
        &&& octets@ == localhost_octets()
        &&& p == port
    }

    /// The address made of `ip` and `port`, with no flow information and no scope.
    pub fn new(ip: IpAddress, port: u16) -> (a: SocketAddress)
        ensures
            a.spec_ip() == ip,
            a.spec_port() == port,
            a matches SocketAddress::V6 { flowinfo, scope_id, .. } ==> flowinfo == 0 && scope_id
                == 0,
    {
        match ip {
            IpAddress::V4(octets) => SocketAddress::V4 { octets, port },
            IpAddress::V6(octets) => SocketAddress::V6 { octets, port, flowinfo: 0, scope_id: 0 },
        }
    }

    /// The address part.
    pub fn ip(&self) -> (ip: IpAddress)
        ensures
            ip == self.spec_ip(),
    {
        match self {
            SocketAddress::V4 { octets, .. } => IpAddress::V4(*octets),
            SocketAddress::V6 { octets, .. } => IpAddress::V6(*octets),
        }
    }

    /// The port part.
    pub fn port(&self) -> (port: u16)
        ensures
            port == self.spec_port(),
    {
        match self {
            SocketAddress::V4 { port, .. } => *port,
            SocketAddress::V6 { port, .. } => *port,
        }
    }
}

/// The port `port` of the local host.
fn local_port(port: u16) -> (a: SocketAddress)
    ensures
        a.is_localhost(port),
{
    SocketAddress::new(IpAddress::localhost(), port)
}

/// Reads a socket address from `value` as far as its characters decide it.
///
/// - An empty text is an error.
/// - After a leading `:` or `localhost:` stands a port of the local host; anything
///   else there is an error.
/// - A text that is a port number by itself names that port of the local host.
/// - Every other text names a host, which only the resolver can turn into an
///   address: see [`resolved_socket_address`].
pub fn parse_socket_address(value: &str) -> (r: Result<
    SocketAddressStep,
    SocketAddressParsingError,
>)
    ensures
        match socket_address_reading(value@) {
            SocketAddressReading::Empty => r matches Err(SocketAddressParsingError::Empty),
            SocketAddressReading::BadPort => r matches Err(SocketAddressParsingError::Port(e))
                && e == u16_parse_error(port_text(value@)->Some_0),
            SocketAddressReading::Loopback(port) => r matches Ok(SocketAddressStep::Ready(a))
                && a.is_localhost(port),
            SocketAddressReading::Host => r matches Ok(SocketAddressStep::Resolve),
        },
        r matches Ok(SocketAddressStep::Ready(a)) ==> a.spec_ip().spec_is_loopback(),
{
    if value.is_empty() {
        return Err(SocketAddressParsingError::Empty);
    }
    let prefixed = match strip_prefix(value, ":") {
        Some(rest) => Some(rest),
        None => strip_prefix(value, "localhost:"),
    };
    if let Some(port) = prefixed {
        return match parse_u16(port) {
            Ok(port) => Ok(SocketAddressStep::Ready(local_port(port))),
            Err(e) => Err(SocketAddressParsingError::Port(e)),
        };
    }
    match parse_u16(value) {
        Ok(port) => Ok(SocketAddressStep::Ready(local_port(port))),
        Err(_) => Ok(SocketAddressStep::Resolve),
    }
}

/// The address of the host that `value` names, given what the resolver answered
/// for it: the first address, an error where it found none, and the resolver's
/// own error where it failed.
pub fn resolved_socket_address(
    value: &str,
    lookup: Result<Option<SocketAddress>, std::io::Error>,
) -> (r: Result<SocketAddress, SocketAddressParsingError>)
    ensures
        match lookup {
            Ok(Some(first)) => r == Ok::<SocketAddress, SocketAddressParsingError>(first),
            Ok(None) => r matches Err(SocketAddressParsingError::Parse(text)) && text@ == value@,
            Err(e) => r matches Err(SocketAddressParsingError::Io(cause)) && cause == e,
        },
{
    match lookup {
        Ok(Some(first)) => Ok(first),
        Ok(None) => Err(SocketAddressParsingError::Parse(value.to_owned())),
        Err(e) => Err(SocketAddressParsingError::Io(e)),
    }
}

/// Every port names itself on the local host, whether it is written alone,
/// after `:` or after `localhost:`.
pub proof fn lemma_port_forms(port: u16)
    ensures
        socket_address_reading(decimal_text(port as nat)) == SocketAddressReading::Loopback(port),
        socket_address_reading(":"@ + decimal_text(port as nat)) == SocketAddressReading::Loopback(
            port,
        ),
        socket_address_reading("localhost:"@ + decimal_text(port as nat))
            == SocketAddressReading::Loopback(port),
{
    reveal_strlit(":");
    reveal_strlit("localhost:");
    let digits = decimal_text(port as nat);
    lemma_decimal_text_digits(port as nat);
    lemma_decimal_text_parses(port as nat, u16::MAX as nat);
    assert(is_digit(digits[0]));

    assert(!":"@.is_prefix_of(digits)) by {
        if ":"@.is_prefix_of(digits) {
            assert(digits.subrange(0, 1)[0] == ':');
        }
    }
    assert(!"localhost:"@.is_prefix_of(digits)) by {
        if "localhost:"@.is_prefix_of(digits) {
            assert(digits.subrange(0, 10)[0] == 'l');
        }
    }

    let short = ":"@ + digits;
    assert(short.subrange(0, 1) =~= ":"@);
    assert(short.skip(1) =~= digits);

    let long = "localhost:"@ + digits;
    assert(!":"@.is_prefix_of(long)) by {
        if ":"@.is_prefix_of(long) {
            assert(long.subrange(0, 1)[0] == ':');
        }
    }
    assert(long.subrange(0, 10) =~= "localhost:"@);
    assert(long.skip(10) =~= digits);
}

/// A port that was read from a text is read again from its own canonical text.
pub proof fn lemma_port_text_round_trip(value: Seq<char>, port: u16)
    requires
        socket_address_reading(value) == SocketAddressReading::Loopback(port),
    ensures
        socket_address_reading(decimal_text(port as nat)) == socket_address_reading(value),
{
    lemma_port_forms(port);
}

} // verus!
