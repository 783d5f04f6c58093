use cli_parsers::{
    parse_socket_address, resolved_socket_address, IpAddress, SocketAddress,
    SocketAddressParsingError, SocketAddressStep,
};
use rand::Rng;

fn local(value: &str) -> SocketAddress {
    match parse_socket_address(value) {
        Ok(SocketAddressStep::Ready(socket_addr)) => socket_addr,
        _ => panic!("could not parse socket address: {value}"),
    }
}

#[test]
fn parse_socket_addresses() {
    for value in ["localhost:9000", ":9000", "9000"] {
        let socket_addr = local(value);

        assert!(socket_addr.ip().is_loopback());
        assert_eq!(socket_addr.port(), 9000);
    }
}

#[test]
fn parse_socket_address_random() {
    let port: u16 = rand::rng().random();

    for value in [format!("localhost:{port}"), format!(":{port}"), port.to_string()] {
        let socket_addr = local(&value);

        assert!(socket_addr.ip().is_loopback());
        assert_eq!(socket_addr.port(), port);
    }
}

#[test]
fn every_form_of_a_port_is_the_local_host() {
    for port in [0u16, 1, 80, 9000, 30303, u16::MAX] {
        for value in [format!("localhost:{port}"), format!(":{port}"), port.to_string()] {
            assert_eq!(local(&value), SocketAddress::V4 { octets: [127, 0, 0, 1], port });
        }
    }
}

#[test]
fn an_empty_address_is_rejected() {
    assert!(matches!(parse_socket_address(""), Err(SocketAddressParsingError::Empty)));
}

#[test]
fn a_prefix_wants_a_port() {
    let values =
        [":", "localhost:", ":abc", ":65536", "localhost:-1", ":80:80", "localhost:8o", ":localhost:80"];
    for value in values {
        assert!(
            matches!(parse_socket_address(value), Err(SocketAddressParsingError::Port(_))),
            "{value:?}"
        );
    }
}

#[test]
fn a_port_may_carry_a_plus_sign() {
    assert_eq!(local(":+80").port(), 80);
    assert_eq!(local("+80").port(), 80);
    assert_eq!(local("localhost:0080").port(), 80);
}

#[test]
fn other_texts_name_a_host() {
    let values = [
        "65536",
        "example.com:80",
        "127.0.0.1:9000",
        "[::1]:9000",
        "localhost",
        "Localhost:80",
        " 80",
        "host",
    ];
    for value in values {
        assert!(
            matches!(parse_socket_address(value), Ok(SocketAddressStep::Resolve)),
            "{value:?}"
        );
    }
}

#[test]
fn the_first_resolved_address_is_taken() {
    let first = SocketAddress::V6 { octets: [0; 16], port: 80, flowinfo: 7, scope_id: 3 };
    let resolved = resolved_socket_address("example.com:80", Ok(Some(first)));
    assert_eq!(resolved.unwrap(), first);
}

#[test]
fn no_resolved_address_names_the_text() {
    match resolved_socket_address("example.com:80", Ok(None)) {
        Err(SocketAddressParsingError::Parse(text)) => assert_eq!(text, "example.com:80"),
        other => panic!("unexpected {other:?}"),
    }
}

#[test]
fn a_failed_lookup_keeps_its_cause() {
    let cause = std::io::Error::new(std::io::ErrorKind::NotFound, "no such host");
    match resolved_socket_address("nowhere:1", Err(cause)) {
        Err(SocketAddressParsingError::Io(e)) => {
            assert_eq!(e.kind(), std::io::ErrorKind::NotFound);
            assert_eq!(e.to_string(), "no such host");
        }
        other => panic!("unexpected {other:?}"),
    }
}

#[test]
fn a_port_written_back_is_read_again() {
    for value in ["localhost:9000", ":+9000", "09000", ":0", "65535"] {
        let port = local(value).port();
        assert_eq!(local(&port.to_string()).port(), port);
    }
}

#[test]
fn loopback_addresses() {
    assert!(IpAddress::V4([127, 0, 0, 1]).is_loopback());
    assert!(IpAddress::V4([127, 255, 3, 9]).is_loopback());
    assert!(!IpAddress::V4([128, 0, 0, 1]).is_loopback());
    assert!(!IpAddress::V4([0, 0, 0, 0]).is_loopback());
    let mut one = [0u8; 16];
    one[15] = 1;
    assert!(IpAddress::V6(one).is_loopback());
    assert!(!IpAddress::V6([0; 16]).is_loopback());
    one[3] = 1;
    assert!(!IpAddress::V6(one).is_loopback());
    let mut two = [0u8; 16];
    two[15] = 2;
    assert!(!IpAddress::V6(two).is_loopback());
}

#[test]
fn the_parts_of_a_socket_address() {
    let v4 = SocketAddress::new(IpAddress::V4([10, 0, 0, 7]), 8545);
    assert_eq!(v4, SocketAddress::V4 { octets: [10, 0, 0, 7], port: 8545 });
    assert_eq!(v4.ip(), IpAddress::V4([10, 0, 0, 7]));
    assert_eq!(v4.port(), 8545);

    let v6 = SocketAddress::new(IpAddress::V6([9; 16]), 1);
    assert_eq!(v6, SocketAddress::V6 { octets: [9; 16], port: 1, flowinfo: 0, scope_id: 0 });
    assert_eq!(v6.ip(), IpAddress::V6([9; 16]));
    assert_eq!(v6.port(), 1);

    assert_eq!(IpAddress::localhost(), IpAddress::V4([127, 0, 0, 1]));
    assert!(IpAddress::localhost().is_loopback());
}

#[test]
fn a_bad_port_carries_the_integer_parser_s_error() {
    let cases = [
        (":", ""),
        ("localhost:", ""),
        (":abc", "abc"),
        (":65536", "65536"),
        ("localhost:70000x", "70000x"),
    ];
    for (value, port) in cases {
        match parse_socket_address(value) {
            Err(SocketAddressParsingError::Port(e)) => {
                assert_eq!(e, port.parse::<u16>().unwrap_err(), "{value:?}")
            }
            other => panic!("unexpected {other:?}"),
        }
    }
}
