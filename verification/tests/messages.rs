use socks_server::address::{Address, IpAddr};
use socks_server::authentication::Method;
use socks_server::command::Command;
use socks_server::messages::{
    InitialMessage, InitialResponse, Reply, ReplyType, Request, PROTOCOL_VERSION,
};
use socks_server::request_error::RequestError;

fn sample_addresses() -> Vec<Address> {
    vec![
        Address::SocketAddr(IpAddr::V4([192, 168, 1, 20]), 1080),
        Address::SocketAddr(IpAddr::V6([0xfe80, 0, 0, 0, 0x0202, 0xb3ff, 0xfe1e, 0x8329]), 22),
        Address::DomainPort(b"example.org".to_vec(), 443),
        Address::DomainPort(Vec::new(), 0),
    ]
}

#[test]
fn protocol_version_is_five() {
    assert_eq!(PROTOCOL_VERSION, 5);
}

#[test]
fn initial_message_with_one_method() {
    let message = InitialMessage::decode(&[0x05, 0x01, 0x00]).unwrap();
    assert_eq!(message.version, 5);
    assert_eq!(message.methods, vec![Method::NoAuthenticationRequired]);
}

#[test]
fn initial_message_keeps_the_order_of_the_methods() {
    let message = InitialMessage::decode(&[0x05, 0x04, 0x02, 0x00, 0xFF, 0x80]).unwrap();
    assert_eq!(message.version, 5);
    assert_eq!(
        message.methods,
        vec![
            Method::UnknownMethod(0x02),
            Method::NoAuthenticationRequired,
            Method::NoAcceptableMethods,
            Method::UnknownMethod(0x80),
        ]
    );
}

#[test]
fn initial_message_without_methods() {
    let message = InitialMessage::decode(&[0x05, 0x00]).unwrap();
    assert_eq!(message, InitialMessage { version: 5, methods: Vec::new() });
}

#[test]
fn initial_message_carries_any_version() {
    let message = InitialMessage::decode(&[0x04, 0x01, 0x00]).unwrap();
    assert_eq!(message.version, 4);
    assert_eq!(message.methods, vec![Method::NoAuthenticationRequired]);
}

#[test]
fn initial_message_with_a_method_missing() {
    assert_eq!(
        InitialMessage::decode(&[0x05, 0x03, 0x00, 0x01]),
        Err(RequestError::LengthMismatch { received: 4, expected: 5 })
    );
}

#[test]
fn initial_message_with_a_method_too_many() {
    assert_eq!(
        InitialMessage::decode(&[0x05, 0x01, 0x00, 0x01]),
        Err(RequestError::LengthMismatch { received: 4, expected: 3 })
    );
    assert_eq!(
        InitialMessage::decode(&[0x05, 0xFF]),
        Err(RequestError::LengthMismatch { received: 2, expected: 257 })
    );
}

#[test]
fn initial_message_under_two_bytes() {
    assert_eq!(InitialMessage::decode(&[]), Err(RequestError::PacketTooShort));
    assert_eq!(InitialMessage::decode(&[0x05]), Err(RequestError::PacketTooShort));
}

#[test]
fn initial_message_with_255_methods() {
    let mut bytes = vec![0x05u8, 0xFF];
    for code in 0..255u8 {
        bytes.push(code);
    }
    let message = InitialMessage::decode(&bytes).unwrap();
    assert_eq!(message.methods.len(), 255);
    assert_eq!(message.methods[0], Method::NoAuthenticationRequired);
    assert_eq!(message.methods[254], Method::UnknownMethod(254));
    assert_eq!(message.encode(), bytes);
}

#[test]
fn initial_message_encode() {
    let message = InitialMessage {
        version: 5,
        methods: vec![Method::NoAuthenticationRequired, Method::UnknownMethod(2)],
    };
    assert_eq!(message.encode(), vec![0x05, 0x02, 0x00, 0x02]);
    assert_eq!(InitialMessage { version: 9, methods: Vec::new() }.encode(), vec![0x09, 0x00]);
}

#[test]
fn initial_message_round_trip() {
    let lists = vec![
        Vec::new(),
        vec![Method::NoAuthenticationRequired],
        vec![Method::UnknownMethod(1), Method::UnknownMethod(2), Method::NoAuthenticationRequired],
        vec![Method::NoAcceptableMethods, Method::NoAcceptableMethods],
    ];
    for methods in lists {
        for version in [0u8, 4, 5, 255] {
            let bytes = InitialMessage { version, methods: methods.clone() }.encode();
            assert_eq!(bytes.len(), 2 + methods.len());
            assert_eq!(
                InitialMessage::decode(&bytes),
                Ok(InitialMessage { version, methods: methods.clone() })
            );
        }
    }
}

#[test]
fn truncated_initial_message_does_not_decode() {
    let bytes = InitialMessage {
        version: 5,
        methods: vec![Method::NoAuthenticationRequired, Method::UnknownMethod(1), Method::UnknownMethod(2)],
    }
    .encode();
    assert_eq!(bytes.len(), 5);
    assert_eq!(InitialMessage::decode(&bytes[..0]), Err(RequestError::PacketTooShort));
    assert_eq!(InitialMessage::decode(&bytes[..1]), Err(RequestError::PacketTooShort));
    for len in 2..5 {
        assert_eq!(
            InitialMessage::decode(&bytes[..len]),
            Err(RequestError::LengthMismatch { received: len, expected: 5 })
        );
    }
}

#[test]
fn initial_response_is_two_bytes() {
    let accept = InitialResponse { version: 5, method: Method::NoAuthenticationRequired };
    assert_eq!(accept.encode(), vec![0x05, 0x00]);
    let refuse = InitialResponse { version: 5, method: Method::NoAcceptableMethods };
    assert_eq!(refuse.encode(), vec![0x05, 0xFF]);
    let other = InitialResponse { version: 4, method: Method::UnknownMethod(0x02) };
    assert_eq!(other.encode(), vec![0x04, 0x02]);
}

#[test]
fn initial_response_decode() {
    assert_eq!(
        InitialResponse::decode(&[0x05, 0x00]),
        Ok(InitialResponse { version: 5, method: Method::NoAuthenticationRequired })
    );
    assert_eq!(
        InitialResponse::decode(&[0x05, 0xFF]),
        Ok(InitialResponse { version: 5, method: Method::NoAcceptableMethods })
    );
    assert_eq!(
        InitialResponse::decode(&[0x07, 0x02]),
        Ok(InitialResponse { version: 7, method: Method::UnknownMethod(0x02) })
    );
    assert_eq!(InitialResponse::decode(&[]), Err(RequestError::PacketTooShort));
    assert_eq!(InitialResponse::decode(&[0x05]), Err(RequestError::PacketTooShort));
    assert_eq!(
        InitialResponse::decode(&[0x05, 0x00, 0x09]),
        Ok(InitialResponse { version: 5, method: Method::NoAuthenticationRequired })
    );
}

#[test]
fn initial_response_round_trip() {
    for version in [0u8, 5, 255] {
        for code in 0..=255u8 {
            let response = InitialResponse { version, method: Method::new(code) };
            let bytes = response.encode();
            assert_eq!(bytes, vec![version, code]);
            assert_eq!(InitialResponse::decode(&bytes), Ok(response));
            assert_eq!(InitialResponse::decode(&bytes[..1]), Err(RequestError::PacketTooShort));
        }
    }
}

#[test]
fn request_decode_connect_to_ipv4() {
    let bytes = [0x05u8, 0x01, 0x00, 0x01, 10, 0, 0, 1, 0x1F, 0x90];
    let request = Request::decode(&bytes).unwrap();
    assert_eq!(request.version, 5);
    assert_eq!(request.command, Command::Connect);
    assert_eq!(request.dest_address, Address::SocketAddr(IpAddr::V4([10, 0, 0, 1]), 8080));
}

#[test]
fn request_decode_bind_to_domain() {
    let bytes = [0x05u8, 0x02, 0x00, 0x03, 0x02, b'a', b'b', 0x00, 0x50];
    assert_eq!(
        Request::decode(&bytes),
        Ok(Request {
            version: 5,
            command: Command::Bind,
            dest_address: Address::DomainPort(b"ab".to_vec(), 80),
        })
    );
}

#[test]
fn request_decode_udp_associate_to_ipv6() {
    let mut bytes = vec![0x05u8, 0x03, 0x00, 0x04];
    bytes.extend_from_slice(&[0u8; 15]);
    bytes.extend_from_slice(&[0x01, 0x00, 0x35]);
    assert_eq!(
        Request::decode(&bytes),
        Ok(Request {
            version: 5,
            command: Command::UdpAssociate,
            dest_address: Address::SocketAddr(IpAddr::V6([0, 0, 0, 0, 0, 0, 0, 1]), 53),
        })
    );
}

#[test]
fn request_without_address_is_too_short() {
    assert_eq!(Request::decode(&[0x05, 0x01, 0x00]), Err(RequestError::PacketTooShort));
    assert_eq!(Request::decode(&[0x05, 0x01]), Err(RequestError::PacketTooShort));
    assert_eq!(Request::decode(&[0x05]), Err(RequestError::PacketTooShort));
    assert_eq!(Request::decode(&[]), Err(RequestError::PacketTooShort));
}

#[test]
fn request_with_unknown_command() {
    let bytes = [0x05u8, 0x09, 0x00, 0x01, 10, 0, 0, 1, 0x1F, 0x90];
    assert_eq!(Request::decode(&bytes), Err(RequestError::CommandNotSupported(0x09)));
    assert_eq!(Request::decode(&[0x05, 0x00]), Err(RequestError::CommandNotSupported(0x00)));
    assert_eq!(
        Request::decode(&[0x05, 0x04, 0x00, 0x07]),
        Err(RequestError::CommandNotSupported(0x04))
    );
}

#[test]
fn request_with_unknown_address_type() {
    let bytes = [0x05u8, 0x01, 0x00, 0x02, 10, 0, 0, 1, 0x1F, 0x90];
    assert_eq!(Request::decode(&bytes), Err(RequestError::AddressTypeNotSupported(0x02)));
}

#[test]
fn request_skips_the_reserved_byte() {
    let bytes = [0x05u8, 0x01, 0xEE, 0x01, 1, 2, 3, 4, 0, 9];
    assert_eq!(
        Request::decode(&bytes),
        Ok(Request {
            version: 5,
            command: Command::Connect,
            dest_address: Address::SocketAddr(IpAddr::V4([1, 2, 3, 4]), 9),
        })
    );
}

#[test]
fn request_carries_any_version() {
    let bytes = [0x04u8, 0x01, 0x00, 0x01, 1, 2, 3, 4, 0, 9];
    assert_eq!(Request::decode(&bytes).unwrap().version, 4);
}

#[test]
fn request_encode() {
    let request = Request {
        version: 5,
        command: Command::Connect,
        dest_address: Address::DomainPort(b"example".to_vec(), 80),
    };
    assert_eq!(
        request.encode(),
        vec![0x05, 0x01, 0x00, 0x03, 0x07, b'e', b'x', b'a', b'm', b'p', b'l', b'e', 0x00, 0x50]
    );
}

#[test]
fn request_round_trip() {
    for command in [Command::Connect, Command::Bind, Command::UdpAssociate] {
        for dest_address in sample_addresses() {
            for version in [0u8, 5, 6] {
                let bytes = Request { version, command, dest_address: dest_address.clone() }.encode();
                assert_eq!(
                    Request::decode(&bytes),
                    Ok(Request { version, command, dest_address: dest_address.clone() })
                );
            }
        }
    }
}

#[test]
fn truncated_request_is_too_short() {
    for command in [Command::Connect, Command::Bind, Command::UdpAssociate] {
        for dest_address in sample_addresses() {
            let bytes = Request { version: 5, command, dest_address }.encode();
            for len in 0..bytes.len() {
                assert_eq!(Request::decode(&bytes[..len]), Err(RequestError::PacketTooShort));
            }
        }
    }
}

#[test]
fn reply_host_unreachable_with_ipv4() {
    let reply = Reply {
        version: 5,
        reply: ReplyType::HostUnreachable,
        bound_address: Address::SocketAddr(IpAddr::V4([127, 0, 0, 1]), 1080),
    };
    let bytes = reply.encode();
    assert_eq!(bytes.len(), 10);
    assert_eq!(bytes, vec![0x05, 0x04, 0x00, 0x01, 127, 0, 0, 1, 0x04, 0x38]);
}

#[test]
fn reply_length_is_three_more_than_the_address() {
    for bound_address in sample_addresses() {
        let address_bytes = bound_address.encode();
        let bytes = Reply { version: 5, reply: ReplyType::Succeeded, bound_address }.encode();
        assert_eq!(bytes.len(), 3 + address_bytes.len());
        assert_eq!(&bytes[..3], &[0x05, 0x00, 0x00][..]);
        assert_eq!(&bytes[3..], &address_bytes[..]);
    }
}

#[test]
fn reply_with_domain_and_ipv6() {
    let reply = Reply {
        version: 5,
        reply: ReplyType::Succeeded,
        bound_address: Address::DomainPort(b"ab".to_vec(), 0x0102),
    };
    assert_eq!(reply.encode(), vec![0x05, 0x00, 0x00, 0x03, 0x02, b'a', b'b', 0x01, 0x02]);
    let reply = Reply {
        version: 5,
        reply: ReplyType::TTLExpired,
        bound_address: Address::SocketAddr(IpAddr::V6([0, 0, 0, 0, 0, 0, 0, 1]), 0x1F90),
    };
    let mut expected = vec![0x05u8, 0x06, 0x00, 0x04];
    expected.extend_from_slice(&[0u8; 15]);
    expected.extend_from_slice(&[0x01, 0x1F, 0x90]);
    assert_eq!(reply.encode(), expected);
}

#[test]
fn reply_decode() {
    assert_eq!(
        Reply::decode(&[0x05, 0x05, 0x00, 0x01, 0, 0, 0, 0, 0, 0]),
        Ok(Reply {
            version: 5,
            reply: ReplyType::ConnectionRefused,
            bound_address: Address::SocketAddr(IpAddr::V4([0, 0, 0, 0]), 0),
        })
    );
    assert_eq!(
        Reply::decode(&[0x05, 0x09, 0x00, 0x01, 0, 0, 0, 0, 0, 0]),
        Err(RequestError::ReplyTypeNotSupported(0x09))
    );
    assert_eq!(
        Reply::decode(&[0x05, 0x00, 0x00, 0x05, 0, 0, 0, 0, 0, 0]),
        Err(RequestError::AddressTypeNotSupported(0x05))
    );
    assert_eq!(Reply::decode(&[0x05, 0x00, 0x00]), Err(RequestError::PacketTooShort));
    assert_eq!(Reply::decode(&[0x05, 0x00]), Err(RequestError::PacketTooShort));
    assert_eq!(Reply::decode(&[0x05]), Err(RequestError::PacketTooShort));
}

#[test]
fn reply_round_trip() {
    let mut code = 0u8;
    while let Some(reply) = ReplyType::new(code) {
        for bound_address in sample_addresses() {
            let bytes = Reply { version: 5, reply, bound_address: bound_address.clone() }.encode();
            assert_eq!(Reply::decode(&bytes), Ok(Reply { version: 5, reply, bound_address }));
        }
        code += 1;
    }
    assert_eq!(code, 9);
}

#[test]
fn truncated_reply_is_too_short() {
    for bound_address in sample_addresses() {
        let bytes = Reply { version: 5, reply: ReplyType::NetworkUnreachable, bound_address }.encode();
        for len in 0..bytes.len() {
            assert_eq!(Reply::decode(&bytes[..len]), Err(RequestError::PacketTooShort));
        }
    }
}
