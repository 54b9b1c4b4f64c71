use mittens::address::{
    encode_reply_address, parse_address, reply_address_type, Address, IpAddress,
};
use mittens::error::{DialError, ErrorKind, SocksError};
use mittens::parsed::Parsed;
use mittens::wire::{read_be16, read_be32, write_be16, write_be32};

#[test]
fn ipv4_takes_four_bytes_and_round_trips() {
    let input = [10, 20, 30, 40, 0xAA, 0xBB];
    let parsed = parse_address(0x01, &input);
    assert_eq!(parsed, Parsed::Complete { value: Address::V4(10, 20, 30, 40), consumed: 4 });
    let address = Address::V4(10, 20, 30, 40);
    assert_eq!(encode_reply_address(&address), vec![10, 20, 30, 40]);
    assert_eq!(reply_address_type(&address), 0x01);
}

#[test]
fn ipv6_takes_sixteen_bytes_as_eight_big_endian_groups() {
    let input: Vec<u8> = vec![
        0x20, 0x01, 0x0d, 0xb8, 0x00, 0x00, 0x00, 0x00, 0x00, 0x00, 0x00, 0x00, 0x00, 0x00, 0x00,
        0x01, 0x99,
    ];
    let parsed = parse_address(0x04, &input);
    let expected = Address::V6(0x2001, 0x0db8, 0, 0, 0, 0, 0, 0x0001);
    assert_eq!(parsed, Parsed::Complete { value: expected.clone(), consumed: 16 });
    assert_eq!(encode_reply_address(&expected), input[..16].to_vec());
    assert_eq!(reply_address_type(&expected), 0x04);
}

#[test]
fn short_input_is_incomplete_for_every_address_type() {
    assert_eq!(parse_address(0x01, &[1, 2, 3]), Parsed::Incomplete);
    assert_eq!(parse_address(0x04, &[0; 15]), Parsed::Incomplete);
    assert_eq!(parse_address(0x03, &[]), Parsed::Incomplete);
    assert_eq!(parse_address(0x03, &[3, b'a', b'b']), Parsed::Incomplete);
}

#[test]
fn domain_takes_length_byte_and_name_and_comes_back_unresolved() {
    let mut input = vec![11];
    input.extend_from_slice(b"example.org");
    input.extend_from_slice(&[0x00, 0x50]);
    let parsed = parse_address(0x03, &input);
    assert_eq!(
        parsed,
        Parsed::Complete {
            value: Address::Domain { name: String::from("example.org"), resolved: None },
            consumed: 12,
        }
    );
}

#[test]
fn domain_name_is_decoded_as_utf8() {
    let name = "bücher.example";
    let mut input = vec![name.len() as u8];
    input.extend_from_slice(name.as_bytes());
    match parse_address(0x03, &input) {
        Parsed::Complete { value: Address::Domain { name: decoded, resolved }, consumed } => {
            assert_eq!(decoded, name);
            assert_eq!(decoded.chars().count(), 14);
            assert_eq!(resolved, None);
            assert_eq!(consumed, 1 + name.len());
        }
        other => panic!("unexpected {:?}", other),
    }
}

#[test]
fn domain_that_is_not_utf8_is_an_invalid_encoding() {
    let input = [2, 0xC3, 0x28];
    assert_eq!(parse_address(0x03, &input), Parsed::Rejected(SocksError::InvalidEncoding));
    assert_eq!(SocksError::InvalidEncoding.kind(), ErrorKind::ProtocolError);
}

#[test]
fn empty_domain_name_is_a_whole_address() {
    assert_eq!(
        parse_address(0x03, &[0, 9, 9]),
        Parsed::Complete {
            value: Address::Domain { name: String::new(), resolved: None },
            consumed: 1,
        }
    );
}

#[test]
fn unknown_address_type_is_an_unsupported_feature() {
    for tag in [0x00u8, 0x02, 0x05, 0x7f, 0xff] {
        let parsed = parse_address(tag, &[1, 2, 3, 4, 5, 6, 7, 8, 9, 10, 11, 12, 13, 14, 15, 16]);
        assert_eq!(parsed, Parsed::Rejected(SocksError::UnsupportedAddressType));
    }
    assert_eq!(SocksError::UnsupportedAddressType.kind(), ErrorKind::UnsupportedFeature);
}

#[test]
fn resolution_keeps_the_first_address_only() {
    let mut address = Address::domain(String::from("example.org")).unwrap();
    assert!(!address.is_resolved());
    let found = [IpAddress::V4(93, 184, 216, 34), IpAddress::V4(1, 1, 1, 1)];
    assert_eq!(address.resolve(&found), Ok(()));
    assert!(address.is_resolved());
    assert_eq!(address.ip(), Some(IpAddress::V4(93, 184, 216, 34)));
    assert_eq!(encode_reply_address(&address), vec![93, 184, 216, 34]);
    assert_eq!(reply_address_type(&address), 0x01);
}

#[test]
fn resolution_to_ipv6_is_reported_as_ipv6() {
    let mut address = Address::domain(String::from("v6.example")).unwrap();
    let found = [IpAddress::V6(0xfe80, 0, 0, 0, 0, 0, 0, 0x00ff)];
    assert_eq!(address.resolve(&found), Ok(()));
    assert_eq!(reply_address_type(&address), 0x04);
    assert_eq!(
        encode_reply_address(&address),
        vec![0xfe, 0x80, 0, 0, 0, 0, 0, 0, 0, 0, 0, 0, 0, 0, 0x00, 0xff]
    );
}

#[test]
fn empty_resolution_fails_and_changes_nothing() {
    let mut address = Address::domain(String::from("nowhere.invalid")).unwrap();
    let before = address.clone();
    assert_eq!(address.resolve(&[]), Err(SocksError::Dial(DialError::ResolutionFailed)));
    assert_eq!(address, before);
    assert_eq!(SocksError::Dial(DialError::ResolutionFailed).kind(), ErrorKind::DialError);
}

#[test]
fn resolving_an_ip_address_leaves_it_as_it_is() {
    let mut address = Address::V4(8, 8, 8, 8);
    assert_eq!(address.resolve(&[]), Ok(()));
    assert_eq!(address, Address::V4(8, 8, 8, 8));
    assert_eq!(address.resolve(&[IpAddress::V4(1, 2, 3, 4)]), Ok(()));
    assert_eq!(address, Address::V4(8, 8, 8, 8));
}

#[test]
fn domain_names_over_255_bytes_are_refused() {
    assert!(Address::domain("a".repeat(255)).is_some());
    assert!(Address::domain("a".repeat(256)).is_none());
}

#[test]
fn from_ip_gives_the_address_of_the_same_family() {
    assert_eq!(Address::from_ip(IpAddress::V4(1, 2, 3, 4)), Address::V4(1, 2, 3, 4));
    assert_eq!(
        Address::from_ip(IpAddress::V6(1, 2, 3, 4, 5, 6, 7, 8)),
        Address::V6(1, 2, 3, 4, 5, 6, 7, 8)
    );
    assert_eq!(IpAddress::V4(1, 2, 3, 4).atype(), 0x01);
    assert_eq!(IpAddress::V6(1, 2, 3, 4, 5, 6, 7, 8).atype(), 0x04);
}

#[test]
fn parse_then_encode_gives_back_the_bytes_for_many_addresses() {
    for seed in 0u8..=255 {
        let v4: Vec<u8> = (0..4).map(|i| seed.wrapping_mul(31).wrapping_add(i * 7)).collect();
        match parse_address(0x01, &v4) {
            Parsed::Complete { value, consumed } => {
                assert_eq!(consumed, 4);
                assert_eq!(encode_reply_address(&value), v4);
            }
            other => panic!("unexpected {:?}", other),
        }
        let v6: Vec<u8> = (0..16).map(|i| seed.wrapping_mul(13).wrapping_add(i * 17)).collect();
        match parse_address(0x04, &v6) {
            Parsed::Complete { value, consumed } => {
                assert_eq!(consumed, 16);
                assert_eq!(encode_reply_address(&value), v6);
            }
            other => panic!("unexpected {:?}", other),
        }
    }
}

#[test]
fn big_endian_integers_have_the_high_byte_first() {
    assert_eq!(read_be16(0x01, 0xBB), 443);
    assert_eq!(read_be16(0xFF, 0xFF), 65535);
    assert_eq!(read_be32(0x00, 0x00, 0x01, 0x00), 256);
    assert_eq!(read_be32(0xDE, 0xAD, 0xBE, 0xEF), 0xDEADBEEF);
    let mut out = vec![9];
    write_be16(&mut out, 0x1F90);
    write_be32(&mut out, 0x01020304);
    assert_eq!(out, vec![9, 0x1F, 0x90, 1, 2, 3, 4]);
}
