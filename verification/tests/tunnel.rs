use mittens::address::{Address, Endpoint, IpAddress};
use mittens::error::{ChannelError, DialError, ErrorKind, TunnelError};
use mittens::frame::{decode_frame, encode_frame, FramedChannel, FRAME_HEADER_LEN};
use mittens::handshake::{
    HandshakeAction, HandshakeEvent, HandshakeProtocol, HandshakeState, NONCE_LEN,
};
use mittens::keys::{bytes_equal, copy_bytes, Keypair, SESSION_KEY_LEN};
use mittens::message::{decode_message, encode_message, Message, ENVELOPE_HEADER_LEN};
use mittens::parsed::Parsed;
use mittens::reply::ReplyCode;
use mittens::tunnel::{Delivery, RelayTunnel, Side, StreamError, StreamState};

fn nonce(seed: u8) -> Vec<u8> {
    (0..NONCE_LEN).map(|i| (i as u8).wrapping_mul(3).wrapping_add(seed)).collect()
}

fn key(seed: u8) -> Vec<u8> {
    (0..SESSION_KEY_LEN).map(|i| (i as u8).wrapping_mul(5).wrapping_add(seed)).collect()
}

fn keypair() -> Keypair {
    Keypair { public: vec![1; 32], secret: vec![2; 32] }
}

fn handshake(seed: u8) -> HandshakeProtocol {
    HandshakeProtocol::new(vec![7; 32], keypair(), nonce(seed), key(seed)).unwrap()
}

fn established(seed: u8) -> HandshakeProtocol {
    let mut h = handshake(seed);
    assert_eq!(h.establish_connection(HandshakeEvent::Connected), HandshakeAction::SendChallenge(nonce(seed)));
    assert_eq!(
        h.establish_connection(HandshakeEvent::Verified(Some(nonce(seed)))),
        HandshakeAction::SendKey(key(seed))
    );
    assert_eq!(h.establish_connection(HandshakeEvent::KeySent), HandshakeAction::Done);
    h
}

fn tunnel(max_streams: usize) -> RelayTunnel {
    RelayTunnel::establish(established(1), FramedChannel::new(1 << 16), max_streams).unwrap()
}

fn target(last: u8) -> Endpoint {
    Endpoint { address: Address::V4(10, 0, 0, last), port: 443 }
}

fn open(tunnel: &mut RelayTunnel, last: u8) -> u32 {
    match tunnel.open_stream(target(last)) {
        Ok(Message::OpenStream { stream_id, ip, port }) => {
            assert_eq!(ip, IpAddress::V4(10, 0, 0, last));
            assert_eq!(port, 443);
            stream_id
        }
        other => panic!("unexpected {:?}", other),
    }
}

#[test]
fn frame_is_length_in_four_big_endian_bytes_then_payload() {
    assert_eq!(encode_frame(&[0xAA, 0xBB, 0xCC]), Ok(vec![0, 0, 0, 3, 0xAA, 0xBB, 0xCC]));
    assert_eq!(encode_frame(&[]), Ok(vec![0, 0, 0, 0]));
    let long = vec![7u8; 0x0102_03];
    let frame = encode_frame(&long).unwrap();
    assert_eq!(&frame[..4], &[0x00, 0x01, 0x02, 0x03]);
    assert_eq!(frame.len(), FRAME_HEADER_LEN + long.len());
}

#[test]
fn frame_is_read_back_as_its_payload() {
    let input = [0, 0, 0, 2, 9, 8, 7];
    assert_eq!(decode_frame(&input, 10), Parsed::Complete { value: vec![9, 8], consumed: 6 });
    assert_eq!(decode_frame(&[0, 0, 0, 0, 1], 10), Parsed::Complete { value: vec![], consumed: 4 });
    assert_eq!(decode_frame(&[0, 0, 0], 10), Parsed::Incomplete);
    assert_eq!(decode_frame(&[0, 0, 0, 2, 9], 10), Parsed::Incomplete);
}

#[test]
fn frame_over_the_ceiling_is_refused_as_soon_as_its_length_is_known() {
    assert_eq!(decode_frame(&[0, 0, 0, 11], 10), Parsed::Rejected(ChannelError::FrameTooLarge));
    assert_eq!(decode_frame(&[0xFF, 0xFF, 0xFF, 0xFF], 1 << 20), Parsed::Rejected(ChannelError::FrameTooLarge));
    assert_eq!(decode_frame(&[0, 0, 0, 10], 10), Parsed::Incomplete);
    assert_eq!(decode_frame(&[0, 0, 0, 1, 5], 0), Parsed::Rejected(ChannelError::FrameTooLarge));
    assert_eq!(decode_frame(&[0, 0, 0, 0], 0), Parsed::Complete { value: vec![], consumed: 4 });
}

#[test]
fn channel_frames_what_is_sent_and_reads_frames_in_order() {
    let mut channel = FramedChannel::new(8);
    assert_eq!(channel.ceiling(), 8);
    assert_eq!(channel.send_raw(b"ab"), Ok(()));
    assert_eq!(channel.send_raw(b""), Ok(()));
    assert_eq!(channel.take_outbound(), vec![0, 0, 0, 2, b'a', b'b', 0, 0, 0, 0]);
    assert_eq!(channel.take_outbound(), Vec::<u8>::new());

    channel.receive(&[0, 0, 0, 1, 0x11, 0, 0]);
    assert_eq!(channel.recv_raw(), Parsed::Complete { value: vec![0x11], consumed: 5 });
    assert_eq!(channel.recv_raw(), Parsed::Incomplete);
    channel.receive(&[0, 3, 1, 2]);
    assert_eq!(channel.recv_raw(), Parsed::Incomplete);
    channel.receive(&[3, 0, 0, 0, 9]);
    assert_eq!(channel.recv_raw(), Parsed::Complete { value: vec![1, 2, 3], consumed: 7 });
    assert_eq!(channel.recv_raw(), Parsed::Rejected(ChannelError::FrameTooLarge));
    assert_eq!(channel.recv_raw(), Parsed::Rejected(ChannelError::FrameTooLarge));
}

#[test]
fn two_channels_carry_payloads_from_one_to_the_other() {
    let mut near = FramedChannel::new(64);
    let mut far = FramedChannel::new(64);
    let payloads: Vec<Vec<u8>> = vec![vec![], vec![1], vec![2; 64], b"hello".to_vec()];
    for payload in &payloads {
        assert_eq!(near.send_raw(payload), Ok(()));
    }
    let wire = near.take_outbound();
    for chunk in wire.chunks(3) {
        far.receive(chunk);
    }
    for payload in &payloads {
        match far.recv_raw() {
            Parsed::Complete { value, consumed } => {
                assert_eq!(&value, payload);
                assert_eq!(consumed, 4 + payload.len());
            }
            other => panic!("unexpected {:?}", other),
        }
    }
    assert_eq!(far.recv_raw(), Parsed::Incomplete);
}

#[test]
fn byte_helpers_compare_and_copy() {
    assert!(bytes_equal(&[1, 2, 3], &[1, 2, 3]));
    assert!(bytes_equal(&[], &[]));
    assert!(!bytes_equal(&[1, 2, 3], &[1, 2, 4]));
    assert!(!bytes_equal(&[1, 2, 3], &[1, 2]));
    assert_eq!(copy_bytes(&[4, 5, 6]), vec![4, 5, 6]);
}

#[test]
fn handshake_needs_a_nonce_of_128_and_a_key_of_32_bytes() {
    assert!(HandshakeProtocol::new(vec![], keypair(), vec![0; 128], vec![0; 32]).is_some());
    assert!(HandshakeProtocol::new(vec![], keypair(), vec![0; 127], vec![0; 32]).is_none());
    assert!(HandshakeProtocol::new(vec![], keypair(), vec![0; 129], vec![0; 32]).is_none());
    assert!(HandshakeProtocol::new(vec![], keypair(), vec![0; 128], vec![0; 31]).is_none());
    assert!(HandshakeProtocol::new(vec![], keypair(), vec![0; 128], vec![0; 33]).is_none());
}

#[test]
fn handshake_goes_from_connect_over_challenge_and_key_to_done() {
    let mut h = handshake(9);
    assert_eq!(h.state(), HandshakeState::Connecting);
    assert_eq!(h.next_action(), HandshakeAction::Connect);
    assert_eq!(h.peer_verify_key(), &vec![7u8; 32]);
    assert_eq!(h.ephemeral_keypair(), &keypair());
    assert_eq!(
        h.establish_connection(HandshakeEvent::Connected),
        HandshakeAction::SendChallenge(nonce(9))
    );
    assert_eq!(h.state(), HandshakeState::Challenging);
    assert_eq!(
        h.establish_connection(HandshakeEvent::Verified(Some(nonce(9)))),
        HandshakeAction::SendKey(key(9))
    );
    assert_eq!(h.state(), HandshakeState::Rotating);
    assert_eq!(h.establish_connection(HandshakeEvent::KeySent), HandshakeAction::Done);
    assert_eq!(h.state(), HandshakeState::Established);
    assert_eq!(h.failure(), None);
    let keys = h.into_keys().unwrap();
    assert_eq!(keys.symmetric_session_key, key(9));
    assert_eq!(keys.peer_verify_key, vec![7; 32]);
    assert_eq!(keys.ephemeral_keypair, keypair());
}

#[test]
fn response_signed_by_the_wrong_key_fails_the_handshake_and_no_stream_is_opened() {
    let mut h = handshake(3);
    h.establish_connection(HandshakeEvent::Connected);
    let action = h.establish_connection(HandshakeEvent::Verified(None));
    assert_eq!(action, HandshakeAction::Abort(TunnelError::HandshakeFailed));
    assert_eq!(h.state(), HandshakeState::Failed);
    assert_eq!(h.failure(), Some(TunnelError::HandshakeFailed));
    assert_eq!(TunnelError::HandshakeFailed.kind(), ErrorKind::HandshakeFailed);
    assert_eq!(
        h.establish_connection(HandshakeEvent::KeySent),
        HandshakeAction::Abort(TunnelError::HandshakeFailed)
    );
    let tunnel = RelayTunnel::establish(h, FramedChannel::new(1024), 4);
    assert_eq!(tunnel.err(), Some(TunnelError::HandshakeFailed));
}

#[test]
fn any_single_bit_flipped_in_the_nonce_fails_the_handshake() {
    for position in [0usize, 1, 63, 64, 127] {
        for bit in 0..8 {
            let mut h = handshake(5);
            h.establish_connection(HandshakeEvent::Connected);
            let mut recovered = nonce(5);
            recovered[position] ^= 1 << bit;
            h.stream_handshake(Some(recovered));
            assert_eq!(h.state(), HandshakeState::Failed);
            assert_eq!(h.failure(), Some(TunnelError::HandshakeFailed));
            assert_eq!(h.into_keys().err(), Some(TunnelError::HandshakeFailed));
        }
    }
}

#[test]
fn truncated_or_extended_nonce_fails_the_handshake() {
    for recovered in [nonce(5)[..127].to_vec(), [nonce(5), vec![0]].concat(), vec![]] {
        let mut h = handshake(5);
        h.establish_connection(HandshakeEvent::Connected);
        assert_eq!(
            h.establish_connection(HandshakeEvent::Verified(Some(recovered))),
            HandshakeAction::Abort(TunnelError::HandshakeFailed)
        );
    }
}

#[test]
fn handshake_steps_out_of_order_fail_the_handshake() {
    let mut h = handshake(1);
    assert_eq!(
        h.establish_connection(HandshakeEvent::Verified(Some(nonce(1)))),
        HandshakeAction::Abort(TunnelError::HandshakeFailed)
    );
    let mut h = handshake(1);
    h.establish_connection(HandshakeEvent::Connected);
    h.rotate_key();
    assert_eq!(h.state(), HandshakeState::Failed);
    let mut h = handshake(1);
    h.establish_connection(HandshakeEvent::Connected);
    assert_eq!(
        h.establish_connection(HandshakeEvent::Connected),
        HandshakeAction::Abort(TunnelError::HandshakeFailed)
    );
    assert!(RelayTunnel::establish(handshake(1), FramedChannel::new(16), 1).is_err());
}

#[test]
fn connect_and_channel_failures_are_told_apart() {
    let mut h = handshake(1);
    assert_eq!(
        h.establish_connection(HandshakeEvent::ConnectTimedOut),
        HandshakeAction::Abort(TunnelError::ConnectTimeout)
    );
    assert_eq!(h.failure(), Some(TunnelError::ConnectTimeout));
    let mut h = handshake(1);
    assert_eq!(
        h.establish_connection(HandshakeEvent::ConnectFailed),
        HandshakeAction::Abort(TunnelError::ConnectFailed)
    );
    assert_eq!(
        h.establish_connection(HandshakeEvent::Connected),
        HandshakeAction::Abort(TunnelError::ConnectFailed)
    );
    let mut h = handshake(1);
    h.establish_connection(HandshakeEvent::Connected);
    h.establish_connection(HandshakeEvent::Verified(Some(nonce(1))));
    assert_eq!(
        h.establish_connection(HandshakeEvent::ChannelFailed(ChannelError::Io)),
        HandshakeAction::Abort(TunnelError::Channel(ChannelError::Io))
    );
    assert_eq!(h.into_keys().err(), Some(TunnelError::Channel(ChannelError::Io)));
    assert_eq!(TunnelError::Channel(ChannelError::Io).kind(), ErrorKind::ChannelError);
    assert_eq!(TunnelError::ConnectTimeout.kind(), ErrorKind::DialError);
    assert_eq!(TunnelError::ConnectFailed.kind(), ErrorKind::DialError);
}

#[test]
fn each_tunnel_has_the_key_its_own_handshake_delivered() {
    let first = RelayTunnel::establish(established(1), FramedChannel::new(64), 4).unwrap();
    let second = RelayTunnel::establish(established(2), FramedChannel::new(64), 4).unwrap();
    assert_eq!(first.keys().symmetric_session_key, key(1));
    assert_eq!(second.keys().symmetric_session_key, key(2));
    assert_ne!(first.keys().symmetric_session_key, second.keys().symmetric_session_key);
}

#[test]
fn messages_have_kind_stream_id_and_body() {
    let open = Message::OpenStream { stream_id: 0x01020304, ip: IpAddress::V4(127, 0, 0, 1), port: 80 };
    assert_eq!(encode_message(&open), vec![1, 1, 2, 3, 4, 1, 127, 0, 0, 1, 0, 80]);
    assert_eq!(encode_message(&Message::StreamOpened { stream_id: 7 }), vec![2, 0, 0, 0, 7]);
    let failed = Message::StreamFailed { stream_id: 7, code: ReplyCode::ConnectionRefused };
    assert_eq!(encode_message(&failed), vec![3, 0, 0, 0, 7, 5]);
    let data = Message::StreamData { stream_id: 258, data: vec![0xDE, 0xAD] };
    assert_eq!(encode_message(&data), vec![4, 0, 0, 1, 2, 0xDE, 0xAD]);
    assert_eq!(encode_message(&Message::StreamClose { stream_id: 1 }), vec![5, 0, 0, 0, 1]);
    let rotate = Message::KeyRotate { key: key(0) };
    let encoded = encode_message(&rotate);
    assert_eq!(&encoded[..ENVELOPE_HEADER_LEN], &[6, 0, 0, 0, 0]);
    assert_eq!(&encoded[ENVELOPE_HEADER_LEN..], key(0).as_slice());
}

#[test]
fn every_message_is_read_back_from_its_encoding() {
    let messages = vec![
        Message::OpenStream { stream_id: 1, ip: IpAddress::V4(1, 2, 3, 4), port: 65535 },
        Message::OpenStream { stream_id: u32::MAX, ip: IpAddress::V6(1, 2, 3, 4, 5, 6, 7, 0xffff), port: 0 },
        Message::StreamOpened { stream_id: 0 },
        Message::StreamFailed { stream_id: 9, code: ReplyCode::HostUnreachable },
        Message::StreamFailed { stream_id: 9, code: ReplyCode::Success },
        Message::StreamData { stream_id: 3, data: vec![] },
        Message::StreamData { stream_id: 3, data: (0..=255).collect() },
        Message::StreamClose { stream_id: 77 },
        Message::KeyRotate { key: key(42) },
    ];
    for message in messages {
        assert_eq!(decode_message(&encode_message(&message)), Ok(message));
    }
}

#[test]
fn malformed_payloads_are_no_messages() {
    let bad: Vec<Vec<u8>> = vec![
        vec![],
        vec![2, 0, 0, 0],
        vec![0, 0, 0, 0, 1],
        vec![7, 0, 0, 0, 1],
        vec![2, 0, 0, 0, 1, 0],
        vec![5, 0, 0, 0, 1, 0],
        vec![3, 0, 0, 0, 1],
        vec![3, 0, 0, 0, 1, 9],
        vec![3, 0, 0, 0, 1, 1, 1],
        vec![1, 0, 0, 0, 1],
        vec![1, 0, 0, 0, 1, 1, 1, 2, 3, 4, 0],
        vec![1, 0, 0, 0, 1, 1, 1, 2, 3, 4, 0, 80, 0],
        vec![1, 0, 0, 0, 1, 3, 1, b'x', 0, 80],
        vec![1, 0, 0, 0, 1, 9, 1, 2, 3, 4, 0, 80],
        [vec![6, 0, 0, 0, 0], vec![0; 31]].concat(),
        [vec![6, 0, 0, 0, 0], vec![0; 33]].concat(),
        [vec![6, 0, 0, 0, 1], vec![0; 32]].concat(),
    ];
    for payload in bad {
        assert_eq!(decode_message(&payload), Err(ChannelError::MalformedMessage), "{:?}", payload);
    }
}

#[test]
fn streams_get_rising_ids_from_one() {
    let mut tunnel = tunnel(8);
    assert_eq!(tunnel.stream_state(1), None);
    assert_eq!(open(&mut tunnel, 1), 1);
    assert_eq!(open(&mut tunnel, 2), 2);
    assert_eq!(open(&mut tunnel, 3), 3);
    assert_eq!(tunnel.stream_count(), 3);
    assert_eq!(tunnel.stream_state(2), Some(StreamState::Opening));
    assert_eq!(tunnel.stream_state(0), None);
    assert_eq!(tunnel.stream_state(4), None);
    assert_eq!(tunnel.on_message(Message::StreamFailed { stream_id: 2, code: ReplyCode::TtlExpired }),
        Delivery::Failed(2, DialError::Refused(ReplyCode::TtlExpired)));
    assert_eq!(tunnel.stream_state(2), Some(StreamState::Closed));
    assert_eq!(open(&mut tunnel, 4), 4);
    assert_eq!(tunnel.stream_state(2), Some(StreamState::Closed));
    assert_eq!(tunnel.stream_count(), 3);
}

#[test]
fn tunnel_holds_back_once_its_stream_limit_is_reached() {
    let mut tunnel = tunnel(2);
    open(&mut tunnel, 1);
    open(&mut tunnel, 2);
    assert_eq!(tunnel.open_stream(target(3)), Err(DialError::TooManyStreams));
    assert_eq!(tunnel.stream_count(), 2);
    assert_eq!(tunnel.on_message(Message::StreamClose { stream_id: 1 }), Delivery::Failed(1, DialError::Other));
    assert_eq!(open(&mut tunnel, 3), 3);
    let mut none = self::tunnel(0);
    assert_eq!(none.open_stream(target(1)), Err(DialError::TooManyStreams));
}

#[test]
fn unresolved_domain_cannot_be_opened() {
    let mut tunnel = tunnel(2);
    let unresolved = Endpoint { address: Address::domain(String::from("example.org")).unwrap(), port: 80 };
    assert_eq!(tunnel.open_stream(unresolved), Err(DialError::ResolutionFailed));
    let resolved = Endpoint {
        address: Address::Domain { name: String::from("example.org"), resolved: Some(IpAddress::V4(5, 6, 7, 8)) },
        port: 80,
    };
    assert_eq!(
        tunnel.open_stream(resolved),
        Ok(Message::OpenStream { stream_id: 1, ip: IpAddress::V4(5, 6, 7, 8), port: 80 })
    );
}

#[test]
fn stream_opens_carries_bytes_in_order_and_closes_from_both_sides() {
    let mut tunnel = tunnel(4);
    let id = open(&mut tunnel, 1);
    assert_eq!(tunnel.stream_send(id, b"early"), Err(StreamError::NotOpen));
    assert_eq!(tunnel.on_message(Message::StreamOpened { stream_id: id }), Delivery::Opened(id));
    assert_eq!(tunnel.stream_state(id), Some(StreamState::Open));
    assert_eq!(
        tunnel.stream_send(id, b"GET /"),
        Ok(Message::StreamData { stream_id: id, data: b"GET /".to_vec() })
    );
    assert_eq!(tunnel.on_message(Message::StreamData { stream_id: id, data: b"HTTP".to_vec() }), Delivery::Data(id));
    assert_eq!(tunnel.on_message(Message::StreamData { stream_id: id, data: b"/1.1".to_vec() }), Delivery::Data(id));
    assert_eq!(tunnel.stream_recv(id), Ok(b"HTTP/1.1".to_vec()));
    assert_eq!(tunnel.stream_recv(id), Ok(vec![]));

    assert_eq!(tunnel.on_message(Message::StreamClose { stream_id: id }), Delivery::Closed(id));
    assert_eq!(tunnel.stream_state(id), Some(StreamState::HalfClosed(Side::Remote)));
    assert_eq!(tunnel.on_message(Message::StreamData { stream_id: id, data: vec![1] }), Delivery::Nothing);
    assert!(tunnel.stream_send(id, b"tail").is_ok());
    assert_eq!(tunnel.close_stream(id), Ok(Message::StreamClose { stream_id: id }));
    assert_eq!(tunnel.stream_state(id), Some(StreamState::Closed));
    assert_eq!(tunnel.stream_count(), 0);
    assert_eq!(tunnel.close_stream(id), Err(StreamError::UnknownStream));
    assert_eq!(tunnel.stream_recv(id), Err(StreamError::UnknownStream));
    assert_eq!(tunnel.stream_send(id, b"x"), Err(StreamError::UnknownStream));
}

#[test]
fn stream_closed_locally_first_goes_when_the_relay_closes_too() {
    let mut tunnel = tunnel(4);
    let id = open(&mut tunnel, 1);
    tunnel.on_message(Message::StreamOpened { stream_id: id });
    assert_eq!(tunnel.close_stream(id), Ok(Message::StreamClose { stream_id: id }));
    assert_eq!(tunnel.stream_state(id), Some(StreamState::HalfClosed(Side::Local)));
    assert_eq!(tunnel.close_stream(id), Err(StreamError::NotOpen));
    assert_eq!(tunnel.stream_send(id, b"x"), Err(StreamError::NotOpen));
    assert_eq!(tunnel.on_message(Message::StreamData { stream_id: id, data: vec![1] }), Delivery::Nothing);
    assert_eq!(tunnel.stream_recv(id), Ok(vec![]));
    assert_eq!(tunnel.on_message(Message::StreamClose { stream_id: id }), Delivery::Nothing);
    assert_eq!(tunnel.stream_state(id), Some(StreamState::Closed));

    let cancelled = open(&mut tunnel, 2);
    assert!(tunnel.close_stream(cancelled).is_ok());
    assert_eq!(tunnel.on_message(Message::StreamOpened { stream_id: cancelled }), Delivery::Nothing);
    let refused = Message::StreamFailed { stream_id: cancelled, code: ReplyCode::HostUnreachable };
    assert_eq!(tunnel.on_message(refused), Delivery::Nothing);
    assert_eq!(tunnel.stream_count(), 0);
}

#[test]
fn bytes_for_one_stream_never_reach_another() {
    let mut tunnel = tunnel(4);
    let a = open(&mut tunnel, 1);
    let b = open(&mut tunnel, 2);
    tunnel.on_message(Message::StreamOpened { stream_id: a });
    tunnel.on_message(Message::StreamOpened { stream_id: b });
    tunnel.on_message(Message::StreamData { stream_id: a, data: b"aaa".to_vec() });
    tunnel.on_message(Message::StreamData { stream_id: b, data: b"b".to_vec() });
    tunnel.on_message(Message::StreamData { stream_id: a, data: b"AAA".to_vec() });
    tunnel.on_message(Message::StreamData { stream_id: 99, data: b"zzz".to_vec() });
    assert_eq!(tunnel.stream_recv(b), Ok(b"b".to_vec()));
    assert_eq!(tunnel.stream_recv(a), Ok(b"aaaAAA".to_vec()));
    assert_eq!(tunnel.on_message(Message::StreamClose { stream_id: a }), Delivery::Closed(a));
    assert_eq!(tunnel.stream_state(b), Some(StreamState::Open));
}

#[test]
fn messages_out_of_place_are_dropped() {
    let mut tunnel = tunnel(4);
    let id = open(&mut tunnel, 1);
    assert_eq!(tunnel.on_message(Message::StreamData { stream_id: id, data: vec![1] }), Delivery::Nothing);
    assert_eq!(tunnel.on_message(Message::StreamOpened { stream_id: 9 }), Delivery::Nothing);
    let echo = Message::OpenStream { stream_id: id, ip: IpAddress::V4(1, 1, 1, 1), port: 1 };
    assert_eq!(tunnel.on_message(echo), Delivery::Nothing);
    tunnel.on_message(Message::StreamOpened { stream_id: id });
    assert_eq!(tunnel.on_message(Message::StreamOpened { stream_id: id }), Delivery::Nothing);
    let late = Message::StreamFailed { stream_id: id, code: ReplyCode::GeneralFailure };
    assert_eq!(tunnel.on_message(late), Delivery::Nothing);
    assert_eq!(tunnel.stream_state(id), Some(StreamState::Open));
    assert_eq!(tunnel.on_message(Message::KeyRotate { key: vec![1; 5] }), Delivery::Nothing);
    assert_eq!(tunnel.keys().symmetric_session_key, key(1));
}

#[test]
fn key_is_replaced_whole_on_rotation() {
    let mut tunnel = tunnel(4);
    assert_eq!(tunnel.rotate_key(key(50)), Some(Message::KeyRotate { key: key(50) }));
    assert_eq!(tunnel.keys().symmetric_session_key, key(50));
    assert_eq!(tunnel.rotate_key(vec![0; 16]), None);
    assert_eq!(tunnel.keys().symmetric_session_key, key(50));
    assert_eq!(tunnel.on_message(Message::KeyRotate { key: key(60) }), Delivery::KeyRotated);
    assert_eq!(tunnel.keys().symmetric_session_key, key(60));
    assert_eq!(tunnel.keys().peer_verify_key, vec![7; 32]);
}

#[test]
fn losing_the_tunnel_takes_every_stream_with_it() {
    let mut tunnel = tunnel(4);
    let a = open(&mut tunnel, 1);
    let b = open(&mut tunnel, 2);
    let c = open(&mut tunnel, 3);
    tunnel.on_message(Message::StreamOpened { stream_id: b });
    assert_eq!(tunnel.close_stream(a).is_ok(), true);
    assert!(!tunnel.is_lost());
    assert_eq!(tunnel.fail(ChannelError::DecryptionFailed), vec![a, b, c]);
    assert!(tunnel.is_lost());
    assert_eq!(tunnel.failure(), Some(ChannelError::DecryptionFailed));
    assert_eq!(tunnel.stream_count(), 0);
    assert_eq!(tunnel.fail(ChannelError::Io), Vec::<u32>::new());
    assert_eq!(tunnel.failure(), Some(ChannelError::DecryptionFailed));
    assert_eq!(tunnel.open_stream(target(9)), Err(DialError::TunnelLost));
    assert_eq!(tunnel.stream_send(b, b"x"), Err(StreamError::TunnelLost));
    assert_eq!(tunnel.stream_recv(b), Err(StreamError::TunnelLost));
    assert_eq!(tunnel.close_stream(b), Err(StreamError::TunnelLost));
    assert_eq!(tunnel.rotate_key(key(3)), None);
    assert_eq!(tunnel.on_message(Message::StreamOpened { stream_id: c }), Delivery::Nothing);
    assert_eq!(tunnel.send_raw(b"sealed"), Err(ChannelError::DecryptionFailed));
    assert_eq!(tunnel.receive(&[0xFF]), Delivery::Nothing);
}

#[test]
fn payload_that_is_no_message_costs_the_tunnel() {
    let mut tunnel = tunnel(4);
    let a = open(&mut tunnel, 1);
    let b = open(&mut tunnel, 2);
    assert_eq!(tunnel.receive(&[2, 0, 0, 0, 1]), Delivery::Opened(a));
    assert_eq!(tunnel.receive(&[4, 0, 0, 0, 1, b'o', b'k']), Delivery::Data(a));
    assert_eq!(tunnel.stream_recv(a), Ok(b"ok".to_vec()));
    assert_eq!(tunnel.receive(&[9, 9]), Delivery::Lost(vec![a, b]));
    assert_eq!(tunnel.failure(), Some(ChannelError::MalformedMessage));
}

#[test]
fn tunnel_frames_sealed_payloads_and_reads_them_back() {
    let mut tunnel = tunnel(4);
    let id = open(&mut tunnel, 1);
    let request = encode_message(&Message::OpenStream { stream_id: id, ip: IpAddress::V4(10, 0, 0, 1), port: 443 });
    assert_eq!(tunnel.send_raw(&request), Ok(()));
    let wire = tunnel.take_outbound();
    assert_eq!(&wire[..4], &[0, 0, 0, request.len() as u8]);
    assert_eq!(&wire[4..], request.as_slice());

    tunnel.feed(&[0, 0, 0, 5, 2, 0, 0]);
    assert_eq!(tunnel.recv_raw(), (Parsed::Incomplete, vec![]));
    tunnel.feed(&[0, 1]);
    match tunnel.recv_raw() {
        (Parsed::Complete { value, consumed }, orphans) => {
            assert_eq!(consumed, 9);
            assert_eq!(orphans, Vec::<u32>::new());
            assert_eq!(tunnel.receive(&value), Delivery::Opened(id));
        }
        other => panic!("unexpected {:?}", other),
    }
    tunnel.feed(&[0xFF, 0xFF, 0xFF, 0xFF]);
    assert_eq!(tunnel.recv_raw(), (Parsed::Rejected(ChannelError::FrameTooLarge), vec![id]));
    assert_eq!(tunnel.failure(), Some(ChannelError::FrameTooLarge));
}
