use match_server::tcp::header::{Header, HeaderType};
use match_server::tcp::packet::Packet;
use match_server::utils::errors::ProtocolError;

const ALL_TYPES: [(HeaderType, u8, &str); 15] = [
    (HeaderType::Disconnect, 0x00, "DISCONNECT"),
    (HeaderType::Connect, 0x01, "CONNECT"),
    (HeaderType::Ping, 0x02, "PING"),
    (HeaderType::Reconnect, 0x03, "RECONNECT"),
    (HeaderType::GameState, 0x10, "GAME_STATE"),
    (HeaderType::PlayCard, 0x11, "PLAY_CARD"),
    (HeaderType::AttackPlayer, 0x12, "ATTACK_PLAYER"),
    (HeaderType::InitServer, 0x13, "INIT_SERVER"),
    (HeaderType::FailedToConnectPlayer, 0xF0, "FAILED_TO_CONNECT_PLAYER"),
    (HeaderType::InvalidPacketPayload, 0xF1, "INVALID_PACKET_PAYLOAD"),
    (HeaderType::InvalidHeader, 0xFA, "INVALID_HEADER"),
    (HeaderType::AlreadyConnected, 0xFB, "ALREADY_CONNECTED"),
    (HeaderType::InvalidPlayerData, 0xFC, "INVALID_PLAYER_DATA"),
    (HeaderType::InvalidChecksum, 0xFD, "INVALID_CHECKSUM"),
    (HeaderType::ERROR, 0xFE, "ERROR"),
];

#[test]
fn header_type_bytes_and_names() {
    for (t, byte, name) in ALL_TYPES {
        assert_eq!(t.to_byte(), byte);
        assert_eq!(HeaderType::try_from(byte), Ok(t));
        assert_eq!(t.to_string(), name);
    }
}

#[test]
fn unknown_type_bytes_are_refused() {
    let known: Vec<u8> = ALL_TYPES.iter().map(|t| t.1).collect();
    for b in 0..=255u8 {
        assert_eq!(HeaderType::try_from(b).is_ok(), known.contains(&b));
    }
}

#[test]
fn header_new_computes_length_and_checksum() {
    let h = Header::new(HeaderType::PlayCard, &[1, 2, 3, 4, 5, 6, 7, 8]);
    assert_eq!(h.header_type, HeaderType::PlayCard);
    assert_eq!(h.payload_length, 8);
    assert_eq!(h.checksum, 8);
    assert_eq!(h.length(), 8);
    assert_eq!(h.wrap_header(), vec![0x11, 0, 8, 0, 8, 0x0A]);
}

#[test]
fn header_length_is_big_endian_and_unsigned() {
    let payload = vec![0u8; 0x8001];
    let h = Header::new(HeaderType::GameState, &payload);
    assert_eq!(h.payload_length, i16::MIN + 1);
    assert_eq!(h.length(), 0x8001);
    assert_eq!(h.wrap_header(), vec![0x10, 0x80, 0x01, 0, 0, 0x0A]);
    let back = Header::from_bytes(&h.wrap_header()).unwrap();
    assert_eq!(back, h);
}

#[test]
fn header_length_wraps_at_sixteen_bits() {
    let payload = vec![0u8; 65536 + 3];
    let h = Header::new(HeaderType::GameState, &payload);
    assert_eq!(h.length(), 3);
}

#[test]
fn header_from_bytes_reads_fields() {
    let h = Header::from_bytes(&[0x01, 0x01, 0x02, 0xFF, 0xFE, 0x0A]).unwrap();
    assert_eq!(h.header_type, HeaderType::Connect);
    assert_eq!(h.payload_length, 0x0102);
    assert_eq!(h.checksum, -2);
}

#[test]
fn header_from_bytes_refuses_wrong_end_mark() {
    match Header::from_bytes(&[0x01, 0, 0, 0, 0, 0x0B]) {
        Err(ProtocolError::InvalidHeaderError(text)) => {
            assert_eq!(text, "Format invalid: [1, 0, 0, 0, 0, 11]");
        }
        _ => panic!("a wrong end mark must be refused"),
    }
}

#[test]
fn header_from_bytes_refuses_wrong_length() {
    assert!(matches!(
        Header::from_bytes(&[0x01, 0, 0, 0, 0]),
        Err(ProtocolError::InvalidHeaderError(_))
    ));
    assert!(matches!(
        Header::from_bytes(&[0x01, 0, 0, 0, 0, 0x0A, 0]),
        Err(ProtocolError::InvalidHeaderError(_))
    ));
}

#[test]
fn header_from_bytes_refuses_unknown_type() {
    match Header::from_bytes(&[0x04, 0, 0, 0, 0, 0x0A]) {
        Err(e) => assert_eq!(
            e.to_string(),
            "Could not successfully parse protocol header: Invalid message type."
        ),
        Ok(_) => panic!("an unknown type must be refused"),
    }
}

#[test]
fn packet_round_trip_for_every_type() {
    let payloads: Vec<Vec<u8>> = vec![vec![], vec![0xAB], vec![1, 2, 3], vec![7u8; 65535]];
    for (t, _, _) in ALL_TYPES {
        for p in &payloads {
            let wire = Packet::new(t, p).wrap_packet();
            assert_eq!(wire.len(), 6 + p.len());
            let back = Packet::parse(&wire).unwrap();
            assert_eq!(back.header.header_type, t);
            assert_eq!(&back.payload, p);
            let expected = p.iter().fold(0u16, |a, b| a ^ (*b as u16));
            assert_eq!(back.header.checksum as u16, expected);
        }
    }
}

#[test]
fn six_byte_buffers_with_bad_mark_or_type_are_rejected() {
    for b0 in 0..=255u8 {
        for b5 in [0x00u8, 0x09, 0x0A, 0x0B, 0xFF] {
            let known = HeaderType::try_from(b0).is_ok();
            let r = Packet::parse(&[b0, 0, 0, 0, 0, b5]);
            assert_eq!(r.is_ok(), known && b5 == 0x0A);
        }
    }
}

#[test]
fn packet_parse_refuses_short_buffer_as_header_error() {
    match Packet::parse(&[0x01, 0, 0]) {
        Err(ProtocolError::InvalidHeaderError(text)) => {
            assert_eq!(text, "Not enough bytes for a valid packet");
        }
        _ => panic!("a short buffer must be refused"),
    }
}

#[test]
fn packet_parse_refuses_short_payload() {
    match Packet::parse(&[0x11, 0, 3, 0, 0, 0x0A, 1, 2]) {
        Err(e) => assert_eq!(
            e.to_string(),
            "Invalid packet: Not enough bytes for a valid packet"
        ),
        Ok(_) => panic!("a short payload must be refused"),
    }
}

#[test]
fn packet_parse_takes_exactly_the_announced_payload() {
    let p = Packet::parse(&[0x11, 0, 2, 0, 3, 0x0A, 1, 2, 9, 9]).unwrap();
    assert_eq!(p.payload, vec![1, 2]);
    assert_eq!(p.header.payload_length, 2);
    assert_eq!(p.header.checksum, 3);
}

#[test]
fn packet_clone_keeps_header_and_payload() {
    let p = Packet::new(HeaderType::GameState, b"state");
    let q = p.clone();
    assert_eq!(q.header, p.header);
    assert_eq!(q.payload, p.payload);
}

#[test]
fn invalid_checksum_reply_is_six_bytes() {
    let wire = Packet::new(HeaderType::InvalidChecksum, b"").wrap_packet();
    assert_eq!(wire, vec![0xFD, 0, 0, 0, 0, 0x0A]);
}
