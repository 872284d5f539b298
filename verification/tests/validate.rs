use pg_log::codec::check_type;
use pg_log::log::PostgresqlLog;
use pg_log::types::{LogMessageType, PacketDirection};

fn probe(payload: &[u8], direction: PacketDirection) -> bool {
    let mut log = PostgresqlLog::default();
    log.check_payload(payload, direction, 1)
}

#[test]
fn short_frames_rejected_both_directions() {
    let full = [0x51u8, 0, 0, 0, 4];
    for len in 0..5 {
        assert!(!probe(&full[..len], PacketDirection::ClientToServer));
        assert!(!probe(&full[..len], PacketDirection::ServerToClient));
    }
}

#[test]
fn declared_length_exceeding_buffer_rejected() {
    // Tag byte plus 8 bytes follow, but the length field declares 10.
    let mut payload: Vec<u8> = vec![0x51, 0, 0, 0, 10];
    payload.extend_from_slice(b"1234");
    assert!(!probe(&payload, PacketDirection::ClientToServer));
}

#[test]
fn declared_length_exactly_covered_accepted() {
    let mut payload: Vec<u8> = vec![0x51, 0, 0, 0, 8];
    payload.extend_from_slice(b"1234");
    assert!(probe(&payload, PacketDirection::ClientToServer));
}

#[test]
fn trailing_bytes_tolerated() {
    // Over-read capture: more bytes follow than the length declares.
    let mut payload: Vec<u8> = vec![0x51, 0, 0, 0, 6];
    payload.extend_from_slice(b"1234");
    assert!(probe(&payload, PacketDirection::ClientToServer));
}

#[test]
fn request_tags_exhaustive() {
    for t in 0..=255u8 {
        let payload = [t, 0, 0, 0, 4];
        let accepted = probe(&payload, PacketDirection::ClientToServer);
        let expected = t == b'Q' || t == b'E';
        assert_eq!(accepted, expected, "request tag {}", t);
    }
}

#[test]
fn response_tags_exhaustive() {
    for t in 0..=255u8 {
        let payload = [t, 0, 0, 0, 4];
        let accepted = probe(&payload, PacketDirection::ServerToClient);
        let expected = t == b'E' || t == b'C' || t == b'T' || t == b'D';
        assert_eq!(accepted, expected, "response tag {}", t);
    }
}

#[test]
fn check_type_matches_direction() {
    assert!(check_type(LogMessageType::Request, b'Q'));
    assert!(check_type(LogMessageType::Request, b'E'));
    assert!(!check_type(LogMessageType::Request, b'C'));
    assert!(check_type(LogMessageType::Response, b'E'));
    assert!(check_type(LogMessageType::Response, b'C'));
    assert!(check_type(LogMessageType::Response, b'T'));
    assert!(check_type(LogMessageType::Response, b'D'));
    assert!(!check_type(LogMessageType::Response, b'Q'));
    assert!(!check_type(LogMessageType::Other, b'Q'));
}
