use pg_log::log::PostgresqlLog;
use pg_log::types::{Error, L7ResponseStatus, LogMessageType, PacketDirection};

fn request(body: &[u8]) -> Vec<u8> {
    let mut payload: Vec<u8> = vec![0x51, 0, 0, 0, 0];
    let len = (body.len() + 4) as u32;
    payload[1..5].copy_from_slice(&len.to_be_bytes());
    payload.extend_from_slice(body);
    payload
}

fn response(tag: u8, body: &[u8]) -> Vec<u8> {
    let mut payload: Vec<u8> = vec![tag, 0, 0, 0, 0];
    let len = (body.len() + 4) as u32;
    payload[1..5].copy_from_slice(&len.to_be_bytes());
    payload.extend_from_slice(body);
    payload
}

fn decode_response(body_tag: u8, body: &[u8]) -> pg_log::info::PostgresInfo {
    let payload = response(body_tag, body);
    let mut log = PostgresqlLog::default();
    log.parse_payload(&payload, PacketDirection::ServerToClient, 3).unwrap()
}

#[test]
fn round_trip_simple_query() {
    let payload = request(b"SELECT 1");
    assert_eq!(payload[..5], [0x51, 0, 0, 0, 12]);
    let mut log = PostgresqlLog::default();
    assert!(log.check_payload(&payload, PacketDirection::ClientToServer, 7));
    let info = log.parse_payload(&payload, PacketDirection::ClientToServer, 9).unwrap();
    assert_eq!(info.req_type, b'Q');
    assert_eq!(info.context, "SELECT 1");
    assert_eq!(info.msg_type, LogMessageType::Request);
    // The cached probe result is returned: the probe's timestamp stays.
    assert_eq!(info.start_time, 7);
    assert_eq!(info.end_time, 7);
}

#[test]
fn declared_length_ten_query() {
    let mut payload: Vec<u8> = vec![0x51, 0, 0, 0, 10];
    payload.extend_from_slice(b"SELECT 1");
    let mut log = PostgresqlLog::default();
    let info = log.parse_payload(&payload, PacketDirection::ClientToServer, 1).unwrap();
    assert_eq!(info.req_type, b'Q');
    assert_eq!(info.context, "SELECT 1");
}

#[test]
fn empty_query_text() {
    let payload = request(b"");
    let mut log = PostgresqlLog::default();
    let info = log.parse_payload(&payload, PacketDirection::ClientToServer, 1).unwrap();
    assert_eq!(info.context, "");
}

#[test]
fn invalid_utf8_replaced_not_rejected() {
    let mut body = b"SELECT ".to_vec();
    body.push(0xFF);
    let payload = request(&body);
    let mut log = PostgresqlLog::default();
    let info = log.parse_payload(&payload, PacketDirection::ClientToServer, 1).unwrap();
    assert_eq!(info.context, "SELECT \u{FFFD}");
}

#[test]
fn insert_command_complete_rows() {
    let info = decode_response(b'C', b"INSERT 16 3\0");
    assert_eq!(info.status, L7ResponseStatus::Okay);
    assert_eq!(info.affected_rows, 3);
    assert_eq!(info.resp_type, b'C');
    assert_eq!(info.msg_type, LogMessageType::Response);
}

#[test]
fn delete_command_complete_rows() {
    let info = decode_response(b'C', b"DELETE 5\0");
    assert_eq!(info.status, L7ResponseStatus::Okay);
    assert_eq!(info.affected_rows, 5);
}

#[test]
fn update_command_complete_rows() {
    let info = decode_response(b'C', b"UPDATE 12\0");
    assert_eq!(info.affected_rows, 12);
}

#[test]
fn insert_without_row_count_defaults() {
    let info = decode_response(b'C', b"INSERT 16\0");
    assert_eq!(info.status, L7ResponseStatus::Okay);
    assert_eq!(info.affected_rows, 0);
}

#[test]
fn vacuum_unrecognized_op_defaults() {
    let info = decode_response(b'C', b"VACUUM\0");
    assert_eq!(info.status, L7ResponseStatus::Okay);
    assert_eq!(info.affected_rows, 0);
}

#[test]
fn unrecognized_op_with_operand_defaults() {
    let info = decode_response(b'C', b"FETCH 5\0");
    assert_eq!(info.affected_rows, 0);
}

#[test]
fn missing_terminator_keeps_default_count() {
    let info = decode_response(b'C', b"DELETE 5");
    assert_eq!(info.affected_rows, 0);
}

#[test]
fn non_numeric_row_count_defaults() {
    let info = decode_response(b'C', b"DELETE abc\0");
    assert_eq!(info.affected_rows, 0);
}

#[test]
fn overflowing_row_count_defaults() {
    let info = decode_response(b'C', b"DELETE 99999999999999999999\0");
    assert_eq!(info.affected_rows, 0);
}

#[test]
fn largest_row_count_kept() {
    let info = decode_response(b'C', b"DELETE 18446744073709551615\0");
    assert_eq!(info.affected_rows, u64::MAX);
}

#[test]
fn error_response_message() {
    // The third zero-terminated field is taken whole as the message.
    let info = decode_response(b'E', b"SERROR\0C23505\0Mduplicate key\0");
    assert_eq!(info.status, L7ResponseStatus::Error);
    assert_eq!(info.error_message, "Mduplicate key");
}

#[test]
fn error_response_too_few_fields() {
    let info = decode_response(b'E', b"SERROR\0");
    assert_eq!(info.status, L7ResponseStatus::Error);
    assert_eq!(info.error_message, "");
}

#[test]
fn error_response_no_third_terminator() {
    let info = decode_response(b'E', b"SERROR\0C23505\0Mduplicate key");
    assert_eq!(info.status, L7ResponseStatus::Error);
    assert_eq!(info.error_message, "");
}

#[test]
fn row_description_sets_status_only() {
    let info = decode_response(b'T', b"anything");
    assert_eq!(info.status, L7ResponseStatus::Okay);
    assert_eq!(info.affected_rows, 0);
    assert_eq!(info.error_message, "");
    assert_eq!(info.resp_type, b'T');
}

#[test]
fn data_row_sets_status_only() {
    let info = decode_response(b'D', b"anything");
    assert_eq!(info.status, L7ResponseStatus::Okay);
    assert_eq!(info.resp_type, b'D');
}

#[test]
fn protocol_mismatch_error_variant() {
    let payload = [b'Z', 0, 0, 0, 4];
    let mut log = PostgresqlLog::default();
    let r = log.parse_payload(&payload, PacketDirection::ServerToClient, 1);
    assert!(matches!(r, Err(Error::L7ProtocolUnknown)));
}
