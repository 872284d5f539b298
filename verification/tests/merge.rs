use pg_log::info::PostgresInfo;
use pg_log::types::{L7ResponseStatus, LogMessageType};

fn record(msg_type: LogMessageType, start: u64, end: u64) -> PostgresInfo {
    let mut r = PostgresInfo::default();
    r.msg_type = msg_type;
    r.start_time = start;
    r.end_time = end;
    r
}

#[test]
fn merge_keeps_earliest_start_and_latest_end() {
    let mut acc = record(LogMessageType::Request, 10, 10);
    let other = record(LogMessageType::Response, 4, 25);
    acc.merge_log(other).unwrap();
    assert_eq!(acc.start_time, 4);
    assert_eq!(acc.end_time, 25);
}

#[test]
fn merge_times_order_independent() {
    let a = record(LogMessageType::Request, 9, 9);
    let b = record(LogMessageType::Response, 2, 30);

    let mut acc1 = record(LogMessageType::Other, 15, 15);
    acc1.merge_log(a.clone()).unwrap();
    acc1.merge_log(b.clone()).unwrap();

    let mut acc2 = record(LogMessageType::Other, 15, 15);
    acc2.merge_log(b).unwrap();
    acc2.merge_log(a).unwrap();

    assert_eq!(acc1.start_time, acc2.start_time);
    assert_eq!(acc1.end_time, acc2.end_time);
    assert_eq!(acc1.start_time, 2);
    assert_eq!(acc1.end_time, 30);
}

#[test]
fn merge_request_overwrites_request_fields_only() {
    let mut acc = PostgresInfo::default();
    acc.resp_type = b'C';
    acc.affected_rows = 8;
    let mut req = record(LogMessageType::Request, 0, 0);
    req.req_type = b'Q';
    req.context = String::from("SELECT 1");
    req.affected_rows = 99;
    acc.merge_log(req).unwrap();
    assert_eq!(acc.req_type, b'Q');
    assert_eq!(acc.context, "SELECT 1");
    // Response-side fields of the accumulator stay.
    assert_eq!(acc.resp_type, b'C');
    assert_eq!(acc.affected_rows, 8);
}

#[test]
fn merge_response_overwrites_response_fields_only() {
    let mut acc = PostgresInfo::default();
    acc.req_type = b'Q';
    acc.context = String::from("DELETE FROM t");
    let mut resp = record(LogMessageType::Response, 0, 0);
    resp.resp_type = b'C';
    resp.status = L7ResponseStatus::Okay;
    resp.affected_rows = 5;
    resp.error_message = String::from("");
    acc.merge_log(resp).unwrap();
    assert_eq!(acc.resp_type, b'C');
    assert_eq!(acc.affected_rows, 5);
    assert_eq!(acc.req_type, b'Q');
    assert_eq!(acc.context, "DELETE FROM t");
}

#[test]
fn merge_other_origin_changes_no_field_group() {
    let mut acc = PostgresInfo::default();
    acc.req_type = b'Q';
    acc.resp_type = b'C';
    let mut other = record(LogMessageType::Other, 0, 0);
    other.req_type = b'E';
    other.resp_type = b'E';
    acc.merge_log(other).unwrap();
    assert_eq!(acc.req_type, b'Q');
    assert_eq!(acc.resp_type, b'C');
}

#[test]
fn merge_repeated_same_direction_last_write_wins() {
    let mut acc = PostgresInfo::default();
    let mut first = record(LogMessageType::Request, 0, 0);
    first.context = String::from("SELECT 1");
    let mut second = record(LogMessageType::Request, 0, 0);
    second.context = String::from("SELECT 2");
    acc.merge_log(first).unwrap();
    acc.merge_log(second).unwrap();
    assert_eq!(acc.context, "SELECT 2");
}
