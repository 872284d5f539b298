//! The correlated record one request/response exchange decodes to, and
//! the merger that combines a request-side and a response-side decode.

use vstd::prelude::*;

use crate::text::char_to_string;
use crate::types::{Error, L7Protocol, L7ResponseStatus, LogMessageType};

verus! {

/// One decoded record: timing, the request-side fields and the
/// response-side fields, defaulted where a side is missing.
#[derive(Debug)]
pub struct PostgresInfo {
    /// Which side populated this record last: request or response.
    pub msg_type: LogMessageType,
    /// Earliest timestamp among the messages merged into this record.
    pub start_time: u64,
    /// Latest timestamp among the messages merged into this record.
    pub end_time: u64,
    /// Whether the transport was encrypted; stored verbatim.
    pub is_tls: bool,
    /// Request: the query text, lossily decoded.
    pub context: String,
    /// Request: the tag byte.
    pub req_type: u8,
    /// Response: the tag byte.
    pub resp_type: u8,
    /// Response: reserved, never set by this decoder.
    pub response_code: u8,
    /// Response: reserved, never set by this decoder.
    pub error_code: Option<i32>,
    /// Response: rows affected per the command-complete tag.
    pub affected_rows: u64,
    /// Response: the human-readable error message, when one was found.
    pub error_message: String,
    /// Response: completion status.
    pub status: L7ResponseStatus,
}

impl Clone for PostgresInfo {
    fn clone(&self) -> (r: Self)
        ensures
            r == *self,
    {
        PostgresInfo {
            msg_type: self.msg_type,
            start_time: self.start_time,
            end_time: self.end_time,
            is_tls: self.is_tls,
            context: self.context.clone(),
            req_type: self.req_type,
            resp_type: self.resp_type,
            response_code: self.response_code,
            error_code: self.error_code,
            affected_rows: self.affected_rows,
            error_message: self.error_message.clone(),
            status: self.status,
        }
    }
}

/// The state every record starts from: zeroed timing and counters,
/// empty text, no error detail.
pub open spec fn is_default_info(i: PostgresInfo) -> bool {
    &&& i.msg_type == LogMessageType::Other
    &&& i.start_time == 0
    &&& i.end_time == 0
    &&& !i.is_tls
    &&& i.context@ == Seq::<char>::empty()
    &&& i.req_type == 0
    &&& i.resp_type == 0
    &&& i.response_code == 0
    &&& i.error_code is None
    &&& i.affected_rows == 0
    &&& i.error_message@ == Seq::<char>::empty()
    &&& i.status == L7ResponseStatus::Okay
}

impl Default for PostgresInfo {
    fn default() -> (r: Self)
        ensures
            is_default_info(r),
    {
        PostgresInfo {
            msg_type: LogMessageType::Other,
            start_time: 0,
            end_time: 0,
            is_tls: false,
            context: String::new(),
            req_type: 0,
            resp_type: 0,
            response_code: 0,
            error_code: None,
            affected_rows: 0,
            error_message: String::new(),
            status: L7ResponseStatus::Okay,
        }
    }
}

/// The smaller of two timestamps.
pub open spec fn min_time(a: u64, b: u64) -> u64 {
    if b < a {
        b
    } else {
        a
    }
}

/// The larger of two timestamps.
pub open spec fn max_time(a: u64, b: u64) -> u64 {
    if b > a {
        b
    } else {
        a
    }
}

/// What merging `other` into the accumulator `acc` yields: the
/// earliest start time and latest end time of the two; the request
/// fields of `other` when it is request-origin, the response fields of
/// `other` when it is response-origin, and everything else kept from
/// `acc` (any other origin changes no field group).
pub open spec fn merged_with(acc: PostgresInfo, other: PostgresInfo, out: PostgresInfo) -> bool {
    &&& out.start_time == min_time(acc.start_time, other.start_time)
    &&& out.end_time == max_time(acc.end_time, other.end_time)
    &&& out.msg_type == acc.msg_type
    &&& out.is_tls == acc.is_tls
    &&& if other.msg_type == LogMessageType::Request {
        &&& out.req_type == other.req_type
        &&& out.context@ == other.context@
    } else {
        &&& out.req_type == acc.req_type
        &&& out.context == acc.context
    }
    &&& if other.msg_type == LogMessageType::Response {
        &&& out.resp_type == other.resp_type
        &&& out.response_code == other.response_code
        &&& out.error_code == other.error_code
        &&& out.error_message@ == other.error_message@
        &&& out.status == other.status
        &&& out.affected_rows == other.affected_rows
    } else {
        &&& out.resp_type == acc.resp_type
        &&& out.response_code == acc.response_code
        &&& out.error_code == acc.error_code
        &&& out.error_message == acc.error_message
        &&& out.status == acc.status
        &&& out.affected_rows == acc.affected_rows
    }
}

impl PostgresInfo {
    /// This decoder carries no session identifier.
    pub fn session_id(&self) -> (r: Option<u32>)
        ensures
            r is None,
    {
        None
    }

    /// Merges another record of the same logical exchange into this
    /// one: earliest start time, latest end time, and the field group
    /// of the incoming record's origin overwritten.
    pub fn merge_log(&mut self, other: PostgresInfo) -> (r: Result<(), Error>)
        ensures
            r is Ok,
            merged_with(*old(self), other, *final(self)),
    {
        if other.start_time < self.start_time {
            self.start_time = other.start_time;
        }
        if other.end_time > self.end_time {
            self.end_time = other.end_time;
        }
        match other.msg_type {
            LogMessageType::Request => {
                self.req_type = other.req_type;
                self.context = other.context.clone();
            },
            LogMessageType::Response => {
                self.resp_type = other.resp_type;
                self.response_code = other.response_code;
                self.error_code = other.error_code;
                self.error_message = other.error_message;
                self.status = other.status;
                self.affected_rows = other.affected_rows;
            },
            LogMessageType::Other => {},
        }
        Ok(())
    }

    /// Whether the underlying transport was encrypted.
    pub fn is_tls(&self) -> (r: bool)
        ensures
            r == self.is_tls,
    {
        self.is_tls
    }

    /// A record of this decoder is always sent onward.
    pub fn skip_send(&self) -> (r: bool)
        ensures
            !r,
    {
        false
    }
}

/// The protocol header a record reports: protocol label, message kind,
/// and round-trip time.
#[derive(Debug, Clone, Copy, PartialEq, Eq, Structural)]
pub struct AppProtoHead {
    pub proto: L7Protocol,
    pub msg_type: LogMessageType,
    pub rrt: u64,
}

/// Request side of the outbound log shape.
#[derive(Debug)]
pub struct L7Request {
    pub req_type: String,
    pub domain: String,
    pub resource: String,
}

/// Response side of the outbound log shape.
#[derive(Debug)]
pub struct L7Response {
    pub status: L7ResponseStatus,
    pub code: Option<i32>,
    pub result: String,
}

/// Extension fields of the outbound log shape.
#[derive(Debug, Clone, Copy, PartialEq, Eq, Structural)]
pub struct ExtendedInfo {
    pub row_effect: Option<u32>,
}

/// The generic request/response log shape a record converts to.
#[derive(Debug)]
pub struct L7ProtocolSendLog {
    pub req_len: Option<u32>,
    pub resp_len: Option<u32>,
    pub req: L7Request,
    pub resp: L7Response,
    pub ext_info: Option<ExtendedInfo>,
}

impl PostgresInfo {
    /// The protocol header of this record. The timing invariant that
    /// merging and decoding keep — the start time never after the end
    /// time — is required, so the round-trip time cannot underflow.
    pub fn app_proto_head(&self) -> (r: Option<AppProtoHead>)
        requires
            self.start_time <= self.end_time,
        ensures
            r == Some(
                AppProtoHead {
                    proto: L7Protocol::Postgresql,
                    msg_type: self.msg_type,
                    rrt: (self.end_time - self.start_time) as u64,
                },
            ),
    {
        Some(
            AppProtoHead {
                proto: L7Protocol::Postgresql,
                msg_type: self.msg_type,
                rrt: self.end_time - self.start_time,
            },
        )
    }

    /// Converts this record to the outbound log shape: the request tag
    /// as a one-character string, the query text as the resource, the
    /// status with the response tag as its code, the error message as
    /// the result, and the affected-row count as an extension field.
    pub fn into_l7_protocol_send_log(self) -> (r: L7ProtocolSendLog)
        ensures
            r.req_len is None,
            r.resp_len is None,
            r.req.req_type@ == seq![self.req_type as char],
            r.req.domain@ == Seq::<char>::empty(),
            r.req.resource@ == self.context@,
            r.resp.status == self.status,
            r.resp.code == Some(self.resp_type as i32),
            r.resp.result@ == self.error_message@,
            r.ext_info == Some(ExtendedInfo { row_effect: Some(self.affected_rows as u32) }),
    {
        L7ProtocolSendLog {
            req_len: None,
            resp_len: None,
            req: L7Request {
                req_type: char_to_string(self.req_type as char),
                domain: String::new(),
                resource: self.context,
            },
            resp: L7Response {
                status: self.status,
                code: Some(self.resp_type as i32),
                result: self.error_message,
            },
            ext_info: Some(
                ExtendedInfo { row_effect: Some(#[verifier::truncate] (self.affected_rows as u32)) },
            ),
        }
    }
}

/// A record whose start time is not after its end time keeps that
/// invariant through a merge with another such record; decoding stamps
/// both timestamps with one capture time, so every record this library
/// produces and merges satisfies what `app_proto_head` requires.
pub proof fn lemma_merge_preserves_time_order(
    acc: PostgresInfo,
    other: PostgresInfo,
    out: PostgresInfo,
)
    requires
        acc.start_time <= acc.end_time,
        other.start_time <= other.end_time,
        merged_with(acc, other, out),
    ensures
        out.start_time <= out.end_time,
{
}

/// Merging two records into an accumulator yields the same start time
/// and the same end time in either order.
pub proof fn lemma_merge_times_order_independent(
    acc: PostgresInfo,
    a: PostgresInfo,
    b: PostgresInfo,
    ab1: PostgresInfo,
    ab2: PostgresInfo,
    ba1: PostgresInfo,
    ba2: PostgresInfo,
)
    requires
        merged_with(acc, a, ab1),
        merged_with(ab1, b, ab2),
        merged_with(acc, b, ba1),
        merged_with(ba1, a, ba2),
    ensures
        ab2.start_time == ba2.start_time,
        ab2.end_time == ba2.end_time,
{
}

} // verus!
