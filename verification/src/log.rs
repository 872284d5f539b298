//! The decoder façade: two-phase probe/decode over one cached record,
//! and the reset that returns it to its initial state.

use vstd::prelude::*;

use crate::codec::{
    check_type, error_message_bytes, extract_affected_rows, field_before_zero, parse_u64_or_zero,
    read_u32_be, row_count_token, skip_zero_field, valid_frame, RESP_COMM_COMPLETE, RESP_ERROR,
};
use crate::info::{is_default_info, PostgresInfo};
use crate::text::{from_utf8_lossy, lossy_utf8};
use crate::types::{
    direction_msg_type, Error, L7Protocol, L7ResponseStatus, LogMessageType, PacketDirection,
};

verus! {

/// The decoder façade: holds one decode result and whether a probe has
/// already classified the current payload.
#[derive(Debug)]
pub struct PostgresqlLog {
    pub info: PostgresInfo,
    pub parsed: bool,
}

/// The state of a freshly constructed decoder: nothing classified, the
/// record at its defaults.
pub open spec fn is_initial(l: PostgresqlLog) -> bool {
    &&& !l.parsed
    &&& is_default_info(l.info)
}

impl Default for PostgresqlLog {
    fn default() -> (r: Self)
        ensures
            is_initial(r),
    {
        PostgresqlLog { info: PostgresInfo::default(), parsed: false }
    }
}

/// The record `i` with both timestamps set to `time` and its message
/// kind set to `mt`, as a probe stamps it before parsing.
pub open spec fn stamped(i: PostgresInfo, time: u64, mt: LogMessageType) -> PostgresInfo {
    PostgresInfo { msg_type: mt, start_time: time, end_time: time, ..i }
}

/// What a successful request-direction parse leaves in the record:
/// the tag byte stored verbatim, the query text lossily decoded from
/// every byte after the five-byte header, and all other fields kept.
pub open spec fn parse_ok_request(pre: PostgresInfo, payload: Seq<u8>, post: PostgresInfo) -> bool {
    &&& post.req_type == payload[0]
    &&& post.context@ == lossy_utf8(payload.skip(5))
    &&& post.msg_type == pre.msg_type
    &&& post.start_time == pre.start_time
    &&& post.end_time == pre.end_time
    &&& post.is_tls == pre.is_tls
    &&& post.resp_type == pre.resp_type
    &&& post.response_code == pre.response_code
    &&& post.error_code == pre.error_code
    &&& post.affected_rows == pre.affected_rows
    &&& post.error_message == pre.error_message
    &&& post.status == pre.status
}

/// What a successful response-direction parse leaves in the record,
/// by tag: an error tag sets the status to Error and the message to
/// the third zero-terminated field of the body when one is found; a
/// command-complete tag sets the status to Okay and the affected-row
/// count per its command tag when extraction reaches a token; any
/// other accepted tag only sets the status to Okay. Fields of the
/// request side are kept.
pub open spec fn parse_ok_response(pre: PostgresInfo, payload: Seq<u8>, post: PostgresInfo) -> bool {
    let typ = payload[0];
    let body = payload.skip(5);
    &&& post.resp_type == typ
    &&& post.msg_type == pre.msg_type
    &&& post.start_time == pre.start_time
    &&& post.end_time == pre.end_time
    &&& post.is_tls == pre.is_tls
    &&& post.req_type == pre.req_type
    &&& post.context == pre.context
    &&& post.response_code == pre.response_code
    &&& post.error_code == pre.error_code
    &&& if typ == RESP_ERROR {
        &&& post.status == L7ResponseStatus::Error
        &&& post.affected_rows == pre.affected_rows
        &&& match error_message_bytes(body) {
            Some(m) => post.error_message@ == lossy_utf8(m),
            None => post.error_message == pre.error_message,
        }
    } else if typ == RESP_COMM_COMPLETE {
        &&& post.status == L7ResponseStatus::Okay
        &&& post.error_message == pre.error_message
        &&& match row_count_token(body) {
            Some(t) => post.affected_rows == parse_u64_or_zero(t),
            None => post.affected_rows == pre.affected_rows,
        }
    } else {
        &&& post.status == L7ResponseStatus::Okay
        &&& post.error_message == pre.error_message
        &&& post.affected_rows == pre.affected_rows
    }
}

/// How a successful parse updates the record, by message kind.
pub open spec fn parse_ok(pre: PostgresInfo, payload: Seq<u8>, post: PostgresInfo) -> bool {
    match pre.msg_type {
        LogMessageType::Request => parse_ok_request(pre, payload, post),
        LogMessageType::Response => parse_ok_response(pre, payload, post),
        LogMessageType::Other => false,
    }
}

impl PostgresqlLog {
    /// Stores the message kind the direction decodes as; nothing else
    /// changes.
    pub fn set_msg_type(&mut self, direction: PacketDirection)
        ensures
            final(self).info == (PostgresInfo {
                msg_type: direction_msg_type(direction),
                ..old(self).info
            }),
            final(self).parsed == old(self).parsed,
    {
        match direction {
            PacketDirection::ClientToServer => self.info.msg_type = LogMessageType::Request,
            PacketDirection::ServerToClient => self.info.msg_type = LogMessageType::Response,
        }
    }

    /// Validates the frame for the record's current message kind and,
    /// when it is valid, extracts the fields of that kind. Succeeds if
    /// and only if the frame is valid; on failure nothing changes.
    pub fn parse(&mut self, payload: &[u8]) -> (r: Result<(), Error>)
        ensures
            r is Ok <==> valid_frame(payload@, old(self).info.msg_type),
            final(self).parsed == old(self).parsed,
            r is Err ==> *final(self) == *old(self) && r == Err::<(), Error>(
                Error::L7ProtocolUnknown,
            ),
            r is Ok ==> parse_ok(old(self).info, payload@, final(self).info),
    {
        let n = payload.len();
        if n < 5 {
            return Err(Error::L7ProtocolUnknown);
        }
        let typ = payload[0];
        if !check_type(self.info.msg_type, typ) {
            return Err(Error::L7ProtocolUnknown);
        }
        let header = vstd::slice::slice_subrange(payload, 1, 5);
        proof {
            assert(header@ =~= payload@.subrange(1, 5));
        }
        let data_len = read_u32_be(header);
        if n - 1 < data_len as usize {
            return Err(Error::L7ProtocolUnknown);
        }
        let body = vstd::slice::slice_subrange(payload, 5, n);
        proof {
            assert(body@ =~= payload@.skip(5));
        }
        match self.info.msg_type {
            LogMessageType::Request => {
                self.info.req_type = typ;
                self.info.context = from_utf8_lossy(body);
            },
            LogMessageType::Response => {
                self.info.resp_type = typ;
                if typ == RESP_ERROR {
                    self.info.status = L7ResponseStatus::Error;
                    match skip_zero_field(body) {
                        Some(rest1) => {
                            match skip_zero_field(rest1) {
                                Some(rest2) => {
                                    match field_before_zero(rest2) {
                                        Some(m) => {
                                            self.info.error_message = from_utf8_lossy(m);
                                        },
                                        None => {},
                                    }
                                },
                                None => {},
                            }
                        },
                        None => {},
                    }
                } else if typ == RESP_COMM_COMPLETE {
                    self.info.status = L7ResponseStatus::Okay;
                    match extract_affected_rows(body) {
                        Some(count) => {
                            self.info.affected_rows = count;
                        },
                        None => {},
                    }
                } else {
                    self.info.status = L7ResponseStatus::Okay;
                }
            },
            LogMessageType::Other => {
                return Err(Error::L7ProtocolUnknown);
            },
        }
        Ok(())
    }

    /// Probes a payload for protocol detection: stamps both timestamps
    /// with the capture time and the message kind with the direction,
    /// then validates and extracts. Accepts if and only if the frame is
    /// valid for the direction; on success the result is cached for the
    /// decode call that follows.
    pub fn check_payload(&mut self, payload: &[u8], direction: PacketDirection, time: u64) -> (r:
        bool)
        ensures
            r == valid_frame(payload@, direction_msg_type(direction)),
            r ==> final(self).parsed,
            !r ==> final(self).parsed == old(self).parsed,
            ({
                let pre = stamped(old(self).info, time, direction_msg_type(direction));
                if r {
                    parse_ok(pre, payload@, final(self).info)
                } else {
                    final(self).info == pre
                }
            }),
    {
        self.info.start_time = time;
        self.info.end_time = time;
        self.set_msg_type(direction);
        match self.parse(payload) {
            Ok(()) => {
                self.parsed = true;
                true
            },
            Err(_) => false,
        }
    }

    /// Decodes a payload into one record. A result cached by a prior
    /// accepted probe is returned as it stands; otherwise the payload
    /// is stamped, validated and extracted just as the probe does, and
    /// the record (or the protocol-mismatch error) is returned.
    pub fn parse_payload(&mut self, payload: &[u8], direction: PacketDirection, time: u64) -> (r:
        Result<PostgresInfo, Error>)
        ensures
            old(self).parsed ==> *final(self) == *old(self) && r == Ok::<PostgresInfo, Error>(
                old(self).info,
            ),
            !old(self).parsed ==> ({
                let mt = direction_msg_type(direction);
                let pre = stamped(old(self).info, time, mt);
                &&& final(self).parsed == old(self).parsed
                &&& (r is Ok <==> valid_frame(payload@, mt))
                &&& (r is Err ==> final(self).info == pre && r == Err::<PostgresInfo, Error>(
                    Error::L7ProtocolUnknown,
                ))
                &&& (r is Ok ==> parse_ok(pre, payload@, final(self).info) && r == Ok::<
                    PostgresInfo,
                    Error,
                >(final(self).info))
            }),
    {
        if self.parsed {
            return Ok(self.info.clone());
        }
        self.info.start_time = time;
        self.info.end_time = time;
        self.set_msg_type(direction);
        match self.parse(payload) {
            Ok(()) => Ok(self.info.clone()),
            Err(e) => Err(e),
        }
    }

    /// The protocol this decoder recognizes, with its display label.
    pub fn protocol(&self) -> (r: (L7Protocol, &'static str))
        ensures
            r.0 == L7Protocol::Postgresql,
            r.1@ == "POSTGRESQL"@,
    {
        (L7Protocol::Postgresql, "POSTGRESQL")
    }

    /// Returns the decoder to a state indistinguishable from a freshly
    /// constructed one, discarding all cached fields.
    pub fn reset(&mut self)
        ensures
            is_initial(*final(self)),
    {
        *self = PostgresqlLog::default();
    }

    /// This decoder never parses datagram traffic.
    pub fn parse_on_udp(&self) -> (r: bool)
        ensures
            !r,
    {
        false
    }
}

impl Clone for PostgresqlLog {
    fn clone(&self) -> (r: Self)
        ensures
            r == *self,
    {
        PostgresqlLog { info: self.info.clone(), parsed: self.parsed }
    }
}

} // verus!
