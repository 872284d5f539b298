//! Frame validation and the byte-level model of field extraction: the
//! big-endian length field, tag classification by direction, and the
//! split-on-sentinel primitives that the extractor is built from.

use vstd::prelude::*;

use crate::types::LogMessageType;

verus! {

/// Request tag: simple query.
pub const QUERY_SIMPLE_QUERY: u8 = 0x51;

/// Request tag: execute.
pub const QUERY_EXEC: u8 = 0x45;

/// Response tag: error return.
pub const RESP_ERROR: u8 = 0x45;

/// Response tag: command complete.
pub const RESP_COMM_COMPLETE: u8 = 0x43;

/// Response tag: row description.
pub const RESP_ROW_DESC: u8 = 0x54;

/// Response tag: data row.
pub const RESP_DATA_ROW: u8 = 0x44;

/// The big-endian value of a four-byte length field.
pub open spec fn be_u32(s: Seq<u8>) -> int
    recommends
        s.len() == 4,
{
    s[0] * 0x100_0000 + s[1] * 0x1_0000 + s[2] * 0x100 + s[3]
}

/// Reads a four-byte big-endian unsigned integer.
pub fn read_u32_be(b: &[u8]) -> (r: u32)
    requires
        b@.len() == 4,
    ensures
        r == be_u32(b@),
{
    (b[0] as u32) * 0x100_0000 + (b[1] as u32) * 0x1_0000 + (b[2] as u32) * 0x100 + (b[3] as u32)
}

/// Which tag bytes this decoder recognizes, per message kind.
pub open spec fn check_type_spec(msg_type: LogMessageType, typ: u8) -> bool {
    match msg_type {
        LogMessageType::Request => typ == QUERY_SIMPLE_QUERY || typ == QUERY_EXEC,
        LogMessageType::Response => typ == RESP_ERROR || typ == RESP_COMM_COMPLETE || typ
            == RESP_ROW_DESC || typ == RESP_DATA_ROW,
        LogMessageType::Other => false,
    }
}

/// Classifies a tag byte: accepted if and only if it is in scope for the
/// given message kind.
pub fn check_type(msg_type: LogMessageType, typ: u8) -> (r: bool)
    ensures
        r == check_type_spec(msg_type, typ),
{
    match msg_type {
        LogMessageType::Request => typ == QUERY_SIMPLE_QUERY || typ == QUERY_EXEC,
        LogMessageType::Response => typ == RESP_ERROR || typ == RESP_COMM_COMPLETE || typ
            == RESP_ROW_DESC || typ == RESP_DATA_ROW,
        LogMessageType::Other => false,
    }
}

/// A well-formed, in-scope message frame: at least the five-byte header
/// (one tag byte plus the four-byte length), a recognized tag for the
/// message kind, and a declared length covered by the bytes after the
/// tag (trailing bytes from over-read capture are tolerated).
pub open spec fn valid_frame(payload: Seq<u8>, msg_type: LogMessageType) -> bool {
    &&& payload.len() >= 5
    &&& check_type_spec(msg_type, payload[0])
    &&& payload.len() - 1 >= be_u32(payload.subrange(1, 5))
}

/// A buffer shorter than the five-byte header is never a valid frame,
/// whatever the direction.
pub proof fn lemma_short_buffer_rejected(payload: Seq<u8>, msg_type: LogMessageType)
    requires
        payload.len() < 5,
    ensures
        !valid_frame(payload, msg_type),
{
}

/// A declared length larger than the number of bytes after the tag is
/// never a valid frame, whatever the direction.
pub proof fn lemma_declared_length_rejected(payload: Seq<u8>, msg_type: LogMessageType)
    requires
        payload.len() >= 5,
        be_u32(payload.subrange(1, 5)) > payload.len() - 1,
    ensures
        !valid_frame(payload, msg_type),
{
}

/// The index of the first occurrence of `b` in `s`, if any.
pub open spec fn first_occurrence(s: Seq<u8>, b: u8) -> Option<int>
    decreases s.len(),
{
    if s.len() == 0 {
        None
    } else if s[0] == b {
        Some(0int)
    } else {
        match first_occurrence(s.drop_first(), b) {
            Some(i) => Some(i + 1),
            None => None,
        }
    }
}

/// `first_occurrence` finds the least index holding `b`, and finds none
/// exactly when `b` does not occur.
pub proof fn lemma_first_occurrence(s: Seq<u8>, b: u8)
    ensures
        match first_occurrence(s, b) {
            Some(i) => 0 <= i < s.len() && s[i] == b && (forall|j: int| 0 <= j < i ==> s[j] != b),
            None => forall|j: int| 0 <= j < s.len() ==> s[j] != b,
        },
    decreases s.len(),
{
    if s.len() == 0 {
    } else if s[0] == b {
    } else {
        lemma_first_occurrence(s.drop_first(), b);
        assert(forall|j: int| 1 <= j < s.len() ==> s[j] == s.drop_first()[j - 1]);
    }
}

/// Finds the first occurrence of `b` in `data`.
pub fn position_of(data: &[u8], b: u8) -> (r: Option<usize>)
    ensures
        match r {
            Some(i) => first_occurrence(data@, b) == Some(i as int) && i < data@.len()
                && data@[i as int] == b,
            None => first_occurrence(data@, b) is None,
        },
{
    let mut i: usize = 0;
    while i < data.len()
        invariant
            0 <= i <= data@.len(),
            forall|j: int| 0 <= j < i ==> data@[j] != b,
        decreases data@.len() - i,
    {
        if data[i] == b {
            proof {
                lemma_first_occurrence(data@, b);
            }
            return Some(i);
        }
        i += 1;
    }
    proof {
        lemma_first_occurrence(data@, b);
    }
    None
}

/// What follows the first zero byte of `s`, if `s` holds one: the rest
/// of the buffer once one zero-terminated field is skipped.
pub open spec fn after_first_zero(s: Seq<u8>) -> Option<Seq<u8>> {
    match first_occurrence(s, 0) {
        Some(i) => Some(s.skip(i + 1)),
        None => None,
    }
}

/// The bytes before the first zero byte of `s`, if `s` holds one: one
/// zero-terminated field without its terminator.
pub open spec fn token_before_zero(s: Seq<u8>) -> Option<Seq<u8>> {
    match first_occurrence(s, 0) {
        Some(i) => Some(s.take(i)),
        None => None,
    }
}

/// The error-message bytes of an error-response body: skip exactly two
/// zero-terminated fields, then take the next zero-terminated field.
/// None when fewer than three terminators are found: extraction stops
/// silently and the message stays unset.
pub open spec fn error_message_bytes(body: Seq<u8>) -> Option<Seq<u8>> {
    match after_first_zero(body) {
        Some(rest1) => match after_first_zero(rest1) {
            Some(rest2) => token_before_zero(rest2),
            None => None,
        },
        None => None,
    }
}

/// Skips one zero-terminated field, handing back the bytes after its
/// terminator; None when no terminator is present.
pub fn skip_zero_field<'a>(data: &'a [u8]) -> (r: Option<&'a [u8]>)
    ensures
        r is Some <==> after_first_zero(data@) is Some,
        r is Some ==> r.unwrap()@ == after_first_zero(data@).unwrap(),
{
    let n = data.len();
    match position_of(data, 0) {
        Some(i) => {
            let rest = vstd::slice::slice_subrange(data, i + 1, n);
            proof {
                assert(rest@ =~= data@.skip(i + 1));
            }
            Some(rest)
        },
        None => None,
    }
}

/// Takes one zero-terminated field, without its terminator; None when
/// no terminator is present.
pub fn field_before_zero<'a>(data: &'a [u8]) -> (r: Option<&'a [u8]>)
    ensures
        r is Some <==> token_before_zero(data@) is Some,
        r is Some ==> r.unwrap()@ == token_before_zero(data@).unwrap(),
{
    match position_of(data, 0) {
        Some(i) => {
            let field = vstd::slice::slice_subrange(data, 0, i);
            proof {
                assert(field@ =~= data@.take(i as int));
            }
            Some(field)
        },
        None => None,
    }
}

/// The bytes of the command word INSERT.
pub open spec fn insert_op() -> Seq<u8> {
    seq![0x49u8, 0x4Eu8, 0x53u8, 0x45u8, 0x52u8, 0x54u8]
}

/// The bytes of the command word DELETE.
pub open spec fn delete_op() -> Seq<u8> {
    seq![0x44u8, 0x45u8, 0x4Cu8, 0x45u8, 0x54u8, 0x45u8]
}

/// The bytes of the command word UPDATE.
pub open spec fn update_op() -> Seq<u8> {
    seq![0x55u8, 0x50u8, 0x44u8, 0x41u8, 0x54u8, 0x45u8]
}

/// Whether `op` spells INSERT.
pub fn op_is_insert(op: &[u8]) -> (r: bool)
    ensures
        r == (op@ == insert_op()),
{
    let r = op.len() == 6 && op[0] == 0x49 && op[1] == 0x4E && op[2] == 0x53 && op[3] == 0x45
        && op[4] == 0x52 && op[5] == 0x54;
    proof {
        if r {
            assert(op@ =~= insert_op());
        } else if op@ == insert_op() {
            assert(op@[0] == 0x49 && op@[1] == 0x4E && op@[2] == 0x53 && op@[3] == 0x45 && op@[4]
                == 0x52 && op@[5] == 0x54);
        }
    }
    r
}

/// Whether `op` spells DELETE.
pub fn op_is_delete(op: &[u8]) -> (r: bool)
    ensures
        r == (op@ == delete_op()),
{
    let r = op.len() == 6 && op[0] == 0x44 && op[1] == 0x45 && op[2] == 0x4C && op[3] == 0x45
        && op[4] == 0x54 && op[5] == 0x45;
    proof {
        if r {
            assert(op@ =~= delete_op());
        } else if op@ == delete_op() {
            assert(op@[0] == 0x44 && op@[1] == 0x45 && op@[2] == 0x4C && op@[3] == 0x45 && op@[4]
                == 0x54 && op@[5] == 0x45);
        }
    }
    r
}

/// Whether `op` spells UPDATE.
pub fn op_is_update(op: &[u8]) -> (r: bool)
    ensures
        r == (op@ == update_op()),
{
    let r = op.len() == 6 && op[0] == 0x55 && op[1] == 0x50 && op[2] == 0x44 && op[3] == 0x41
        && op[4] == 0x54 && op[5] == 0x45;
    proof {
        if r {
            assert(op@ =~= update_op());
        } else if op@ == update_op() {
            assert(op@[0] == 0x55 && op@[1] == 0x50 && op@[2] == 0x44 && op@[3] == 0x41 && op@[4]
                == 0x54 && op@[5] == 0x45);
        }
    }
    r
}

/// The token of a command-complete tag that holds the affected-row
/// count, if extraction reaches one. The tag splits at its first space
/// into a command word and a rest: after INSERT the count is the token
/// after one more space (an object id stands before it); after DELETE
/// or UPDATE the rest holds the count directly; any other command word
/// stops extraction. With no space at all the whole tag is taken as the
/// token. The token runs to the next zero byte; without one, extraction
/// stops.
pub open spec fn row_count_token(tag: Seq<u8>) -> Option<Seq<u8>> {
    match first_occurrence(tag, 0x20) {
        Some(i) => {
            let op = tag.take(i);
            let rest = tag.skip(i + 1);
            if op == insert_op() {
                match first_occurrence(rest, 0x20) {
                    Some(j) => token_before_zero(rest.skip(j + 1)),
                    None => None,
                }
            } else if op == delete_op() || op == update_op() {
                token_before_zero(rest)
            } else {
                None
            }
        },
        None => token_before_zero(tag),
    }
}

/// A non-empty run of ASCII decimal digits.
pub open spec fn is_dec_digits(s: Seq<u8>) -> bool {
    s.len() > 0 && (forall|i: int| 0 <= i < s.len() ==> 0x30 <= #[trigger] s[i] <= 0x39)
}

/// The decimal value spelled by a run of digit bytes.
pub open spec fn dec_value(s: Seq<u8>) -> int
    decreases s.len(),
{
    if s.len() == 0 {
        0
    } else {
        dec_value(s.drop_last()) * 10 + (s.last() - 0x30)
    }
}

/// The affected-row count a token parses to: its decimal value when it
/// is a non-empty run of digits whose value fits in a `u64`, and zero
/// otherwise (a numeric-parse failure is never propagated).
pub open spec fn parse_u64_or_zero(s: Seq<u8>) -> u64 {
    if is_dec_digits(s) && dec_value(s) <= u64::MAX {
        dec_value(s) as u64
    } else {
        0
    }
}

/// A run of digit bytes spells a non-negative value.
proof fn lemma_dec_value_nonneg(s: Seq<u8>)
    requires
        forall|i: int| 0 <= i < s.len() ==> 0x30 <= #[trigger] s[i],
    ensures
        dec_value(s) >= 0,
    decreases s.len(),
{
    if s.len() > 0 {
        lemma_dec_value_nonneg(s.drop_last());
    }
}

/// Among runs of digit bytes, a prefix never spells a larger value than
/// the whole.
proof fn lemma_dec_value_prefix(s: Seq<u8>, i: int)
    requires
        0 <= i <= s.len(),
        forall|j: int| 0 <= j < s.len() ==> 0x30 <= #[trigger] s[j] <= 0x39,
    ensures
        dec_value(s.take(i)) <= dec_value(s),
    decreases s.len() - i,
{
    if i < s.len() {
        lemma_dec_value_nonneg(s.take(i));
        assert(s.take(i + 1).drop_last() =~= s.take(i));
        assert(s.take(i + 1).last() == s[i]);
        lemma_dec_value_prefix(s, i + 1);
    } else {
        assert(s.take(i) =~= s);
    }
}

/// Parses a row-count token as an unsigned decimal integer; an empty
/// token, a non-digit byte, or an overflowing value yields zero.
pub fn parse_row_count(tok: &[u8]) -> (r: u64)
    ensures
        r == parse_u64_or_zero(tok@),
{
    let n = tok.len();
    if n == 0 {
        return 0;
    }
    let mut acc: u64 = 0;
    let mut i: usize = 0;
    while i < n
        invariant
            0 <= i <= n,
            n == tok@.len(),
            forall|j: int| 0 <= j < i ==> 0x30 <= #[trigger] tok@[j] <= 0x39,
            acc == dec_value(tok@.take(i as int)),
        decreases n - i,
    {
        let c = tok[i];
        if c < 0x30 || c > 0x39 {
            proof {
                assert(!is_dec_digits(tok@));
            }
            return 0;
        }
        let d = (c - 0x30) as u64;
        let wide: u128 = (acc as u128) * 10 + (d as u128);
        proof {
            assert(tok@.take(i as int + 1).drop_last() =~= tok@.take(i as int));
            assert(tok@.take(i as int + 1).last() == tok@[i as int]);
        }
        if wide > u64::MAX as u128 {
            proof {
                if is_dec_digits(tok@) {
                    lemma_dec_value_prefix(tok@, i as int + 1);
                }
            }
            return 0;
        }
        acc = wide as u64;
        i += 1;
    }
    proof {
        assert(tok@.take(n as int) =~= tok@);
    }
    acc
}

/// Extracts the affected-row count from a command-complete tag: Some
/// with the parsed count when extraction reaches a row-count token
/// (zero on a numeric-parse failure), None when it stops early and the
/// count is to stay at its prior value.
pub fn extract_affected_rows(tag: &[u8]) -> (r: Option<u64>)
    ensures
        r is Some <==> row_count_token(tag@) is Some,
        r is Some ==> r.unwrap() == parse_u64_or_zero(row_count_token(tag@).unwrap()),
{
    let n = tag.len();
    let rest: &[u8];
    match position_of(tag, 0x20) {
        Some(i) => {
            let op = vstd::slice::slice_subrange(tag, 0, i);
            let after = vstd::slice::slice_subrange(tag, i + 1, n);
            proof {
                assert(op@ =~= tag@.take(i as int));
                assert(after@ =~= tag@.skip(i as int + 1));
            }
            if op_is_insert(op) {
                match position_of(after, 0x20) {
                    Some(j) => {
                        rest = vstd::slice::slice_subrange(after, j + 1, after.len());
                        proof {
                            assert(rest@ =~= after@.skip(j as int + 1));
                        }
                    },
                    None => {
                        return None;
                    },
                }
            } else if op_is_delete(op) || op_is_update(op) {
                rest = after;
            } else {
                return None;
            }
        },
        None => {
            rest = tag;
        },
    }
    match field_before_zero(rest) {
        Some(tok) => Some(parse_row_count(tok)),
        None => None,
    }
}

/// Exactly the tags Q and E are accepted on the request side; exactly
/// E, C, T and D on the response side; nothing at all for any other
/// message kind.
pub proof fn lemma_accepted_tags(typ: u8)
    ensures
        check_type_spec(LogMessageType::Request, typ) <==> (typ == QUERY_SIMPLE_QUERY || typ
            == QUERY_EXEC),
        check_type_spec(LogMessageType::Response, typ) <==> (typ == RESP_ERROR || typ
            == RESP_COMM_COMPLETE || typ == RESP_ROW_DESC || typ == RESP_DATA_ROW),
        !check_type_spec(LogMessageType::Other, typ),
{
}

} // verus!

