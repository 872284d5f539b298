//! Plain enums shared by the decoder: capture direction, message kind,
//! response status, the decoder's error, and the protocol label.

use vstd::prelude::*;

verus! {

/// Direction of one captured segment.
#[derive(Debug, Clone, Copy, PartialEq, Eq, Structural)]
pub enum PacketDirection {
    ClientToServer,
    ServerToClient,
}

/// The logical kind of a decoded message.
#[derive(Debug, Clone, Copy, PartialEq, Eq, Structural)]
pub enum LogMessageType {
    Request,
    Response,
    Other,
}

impl Default for LogMessageType {
    fn default() -> (r: Self)
        ensures
            r == LogMessageType::Other,
    {
        LogMessageType::Other
    }
}

/// Completion status carried on the response side of a record.
#[derive(Debug, Clone, Copy, PartialEq, Eq, Structural)]
pub enum L7ResponseStatus {
    Okay,
    Error,
    Unknown,
}

impl Default for L7ResponseStatus {
    fn default() -> (r: Self)
        ensures
            r == L7ResponseStatus::Okay,
    {
        L7ResponseStatus::Okay
    }
}

/// The one failure the decoder can signal: the payload is not a message
/// of this protocol for the given direction.
#[derive(Debug, Clone, Copy, PartialEq, Eq, Structural)]
pub enum Error {
    L7ProtocolUnknown,
}

/// The protocol this decoder recognizes.
#[derive(Debug, Clone, Copy, PartialEq, Eq, Structural)]
pub enum L7Protocol {
    Postgresql,
}

/// The message kind a direction decodes as.
pub open spec fn direction_msg_type(d: PacketDirection) -> LogMessageType {
    match d {
        PacketDirection::ClientToServer => LogMessageType::Request,
        PacketDirection::ServerToClient => LogMessageType::Response,
    }
}

} // verus!
