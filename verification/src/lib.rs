//! A stateless decoder for the PostgreSQL wire protocol's message-tag
//! framing, extracting observability metadata (query text, completion
//! status, error detail, affected-row counts) from captured client/server
//! byte streams.

pub mod codec;
pub mod info;
pub mod log;
pub mod text;
pub mod types;
