//! RRCP: a small request/response protocol over a multiplexed, stream-oriented
//! transport. One RPC is one length-prefixed binary frame written on a pooled
//! bidirectional stream, answered by one frame on the same stream.
//!
//! This crate holds the protocol core: the fixed-layout frame header and its
//! encode/decode contract, the frame assembly and splitting, the stream pool
//! that keeps a warm supply of pre-opened streams, and the payload
//! configuration lookup. Transport setup and payload serialization are left
//! to the embedding application.

pub mod errors;
pub mod header;
pub mod frame;
pub mod stream_pool;
pub mod message_pack_proto;
