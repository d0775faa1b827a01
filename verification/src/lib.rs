//! A verified decoder core for a JSON-RPC 2.0 style response object.
//!
//! The decoder consumes the field names of one map-shaped wire message
//! (`jsonrpc`, `id`, and exactly one of `result` / `error`, with unknown
//! fields tolerated) and either builds a response value or reports the
//! first structural violation.  Two key-matching strategies are provided
//! side by side — classification into a closed enumeration, and direct
//! literal matching — and are proved observably equivalent.
//!
//! Pulling the field names and values out of the wire text is the job of
//! an unverified cursor around this crate; the decision logic here is a
//! pure function of the sequence of observed field names.

pub mod decode;
pub mod keys;
pub mod laws;
pub mod response;
