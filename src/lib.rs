//! Typed client for the JSON-RPC interface of Bitcoin-family daemons.
//!
//! Every call goes through one dispatch path: its envelope is built by
//! [`calls::Call`], and the daemon's response is resolved by [`dispatch`],
//! which classifies daemon errors into the taxonomy of [`error::ClientError`]
//! before decoding a result into the shape the caller asked for.

pub mod calls;
pub mod dispatch;
pub mod error;
pub mod outside;
pub mod types;
