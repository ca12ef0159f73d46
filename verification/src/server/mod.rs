//! The server half.
//!
//! A server takes a request apart in steps: [`dispatch`] validates the headers
//! and negotiates codecs, [`streaming`] reads request messages, and [`body`]
//! turns what a service method returns into a response body with `grpc-status`
//! in its trailers. [`bidi`] covers the one shape that reads while it writes.
//! The transport is left to the caller: every step takes plain values and says
//! what to do next.

pub mod bidi;
pub mod body;
pub mod dispatch;
pub mod grpc_conn;
pub mod streaming;

pub use grpc_conn::GrpcServerConn;
pub use streaming::{Channel, RequestStream};
