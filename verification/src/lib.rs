//! gRPC over HTTP/2: framing, status, metadata, deadlines, compression and
//! call dispatch. What its functions return is stated and proved, but for the wrappers
//! of calls into other crates, whose contracts are believed.

pub mod binary;
pub mod client;
pub mod codec;
pub mod codegen;
pub mod conformance;
pub mod content_type;
pub mod encoding;
pub mod expand;
pub mod frame;
pub mod headers;
pub mod interop;
pub mod laws;
pub mod metadata;
pub mod ordered;
pub mod paths;
pub mod server;
pub mod status;
pub mod text;
pub mod timeout;

pub use client::{
    with_service_prefix, BidiConn, GrpcClientConn, ServiceClient, ServiceClientExt, StreamingConn,
    UnaryConn,
};
pub use codec::{Codec, Prost};
pub use encoding::Encoding;
pub use metadata::{Metadata, MetadataError, MetadataValue};
pub use server::dispatch::prepare_grpc_conn;
pub use server::{Channel, GrpcServerConn, RequestStream};
pub use status::{Code, Status};
