//! A gRPC back end for service code generation: from a resolved service
//! description it writes the service trait methods, the four message
//! envelopes, the client and the server dispatcher as Rust source text.
//! The `call` module models what that generated glue does at run time and
//! states the laws it obeys.
pub mod model;
pub mod naming;
pub mod types;
pub mod glue;
pub mod emit;
pub mod call;

pub use model::{MethodDesc, ServiceDesc};
pub use emit::{MkGrpcBackend, VoloGrpcBackend};
