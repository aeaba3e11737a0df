//! Client core for a local daemon's administrative HTTP API.
//!
//! The daemon is reached either over a Unix domain socket or over loopback
//! TCP guarded by a shared-secret password.  This crate holds the transport
//! configuration, request construction (including the Basic authorization
//! header), response checking and the two body decoders (JSON payloads and
//! PEM certificate material).  Opening connections and moving bytes is left
//! to the embedding program, which plugs in through [`LocalApiClient`].

pub mod api;
pub mod basic_auth;
pub mod error;
pub mod json;
pub mod pem;
pub mod transport;
pub mod types;

pub use api::LocalApi;
pub use error::Error;
pub use transport::HttpResponse;
pub use transport::LocalApiClient;
pub use transport::RequestHead;
pub use transport::TcpWithPasswordClient;
pub use transport::UnixStreamClient;
