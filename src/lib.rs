//! Client core for the Rigby JSON-RPC-over-HTTP service: request framing and
//! response interpretation, with the network exchange left to the caller.
pub mod client;
pub mod error;
pub mod json;
pub mod url;

pub use client::Client;
pub use error::SDKError;
