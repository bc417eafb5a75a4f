//! A JSON-RPC bridge between a native host and the script runtime of an
//! embedded web view: the message model, the client-side call table and the
//! host-side dispatcher.

pub mod json;
pub mod message;
pub mod client;
pub mod dispatch;
