//! A line-delimited JSON-RPC responder for a tiny tool-invocation protocol.
//!
//! The library holds the protocol logic: a structured JSON value with a
//! mathematical model, extraction of a request from a decoded message,
//! routing on the method name and construction of the response. Reading
//! lines, decoding and encoding JSON text and writing to the output stream
//! are left to the caller.
pub mod json;
pub mod protocol;
pub mod dispatch;
pub mod line;
pub mod guarantees;
