//! A client library for a generative-language HTTP API.
//!
//! The library holds the verified core: conversation state, request
//! building and JSON serialization, response decoding and interpretation,
//! the streaming JSON-array splitter, and the uploaded-file cache. The
//! HTTP transport itself lives outside the library and hands plain
//! values (strings, bytes, status flags) in and out.

pub mod content;
pub mod errors;
pub mod files;
pub mod json;
pub mod models;
pub mod request;
pub mod response;
pub mod session;
pub mod settings;
pub mod stream;
pub mod text;
