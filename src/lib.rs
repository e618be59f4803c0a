//! A JSON-RPC 2.0 server engine for document-context selection tools.
//!
//! The library holds the protocol logic: line framing, request decoding, the
//! handshake gate, method and tool dispatch, cache-name validation, the domain
//! error taxonomy and the exact wire text of every response. The filesystem
//! probes and the selection engine run outside and hand their findings back.
pub mod config;
pub mod error;
pub mod inspect;
pub mod json;
pub mod listing;
pub mod paths;
pub mod request;
pub mod resolve;
pub mod response;
pub mod server;
pub mod text;
