//! A verified HTTP/1.x protocol core: wire-level parsing of requests,
//! routing decisions, response construction and serialization, and the
//! keep-alive session state machine. Socket and file I/O live outside
//! this crate; callers hand in raw bytes and file contents and carry
//! out the file actions that routing asks for.

pub mod bytes;
pub mod headers;
pub mod laws;
pub mod method;
pub mod num;
pub mod reader;
pub mod request;
pub mod response;
pub mod session;
pub mod status;
pub mod tokens;
pub mod version;
