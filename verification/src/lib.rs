//! Authenticated, resumable chunked-upload engine for a cloud drive.
//!
//! The library holds the decision logic of the transfer: how a file is cut
//! into fixed-size byte ranges, which headers each range is sent with, how
//! token refresh and retries are driven, and when a transfer is complete or
//! abandoned. The surrounding I/O (HTTP transport, file reads, console
//! output) lives outside the library and only carries these decisions out.

pub mod auth;
pub mod chunk;
pub mod config;
pub mod decimal;
pub mod headers;
pub mod json;
pub mod paths;
pub mod request;
pub mod session;
pub mod uploader;
