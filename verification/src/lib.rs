//! Verified core of a secure artifact manager: artifact metadata, the upload,
//! download, scan and listing decisions of the HTTP service, and the decisions
//! of its command-line client.

pub mod text;
pub mod hex;
pub mod digest;
pub mod ident;
pub mod clock;
pub mod metadata;
pub mod reply;
pub mod upload;
pub mod download;
pub mod cli;
pub mod roundtrip;
