//! Credential management and upstream-request logic for a proxy that fronts a
//! cloud file-storage provider: building authenticated requests, classifying
//! upstream responses, normalizing listing payloads, and sanitizing the
//! headers of relayed downloads.

pub mod dropbox;
pub mod headers;
pub mod json;
pub mod laws;
pub mod model;
pub mod text;
pub mod token;
