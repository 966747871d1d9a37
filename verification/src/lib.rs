//! Verified core of a JSON submission spool service.
//!
//! The library holds the intake and state-tracking pipeline: identifier
//! generation and validation, the bearer-credential check, the response
//! envelope, the spool path scheme, the four-location state resolver and
//! the metrics exposition text. Process bootstrap, the HTTP transport and
//! the filesystem writes live outside the library.

pub mod auth;
pub mod chars;
pub mod envelope;
pub mod ident;
pub mod laws;
pub mod metrics;
pub mod numfmt;
pub mod spool;
pub mod status;
pub mod strutil;
pub mod submit;
