//! A minimal pastebin core: paste lifecycle and access control.
//!
//! Pastes are created with a random slug and secret, live for a time that
//! shrinks as the content grows, may be locked behind a password by the
//! holder of the secret, and may be deleted by the same holder. Reads are
//! gated by the password once one is set; requests on the structured
//! channel pass a token-bucket admission check first.

pub mod bucket;
pub mod digest;
pub mod error;
pub mod expiry;
pub mod idgen;
pub mod ingest;
pub mod laws;
pub mod paste;
pub mod render;
pub mod service;
pub mod store;
pub mod strutil;
pub mod timestamp;
