//! A mail-submission client core: address lists are split and parsed into
//! mailboxes, an envelope is built from them, and the answer of a relay is
//! classed into one result.
pub mod address;
pub mod envelope;
pub mod error;
pub mod laws;
pub mod service;
pub mod text;
