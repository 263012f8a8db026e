//! Retrieval of a typed configuration document from a remote configuration
//! service: the password is decrypted through a key-management service when it
//! carries the `ENC(...)` wrapper, the fetched document is checked against the
//! requested identity and a recomputed checksum, and the content is parsed
//! into the caller's type.
//!
//! The functions here hold the decisions of that pipeline; the surrounding
//! binary performs the environment reads and the two network calls and hands
//! their outcomes in as plain values.
pub mod errors;
pub mod strutil;
pub mod secret;
pub mod validate;
pub mod parse;
pub mod pipeline;
