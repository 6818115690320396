//! A verified core for a single-shot chat-completion client.
//!
//! The crate builds the outbound request document, reads the credential out
//! of a configuration document, decides what a response status means, and
//! walks an untrusted response document to the answer and the usage block.
//! JSON text is read and written by `serde_json`; everything that happens to
//! a document between those two calls is proved here.

pub mod codec;
pub mod config;
pub mod json;
pub mod request;
pub mod response;
