//! A single-endpoint HTTP relay that forwards a text prompt to a
//! locally-hosted language-model inference server and returns the generated
//! response.
//!
//! The library holds the whole translation path: validating the client's
//! JSON request, building and encoding the upstream generation request, and
//! translating the upstream reply (or transport failure) into the
//! client-facing status and body. The surrounding binary only moves bytes
//! over HTTP.

pub mod config;
pub mod json;
pub mod relay;
