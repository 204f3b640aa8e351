//! Encoding policies for a MessagePack codec.
//!
//! A policy decides how records, enum variant identifiers and extension
//! values are laid out on the wire, and whether the codec runs in
//! human-readable mode. Policies are zero-cost wrappers that nest: each
//! wrapper answers the questions it cares about and hands every other
//! question to the policy it wraps.
pub mod config;
pub mod error;
pub mod ext;
pub mod laws;
pub mod marker;
pub mod record;
mod sealed;
pub mod wire;
