//! Filesystem helpers that attach the path and the attempted action to every
//! failure, and decode JSON and TOML content (TOML also into a
//! format-preserving document).
//!
//! The library holds the decisions: which error a failed operation becomes,
//! what its message says, and how file content is decoded. The raw
//! filesystem calls are made by the host program, which hands their outcome
//! to the functions here.
pub mod error;
pub mod messages;
pub mod codec;
pub mod file_util;
pub mod laws;
