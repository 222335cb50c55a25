//! Verified core of a repository file downloader.
//!
//! The library resolves a repository URL to an identity, obtains the
//! manifest of files at a revision (with a persistent cache), filters it
//! by a glob pattern, and plans the concurrent download of the selected
//! files.  Network and filesystem access live outside the library; the
//! library computes every URL, cache key, destination path and decision,
//! and states what it computes in contracts.

pub mod engine;
pub mod errors;
pub mod identity;
pub mod manifest;
pub mod pattern;
