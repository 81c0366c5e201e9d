//! A content-addressed cache for single files extracted from remote git
//! repositories.
//!
//! A request names a repository URL, an optional branch/tag/commit selector,
//! and a file path. The library derives a stable cache-key prefix from those
//! inputs, decides how the selector is resolved to a concrete commit, checks
//! a directory listing of previously cached snippets for a fresh record, and
//! plans the minimal fetch and store update when a refresh is needed. All
//! network and filesystem work is performed by the surrounding application;
//! the decisions it follows are made here.

pub mod digest;
pub mod orchestrator;
pub mod resolve;
pub mod selector;
pub mod snippet;
pub mod store;
pub mod strutil;
