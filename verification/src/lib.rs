//! Core of a federated, wiki-style collaborative article store.
//!
//! Articles evolve through an append-only chain of unified-diff edits,
//! identified by content-addressed versions. Concurrent edits are merged
//! three ways against their common ancestor; unresolved merges are kept in a
//! conflict registry. A small federation layer propagates edits, article
//! creations and follow relationships between peer instances.

pub mod article;
pub mod common;
pub mod diff;
pub mod federation;
pub mod version;
