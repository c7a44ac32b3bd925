//! A local, offline stand-in for a remote source-control content server.
//!
//! The crate answers the batch query protocol of such a server (file, tree and
//! commit content, per-file history, commit-graph traversal, bookmark
//! resolution, relative graph addressing, and graph export for cloning) from a
//! purely local content-addressed store and a local commit-graph index.
//!
//! The store and the commit-graph index are injected collaborators behind the
//! narrow capability traits [`store::Store`] and [`graph::Dag`]; in-memory
//! implementations of both are provided for fixtures and tests.

pub mod api;
pub mod codec;
pub mod debug_fmt;
pub mod error;
pub mod fetch;
pub mod graph;
pub mod history;
pub mod location;
pub mod store;
pub mod types;
