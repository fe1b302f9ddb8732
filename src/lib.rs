//! Chunking policy of a development-mode bundler: where chunks and static
//! assets go, how they are served, which modules may share a chunk, and how a
//! chunk group is assembled from what the grouping algorithm returns.
pub mod chunk;
pub mod context;
pub mod ident;
pub mod laws;
pub mod path;
