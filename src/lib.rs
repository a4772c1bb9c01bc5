//! Recursive file search: wildcard name and content filters applied over a
//! snapshot of a directory tree, with per-subtree error aggregation.
pub mod pattern;
pub mod tree;
pub mod walk;
pub mod laws;
