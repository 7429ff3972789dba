//! Task identifiers and package discovery strategies for a monorepo.

pub mod caching;
pub mod discovery;
pub mod fallback;
pub mod hashes;
pub mod local;
pub mod package_graph;
pub mod package_manager;
pub mod paths;
pub mod task_id;
pub mod task_laws;
pub mod task_operations;
pub mod text;
