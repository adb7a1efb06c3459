//! Dependency resolution and content-addressed library cache of a package
//! manager: version selection, lock handling and cleanup decisions.
pub mod version;
pub mod tree;
pub mod flatten;
pub mod lock;
pub mod management;
pub mod cleanup;
pub mod backend;
pub mod laws;
pub mod digest;
