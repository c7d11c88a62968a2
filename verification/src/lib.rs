//! Incremental asset-build pipeline: mirrors a source tree into a build-output
//! tree, applying a per-extension transformation to each file, skipping files
//! whose content is unchanged since the last build, emitting a metadata
//! manifest, and handing the finished tree to an external packaging compiler.

pub mod assoc;
pub mod builder;
pub mod config;
pub mod errors;
pub mod manifest;
pub mod cache;
pub mod paths;
pub mod plua;
pub mod registry;
