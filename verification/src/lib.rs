//! Project-orchestration core of a web-application bundler.
//!
//! The crate builds a logical project model from a root directory and a
//! serialized framework configuration, overlays independently addressed
//! filesystem roots, merges entry-point routes from two sources under a
//! deterministic conflict policy, derives the family of chunking contexts
//! used to group modules into output bundles, and defines the marker module
//! that tags a dynamic-import boundary.

pub mod chunking;
pub mod dynamic;
pub mod fs;
pub mod paths;
pub mod project;
pub mod route;

use vstd::prelude::*;

verus! {

/// The failure kinds this core reports. Everything else (disk I/O, watch
/// delivery, environment loading) propagates from external collaborators.
#[derive(Clone, Copy, Debug, PartialEq, Eq, Structural)]
pub enum ProjectError {
    /// The serialized configuration was rejected by the external parser.
    Config,
    /// `project_path` is not nested under `root_path`.
    Path,
    /// `content()` was called on a marker module that has none.
    Asset,
    /// The module wrapped by a dynamic marker cannot be split into chunks.
    Chunkability,
}

} // verus!
