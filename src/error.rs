//! Errors of the library.
use vstd::prelude::*;

verus! {

/// What stops a build or rejects a project description.
#[derive(Clone, Debug)]
pub enum BuildError {
    /// A dependency's source directory is absent when it is to be built.
    DependencyMissing { name: String, path: String },
    /// Two dependencies share a name.
    DuplicateDependency { name: String },
    /// Two targets share a name.
    DuplicateTarget { name: String },
}

} // verus!
