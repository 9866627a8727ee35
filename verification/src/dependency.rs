//! The declared (unresolved) dependencies of a package.
use vstd::prelude::*;

verus! {

/// A dependency of the main crate, as declared in its `wesl.toml`.
///
/// This is the unresolved form: it records what the manifest asked for, not
/// which package was selected to satisfy it (see `Resolve` for the latter).
#[derive(Debug, Clone, PartialEq)]
pub struct Dependency {
    /// Name as given in the `wesl.toml`.
    pub name: String,
    /// If the dependency is renamed, this is the new name for the dependency
    /// as a string.  None if it is not renamed.
    pub rename: Option<String>,
    /// The file system path for a local path dependency.
    pub path: Option<String>,
}

/// The mathematical value of a [`Dependency`].
pub struct DependencyView {
    /// The declared name.
    pub name: Seq<char>,
    /// The rename, if any.
    pub rename: Option<Seq<char>>,
    /// The local path, if any.
    pub path: Option<Seq<char>>,
}

impl View for Dependency {
    type V = DependencyView;

    open spec fn view(&self) -> DependencyView {
        DependencyView {
            name: self.name@,
            rename: self.rename.deep_view(),
            path: self.path.deep_view(),
        }
    }
}

impl DeepView for Dependency {
    type V = DependencyView;

    open spec fn deep_view(&self) -> DependencyView {
        self@
    }
}

} // verus!
