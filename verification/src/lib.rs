//! Manifest-resolution core of a multi-platform project manager.
//!
//! A project manifest declares a default configuration layer plus
//! platform-conditioned override layers.  This library resolves, for any
//! requested target platform, a single consistent view of that
//! configuration: merged dependency maps per dependency kind, the
//! effective task map, the activation scripts, and the system
//! requirements filtered by platform relevance.

use vstd::prelude::*;

pub mod consts;
pub mod deps;
pub mod feature;
pub mod laws;
pub mod manifest;
pub mod names;
pub mod platform;
pub mod project;
pub mod target;
pub mod system_requirements;
pub mod task;

verus! {

/// The three conda-style dependency classes.  The class determines the
/// manifest section a dependency is read from and its precedence when the
/// per-kind maps are combined into one.
#[derive(Debug, Copy, Clone, PartialEq, Eq, Structural, Hash)]
pub enum SpecType {
    /// Needed by the host environment when running the project.
    Host,
    /// Needed to build the project, possibly not at runtime.
    Build,
    /// Regular dependencies used when running the project.
    Run,
}

impl SpecType {
    /// The manifest section name for this dependency class.
    pub open spec fn spec_name(self) -> Seq<char> {
        match self {
            SpecType::Host => "host-dependencies"@,
            SpecType::Build => "build-dependencies"@,
            SpecType::Run => "dependencies"@,
        }
    }

    /// The manifest section name for this dependency class.
    pub fn name(&self) -> (r: &'static str)
        ensures
            r@ == self.spec_name(),
    {
        match self {
            SpecType::Host => "host-dependencies",
            SpecType::Build => "build-dependencies",
            SpecType::Run => "dependencies",
        }
    }
}


/// The dependency classes a manifest section can declare: one of the three
/// conda-style classes, or the separate PyPI class.
#[derive(Debug, Copy, Clone)]
pub enum DependencyType {
    CondaDependency(SpecType),
    PypiDependency,
}

impl DependencyType {
    /// The manifest section name for this dependency class.
    pub open spec fn spec_name(self) -> Seq<char> {
        match self {
            DependencyType::CondaDependency(dep) => dep.spec_name(),
            DependencyType::PypiDependency => "pypi-dependencies"@,
        }
    }

    /// The manifest section name for this dependency class.
    pub fn name(&self) -> (r: &'static str)
        ensures
            r@ == self.spec_name(),
    {
        match self {
            DependencyType::CondaDependency(dep) => dep.name(),
            DependencyType::PypiDependency => crate::consts::pypi_dependencies_name(),
        }
    }
}

} // verus!
