//! The manifest: the raw source text, the parsed project metadata and the
//! default feature.  Parsing the textual format into this structure is an
//! external collaborator's job; this library consumes the structure.

use vstd::prelude::*;
use crate::feature::{Feature, FeatureView, spec_feature_tasks, spec_has_pypi, task_ref_entries};
use crate::platform::Platform;
use crate::task::Task;

verus! {

/// The parsed project metadata.
pub struct ProjectMetadata {
    pub name: String,
    pub version: Option<String>,
    pub description: Option<String>,
    pub channels: Vec<String>,
    pub platforms: Vec<Platform>,
}

/// The mathematical content of the project metadata.
#[verifier::ext_equal]
pub ghost struct ProjectMetadataView {
    pub name: Seq<char>,
    pub version: Option<Seq<char>>,
    pub description: Option<Seq<char>>,
    pub channels: Seq<Seq<char>>,
    pub platforms: Seq<Platform>,
}

impl View for ProjectMetadata {
    type V = ProjectMetadataView;

    open spec fn view(&self) -> ProjectMetadataView {
        ProjectMetadataView {
            name: self.name@,
            version: self.version.deep_view(),
            description: self.description.deep_view(),
            channels: self.channels.deep_view(),
            platforms: self.platforms@,
        }
    }
}

/// A loaded manifest: its raw text, its metadata and its default feature.
pub struct Manifest {
    contents: String,
    project: ProjectMetadata,
    default_feature: Feature,
}

/// The mathematical content of a manifest.
#[verifier::ext_equal]
pub ghost struct ManifestView {
    pub contents: Seq<char>,
    pub project: ProjectMetadataView,
    pub default_feature: FeatureView,
}

impl View for Manifest {
    type V = ManifestView;

    closed spec fn view(&self) -> ManifestView {
        ManifestView {
            contents: self.contents@,
            project: self.project@,
            default_feature: self.default_feature@,
        }
    }
}

impl ManifestView {
    /// Well-formedness: the default feature is well formed.
    pub open spec fn wf(self) -> bool {
        self.default_feature.wf()
    }
}

impl Manifest {
    /// Assemble a manifest from its parsed parts.
    pub fn new(contents: String, project: ProjectMetadata, default_feature: Feature) -> (m:
        Manifest)
        ensures
            m@ == (ManifestView {
                contents: contents@,
                project: project@,
                default_feature: default_feature@,
            }),
    {
        Manifest { contents, project, default_feature }
    }

    /// The raw source text the manifest was parsed from.
    pub fn contents(&self) -> (r: &String)
        ensures
            r@ == self@.contents,
    {
        &self.contents
    }

    /// The parsed project metadata.
    pub fn project(&self) -> (r: &ProjectMetadata)
        ensures
            r@ == self@.project,
    {
        &self.project
    }

    /// The default feature.
    pub fn default_feature(&self) -> (r: &Feature)
        ensures
            r@ == self@.default_feature,
    {
        &self.default_feature
    }

    /// The effective task map for a request, by override semantics.
    pub fn tasks(&self, platform: Option<Platform>) -> (r: Vec<(&String, &Task)>)
        ensures
            task_ref_entries(r@) == spec_feature_tasks(self@.default_feature, platform),
    {
        self.default_feature.tasks(platform)
    }

    /// Whether any layer of the default feature declares a PyPI dependency.
    pub fn has_pypi_dependencies(&self) -> (r: bool)
        ensures
            r == spec_has_pypi(self@.default_feature),
    {
        self.default_feature.has_pypi_dependencies()
    }
}

} // verus!
