//! Field-by-field construction of [`Package`] values.
//!
//! A plain configuration struct with chaining setters: the required fields
//! are given up front, everything else starts from its default and can be
//! set one call at a time.  Convenient for tests and for callers that
//! assemble metadata by hand rather than decoding it.
use vstd::prelude::*;

use crate::dependency::Dependency;
use crate::json::JsonValue;
use crate::Edition;
use crate::Package;
use crate::PackageId;
use crate::PackageView;
use crate::Version;

verus! {

/// A builder for [`Package`], with the required fields fixed at creation.
#[derive(Debug)]
pub struct PackageBuilder {
    name: String,
    version: Version,
    id: PackageId,
    manifest_path: String,
    authors: Vec<String>,
    description: Option<String>,
    dependencies: Vec<Dependency>,
    license: Option<String>,
    license_file: Option<String>,
    categories: Vec<String>,
    keywords: Vec<String>,
    readme: Option<String>,
    repository: Option<String>,
    homepage: Option<String>,
    documentation: Option<String>,
    edition: Edition,
    metadata: JsonValue,
}

impl View for PackageBuilder {
    type V = PackageView;

    closed spec fn view(&self) -> PackageView {
        PackageView {
            name: self.name@,
            version: self.version@,
            authors: self.authors.deep_view(),
            id: self.id@,
            description: self.description.deep_view(),
            dependencies: self.dependencies.deep_view(),
            license: self.license.deep_view(),
            license_file: self.license_file.deep_view(),
            manifest_path: self.manifest_path@,
            categories: self.categories.deep_view(),
            keywords: self.keywords.deep_view(),
            readme: self.readme.deep_view(),
            repository: self.repository.deep_view(),
            homepage: self.homepage.deep_view(),
            documentation: self.documentation.deep_view(),
            edition: self.edition,
            metadata: self.metadata@,
        }
    }
}

impl PackageBuilder {
    /// Construct a new `PackageBuilder` with all required fields.
    pub fn new(name: String, version: Version, id: PackageId, path: String) -> (r: Self)
        ensures
            r@ == (PackageView {
                name: name@,
                version: version@,
                authors: Seq::empty(),
                id: id@,
                description: None,
                dependencies: Seq::empty(),
                license: None,
                license_file: None,
                manifest_path: path@,
                categories: Seq::empty(),
                keywords: Seq::empty(),
                readme: None,
                repository: None,
                homepage: None,
                documentation: None,
                edition: Edition::Wgsl,
                metadata: crate::JsonModel::Null,
            }),
    {
        let r = PackageBuilder {
            name,
            version,
            id,
            manifest_path: path,
            authors: Vec::new(),
            description: None,
            dependencies: Vec::new(),
            license: None,
            license_file: None,
            categories: Vec::new(),
            keywords: Vec::new(),
            readme: None,
            repository: None,
            homepage: None,
            documentation: None,
            edition: Edition::default(),
            metadata: JsonValue::Null,
        };
        proof {
            assert(r@.authors =~= Seq::<Seq<char>>::empty());
            assert(r@.dependencies =~= Seq::<crate::DependencyView>::empty());
            assert(r@.categories =~= Seq::<Seq<char>>::empty());
            assert(r@.keywords =~= Seq::<Seq<char>>::empty());
        }
        r
    }

    /// Set the authors.
    pub fn authors(self, authors: Vec<String>) -> (r: Self)
        ensures
            r@ == (PackageView { authors: authors.deep_view(), ..self@ }),
    {
        PackageBuilder { authors, ..self }
    }

    /// Set the description.
    pub fn description(self, description: String) -> (r: Self)
        ensures
            r@ == (PackageView { description: Some(description@), ..self@ }),
    {
        PackageBuilder { description: Some(description), ..self }
    }

    /// Set the declared dependencies.
    pub fn dependencies(self, dependencies: Vec<Dependency>) -> (r: Self)
        ensures
            r@ == (PackageView { dependencies: dependencies.deep_view(), ..self@ }),
    {
        PackageBuilder { dependencies, ..self }
    }

    /// Set the license.
    pub fn license(self, license: String) -> (r: Self)
        ensures
            r@ == (PackageView { license: Some(license@), ..self@ }),
    {
        PackageBuilder { license: Some(license), ..self }
    }

    /// Set the license file.
    pub fn license_file(self, license_file: String) -> (r: Self)
        ensures
            r@ == (PackageView { license_file: Some(license_file@), ..self@ }),
    {
        PackageBuilder { license_file: Some(license_file), ..self }
    }

    /// Set the categories.
    pub fn categories(self, categories: Vec<String>) -> (r: Self)
        ensures
            r@ == (PackageView { categories: categories.deep_view(), ..self@ }),
    {
        PackageBuilder { categories, ..self }
    }

    /// Set the keywords.
    pub fn keywords(self, keywords: Vec<String>) -> (r: Self)
        ensures
            r@ == (PackageView { keywords: keywords.deep_view(), ..self@ }),
    {
        PackageBuilder { keywords, ..self }
    }

    /// Set the readme.
    pub fn readme(self, readme: String) -> (r: Self)
        ensures
            r@ == (PackageView { readme: Some(readme@), ..self@ }),
    {
        PackageBuilder { readme: Some(readme), ..self }
    }

    /// Set the repository.
    pub fn repository(self, repository: String) -> (r: Self)
        ensures
            r@ == (PackageView { repository: Some(repository@), ..self@ }),
    {
        PackageBuilder { repository: Some(repository), ..self }
    }

    /// Set the homepage.
    pub fn homepage(self, homepage: String) -> (r: Self)
        ensures
            r@ == (PackageView { homepage: Some(homepage@), ..self@ }),
    {
        PackageBuilder { homepage: Some(homepage), ..self }
    }

    /// Set the documentation URL.
    pub fn documentation(self, documentation: String) -> (r: Self)
        ensures
            r@ == (PackageView { documentation: Some(documentation@), ..self@ }),
    {
        PackageBuilder { documentation: Some(documentation), ..self }
    }

    /// Set the edition.
    pub fn edition(self, edition: Edition) -> (r: Self)
        ensures
            r@ == (PackageView { edition: edition, ..self@ }),
    {
        PackageBuilder { edition, ..self }
    }

    /// Set the free-form metadata payload.
    pub fn metadata(self, metadata: JsonValue) -> (r: Self)
        ensures
            r@ == (PackageView { metadata: metadata@, ..self@ }),
    {
        PackageBuilder { metadata, ..self }
    }

    /// Finish: the package with exactly this configuration.
    pub fn build(self) -> (p: Package)
        ensures
            p@ == self@,
    {
        Package {
            name: self.name,
            version: self.version,
            authors: self.authors,
            id: self.id,
            description: self.description,
            dependencies: self.dependencies,
            license: self.license,
            license_file: self.license_file,
            manifest_path: self.manifest_path,
            categories: self.categories,
            keywords: self.keywords,
            readme: self.readme,
            repository: self.repository,
            homepage: self.homepage,
            documentation: self.documentation,
            edition: self.edition,
            metadata: self.metadata,
        }
    }
}

} // verus!
