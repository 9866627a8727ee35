//! Structured access to the output of `wesl metadata`.
//!
//! The `wesl` tool's `metadata` subcommand prints a single JSON line that
//! describes a package, its declared dependencies, and (optionally) the
//! resolved dependency graph.  This crate builds the invocation, isolates
//! the JSON payload from mixed diagnostic output, and decodes it into a
//! typed, queryable model.
//!
//! Paths are carried as plain UTF-8 strings; joining and parent computation
//! are delegated to `camino`.  Version numbers are validated by `semver` and
//! carried as their components.  JSON syntax is handled by `serde_json`; the
//! schema itself (required fields, defaults, forward compatibility) is this
//! crate's own, verified logic.
use vstd::prelude::*;

pub mod builder;
pub mod command;
pub mod decode;
pub mod dependency;
pub mod encode;
pub mod errors;
pub mod json;
pub mod paths;

pub use builder::PackageBuilder;
pub use command::Invocation;
pub use command::MetadataCommand;
pub use dependency::Dependency;
pub use dependency::DependencyView;
pub use errors::Error;
pub use json::JsonModel;
pub use json::JsonValue;

verus! {

/// An "opaque" identifier for a package.
///
/// It is possible to inspect the `repr` field, if the need arises, but its
/// precise format is an implementation detail and is subject to change.
///
/// `Metadata` can be indexed by `PackageId` through [`Metadata::get_package`].
#[derive(Debug, Clone)]
pub struct PackageId {
    /// The underlying string representation of id.
    pub repr: String,
}

impl View for PackageId {
    type V = Seq<char>;

    open spec fn view(&self) -> Seq<char> {
        self.repr@
    }
}

impl DeepView for PackageId {
    type V = Seq<char>;

    open spec fn deep_view(&self) -> Seq<char> {
        self.repr@
    }
}

impl PartialEq for PackageId {
    fn eq(&self, other: &Self) -> (r: bool) {
        self.repr == other.repr
    }
}

impl vstd::std_specs::cmp::PartialEqSpecImpl for PackageId {
    open spec fn obeys_eq_spec() -> bool {
        true
    }

    open spec fn eq_spec(&self, other: &Self) -> bool {
        self@ == other@
    }
}

/// The package manager used for getting dependencies of the WESL package.
#[derive(Debug, Clone, Copy, PartialEq, Eq, Structural, Hash)]
pub enum PackageManager {
    /// The package manager is `npm`.
    Npm,
    /// The package manager is `cargo`.
    Cargo,
}

/// The WESL edition.
///
/// The set of editions is expected to grow; new values are added here as the
/// tool learns them, and an unknown edition string is a decode error rather
/// than silently mapped to a known value.  The derived ordering follows the
/// declaration order, so editions can be compared for "at least" checks.
#[derive(Debug, Clone, Copy, PartialEq, Eq, Structural, PartialOrd, Ord, Hash)]
pub enum Edition {
    /// WGSL
    Wgsl,
    /// WESL
    WeslUnstable2025,
}

impl Edition {
    /// Return the string representation of the edition.
    pub fn as_str(self) -> (r: &'static str)
        ensures
            self == Edition::Wgsl ==> r@ == spec_edition_wgsl(),
            self == Edition::WeslUnstable2025 ==> r@ == spec_edition_wesl(),
    {
        match self {
            Edition::Wgsl => "WGSL",
            Edition::WeslUnstable2025 => "WESL",
        }
    }
}

/// The characters of the edition string for [`Edition::Wgsl`].
pub open spec fn spec_edition_wgsl() -> Seq<char> {
    "WGSL"@
}

/// The characters of the edition string for [`Edition::WeslUnstable2025`].
pub open spec fn spec_edition_wesl() -> Seq<char> {
    "WESL"@
}

impl Default for Edition {
    /// The edition assumed when a manifest does not name one.
    fn default() -> (r: Self)
        ensures
            r == Edition::Wgsl,
    {
        Edition::Wgsl
    }
}

/// A semantic version, as validated by `semver`: the three numeric
/// components together with the pre-release and build metadata strings
/// (empty when absent).
#[derive(Debug, Clone, PartialEq, Eq, Hash)]
pub struct Version {
    /// The major version.
    pub major: u64,
    /// The minor version.
    pub minor: u64,
    /// The patch version.
    pub patch: u64,
    /// The pre-release identifier, or `""` if there is none.
    pub pre: String,
    /// The build metadata, or `""` if there is none.
    pub build: String,
}

/// The mathematical value of a [`Version`].
pub struct VersionView {
    /// The major version.
    pub major: u64,
    /// The minor version.
    pub minor: u64,
    /// The patch version.
    pub patch: u64,
    /// The pre-release identifier.
    pub pre: Seq<char>,
    /// The build metadata.
    pub build: Seq<char>,
}

impl View for Version {
    type V = VersionView;

    open spec fn view(&self) -> VersionView {
        VersionView {
            major: self.major,
            minor: self.minor,
            patch: self.patch,
            pre: self.pre@,
            build: self.build@,
        }
    }
}

impl DeepView for Version {
    type V = VersionView;

    open spec fn deep_view(&self) -> VersionView {
        self@
    }
}

/// A single target (lib, bin, example, ...) provided by a crate.
#[derive(Debug, Clone, PartialEq)]
pub struct Target {
    /// Name as given in the `wesl.toml` or generated from the file name.
    pub name: String,
    /// This target is built only if these features are enabled.
    /// It doesn't apply to `lib` targets.
    pub required_features: Vec<String>,
    /// Path to the main source file of the target.
    pub src_path: String,
    /// Edition for this target.
    pub edition: Edition,
    /// Whether or not this target has doc tests enabled, and the target is
    /// compatible with doc testing.  Defaults to `true` when the tool is too
    /// old to report it.
    pub doctest: bool,
    /// Whether or not this target is tested by default.  Defaults to `true`
    /// when the tool is too old to report it.
    pub test: bool,
    /// Whether or not this target is documented by default.  Defaults to
    /// `true` when the tool is too old to report it.
    pub doc: bool,
}

/// The mathematical value of a [`Target`].
pub struct TargetView {
    /// The target name.
    pub name: Seq<char>,
    /// The features required to build this target.
    pub required_features: Seq<Seq<char>>,
    /// The main source file.
    pub src_path: Seq<char>,
    /// The edition.
    pub edition: Edition,
    /// Whether doc tests run.
    pub doctest: bool,
    /// Whether tests run.
    pub test: bool,
    /// Whether documentation is built.
    pub doc: bool,
}

impl View for Target {
    type V = TargetView;

    open spec fn view(&self) -> TargetView {
        TargetView {
            name: self.name@,
            required_features: self.required_features.deep_view(),
            src_path: self.src_path@,
            edition: self.edition,
            doctest: self.doctest,
            test: self.test,
            doc: self.doc,
        }
    }
}

impl DeepView for Target {
    type V = TargetView;

    open spec fn deep_view(&self) -> TargetView {
        self@
    }
}

/// The `true` that boolean target flags take when the tool's output predates
/// them.
pub fn default_true() -> (b: bool)
    ensures
        b,
{
    true
}

/// One or more crates described by a single `wesl.toml`.
#[derive(Debug, PartialEq)]
pub struct Package {
    /// The `name` field as given in the `wesl.toml`.
    pub name: String,
    /// The `version` field as given in the `wesl.toml`.
    pub version: Version,
    /// The `authors` field as given in the `wesl.toml`.
    pub authors: Vec<String>,
    /// An opaque identifier for the package.
    pub id: PackageId,
    /// The `description` field as given in the `wesl.toml`.
    pub description: Option<String>,
    /// List of dependencies of this particular package.
    pub dependencies: Vec<dependency::Dependency>,
    /// The `license` field as given in the `wesl.toml`.
    pub license: Option<String>,
    /// The `license-file` field as given in the `wesl.toml`.  If the package
    /// is using a nonstandard license, this key may be given instead of
    /// `license`, and must point to a file relative to the manifest.
    pub license_file: Option<String>,
    /// Path containing the `wesl.toml`.
    pub manifest_path: String,
    /// The `categories` field as given in the `wesl.toml`.
    pub categories: Vec<String>,
    /// The `keywords` field as given in the `wesl.toml`.
    pub keywords: Vec<String>,
    /// The `readme` field as given in the `wesl.toml`.
    pub readme: Option<String>,
    /// The `repository` URL as given in the `wesl.toml`.
    pub repository: Option<String>,
    /// The `homepage` URL as given in the `wesl.toml`.
    pub homepage: Option<String>,
    /// The `documentation` URL as given in the `wesl.toml`.
    pub documentation: Option<String>,
    /// The edition for the package, either as given in the `edition` field
    /// or defaulting to [`Edition::Wgsl`].
    pub edition: Edition,
    /// Contents of the free-form `package.metadata` section: carried, never
    /// interpreted here.
    pub metadata: json::JsonValue,
}

/// The mathematical value of a [`Package`].
pub struct PackageView {
    /// The package name.
    pub name: Seq<char>,
    /// The semantic version.
    pub version: VersionView,
    /// The authors.
    pub authors: Seq<Seq<char>>,
    /// The opaque identifier.
    pub id: Seq<char>,
    /// The description, if any.
    pub description: Option<Seq<char>>,
    /// The declared dependencies.
    pub dependencies: Seq<dependency::DependencyView>,
    /// The license, if any.
    pub license: Option<Seq<char>>,
    /// The license file, if any.
    pub license_file: Option<Seq<char>>,
    /// The manifest path.
    pub manifest_path: Seq<char>,
    /// The categories.
    pub categories: Seq<Seq<char>>,
    /// The keywords.
    pub keywords: Seq<Seq<char>>,
    /// The readme, if any.
    pub readme: Option<Seq<char>>,
    /// The repository, if any.
    pub repository: Option<Seq<char>>,
    /// The homepage, if any.
    pub homepage: Option<Seq<char>>,
    /// The documentation URL, if any.
    pub documentation: Option<Seq<char>>,
    /// The edition.
    pub edition: Edition,
    /// The free-form metadata payload.
    pub metadata: json::JsonModel,
}

impl View for Package {
    type V = PackageView;

    open spec fn view(&self) -> PackageView {
        PackageView {
            name: self.name@,
            version: self.version@,
            authors: self.authors.deep_view(),
            id: self.id@,
            description: self.description.deep_view(),
            dependencies: self.dependencies.deep_view(),
            license: self.license.deep_view(),
            license_file: self.license_file.deep_view(),
            manifest_path: self.manifest_path@,
            categories: self.categories.deep_view(),
            keywords: self.keywords.deep_view(),
            readme: self.readme.deep_view(),
            repository: self.repository.deep_view(),
            homepage: self.homepage.deep_view(),
            documentation: self.documentation.deep_view(),
            edition: self.edition,
            metadata: self.metadata@,
        }
    }
}

impl DeepView for Package {
    type V = PackageView;

    open spec fn deep_view(&self) -> PackageView {
        self@
    }
}

/// The path where a file named relative to a manifest lives: the manifest's
/// directory (or, where the manifest path has no parent, the manifest path
/// itself) with the file adjoined.
pub open spec fn spec_manifest_relative(manifest_path: Seq<char>, file: Seq<char>) -> Seq<char> {
    match paths::parent_path(manifest_path) {
        Some(dir) => paths::joined_path(dir, file),
        None => paths::joined_path(manifest_path, file),
    }
}

impl Package {
    /// Full path to the license file, if one is present in the manifest.
    pub fn license_file(&self) -> (r: Option<String>)
        ensures
            match (r, self@.license_file) {
                (Some(p), Some(f)) => p@ == spec_manifest_relative(self@.manifest_path, f),
                (None, None) => true,
                _ => false,
            },
    {
        match &self.license_file {
            Some(file) => Some(self.manifest_relative(file.as_str())),
            None => None,
        }
    }

    /// Full path to the readme file, if one is present in the manifest.
    pub fn readme(&self) -> (r: Option<String>)
        ensures
            match (r, self@.readme) {
                (Some(p), Some(f)) => p@ == spec_manifest_relative(self@.manifest_path, f),
                (None, None) => true,
                _ => false,
            },
    {
        match &self.readme {
            Some(file) => Some(self.manifest_relative(file.as_str())),
            None => None,
        }
    }

    /// Joins a manifest-relative file name to this package's manifest
    /// directory.
    fn manifest_relative(&self, file: &str) -> (r: String)
        ensures
            r@ == spec_manifest_relative(self@.manifest_path, file@),
    {
        match paths::path_parent(self.manifest_path.as_str()) {
            Some(dir) => paths::path_join(dir.as_str(), file),
            None => paths::path_join(self.manifest_path.as_str(), file),
        }
    }
}

/// A dependency in a node of the resolved graph.
#[derive(Debug, Clone, PartialEq)]
pub struct NodeDependency {
    /// The name of the dependency's library target.
    /// If the crate was renamed, it is the new name.
    pub name: String,
    /// Package ID (opaque unique identifier).
    pub pkg: PackageId,
}

/// The mathematical value of a [`NodeDependency`].
pub struct NodeDependencyView {
    /// The effective (possibly renamed) name.
    pub name: Seq<char>,
    /// The identifier of the package that satisfies it.
    pub pkg: Seq<char>,
}

impl View for NodeDependency {
    type V = NodeDependencyView;

    open spec fn view(&self) -> NodeDependencyView {
        NodeDependencyView { name: self.name@, pkg: self.pkg@ }
    }
}

impl DeepView for NodeDependency {
    type V = NodeDependencyView;

    open spec fn deep_view(&self) -> NodeDependencyView {
        self@
    }
}

/// A node in a dependencies graph.
#[derive(Debug, Clone, PartialEq)]
pub struct Node {
    /// An opaque identifier for a package.
    pub id: PackageId,
    /// Dependencies in a structured format.
    ///
    /// `renamed_dependencies` handles renamed dependencies whereas
    /// `dependencies` does not.
    pub renamed_dependencies: Vec<NodeDependency>,
    /// List of opaque identifiers for this node's dependencies.
    /// It doesn't support renamed dependencies.  See `renamed_dependencies`.
    pub dependencies: Vec<PackageId>,
}

/// The mathematical value of a [`Node`].
pub struct NodeView {
    /// The node's package identifier.
    pub id: Seq<char>,
    /// The edges, with effective names.
    pub renamed_dependencies: Seq<NodeDependencyView>,
    /// The edges, as bare identifiers.
    pub dependencies: Seq<Seq<char>>,
}

impl View for Node {
    type V = NodeView;

    open spec fn view(&self) -> NodeView {
        NodeView {
            id: self.id@,
            renamed_dependencies: self.renamed_dependencies.deep_view(),
            dependencies: self.dependencies.deep_view(),
        }
    }
}

impl DeepView for Node {
    type V = NodeView;

    open spec fn deep_view(&self) -> NodeView {
        self@
    }
}

/// A dependency graph.
#[derive(Debug, Clone, PartialEq)]
pub struct Resolve {
    /// Nodes in a dependencies graph.
    pub nodes: Vec<Node>,
    /// The crate for which the metadata was read.
    pub root: Option<PackageId>,
}

/// The mathematical value of a [`Resolve`].
pub struct ResolveView {
    /// The nodes.
    pub nodes: Seq<NodeView>,
    /// The root package's identifier, if resolution identified one.
    pub root: Option<Seq<char>>,
}

impl View for Resolve {
    type V = ResolveView;

    open spec fn view(&self) -> ResolveView {
        ResolveView { nodes: self.nodes.deep_view(), root: self.root.deep_view() }
    }
}

impl DeepView for Resolve {
    type V = ResolveView;

    open spec fn deep_view(&self) -> ResolveView {
        self@
    }
}

/// Starting point for metadata returned by `wesl metadata`.
#[derive(Debug, PartialEq)]
pub struct Metadata {
    /// The package manager of this package (for getting dependency packages).
    pub package_manager: PackageManager,
    /// A list of all crates referenced by this crate (and the crate itself).
    pub packages: Vec<Package>,
    /// Dependencies graph.
    pub resolve: Option<Resolve>,
    /// Target directory.
    pub target_directory: String,
    /// The metadata format version.
    pub version: usize,
    /// The directory of the root package.
    pub root_package_directory: String,
}

/// The mathematical value of a [`Metadata`].
pub struct MetadataView {
    /// The package manager.
    pub package_manager: PackageManager,
    /// All packages, in the order the tool emitted them.
    pub packages: Seq<PackageView>,
    /// The resolved graph, when resolution was requested.
    pub resolve: Option<ResolveView>,
    /// The target directory.
    pub target_directory: Seq<char>,
    /// The metadata format version.
    pub version: usize,
    /// The root package's directory.
    pub root_package_directory: Seq<char>,
}

impl View for Metadata {
    type V = MetadataView;

    open spec fn view(&self) -> MetadataView {
        MetadataView {
            package_manager: self.package_manager,
            packages: self.packages.deep_view(),
            resolve: self.resolve.deep_view(),
            target_directory: self.target_directory@,
            version: self.version,
            root_package_directory: self.root_package_directory@,
        }
    }
}

impl DeepView for Metadata {
    type V = MetadataView;

    open spec fn deep_view(&self) -> MetadataView {
        self@
    }
}

/// The position of the first package whose id is `id`, if any.
pub open spec fn find_pkg(pkgs: Seq<PackageView>, id: Seq<char>) -> Option<int>
    decreases pkgs.len(),
{
    if pkgs.len() == 0 {
        None
    } else if pkgs[0].id == id {
        Some(0int)
    } else {
        match find_pkg(pkgs.drop_first(), id) {
            Some(i) => Some(i + 1),
            None => None,
        }
    }
}

/// The position of the first package whose manifest path is `manifest`, if
/// any.
pub open spec fn find_pkg_by_manifest(pkgs: Seq<PackageView>, manifest: Seq<char>) -> Option<int>
    decreases pkgs.len(),
{
    if pkgs.len() == 0 {
        None
    } else if pkgs[0].manifest_path == manifest {
        Some(0int)
    } else {
        match find_pkg_by_manifest(pkgs.drop_first(), manifest) {
            Some(i) => Some(i + 1),
            None => None,
        }
    }
}

/// The position of the first node whose id is `id`, if any.
pub open spec fn find_node(nodes: Seq<NodeView>, id: Seq<char>) -> Option<int>
    decreases nodes.len(),
{
    if nodes.len() == 0 {
        None
    } else if nodes[0].id == id {
        Some(0int)
    } else {
        match find_node(nodes.drop_first(), id) {
            Some(i) => Some(i + 1),
            None => None,
        }
    }
}

/// The name of the manifest file that every package directory carries.
pub open spec fn spec_manifest_file_name() -> Seq<char> {
    "wesl.toml"@
}

/// The root package of a metadata value: with a resolved graph, the package
/// the graph's root id names; without one, the package whose manifest path
/// is the root package directory with the manifest file name adjoined.
pub open spec fn spec_root_package(m: MetadataView) -> Option<PackageView> {
    match m.resolve {
        Some(resolve) => match resolve.root {
            Some(root) => match find_pkg(m.packages, root) {
                Some(i) => Some(m.packages[i]),
                None => None,
            },
            None => None,
        },
        None => match find_pkg_by_manifest(
            m.packages,
            paths::joined_path(m.root_package_directory, spec_manifest_file_name()),
        ) {
            Some(i) => Some(m.packages[i]),
            None => None,
        },
    }
}

impl Metadata {
    /// Get the root package of this metadata instance.
    ///
    /// When the dependency graph was resolved, the graph's own answer is
    /// used; otherwise the package whose manifest sits in the root package
    /// directory is located by its path.
    pub fn root_package(&self) -> (r: Option<&Package>)
        ensures
            match (r, spec_root_package(self@)) {
                (Some(p), Some(pv)) => p@ == pv,
                (None, None) => true,
                _ => false,
            },
    {
        match &self.resolve {
            Some(resolve) => {
                match &resolve.root {
                    Some(root) => find_package_by_id(&self.packages, root),
                    None => None,
                }
            },
            None => {
                let manifest = paths::path_join(
                    self.root_package_directory.as_str(),
                    "wesl.toml",
                );
                find_package_by_manifest(&self.packages, &manifest)
            },
        }
    }

    /// The unique package with the given id.
    ///
    /// Indexing with an id that is not present is a contract violation on
    /// the caller's side and halts the program; ids must come from this
    /// same metadata value.
    pub fn get_package(&self, id: &PackageId) -> (r: &Package)
        requires
            find_pkg(self@.packages, id@) is Some,
        ensures
            r@ == self@.packages[find_pkg(self@.packages, id@)->0],
            r@.id == id@,
    {
        match find_package_by_id(&self.packages, id) {
            Some(p) => {
                proof {
                    lemma_find_pkg_characterises(self@.packages, id@);
                }
                p
            },
            None => vstd::pervasive::unreached(),
        }
    }
}

impl Resolve {
    /// The unique node with the given id.
    ///
    /// Indexing with an id that is not present is a contract violation on
    /// the caller's side and halts the program; ids must come from this
    /// same resolve value.
    pub fn get_node(&self, id: &PackageId) -> (r: &Node)
        requires
            find_node(self@.nodes, id@) is Some,
        ensures
            r@ == self@.nodes[find_node(self@.nodes, id@)->0],
            r@.id == id@,
    {
        let n = self.nodes.len();
        let mut i: usize = 0;
        while i < n
            invariant
                i <= n,
                n == self@.nodes.len(),
                self@.nodes =~= self.nodes.deep_view(),
                forall|k: int| 0 <= k < i ==> self@.nodes[k].id != id@,
                find_node(self@.nodes, id@) is Some,
            decreases n - i,
        {
            if self.nodes[i].id == *id {
                proof {
                    lemma_find_node_first(self@.nodes, id@, i as int);
                    lemma_find_node_characterises(self@.nodes, id@);
                }
                return &self.nodes[i];
            }
            i = i + 1;
        }
        proof {
            lemma_find_node_none(self@.nodes, id@);
        }
        vstd::pervasive::unreached()
    }
}

/// Searches a package list for the first entry with the given id.
fn find_package_by_id<'a>(packages: &'a Vec<Package>, id: &PackageId) -> (r: Option<&'a Package>)
    ensures
        match (r, find_pkg(packages.deep_view(), id@)) {
            (Some(p), Some(i)) => p@ == packages.deep_view()[i] && p@.id == id@,
            (None, None) => true,
            _ => false,
        },
{
    let n = packages.len();
    let mut i: usize = 0;
    while i < n
        invariant
            i <= n,
            n == packages.deep_view().len(),
            forall|k: int| 0 <= k < i ==> packages.deep_view()[k].id != id@,
        decreases n - i,
    {
        if packages[i].id == *id {
            proof {
                lemma_find_pkg_first(packages.deep_view(), id@, i as int);
            }
            return Some(&packages[i]);
        }
        i = i + 1;
    }
    proof {
        lemma_find_pkg_none(packages.deep_view(), id@);
    }
    None
}

/// Searches a package list for the first entry with the given manifest path.
fn find_package_by_manifest<'a>(packages: &'a Vec<Package>, manifest: &String) -> (r: Option<
    &'a Package,
>)
    ensures
        match (r, find_pkg_by_manifest(packages.deep_view(), manifest@)) {
            (Some(p), Some(i)) => p@ == packages.deep_view()[i],
            (None, None) => true,
            _ => false,
        },
{
    let n = packages.len();
    let mut i: usize = 0;
    while i < n
        invariant
            i <= n,
            n == packages.deep_view().len(),
            forall|k: int| 0 <= k < i ==> packages.deep_view()[k].manifest_path != manifest@,
        decreases n - i,
    {
        if packages[i].manifest_path == *manifest {
            proof {
                lemma_find_pkg_by_manifest_first(packages.deep_view(), manifest@, i as int);
            }
            return Some(&packages[i]);
        }
        i = i + 1;
    }
    proof {
        lemma_find_pkg_by_manifest_none(packages.deep_view(), manifest@);
    }
    None
}

/// Where an entry with the sought id exists at `i` and nowhere earlier, the
/// search finds exactly `i`.
proof fn lemma_find_pkg_first(pkgs: Seq<PackageView>, id: Seq<char>, i: int)
    requires
        0 <= i < pkgs.len(),
        pkgs[i].id == id,
        forall|k: int| 0 <= k < i ==> pkgs[k].id != id,
    ensures
        find_pkg(pkgs, id) == Some(i),
    decreases i,
{
    if i == 0 {
    } else {
        assert(pkgs.drop_first()[i - 1] == pkgs[i]);
        assert(forall|k: int| 0 <= k < i - 1 ==> pkgs.drop_first()[k] == pkgs[k + 1]);
        lemma_find_pkg_first(pkgs.drop_first(), id, i - 1);
    }
}

/// Where no entry has the sought id, the search finds nothing.
proof fn lemma_find_pkg_none(pkgs: Seq<PackageView>, id: Seq<char>)
    requires
        forall|k: int| 0 <= k < pkgs.len() ==> pkgs[k].id != id,
    ensures
        find_pkg(pkgs, id) is None,
    decreases pkgs.len(),
{
    if pkgs.len() == 0 {
    } else {
        assert(forall|k: int|
            0 <= k < pkgs.drop_first().len() ==> pkgs.drop_first()[k] == pkgs[k + 1]);
        lemma_find_pkg_none(pkgs.drop_first(), id);
    }
}

/// What a successful search means: the entry found carries the sought id and
/// no earlier entry does.
pub proof fn lemma_find_pkg_characterises(pkgs: Seq<PackageView>, id: Seq<char>)
    ensures
        match find_pkg(pkgs, id) {
            Some(i) => 0 <= i < pkgs.len() && pkgs[i].id == id && (forall|k: int|
                0 <= k < i ==> pkgs[k].id != id),
            None => forall|k: int| 0 <= k < pkgs.len() ==> pkgs[k].id != id,
        },
    decreases pkgs.len(),
{
    if pkgs.len() == 0 {
    } else if pkgs[0].id == id {
    } else {
        lemma_find_pkg_characterises(pkgs.drop_first(), id);
        match find_pkg(pkgs.drop_first(), id) {
            Some(j) => {
                assert(pkgs.drop_first()[j] == pkgs[j + 1]);
                assert forall|k: int| 0 <= k < j + 1 implies pkgs[k].id != id by {
                    if k > 0 {
                        assert(pkgs.drop_first()[k - 1] == pkgs[k]);
                    }
                }
            },
            None => {
                assert forall|k: int| 0 <= k < pkgs.len() implies pkgs[k].id != id by {
                    if k > 0 {
                        assert(pkgs.drop_first()[k - 1] == pkgs[k]);
                    }
                }
            },
        }
    }
}

/// As [`lemma_find_pkg_first`], for the manifest-path search.
proof fn lemma_find_pkg_by_manifest_first(pkgs: Seq<PackageView>, manifest: Seq<char>, i: int)
    requires
        0 <= i < pkgs.len(),
        pkgs[i].manifest_path == manifest,
        forall|k: int| 0 <= k < i ==> pkgs[k].manifest_path != manifest,
    ensures
        find_pkg_by_manifest(pkgs, manifest) == Some(i),
    decreases i,
{
    if i == 0 {
    } else {
        assert(pkgs.drop_first()[i - 1] == pkgs[i]);
        assert(forall|k: int| 0 <= k < i - 1 ==> pkgs.drop_first()[k] == pkgs[k + 1]);
        lemma_find_pkg_by_manifest_first(pkgs.drop_first(), manifest, i - 1);
    }
}

/// As [`lemma_find_pkg_none`], for the manifest-path search.
proof fn lemma_find_pkg_by_manifest_none(pkgs: Seq<PackageView>, manifest: Seq<char>)
    requires
        forall|k: int| 0 <= k < pkgs.len() ==> pkgs[k].manifest_path != manifest,
    ensures
        find_pkg_by_manifest(pkgs, manifest) is None,
    decreases pkgs.len(),
{
    if pkgs.len() == 0 {
    } else {
        assert(forall|k: int|
            0 <= k < pkgs.drop_first().len() ==> pkgs.drop_first()[k] == pkgs[k + 1]);
        lemma_find_pkg_by_manifest_none(pkgs.drop_first(), manifest);
    }
}

/// As [`lemma_find_pkg_first`], for nodes.
proof fn lemma_find_node_first(nodes: Seq<NodeView>, id: Seq<char>, i: int)
    requires
        0 <= i < nodes.len(),
        nodes[i].id == id,
        forall|k: int| 0 <= k < i ==> nodes[k].id != id,
    ensures
        find_node(nodes, id) == Some(i),
    decreases i,
{
    if i == 0 {
    } else {
        assert(nodes.drop_first()[i - 1] == nodes[i]);
        assert(forall|k: int| 0 <= k < i - 1 ==> nodes.drop_first()[k] == nodes[k + 1]);
        lemma_find_node_first(nodes.drop_first(), id, i - 1);
    }
}

/// As [`lemma_find_pkg_none`], for nodes.
proof fn lemma_find_node_none(nodes: Seq<NodeView>, id: Seq<char>)
    requires
        forall|k: int| 0 <= k < nodes.len() ==> nodes[k].id != id,
    ensures
        find_node(nodes, id) is None,
    decreases nodes.len(),
{
    if nodes.len() == 0 {
    } else {
        assert(forall|k: int|
            0 <= k < nodes.drop_first().len() ==> nodes.drop_first()[k] == nodes[k + 1]);
        lemma_find_node_none(nodes.drop_first(), id);
    }
}

/// As [`lemma_find_pkg_characterises`], for nodes.
pub proof fn lemma_find_node_characterises(nodes: Seq<NodeView>, id: Seq<char>)
    ensures
        match find_node(nodes, id) {
            Some(i) => 0 <= i < nodes.len() && nodes[i].id == id && (forall|k: int|
                0 <= k < i ==> nodes[k].id != id),
            None => forall|k: int| 0 <= k < nodes.len() ==> nodes[k].id != id,
        },
    decreases nodes.len(),
{
    if nodes.len() == 0 {
    } else if nodes[0].id == id {
    } else {
        lemma_find_node_characterises(nodes.drop_first(), id);
        match find_node(nodes.drop_first(), id) {
            Some(j) => {
                assert(nodes.drop_first()[j] == nodes[j + 1]);
                assert forall|k: int| 0 <= k < j + 1 implies nodes[k].id != id by {
                    if k > 0 {
                        assert(nodes.drop_first()[k - 1] == nodes[k]);
                    }
                }
            },
            None => {
                assert forall|k: int| 0 <= k < nodes.len() implies nodes[k].id != id by {
                    if k > 0 {
                        assert(nodes.drop_first()[k - 1] == nodes[k]);
                    }
                }
            },
        }
    }
}

/// No two packages share an id.
pub open spec fn distinct_package_ids(pkgs: Seq<PackageView>) -> bool {
    forall|i: int, j: int|
        0 <= i < j < pkgs.len() ==> (#[trigger] pkgs[i].id) != (#[trigger] pkgs[j].id)
}

/// No two nodes share an id.
pub open spec fn distinct_node_ids(nodes: Seq<NodeView>) -> bool {
    forall|i: int, j: int|
        0 <= i < j < nodes.len() ==> (#[trigger] nodes[i].id) != (#[trigger] nodes[j].id)
}

/// Whether an id has an entry in the package list.
pub open spec fn id_present(pkgs: Seq<PackageView>, id: Seq<char>) -> bool {
    exists|i: int| 0 <= i < pkgs.len() && (#[trigger] pkgs[i].id) == id
}

/// A well-formed resolved graph over a package list: node ids are
/// distinct, and every id the graph mentions — the root, each node, each
/// edge — has an entry in the package list.
pub open spec fn wf_resolve(g: ResolveView, pkgs: Seq<PackageView>) -> bool {
    &&& distinct_node_ids(g.nodes)
    &&& match g.root {
        Some(root) => id_present(pkgs, root),
        None => true,
    }
    &&& forall|i: int| 0 <= i < g.nodes.len() ==> id_present(pkgs, (#[trigger] g.nodes[i]).id)
    &&& forall|i: int, k: int|
        0 <= i < g.nodes.len() && 0 <= k < g.nodes[i].dependencies.len() ==> id_present(
            pkgs,
            #[trigger] g.nodes[i].dependencies[k],
        )
    &&& forall|i: int, k: int|
        0 <= i < g.nodes.len() && 0 <= k < g.nodes[i].renamed_dependencies.len() ==> id_present(
            pkgs,
            (#[trigger] g.nodes[i].renamed_dependencies[k]).pkg,
        )
}

/// A well-formed metadata value: package ids are distinct and, where a
/// resolved graph is present, every id it references has an entry in the
/// package list (a lookup miss is a programmer error, never data).
pub open spec fn wf_metadata(m: MetadataView) -> bool {
    &&& distinct_package_ids(m.packages)
    &&& match m.resolve {
        Some(g) => wf_resolve(g, m.packages),
        None => true,
    }
}

/// Indexing by an id known to be present returns the unique structural
/// match: in a well-formed package list the search finds exactly the
/// position that carries the id.
pub proof fn lemma_get_package_unique(m: MetadataView, i: int)
    requires
        wf_metadata(m),
        0 <= i < m.packages.len(),
    ensures
        find_pkg(m.packages, m.packages[i].id) == Some(i),
{
    lemma_find_pkg_characterises(m.packages, m.packages[i].id);
    match find_pkg(m.packages, m.packages[i].id) {
        Some(k) => {
            if k < i {
                assert(m.packages[k].id != m.packages[i].id);
            }
        },
        None => {
            assert(m.packages[i].id == m.packages[i].id);
        },
    }
}

/// As [`lemma_get_package_unique`], for the nodes of a resolved graph.
pub proof fn lemma_get_node_unique(g: ResolveView, i: int)
    requires
        distinct_node_ids(g.nodes),
        0 <= i < g.nodes.len(),
    ensures
        find_node(g.nodes, g.nodes[i].id) == Some(i),
{
    lemma_find_node_characterises(g.nodes, g.nodes[i].id);
    match find_node(g.nodes, g.nodes[i].id) {
        Some(k) => {
            if k < i {
                assert(g.nodes[k].id != g.nodes[i].id);
            }
        },
        None => {
            assert(g.nodes[i].id == g.nodes[i].id);
        },
    }
}

/// With a resolved graph whose root is an id present in the package list,
/// the root package is exactly the package carrying that id.
pub proof fn lemma_root_package_resolved(m: MetadataView, i: int)
    requires
        wf_metadata(m),
        m.resolve is Some,
        m.resolve->0.root is Some,
        0 <= i < m.packages.len(),
        m.packages[i].id == m.resolve->0.root->0,
    ensures
        spec_root_package(m) == Some(m.packages[i]),
{
    lemma_get_package_unique(m, i);
}

/// Without a resolved graph, the root package is the one whose manifest
/// path is the root package directory with the manifest file name
/// adjoined.
pub proof fn lemma_root_package_unresolved(m: MetadataView, i: int)
    requires
        m.resolve is None,
        0 <= i < m.packages.len(),
        m.packages[i].manifest_path == paths::joined_path(
            m.root_package_directory,
            spec_manifest_file_name(),
        ),
        forall|k: int|
            0 <= k < i ==> (#[trigger] m.packages[k]).manifest_path != paths::joined_path(
                m.root_package_directory,
                spec_manifest_file_name(),
            ),
    ensures
        spec_root_package(m) == Some(m.packages[i]),
{
    lemma_find_pkg_by_manifest_first(
        m.packages,
        paths::joined_path(m.root_package_directory, spec_manifest_file_name()),
        i,
    );
}

/// Without a resolved graph, where no package's manifest path matches,
/// there is no root package.
pub proof fn lemma_root_package_unresolved_none(m: MetadataView)
    requires
        m.resolve is None,
        forall|k: int|
            0 <= k < m.packages.len() ==> (#[trigger] m.packages[k]).manifest_path
                != paths::joined_path(m.root_package_directory, spec_manifest_file_name()),
    ensures
        spec_root_package(m) is None,
{
    lemma_find_pkg_by_manifest_none(
        m.packages,
        paths::joined_path(m.root_package_directory, spec_manifest_file_name()),
    );
}

/// An id with an entry can be indexed: presence makes the search succeed,
/// so a well-formed graph's references can always be resolved with
/// [`Metadata::get_package`].
pub proof fn lemma_id_present_findable(pkgs: Seq<PackageView>, id: Seq<char>)
    requires
        id_present(pkgs, id),
    ensures
        find_pkg(pkgs, id) is Some,
{
    lemma_find_pkg_characterises(pkgs, id);
    if find_pkg(pkgs, id) is None {
        let i = choose|i: int| 0 <= i < pkgs.len() && (#[trigger] pkgs[i].id) == id;
        assert(pkgs[i].id != id);
    }
}

/// As [`lemma_id_present_findable`], for the nodes of a resolved graph.
pub proof fn lemma_node_present_findable(nodes: Seq<NodeView>, id: Seq<char>)
    requires
        exists|i: int| 0 <= i < nodes.len() && (#[trigger] nodes[i].id) == id,
    ensures
        find_node(nodes, id) is Some,
{
    lemma_find_node_characterises(nodes, id);
    if find_node(nodes, id) is None {
        let i = choose|i: int| 0 <= i < nodes.len() && (#[trigger] nodes[i].id) == id;
        assert(nodes[i].id != id);
    }
}

} // verus!

