use wesl_metadata::Dependency;
use wesl_metadata::Edition;
use wesl_metadata::JsonValue;
use wesl_metadata::Metadata;
use wesl_metadata::Node;
use wesl_metadata::NodeDependency;
use wesl_metadata::PackageBuilder;
use wesl_metadata::PackageId;
use wesl_metadata::PackageManager;
use wesl_metadata::Resolve;
use wesl_metadata::Version;

fn version(major: u64, minor: u64, patch: u64) -> Version {
    Version {
        major,
        minor,
        patch,
        pre: String::new(),
        build: String::new(),
    }
}

fn package(name: &str, id: &str, manifest_path: &str) -> wesl_metadata::Package {
    PackageBuilder::new(
        name.to_string(),
        version(1, 0, 0),
        PackageId {
            repr: id.to_string(),
        },
        manifest_path.to_string(),
    )
    .build()
}

#[test]
fn todo() {}

#[test]
fn root_package_uses_resolve_root() {
    let metadata = Metadata {
        package_manager: PackageManager::Npm,
        packages: vec![
            package("a", "id-a", "/w/a/wesl.toml"),
            package("b", "id-b", "/w/b/wesl.toml"),
        ],
        resolve: Some(Resolve {
            nodes: vec![],
            root: Some(PackageId {
                repr: "id-b".to_string(),
            }),
        }),
        target_directory: "/w/target".to_string(),
        version: 1,
        root_package_directory: "/w/a".to_string(),
    };
    let root = metadata.root_package().expect("root package");
    assert_eq!(root.name, "b");
    assert_eq!(root.id.repr, "id-b");
}

#[test]
fn root_package_without_resolve_matches_manifest_path() {
    let metadata = Metadata {
        package_manager: PackageManager::Cargo,
        packages: vec![
            package("dep", "id-dep", "/w/dep/wesl.toml"),
            package("main", "id-main", "/w/main/wesl.toml"),
        ],
        resolve: None,
        target_directory: "/w/target".to_string(),
        version: 1,
        root_package_directory: "/w/main".to_string(),
    };
    let root = metadata.root_package().expect("root package");
    assert_eq!(root.name, "main");
}

#[test]
fn root_package_without_resolve_and_no_match_is_none() {
    let metadata = Metadata {
        package_manager: PackageManager::Cargo,
        packages: vec![package("dep", "id-dep", "/elsewhere/wesl.toml")],
        resolve: None,
        target_directory: "/w/target".to_string(),
        version: 1,
        root_package_directory: "/w/main".to_string(),
    };
    assert!(metadata.root_package().is_none());
}

#[test]
fn root_package_with_dangling_resolve_root_is_none() {
    let metadata = Metadata {
        package_manager: PackageManager::Npm,
        packages: vec![package("a", "id-a", "/w/a/wesl.toml")],
        resolve: Some(Resolve {
            nodes: vec![],
            root: Some(PackageId {
                repr: "id-missing".to_string(),
            }),
        }),
        target_directory: "/w/target".to_string(),
        version: 1,
        root_package_directory: "/w/a".to_string(),
    };
    assert!(metadata.root_package().is_none());
}

#[test]
fn get_package_returns_the_unique_match() {
    let metadata = Metadata {
        package_manager: PackageManager::Npm,
        packages: vec![
            package("a", "id-a", "/w/a/wesl.toml"),
            package("b", "id-b", "/w/b/wesl.toml"),
        ],
        resolve: None,
        target_directory: "/w/target".to_string(),
        version: 1,
        root_package_directory: "/w/a".to_string(),
    };
    let id = PackageId {
        repr: "id-b".to_string(),
    };
    let found = metadata.get_package(&id);
    assert_eq!(found.name, "b");
    assert_eq!(found.id, id);
}

#[test]
fn get_node_returns_the_unique_match() {
    let node_a = Node {
        id: PackageId {
            repr: "id-a".to_string(),
        },
        renamed_dependencies: vec![],
        dependencies: vec![],
    };
    let node_b = Node {
        id: PackageId {
            repr: "id-b".to_string(),
        },
        renamed_dependencies: vec![NodeDependency {
            name: "alias".to_string(),
            pkg: PackageId {
                repr: "id-a".to_string(),
            },
        }],
        dependencies: vec![PackageId {
            repr: "id-a".to_string(),
        }],
    };
    let resolve = Resolve {
        nodes: vec![node_a, node_b],
        root: None,
    };
    let id = PackageId {
        repr: "id-b".to_string(),
    };
    let found = resolve.get_node(&id);
    assert_eq!(found.id, id);
    assert_eq!(found.dependencies.len(), 1);
    assert_eq!(found.renamed_dependencies[0].name, "alias");
}

#[test]
fn license_file_and_readme_join_the_manifest_directory() {
    let built = PackageBuilder::new(
        "lib".to_string(),
        version(0, 3, 1),
        PackageId {
            repr: "id-lib".to_string(),
        },
        "/work/lib/wesl.toml".to_string(),
    )
    .license_file("LICENSE.txt".to_string())
    .readme("README.md".to_string())
    .build();
    assert_eq!(built.license_file(), Some("/work/lib/LICENSE.txt".to_string()));
    assert_eq!(built.readme(), Some("/work/lib/README.md".to_string()));
}

#[test]
fn license_file_absent_means_none() {
    let built = package("lib", "id-lib", "/work/lib/wesl.toml");
    assert_eq!(built.license_file(), None);
    assert_eq!(built.readme(), None);
}

#[test]
fn builder_sets_every_field() {
    let built = PackageBuilder::new(
        "demo".to_string(),
        Version {
            major: 2,
            minor: 1,
            patch: 7,
            pre: "rc.1".to_string(),
            build: "abc".to_string(),
        },
        PackageId {
            repr: "id-demo".to_string(),
        },
        "/p/wesl.toml".to_string(),
    )
    .authors(vec!["A. Author".to_string()])
    .description("a demo".to_string())
    .dependencies(vec![Dependency {
        name: "helper".to_string(),
        rename: Some("h".to_string()),
        path: None,
    }])
    .license("MIT".to_string())
    .categories(vec!["graphics".to_string()])
    .keywords(vec!["shader".to_string()])
    .repository("https://example.org/demo".to_string())
    .homepage("https://example.org".to_string())
    .documentation("https://docs.example.org".to_string())
    .edition(Edition::WeslUnstable2025)
    .metadata(JsonValue::Bool(true))
    .build();
    assert_eq!(built.name, "demo");
    assert_eq!(built.version.pre, "rc.1");
    assert_eq!(built.authors, vec!["A. Author".to_string()]);
    assert_eq!(built.description.as_deref(), Some("a demo"));
    assert_eq!(built.dependencies[0].rename.as_deref(), Some("h"));
    assert_eq!(built.license.as_deref(), Some("MIT"));
    assert_eq!(built.edition, Edition::WeslUnstable2025);
    assert_eq!(built.metadata, JsonValue::Bool(true));
}

#[test]
fn edition_as_str_and_order() {
    assert_eq!(Edition::Wgsl.as_str(), "WGSL");
    assert_eq!(Edition::WeslUnstable2025.as_str(), "WESL");
    assert_eq!(Edition::default(), Edition::Wgsl);
    assert!(Edition::Wgsl < Edition::WeslUnstable2025);
}

#[test]
fn default_true_is_true() {
    assert!(wesl_metadata::default_true());
}
