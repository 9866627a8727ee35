use wesl_metadata::json::parse_json;
use wesl_metadata::Edition;
use wesl_metadata::Error;
use wesl_metadata::JsonValue;
use wesl_metadata::Metadata;
use wesl_metadata::MetadataCommand;
use wesl_metadata::Node;
use wesl_metadata::PackageManager;
use wesl_metadata::Target;

fn json(text: &str) -> JsonValue {
    let chars: Vec<char> = text.chars().collect();
    parse_json(&chars).expect("valid JSON")
}

const MINIMAL: &str = r#"{"package_manager":"Npm","packages":[],"resolve":null,"target_directory":"/t","version":1,"root_package_directory":"/r"}"#;

const FULL: &str = r#"{
 "package_manager":"Cargo",
 "packages":[{
   "name":"demo",
   "version":"1.2.3-alpha.1+build.5",
   "authors":["A. Author"],
   "id":"id-demo",
   "description":"a demo",
   "dependencies":[{"name":"helper","rename":"h","path":"../helper"}],
   "license":"MIT",
   "manifest_path":"/w/demo/wesl.toml",
   "keywords":["shader"],
   "edition":"WESL",
   "metadata":{"docs":{"all-features":true}},
   "unknown_key":"ignored"
 }],
 "resolve":{"nodes":[{"id":"id-demo","dependencies":["id-helper"],
   "renamed_dependencies":[{"name":"h","pkg":"id-helper"}]}],"root":"id-demo"},
 "target_directory":"/w/target",
 "version":1,
 "root_package_directory":"/w/demo"
}"#;

#[test]
fn parse_minimal_document() {
    let text: String = MINIMAL.lines().collect::<Vec<_>>().join("");
    let metadata = MetadataCommand::parse(&text).expect("parses");
    assert_eq!(metadata.package_manager, PackageManager::Npm);
    assert!(metadata.packages.is_empty());
    assert!(metadata.resolve.is_none());
    assert_eq!(metadata.target_directory, "/t");
    assert_eq!(metadata.version, 1);
    assert_eq!(metadata.root_package_directory, "/r");
}

#[test]
fn parse_full_document() {
    let metadata = MetadataCommand::parse(&FULL.replace('\n', " ")).expect("parses");
    assert_eq!(metadata.package_manager, PackageManager::Cargo);
    let p = &metadata.packages[0];
    assert_eq!(p.name, "demo");
    assert_eq!(p.version.major, 1);
    assert_eq!(p.version.minor, 2);
    assert_eq!(p.version.patch, 3);
    assert_eq!(p.version.pre, "alpha.1");
    assert_eq!(p.version.build, "build.5");
    assert_eq!(p.authors, vec!["A. Author".to_string()]);
    assert_eq!(p.description.as_deref(), Some("a demo"));
    assert_eq!(p.dependencies[0].name, "helper");
    assert_eq!(p.dependencies[0].rename.as_deref(), Some("h"));
    assert_eq!(p.dependencies[0].path.as_deref(), Some("../helper"));
    assert_eq!(p.license.as_deref(), Some("MIT"));
    assert!(p.license_file.is_none());
    assert_eq!(p.edition, Edition::WeslUnstable2025);
    let resolve = metadata.resolve.as_ref().expect("resolve");
    assert_eq!(resolve.root.as_ref().map(|id| id.repr.as_str()), Some("id-demo"));
    let node = &resolve.nodes[0];
    assert_eq!(node.dependencies[0].repr, "id-helper");
    assert_eq!(node.renamed_dependencies[0].name, "h");
    assert_eq!(node.renamed_dependencies[0].pkg.repr, "id-helper");
}

#[test]
fn round_trip_through_json() {
    let first = MetadataCommand::parse(&FULL.replace('\n', " ")).expect("parses");
    let tree = first.to_json();
    let second = Metadata::from_json(&tree).expect("decodes");
    assert_eq!(first, second);
}

#[test]
fn round_trip_normalises_null_metadata_to_absent() {
    let text: String = MINIMAL.to_string();
    let with_null_meta = text.replace(
        r#""packages":[]"#,
        r#""packages":[{"name":"a","version":"0.1.0","id":"id-a","dependencies":[],"manifest_path":"/r/wesl.toml","metadata":null}]"#,
    );
    let first = MetadataCommand::parse(&with_null_meta).expect("parses");
    assert_eq!(first.packages[0].metadata, JsonValue::Null);
    let second = Metadata::from_json(&first.to_json()).expect("decodes");
    assert_eq!(first, second);
}

#[test]
fn target_boolean_flags_default_to_true() {
    let t = Target::from_json(&json(r#"{"name":"lib","src_path":"/s/lib.wesl"}"#))
        .expect("decodes");
    assert!(t.doctest);
    assert!(t.test);
    assert!(t.doc);
    assert!(t.required_features.is_empty());
    assert_eq!(t.edition, Edition::Wgsl);
}

#[test]
fn target_explicit_flags_are_kept() {
    let t = Target::from_json(&json(
        r#"{"name":"lib","src_path":"/s/lib.wesl","doctest":false,"test":false,"doc":true,"required-features":["x"],"edition":"WGSL"}"#,
    ))
    .expect("decodes");
    assert!(!t.doctest);
    assert!(!t.test);
    assert!(t.doc);
    assert_eq!(t.required_features, vec!["x".to_string()]);
}

#[test]
fn node_without_renamed_dependencies_gets_an_empty_list() {
    let n = Node::from_json(&json(r#"{"id":"id-a","dependencies":["id-b"]}"#))
        .expect("decodes");
    assert!(n.renamed_dependencies.is_empty());
    assert_eq!(n.dependencies[0].repr, "id-b");
}

#[test]
fn missing_required_field_is_a_json_error() {
    let err = MetadataCommand::parse(r#"{"package_manager":"Npm"}"#).unwrap_err();
    assert!(matches!(err, Error::Json(_)));
}

#[test]
fn malformed_json_is_a_json_error() {
    let err = MetadataCommand::parse(r#"{"package_manager":"#).unwrap_err();
    assert!(matches!(err, Error::Json(_)));
}

#[test]
fn unknown_edition_is_a_json_error() {
    let text = MINIMAL.replace(
        r#""packages":[]"#,
        r#""packages":[{"name":"a","version":"0.1.0","id":"id-a","dependencies":[],"manifest_path":"/r/wesl.toml","edition":"WESL2030"}]"#,
    );
    assert!(matches!(MetadataCommand::parse(&text).unwrap_err(), Error::Json(_)));
}

#[test]
fn unknown_package_manager_is_a_json_error() {
    let text = MINIMAL.replace(r#""Npm""#, r#""Pip""#);
    assert!(matches!(MetadataCommand::parse(&text).unwrap_err(), Error::Json(_)));
}

#[test]
fn invalid_semver_is_a_json_error() {
    let text = MINIMAL.replace(
        r#""packages":[]"#,
        r#""packages":[{"name":"a","version":"not-a-version","id":"id-a","dependencies":[],"manifest_path":"/r/wesl.toml"}]"#,
    );
    assert!(matches!(MetadataCommand::parse(&text).unwrap_err(), Error::Json(_)));
}

#[test]
fn version_must_be_an_unsigned_integer() {
    for bad in ["-1", "1.5", "\"1\"", "18446744073709551616"] {
        let text = MINIMAL.replace(r#""version":1"#, &format!(r#""version":{bad}"#));
        assert!(
            matches!(MetadataCommand::parse(&text).unwrap_err(), Error::Json(_)),
            "accepted {bad}"
        );
    }
}

#[test]
fn large_format_version_is_kept_exactly() {
    let text = MINIMAL.replace(r#""version":1"#, r#""version":18446744073709551615"#);
    let metadata = MetadataCommand::parse(&text).expect("parses");
    assert_eq!(metadata.version, 18446744073709551615usize);
}

#[test]
fn null_optional_string_reads_as_absent() {
    let text = MINIMAL.replace(
        r#""packages":[]"#,
        r#""packages":[{"name":"a","version":"0.1.0","id":"id-a","description":null,"dependencies":[],"manifest_path":"/r/wesl.toml"}]"#,
    );
    let metadata = MetadataCommand::parse(&text).expect("parses");
    assert!(metadata.packages[0].description.is_none());
}

#[test]
fn json_get_finds_first_occurrence() {
    let doc = json(r#"{"a":1,"b":"x"}"#);
    assert_eq!(doc.get("b"), Some(&JsonValue::Str("x".to_string())));
    assert_eq!(doc.get("missing"), None);
    assert_eq!(doc.get("a"), Some(&JsonValue::Num("1".to_string())));
    let dup = JsonValue::Obj(vec![
        ("k".to_string(), JsonValue::Num("1".to_string())),
        ("k".to_string(), JsonValue::Num("2".to_string())),
    ]);
    assert_eq!(dup.get("k"), Some(&JsonValue::Num("1".to_string())));
}
