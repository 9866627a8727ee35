use wesl_metadata::Error;
use wesl_metadata::MetadataCommand;

const PAYLOAD: &str = r#"{"package_manager":"Npm","packages":[],"resolve":null,"target_directory":"/t","version":1,"root_package_directory":"/r"}"#;

#[test]
fn extractor_selects_the_json_line_among_diagnostics() {
    let stdout = format!("warning: something\n{PAYLOAD}\ndone in 0.2s\n");
    let metadata = MetadataCommand::process_output(true, &stdout.into_bytes(), Vec::new())
        .expect("parses");
    assert_eq!(metadata.version, 1);
    assert_eq!(metadata.target_directory, "/t");
}

#[test]
fn extractor_ignores_braces_not_at_line_start() {
    let stdout = format!("note: use {{}} braces\n{PAYLOAD}");
    let metadata = MetadataCommand::process_output(true, &stdout.into_bytes(), Vec::new())
        .expect("parses");
    assert_eq!(metadata.root_package_directory, "/r");
}

#[test]
fn extractor_strips_a_carriage_return_line_ending() {
    let stdout = format!("diag\r\n{PAYLOAD}\r\nrest\r\n");
    let metadata = MetadataCommand::process_output(true, &stdout.into_bytes(), Vec::new())
        .expect("parses");
    assert_eq!(metadata.version, 1);
}

#[test]
fn failed_run_reports_captured_stderr() {
    let err = MetadataCommand::process_output(
        false,
        &Vec::new(),
        b"manifest not found".to_vec(),
    )
    .unwrap_err();
    match &err {
        Error::WeslMetadata { stderr } => assert_eq!(stderr, "manifest not found"),
        other => panic!("unexpected error: {other:?}"),
    }
    assert!(err.message().contains("manifest not found"));
}

#[test]
fn output_without_json_is_a_distinct_failure() {
    let err = MetadataCommand::process_output(true, &b"no payload here\n".to_vec(), Vec::new())
        .unwrap_err();
    assert!(matches!(err, Error::NoJson));
    let schema_err = MetadataCommand::process_output(true, &b"{}\n".to_vec(), Vec::new())
        .unwrap_err();
    assert!(matches!(schema_err, Error::Json(_)));
    assert_ne!(err, schema_err);
}

#[test]
fn invalid_utf8_stdout_is_a_utf8_failure() {
    let err = MetadataCommand::process_output(true, &vec![0x7b, 0xff, 0xfe], Vec::new())
        .unwrap_err();
    assert!(matches!(err, Error::Utf8(_)));
}

#[test]
fn non_ascii_stderr_is_decoded_into_the_failure() {
    let err = MetadataCommand::process_output(
        false,
        &Vec::new(),
        "Paket fehlt: Übersetzung".as_bytes().to_vec(),
    )
    .unwrap_err();
    assert!(err.message().contains("Paket fehlt: Übersetzung"));
}

#[test]
fn invalid_utf8_stderr_is_its_own_failure() {
    let err = MetadataCommand::process_output(false, &Vec::new(), vec![0xff, 0xfe]).unwrap_err();
    assert!(matches!(err, Error::ErrUtf8(_)));
}

#[test]
fn non_ascii_output_decodes() {
    let stdout = format!("Übersetzung läuft\n{PAYLOAD}\n");
    let metadata = MetadataCommand::process_output(true, &stdout.into_bytes(), Vec::new())
        .expect("parses");
    assert_eq!(metadata.version, 1);
}

#[test]
fn error_messages_name_their_stage() {
    assert_eq!(
        Error::NoJson.message(),
        "could not find any json in the output of `wesl metadata`"
    );
    assert!(Error::Io("denied".to_string()).message().contains("failed to start"));
    assert!(Error::Io("denied".to_string()).message().contains("denied"));
    assert!(Error::Utf8("bad byte".to_string()).message().contains("stdout"));
    assert!(Error::ErrUtf8("bad byte".to_string()).message().contains("stderr"));
    assert!(Error::Json("missing key".to_string()).message().contains("json"));
}

#[test]
fn command_defaults_to_plain_wesl() {
    let cmd = MetadataCommand::new();
    let invocation = cmd.wesl_command(None);
    assert_eq!(invocation.program, "wesl");
    assert_eq!(invocation.args, vec!["metadata".to_string()]);
    assert!(invocation.current_dir.is_none());
    assert!(invocation.env.is_empty());
    assert!(!cmd.is_verbose());
}

#[test]
fn command_prefers_explicit_path_over_environment() {
    let mut cmd = MetadataCommand::new();
    cmd.wesl_path("/opt/tools/wesl");
    let invocation = cmd.wesl_command(Some("/env/wesl".to_string()));
    assert_eq!(invocation.program, "/opt/tools/wesl");
}

#[test]
fn command_falls_back_to_environment_variable() {
    let cmd = MetadataCommand::new();
    let invocation = cmd.wesl_command(Some("/env/wesl".to_string()));
    assert_eq!(invocation.program, "/env/wesl");
}

#[test]
fn command_arguments_keep_their_order() {
    let mut cmd = MetadataCommand::new();
    cmd.no_dependencies();
    cmd.manifest_path("/p/wesl.toml");
    cmd.other_options(vec!["--color".to_string(), "never".to_string()]);
    cmd.current_dir("/p");
    cmd.verbose(true);
    let invocation = cmd.wesl_command(None);
    assert_eq!(
        invocation.args,
        vec![
            "metadata".to_string(),
            "--no-dependencies".to_string(),
            "--manifest-path".to_string(),
            "/p/wesl.toml".to_string(),
            "--color".to_string(),
            "never".to_string(),
        ]
    );
    assert_eq!(invocation.current_dir.as_deref(), Some("/p"));
    assert!(cmd.is_verbose());
}

#[test]
fn command_environment_overlay_keeps_entry_order() {
    let mut cmd = MetadataCommand::new();
    cmd.env("OUT_DIR", "example/value");
    cmd.env_remove("WESL_ENCODED_FLAGS");
    cmd.env("OUT_DIR", "other/value");
    let invocation = cmd.wesl_command(None);
    assert_eq!(
        invocation.env,
        vec![
            ("OUT_DIR".to_string(), Some("example/value".to_string())),
            ("WESL_ENCODED_FLAGS".to_string(), None),
            ("OUT_DIR".to_string(), Some("other/value".to_string())),
        ]
    );
}
