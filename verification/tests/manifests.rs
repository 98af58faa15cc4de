use auto_tag::Doc;
use auto_tag::Ecosystem;
use auto_tag::ManifestError;
use auto_tag::classify_file_name;
use auto_tag::extract_descriptor;
use auto_tag::normalize_npm_name;
use auto_tag::parse_manifest;
use auto_tag::process_manifest;
use auto_tag::tag_request_for;

#[test]
fn classify_manifest_names() {
    assert_eq!(classify_file_name("Cargo.toml"), Some(Ecosystem::Cargo));
    assert_eq!(classify_file_name("package.json"), Some(Ecosystem::Npm));
    assert_eq!(
        classify_file_name("pyproject.toml"),
        Some(Ecosystem::Pep621Poetry)
    );
    assert_eq!(classify_file_name("README.md"), None);
    assert_eq!(classify_file_name("cargo.toml"), None);
    assert_eq!(classify_file_name(""), None);
}

#[test]
fn npm_name_normalization() {
    assert_eq!(normalize_npm_name("@scope/pkg"), "scope__pkg");
    assert_eq!(normalize_npm_name("plain"), "plain");
    assert_eq!(normalize_npm_name("@@a//b"), "a____b");
    assert_eq!(normalize_npm_name(""), "");
}

#[test]
fn npm_scoped_package_tag_name() {
    let text = "{\n  \"name\": \"@scope/pkg\",\n  \"version\": \"1.2.3\",\n  \"autoTag\": { \"enabled\": true }\n}\n";
    let req = process_manifest(text, Ecosystem::Npm).unwrap().unwrap();
    assert_eq!(req.tag_name, "release-scope__pkg-1.2.3");
    assert_eq!(req.message, "automatic release tag of @scope/pkg (1.2.3)");
}

#[test]
fn cargo_manifest_tag_and_message() {
    let text = "[package]\nname = \"foo\"\nversion = \"0.1.0\"\n\n[package.metadata.auto-tag]\nenabled = true\n";
    let req = process_manifest(text, Ecosystem::Cargo).unwrap().unwrap();
    assert_eq!(req.tag_name, "release-foo-0.1.0");
    assert_eq!(req.message, "automatic release tag of foo (0.1.0)");
}

#[test]
fn pyproject_manifest_tag() {
    let text = "[tool.poetry]\nname = \"pylib\"\nversion = \"2.0.1\"\n\n[tool.auto-tag]\nenabled = true\n";
    let req = process_manifest(text, Ecosystem::Pep621Poetry)
        .unwrap()
        .unwrap();
    assert_eq!(req.tag_name, "release-pylib-2.0.1");
    assert_eq!(req.message, "automatic release tag of pylib (2.0.1)");
}

#[test]
fn absent_flag_is_silent_skip() {
    let cargo = "[package]\nname = \"foo\"\nversion = \"0.1.0\"\n";
    assert!(matches!(
        process_manifest(cargo, Ecosystem::Cargo),
        Ok(None)
    ));
    let npm = "{ \"name\": \"a\", \"version\": \"1.0.0\" }";
    assert!(matches!(process_manifest(npm, Ecosystem::Npm), Ok(None)));
    let py = "[tool.poetry]\nname = \"p\"\nversion = \"0.1.0\"\n";
    assert!(matches!(
        process_manifest(py, Ecosystem::Pep621Poetry),
        Ok(None)
    ));
}

#[test]
fn false_flag_is_silent_skip() {
    let cargo = "[package]\nname = \"foo\"\nversion = \"0.1.0\"\n[package.metadata.auto-tag]\nenabled = false\n";
    assert!(matches!(
        process_manifest(cargo, Ecosystem::Cargo),
        Ok(None)
    ));
    let npm = "{ \"autoTag\": { \"enabled\": false }, \"name\": \"a\" }";
    assert!(matches!(process_manifest(npm, Ecosystem::Npm), Ok(None)));
}

#[test]
fn non_boolean_flag_is_silent_skip() {
    let npm = "{ \"autoTag\": { \"enabled\": \"true\" }, \"name\": \"a\", \"version\": \"1\" }";
    assert!(matches!(process_manifest(npm, Ecosystem::Npm), Ok(None)));
    let cargo = "[package]\nname = \"foo\"\n[package.metadata.auto-tag]\nenabled = 1\n";
    assert!(matches!(
        process_manifest(cargo, Ecosystem::Cargo),
        Ok(None)
    ));
}

#[test]
fn missing_version_fails_only_that_manifest() {
    let bad = "[package]\nname = \"foo\"\n[package.metadata.auto-tag]\nenabled = true\n";
    assert_eq!(
        process_manifest(bad, Ecosystem::Cargo),
        Err(ManifestError::VersionNotFound)
    );
    let sibling = "[package]\nname = \"bar\"\nversion = \"3.4.5\"\n[package.metadata.auto-tag]\nenabled = true\n";
    let req = process_manifest(sibling, Ecosystem::Cargo).unwrap().unwrap();
    assert_eq!(req.tag_name, "release-bar-3.4.5");
}

#[test]
fn missing_name_fails_with_name_not_found() {
    let npm = "{ \"autoTag\": { \"enabled\": true }, \"version\": \"1.0.0\" }";
    assert_eq!(
        process_manifest(npm, Ecosystem::Npm),
        Err(ManifestError::NameNotFound)
    );
}

#[test]
fn non_string_version_fails() {
    let npm = "{ \"autoTag\": { \"enabled\": true }, \"name\": \"a\", \"version\": 3 }";
    assert_eq!(
        process_manifest(npm, Ecosystem::Npm),
        Err(ManifestError::VersionNotFound)
    );
}

#[test]
fn malformed_text_fails_with_parse_error() {
    assert_eq!(
        process_manifest("{ not json", Ecosystem::Npm),
        Err(ManifestError::Parse)
    );
    assert_eq!(
        process_manifest("= not toml", Ecosystem::Cargo),
        Err(ManifestError::Parse)
    );
    assert_eq!(
        process_manifest("[unclosed\n", Ecosystem::Pep621Poetry),
        Err(ManifestError::Parse)
    );
}

#[test]
fn parse_manifest_reads_real_structure() {
    let doc = parse_manifest(
        "{ \"a\": { \"b\": true }, \"c\": \"text\" }",
        Ecosystem::Npm,
    )
    .unwrap();
    let inner = doc.get("a").unwrap().get("b").unwrap();
    assert_eq!(inner.as_bool(), Some(true));
    assert_eq!(doc.get("c").unwrap().as_text(), Some("text"));
    assert!(doc.get("missing").is_none());

    let toml_doc = parse_manifest("[t]\nx = \"y\"\n", Ecosystem::Cargo).unwrap();
    assert_eq!(toml_doc.get2("t", "x").unwrap().as_text(), Some("y"));
}

#[test]
fn duplicate_keys_use_first_entry() {
    let doc = Doc::Table(vec![
        ("k".to_string(), Doc::Bool(true)),
        ("k".to_string(), Doc::Bool(false)),
    ]);
    assert_eq!(doc.get("k").unwrap().as_bool(), Some(true));
}

#[test]
fn str_eq_compares_by_characters() {
    assert!(auto_tag::str_eq("Cargo.toml", "Cargo.toml"));
    assert!(!auto_tag::str_eq("Cargo.toml", "cargo.toml"));
    assert!(!auto_tag::str_eq("a", "ab"));
    assert!(auto_tag::str_eq("", ""));
}

#[test]
fn extract_descriptor_on_built_document() {
    let doc = Doc::Table(vec![
        (
            "autoTag".to_string(),
            Doc::Table(vec![("enabled".to_string(), Doc::Bool(true))]),
        ),
        ("name".to_string(), Doc::Text("@scope/pkg".to_string())),
        ("version".to_string(), Doc::Text("1.2.3".to_string())),
    ]);
    let pd = extract_descriptor(&doc, Ecosystem::Npm).unwrap().unwrap();
    assert_eq!(pd.name, "@scope/pkg");
    assert_eq!(pd.version, "1.2.3");
    assert!(pd.auto_tag_enabled);
    assert_eq!(pd.ecosystem, Ecosystem::Npm);
    let req = tag_request_for(&pd);
    assert_eq!(req.tag_name, "release-scope__pkg-1.2.3");
    assert_eq!(req.message, "automatic release tag of @scope/pkg (1.2.3)");
}

#[test]
fn empty_name_fails_with_name_not_found() {
    let npm = "{ \"autoTag\": { \"enabled\": true }, \"name\": \"\", \"version\": \"1.0.0\" }";
    assert_eq!(
        process_manifest(npm, Ecosystem::Npm),
        Err(ManifestError::NameNotFound)
    );
    let cargo = "[package]\nname = \"\"\nversion = \"0.1.0\"\n[package.metadata.auto-tag]\nenabled = true\n";
    assert_eq!(
        process_manifest(cargo, Ecosystem::Cargo),
        Err(ManifestError::NameNotFound)
    );
}

#[test]
fn empty_version_fails_with_version_not_found() {
    let npm = "{ \"autoTag\": { \"enabled\": true }, \"name\": \"a\", \"version\": \"\" }";
    assert_eq!(
        process_manifest(npm, Ecosystem::Npm),
        Err(ManifestError::VersionNotFound)
    );
    let py = "[tool.poetry]\nname = \"p\"\nversion = \"\"\n[tool.auto-tag]\nenabled = true\n";
    assert_eq!(
        process_manifest(py, Ecosystem::Pep621Poetry),
        Err(ManifestError::VersionNotFound)
    );
}
