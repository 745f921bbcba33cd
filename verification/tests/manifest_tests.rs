use launcher_core::common::json::Json;
use launcher_core::packages::manifest::ManifestError;
use launcher_core::packages::manifest::ManifestField;
use launcher_core::packages::manifest::ManifestInputFormat;
use launcher_core::packages::manifest::ManifestOutputFormat;
use launcher_core::packages::manifest::v2::parse_input;
use launcher_core::packages::manifest::v2::parse_manifest;
use launcher_core::packages::manifest::v2::parse_output;
use launcher_core::packages::manifest::v2::parse_v2;

fn doc(text: &str) -> Json {
    Json::from_slice(text.as_bytes()).expect("valid JSON")
}

fn error_of<T>(result: Result<T, ManifestError>) -> ManifestError {
    match result {
        Ok(_) => panic!("an error was expected"),
        Err(error) => error,
    }
}

#[test]
fn parses_a_full_manifest() {
    let manifest = parse_manifest(&doc(
        r#"{
            "manifest_version": "2",
            "metadata": {"homepage": "https://x", "maintainers": ["ann", 7, "bob"]},
            "inputs": {
                "a.bin": {"uri": "https://x/a.bin", "hash": "deadbeef"},
                "core": {"uri": "https://x/games/core", "hash": "0A"}
            },
            "outputs": {
                "a": {"path": "a.lua", "hash": "cafef00d",
                      "metadata": {"title": "A", "standard": 1}}
            }
        }"#,
    ))
    .ok()
    .expect("a manifest");
    assert_eq!(manifest.manifest_version, 2);
    assert_eq!(manifest.metadata.homepage.as_deref(), Some("https://x"));
    assert_eq!(
        manifest.metadata.maintainers,
        Some(vec![String::from("ann"), String::from("bob")])
    );
    assert_eq!(manifest.inputs.len(), 2);
    assert_eq!(manifest.inputs[0].0, "a.bin");
    assert_eq!(manifest.inputs[0].1.uri, "https://x/a.bin");
    assert_eq!(manifest.inputs[0].1.format, ManifestInputFormat::File);
    assert_eq!(manifest.inputs[0].1.hash.to_string(), "deadbeef");
    assert_eq!(manifest.inputs[1].0, "core");
    assert_eq!(manifest.inputs[1].1.format, ManifestInputFormat::Package);
    assert_eq!(manifest.inputs[1].1.hash.to_string(), "0a");
    assert_eq!(manifest.outputs.len(), 1);
    assert_eq!(manifest.outputs[0].0, "a");
    assert_eq!(manifest.outputs[0].1.format, ManifestOutputFormat::Module);
    assert_eq!(manifest.outputs[0].1.path, "a.lua");
    assert_eq!(manifest.outputs[0].1.hash.to_string(), "cafef00d");
    assert_eq!(manifest.outputs[0].1.metadata.title.as_deref(), Some("A"));
    assert_eq!(manifest.outputs[0].1.metadata.standard, Some(1));
}

#[test]
fn empty_inputs_and_outputs_are_a_manifest() {
    let manifest = parse_v2(&doc(r#"{"inputs": {}, "outputs": {}}"#)).ok().expect("a manifest");
    assert!(manifest.inputs.is_empty());
    assert!(manifest.outputs.is_empty());
    assert_eq!(manifest.metadata.homepage, None);
    assert_eq!(manifest.metadata.maintainers, None);
}

#[test]
fn missing_outputs_is_named() {
    let error = error_of(parse_v2(&doc(r#"{"inputs": {}}"#)));
    assert_eq!(error, ManifestError::MissingField(ManifestField::Outputs));
    let error = error_of(parse_manifest(&doc(r#"{"manifest_version": "2", "inputs": {}}"#)));
    assert_eq!(error, ManifestError::MissingField(ManifestField::Outputs));
}

#[test]
fn missing_inputs_is_named_first() {
    let error = error_of(parse_v2(&doc(r#"{}"#)));
    assert_eq!(error, ManifestError::MissingField(ManifestField::Inputs));
    let error = error_of(parse_v2(&doc(r#"{"inputs": [], "outputs": {}}"#)));
    assert_eq!(error, ManifestError::MissingField(ManifestField::Inputs));
}

#[test]
fn version_three_is_unknown() {
    let error = error_of(parse_manifest(&doc(
        r#"{"manifest_version": "3", "inputs": {}, "outputs": {}}"#,
    )));
    assert_eq!(error, ManifestError::UnknownVersion);
}

#[test]
fn a_document_without_version_is_refused_as_such() {
    let error = error_of(parse_manifest(&doc(r#"{"inputs": {}, "outputs": {}}"#)));
    assert_eq!(error, ManifestError::MissingVersion);
    let error = error_of(parse_manifest(&doc(
        r#"{"manifest_version": 2, "inputs": {}, "outputs": {}}"#,
    )));
    assert_eq!(error, ManifestError::MissingVersion);
}

#[test]
fn each_missing_field_of_an_entry_has_its_error() {
    assert_eq!(
        error_of(parse_input(&doc(r#"{"hash": "00"}"#))),
        ManifestError::MissingField(ManifestField::InputUri)
    );
    assert_eq!(
        error_of(parse_input(&doc(r#"{"uri": "u"}"#))),
        ManifestError::MissingField(ManifestField::InputHash)
    );
    assert_eq!(
        error_of(parse_output(&doc(r#"{"path": "p"}"#))),
        ManifestError::MissingField(ManifestField::OutputHash)
    );
    assert_eq!(
        error_of(parse_output(&doc(r#"{"hash": "00"}"#))),
        ManifestError::MissingField(ManifestField::OutputPath)
    );
}

#[test]
fn a_malformed_hash_is_fatal() {
    assert_eq!(
        error_of(parse_input(&doc(r#"{"uri": "u", "hash": "xyz"}"#))),
        ManifestError::MalformedHash
    );
    assert_eq!(
        error_of(parse_output(&doc(r#"{"path": "p", "hash": ""}"#))),
        ManifestError::MalformedHash
    );
    let error = error_of(parse_v2(&doc(
        r#"{"inputs": {"a": {"uri": "u", "hash": "not hex"}}, "outputs": {}}"#,
    )));
    assert_eq!(error, ManifestError::MalformedHash);
}

#[test]
fn a_declared_format_wins_over_the_address() {
    let input = parse_input(&doc(r#"{"uri": "https://x/a.bin", "format": "package", "hash": "00"}"#))
        .ok()
        .expect("an input");
    assert_eq!(input.format, ManifestInputFormat::Package);
    let input = parse_input(&doc(r#"{"uri": "https://x/root", "format": "file", "hash": "00"}"#))
        .ok()
        .expect("an input");
    assert_eq!(input.format, ManifestInputFormat::File);
    let output = parse_output(&doc(r#"{"path": "p", "format": "package", "hash": "00"}"#))
        .ok()
        .expect("an output");
    assert_eq!(output.format, ManifestOutputFormat::Package);
}

#[test]
fn an_unknown_format_is_fatal() {
    assert_eq!(
        error_of(parse_input(&doc(r#"{"uri": "u", "format": "tarball", "hash": "00"}"#))),
        ManifestError::UnknownFormat
    );
    assert_eq!(
        error_of(parse_input(&doc(r#"{"uri": "u", "format": 1, "hash": "00"}"#))),
        ManifestError::UnknownFormat
    );
    assert_eq!(
        error_of(parse_output(&doc(r#"{"path": "p", "format": "file", "hash": "00"}"#))),
        ManifestError::UnknownFormat
    );
}

#[test]
fn the_format_of_an_input_is_told_from_its_last_segment() {
    assert_eq!(ManifestInputFormat::from_uri("https://x/a.bin"), ManifestInputFormat::File);
    assert_eq!(ManifestInputFormat::from_uri("a.tar.gz"), ManifestInputFormat::File);
    assert_eq!(ManifestInputFormat::from_uri("https://x.org/games/core"), ManifestInputFormat::Package);
    assert_eq!(ManifestInputFormat::from_uri("https://x.org/games/"), ManifestInputFormat::Package);
    assert_eq!(ManifestInputFormat::from_uri(""), ManifestInputFormat::Package);
    assert_eq!(ManifestInputFormat::from_str("file"), Some(ManifestInputFormat::File));
    assert_eq!(ManifestInputFormat::from_str("package"), Some(ManifestInputFormat::Package));
    assert_eq!(ManifestInputFormat::from_str("File"), None);
    assert_eq!(ManifestOutputFormat::from_str("module"), Some(ManifestOutputFormat::Module));
    assert_eq!(ManifestOutputFormat::from_str("package"), Some(ManifestOutputFormat::Package));
    assert_eq!(ManifestOutputFormat::from_str(""), None);
}

#[test]
fn a_name_that_came_before_is_passed_over() {
    let document = Json::Object(vec![
        (
            String::from("inputs"),
            Json::Object(vec![
                (String::from("a"), doc(r#"{"uri": "first", "hash": "01"}"#)),
                (String::from("a"), doc(r#"{"uri": "second"}"#)),
                (String::from("b"), doc(r#"{"uri": "third", "hash": "02"}"#)),
            ]),
        ),
        (String::from("outputs"), Json::Object(Vec::new())),
    ]);
    let manifest = parse_v2(&document).ok().expect("a manifest");
    assert_eq!(manifest.inputs.len(), 2);
    assert_eq!(manifest.inputs[0].1.uri, "first");
    assert_eq!(manifest.inputs[1].1.uri, "third");
}

#[test]
fn optional_metadata_of_the_wrong_kind_is_left_out() {
    let manifest = parse_v2(&doc(
        r#"{"inputs": {}, "metadata": {"homepage": 5, "maintainers": "ann"},
            "outputs": {"o": {"path": "p", "hash": "00", "metadata": {"title": 1, "standard": "x"}}}}"#,
    ))
    .ok()
    .expect("a manifest");
    assert_eq!(manifest.metadata.homepage, None);
    assert_eq!(manifest.metadata.maintainers, None);
    assert_eq!(manifest.outputs[0].1.metadata.title, None);
    assert_eq!(manifest.outputs[0].1.metadata.standard, None);
}

#[test]
fn errors_say_which_field_they_are_about() {
    assert_eq!(ManifestField::Outputs.name(), "outputs");
    assert_eq!(ManifestField::InputUri.name(), "inputs[].uri");
    assert_eq!(
        ManifestError::MissingField(ManifestField::Outputs).message(),
        "Incorrect manifest v2 file format: `outputs` field is missing"
    );
    assert_eq!(ManifestError::UnknownVersion.message(), "Unknown manifest version");
    let fields = [
        ManifestField::Inputs,
        ManifestField::Outputs,
        ManifestField::InputUri,
        ManifestField::InputHash,
        ManifestField::OutputHash,
        ManifestField::OutputPath,
    ];
    for field in fields {
        assert!(ManifestError::MissingField(field).message().contains(field.name()));
    }
}

#[test]
fn an_empty_list_of_maintainers_is_not_an_absent_one() {
    let manifest = parse_v2(&doc(r#"{"inputs": {}, "outputs": {}, "metadata": {"maintainers": []}}"#))
        .ok()
        .expect("a manifest");
    assert_eq!(manifest.metadata.maintainers, Some(Vec::new()));
    let manifest = parse_v2(&doc(r#"{"inputs": {}, "outputs": {}, "metadata": {}}"#))
        .ok()
        .expect("a manifest");
    assert_eq!(manifest.metadata.maintainers, None);
}
