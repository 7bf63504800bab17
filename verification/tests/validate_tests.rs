use a_cli_tool::actions::Actions;
use a_cli_tool::doc::{DocField, DocValue};
use a_cli_tool::error::ConfigError;
use a_cli_tool::model::Source;
use a_cli_tool::validate::{
    encode_document, encode_normalized, load_document, validate_document, SchemaMode,
};

fn field(k: &str, v: DocValue) -> DocField {
    DocField { key: k.to_string(), value: v }
}

fn text(s: &str) -> DocValue {
    DocValue::Text(s.to_string())
}

fn file_source(p: &str) -> DocValue {
    DocValue::Record(vec![field("file", text(p))])
}

fn actions_list(names: &[&str]) -> DocValue {
    DocValue::List(names.iter().map(|n| text(n)).collect())
}

fn flat_doc(version: &str, action_names: &[&str]) -> DocValue {
    DocValue::Record(vec![
        field("name", text("demo")),
        field("version", text(version)),
        field("description", text("a demo configuration")),
        field("source", file_source("in.yaml")),
        field("target", text("out.yaml")),
        field("actions", actions_list(action_names)),
    ])
}

fn nested_doc(version: &str, action_names: &[&str]) -> DocValue {
    DocValue::Record(vec![
        field("name", text("demo")),
        field("version", text(version)),
        field("description", text("a demo configuration")),
        field(
            "data",
            DocValue::Record(vec![
                field("source", file_source("in.yaml")),
                field("target", text("out.yaml")),
                field("actions", actions_list(action_names)),
            ]),
        ),
    ])
}

#[test]
fn flat_doc_validates() {
    let c = validate_document(&flat_doc("1.2.3", &["foo"]), SchemaMode::Flattened).unwrap();
    assert_eq!(c.name, "demo");
    assert_eq!(c.version, "1.2.3");
    assert_eq!(c.description.as_deref(), Some("a demo configuration"));
    assert_eq!(c.data.source, Source::File("in.yaml".to_string()));
    assert_eq!(c.data.target.path, "out.yaml");
    assert_eq!(c.data.actions, vec![Actions::Foo]);
}

#[test]
fn version_normalizes_to_components() {
    let raw = validate_document(&flat_doc("1.2.3", &[]), SchemaMode::Flattened).unwrap();
    let c = raw.parse().unwrap();
    assert_eq!(c.version.major(), 1);
    assert_eq!(c.version.minor(), 2);
    assert_eq!(c.version.patch(), 3);
    assert_eq!(c.version.pre(), "");
    assert_eq!(c.version.build(), "");
    assert_eq!(c.version.text(), "1.2.3");
}

#[test]
fn two_part_version_fails_and_raw_doc_survives() {
    let raw = validate_document(&flat_doc("1.2", &[]), SchemaMode::Flattened).unwrap();
    let e = raw.parse().unwrap_err();
    assert_eq!(e, ConfigError::VersionFormat { text: "1.2".to_string() });
    assert!(!e.is_shape_error());
    // Normalization borrowed the raw document: its text is still there
    // and a retry reports the same failure.
    assert_eq!(raw.version, "1.2");
    assert_eq!(raw.parse().unwrap_err(), e);
}

#[test]
fn word_version_fails() {
    let raw = validate_document(&flat_doc("not-a-version", &[]), SchemaMode::Flattened).unwrap();
    assert_eq!(
        raw.parse().unwrap_err(),
        ConfigError::VersionFormat { text: "not-a-version".to_string() }
    );
}

#[test]
fn semver_prerelease_and_build_are_parsed() {
    let raw = validate_document(&flat_doc("1.2.3-alpha.1+build5", &[]), SchemaMode::Flattened)
        .unwrap();
    let c = raw.parse().unwrap();
    assert_eq!(c.version.major(), 1);
    assert_eq!(c.version.pre(), "alpha.1");
    assert_eq!(c.version.build(), "build5");
}

#[test]
fn semver_leading_zero_is_rejected() {
    let raw = validate_document(&flat_doc("1.02.3", &[]), SchemaMode::Flattened).unwrap();
    assert!(matches!(raw.parse().unwrap_err(), ConfigError::VersionFormat { .. }));
}

#[test]
fn fbb_decodes_to_the_remapped_token() {
    let c = validate_document(&flat_doc("1.0.0", &["fbb"]), SchemaMode::Flattened).unwrap();
    assert_eq!(c.data.actions, vec![Actions::FooBarBaz]);
}

#[test]
fn full_snake_case_spelling_of_remapped_token_is_rejected() {
    let e = validate_document(&flat_doc("1.0.0", &["foo_bar_baz"]), SchemaMode::Flattened)
        .unwrap_err();
    match &e {
        ConfigError::UnknownLiteral { path, index, literal, accepted } => {
            assert_eq!(path, "actions");
            assert_eq!(*index, 0);
            assert_eq!(literal, "foo_bar_baz");
            assert!(accepted.contains(&"fbb".to_string()));
        }
        other => panic!("expected an unknown-literal failure, got {:?}", other),
    }
    assert!(e.is_shape_error());
}

#[test]
fn every_other_spelling_decodes_to_its_own_token() {
    let c = validate_document(
        &flat_doc("1.0.0", &["foo", "bar", "baz", "foo_bar", "bar_baz"]),
        SchemaMode::Flattened,
    )
    .unwrap();
    assert_eq!(
        c.data.actions,
        vec![Actions::Foo, Actions::Bar, Actions::Baz, Actions::FooBar, Actions::BarBaz]
    );
}

#[test]
fn action_order_and_duplicates_are_preserved() {
    let c = validate_document(&flat_doc("1.0.0", &["foo", "bar", "foo"]), SchemaMode::Flattened)
        .unwrap();
    assert_eq!(c.data.actions, vec![Actions::Foo, Actions::Bar, Actions::Foo]);
}

#[test]
fn source_with_both_arms_is_rejected() {
    let mut doc = flat_doc("1.0.0", &[]);
    if let DocValue::Record(fs) = &mut doc {
        fs[3] = field(
            "source",
            DocValue::Record(vec![field("file", text("a")), field("url", text("b"))]),
        );
    }
    let e = validate_document(&doc, SchemaMode::Flattened).unwrap_err();
    assert_eq!(e, ConfigError::MultipleTags { path: "source".to_string() });
    assert!(e.is_shape_error());
}

#[test]
fn source_with_no_arm_is_rejected() {
    let mut doc = flat_doc("1.0.0", &[]);
    if let DocValue::Record(fs) = &mut doc {
        fs[3] = field("source", DocValue::Record(vec![]));
    }
    let e = validate_document(&doc, SchemaMode::Flattened).unwrap_err();
    assert_eq!(
        e,
        ConfigError::MissingTag {
            path: "source".to_string(),
            accepted: vec!["file".to_string(), "url".to_string()],
        }
    );
}

#[test]
fn source_with_unknown_arm_is_rejected() {
    let mut doc = flat_doc("1.0.0", &[]);
    if let DocValue::Record(fs) = &mut doc {
        fs[3] = field("source", DocValue::Record(vec![field("ftp", text("x"))]));
    }
    let e = validate_document(&doc, SchemaMode::Flattened).unwrap_err();
    assert_eq!(
        e,
        ConfigError::UnknownTag {
            path: "source".to_string(),
            tag: "ftp".to_string(),
            accepted: vec!["file".to_string(), "url".to_string()],
        }
    );
}

#[test]
fn url_source_is_accepted_verbatim() {
    let mut doc = flat_doc("1.0.0", &[]);
    if let DocValue::Record(fs) = &mut doc {
        fs[3] = field("source", DocValue::Record(vec![field("url", text("https://example"))]));
    }
    let c = validate_document(&doc, SchemaMode::Flattened).unwrap();
    assert_eq!(c.data.source, Source::Url("https://example".to_string()));
}

#[test]
fn flattened_and_nested_modes_agree() {
    let flat = validate_document(&flat_doc("1.2.3", &["foo", "fbb"]), SchemaMode::Flattened)
        .unwrap();
    let nested = validate_document(&nested_doc("1.2.3", &["foo", "fbb"]), SchemaMode::Nested)
        .unwrap();
    assert_eq!(flat, nested);
}

#[test]
fn flattened_collision_on_target_is_rejected() {
    let doc = DocValue::Record(vec![
        field("name", text("demo")),
        field("version", text("1.0.0")),
        field("target", text("mine.yaml")),
        field("source", file_source("in.yaml")),
        field("target", text("theirs.yaml")),
        field("actions", actions_list(&[])),
    ]);
    let e = validate_document(&doc, SchemaMode::Flattened).unwrap_err();
    assert_eq!(e, ConfigError::DuplicateField { path: "target".to_string() });
}

#[test]
fn missing_name_is_rejected_by_name() {
    let doc = DocValue::Record(vec![
        field("version", text("1.0.0")),
        field("source", file_source("in.yaml")),
        field("target", text("out.yaml")),
        field("actions", actions_list(&[])),
    ]);
    let e = validate_document(&doc, SchemaMode::Flattened).unwrap_err();
    assert_eq!(e, ConfigError::MissingField { path: "name".to_string() });
    assert!(e.is_shape_error());
}

#[test]
fn absent_description_stays_absent() {
    let doc = DocValue::Record(vec![
        field("name", text("demo")),
        field("version", text("1.0.0")),
        field("source", file_source("in.yaml")),
        field("target", text("out.yaml")),
        field("actions", actions_list(&[])),
    ]);
    let c = validate_document(&doc, SchemaMode::Flattened).unwrap();
    assert_eq!(c.description, None);
}

#[test]
fn missing_target_is_rejected() {
    let doc = DocValue::Record(vec![
        field("name", text("demo")),
        field("version", text("1.0.0")),
        field("source", file_source("in.yaml")),
        field("actions", actions_list(&[])),
    ]);
    let e = validate_document(&doc, SchemaMode::Flattened).unwrap_err();
    assert_eq!(e, ConfigError::MissingField { path: "target".to_string() });
}

#[test]
fn nested_paths_name_the_data_prefix() {
    let doc = DocValue::Record(vec![
        field("name", text("demo")),
        field("version", text("1.0.0")),
        field(
            "data",
            DocValue::Record(vec![
                field("source", file_source("in.yaml")),
                field("target", text("out.yaml")),
            ]),
        ),
    ]);
    let e = validate_document(&doc, SchemaMode::Nested).unwrap_err();
    assert_eq!(e, ConfigError::MissingField { path: "data.actions".to_string() });
}

#[test]
fn unknown_top_level_field_is_rejected() {
    let mut doc = flat_doc("1.0.0", &[]);
    if let DocValue::Record(fs) = &mut doc {
        fs.push(field("extra", text("x")));
    }
    let e = validate_document(&doc, SchemaMode::Flattened).unwrap_err();
    assert_eq!(e, ConfigError::UnknownField { path: "extra".to_string() });
}

#[test]
fn wrong_type_for_version_is_rejected() {
    let mut doc = flat_doc("1.0.0", &[]);
    if let DocValue::Record(fs) = &mut doc {
        fs[1] = field("version", DocValue::Other);
    }
    let e = validate_document(&doc, SchemaMode::Flattened).unwrap_err();
    assert_eq!(e, ConfigError::WrongType { path: "version".to_string() });
}

#[test]
fn non_record_document_is_rejected() {
    let e = validate_document(&text("just text"), SchemaMode::Flattened).unwrap_err();
    assert_eq!(e, ConfigError::WrongType { path: "".to_string() });
}

#[test]
fn round_trip_restores_the_raw_config() {
    for mode in [SchemaMode::Flattened, SchemaMode::Nested] {
        let doc = flat_doc("1.2.3-rc.1", &["foo", "bar", "foo"]);
        let c = validate_document(&doc, SchemaMode::Flattened).unwrap();
        let again = validate_document(&encode_document(&c, mode), mode).unwrap();
        assert_eq!(c, again);
    }
}

#[test]
fn round_trip_restores_the_normalized_config() {
    for mode in [SchemaMode::Flattened, SchemaMode::Nested] {
        let doc = nested_doc("2.0.1+meta", &["fbb", "baz"]);
        let c = load_document(&doc, SchemaMode::Nested).unwrap();
        let again = load_document(&encode_normalized(&c, mode), mode).unwrap();
        assert_eq!(c, again);
    }
}

#[test]
fn round_trip_without_description() {
    let doc = DocValue::Record(vec![
        field("name", text("demo")),
        field("version", text("1.0.0")),
        field("source", file_source("in.yaml")),
        field("target", text("out.yaml")),
        field("actions", actions_list(&["bar"])),
    ]);
    let c = validate_document(&doc, SchemaMode::Flattened).unwrap();
    let again =
        validate_document(&encode_document(&c, SchemaMode::Flattened), SchemaMode::Flattened)
            .unwrap();
    assert_eq!(c, again);
    assert_eq!(again.description, None);
}

#[test]
fn eager_load_fails_whole_load_on_bad_version() {
    let e = load_document(&flat_doc("1.2", &[]), SchemaMode::Flattened).unwrap_err();
    assert_eq!(e, ConfigError::VersionFormat { text: "1.2".to_string() });
}

#[test]
fn eager_load_reports_shape_errors_first() {
    let doc = DocValue::Record(vec![
        field("version", text("1.2")),
        field("source", file_source("in.yaml")),
        field("target", text("out.yaml")),
        field("actions", actions_list(&[])),
    ]);
    let e = load_document(&doc, SchemaMode::Flattened).unwrap_err();
    assert_eq!(e, ConfigError::MissingField { path: "name".to_string() });
}
