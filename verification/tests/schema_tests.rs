use a_cli_tool::actions::{action_literal, parse_action, Actions};
use a_cli_tool::cli::{Cli, Subcommands};
use a_cli_tool::schema::{describe_model, schema_text, TypeSchema};
use a_cli_tool::validate::SchemaMode;

#[test]
fn schema_generation_is_deterministic() {
    for mode in [SchemaMode::Flattened, SchemaMode::Nested] {
        let a = schema_text(mode);
        let b = schema_text(mode);
        assert_eq!(a.as_bytes(), b.as_bytes());
        assert_eq!(describe_model(mode), describe_model(mode));
    }
}

#[test]
fn flattened_schema_text_is_exactly_the_model() {
    let expected = "{\"records\":[{\"record\":\"Config\",\"fields\":[\
{\"name\":\"name\",\"required\":true,\"type\":\"text\"},\
{\"name\":\"version\",\"required\":true,\"type\":\"version\"},\
{\"name\":\"description\",\"required\":false,\"type\":\"text\"},\
{\"name\":\"source\",\"required\":true,\"type\":\"ref:Source\"},\
{\"name\":\"target\",\"required\":true,\"type\":\"path\"},\
{\"name\":\"actions\",\"required\":true,\"type\":\"list:Actions\"}\
]}],\"unions\":[{\"union\":\"Source\",\"tags\":[\
{\"tag\":\"file\",\"payload\":\"path\"},\
{\"tag\":\"url\",\"payload\":\"text\"}\
]}],\"tokens\":[{\"token\":\"Actions\",\"literals\":[\
\"foo\",\"bar\",\"baz\",\"foo_bar\",\"bar_baz\",\"fbb\"\
]}]}";
    assert_eq!(schema_text(SchemaMode::Flattened), expected);
}

#[test]
fn nested_schema_references_the_data_record() {
    let s = describe_model(SchemaMode::Nested);
    assert_eq!(s.records.len(), 2);
    assert_eq!(s.records[0].name, "Config");
    assert_eq!(s.records[1].name, "AppData");
    let data_field = &s.records[0].fields[3];
    assert_eq!(data_field.name, "data");
    assert!(data_field.required);
    assert_eq!(data_field.ty, TypeSchema::Ref("AppData".to_string()));
    let text = schema_text(SchemaMode::Nested);
    assert!(text.contains("\"record\":\"AppData\""));
}

#[test]
fn schema_literal_table_matches_the_decoder() {
    let s = describe_model(SchemaMode::Flattened);
    let lits = &s.tokens[0].literals;
    assert_eq!(
        lits,
        &vec![
            "foo".to_string(),
            "bar".to_string(),
            "baz".to_string(),
            "foo_bar".to_string(),
            "bar_baz".to_string(),
            "fbb".to_string(),
        ]
    );
    for lit in lits {
        let token = parse_action(lit).expect("every schema literal decodes");
        assert_eq!(action_literal(token), lit.as_str());
    }
}

#[test]
fn action_spellings_round_trip() {
    let all = [
        (Actions::Foo, "foo"),
        (Actions::Bar, "bar"),
        (Actions::Baz, "baz"),
        (Actions::FooBar, "foo_bar"),
        (Actions::BarBaz, "bar_baz"),
        (Actions::FooBarBaz, "fbb"),
    ];
    for (token, spelling) in all {
        assert_eq!(action_literal(token), spelling);
        assert_eq!(parse_action(spelling), Some(token));
    }
    assert_eq!(parse_action("foo_bar_baz"), None);
    assert_eq!(parse_action(""), None);
}

#[test]
fn cli_carries_its_fields_through() {
    let cli = Cli { config: "./config.yaml".to_string(), dry_run: true, subcommand: Subcommands::Bar };
    assert_eq!(cli.config, "./config.yaml");
    assert!(cli.dry_run);
    assert_eq!(cli.subcommand, Subcommands::Bar);
}
