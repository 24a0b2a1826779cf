use codex_history_store::schema::table;
use codex_history_store::schema::validate_identifier;
use codex_history_store::schema::SchemaNameError;

#[test]
fn accepts_safe_postgres_schema_identifiers() {
    assert!(["codex_state", "_codex2", "tenant42"]
        .into_iter()
        .map(validate_identifier)
        .all(|result| result.is_ok()));
}

#[test]
fn rejects_unsafe_postgres_schema_identifiers() {
    let values = ["", "42codex", "codex-state", "codex state", "codex\"state"];

    for value in values {
        assert!(validate_identifier(value).is_err(), "{value}");
    }
}

#[test]
fn quotes_validated_schema_and_static_table_name() {
    assert_eq!(
        table("codex_state", "threads"),
        "\"codex_state\".\"threads\""
    );
}

#[test]
fn says_why_a_schema_name_is_refused() {
    let Err(empty) = validate_identifier("") else {
        panic!("an empty name");
    };
    assert!(matches!(empty, SchemaNameError::Empty));
    assert_eq!(empty.message(), "PostgreSQL schema name cannot be empty");

    let Err(invalid) = validate_identifier("a-b") else {
        panic!("a name with a hyphen");
    };
    assert!(matches!(&invalid, SchemaNameError::Invalid(name) if name == "a-b"));
    assert_eq!(invalid.message(), "invalid PostgreSQL schema name `a-b`");
}

#[test]
fn takes_only_ascii_letters_digits_and_underscores() {
    for name in ["_", "A", "zZ9_"] {
        assert!(validate_identifier(name).is_ok(), "{name}");
    }
    for name in ["é", "aé", "a٣", "a.b", "a`", " a", "a ", "{", "@", "["] {
        assert!(validate_identifier(name).is_err(), "{name}");
    }
}

#[test]
fn accepted_schema_names_hold_no_quote() {
    for name in ["codex_state", "_codex2", "tenant42"] {
        assert!(validate_identifier(name).is_ok());
        assert!(!name.contains('"'));
    }
    assert!(validate_identifier("a\"").is_err());
}

#[test]
fn different_tables_have_different_quoted_names() {
    assert_ne!(table("a", "b"), table("ab", ""));
    assert_ne!(table("a", "b"), table("a", "c"));
    // Unlike names that are not accepted as schemas.
    assert_eq!(table("a\".\"b", "c"), table("a", "b\".\"c"));
}
