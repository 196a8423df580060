use dbmcp::error::AppError;
use dbmcp::identifier::validate_identifier;

#[test]
fn accepts_standard_names() {
    assert!(validate_identifier("users").is_ok());
    assert!(validate_identifier("my_table").is_ok());
    assert!(validate_identifier("DB_123").is_ok());
}

#[test]
fn accepts_hyphenated_names() {
    assert!(validate_identifier("eu-docker").is_ok());
    assert!(validate_identifier("access-logs").is_ok());
}

#[test]
fn accepts_special_chars() {
    assert!(validate_identifier("my.db").is_ok());
    assert!(validate_identifier("123db").is_ok());
    assert!(validate_identifier("café").is_ok());
    assert!(validate_identifier("a b").is_ok());
}

#[test]
fn rejects_empty() {
    assert!(validate_identifier("").is_err());
}

#[test]
fn rejects_whitespace_only() {
    assert!(validate_identifier("   ").is_err());
    assert!(validate_identifier("\t").is_err());
}

#[test]
fn rejects_control_chars() {
    assert!(validate_identifier("test\x00db").is_err());
    assert!(validate_identifier("test\ndb").is_err());
    assert!(validate_identifier("test\x1Fdb").is_err());
}

#[test]
fn rejected_name_is_carried_in_the_error() {
    match validate_identifier("bad\tname\u{7f}") {
        Err(AppError::InvalidIdentifier(name)) => assert_eq!(name, "bad\tname\u{7f}"),
        other => panic!("unexpected result: {other:?}"),
    }
}

#[test]
fn unicode_white_space_alone_is_rejected() {
    assert!(validate_identifier("\u{2003}\u{3000}").is_err());
    assert!(validate_identifier("\u{2003}x").is_ok());
}

#[test]
fn c1_control_characters_are_rejected() {
    assert!(validate_identifier("db\u{85}name").is_err());
    assert!(validate_identifier("db\u{9f}").is_err());
}

#[test]
fn invalid_identifier_message_names_the_value() {
    let err = validate_identifier("").unwrap_err();
    assert_eq!(
        err.message(),
        "Invalid identifier '': must not be empty, whitespace-only, or contain control characters"
    );
}

#[test]
fn single_character_names_follow_std_character_classes() {
    for c in (0u32..=0x10FFFF).filter_map(char::from_u32) {
        let name = c.to_string();
        let refused = c.is_whitespace() || c.is_control();
        assert_eq!(validate_identifier(&name).is_err(), refused, "character U+{:04X}", c as u32);
    }
}
