use tracey::hierarchy::{
    task_query_filter, validate_client_fields, validate_color, validate_entity_name, validate_tag_name,
    HierarchyError,
};

#[test]
fn colors_must_be_hash_and_six_hex_digits() {
    assert!(validate_color("#A1b2C3"));
    assert!(!validate_color("A1b2C3"));
    assert!(!validate_color("#A1b2C"));
    assert!(!validate_color("#A1b2C3D"));
    assert!(!validate_color("#G1b2C3"));
    assert!(!validate_color("#é1b2C"));
}

#[test]
fn names_are_trimmed() {
    assert_eq!(validate_entity_name("  Acme  "), Ok("Acme".to_string()));
    assert_eq!(validate_entity_name(" \t "), Err(HierarchyError::NameConflict));
    assert_eq!(validate_tag_name(""), Err(HierarchyError::NameRequired));
    assert_eq!(HierarchyError::NameRequired.code(), "name_required");
    assert_eq!(HierarchyError::NameConflict.code(), "name_conflict");
}

#[test]
fn client_fields_checked_in_order() {
    assert_eq!(validate_client_fields(" ", "bad", &Some("x".into()), false), Err(HierarchyError::NameConflict));
    assert_eq!(validate_client_fields("A", "bad", &Some("x".into()), false), Err(HierarchyError::InvalidColor));
    assert_eq!(validate_client_fields("A", "#000000", &Some("x".into()), false), Err(HierarchyError::LogoNotFound));
    assert_eq!(validate_client_fields(" A ", "#000000", &None, false), Ok("A".to_string()));
    assert_eq!(HierarchyError::LogoNotFound.code(), "logo_not_found");
    assert_eq!(HierarchyError::InvalidColor.code(), "invalid_color");
}

#[test]
fn blank_task_query_lists_everything() {
    assert_eq!(task_query_filter("   "), None);
    assert_eq!(task_query_filter(" dev "), Some("dev".to_string()));
}
