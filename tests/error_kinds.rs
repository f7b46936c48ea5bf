use vult::error::VaultError;
use vult::store::{is_orphaned_table, plan_schema, SchemaPlan, SCHEMA_VERSION};

#[test]
fn test_error_display() {
    let err = VaultError::InvalidPin;
    assert_eq!(err.to_string(), "Invalid PIN");

    let err = VaultError::key_not_found("github", "token");
    assert_eq!(err.to_string(), "Key not found: github/token");

    let err = VaultError::duplicate_key("github", "token");
    assert_eq!(err.to_string(), "Duplicate key: github/token already exists");
}

#[test]
fn test_is_auth_error() {
    assert!(VaultError::InvalidPin.is_auth_error());
    assert!(VaultError::Locked.is_auth_error());
    assert!(!VaultError::NotFound("test".to_string()).is_auth_error());
}

#[test]
fn test_exit_codes() {
    assert_eq!(VaultError::InvalidPin.exit_code(), 1);
    assert_eq!(VaultError::NotFound("test".to_string()).exit_code(), 2);
    assert_eq!(VaultError::NotInitialized.exit_code(), 3);
}

#[test]
fn exit_codes_of_every_category() {
    assert_eq!(VaultError::duplicate_key("a", "b").exit_code(), 4);
    assert_eq!(VaultError::InvalidInput("x".to_string()).exit_code(), 5);
    assert_eq!(VaultError::Decryption("x".to_string()).exit_code(), 6);
    assert_eq!(VaultError::database_context("x").exit_code(), 7);
    assert_eq!(VaultError::Io("x".to_string()).exit_code(), 8);
    assert_eq!(VaultError::InvalidState("x".to_string()).exit_code(), 9);
    assert_eq!(VaultError::Clipboard("x".to_string()).exit_code(), 10);
}

#[test]
fn suggestions_and_messages() {
    assert_eq!(VaultError::Locked.suggestion(), Some("Unlock your vault first with your PIN."));
    assert_eq!(VaultError::Io("x".to_string()).suggestion(), None);
    assert!(VaultError::NotFound("a/b".to_string()).is_not_found());
    assert!(!VaultError::Locked.is_not_found());
    assert_eq!(VaultError::database_context("disk full").to_string(), "Database error: disk full");
    let err = VaultError::IncompatibleVersion { db_version: 3, app_version: 2 };
    assert_eq!(
        err.to_string(),
        "Database version 3 is newer than application version 2. Please update the application."
    );
}

#[test]
fn schema_plans() {
    assert_eq!(SCHEMA_VERSION, 2);
    assert!(matches!(plan_schema(Some(2), false), Ok(SchemaPlan::Current)));
    assert!(matches!(
        plan_schema(None, false),
        Ok(SchemaPlan::Migrate { from_version: 1, backup: true })
    ));
    assert!(matches!(
        plan_schema(Some(1), true),
        Ok(SchemaPlan::Migrate { from_version: 1, backup: false })
    ));
    assert!(matches!(
        plan_schema(Some(3), false),
        Err(VaultError::IncompatibleVersion { db_version: 3, app_version: 2 })
    ));
}

#[test]
fn orphaned_tables() {
    assert!(is_orphaned_table("api_keys_v2"));
    assert!(is_orphaned_table("api_keys_new"));
    assert!(!is_orphaned_table("api_keys"));
    assert!(!is_orphaned_table("vault_config"));
}
