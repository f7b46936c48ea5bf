use vult::auth::{validate_pin as legacy_validate_pin, AuthError};
use vult::pin::{validate_pin, PinValidationError, MAX_PIN_LENGTH};

#[test]
fn auth_test_validate_pin() {
    assert!(legacy_validate_pin("12345").is_err());
    assert!(legacy_validate_pin("123456").is_ok());
    assert!(legacy_validate_pin("mySecurePin123").is_ok());
    assert!(legacy_validate_pin("password").is_ok());
    assert!(legacy_validate_pin("12345678").is_ok());
}

#[test]
fn test_validate_pin_edge_cases() {
    assert!(legacy_validate_pin("abcdef").is_ok());
    let long_pin = "a".repeat(MAX_PIN_LENGTH + 1);
    assert!(legacy_validate_pin(&long_pin).is_err());
    let max_pin = "a".repeat(MAX_PIN_LENGTH);
    assert!(legacy_validate_pin(&max_pin).is_ok());
}

#[test]
fn legacy_validate_pin_error_kinds() {
    assert!(matches!(legacy_validate_pin("12345"), Err(AuthError::PinTooShort)));
    assert!(matches!(legacy_validate_pin(&"a".repeat(65)), Err(AuthError::InvalidPin)));
    assert!(matches!(legacy_validate_pin("pin\u{e9}1234"), Err(AuthError::InvalidPin)));
}

#[test]
fn types_test_validate_pin_valid() {
    assert!(validate_pin("123456").is_ok());
    assert!(validate_pin("my-secure-pin").is_ok());
    assert!(validate_pin("a".repeat(64).as_str()).is_ok());
}

#[test]
fn types_test_validate_pin_too_short() {
    assert_eq!(validate_pin("12345"), Err(PinValidationError::TooShort));
    assert_eq!(validate_pin(""), Err(PinValidationError::TooShort));
}

#[test]
fn test_validate_pin_too_long() {
    let long_pin = "a".repeat(65);
    assert_eq!(validate_pin(&long_pin), Err(PinValidationError::TooLong));
}

#[test]
fn test_validate_pin_with_spaces() {
    assert!(validate_pin("my secure pin").is_ok());
}

#[test]
fn auth_service_test_validate_pin_too_short() {
    let result = validate_pin("12345");
    assert!(result.is_err());
}

#[test]
fn test_validate_pin_empty() {
    let result = validate_pin("");
    assert!(result.is_err());
}

#[test]
fn auth_service_test_validate_pin_valid() {
    let result = validate_pin("my-secure-pin-123!");
    assert!(result.is_ok());
}

#[test]
fn test_validate_pin_max_length() {
    let pin = "a1b2c3d4".repeat(8);
    assert!(validate_pin(&pin).is_ok());
    let pin = "a1b2c3d4".repeat(9);
    assert!(validate_pin(&pin).is_err());
}

#[test]
fn validate_pin_rejects_non_printable_characters() {
    assert_eq!(validate_pin("abc\tdef"), Err(PinValidationError::InvalidCharacters));
    assert_eq!(validate_pin("caf\u{e9}12"), Err(PinValidationError::InvalidCharacters));
    assert_eq!(validate_pin("~~~~~~"), Ok(()));
}
