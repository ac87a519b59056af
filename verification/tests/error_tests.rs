//! Tests for the unified error type and its display text.

use shared_core::error::SystemError;

#[test]
fn test_error_creation() {
    let err = SystemError::validation("email", "Invalid format", Some("not-an-email".to_string()));
    assert!(err.describe().contains("email"));
    assert!(err.describe().contains("Invalid format"));
}

#[test]
fn error_tests_test_error_creation() {
    let err = SystemError::validation("field", "Invalid format", Some("value".to_string()));
    assert!(err.describe().contains("field"));
}

#[test]
fn validation_error_display_text() {
    let err = SystemError::validation("email", "Invalid format", None);
    assert_eq!(
        err.describe(),
        "Validation error in field 'email': Invalid format"
    );
}

#[test]
fn io_error_display_text() {
    let err = SystemError::io("File not found", "reading the manifest");
    assert_eq!(
        err.describe(),
        "I/O error: reading the manifest - File not found"
    );
}

#[test]
fn config_error_display_text() {
    let err = SystemError::config("Missing required field", Some("database.url".to_string()));
    assert_eq!(err.describe(), "Configuration error: Missing required field");
    assert!(matches!(err, SystemError::Config { .. }));
}

#[test]
fn crypto_error_display_text() {
    let err = SystemError::crypto("decrypt", "bad tag");
    assert_eq!(err.describe(), "Cryptographic error during decrypt: bad tag");
}

#[test]
fn network_error_display_text() {
    let err = SystemError::network("connect", "refused", Some(2));
    assert_eq!(err.describe(), "Network error: connect - refused");
}

#[test]
fn timeout_error_display_text() {
    let err = SystemError::timeout("handshake", 150);
    assert_eq!(err.describe(), "Operation timed out after 150ms: handshake");
}

#[test]
fn not_found_error_display_text() {
    let err = SystemError::not_found("plugin", "resizer");
    assert_eq!(err.describe(), "Resource not found: plugin 'resizer'");
}

#[test]
fn internal_error_display_text() {
    let err = SystemError::internal("unreachable branch", None);
    assert_eq!(err.describe(), "Internal error: unreachable branch");
}
