//! Unified error types shared by every component of the library.

use vstd::prelude::*;

use crate::text::{dec_u64, spec_dec};

verus! {

/// Root error type for all systems built on this core.
///
/// Each variant carries the context of one failure category. Components
/// return these through `Result`; none of the verified functions panic.
#[derive(Debug, Clone)]
pub enum SystemError {
    /// I/O failure with context.
    Io { message: String, context: String },
    /// Configuration failure, optionally naming the offending key.
    Config { message: String, key: Option<String> },
    /// Cryptographic operation failure.
    Crypto { operation: String, details: String },
    /// Concurrency failure (a torn-down capacity source, a poisoned lock).
    Concurrency { message: String, thread_id: Option<String> },
    /// Validation failure for a named field.
    Validation { field: String, reason: String, value: Option<String> },
    /// Network failure.
    Network { operation: String, message: String, retry_attempt: Option<u32> },
    /// Database failure.
    Database { operation: String, message: String },
    /// Serialization or deserialization failure.
    Serialization { message: String, format: String },
    /// An operation exceeded its time budget.
    Timeout { operation: String, duration_ms: u64 },
    /// A resource was not found.
    NotFound { resource_type: String, identifier: String },
    /// Permission denied for an operation.
    PermissionDenied { operation: String, required_permission: Option<String> },
    /// A resource already exists.
    AlreadyExists { resource_type: String, identifier: String },
    /// An operation was attempted in the wrong state.
    InvalidState { message: String, current_state: Option<String>, expected_state: Option<String> },
    /// An error specific to one system built on this core.
    SystemSpecific { system: String, message: String, context: Option<String> },
    /// Internal error: a programming error that should not happen.
    Internal { message: String, location: Option<String> },
}

impl SystemError {
    /// Create an I/O error with context.
    pub fn io(message: &str, context: &str) -> (e: SystemError)
        ensures
            e matches SystemError::Io { message: m, context: c } && m@ == message@ && c@
                == context@,
    {
        SystemError::Io { message: message.to_owned(), context: context.to_owned() }
    }

    /// Create a configuration error.
    pub fn config(message: &str, key: Option<String>) -> (e: SystemError)
        ensures
            e matches SystemError::Config { message: m, key: k } && m@ == message@ && k == key,
    {
        SystemError::Config { message: message.to_owned(), key }
    }

    /// Create a cryptographic error.
    pub fn crypto(operation: &str, details: &str) -> (e: SystemError)
        ensures
            e matches SystemError::Crypto { operation: o, details: d } && o@ == operation@ && d@
                == details@,
    {
        SystemError::Crypto { operation: operation.to_owned(), details: details.to_owned() }
    }

    /// Create a validation error.
    pub fn validation(field: &str, reason: &str, value: Option<String>) -> (e: SystemError)
        ensures
            e matches SystemError::Validation { field: f, reason: r, value: v } && f@ == field@
                && r@ == reason@ && v == value,
    {
        SystemError::Validation { field: field.to_owned(), reason: reason.to_owned(), value }
    }

    /// Create a network error.
    pub fn network(operation: &str, message: &str, retry_attempt: Option<u32>) -> (e: SystemError)
        ensures
            e matches SystemError::Network { operation: o, message: m, retry_attempt: r } && o@
                == operation@ && m@ == message@ && r == retry_attempt,
    {
        SystemError::Network {
            operation: operation.to_owned(),
            message: message.to_owned(),
            retry_attempt,
        }
    }

    /// Create a timeout error.
    pub fn timeout(operation: &str, duration_ms: u64) -> (e: SystemError)
        ensures
            e matches SystemError::Timeout { operation: o, duration_ms: d } && o@ == operation@
                && d == duration_ms,
    {
        SystemError::Timeout { operation: operation.to_owned(), duration_ms }
    }

    /// Create a not-found error.
    pub fn not_found(resource_type: &str, identifier: &str) -> (e: SystemError)
        ensures
            e matches SystemError::NotFound { resource_type: t, identifier: i } && t@
                == resource_type@ && i@ == identifier@,
    {
        SystemError::NotFound {
            resource_type: resource_type.to_owned(),
            identifier: identifier.to_owned(),
        }
    }

    /// Create an internal error.
    pub fn internal(message: &str, location: Option<String>) -> (e: SystemError)
        ensures
            e matches SystemError::Internal { message: m, location: l } && m@ == message@ && l
                == location,
    {
        SystemError::Internal { message: message.to_owned(), location }
    }

    /// The error's display text: the failure category and its context.
    pub open spec fn spec_describe(self) -> Seq<char> {
        match self {
            SystemError::Io { message, context } => "I/O error: "@ + context@ + " - "@ + message@,
            SystemError::Config { message, key } => "Configuration error: "@ + message@,
            SystemError::Crypto { operation, details } => "Cryptographic error during "@
                + operation@ + ": "@ + details@,
            SystemError::Concurrency { message, thread_id } => "Concurrency error: "@ + message@,
            SystemError::Validation { field, reason, value } => "Validation error in field '"@
                + field@ + "': "@ + reason@,
            SystemError::Network { operation, message, retry_attempt } => "Network error: "@
                + operation@ + " - "@ + message@,
            SystemError::Database { operation, message } => "Database error during "@ + operation@
                + ": "@ + message@,
            SystemError::Serialization { message, format } => "Serialization error: "@ + message@,
            SystemError::Timeout { operation, duration_ms } => "Operation timed out after "@
                + spec_dec(duration_ms as int) + "ms: "@ + operation@,
            SystemError::NotFound { resource_type, identifier } => "Resource not found: "@
                + resource_type@ + " '"@ + identifier@ + "'"@,
            SystemError::PermissionDenied { operation, required_permission } => (
            "Permission denied: "@ + operation@),
            SystemError::AlreadyExists { resource_type, identifier } => "Resource already exists: "@
                + resource_type@ + " '"@ + identifier@ + "'"@,
            SystemError::InvalidState { message, current_state, expected_state } => (
            "Invalid state: "@ + message@),
            SystemError::SystemSpecific { system, message, context } => "System-specific error: "@
                + system@ + " - "@ + message@,
            SystemError::Internal { message, location } => "Internal error: "@ + message@,
        }
    }

    /// Render the error as display text.
    pub fn describe(&self) -> (r: String)
        ensures
            r@ == self.spec_describe(),
    {
        let text = match self {
            SystemError::Io { message, context } => {
                let mut t = "I/O error: ".to_owned();
                t.append(context.as_str());
                t.append(" - ");
                t.append(message.as_str());
                t
            },
            SystemError::Config { message, .. } => {
                let mut t = "Configuration error: ".to_owned();
                t.append(message.as_str());
                t
            },
            SystemError::Crypto { operation, details } => {
                let mut t = "Cryptographic error during ".to_owned();
                t.append(operation.as_str());
                t.append(": ");
                t.append(details.as_str());
                t
            },
            SystemError::Concurrency { message, .. } => {
                let mut t = "Concurrency error: ".to_owned();
                t.append(message.as_str());
                t
            },
            SystemError::Validation { field, reason, .. } => {
                let mut t = "Validation error in field '".to_owned();
                t.append(field.as_str());
                t.append("': ");
                t.append(reason.as_str());
                t
            },
            SystemError::Network { operation, message, .. } => {
                let mut t = "Network error: ".to_owned();
                t.append(operation.as_str());
                t.append(" - ");
                t.append(message.as_str());
                t
            },
            SystemError::Database { operation, message } => {
                let mut t = "Database error during ".to_owned();
                t.append(operation.as_str());
                t.append(": ");
                t.append(message.as_str());
                t
            },
            SystemError::Serialization { message, .. } => {
                let mut t = "Serialization error: ".to_owned();
                t.append(message.as_str());
                t
            },
            SystemError::Timeout { operation, duration_ms } => {
                let mut t = "Operation timed out after ".to_owned();
                let millis_text = dec_u64(*duration_ms);
                t.append(millis_text.as_str());
                t.append("ms: ");
                t.append(operation.as_str());
                t
            },
            SystemError::NotFound { resource_type, identifier } => {
                let mut t = "Resource not found: ".to_owned();
                t.append(resource_type.as_str());
                t.append(" '");
                t.append(identifier.as_str());
                t.append("'");
                t
            },
            SystemError::PermissionDenied { operation, .. } => {
                let mut t = "Permission denied: ".to_owned();
                t.append(operation.as_str());
                t
            },
            SystemError::AlreadyExists { resource_type, identifier } => {
                let mut t = "Resource already exists: ".to_owned();
                t.append(resource_type.as_str());
                t.append(" '");
                t.append(identifier.as_str());
                t.append("'");
                t
            },
            SystemError::InvalidState { message, .. } => {
                let mut t = "Invalid state: ".to_owned();
                t.append(message.as_str());
                t
            },
            SystemError::SystemSpecific { system, message, .. } => {
                let mut t = "System-specific error: ".to_owned();
                t.append(system.as_str());
                t.append(" - ");
                t.append(message.as_str());
                t
            },
            SystemError::Internal { message, .. } => {
                let mut t = "Internal error: ".to_owned();
                t.append(message.as_str());
                t
            },
        };
        proof {
            assert(text@ =~= self.spec_describe());
        }
        text
    }
}

/// Result type alias used throughout the library.
pub type SystemResult<T> = Result<T, SystemError>;

} // verus!
