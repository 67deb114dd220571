//! Error type shared by the governance modules.
use vstd::prelude::*;

verus! {

/// Errors raised by governance validation and configuration handling.
#[derive(Debug, Clone)]
pub enum GovernanceError {
    /// A signature threshold was not met.
    ThresholdError(String),
    /// Input failed a validation rule.
    ValidationError(String),
    /// Configuration is missing or inconsistent.
    ConfigError(String),
    /// A signature could not be verified.
    SignatureError(String),
    /// A cryptographic operation failed.
    CryptoError(String),
    /// The database refused a request or held something unreadable.
    DatabaseError(String),
    /// A request to GitHub failed.
    GitHubError(String),
}

impl GovernanceError {
    /// The message carried by the error.
    pub open spec fn message(self) -> Seq<char> {
        match self {
            GovernanceError::ThresholdError(m) => m@,
            GovernanceError::ValidationError(m) => m@,
            GovernanceError::ConfigError(m) => m@,
            GovernanceError::SignatureError(m) => m@,
            GovernanceError::CryptoError(m) => m@,
            GovernanceError::DatabaseError(m) => m@,
            GovernanceError::GitHubError(m) => m@,
        }
    }
}

} // verus!
