use vstd::prelude::*;

verus! {

/// The error taxonomy shared by every operation of the library.
///
/// - `ConfigError`: malformed credentials or configuration; construction fails.
/// - `AuthenticationError`: an authenticated call without usable credentials,
///   or one the backend rejected as unauthorized; never retried.
/// - `NetworkError`: a transport-level failure; the caller may retry.
/// - `ExchangeError`: the backend rejected the request semantically; the HTTP
///   status code and the backend's own message are surfaced verbatim.
/// - `DeserializationError`: a response body of unexpected shape; carries the
///   raw payload for diagnosis.
/// - `MissingParameter`: the caller asked for a parameter value the backend
///   cannot satisfy; detected before any network call.
/// - `UnsupportedOperation`: the backend offers no such operation at all.
#[derive(Clone, Debug, PartialEq, Eq)]
pub enum OpenLimitError {
    ConfigError(String),
    AuthenticationError(String),
    NetworkError(String),
    ExchangeError { code: u16, message: String },
    DeserializationError(String),
    MissingParameter(String),
    UnsupportedOperation(String),
}

impl OpenLimitError {
    /// True exactly of the `MissingParameter` variant.
    pub open spec fn is_missing_parameter(&self) -> bool {
        match *self {
            OpenLimitError::MissingParameter(_) => true,
            _ => false,
        }
    }

    /// True exactly of the `AuthenticationError` variant.
    pub open spec fn is_authentication_error(&self) -> bool {
        match *self {
            OpenLimitError::AuthenticationError(_) => true,
            _ => false,
        }
    }

    /// True exactly of the `DeserializationError` variant.
    pub open spec fn is_deserialization_error(&self) -> bool {
        match *self {
            OpenLimitError::DeserializationError(_) => true,
            _ => false,
        }
    }
}

} // verus!
